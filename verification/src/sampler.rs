//! The background sampler: whether to take another sample of the cistern,
//! or to leave off because a shutdown has been asked for.

use vstd::prelude::*;

verus! {

/// What the sampler does in one pass of its loop.
#[derive(Clone, Copy, Debug, PartialEq, Eq, Structural)]
pub enum SamplerAction {
    /// Take a sample from the sensor and hand it to the monitor.
    Measure,
    /// Leave the loop for good.
    Exit,
}

/// Whether what the shutdown channel held asks the sampler to stop. An
/// empty or closed channel does not, nor does a notice of `false`.
pub open spec fn cancel_requested(notice: Option<bool>) -> bool {
    notice == Some(true)
}

/// Whether a sampler that has seen `notices`, one in each pass, has stopped.
pub open spec fn stopped_after(notices: Seq<Option<bool>>) -> bool
    decreases notices.len(),
{
    if notices.len() == 0 {
        false
    } else {
        stopped_after(notices.drop_last()) || cancel_requested(notices.last())
    }
}

/// What a sampler does in its pass number `pass`, counted from 0, when
/// `notices` are what it finds on the shutdown channel in each pass.
pub open spec fn action_in(notices: Seq<Option<bool>>, pass: int) -> SamplerAction {
    if stopped_after(notices.take(pass + 1)) {
        SamplerAction::Exit
    } else {
        SamplerAction::Measure
    }
}

/// A sampler has stopped exactly when one of the notices that it has seen
/// asked for it.
pub proof fn lemma_stopped_iff_cancelled(notices: Seq<Option<bool>>)
    ensures
        stopped_after(notices) <==> exists|i: int|
            0 <= i < notices.len() && cancel_requested(#[trigger] notices[i]),
    decreases notices.len(),
{
    if notices.len() > 0 {
        let before = notices.drop_last();
        lemma_stopped_iff_cancelled(before);
        if stopped_after(before) {
            let i = choose|i: int| 0 <= i < before.len() && cancel_requested(#[trigger] before[i]);
            assert(cancel_requested(notices[i]));
        } else if cancel_requested(notices.last()) {
            assert(cancel_requested(notices[notices.len() - 1]));
        } else {
            assert forall|i: int| 0 <= i < notices.len() implies !cancel_requested(
                #[trigger] notices[i],
            ) by {
                if i < before.len() {
                    assert(before[i] == notices[i]);
                }
            }
        }
    }
}

/// Once a notice has asked the sampler to stop, it takes no further sample:
/// in that pass and in every later one it leaves the loop, whatever the
/// channel holds then.
pub proof fn lemma_no_measure_after_cancel(notices: Seq<Option<bool>>, seen: int, pass: int)
    requires
        0 <= seen <= pass < notices.len(),
        cancel_requested(notices[seen]),
    ensures
        action_in(notices, pass) == SamplerAction::Exit,
{
    let so_far = notices.take(pass + 1);
    lemma_stopped_iff_cancelled(so_far);
    assert(cancel_requested(so_far[seen]));
}

/// Until a notice asks the sampler to stop, it takes a sample in every
/// pass. What the samples give has no part in it: a failed sample does not
/// keep the sampler from taking the next.
pub proof fn lemma_measures_until_cancelled(notices: Seq<Option<bool>>, pass: int)
    requires
        0 <= pass < notices.len(),
        forall|i: int| 0 <= i <= pass ==> !cancel_requested(#[trigger] notices[i]),
    ensures
        action_in(notices, pass) == SamplerAction::Measure,
{
    let so_far = notices.take(pass + 1);
    lemma_stopped_iff_cancelled(so_far);
    assert forall|i: int| 0 <= i < so_far.len() implies !cancel_requested(
        #[trigger] so_far[i],
    ) by {
        assert(so_far[i] == notices[i]);
    }
}

/// The state of the background sampler.
#[derive(Debug)]
pub struct Sampler {
    stopped: bool,
}

impl Sampler {
    /// Whether the sampler has been asked to stop.
    pub closed spec fn stopped(&self) -> bool {
        self.stopped
    }

    /// A sampler that has not been asked to stop.
    pub fn new() -> (sampler: Sampler)
        ensures
            !sampler.stopped(),
    {
        Sampler { stopped: false }
    }

    /// Whether the sampler has been asked to stop.
    pub fn is_stopped(&self) -> (stopped: bool)
        ensures
            stopped == self.stopped(),
    {
        self.stopped
    }

    /// One pass of the loop. `notice` is what the shutdown channel held, if
    /// anything. The sampler stops when the notice asks for it, and stays
    /// stopped from then on; otherwise it goes on to measure.
    pub fn poll(&mut self, notice: Option<bool>) -> (action: SamplerAction)
        ensures
            final(self).stopped() == (old(self).stopped() || cancel_requested(notice)),
            action == if final(self).stopped() {
                SamplerAction::Exit
            } else {
                SamplerAction::Measure
            },
    {
        match notice {
            Some(true) => {
                self.stopped = true;
            },
            _ => {},
        }
        if self.stopped {
            SamplerAction::Exit
        } else {
            SamplerAction::Measure
        }
    }
}

} // verus!
