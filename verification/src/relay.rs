//! The three relay lines of the door drive and the commands sent to them.

use crate::{RELAY_IN1_PIN, RELAY_IN2_PIN, RELAY_IN3_PIN, RELAY_IN4_PIN};
use vstd::prelude::*;

verus! {

/// How long a relay line is held active for one press of its switch, and how
/// long the drive is given to settle after a stop, in milliseconds.
pub const SETTLE_MS: u64 = 500;

/// A relay line, named by the switch of the door drive that it presses.
#[derive(Clone, Copy, Debug, PartialEq, Eq, Structural)]
pub enum Line {
    /// The stop switch.
    Halt,
    /// The switch that starts the door upwards.
    Open,
    /// The switch that starts the door downwards.
    Close,
}

/// The pin that `line` is wired to: the stop switch hangs on the second relay
/// input, the open switch on the first and the close switch on the third.
pub open spec fn line_pin(line: Line) -> u8 {
    match line {
        Line::Halt => RELAY_IN2_PIN,
        Line::Open => RELAY_IN1_PIN,
        Line::Close => RELAY_IN3_PIN,
    }
}

/// The pin that `line` is wired to. No two lines share a pin, and none uses
/// the fourth relay input, which is left to the speakers.
pub fn pin_of(line: Line) -> (pin: u8)
    ensures
        pin == line_pin(line),
        pin != RELAY_IN4_PIN,
        forall|other: Line| other != line ==> line_pin(other) != pin,
{
    match line {
        Line::Halt => RELAY_IN2_PIN,
        Line::Open => RELAY_IN1_PIN,
        Line::Close => RELAY_IN3_PIN,
    }
}

/// One command for the driver of the relay lines.
#[derive(Clone, Copy, Debug, PartialEq, Eq, Structural)]
pub enum Step {
    /// Make the line inactive.
    Release(Line),
    /// Make the line active.
    Engage(Line),
    /// Leave all lines as they are for this many milliseconds.
    Wait(u64),
}

/// The state of the three relay lines: `true` where a line is active.
#[derive(Clone, Copy, Debug, PartialEq, Eq, Structural)]
pub struct Relays {
    pub halt: bool,
    pub open: bool,
    pub close: bool,
}

impl Relays {
    /// All three lines inactive.
    pub open spec fn idle() -> Relays {
        Relays { halt: false, open: false, close: false }
    }

    /// Whether `line` is active.
    pub open spec fn active(self, line: Line) -> bool {
        match line {
            Line::Halt => self.halt,
            Line::Open => self.open,
            Line::Close => self.close,
        }
    }

    /// The state with `line` set to `level` and the other lines unchanged.
    pub open spec fn with(self, line: Line, level: bool) -> Relays {
        match line {
            Line::Halt => Relays { halt: level, ..self },
            Line::Open => Relays { open: level, ..self },
            Line::Close => Relays { close: level, ..self },
        }
    }

    /// No two lines are active together.
    pub open spec fn exclusive(self) -> bool {
        &&& !(self.halt && self.open)
        &&& !(self.halt && self.close)
        &&& !(self.open && self.close)
    }

    /// The state after the driver has carried out `step`.
    pub open spec fn after(self, step: Step) -> Relays {
        match step {
            Step::Release(line) => self.with(line, false),
            Step::Engage(line) => self.with(line, true),
            Step::Wait(_) => self,
        }
    }

    /// The state after the driver has carried out all of `plan`, in order.
    pub open spec fn after_all(self, plan: Seq<Step>) -> Relays
        decreases plan.len(),
    {
        if plan.len() == 0 {
            self
        } else {
            self.after_all(plan.drop_last()).after(plan.last())
        }
    }

    /// The lines as they are before any command.
    pub fn new() -> (relays: Relays)
        ensures
            relays == Relays::idle(),
    {
        Relays { halt: false, open: false, close: false }
    }

    /// Whether `line` is active.
    pub fn is_active(&self, line: Line) -> (active: bool)
        ensures
            active == self.active(line),
    {
        match line {
            Line::Halt => self.halt,
            Line::Open => self.open,
            Line::Close => self.close,
        }
    }

    /// Whether no two lines are active together.
    pub fn is_exclusive(&self) -> (exclusive: bool)
        ensures
            exclusive == self.exclusive(),
    {
        !(self.halt && self.open) && !(self.halt && self.close) && !(self.open && self.close)
    }

    /// Carries out `step` on the recorded state.
    pub fn apply(&mut self, step: Step)
        ensures
            *final(self) == old(self).after(step),
    {
        match step {
            Step::Release(line) => self.set(line, false),
            Step::Engage(line) => self.set(line, true),
            Step::Wait(_) => {},
        }
    }

    fn set(&mut self, line: Line, level: bool)
        ensures
            *final(self) == old(self).with(line, level),
    {
        match line {
            Line::Halt => {
                self.halt = level;
            },
            Line::Open => {
                self.open = level;
            },
            Line::Close => {
                self.close = level;
            },
        }
    }
}

/// One press of the switch behind `line`: the other two lines are released,
/// then `line` is held active for the settle interval and released again.
pub open spec fn pulse(line: Line) -> Seq<Step> {
    match line {
        Line::Halt => seq![
            Step::Release(Line::Open),
            Step::Release(Line::Close),
            Step::Engage(Line::Halt),
            Step::Wait(SETTLE_MS),
            Step::Release(Line::Halt),
        ],
        Line::Open => seq![
            Step::Release(Line::Halt),
            Step::Release(Line::Close),
            Step::Engage(Line::Open),
            Step::Wait(SETTLE_MS),
            Step::Release(Line::Open),
        ],
        Line::Close => seq![
            Step::Release(Line::Halt),
            Step::Release(Line::Open),
            Step::Engage(Line::Close),
            Step::Wait(SETTLE_MS),
            Step::Release(Line::Close),
        ],
    }
}

/// The commands that release all three lines, whatever state they are in.
pub open spec fn release_all() -> Seq<Step> {
    seq![Step::Release(Line::Halt), Step::Release(Line::Open), Step::Release(Line::Close)]
}

/// Carried out from `start`, `plan` never leaves two lines active together:
/// not before its first command, not after its last, and at no point between.
pub open spec fn exclusive_throughout(start: Relays, plan: Seq<Step>) -> bool {
    forall|k: int|
        0 <= k <= plan.len() ==> (#[trigger] start.after_all(plan.take(k))).exclusive()
}

/// Every activation in `plan` is followed at once by a wait of exactly the
/// settle interval, and that by the release of the same line.
pub open spec fn pulses_exact(plan: Seq<Step>) -> bool {
    forall|i: int|
        0 <= i < plan.len() && (#[trigger] plan[i]) is Engage ==> {
            &&& i + 2 < plan.len()
            &&& plan[i + 1] == Step::Wait(SETTLE_MS)
            &&& plan[i + 2] == Step::Release(plan[i]->Engage_0)
        }
}

/// The milliseconds that `step` takes.
pub open spec fn step_millis(step: Step) -> nat {
    match step {
        Step::Wait(millis) => millis as nat,
        _ => 0,
    }
}

/// The milliseconds that carrying out `plan` takes: the sum of its waits.
pub open spec fn duration(plan: Seq<Step>) -> nat
    decreases plan.len(),
{
    if plan.len() == 0 {
        0
    } else {
        duration(plan.drop_last()) + step_millis(plan.last())
    }
}

/// The state after the first `k + 1` commands is the state after the first
/// `k`, with command `k` carried out.
pub proof fn lemma_after_next(start: Relays, plan: Seq<Step>, k: int)
    requires
        0 <= k < plan.len(),
    ensures
        start.after_all(plan.take(k + 1)) == start.after_all(plan.take(k)).after(plan[k]),
{
    assert(plan.take(k + 1).drop_last() =~= plan.take(k));
}

/// Carrying out two plans one after the other is carrying out the second
/// from where the first has left the lines.
pub proof fn lemma_after_concat(start: Relays, first: Seq<Step>, second: Seq<Step>)
    ensures
        start.after_all(first + second) == start.after_all(first).after_all(second),
    decreases second.len(),
{
    if second.len() == 0 {
        assert(first + second =~= first);
    } else {
        lemma_after_concat(start, first, second.drop_last());
        assert((first + second).drop_last() =~= first + second.drop_last());
    }
}

/// Two plans that each keep the lines exclusive do so one after the other.
pub proof fn lemma_exclusive_concat(start: Relays, first: Seq<Step>, second: Seq<Step>)
    requires
        exclusive_throughout(start, first),
        exclusive_throughout(start.after_all(first), second),
    ensures
        exclusive_throughout(start, first + second),
{
    let both = first + second;
    assert forall|k: int| 0 <= k <= both.len() implies (#[trigger] start.after_all(
        both.take(k),
    )).exclusive() by {
        if k <= first.len() {
            assert(both.take(k) =~= first.take(k));
        } else {
            let rest = second.take(k - first.len());
            assert(both.take(k) =~= first + rest);
            lemma_after_concat(start, first, rest);
            assert(start.after_all(first).after_all(rest).exclusive());
        }
    }
}

/// Two plans whose pulses are exact stay so one after the other.
pub proof fn lemma_pulses_concat(first: Seq<Step>, second: Seq<Step>)
    requires
        pulses_exact(first),
        pulses_exact(second),
    ensures
        pulses_exact(first + second),
{
    let both = first + second;
    assert forall|i: int| 0 <= i < both.len() && (#[trigger] both[i]) is Engage implies {
        &&& i + 2 < both.len()
        &&& both[i + 1] == Step::Wait(SETTLE_MS)
        &&& both[i + 2] == Step::Release(both[i]->Engage_0)
    } by {
        if i < first.len() {
            assert(first[i] is Engage);
        } else {
            assert(second[i - first.len()] is Engage);
        }
    }
}

/// The time of two plans one after the other is the sum of their times.
pub proof fn lemma_duration_concat(first: Seq<Step>, second: Seq<Step>)
    ensures
        duration(first + second) == duration(first) + duration(second),
    decreases second.len(),
{
    if second.len() == 0 {
        assert(first + second =~= first);
    } else {
        lemma_duration_concat(first, second.drop_last());
        assert((first + second).drop_last() =~= first + second.drop_last());
    }
}

/// A plan of one more command takes the time of that command longer.
pub proof fn lemma_duration_push(plan: Seq<Step>, step: Step)
    ensures
        duration(plan.push(step)) == duration(plan) + step_millis(step),
{
    assert(plan.push(step).drop_last() =~= plan);
}

/// One press of a switch, begun with no two lines active together, keeps it
/// so throughout, holds its own line for exactly the settle interval, takes
/// that long in all, and leaves every line inactive.
pub proof fn lemma_pulse(start: Relays, line: Line)
    requires
        start.exclusive(),
    ensures
        exclusive_throughout(start, pulse(line)),
        pulses_exact(pulse(line)),
        duration(pulse(line)) == SETTLE_MS,
        start.after_all(pulse(line)) == Relays::idle(),
{
    let plan = pulse(line);
    assert(plan.take(0) =~= Seq::<Step>::empty());
    lemma_after_next(start, plan, 0);
    lemma_after_next(start, plan, 1);
    lemma_after_next(start, plan, 2);
    lemma_after_next(start, plan, 3);
    lemma_after_next(start, plan, 4);
    assert(plan.take(5) =~= plan);
    let none = Seq::<Step>::empty();
    assert(plan =~= none.push(plan[0]).push(plan[1]).push(plan[2]).push(plan[3]).push(plan[4]));
    lemma_duration_push(none, plan[0]);
    lemma_duration_push(none.push(plan[0]), plan[1]);
    lemma_duration_push(none.push(plan[0]).push(plan[1]), plan[2]);
    lemma_duration_push(none.push(plan[0]).push(plan[1]).push(plan[2]), plan[3]);
    lemma_duration_push(none.push(plan[0]).push(plan[1]).push(plan[2]).push(plan[3]), plan[4]);
}

/// Releasing all three lines leaves every line inactive, whatever state they
/// were in, and takes no time.
pub proof fn lemma_release_all(start: Relays)
    ensures
        start.after_all(release_all()) == Relays::idle(),
        pulses_exact(release_all()),
        duration(release_all()) == 0,
{
    let plan = release_all();
    assert(plan.take(0) =~= Seq::<Step>::empty());
    lemma_after_next(start, plan, 0);
    lemma_after_next(start, plan, 1);
    lemma_after_next(start, plan, 2);
    assert(plan.take(3) =~= plan);
    let none = Seq::<Step>::empty();
    assert(plan =~= none.push(plan[0]).push(plan[1]).push(plan[2]));
    lemma_duration_push(none, plan[0]);
    lemma_duration_push(none.push(plan[0]), plan[1]);
    lemma_duration_push(none.push(plan[0]).push(plan[1]), plan[2]);
}

} // verus!
