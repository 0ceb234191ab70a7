//! The door controller: what to send to the relay lines for each request,
//! with the interlock that stops the drive before it is sent a new direction.

use crate::relay::{
    duration, exclusive_throughout, lemma_after_concat, lemma_after_next, lemma_duration_concat,
    lemma_duration_push, lemma_exclusive_concat, lemma_pulse, lemma_pulses_concat,
    lemma_release_all, pulse, pulses_exact, release_all, Line, Relays, Step, SETTLE_MS,
};
use vstd::prelude::*;

verus! {

/// A request to the door.
#[derive(Clone, Copy, Debug, PartialEq, Eq, Structural)]
pub enum Command {
    /// Start the door upwards.
    Open,
    /// Stop the door where it is.
    Stop,
    /// Start the door downwards.
    Close,
}

/// What precedes a command to move: nothing when the door is closed, so at
/// rest; otherwise a press of the stop switch and a wait of the settle
/// interval, since a door that is not closed may be moving.
pub open spec fn interlock(closed: bool) -> Seq<Step> {
    if closed {
        Seq::empty()
    } else {
        pulse(Line::Halt).push(Step::Wait(SETTLE_MS))
    }
}

/// The plan for opening the door, given what the sensor reads.
pub open spec fn open_plan(closed: bool) -> Seq<Step> {
    interlock(closed) + pulse(Line::Open)
}

/// The plan for stopping the door.
pub open spec fn stop_plan() -> Seq<Step> {
    pulse(Line::Halt)
}

/// The plan for closing the door, given what the sensor reads.
pub open spec fn close_plan(closed: bool) -> Seq<Step> {
    interlock(closed) + pulse(Line::Close)
}

/// The plan for `command`, given what the sensor reads.
pub open spec fn command_plan(command: Command, closed: bool) -> Seq<Step> {
    match command {
        Command::Open => open_plan(closed),
        Command::Stop => stop_plan(),
        Command::Close => close_plan(closed),
    }
}

/// The plans of a series of requests, one after the other: each request
/// comes with what the sensor read when it was made.
pub open spec fn session_plan(calls: Seq<(Command, bool)>) -> Seq<Step>
    decreases calls.len(),
{
    if calls.len() == 0 {
        Seq::empty()
    } else {
        session_plan(calls.drop_last()) + command_plan(calls.last().0, calls.last().1)
    }
}

/// The time that the plan for `command` takes: one settle interval for the
/// press itself, and two more where the interlock comes first.
pub open spec fn command_millis(command: Command, closed: bool) -> nat {
    if command == Command::Stop || closed {
        SETTLE_MS as nat
    } else {
        3 * SETTLE_MS as nat
    }
}

/// Carried out from lines at rest, `plan` never has two lines active
/// together, holds every line that it activates for exactly the settle
/// interval, and leaves the lines at rest.
pub open spec fn safe_plan(plan: Seq<Step>) -> bool {
    &&& exclusive_throughout(Relays::idle(), plan)
    &&& pulses_exact(plan)
    &&& Relays::idle().after_all(plan) == Relays::idle()
}

/// The interlock, begun with no two lines active together, keeps it so
/// throughout and presses the stop switch for exactly the settle interval.
/// Where the door is closed it does nothing; where it is not, it takes two
/// settle intervals and leaves every line inactive.
pub proof fn lemma_interlock(start: Relays, closed: bool)
    requires
        start.exclusive(),
    ensures
        exclusive_throughout(start, interlock(closed)),
        pulses_exact(interlock(closed)),
        closed ==> interlock(closed).len() == 0 && start.after_all(interlock(closed)) == start,
        !closed ==> interlock(closed) == pulse(Line::Halt) + seq![Step::Wait(SETTLE_MS)],
        !closed ==> start.after_all(interlock(closed)) == Relays::idle(),
        duration(interlock(closed)) == if closed { 0 } else { 2 * SETTLE_MS as nat },
{
    let none = Seq::<Step>::empty();
    if closed {
        assert forall|k: int| 0 <= k <= none.len() implies (#[trigger] start.after_all(
            none.take(k),
        )).exclusive() by {
            assert(none.take(k) =~= none);
        }
    } else {
        let wait = seq![Step::Wait(SETTLE_MS)];
        let press = pulse(Line::Halt);
        assert(interlock(closed) =~= press + wait);
        lemma_pulse(start, Line::Halt);
        let rest = Relays::idle();
        assert(wait.take(0) =~= none);
        lemma_after_next(rest, wait, 0);
        assert(wait.take(1) =~= wait);
        assert forall|k: int| 0 <= k <= wait.len() implies (#[trigger] rest.after_all(
            wait.take(k),
        )).exclusive() by {
            if k == 0 {
            } else {
                assert(k == 1);
            }
        }
        lemma_exclusive_concat(start, press, wait);
        lemma_pulses_concat(press, wait);
        lemma_after_concat(start, press, wait);
        lemma_duration_push(press, Step::Wait(SETTLE_MS));
    }
}

/// The plan for a request, begun with no two lines active together, keeps
/// it so throughout, holds each line that it activates for exactly the
/// settle interval, takes one settle interval, or three with the interlock,
/// and leaves every line inactive.
pub proof fn lemma_command_plan(start: Relays, command: Command, closed: bool)
    requires
        start.exclusive(),
    ensures
        exclusive_throughout(start, command_plan(command, closed)),
        pulses_exact(command_plan(command, closed)),
        duration(command_plan(command, closed)) == command_millis(command, closed),
        start.after_all(command_plan(command, closed)) == Relays::idle(),
{
    match command {
        Command::Stop => {
            lemma_pulse(start, Line::Halt);
        },
        Command::Open => {
            lemma_move_plan(start, Line::Open, closed);
        },
        Command::Close => {
            lemma_move_plan(start, Line::Close, closed);
        },
    }
}

/// What `lemma_command_plan` says, for the interlock followed by a press
/// of the switch behind `line`.
proof fn lemma_move_plan(start: Relays, line: Line, closed: bool)
    requires
        start.exclusive(),
    ensures
        exclusive_throughout(start, interlock(closed) + pulse(line)),
        pulses_exact(interlock(closed) + pulse(line)),
        duration(interlock(closed) + pulse(line)) == if closed {
            SETTLE_MS as nat
        } else {
            3 * SETTLE_MS as nat
        },
        start.after_all(interlock(closed) + pulse(line)) == Relays::idle(),
{
    let first = interlock(closed);
    let press = pulse(line);
    lemma_interlock(start, closed);
    let between = start.after_all(first);
    lemma_pulse(between, line);
    lemma_exclusive_concat(start, first, press);
    lemma_pulses_concat(first, press);
    lemma_duration_concat(first, press);
    lemma_after_concat(start, first, press);
}

/// Opening a door that is not closed is a press of the stop switch, a wait
/// of the settle interval and a press of the open switch: three settle
/// intervals in all. Opening a closed door is the press of the open switch
/// alone.
pub proof fn lemma_open_interlocks(closed: bool)
    ensures
        !closed ==> open_plan(closed) == pulse(Line::Halt) + seq![Step::Wait(SETTLE_MS)] + pulse(
            Line::Open,
        ),
        closed ==> open_plan(closed) == pulse(Line::Open),
        duration(open_plan(closed)) == if closed { 500nat } else { 1500nat },
{
    lemma_interlock(Relays::idle(), closed);
    lemma_command_plan(Relays::idle(), Command::Open, closed);
    if closed {
        assert(open_plan(closed) =~= pulse(Line::Open));
    }
}

/// Closing a door that is not closed is a press of the stop switch, a wait
/// of the settle interval and a press of the close switch: three settle
/// intervals in all. Closing a closed door is the press of the close switch
/// alone.
pub proof fn lemma_close_interlocks(closed: bool)
    ensures
        !closed ==> close_plan(closed) == pulse(Line::Halt) + seq![Step::Wait(SETTLE_MS)]
            + pulse(Line::Close),
        closed ==> close_plan(closed) == pulse(Line::Close),
        duration(close_plan(closed)) == if closed { 500nat } else { 1500nat },
{
    lemma_interlock(Relays::idle(), closed);
    lemma_command_plan(Relays::idle(), Command::Close, closed);
    if closed {
        assert(close_plan(closed) =~= pulse(Line::Close));
    }
}

/// Stopping is one press of the stop switch and nothing else, whatever the
/// sensor reads: the interlock has no part in it.
pub proof fn lemma_stop_never_interlocks(closed: bool)
    ensures
        command_plan(Command::Stop, closed) == pulse(Line::Halt),
        command_plan(Command::Stop, closed) == command_plan(Command::Stop, !closed),
        duration(command_plan(Command::Stop, closed)) == 500,
{
    lemma_pulse(Relays::idle(), Line::Halt);
}

/// Whatever requests are made, in whatever order and whatever the sensor
/// reads at each: carried out one after the other from lines at rest, their
/// plans never have two lines active together, hold every line that they
/// activate for exactly the settle interval, and leave every line inactive.
pub proof fn lemma_session_is_safe(calls: Seq<(Command, bool)>)
    ensures
        exclusive_throughout(Relays::idle(), session_plan(calls)),
        pulses_exact(session_plan(calls)),
        Relays::idle().after_all(session_plan(calls)) == Relays::idle(),
    decreases calls.len(),
{
    let rest = Relays::idle();
    if calls.len() == 0 {
        let none = Seq::<Step>::empty();
        assert forall|k: int| 0 <= k <= none.len() implies (#[trigger] rest.after_all(
            none.take(k),
        )).exclusive() by {
            assert(none.take(k) =~= none);
        }
    } else {
        let before = session_plan(calls.drop_last());
        let last = command_plan(calls.last().0, calls.last().1);
        lemma_session_is_safe(calls.drop_last());
        lemma_command_plan(rest, calls.last().0, calls.last().1);
        lemma_exclusive_concat(rest, before, last);
        lemma_pulses_concat(before, last);
        lemma_after_concat(rest, before, last);
    }
}

/// Two requests that are served one after the other never overlap: the
/// first leaves every line inactive before the second sends its first
/// command, and the two plans together never have two lines active.
pub proof fn lemma_requests_do_not_overlap(first: (Command, bool), second: (Command, bool))
    ensures
        Relays::idle().after_all(command_plan(first.0, first.1)) == Relays::idle(),
        exclusive_throughout(
            Relays::idle(),
            command_plan(first.0, first.1) + command_plan(second.0, second.1),
        ),
        pulses_exact(command_plan(first.0, first.1) + command_plan(second.0, second.1)),
        duration(command_plan(first.0, first.1) + command_plan(second.0, second.1))
            == command_millis(first.0, first.1) + command_millis(second.0, second.1),
{
    let rest = Relays::idle();
    let one = command_plan(first.0, first.1);
    let two = command_plan(second.0, second.1);
    lemma_command_plan(rest, first.0, first.1);
    lemma_command_plan(rest, second.0, second.1);
    lemma_exclusive_concat(rest, one, two);
    lemma_pulses_concat(one, two);
    lemma_duration_concat(one, two);
}

/// The door controller. It records the state of the three relay lines, as
/// its plans leave them, and the last reading of the sensor that tells
/// whether the door is fully closed.
#[derive(Debug, PartialEq, Eq, Structural)]
pub struct GarageDoor {
    relays: Relays,
    closed: bool,
}

impl GarageDoor {
    /// The recorded state of the relay lines.
    pub closed spec fn relays(&self) -> Relays {
        self.relays
    }

    /// Whether the sensor last read "fully closed".
    pub closed spec fn closed(&self) -> bool {
        self.closed
    }

    /// A controller for a door whose sensor reads `closed`, and the plan that
    /// brings the relay lines to rest: all three are released, which leaves
    /// every line inactive whatever state the lines were in.
    pub fn new(closed: bool) -> (made: (GarageDoor, Vec<Step>))
        ensures
            made.0.closed() == closed,
            made.0.relays() == Relays::idle(),
            made.1@ == release_all(),
            forall|start: Relays| #[trigger] start.after_all(made.1@) == Relays::idle(),
    {
        let mut door = GarageDoor { relays: Relays::new(), closed };
        let mut plan: Vec<Step> = Vec::new();
        let ghost start = door.relays;
        door.send(&mut plan, Step::Release(Line::Halt), Ghost(start));
        door.send(&mut plan, Step::Release(Line::Open), Ghost(start));
        door.send(&mut plan, Step::Release(Line::Close), Ghost(start));
        proof {
            assert(plan@ =~= release_all());
            assert forall|start: Relays| #[trigger]
                start.after_all(release_all()) == Relays::idle() by {
                lemma_release_all(start);
            }
        }
        (door, plan)
    }

    /// Records a new reading of the sensor.
    pub fn observe(&mut self, closed: bool)
        ensures
            final(self).closed() == closed,
            final(self).relays() == old(self).relays(),
    {
        self.closed = closed;
    }

    /// Whether the door is fully closed, by the last reading of the sensor.
    /// The controller is left as it was.
    pub fn is_closed(&mut self) -> (closed: bool)
        ensures
            closed == old(self).closed(),
            *final(self) == *old(self),
    {
        self.closed
    }

    /// Whether the door is not fully closed: it may be open, or moving. The
    /// controller is left as it was.
    pub fn is_open(&mut self) -> (open: bool)
        ensures
            open == !old(self).closed(),
            *final(self) == *old(self),
    {
        !self.is_closed()
    }

    /// The state of the relay lines as the plans given out so far leave them.
    pub fn lines(&self) -> (relays: Relays)
        ensures
            relays == self.relays(),
    {
        self.relays
    }

    /// The plan that opens the door. Where the door is not closed, the drive
    /// is stopped and given the settle interval first.
    pub fn open(&mut self) -> (plan: Vec<Step>)
        ensures
            plan@ == open_plan(old(self).closed()),
            safe_plan(plan@),
            duration(plan@) == command_millis(Command::Open, old(self).closed()),
            final(self).relays() == old(self).relays().after_all(plan@),
            final(self).relays() == Relays::idle(),
            final(self).closed() == old(self).closed(),
    {
        let mut plan: Vec<Step> = Vec::new();
        let ghost start = self.relays;
        if self.is_open() {
            self.halt(&mut plan, Ghost(start));
            self.send(&mut plan, Step::Wait(SETTLE_MS), Ghost(start));
        }
        self.send(&mut plan, Step::Release(Line::Halt), Ghost(start));
        self.send(&mut plan, Step::Release(Line::Close), Ghost(start));
        self.send(&mut plan, Step::Engage(Line::Open), Ghost(start));
        self.send(&mut plan, Step::Wait(SETTLE_MS), Ghost(start));
        self.send(&mut plan, Step::Release(Line::Open), Ghost(start));
        proof {
            assert(plan@ =~= open_plan(self.closed));
            lemma_command_plan(Relays::idle(), Command::Open, self.closed);
        }
        plan
    }

    /// The plan that stops the door, whatever the sensor reads.
    pub fn stop(&mut self) -> (plan: Vec<Step>)
        ensures
            plan@ == stop_plan(),
            safe_plan(plan@),
            duration(plan@) == SETTLE_MS,
            final(self).relays() == old(self).relays().after_all(plan@),
            final(self).relays() == Relays::idle(),
            final(self).closed() == old(self).closed(),
    {
        let mut plan: Vec<Step> = Vec::new();
        let ghost start = self.relays;
        self.halt(&mut plan, Ghost(start));
        proof {
            assert(plan@ =~= stop_plan());
            lemma_command_plan(Relays::idle(), Command::Stop, self.closed);
        }
        plan
    }

    /// The plan that closes the door. Where the door is not closed, the drive
    /// is stopped and given the settle interval first.
    pub fn close(&mut self) -> (plan: Vec<Step>)
        ensures
            plan@ == close_plan(old(self).closed()),
            safe_plan(plan@),
            duration(plan@) == command_millis(Command::Close, old(self).closed()),
            final(self).relays() == old(self).relays().after_all(plan@),
            final(self).relays() == Relays::idle(),
            final(self).closed() == old(self).closed(),
    {
        let mut plan: Vec<Step> = Vec::new();
        let ghost start = self.relays;
        if self.is_open() {
            self.halt(&mut plan, Ghost(start));
            self.send(&mut plan, Step::Wait(SETTLE_MS), Ghost(start));
        }
        self.send(&mut plan, Step::Release(Line::Halt), Ghost(start));
        self.send(&mut plan, Step::Release(Line::Open), Ghost(start));
        self.send(&mut plan, Step::Engage(Line::Close), Ghost(start));
        self.send(&mut plan, Step::Wait(SETTLE_MS), Ghost(start));
        self.send(&mut plan, Step::Release(Line::Close), Ghost(start));
        proof {
            assert(plan@ =~= close_plan(self.closed));
            lemma_command_plan(Relays::idle(), Command::Close, self.closed);
        }
        plan
    }

    /// The plan for `command`.
    pub fn perform(&mut self, command: Command) -> (plan: Vec<Step>)
        ensures
            plan@ == command_plan(command, old(self).closed()),
            safe_plan(plan@),
            duration(plan@) == command_millis(command, old(self).closed()),
            final(self).relays() == old(self).relays().after_all(plan@),
            final(self).relays() == Relays::idle(),
            final(self).closed() == old(self).closed(),
    {
        match command {
            Command::Open => self.open(),
            Command::Stop => self.stop(),
            Command::Close => self.close(),
        }
    }

    /// Appends one press of the stop switch to `plan`, which holds what has
    /// been sent since the lines were in state `start`.
    fn halt(&mut self, plan: &mut Vec<Step>, Ghost(start): Ghost<Relays>)
        requires
            old(self).relays == start.after_all(old(plan)@),
        ensures
            final(plan)@ == old(plan)@ + pulse(Line::Halt),
            final(self).relays == start.after_all(final(plan)@),
            final(self).relays == Relays::idle(),
            final(self).closed == old(self).closed,
    {
        self.send(plan, Step::Release(Line::Open), Ghost(start));
        self.send(plan, Step::Release(Line::Close), Ghost(start));
        self.send(plan, Step::Engage(Line::Halt), Ghost(start));
        self.send(plan, Step::Wait(SETTLE_MS), Ghost(start));
        self.send(plan, Step::Release(Line::Halt), Ghost(start));
        assert(plan@ =~= old(plan)@ + pulse(Line::Halt));
    }

    /// Appends `step` to `plan`, which holds what has been sent since the
    /// lines were in state `start`, and records what `step` does to them.
    fn send(&mut self, plan: &mut Vec<Step>, step: Step, Ghost(start): Ghost<Relays>)
        requires
            old(self).relays == start.after_all(old(plan)@),
        ensures
            final(plan)@ == old(plan)@.push(step),
            final(self).relays == old(self).relays.after(step),
            final(self).relays == start.after_all(final(plan)@),
            final(self).closed == old(self).closed,
    {
        self.relays.apply(step);
        plan.push(step);
        assert(plan@.drop_last() =~= old(plan)@);
    }
}

} // verus!
