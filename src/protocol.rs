use vstd::prelude::*;
use crate::error::Error;

verus! {

/// Which family of native entry points a call belongs to; the two read their
/// status codes differently.
#[derive(Clone, Copy, Debug, PartialEq, Eq, Structural)]
pub enum Direction {
    Compress,
    Decompress,
}

/// A broken invariant between the adapter and the native codec. It is never
/// returned as an error: the call path must fail fast.
#[derive(Clone, Copy, Debug, PartialEq, Eq, Structural)]
pub enum Defect {
    /// The native codec reported that the output slot was not null on entry.
    DirtyOutput,
    /// The native codec returned a status code outside its protocol.
    UnknownStatus(i32),
    /// The guard was driven with an event that its phase does not admit.
    OutOfOrder,
}

/// What a native status code means.
#[derive(Clone, Copy, Debug, PartialEq, Eq, Structural)]
pub enum Outcome {
    /// The call succeeded and produced an output allocation.
    Success,
    /// The call failed with a recoverable error and produced no output.
    Failed(Error),
    /// The call broke the protocol.
    Defect(Defect),
}

/// Native status code of success.
pub const STATUS_OK: i32 = 0;

/// Native status code of an output slot that was not null on entry.
pub const STATUS_DIRTY_OUTPUT: i32 = 1;

/// Native status code of invalid parameters (compression only).
pub const STATUS_INVALID_PARAMETER: i32 = 2;

/// Native status code of an internal failure.
pub const STATUS_INTERNAL: i32 = -1;

/// The meaning of a native status code for a call in direction `dir`.
pub open spec fn outcome_of(dir: Direction, code: i32) -> Outcome {
    if code == STATUS_OK {
        Outcome::Success
    } else if code == STATUS_INTERNAL {
        Outcome::Failed(Error::Other)
    } else if code == STATUS_DIRTY_OUTPUT {
        Outcome::Defect(Defect::DirtyOutput)
    } else if code == STATUS_INVALID_PARAMETER && dir == Direction::Compress {
        Outcome::Failed(Error::InvalidParameter)
    } else {
        Outcome::Defect(Defect::UnknownStatus(code))
    }
}

/// Interprets a native status code.
pub fn classify(dir: Direction, code: i32) -> (r: Outcome)
    ensures
        r == outcome_of(dir, code),
{
    if code == STATUS_OK {
        Outcome::Success
    } else if code == STATUS_INTERNAL {
        Outcome::Failed(Error::Other)
    } else if code == STATUS_DIRTY_OUTPUT {
        Outcome::Defect(Defect::DirtyOutput)
    } else if code == STATUS_INVALID_PARAMETER && dir == Direction::Compress {
        Outcome::Failed(Error::InvalidParameter)
    } else {
        Outcome::Defect(Defect::UnknownStatus(code))
    }
}

/// The phase of one native call, from the caller's side. Each phase names
/// what the caller does next.
#[derive(Clone, Copy, Debug, PartialEq, Eq, Structural)]
pub enum Phase {
    /// Perform the native call with a null output slot, then report its status.
    AwaitingStatus,
    /// The native output allocation is owned: copy it out, then report so.
    Holding,
    /// The output was copied out: release the allocation, then report so.
    Copied,
    /// The allocation was released: return success.
    Complete,
    /// Return this error; no native allocation is held.
    Failed(Error),
    /// Fail fast; release nothing.
    Aborted(Defect),
}

/// What the caller reports back to the guard.
#[derive(Clone, Copy, Debug, PartialEq, Eq, Structural)]
pub enum Event {
    /// The native call returned this status code.
    Status(i32),
    /// The native output was copied into owned storage.
    CopiedOut,
    /// The native output allocation was released.
    Released,
}

/// The phase that follows `phase` on `event`.
pub open spec fn next_phase(dir: Direction, phase: Phase, event: Event) -> Phase {
    match (phase, event) {
        (Phase::AwaitingStatus, Event::Status(code)) => match outcome_of(dir, code) {
            Outcome::Success => Phase::Holding,
            Outcome::Failed(e) => Phase::Failed(e),
            Outcome::Defect(d) => Phase::Aborted(d),
        },
        (Phase::Holding, Event::CopiedOut) => Phase::Copied,
        (Phase::Copied, Event::Released) => Phase::Complete,
        (Phase::Aborted(d), _) => Phase::Aborted(d),
        _ => Phase::Aborted(Defect::OutOfOrder),
    }
}

/// Whether the step from `phase` on `event` is the release of the native
/// output allocation.
pub open spec fn is_release(phase: Phase, event: Event) -> bool {
    phase == Phase::Copied && event == Event::Released
}

/// The phase reached from `phase` after the events `events`, in order.
pub open spec fn run(dir: Direction, phase: Phase, events: Seq<Event>) -> Phase
    decreases events.len(),
{
    if events.len() == 0 {
        phase
    } else {
        run(dir, next_phase(dir, phase, events[0]), events.drop_first())
    }
}

/// How many releases happen from `phase` along the events `events`.
pub open spec fn releases(dir: Direction, phase: Phase, events: Seq<Event>) -> nat
    decreases events.len(),
{
    if events.len() == 0 {
        0
    } else {
        (if is_release(phase, events[0]) {
            1nat
        } else {
            0nat
        }) + releases(dir, next_phase(dir, phase, events[0]), events.drop_first())
    }
}

/// How many releases a guard in `phase` still owes: one while a native call is
/// pending or its output is held, none otherwise.
pub open spec fn owed_releases(phase: Phase) -> nat {
    match phase {
        Phase::AwaitingStatus | Phase::Holding | Phase::Copied => 1,
        _ => 0,
    }
}

proof fn lemma_releases_bounded(dir: Direction, phase: Phase, events: Seq<Event>)
    ensures
        releases(dir, phase, events) <= owed_releases(phase),
        run(dir, phase, events) == Phase::Complete ==> releases(dir, phase, events) + (if phase
            == Phase::Complete {
            1nat
        } else {
            0nat
        }) == 1,
    decreases events.len(),
{
    if events.len() > 0 {
        lemma_releases_bounded(dir, next_phase(dir, phase, events[0]), events.drop_first());
    }
}

/// Ownership of a native output allocation: along any sequence of reports, a
/// guard born before its native call releases the allocation at most once; a
/// call that completes has released it exactly once; and a call whose status
/// is an error or a protocol defect releases nothing, whatever is reported
/// after it.
pub proof fn lemma_release_exactly_once(dir: Direction, events: Seq<Event>)
    ensures
        releases(dir, Phase::AwaitingStatus, events) <= 1,
        run(dir, Phase::AwaitingStatus, events) == Phase::Complete ==> releases(
            dir,
            Phase::AwaitingStatus,
            events,
        ) == 1,
        events.len() > 0 && events[0] is Status && !(outcome_of(dir, events[0]->Status_0) is Success)
            ==> releases(dir, Phase::AwaitingStatus, events) == 0,
{
    lemma_releases_bounded(dir, Phase::AwaitingStatus, events);
    if events.len() > 0 {
        lemma_releases_bounded(dir, next_phase(dir, Phase::AwaitingStatus, events[0]), events.drop_first());
    }
}

/// The ownership guard of one native call's output allocation.
///
/// The guard is born before the native call, with the output slot null. The
/// caller performs what its phase names and reports each step back; the guard
/// admits a copy and a release only after a successful status, and a release
/// only once.
#[derive(Clone, Copy, Debug, PartialEq, Eq, Structural)]
pub struct Guard {
    pub direction: Direction,
    pub phase: Phase,
}

impl Guard {
    /// A guard for a native call in direction `direction` that is yet to be
    /// performed.
    pub fn new(direction: Direction) -> (r: Guard)
        ensures
            r.direction == direction,
            r.phase == Phase::AwaitingStatus,
    {
        Guard { direction, phase: Phase::AwaitingStatus }
    }

    /// What the caller does next.
    pub fn phase(&self) -> (r: Phase)
        ensures
            r == self.phase,
    {
        self.phase
    }

    /// Advances the guard on what the caller reports.
    pub fn step(&mut self, event: Event)
        ensures
            final(self).direction == old(self).direction,
            final(self).phase == next_phase(old(self).direction, old(self).phase, event),
    {
        let next = match (self.phase, event) {
            (Phase::AwaitingStatus, Event::Status(code)) => match classify(self.direction, code) {
                Outcome::Success => Phase::Holding,
                Outcome::Failed(e) => Phase::Failed(e),
                Outcome::Defect(d) => Phase::Aborted(d),
            },
            (Phase::Holding, Event::CopiedOut) => Phase::Copied,
            (Phase::Copied, Event::Released) => Phase::Complete,
            (Phase::Aborted(d), _) => Phase::Aborted(d),
            _ => Phase::Aborted(Defect::OutOfOrder),
        };
        self.phase = next;
    }

    /// Copies the native output `native` into owned storage, when the guard
    /// holds it, and records the copy. In any other phase nothing is copied and
    /// the guard aborts, as for any step out of order.
    pub fn take_output(&mut self, native: &[u8]) -> (r: Option<Vec<u8>>)
        ensures
            final(self).direction == old(self).direction,
            final(self).phase == next_phase(old(self).direction, old(self).phase, Event::CopiedOut),
            old(self).phase == Phase::Holding ==> r is Some && r->Some_0@ == native@,
            old(self).phase != Phase::Holding ==> r is None,
    {
        if self.phase == Phase::Holding {
            let copy = vstd::slice::slice_to_vec(native);
            self.step(Event::CopiedOut);
            Some(copy)
        } else {
            self.step(Event::CopiedOut);
            None
        }
    }
}

} // verus!
