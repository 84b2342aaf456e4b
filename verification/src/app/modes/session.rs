//! # Session Clock Module
//!
//! When a session started and when it ended. The start is taken at the first
//! keystroke, not when the session is created; the end is taken once, at
//! completion, and never before the start.

use crate::app::time::{spec_elapsed, Timestamp};
use vstd::prelude::*;

verus! {

/// The start and the end of one session, both unset before typing begins.
#[derive(Clone, Copy, Debug, PartialEq, Eq, Structural)]
pub struct SessionClock {
    pub start: Option<Timestamp>,
    pub end: Option<Timestamp>,
}

/// An end is only there after a start, and is not before it.
pub open spec fn clock_wf(c: SessionClock) -> bool {
    c.end is Some ==> c.start is Some && c.start->0.nanos <= c.end->0.nanos
}

/// The clock after a keystroke at `now`: the first one sets the start.
pub open spec fn started_at(c: SessionClock, now: Timestamp) -> SessionClock {
    if c.start is None {
        SessionClock { start: Some(now), ..c }
    } else {
        c
    }
}

/// The clock after completion is reported at `now`: the end is set if the
/// session has started and has no end yet.
pub open spec fn finished_at(c: SessionClock, now: Timestamp) -> SessionClock {
    if c.start is Some && c.end is None {
        SessionClock { end: Some(now), ..c }
    } else {
        c
    }
}

/// The nanoseconds from start to end, zero while either is unset.
pub open spec fn session_length(c: SessionClock) -> nat {
    if c.start is Some && c.end is Some {
        spec_elapsed(c.start->0, c.end->0)
    } else {
        0
    }
}

/// The nanoseconds from the start to `now`, zero before the start.
pub open spec fn elapsed_at(c: SessionClock, now: Timestamp) -> nat {
    if c.start is Some {
        spec_elapsed(c.start->0, now)
    } else {
        0
    }
}

/// Whether `now` is not before the start.
pub open spec fn not_before_start(c: SessionClock, now: Timestamp) -> bool {
    c.start is Some ==> c.start->0.nanos <= now.nanos
}

impl SessionClock {
    /// A clock with neither start nor end.
    pub fn new() -> (clock: Self)
        ensures
            clock == (SessionClock { start: None, end: None }),
    {
        SessionClock { start: None, end: None }
    }

    /// Records the start at the first keystroke.
    pub fn begin(&mut self, now: Timestamp)
        ensures
            *final(self) == started_at(*old(self), now),
    {
        if self.start.is_none() {
            self.start = Some(now);
        }
    }

    /// Records the end, once, and only after the start.
    pub fn finish(&mut self, now: Timestamp)
        ensures
            *final(self) == finished_at(*old(self), now),
            clock_wf(*old(self)) && not_before_start(*old(self), now) ==> clock_wf(*final(self)),
    {
        if self.start.is_some() && self.end.is_none() {
            self.end = Some(now);
        }
    }

    /// Forgets start and end.
    pub fn reset(&mut self)
        ensures
            *final(self) == (SessionClock { start: None, end: None }),
    {
        self.start = None;
        self.end = None;
    }

    /// The time from start to end, zero while either is unset.
    pub fn length(&self) -> (nanos: u128)
        ensures
            nanos == session_length(*self),
    {
        match (self.start, self.end) {
            (Some(start), Some(end)) => end.since(start),
            _ => 0,
        }
    }

    /// The time from the start to `now`, zero before the start.
    pub fn elapsed(&self, now: Timestamp) -> (nanos: u128)
        ensures
            nanos == elapsed_at(*self, now),
    {
        match self.start {
            Some(start) => now.since(start),
            None => 0,
        }
    }
}

/// Reporting completion a second time changes nothing: the end that was
/// captured first stays, and so does the session's length.
pub proof fn lemma_finish_is_idempotent(c: SessionClock, first: Timestamp, second: Timestamp)
    ensures
        finished_at(finished_at(c, first), second) == finished_at(c, first),
        session_length(finished_at(finished_at(c, first), second)) == session_length(
            finished_at(c, first),
        ),
{
}

} // verus!
