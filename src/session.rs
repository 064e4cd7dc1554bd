//! The decisions of one note's playback, as a state machine.
//!
//! A player starts a [`ToneSession`] from a note and the clock's reading, then
//! repeatedly hands it the clock's reading and carries out the [`Action`] it
//! returns: drive the pin, then wait (by suspending or by spinning), until the
//! session says it is done. All per-note state lives in the session, so a
//! player keeps nothing from one note to the next.

use vstd::prelude::*;

use crate::speaker::{Note, Playback, MICROS_PER_MILLI};

verus! {

/// What the player does next.
#[derive(Clone, Copy, Debug, PartialEq, Eq, Structural)]
pub enum Action {
    /// Leave the pin as it is and wait `duration_ms` milliseconds.
    Rest { duration_ms: u32 },
    /// Drive the pin high, then wait `wait_us` microseconds.
    High { wait_us: u32 },
    /// Drive the pin low, then wait `wait_us` microseconds.
    Low { wait_us: u32 },
    /// The note is over.
    Done,
}

/// Where a session stands within its note.
#[derive(Clone, Copy, Debug, PartialEq, Eq, Structural)]
pub enum Phase {
    /// A rest that has not been waited yet.
    Resting,
    /// At the start of a cycle: the clock decides whether another one begins.
    CycleStart,
    /// The pin was driven high; the low half of the cycle is next.
    HighHeld,
    /// Nothing is left to do.
    Finished,
}

/// The state of one note being played.
#[derive(Clone, Copy, Debug, PartialEq, Eq, Structural)]
pub struct ToneSession {
    /// The timing that the note asks for.
    pub playback: Playback,
    /// The clock's reading, in microseconds, when the note began.
    pub start_us: u64,
    /// Where the session stands.
    pub phase: Phase,
}

/// Microseconds in `ms` milliseconds.
pub open spec fn micros_of_ms(ms: u32) -> int {
    ms * 1000
}

impl ToneSession {
    /// The session of `note` begun when the clock read `now_us`.
    pub open spec fn started(note: Note, now_us: u64) -> ToneSession {
        let playback = note.playback_spec();
        ToneSession {
            playback,
            start_us: now_us,
            phase: match playback {
                Playback::Rest { .. } => Phase::Resting,
                Playback::Square { .. } => Phase::CycleStart,
            },
        }
    }

    /// The next state and action when the clock reads `now` microseconds.
    ///
    /// A rest is waited once. A square wave begins a new cycle (high half,
    /// then low half) as long as the clock reads less than the start plus the
    /// duration; the clock is read only at the start of a cycle, so the last
    /// cycle is always completed.
    pub open spec fn next(self, now: int) -> (ToneSession, Action) {
        match self.phase {
            Phase::Resting => (
                ToneSession { phase: Phase::Finished, ..self },
                Action::Rest { duration_ms: self.playback.duration_ms() },
            ),
            Phase::CycleStart => match self.playback {
                Playback::Square { half_period_us, duration_ms } => {
                    if now < self.start_us + micros_of_ms(duration_ms) {
                        (
                            ToneSession { phase: Phase::HighHeld, ..self },
                            Action::High { wait_us: half_period_us },
                        )
                    } else {
                        (ToneSession { phase: Phase::Finished, ..self }, Action::Done)
                    }
                },
                Playback::Rest { .. } => (
                    ToneSession { phase: Phase::Finished, ..self },
                    Action::Done,
                ),
            },
            Phase::HighHeld => match self.playback {
                Playback::Square { half_period_us, .. } => (
                    ToneSession { phase: Phase::CycleStart, ..self },
                    Action::Low { wait_us: half_period_us },
                ),
                Playback::Rest { .. } => (
                    ToneSession { phase: Phase::Finished, ..self },
                    Action::Done,
                ),
            },
            Phase::Finished => (self, Action::Done),
        }
    }

    /// Begin playing `note`, the clock reading `now_us` microseconds.
    pub fn start(note: &Note, now_us: u64) -> (r: ToneSession)
        ensures
            r == Self::started(*note, now_us),
    {
        let playback = note.playback();
        let phase = match playback {
            Playback::Rest { .. } => Phase::Resting,
            Playback::Square { .. } => Phase::CycleStart,
        };
        ToneSession { playback, start_us: now_us, phase }
    }

    /// Decide the next action, the clock reading `now_us` microseconds.
    pub fn step(&mut self, now_us: u64) -> (r: Action)
        ensures
            (*final(self), r) == old(self).next(now_us as int),
    {
        match self.phase {
            Phase::Resting => {
                self.phase = Phase::Finished;
                let duration_ms = match self.playback {
                    Playback::Rest { duration_ms } => duration_ms,
                    Playback::Square { duration_ms, .. } => duration_ms,
                };
                Action::Rest { duration_ms }
            },
            Phase::CycleStart => match self.playback {
                Playback::Square { half_period_us, duration_ms } => {
                    let total_us = duration_ms as u64 * MICROS_PER_MILLI;
                    let running = now_us < self.start_us || now_us - self.start_us < total_us;
                    if running {
                        self.phase = Phase::HighHeld;
                        Action::High { wait_us: half_period_us }
                    } else {
                        self.phase = Phase::Finished;
                        Action::Done
                    }
                },
                Playback::Rest { .. } => {
                    self.phase = Phase::Finished;
                    Action::Done
                },
            },
            Phase::HighHeld => match self.playback {
                Playback::Square { half_period_us, .. } => {
                    self.phase = Phase::CycleStart;
                    Action::Low { wait_us: half_period_us }
                },
                Playback::Rest { .. } => {
                    self.phase = Phase::Finished;
                    Action::Done
                },
            },
            Phase::Finished => Action::Done,
        }
    }

    /// Whether the note is over.
    pub fn is_finished(&self) -> (r: bool)
        ensures
            r == (self.phase == Phase::Finished),
    {
        match self.phase {
            Phase::Finished => true,
            _ => false,
        }
    }
}

} // verus!
