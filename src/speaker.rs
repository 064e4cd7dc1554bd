//! Simple piezo helper for the Presto speaker on GPIO43: what a note asks of
//! the pin, worked out without touching it.

use vstd::prelude::*;

pub use crate::scale::NamedPitch;
use crate::spin::{spin_hint, SpinLog};

verus! {

/// Microseconds in one second.
pub const MICROS_PER_SECOND: u32 = 1_000_000;

/// Microseconds in one millisecond.
pub const MICROS_PER_MILLI: u64 = 1000;

/// Represents any pitch
#[derive(Clone, Copy, Debug, PartialEq, Eq, Structural)]
pub enum Pitch {
    /// No tone: only the duration elapses.
    Silent,
    /// A note of the standard scale.
    Named(NamedPitch),
    /// Hz
    Frequency(u32),
}

impl Pitch {
    /// The frequency in hertz that the pitch asks for; none for silence.
    pub open spec fn frequency_spec(self) -> Option<nat> {
        match self {
            Pitch::Silent => None,
            Pitch::Named(n) => Some(n.hz()),
            Pitch::Frequency(f) => Some(f as nat),
        }
    }

    /// Resolve the pitch to a frequency in hertz: the scale's value for a named
    /// note, the payload for a bare frequency, and nothing for silence.
    pub fn frequency(&self) -> (r: Option<u32>)
        ensures
            r matches Some(f) ==> self.frequency_spec() == Some(f as nat),
            r is None ==> self.frequency_spec() is None,
    {
        match self {
            Pitch::Silent => None,
            Pitch::Named(n) => Some(n.into_frequency()),
            Pitch::Frequency(f) => Some(*f),
        }
    }
}

impl From<NamedPitch> for Pitch {
    fn from(value: NamedPitch) -> (r: Self)
        ensures
            r == Pitch::Named(value),
    {
        Pitch::Named(value)
    }
}

impl vstd::std_specs::convert::FromSpecImpl<NamedPitch> for Pitch {
    open spec fn obeys_from_spec() -> bool {
        true
    }

    open spec fn from_spec(v: NamedPitch) -> Pitch {
        Pitch::Named(v)
    }
}

/// A note is a pitch + a duration (ms)
#[derive(Clone, Copy, Debug, PartialEq, Eq, Structural)]
pub struct Note(pub Pitch, pub u32);

/// What a note asks of the pin.
#[derive(Clone, Copy, Debug, PartialEq, Eq, Structural)]
pub enum Playback {
    /// Leave the pin alone and let the duration pass.
    Rest { duration_ms: u32 },
    /// Hold the pin high, then low, for `half_period_us` each, for as long as
    /// the duration lasts.
    Square { half_period_us: u32, duration_ms: u32 },
}

/// Half of the whole number of microseconds in one period of `f` hertz, both
/// divisions truncating; zero for a zero frequency.
pub open spec fn half_period_of(f: nat) -> nat {
    if f == 0 {
        0
    } else {
        (1_000_000nat / f) / 2
    }
}

/// The playback of a pitch held for `duration_ms`: silence, a zero frequency
/// and a frequency too high for a half-period of one microsecond all rest for
/// the duration; any other pitch is a square wave at its half-period.
pub open spec fn playback_of(pitch: Pitch, duration_ms: u32) -> Playback {
    match pitch.frequency_spec() {
        Some(f) if half_period_of(f) > 0 => Playback::Square {
            half_period_us: half_period_of(f) as u32,
            duration_ms,
        },
        _ => Playback::Rest { duration_ms },
    }
}

impl Note {
    /// The playback this note asks for.
    pub open spec fn playback_spec(self) -> Playback {
        playback_of(self.0, self.1)
    }

    /// Work out the half-period and duration of this note: the timing shared
    /// by the cooperative and the spinning players.
    pub fn playback(&self) -> (r: Playback)
        ensures
            r == self.playback_spec(),
    {
        let Note(pitch, duration_ms) = *self;
        match pitch.frequency() {
            None => Playback::Rest { duration_ms },
            Some(frequency) => {
                if frequency == 0 {
                    return Playback::Rest { duration_ms };
                }
                let period_us = MICROS_PER_SECOND / frequency;
                let half_period_us = period_us / 2;
                if half_period_us == 0 {
                    Playback::Rest { duration_ms }
                } else {
                    Playback::Square { half_period_us, duration_ms }
                }
            },
        }
    }
}

impl Playback {
    /// The duration of the note, in milliseconds.
    pub open spec fn duration_ms(self) -> u32 {
        match self {
            Playback::Rest { duration_ms } => duration_ms,
            Playback::Square { duration_ms, .. } => duration_ms,
        }
    }
}

/// Microseconds spun by a wait of `ms` milliseconds.
pub open spec fn spin_us_for_ms(ms: u32) -> int {
    ms * 1000
}

/// Spin-loop hints issued for each microsecond of spinning. Nothing measures
/// how long a hint takes: it depends on the core's clock, its pipeline and the
/// compiler, so tune this to the target's clock speed.
pub const SPIN_HINTS_PER_MICROSECOND: u32 = 1;

/// Spin for roughly `ms` milliseconds without yielding, one millisecond at a
/// time; returns the number of microseconds spun.
pub fn busy_wait_ms(ms: u32, log: &mut SpinLog) -> (spun: u64)
    ensures
        spun == spin_us_for_ms(ms),
        final(log).hints() == old(log).hints() + spin_us_for_ms(ms) * SPIN_HINTS_PER_MICROSECOND,
{
    let mut left: u32 = ms;
    let mut spun: u64 = 0;
    while left > 0
        invariant
            spun == (ms - left) * 1000,
            left <= ms,
            log.hints() == old(log).hints() + spun * SPIN_HINTS_PER_MICROSECOND,
        decreases left,
    {
        spin_delay_us(MICROS_PER_MILLI as u32, log);
        left -= 1;
        spun += MICROS_PER_MILLI;
    }
    spun
}

/// Spin for roughly `us` microseconds without yielding: the calibration of
/// [`SPIN_HINTS_PER_MICROSECOND`] hints per microsecond, checked against no
/// clock. Returns the number of microseconds spun.
pub fn spin_delay_us(us: u32, log: &mut SpinLog) -> (spun: u32)
    ensures
        spun == us,
        final(log).hints() == old(log).hints() + us * SPIN_HINTS_PER_MICROSECOND,
{
    let mut left: u32 = us;
    let mut spun: u32 = 0;
    while left > 0
        invariant
            spun + left == us,
            log.hints() == old(log).hints() + spun * SPIN_HINTS_PER_MICROSECOND,
        decreases left,
    {
        let mut issued: u32 = 0;
        while issued < SPIN_HINTS_PER_MICROSECOND
            invariant
                issued <= SPIN_HINTS_PER_MICROSECOND,
                spun + left == us,
                left > 0,
                log.hints() == old(log).hints() + spun * SPIN_HINTS_PER_MICROSECOND + issued,
            decreases SPIN_HINTS_PER_MICROSECOND - issued,
        {
            spin_hint(log);
            issued += 1;
        }
        left -= 1;
        spun += 1;
    }
    spun
}

} // verus!
