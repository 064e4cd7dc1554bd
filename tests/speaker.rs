use presto::lcd::LcdPlaceholder;
use presto::session::{Action, Phase, ToneSession};
use presto::speaker::{busy_wait_ms, spin_delay_us, NamedPitch, Note, Pitch, Playback};
use presto::spin::SpinLog;

fn scale() -> Vec<(NamedPitch, u32)> {
    vec![
        (NamedPitch::C0, 16),
        (NamedPitch::CS0, 17),
        (NamedPitch::D0, 18),
        (NamedPitch::DS0, 19),
        (NamedPitch::E0, 20),
        (NamedPitch::F0, 21),
        (NamedPitch::FS0, 23),
        (NamedPitch::G0, 24),
        (NamedPitch::GS0, 25),
        (NamedPitch::A0, 27),
        (NamedPitch::AS0, 29),
        (NamedPitch::B0, 30),
        (NamedPitch::C1, 32),
        (NamedPitch::CS1, 34),
        (NamedPitch::D1, 36),
        (NamedPitch::DS1, 38),
        (NamedPitch::E1, 41),
        (NamedPitch::F1, 43),
        (NamedPitch::FS1, 46),
        (NamedPitch::G1, 49),
        (NamedPitch::GS1, 51),
        (NamedPitch::A1, 55),
        (NamedPitch::AS1, 58),
        (NamedPitch::B1, 61),
        (NamedPitch::C2, 65),
        (NamedPitch::CS2, 69),
        (NamedPitch::D2, 73),
        (NamedPitch::DS2, 77),
        (NamedPitch::E2, 82),
        (NamedPitch::F2, 87),
        (NamedPitch::FS2, 92),
        (NamedPitch::G2, 98),
        (NamedPitch::GS2, 103),
        (NamedPitch::A2, 110),
        (NamedPitch::AS2, 116),
        (NamedPitch::B2, 123),
        (NamedPitch::C3, 130),
        (NamedPitch::CS3, 138),
        (NamedPitch::D3, 146),
        (NamedPitch::DS3, 155),
        (NamedPitch::E3, 164),
        (NamedPitch::F3, 174),
        (NamedPitch::FS3, 185),
        (NamedPitch::G3, 196),
        (NamedPitch::GS3, 207),
        (NamedPitch::A3, 220),
        (NamedPitch::AS3, 233),
        (NamedPitch::B3, 246),
        (NamedPitch::C4, 261),
        (NamedPitch::CS4, 277),
        (NamedPitch::D4, 293),
        (NamedPitch::DS4, 311),
        (NamedPitch::E4, 329),
        (NamedPitch::F4, 349),
        (NamedPitch::FS4, 369),
        (NamedPitch::G4, 392),
        (NamedPitch::GS4, 415),
        (NamedPitch::A4, 440),
        (NamedPitch::AS4, 466),
        (NamedPitch::B4, 493),
        (NamedPitch::C5, 523),
        (NamedPitch::CS5, 554),
        (NamedPitch::D5, 587),
        (NamedPitch::DS5, 622),
        (NamedPitch::E5, 659),
        (NamedPitch::F5, 698),
        (NamedPitch::FS5, 739),
        (NamedPitch::G5, 783),
        (NamedPitch::GS5, 830),
        (NamedPitch::A5, 880),
        (NamedPitch::AS5, 932),
        (NamedPitch::B5, 987),
        (NamedPitch::C6, 1046),
        (NamedPitch::CS6, 1108),
        (NamedPitch::D6, 1174),
        (NamedPitch::DS6, 1244),
        (NamedPitch::E6, 1318),
        (NamedPitch::F6, 1396),
        (NamedPitch::FS6, 1479),
        (NamedPitch::G6, 1567),
        (NamedPitch::GS6, 1661),
        (NamedPitch::A6, 1760),
        (NamedPitch::AS6, 1864),
        (NamedPitch::B6, 1975),
        (NamedPitch::C7, 2093),
        (NamedPitch::CS7, 2217),
        (NamedPitch::D7, 2349),
        (NamedPitch::DS7, 2489),
        (NamedPitch::E7, 2637),
        (NamedPitch::F7, 2793),
        (NamedPitch::FS7, 2959),
        (NamedPitch::G7, 3135),
        (NamedPitch::GS7, 3322),
        (NamedPitch::A7, 3520),
        (NamedPitch::AS7, 3729),
        (NamedPitch::B7, 3951),
        (NamedPitch::C8, 4186),
        (NamedPitch::CS8, 4434),
        (NamedPitch::D8, 4698),
        (NamedPitch::DS8, 4978),
        (NamedPitch::E8, 5274),
        (NamedPitch::F8, 5587),
        (NamedPitch::FS8, 5919),
        (NamedPitch::G8, 6271),
        (NamedPitch::GS8, 6644),
        (NamedPitch::A8, 7040),
        (NamedPitch::AS8, 7458),
        (NamedPitch::B8, 7902),
    ]
}

/// Plays a note against a clock that advances by exactly each wait, on a pin
/// that starts low. Returns the actions, the number of high-to-low
/// transitions, the number of level changes and the time that passed.
fn simulate(note: &Note, t0: u64) -> (Vec<Action>, u32, u32, u64) {
    let mut session = ToneSession::start(note, t0);
    let mut now = t0;
    let mut high = false;
    let mut falls = 0u32;
    let mut changes = 0u32;
    let mut actions = Vec::new();
    loop {
        let action = session.step(now);
        actions.push(action);
        match action {
            Action::Rest { duration_ms } => now += u64::from(duration_ms) * 1000,
            Action::High { wait_us } => {
                if !high {
                    changes += 1;
                }
                high = true;
                now += u64::from(wait_us);
            }
            Action::Low { wait_us } => {
                if high {
                    falls += 1;
                    changes += 1;
                }
                high = false;
                now += u64::from(wait_us);
            }
            Action::Done => break,
        }
    }
    assert!(session.is_finished());
    (actions, falls, changes, now - t0)
}

#[test]
fn named_pitches_have_their_table_frequencies() {
    let table = scale();
    assert_eq!(table.len(), presto::scale::SCALE_LEN);
    for (pitch, hz) in table {
        assert_eq!(pitch.into_frequency(), hz);
    }
}

#[test]
fn named_pitches_rise_strictly() {
    let table = scale();
    assert_eq!(table[0].1, 16);
    assert_eq!(table[table.len() - 1].1, 7902);
    for w in table.windows(2) {
        assert!(w[0].0.into_frequency() < w[1].0.into_frequency());
    }
}

#[test]
fn pitch_from_named() {
    assert_eq!(Pitch::from(NamedPitch::C4), Pitch::Named(NamedPitch::C4));
    assert_eq!(Pitch::Named(NamedPitch::B8).frequency(), Some(7902));
    assert_eq!(Pitch::Frequency(123).frequency(), Some(123));
    assert_eq!(Pitch::Silent.frequency(), None);
}

#[test]
fn silent_note_rests_without_toggling() {
    let note = Note(Pitch::Silent, 250);
    assert_eq!(note.playback(), Playback::Rest { duration_ms: 250 });
    let (actions, falls, changes, elapsed) = simulate(&note, 42);
    assert_eq!(actions, vec![Action::Rest { duration_ms: 250 }, Action::Done]);
    assert_eq!(falls, 0);
    assert_eq!(changes, 0);
    assert_eq!(elapsed, 250_000);
}

#[test]
fn zero_duration_silence_waits_nothing() {
    let (actions, _, changes, elapsed) = simulate(&Note(Pitch::Silent, 0), 0);
    assert_eq!(actions, vec![Action::Rest { duration_ms: 0 }, Action::Done]);
    assert_eq!(changes, 0);
    assert_eq!(elapsed, 0);
}

#[test]
fn zero_duration_tone_plays_no_cycle() {
    let (actions, _, changes, _) = simulate(&Note(Pitch::Frequency(1000), 0), 7);
    assert_eq!(actions, vec![Action::Done]);
    assert_eq!(changes, 0);
}

#[test]
fn tone_cycles_fill_the_duration() {
    // 440 Hz: period 2272 us, half-period 1136 us; 100 ms need 45 cycles.
    let note = Note(Pitch::Frequency(440), 100);
    assert_eq!(
        note.playback(),
        Playback::Square { half_period_us: 1136, duration_ms: 100 }
    );
    let (actions, falls, changes, elapsed) = simulate(&note, 1_000);
    assert_eq!(falls, 45);
    assert_eq!(changes, 90);
    assert_eq!(actions.len(), 91);
    assert_eq!(elapsed, 45 * 2272);
    // Within one cycle of duration * f / 1000.
    let approx = 100u32 * 440 / 1000;
    assert!(falls + 1 >= approx && falls <= approx + 1);
    for (i, a) in actions[..90].iter().enumerate() {
        if i % 2 == 0 {
            assert_eq!(*a, Action::High { wait_us: 1136 });
        } else {
            assert_eq!(*a, Action::Low { wait_us: 1136 });
        }
    }
}

#[test]
fn frequency_too_high_for_a_half_period_rests() {
    let note = Note(Pitch::Frequency(600_000), 30);
    assert_eq!(note.playback(), Playback::Rest { duration_ms: 30 });
    let (actions, falls, changes, elapsed) = simulate(&note, 0);
    assert_eq!(actions, vec![Action::Rest { duration_ms: 30 }, Action::Done]);
    assert_eq!(falls, 0);
    assert_eq!(changes, 0);
    assert_eq!(elapsed, 30_000);
    // The lowest frequency with a half-period of one microsecond still plays.
    assert_eq!(
        Note(Pitch::Frequency(500_000), 1).playback(),
        Playback::Square { half_period_us: 1, duration_ms: 1 }
    );
    assert_eq!(
        Note(Pitch::Frequency(u32::MAX), 1).playback(),
        Playback::Rest { duration_ms: 1 }
    );
}

#[test]
fn zero_frequency_behaves_as_silence() {
    let zero = Note(Pitch::Frequency(0), 80);
    let silent = Note(Pitch::Silent, 80);
    assert_eq!(zero.playback(), silent.playback());
    assert_eq!(simulate(&zero, 5), simulate(&silent, 5));
}

#[test]
fn a4_resolves_to_440_hz_and_1136_us() {
    let note = Note(Pitch::Named(NamedPitch::A4), 100);
    assert_eq!(note.0.frequency(), Some(440));
    assert_eq!(
        note.playback(),
        Playback::Square { half_period_us: 1_000_000 / 440 / 2, duration_ms: 100 }
    );
    assert_eq!(1_000_000 / 440 / 2, 1136);
}

#[test]
fn replaying_a_note_repeats_the_same_actions() {
    let note = Note(Pitch::Named(NamedPitch::C5), 20);
    let (first, falls1, _, elapsed1) = simulate(&note, 0);
    let (second, falls2, _, elapsed2) = simulate(&note, elapsed1);
    assert_eq!(first, second);
    assert_eq!(falls1, falls2);
    assert_eq!(elapsed1, elapsed2);
    let (third, _, _, _) = simulate(&note, 987_654_321);
    assert_eq!(first, third);
}

#[test]
fn thousand_hertz_for_ten_ms_falls_ten_times() {
    let note = Note(Pitch::Frequency(1000), 10);
    assert_eq!(
        note.playback(),
        Playback::Square { half_period_us: 500, duration_ms: 10 }
    );
    let (actions, falls, _, elapsed) = simulate(&note, 3);
    assert_eq!(falls, 10);
    assert_eq!(elapsed, 10_000);
    assert_eq!(actions.last(), Some(&Action::Done));
    assert_eq!(actions.len(), 21);
}

#[test]
fn session_steps_follow_the_clock() {
    let mut s = ToneSession::start(&Note(Pitch::Frequency(1000), 10), 100);
    assert_eq!(s.phase, Phase::CycleStart);
    assert_eq!(s.step(100), Action::High { wait_us: 500 });
    assert_eq!(s.phase, Phase::HighHeld);
    // The low half follows whatever the clock reads.
    assert_eq!(s.step(50_000), Action::Low { wait_us: 500 });
    assert_eq!(s.step(10_099), Action::High { wait_us: 500 });
    assert_eq!(s.step(10_099), Action::Low { wait_us: 500 });
    assert_eq!(s.step(10_100), Action::Done);
    assert_eq!(s.step(0), Action::Done);
    assert!(s.is_finished());
}

#[test]
fn spin_helpers_count_their_spins() {
    let mut log = SpinLog::new();
    assert_eq!(spin_delay_us(0, &mut log), 0);
    assert_eq!(spin_delay_us(17, &mut log), 17);
    assert_eq!(busy_wait_ms(0, &mut log), 0);
    assert_eq!(busy_wait_ms(2, &mut log), 2000);
    assert_eq!(busy_wait_ms(3, &mut log), 3000);
}

#[test]
fn lcd_placeholder_builds() {
    let lcd = LcdPlaceholder::new();
    let copy = lcd;
    let _ = (lcd, copy);
}

#[test]
fn irregular_clock_still_alternates_whole_cycles() {
    let mut s = ToneSession::start(&Note(Pitch::Frequency(2000), 3), 0);
    let readings = [0u64, 900, 1_000, 2_999, 2_999, 40_000, 3_000, 3_001, 0];
    let mut actions = Vec::new();
    for now in readings {
        actions.push(s.step(now));
    }
    let h = 250;
    assert_eq!(
        actions,
        vec![
            Action::High { wait_us: h },
            Action::Low { wait_us: h },
            Action::High { wait_us: h },
            Action::Low { wait_us: h },
            Action::High { wait_us: h },
            Action::Low { wait_us: h },
            Action::Done,
            Action::Done,
            Action::Done,
        ]
    );
}
