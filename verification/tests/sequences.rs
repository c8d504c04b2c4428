use simpa_engine::events::AudioEvent;
use simpa_engine::sequence::{
    BoardingPhase, BoardingSequence, DetachSequence, SeqAction,
};

fn fade_step(volume: u8) -> SeqAction {
    SeqAction::EmitThenSleep { audio: AudioEvent::BoardingMusic { volume }, ms: 40 }
}

#[test]
fn boarding_sequence_first_round() {
    let mut seq = BoardingSequence::new();

    // Initial wait of 30 seconds before anything plays.
    assert_eq!(seq.step(true, 0), SeqAction::Sleep { ms: 30_000 });

    // Fade out from 100 to 0 in steps of 5, 40 ms apart.
    let mut volume: i32 = 100;
    while volume >= 0 {
        assert_eq!(seq.step(true, 0), fade_step(volume as u8));
        volume -= 5;
    }

    // Brief pause, announcement, announcement wait.
    assert_eq!(seq.step(true, 0), SeqAction::Sleep { ms: 100 });
    assert_eq!(seq.step(true, 0), SeqAction::Emit { audio: AudioEvent::WelcomeAboard });
    assert_eq!(seq.step(true, 0), SeqAction::Sleep { ms: 5_000 });

    // Fade back in from 0 to 100.
    let mut volume: i32 = 0;
    while volume <= 100 {
        assert_eq!(seq.step(true, 0), fade_step(volume as u8));
        volume += 5;
    }

    // The cycle delay is drawn from the given raw value: 0 maps to 30 s.
    assert_eq!(seq.step(true, 0), SeqAction::Sleep { ms: 30_000 });
    assert_eq!(seq.phase, BoardingPhase::CycleCheck);
}

#[test]
fn boarding_cycle_repeats_while_attached_and_stops_when_detached() {
    let mut seq = BoardingSequence { phase: BoardingPhase::CycleCheck };

    // Still attached: the round repeats, starting with the fade out.
    assert_eq!(seq.step(true, 0), SeqAction::Proceed);
    assert_eq!(seq.phase, BoardingPhase::FadingOut { volume: 100 });
    assert_eq!(seq.step(true, 0), fade_step(100));

    // Detached at the checkpoint: the sequence stops for good.
    let mut seq = BoardingSequence { phase: BoardingPhase::CycleCheck };
    assert_eq!(seq.step(false, 0), SeqAction::Stop);
    assert_eq!(seq.phase, BoardingPhase::Finished);
    assert_eq!(seq.step(true, 0), SeqAction::Stop);
    assert_eq!(seq.phase, BoardingPhase::Finished);
}

#[test]
fn cycle_delay_maps_raw_randomness_to_30_to_120_seconds() {
    for (raw, expect_ms) in [(0u64, 30_000u64), (89, 119_000), (90, 120_000), (91, 30_000)] {
        let mut seq = BoardingSequence { phase: BoardingPhase::CycleDelay };
        assert_eq!(seq.step(true, raw), SeqAction::Sleep { ms: expect_ms });
        assert_eq!(seq.phase, BoardingPhase::CycleCheck);
    }
}

#[test]
fn cycle_delay_with_live_randomness_stays_in_range() {
    for _ in 0..20 {
        let mut seq = BoardingSequence { phase: BoardingPhase::CycleDelay };
        match seq.step_with_random(true) {
            SeqAction::Sleep { ms } => assert!((30_000..=120_000).contains(&ms)),
            other => panic!("expected a sleep, got {:?}", other),
        }
        assert_eq!(seq.phase, BoardingPhase::CycleCheck);
    }
}

#[test]
fn detach_sequence_delays_doors_announcement() {
    let mut seq = DetachSequence::new();
    assert_eq!(seq.step(), SeqAction::Sleep { ms: 15_000 });
    assert_eq!(seq.step(), SeqAction::Emit { audio: AudioEvent::DoorsAuto });
    assert_eq!(seq.step(), SeqAction::Stop);
    assert_eq!(seq.step(), SeqAction::Stop);
}
