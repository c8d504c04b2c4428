use simpa_engine::classify::RawScalar;
use simpa_engine::engine::{EngineState, Message, SpawnedTask};
use simpa_engine::events::{AudioEvent, UiEvent};
use simpa_engine::state::FIXED_SCALE;

fn altitude_msg(feet: i64) -> Message {
    Message::Record { tag: 0, payload: RawScalar::Fixed { value: feet * FIXED_SCALE } }
}

fn is_ten_k_audio(e: &UiEvent) -> bool {
    matches!(e, UiEvent::Audio { audio: AudioEvent::TenKFeet })
}

fn is_data(e: &UiEvent) -> bool {
    matches!(e, UiEvent::Data { .. })
}

#[test]
fn altitude_ascent_announces_ten_k_once() {
    let mut eng = EngineState::new(0);
    let mut ten_k_events = 0;

    let out1 = eng.handle_message(altitude_msg(9000), 1000);
    assert_eq!(out1.events.len(), 1);
    assert!(is_data(&out1.events[0]));
    ten_k_events += out1.events.iter().filter(|e| is_ten_k_audio(e)).count();

    let out2 = eng.handle_message(altitude_msg(9999), 2000);
    assert_eq!(out2.events.len(), 1);
    assert!(is_data(&out2.events[0]));
    ten_k_events += out2.events.iter().filter(|e| is_ten_k_audio(e)).count();

    let out3 = eng.handle_message(altitude_msg(10000), 3000);
    assert_eq!(out3.events.len(), 2);
    assert!(is_ten_k_audio(&out3.events[0]));
    assert!(is_data(&out3.events[1]));
    ten_k_events += out3.events.iter().filter(|e| is_ten_k_audio(e)).count();

    assert_eq!(ten_k_events, 1);
    assert!(eng.flight.ten_k_announced);

    match out3.events[1] {
        UiEvent::Data { snapshot } => {
            assert_eq!(snapshot.alt_units, 10000);
            assert!(snapshot.ten_k_announced);
            // Set while below 10k; it only resets on the next drop below.
            assert!(snapshot.landing_soon_announced);
            assert!(snapshot.arrive_soon_announced);
        }
        _ => panic!("expected a snapshot event"),
    }
}

#[test]
fn altitude_descent_resets_flags() {
    let mut eng = EngineState::new(0);
    eng.handle_message(altitude_msg(9000), 1000);
    let out = eng.handle_message(altitude_msg(10000), 2000);
    assert!(is_ten_k_audio(&out.events[0]));
    assert!(eng.flight.ten_k_announced);

    let out = eng.handle_message(altitude_msg(9500), 3000);
    assert_eq!(out.events.len(), 1);
    assert!(!eng.flight.ten_k_announced);
    assert!(eng.flight.landing_soon_announced);

    // A second ascent announces again.
    let out = eng.handle_message(altitude_msg(10001), 4000);
    assert!(is_ten_k_audio(&out.events[0]));
}

#[test]
fn jetway_telemetry_attach_scenario() {
    let mut eng = EngineState::new(0);

    let exit = |percent: i64| Message::Record {
        tag: 3,
        payload: RawScalar::Fixed { value: percent * FIXED_SCALE },
    };

    let out1 = eng.handle_message(exit(0), 1000);
    assert_eq!(out1.events.len(), 1);
    assert!(is_data(&out1.events[0]));
    assert!(out1.spawns.is_empty());
    assert!(!eng.flight.jetway_attached);

    let out2 = eng.handle_message(exit(0), 2000);
    assert_eq!(out2.events.len(), 1);
    assert!(out2.spawns.is_empty());

    let out3 = eng.handle_message(exit(5), 3000);
    assert_eq!(out3.events.len(), 2);
    assert_eq!(
        out3.events[0],
        UiEvent::Audio { audio: AudioEvent::BoardingMusic { volume: 100 } }
    );
    assert!(is_data(&out3.events[1]));
    assert_eq!(out3.spawns, vec![SpawnedTask::BoardingCycle]);
    assert!(eng.flight.jetway_attached);
    assert!(eng.flight.boarding_music_playing);
    assert!(!eng.flight.jetway_moving);
}

#[test]
fn jetway_telemetry_updates_throttled_to_one_per_second() {
    let mut eng = EngineState::new(0);
    let attach = Message::Record { tag: 3, payload: RawScalar::Fixed { value: 5 * FIXED_SCALE } };
    let detach = Message::Record { tag: 3, payload: RawScalar::Fixed { value: 0 } };

    let out = eng.handle_message(attach, 1000);
    assert_eq!(out.events.len(), 2);
    let state_after_first = eng.flight;

    // A second update 500 ms later is debounced: nothing applied, nothing emitted.
    let out = eng.handle_message(detach, 1500);
    assert!(out.events.is_empty());
    assert!(out.spawns.is_empty());
    assert_eq!(eng.flight, state_after_first);
}

#[test]
fn jetway_telemetry_detach_schedules_doors() {
    let mut eng = EngineState::new(0);
    let attach = Message::Record { tag: 3, payload: RawScalar::Fixed { value: 5 * FIXED_SCALE } };
    let detach = Message::Record { tag: 3, payload: RawScalar::Fixed { value: 0 } };

    eng.handle_message(attach, 1000);
    let out = eng.handle_message(detach, 2500);
    assert_eq!(out.events.len(), 2);
    assert_eq!(out.events[0], UiEvent::Audio { audio: AudioEvent::BoardingMusic { volume: 0 } });
    assert!(is_data(&out.events[1]));
    assert_eq!(out.spawns, vec![SpawnedTask::DoorsAutoDelay]);
    assert!(!eng.flight.jetway_attached);
    assert!(!eng.flight.boarding_music_playing);
}

#[test]
fn manual_toggle_debounced_within_five_seconds() {
    let mut eng = EngineState::new(0);

    let out = eng.handle_message(Message::ToggleJetway, 5000);
    assert_eq!(out.events.len(), 1);
    assert!(is_data(&out.events[0]));
    assert!(eng.flight.jetway_attached);
    assert!(eng.flight.jetway_moving);
    assert!(eng.flight.last_request_was_attach);
    let state_after_first = eng.flight;

    // A second request 4999 ms later is ignored; the state is unchanged.
    let out = eng.handle_message(Message::ToggleJetway, 9999);
    assert!(out.events.is_empty());
    assert_eq!(eng.flight, state_after_first);

    // At 5000 ms it is accepted again and detaches.
    let out = eng.handle_message(Message::ToggleJetway, 10000);
    assert_eq!(out.events.len(), 1);
    assert!(!eng.flight.jetway_attached);
    assert!(!eng.flight.last_request_was_attach);
}

#[test]
fn gsx_pin_rising_edge_plays_safety_video() {
    let mut eng = EngineState::new(0);
    let pin = |v: i32| Message::Record { tag: 11, payload: RawScalar::Int32 { value: v } };

    let mut safety_events = 0;
    let mut data_events = 0;
    for (value, now) in [(0, 1000), (0, 2000), (1, 3000)] {
        let out = eng.handle_message(pin(value), now);
        safety_events += out
            .events
            .iter()
            .filter(|e| matches!(e, UiEvent::Audio { audio: AudioEvent::SafetyVideo { .. } }))
            .count();
        data_events += out.events.iter().filter(|e| is_data(e)).count();
    }
    assert_eq!(safety_events, 1);
    assert_eq!(data_events, 1);
    assert!(eng.flight.gsx_bypass_pin);

    // Removal emits a snapshot but no safety video.
    let out = eng.handle_message(pin(0), 4000);
    assert_eq!(out.events.len(), 1);
    assert!(is_data(&out.events[0]));
    assert!(!eng.flight.gsx_bypass_pin);
}

#[test]
fn gsx_alternate_source_acts_like_primary() {
    let mut eng = EngineState::new(0);
    let pin_alt = |v: i32| Message::Record { tag: 12, payload: RawScalar::Int32 { value: v } };

    let out = eng.handle_message(pin_alt(1), 1000);
    assert_eq!(out.events.len(), 2);
    assert_eq!(out.events[0], UiEvent::Audio { audio: AudioEvent::SafetyVideo { volume_units: 0 } });
    assert!(is_data(&out.events[1]));
    assert!(eng.flight.gsx_bypass_pin);
}

#[test]
fn light_signals_emit_only_on_change() {
    let mut eng = EngineState::new(0);
    let beacon = |v: i32| Message::Record { tag: 1, payload: RawScalar::Int32 { value: v } };

    // The first observation always differs from the unobserved marker.
    let out = eng.handle_message(beacon(0), 1000);
    assert_eq!(out.events, vec![UiEvent::BeaconLightChanged { on: false }]);

    let out = eng.handle_message(beacon(0), 2000);
    assert!(out.events.is_empty());

    let out = eng.handle_message(beacon(1), 3000);
    assert_eq!(out.events, vec![UiEvent::BeaconLightChanged { on: true }]);

    let seatbelt = |v: i32| Message::Record { tag: 2, payload: RawScalar::Int32 { value: v } };
    let out = eng.handle_message(seatbelt(1), 4000);
    assert_eq!(out.events, vec![UiEvent::SeatbeltSwitchChanged { on: true }]);
    let out = eng.handle_message(seatbelt(1), 5000);
    assert!(out.events.is_empty());

    let landing = |v: i32| Message::Record { tag: 4, payload: RawScalar::Int32 { value: v } };
    let out = eng.handle_message(landing(1), 6000);
    assert_eq!(out.events, vec![UiEvent::LandingLightsChanged { on: true }]);
    let out = eng.handle_message(landing(0), 7000);
    assert_eq!(out.events, vec![UiEvent::LandingLightsChanged { on: false }]);
}

#[test]
fn unknown_tags_and_malformed_payloads_are_ignored() {
    let mut eng = EngineState::new(0);
    let before = eng;

    let out = eng.handle_message(
        Message::Record { tag: 42, payload: RawScalar::Int32 { value: 7 } },
        1000,
    );
    assert!(out.events.is_empty());
    assert!(out.keep_running);
    assert_eq!(eng, before);

    // An altitude tag with an int32 payload is malformed: no update.
    let out = eng.handle_message(
        Message::Record { tag: 0, payload: RawScalar::Int32 { value: 9000 } },
        2000,
    );
    assert!(out.events.is_empty());
    assert_eq!(eng, before);

    // A frame record carries nothing.
    let out = eng.handle_message(
        Message::Record { tag: 10, payload: RawScalar::Int32 { value: 0 } },
        3000,
    );
    assert!(out.events.is_empty());
    assert_eq!(eng, before);
}

#[test]
fn protocol_events_open_quit_and_errors() {
    let mut eng = EngineState::new(0);

    let out = eng.handle_message(Message::ReadError, 1000);
    assert!(out.events.is_empty());
    assert!(out.keep_running);
    assert_eq!(eng.consecutive_errors, 1);

    // Within a second of the last counted error, nothing is counted.
    let out = eng.handle_message(Message::Exception, 1500);
    assert!(out.keep_running);
    assert_eq!(eng.consecutive_errors, 1);

    let _ = eng.handle_message(Message::Exception, 2000);
    assert_eq!(eng.consecutive_errors, 2);

    // Opening resets the counter and emits the open event.
    let out = eng.handle_message(Message::Opened, 2500);
    assert_eq!(out.events, vec![UiEvent::Open]);
    assert!(out.keep_running);
    assert_eq!(eng.consecutive_errors, 0);

    // Quit emits the quit event and ends the loop.
    let out = eng.handle_message(Message::Quit, 3000);
    assert_eq!(out.events, vec![UiEvent::Quit]);
    assert!(!out.keep_running);

    // No-data reads and unconsumed messages do nothing.
    let out = eng.handle_message(Message::NoData, 3500);
    assert!(out.events.is_empty() && out.keep_running);
    let out = eng.handle_message(Message::Other, 4000);
    assert!(out.events.is_empty() && out.keep_running);
    let out = eng.handle_message(Message::OtherEvent, 4500);
    assert!(out.events.is_empty() && out.keep_running);
}
