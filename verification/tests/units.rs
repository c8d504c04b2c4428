use simpa_engine::classify::{RawScalar, TelemetryRecord, classify_record};
use simpa_engine::events::{AudioEvent, CameraPosition, CameraViewType};
use simpa_engine::lifecycle::{SimConnectState, StartOutcome};
use simpa_engine::events::UiEvent;
use simpa_engine::state::{FlightDataState, round_units, FIXED_SCALE};
use simpa_engine::transitions::Axis;

#[test]
fn lifecycle_stop_is_idempotent_and_emits_quit() {
    let mut s = SimConnectState::new();
    assert!(!s.status());

    assert_eq!(s.start(), StartOutcome::Started);
    assert!(s.status());
    assert_eq!(s.start(), StartOutcome::AlreadyRunning);
    assert!(s.status());

    assert_eq!(s.stop(), UiEvent::Quit);
    assert!(!s.status());
    assert_eq!(s.stop(), UiEvent::Quit);
    assert!(!s.status());
}

#[test]
fn classifier_maps_each_tag_to_its_rule() {
    assert_eq!(
        classify_record(0, RawScalar::Fixed { value: 123 }),
        Some(TelemetryRecord::Altitude { alt: 123 })
    );
    assert_eq!(
        classify_record(1, RawScalar::Int32 { value: 1 }),
        Some(TelemetryRecord::BeaconLight { state: 1 })
    );
    assert_eq!(
        classify_record(3, RawScalar::Fixed { value: 50_000 }),
        Some(TelemetryRecord::JetwayExitOpen { percent: 50_000 })
    );
    assert_eq!(
        classify_record(7, RawScalar::Fixed { value: -5 }),
        Some(TelemetryRecord::CameraX { value: -5 })
    );
    assert_eq!(classify_record(10, RawScalar::Int32 { value: 9 }), Some(TelemetryRecord::Frame));
    assert_eq!(
        classify_record(12, RawScalar::Int32 { value: 0 }),
        Some(TelemetryRecord::GsxBypassPinAlt { value: 0 })
    );

    // Unknown tags and malformed payloads classify to nothing.
    assert_eq!(classify_record(13, RawScalar::Int32 { value: 1 }), None);
    assert_eq!(classify_record(0, RawScalar::Int32 { value: 9000 }), None);
    assert_eq!(classify_record(1, RawScalar::Fixed { value: 1 }), None);
}

#[test]
fn rounding_is_half_away_from_zero() {
    assert_eq!(round_units(0), 0);
    assert_eq!(round_units(4_999), 0);
    assert_eq!(round_units(5_000), 1);
    assert_eq!(round_units(15_000), 2);
    assert_eq!(round_units(14_999), 1);
    assert_eq!(round_units(-5_000), -1);
    assert_eq!(round_units(-4_999), 0);
    assert_eq!(round_units(10_000 * FIXED_SCALE), 10_000);
}

#[test]
fn snapshot_rounds_altitude_to_whole_feet() {
    let mut s = FlightDataState::new(0);
    s.update_altitude(100_004_000);
    assert_eq!(s.get_payload().alt_units, 10_000);
    s.update_altitude(100_005_000);
    assert_eq!(s.get_payload().alt_units, 10_001);
}

#[test]
fn camera_state_lookup_and_change_filter() {
    let mut s = FlightDataState::new(0);

    // Cockpit: internal view at full volume.
    let u = s.update_camera_state(0).expect("view change");
    assert_eq!(u.position, CameraPosition::Cockpit);
    assert_eq!(u.view_type, CameraViewType::Internal);
    assert_eq!(u.volume_level, FIXED_SCALE);
    assert_eq!(s.volume_level, FIXED_SCALE);

    // The same classification again: no event.
    assert!(s.update_camera_state(0).is_none());

    // Every known external code mutes the cabin.
    let u = s.update_camera_state(3).expect("view change");
    assert_eq!(u.position, CameraPosition::Exterior);
    assert_eq!(u.view_type, CameraViewType::External);
    assert_eq!(u.volume_level, 0);

    // Another external code is the same classification: no event.
    assert!(s.update_camera_state(7).is_none());

    // An unrecognized code reads as exterior/unknown/muted.
    let u = s.update_camera_state(8).expect("view change");
    assert_eq!(u.position, CameraPosition::Exterior);
    assert_eq!(u.view_type, CameraViewType::Unknown);
    assert_eq!(u.volume_level, 0);
}

#[test]
fn position_delta_must_exceed_threshold() {
    // A delta of exactly 0.1 does not trigger an event.
    let mut s = FlightDataState::new(0);
    assert!(s.update_camera_axis(Axis::X, 1_000).is_none());
    assert_eq!(s.x_position, 1_000);
    assert_eq!(s.last_x_position, 0);

    // A delta of 0.1001 does.
    let mut s = FlightDataState::new(0);
    let u = s.update_camera_axis(Axis::X, 1_001).expect("significant change");
    assert_eq!(u.x_position, 1_001);
    assert_eq!(s.last_x_position, 1_001);

    // The event carries the full current triple.
    let u = s.update_camera_axis(Axis::Y, -2_000).expect("significant change");
    assert_eq!((u.x_position, u.y_position, u.z_position), (1_001, -2_000, 0));
    assert_eq!(u.position, CameraPosition::Exterior);
}

#[test]
fn substate_notes_are_throttled() {
    let mut s = FlightDataState::new(0);
    assert!(!s.note_camera_substate(999));
    assert!(s.note_camera_substate(1_000));
    assert!(!s.note_camera_substate(1_999));
    assert!(s.note_camera_substate(2_000));
}

#[test]
fn welcome_aboard_completion_schedules_next_announcement() {
    let mut s = FlightDataState::new(0);
    s.welcome_aboard_playing = true;

    let d = s.handle_welcome_aboard_complete(7_000, 0);
    assert!(!s.welcome_aboard_playing);
    assert_eq!(s.last_welcome_aboard_time, 7_000);
    assert_eq!(d.delay_ms, 30_000);
    assert_eq!(d.audio, AudioEvent::WelcomeAboard);

    let d = s.handle_welcome_aboard_complete(8_000, 90);
    assert_eq!(d.delay_ms, 120_000);
    // The drawn delay is handed back, not stored: the field keeps its
    // constructed value.
    assert_eq!(s.next_welcome_aboard_delay_ms, 30_000);

    let d = s.welcome_aboard_complete_with_random(9_000);
    assert!((30_000..=120_000).contains(&d.delay_ms));
    assert_eq!(d.audio, AudioEvent::WelcomeAboard);
    assert_eq!(s.last_welcome_aboard_time, 9_000);
}

#[test]
fn direct_toggle_respects_debounce() {
    let mut s = FlightDataState::new(0);
    assert!(!s.toggle_jetway(4_999));
    assert!(!s.jetway_attached);

    assert!(s.toggle_jetway(5_000));
    assert!(s.jetway_attached && s.jetway_moving && s.boarding_music_playing);

    let before = s;
    assert!(!s.toggle_jetway(9_999));
    assert_eq!(s, before);

    assert!(s.toggle_jetway(10_000));
    assert!(!s.jetway_attached && !s.boarding_music_playing);
}
