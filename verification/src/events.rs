use vstd::prelude::*;

verus! {

/// Coarse camera placement reported in camera events and snapshots.
#[derive(Clone, Copy, Debug, PartialEq, Eq, Structural)]
pub enum CameraPosition {
    Cockpit,
    Exterior,
}

/// Classification of the active camera view.
#[derive(Clone, Copy, Debug, PartialEq, Eq, Structural)]
pub enum CameraViewType {
    Internal,
    External,
    Unknown,
}

/// Full serialized cabin/flight state, emitted as the `simconnect-data`
/// event after a transition. Fixed-point fields carry `FIXED_SCALE`
/// units per 1.0; `alt_units` is already rounded to whole feet.
#[derive(Clone, Copy, Debug, PartialEq, Eq, Structural)]
pub struct Snapshot {
    pub alt_units: i64,
    pub jetway_moving: bool,
    pub jetway_state: bool,
    pub last_request_was_attach: bool,
    pub boarding_music_playing: bool,
    pub welcome_aboard_playing: bool,
    pub ten_k_announced: bool,
    pub arrive_soon_announced: bool,
    pub landing_soon_announced: bool,
    pub camera_position: CameraPosition,
    pub x_position: i64,
    pub y_position: i64,
    pub z_position: i64,
    pub camera_view_type: CameraViewType,
    pub volume_level: i64,
    pub gsx_bypass_pin: bool,
}

/// Payload of a `camera-position-changed` event: the view classification
/// and the current position triple at the moment of the change.
#[derive(Clone, Copy, Debug, PartialEq, Eq, Structural)]
pub struct CameraUpdate {
    pub position: CameraPosition,
    pub view_type: CameraViewType,
    pub volume_level: i64,
    pub x_position: i64,
    pub y_position: i64,
    pub z_position: i64,
}

/// One `audio-event` emission. `BoardingMusic` volume is a whole
/// percentage in 0..=100; `SafetyVideo` carries the cabin volume in
/// fixed-point units.
#[derive(Clone, Copy, Debug, PartialEq, Eq, Structural)]
pub enum AudioEvent {
    TenKFeet,
    WelcomeAboard,
    BoardingMusic { volume: u8 },
    DoorsAuto,
    SafetyVideo { volume_units: i64 },
}

/// A named UI event handed to the event sink.
#[derive(Clone, Copy, Debug, PartialEq, Eq, Structural)]
pub enum UiEvent {
    /// `simconnect-open`
    Open,
    /// `simconnect-quit`
    Quit,
    /// `simconnect-data`
    Data { snapshot: Snapshot },
    /// `audio-event`
    Audio { audio: AudioEvent },
    /// `beacon-light-changed`
    BeaconLightChanged { on: bool },
    /// `seatbelt-switch-changed`
    SeatbeltSwitchChanged { on: bool },
    /// `landing-lights-changed`
    LandingLightsChanged { on: bool },
    /// `camera-position-changed`
    CameraPositionChanged { update: CameraUpdate },
}

} // verus!
