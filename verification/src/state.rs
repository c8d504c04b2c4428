use vstd::prelude::*;
use crate::events::{CameraPosition, CameraViewType, Snapshot};

verus! {

/// Fixed-point scale: units per 1.0 of a telemetry scalar. The noise
/// threshold of 0.1 then stays exactly representable, and a delta of
/// 0.1001 lies strictly above it.
pub const FIXED_SCALE: i64 = 10_000;

/// Half of one whole unit, used when rounding to whole units.
pub const HALF_UNIT: i64 = 5_000;

/// 10,000 feet in fixed-point units: the ascent-announcement threshold
/// and the reset threshold for the altitude flags.
pub const ALT_TEN_K: i64 = 100_000_000;

/// 18,000 feet in fixed-point units: the arrival-soon threshold.
pub const ALT_EIGHTEEN_K: i64 = 180_000_000;

/// Position-change significance threshold (0.1) in fixed-point units.
/// A change must exceed this strictly to count.
pub const POS_EPSILON: i64 = 1_000;

/// Cabin volume for the cockpit view (1.0) in fixed-point units.
pub const VOLUME_FULL: i64 = 10_000;

/// Bound on the magnitude of every fixed-point scalar the engine
/// stores, so that differences and rounding stay within `i64`.
pub const POS_BOUND: i64 = 1_000_000_000_000;

/// Minimum time between two accepted manual jetway toggles.
pub const TOGGLE_DEBOUNCE_MS: u64 = 5_000;

/// Minimum time between two accepted telemetry-driven jetway updates.
pub const JETWAY_UPDATE_MIN_MS: u64 = 1_000;

/// Minimum time between two camera-substate log notes.
pub const SUBSTATE_LOG_MIN_MS: u64 = 1_000;

/// Minimum time between two counted read errors.
pub const ERROR_LOG_MIN_MS: u64 = 1_000;

/// True when at least `min_ms` milliseconds have passed from `last` to
/// `now` on a monotone clock; an earlier `now` reads as no time passed.
pub open spec fn elapsed_at_least(last: u64, now: u64, min_ms: u64) -> bool {
    now >= last && now - last >= min_ms
}

/// A fixed-point scalar the engine may store.
pub open spec fn in_pos_bound(v: i64) -> bool {
    -POS_BOUND <= v <= POS_BOUND
}

/// The single mutable cabin/flight record. Timestamps are milliseconds
/// of a monotone clock supplied by the caller; scalar fields are
/// fixed-point with `FIXED_SCALE` units per 1.0.
#[derive(Clone, Copy, Debug, PartialEq, Eq, Structural)]
pub struct FlightDataState {
    pub last_toggle_time: u64,
    pub last_request_was_attach: bool,
    pub last_alt: i64,
    pub jetway_attached: bool,
    pub jetway_moving: bool,
    pub boarding_music_playing: bool,
    pub welcome_aboard_playing: bool,
    pub last_welcome_aboard_time: u64,
    pub next_welcome_aboard_delay_ms: u64,
    pub ten_k_announced: bool,
    pub arrive_soon_announced: bool,
    pub landing_soon_announced: bool,
    pub camera_position: CameraPosition,
    pub x_position: i64,
    pub y_position: i64,
    pub z_position: i64,
    pub camera_view_type: CameraViewType,
    pub volume_level: i64,
    pub last_x_position: i64,
    pub last_y_position: i64,
    pub last_z_position: i64,
    pub last_substate_update: u64,
    pub last_jetway_update: u64,
    pub gsx_bypass_pin: bool,
}

/// Rounding to whole units, half away from zero.
pub open spec fn spec_round_units(v: int) -> int {
    if v >= 0 {
        (v + HALF_UNIT) / (FIXED_SCALE as int)
    } else {
        -((-v + HALF_UNIT) / (FIXED_SCALE as int))
    }
}

/// The snapshot a state serializes to: every field as stored, with the
/// altitude rounded to whole units.
pub open spec fn spec_payload(s: FlightDataState) -> Snapshot {
    Snapshot {
        alt_units: spec_round_units(s.last_alt as int) as i64,
        jetway_moving: s.jetway_moving,
        jetway_state: s.jetway_attached,
        last_request_was_attach: s.last_request_was_attach,
        boarding_music_playing: s.boarding_music_playing,
        welcome_aboard_playing: s.welcome_aboard_playing,
        ten_k_announced: s.ten_k_announced,
        arrive_soon_announced: s.arrive_soon_announced,
        landing_soon_announced: s.landing_soon_announced,
        camera_position: s.camera_position,
        x_position: s.x_position,
        y_position: s.y_position,
        z_position: s.z_position,
        camera_view_type: s.camera_view_type,
        volume_level: s.volume_level,
        gsx_bypass_pin: s.gsx_bypass_pin,
    }
}

impl FlightDataState {
    /// Every stored scalar within representation bounds, and the cabin
    /// volume one of its two lookup values.
    pub open spec fn wf(self) -> bool {
        &&& in_pos_bound(self.last_alt)
        &&& in_pos_bound(self.x_position)
        &&& in_pos_bound(self.y_position)
        &&& in_pos_bound(self.z_position)
        &&& in_pos_bound(self.last_x_position)
        &&& in_pos_bound(self.last_y_position)
        &&& in_pos_bound(self.last_z_position)
        &&& (self.volume_level == 0 || self.volume_level == VOLUME_FULL)
    }

    /// Fresh state at clock time `now_ms`: nothing announced, jetway
    /// detached, exterior camera, everything at zero.
    pub fn new(now_ms: u64) -> (s: Self)
        ensures
            s == Self::spec_new(now_ms),
            s.wf(),
    {
        FlightDataState {
            last_toggle_time: now_ms,
            last_request_was_attach: false,
            last_alt: 0,
            jetway_attached: false,
            jetway_moving: false,
            boarding_music_playing: false,
            welcome_aboard_playing: false,
            last_welcome_aboard_time: now_ms,
            next_welcome_aboard_delay_ms: 30_000,
            ten_k_announced: false,
            arrive_soon_announced: false,
            landing_soon_announced: false,
            camera_position: CameraPosition::Exterior,
            x_position: 0,
            y_position: 0,
            z_position: 0,
            camera_view_type: CameraViewType::External,
            volume_level: 0,
            last_x_position: 0,
            last_y_position: 0,
            last_z_position: 0,
            last_substate_update: now_ms,
            last_jetway_update: now_ms,
            gsx_bypass_pin: false,
        }
    }

    /// The value `new` returns.
    pub open spec fn spec_new(now_ms: u64) -> Self {
        FlightDataState {
            last_toggle_time: now_ms,
            last_request_was_attach: false,
            last_alt: 0,
            jetway_attached: false,
            jetway_moving: false,
            boarding_music_playing: false,
            welcome_aboard_playing: false,
            last_welcome_aboard_time: now_ms,
            next_welcome_aboard_delay_ms: 30_000,
            ten_k_announced: false,
            arrive_soon_announced: false,
            landing_soon_announced: false,
            camera_position: CameraPosition::Exterior,
            x_position: 0,
            y_position: 0,
            z_position: 0,
            camera_view_type: CameraViewType::External,
            volume_level: 0,
            last_x_position: 0,
            last_y_position: 0,
            last_z_position: 0,
            last_substate_update: now_ms,
            last_jetway_update: now_ms,
            gsx_bypass_pin: false,
        }
    }

    /// The full-state snapshot for the `simconnect-data` event.
    pub fn get_payload(&self) -> (p: Snapshot)
        requires
            self.wf(),
        ensures
            p == spec_payload(*self),
    {
        Snapshot {
            alt_units: round_units(self.last_alt),
            jetway_moving: self.jetway_moving,
            jetway_state: self.jetway_attached,
            last_request_was_attach: self.last_request_was_attach,
            boarding_music_playing: self.boarding_music_playing,
            welcome_aboard_playing: self.welcome_aboard_playing,
            ten_k_announced: self.ten_k_announced,
            arrive_soon_announced: self.arrive_soon_announced,
            landing_soon_announced: self.landing_soon_announced,
            camera_position: self.camera_position,
            x_position: self.x_position,
            y_position: self.y_position,
            z_position: self.z_position,
            camera_view_type: self.camera_view_type,
            volume_level: self.volume_level,
            gsx_bypass_pin: self.gsx_bypass_pin,
        }
    }
}

/// Rounds a fixed-point scalar to whole units, half away from zero.
pub fn round_units(v: i64) -> (r: i64)
    requires
        in_pos_bound(v),
    ensures
        r == spec_round_units(v as int),
{
    if v >= 0 {
        let m: u64 = (v as u64 + HALF_UNIT as u64) / (FIXED_SCALE as u64);
        m as i64
    } else {
        let neg: i64 = -v;
        let m: u64 = (neg as u64 + HALF_UNIT as u64) / (FIXED_SCALE as u64);
        -(m as i64)
    }
}

} // verus!
