use vstd::prelude::*;
use crate::events::{AudioEvent, CameraPosition, CameraUpdate, CameraViewType};
use crate::state::{
    FlightDataState, elapsed_at_least, in_pos_bound,
    ALT_EIGHTEEN_K, ALT_TEN_K, JETWAY_UPDATE_MIN_MS, POS_BOUND, POS_EPSILON,
    SUBSTATE_LOG_MIN_MS, TOGGLE_DEBOUNCE_MS, VOLUME_FULL,
};

verus! {

/// What a telemetry-driven jetway update did.
#[derive(Clone, Copy, Debug, PartialEq, Eq, Structural)]
pub enum JetwayOutcome {
    /// Less than the throttle interval since the last accepted update:
    /// nothing applied, nothing emitted.
    Debounced,
    /// Accepted, but the attach state did not flip: snapshot only.
    NoChange,
    /// The jetway just attached: boarding music starts at full volume
    /// and the announcement sequence is scheduled.
    Attached,
    /// The jetway just detached: boarding music stops and the delayed
    /// doors announcement is scheduled.
    Detached,
}

/// What a GSX bypass-pin reading did.
#[derive(Clone, Copy, Debug, PartialEq, Eq, Structural)]
pub enum GsxOutcome {
    /// Reading equals the stored state: nothing applied, nothing emitted.
    NoChange,
    /// Pin went in: safety video plays and a snapshot is emitted.
    Inserted,
    /// Pin came out: snapshot only.
    Removed,
}

/// One of the three camera position axes.
#[derive(Clone, Copy, Debug, PartialEq, Eq, Structural)]
pub enum Axis {
    X,
    Y,
    Z,
}

/// A one-shot side effect to run after a delay.
#[derive(Clone, Copy, Debug, PartialEq, Eq, Structural)]
pub struct ScheduledEmit {
    pub delay_ms: u64,
    pub audio: AudioEvent,
}

/// An ascent crosses 10,000 feet and the announcement is still owed.
pub open spec fn spec_altitude_announce(pre: FlightDataState, alt: i64) -> bool {
    pre.last_alt < ALT_TEN_K && alt >= ALT_TEN_K && !pre.ten_k_announced
}

/// The altitude transition: the 10k flag sets on an owed ascent
/// crossing and clears whenever altitude is below 10,000; the
/// arrive-soon flag sets below 18,000 and never clears; the
/// landing-soon flag holds exactly while altitude is below 10,000
/// or it already held.
pub open spec fn spec_update_altitude(pre: FlightDataState, alt: i64) -> FlightDataState {
    FlightDataState {
        last_alt: alt,
        ten_k_announced: alt >= ALT_TEN_K
            && (pre.ten_k_announced || spec_altitude_announce(pre, alt)),
        arrive_soon_announced: pre.arrive_soon_announced || alt < ALT_EIGHTEEN_K,
        landing_soon_announced: if alt < ALT_TEN_K { true } else { pre.landing_soon_announced },
        ..pre
    }
}

/// The manual jetway toggle transition: ignored within the debounce
/// window, otherwise the attach state flips, the jetway is marked
/// moving, and boarding music follows the new attach state.
pub open spec fn spec_toggle_jetway(pre: FlightDataState, now_ms: u64) -> FlightDataState {
    if elapsed_at_least(pre.last_toggle_time, now_ms, TOGGLE_DEBOUNCE_MS) {
        FlightDataState {
            last_toggle_time: now_ms,
            jetway_moving: true,
            jetway_attached: !pre.jetway_attached,
            last_request_was_attach: !pre.jetway_attached,
            boarding_music_playing: !pre.jetway_attached,
            ..pre
        }
    } else {
        pre
    }
}

/// A telemetry exit-open value reads as attached when strictly positive.
pub open spec fn spec_exit_open_attached(exit_open: i64) -> bool {
    exit_open > 0
}

/// The telemetry-driven jetway transition: throttled to one accepted
/// update per interval; an accepted update stamps the throttle clock,
/// and on an attach-state flip resolves the motion and cascades into
/// the boarding-music flag.
pub open spec fn spec_update_jetway_telemetry(
    pre: FlightDataState,
    exit_open: i64,
    now_ms: u64,
) -> FlightDataState {
    if !elapsed_at_least(pre.last_jetway_update, now_ms, JETWAY_UPDATE_MIN_MS) {
        pre
    } else {
        let attached = spec_exit_open_attached(exit_open);
        if attached == pre.jetway_attached {
            FlightDataState { last_jetway_update: now_ms, ..pre }
        } else {
            FlightDataState {
                last_jetway_update: now_ms,
                jetway_attached: attached,
                jetway_moving: false,
                last_request_was_attach: attached,
                boarding_music_playing: attached,
                ..pre
            }
        }
    }
}

/// The outcome `update_jetway_telemetry` reports.
pub open spec fn spec_jetway_outcome(
    pre: FlightDataState,
    exit_open: i64,
    now_ms: u64,
) -> JetwayOutcome {
    if !elapsed_at_least(pre.last_jetway_update, now_ms, JETWAY_UPDATE_MIN_MS) {
        JetwayOutcome::Debounced
    } else if spec_exit_open_attached(exit_open) == pre.jetway_attached {
        JetwayOutcome::NoChange
    } else if spec_exit_open_attached(exit_open) {
        JetwayOutcome::Attached
    } else {
        JetwayOutcome::Detached
    }
}

/// The fixed camera lookup: code 0 is the cockpit at full volume,
/// codes 1 through 7 are the known external views, anything else is
/// unrecognized; every non-cockpit view mutes the cabin.
pub open spec fn spec_camera_mapping(code: i32) -> (CameraPosition, CameraViewType, i64) {
    if code == 0 {
        (CameraPosition::Cockpit, CameraViewType::Internal, VOLUME_FULL)
    } else if 1 <= code <= 7 {
        (CameraPosition::Exterior, CameraViewType::External, 0)
    } else {
        (CameraPosition::Exterior, CameraViewType::Unknown, 0)
    }
}

/// The camera-state transition: only a change of view classification
/// is applied, updating the view type and the cabin volume.
pub open spec fn spec_update_camera_state(pre: FlightDataState, code: i32) -> FlightDataState {
    if spec_camera_mapping(code).1 == pre.camera_view_type {
        pre
    } else {
        FlightDataState {
            camera_view_type: spec_camera_mapping(code).1,
            volume_level: spec_camera_mapping(code).2,
            ..pre
        }
    }
}

/// The event payload a camera-state change carries: the new
/// classification with the current position triple.
pub open spec fn spec_camera_state_update(pre: FlightDataState, code: i32) -> CameraUpdate {
    CameraUpdate {
        position: spec_camera_mapping(code).0,
        view_type: spec_camera_mapping(code).1,
        volume_level: spec_camera_mapping(code).2,
        x_position: pre.x_position,
        y_position: pre.y_position,
        z_position: pre.z_position,
    }
}

/// A position change is significant only when its magnitude strictly
/// exceeds the noise threshold.
pub open spec fn spec_significant_change(last: i64, v: i64) -> bool {
    v - last > POS_EPSILON || last - v > POS_EPSILON
}

/// The stored current value of an axis.
pub open spec fn spec_axis_value(s: FlightDataState, axis: Axis) -> i64 {
    match axis {
        Axis::X => s.x_position,
        Axis::Y => s.y_position,
        Axis::Z => s.z_position,
    }
}

/// The stored change-filter shadow of an axis.
pub open spec fn spec_axis_last(s: FlightDataState, axis: Axis) -> i64 {
    match axis {
        Axis::X => s.last_x_position,
        Axis::Y => s.last_y_position,
        Axis::Z => s.last_z_position,
    }
}

/// The axis transition: the current value always updates; the shadow
/// follows only on a significant change.
pub open spec fn spec_update_camera_axis(
    pre: FlightDataState,
    axis: Axis,
    v: i64,
) -> FlightDataState {
    let significant = spec_significant_change(spec_axis_last(pre, axis), v);
    match axis {
        Axis::X => FlightDataState {
            x_position: v,
            last_x_position: if significant { v } else { pre.last_x_position },
            ..pre
        },
        Axis::Y => FlightDataState {
            y_position: v,
            last_y_position: if significant { v } else { pre.last_y_position },
            ..pre
        },
        Axis::Z => FlightDataState {
            z_position: v,
            last_z_position: if significant { v } else { pre.last_z_position },
            ..pre
        },
    }
}

/// The event payload a significant axis change carries: the stored
/// camera classification with the position triple after the update.
pub open spec fn spec_camera_axis_update(pre: FlightDataState, axis: Axis, v: i64) -> CameraUpdate {
    let post = spec_update_camera_axis(pre, axis, v);
    CameraUpdate {
        position: pre.camera_position,
        view_type: pre.camera_view_type,
        volume_level: pre.volume_level,
        x_position: post.x_position,
        y_position: post.y_position,
        z_position: post.z_position,
    }
}

/// A GSX pin reading is inserted exactly when it is 1.
pub open spec fn spec_gsx_state(value: i32) -> bool {
    value == 1
}

/// The GSX bypass-pin transition: only a changed reading is applied.
pub open spec fn spec_update_gsx_pin(pre: FlightDataState, value: i32) -> FlightDataState {
    if spec_gsx_state(value) == pre.gsx_bypass_pin {
        pre
    } else {
        FlightDataState { gsx_bypass_pin: spec_gsx_state(value), ..pre }
    }
}

/// The outcome `update_gsx_pin` reports.
pub open spec fn spec_gsx_outcome(pre: FlightDataState, value: i32) -> GsxOutcome {
    if spec_gsx_state(value) == pre.gsx_bypass_pin {
        GsxOutcome::NoChange
    } else if spec_gsx_state(value) {
        GsxOutcome::Inserted
    } else {
        GsxOutcome::Removed
    }
}

/// The camera-substate note throttle: at most one note per interval,
/// stamping the throttle clock when a note is taken.
pub open spec fn spec_note_camera_substate(pre: FlightDataState, now_ms: u64) -> FlightDataState {
    if elapsed_at_least(pre.last_substate_update, now_ms, SUBSTATE_LOG_MIN_MS) {
        FlightDataState { last_substate_update: now_ms, ..pre }
    } else {
        pre
    }
}

/// The welcome-aboard delay drawn from a raw random value: uniformly
/// 30 to 120 seconds, in milliseconds.
pub open spec fn spec_welcome_delay_ms(random_value: u64) -> u64 {
    ((random_value % 91 + 30) * 1000) as u64
}

impl FlightDataState {
    /// Applies one altitude record and reports whether the 10k-feet
    /// announcement fires on this update.
    pub fn update_altitude(&mut self, alt: i64) -> (announce: bool)
        requires
            old(self).wf(),
            in_pos_bound(alt),
        ensures
            final(self).wf(),
            announce == spec_altitude_announce(*old(self), alt),
            *final(self) == spec_update_altitude(*old(self), alt),
    {
        let announce = self.last_alt < ALT_TEN_K && alt >= ALT_TEN_K && !self.ten_k_announced;
        if announce {
            self.ten_k_announced = true;
        }
        if alt < ALT_TEN_K {
            self.ten_k_announced = false;
            self.landing_soon_announced = false;
        }
        if alt < ALT_EIGHTEEN_K && !self.arrive_soon_announced {
            self.arrive_soon_announced = true;
        }
        if alt < ALT_TEN_K && !self.landing_soon_announced {
            self.landing_soon_announced = true;
        }
        self.last_alt = alt;
        announce
    }

    /// Applies one manual jetway toggle request and reports whether it
    /// passed the debounce.
    pub fn toggle_jetway(&mut self, now_ms: u64) -> (applied: bool)
        ensures
            applied == elapsed_at_least(old(self).last_toggle_time, now_ms, TOGGLE_DEBOUNCE_MS),
            *final(self) == spec_toggle_jetway(*old(self), now_ms),
    {
        if now_ms >= self.last_toggle_time
            && now_ms - self.last_toggle_time >= TOGGLE_DEBOUNCE_MS
        {
            self.last_toggle_time = now_ms;
            self.jetway_moving = true;
            if self.jetway_attached {
                self.last_request_was_attach = false;
                self.jetway_attached = false;
                self.boarding_music_playing = false;
            } else {
                self.last_request_was_attach = true;
                self.jetway_attached = true;
                self.boarding_music_playing = true;
            }
            true
        } else {
            false
        }
    }

    /// Applies one telemetry-driven jetway exit-open reading.
    pub fn update_jetway_telemetry(&mut self, exit_open: i64, now_ms: u64) -> (o: JetwayOutcome)
        ensures
            o == spec_jetway_outcome(*old(self), exit_open, now_ms),
            *final(self) == spec_update_jetway_telemetry(*old(self), exit_open, now_ms),
    {
        if now_ms >= self.last_jetway_update
            && now_ms - self.last_jetway_update >= JETWAY_UPDATE_MIN_MS
        {
            self.last_jetway_update = now_ms;
            let was_attached = self.jetway_attached;
            let is_attached = exit_open > 0;
            if is_attached != was_attached {
                self.jetway_attached = is_attached;
                self.jetway_moving = false;
                self.last_request_was_attach = is_attached;
                self.boarding_music_playing = is_attached;
                if is_attached {
                    JetwayOutcome::Attached
                } else {
                    JetwayOutcome::Detached
                }
            } else {
                JetwayOutcome::NoChange
            }
        } else {
            JetwayOutcome::Debounced
        }
    }

    /// Applies one camera-state code; yields the event payload exactly
    /// when the view classification changed.
    pub fn update_camera_state(&mut self, code: i32) -> (r: Option<CameraUpdate>)
        ensures
            *final(self) == spec_update_camera_state(*old(self), code),
            r matches Some(u) <==> spec_camera_mapping(code).1 != old(self).camera_view_type,
            r matches Some(u) ==> u == spec_camera_state_update(*old(self), code),
    {
        let (position, view_type, volume_level): (CameraPosition, CameraViewType, i64) =
            if code == 0 {
                (CameraPosition::Cockpit, CameraViewType::Internal, VOLUME_FULL)
            } else if 1 <= code && code <= 7 {
                (CameraPosition::Exterior, CameraViewType::External, 0)
            } else {
                (CameraPosition::Exterior, CameraViewType::Unknown, 0)
            };
        if view_type != self.camera_view_type {
            self.camera_view_type = view_type;
            self.volume_level = volume_level;
            Some(CameraUpdate {
                position,
                view_type,
                volume_level,
                x_position: self.x_position,
                y_position: self.y_position,
                z_position: self.z_position,
            })
        } else {
            None
        }
    }

    /// Applies one axis position reading; yields the event payload
    /// exactly when the change from the shadow value is significant.
    #[verifier::rlimit(60)]
    pub fn update_camera_axis(&mut self, axis: Axis, v: i64) -> (r: Option<CameraUpdate>)
        requires
            old(self).wf(),
            in_pos_bound(v),
        ensures
            final(self).wf(),
            *final(self) == spec_update_camera_axis(*old(self), axis, v),
            r matches Some(u) <==> spec_significant_change(spec_axis_last(*old(self), axis), v),
            r matches Some(u) ==> u == spec_camera_axis_update(*old(self), axis, v),
    {
        match axis {
            Axis::X => {
                let last = self.last_x_position;
                self.x_position = v;
                if v - last > POS_EPSILON || last - v > POS_EPSILON {
                    self.last_x_position = v;
                    Some(self.current_camera_update())
                } else {
                    None
                }
            },
            Axis::Y => {
                let last = self.last_y_position;
                self.y_position = v;
                if v - last > POS_EPSILON || last - v > POS_EPSILON {
                    self.last_y_position = v;
                    Some(self.current_camera_update())
                } else {
                    None
                }
            },
            Axis::Z => {
                let last = self.last_z_position;
                self.z_position = v;
                if v - last > POS_EPSILON || last - v > POS_EPSILON {
                    self.last_z_position = v;
                    Some(self.current_camera_update())
                } else {
                    None
                }
            },
        }
    }

    /// The camera event payload for the state as it stands.
    fn current_camera_update(&self) -> (u: CameraUpdate)
        ensures
            u == (CameraUpdate {
                position: self.camera_position,
                view_type: self.camera_view_type,
                volume_level: self.volume_level,
                x_position: self.x_position,
                y_position: self.y_position,
                z_position: self.z_position,
            }),
    {
        CameraUpdate {
            position: self.camera_position,
            view_type: self.camera_view_type,
            volume_level: self.volume_level,
            x_position: self.x_position,
            y_position: self.y_position,
            z_position: self.z_position,
        }
    }

    /// Applies one GSX bypass-pin reading, from either source.
    pub fn update_gsx_pin(&mut self, value: i32) -> (o: GsxOutcome)
        ensures
            o == spec_gsx_outcome(*old(self), value),
            *final(self) == spec_update_gsx_pin(*old(self), value),
    {
        let new_state = value == 1;
        if new_state != self.gsx_bypass_pin {
            self.gsx_bypass_pin = new_state;
            if new_state {
                GsxOutcome::Inserted
            } else {
                GsxOutcome::Removed
            }
        } else {
            GsxOutcome::NoChange
        }
    }

    /// Takes one throttled camera-substate note; reports whether the
    /// note was taken. The note has no externally observable effect
    /// beyond the throttle clock.
    pub fn note_camera_substate(&mut self, now_ms: u64) -> (noted: bool)
        ensures
            noted == elapsed_at_least(old(self).last_substate_update, now_ms, SUBSTATE_LOG_MIN_MS),
            *final(self) == spec_note_camera_substate(*old(self), now_ms),
    {
        if now_ms >= self.last_substate_update
            && now_ms - self.last_substate_update >= SUBSTATE_LOG_MIN_MS
        {
            self.last_substate_update = now_ms;
            true
        } else {
            false
        }
    }

    /// Records the end of a welcome-aboard announcement and yields the
    /// next announcement to schedule, its delay drawn from the given
    /// raw random value. No field changes but the playing flag and the
    /// completion time.
    pub fn handle_welcome_aboard_complete(
        &mut self,
        now_ms: u64,
        random_value: u64,
    ) -> (d: ScheduledEmit)
        ensures
            *final(self) == (FlightDataState {
                welcome_aboard_playing: false,
                last_welcome_aboard_time: now_ms,
                ..*old(self)
            }),
            d.delay_ms == spec_welcome_delay_ms(random_value),
            30_000 <= d.delay_ms <= 120_000,
            d.audio == AudioEvent::WelcomeAboard,
    {
        self.welcome_aboard_playing = false;
        self.last_welcome_aboard_time = now_ms;
        let seconds: u64 = random_value % 91 + 30;
        ScheduledEmit { delay_ms: seconds * 1000, audio: AudioEvent::WelcomeAboard }
    }

    /// Records the end of a welcome-aboard announcement, drawing the
    /// next delay from the thread-local generator. Whatever was drawn,
    /// the next announcement comes due between 30 and 120 seconds out.
    pub fn welcome_aboard_complete_with_random(&mut self, now_ms: u64) -> (d: ScheduledEmit)
        ensures
            *final(self) == (FlightDataState {
                welcome_aboard_playing: false,
                last_welcome_aboard_time: now_ms,
                ..*old(self)
            }),
            30_000 <= d.delay_ms <= 120_000,
            d.audio == AudioEvent::WelcomeAboard,
    {
        let random_value: u64 = rand::random();
        self.handle_welcome_aboard_complete(now_ms, random_value)
    }
}

} // verus!
