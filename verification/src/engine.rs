use vstd::prelude::*;
use crate::classify::{RawScalar, TelemetryRecord, classify_record, spec_classify};
use crate::events::UiEvent;
use crate::events::AudioEvent;
use crate::state::{
    FlightDataState, elapsed_at_least, in_pos_bound, spec_payload, ERROR_LOG_MIN_MS,
    TOGGLE_DEBOUNCE_MS,
};
use crate::transitions::{
    Axis, GsxOutcome, JetwayOutcome,
    spec_altitude_announce, spec_camera_axis_update, spec_camera_mapping,
    spec_camera_state_update, spec_gsx_outcome, spec_jetway_outcome, spec_note_camera_substate,
    spec_significant_change, spec_axis_last, spec_toggle_jetway, spec_update_altitude,
    spec_update_camera_axis, spec_update_camera_state, spec_update_gsx_pin,
    spec_update_jetway_telemetry,
};

verus! {

/// A concurrent side-effect sequence the dispatch step asks its runner
/// to launch.
#[derive(Clone, Copy, Debug, PartialEq, Eq, Structural)]
pub enum SpawnedTask {
    /// The boarding-music announcement cycle, on an attach.
    BoardingCycle,
    /// The delayed doors announcement, on a detach.
    DoorsAutoDelay,
}

/// Everything one dispatch step asks of its runner: the events to
/// emit in order, the sequences to launch, and whether the loop goes on.
pub struct DispatchOutput {
    pub events: Vec<UiEvent>,
    pub spawns: Vec<SpawnedTask>,
    pub keep_running: bool,
}

/// One message from the telemetry source, as the dispatch loop sees
/// it: a tagged data record, a discrete event, or a protocol event.
#[derive(Clone, Copy, Debug, PartialEq, Eq, Structural)]
pub enum Message {
    /// A tagged data record with its decoded payload.
    Record { tag: u32, payload: RawScalar },
    /// The manual jetway toggle event.
    ToggleJetway,
    /// A discrete event the engine does not consume.
    OtherEvent,
    /// The connection opened.
    Opened,
    /// The host asked the session to end.
    Quit,
    /// A protocol exception.
    Exception,
    /// A read error other than "no data yet".
    ReadError,
    /// No data was ready; the loop just yields.
    NoData,
    /// Any other message kind; the loop just yields.
    Other,
}

/// The dispatch loop's whole mutable state: the flight/cabin record,
/// the last observed value of each change-only light signal (-1 before
/// any observation), and the rate-limited error counter.
#[derive(Clone, Copy, Debug, PartialEq, Eq, Structural)]
pub struct EngineState {
    pub flight: FlightDataState,
    pub prev_beacon: i32,
    pub prev_seatbelt: i32,
    pub prev_landing_lights: i32,
    pub consecutive_errors: u32,
    pub last_error_time: u64,
}

/// The engine state after one classified record.
pub open spec fn spec_record_state(pre: EngineState, rec: TelemetryRecord, now_ms: u64) -> EngineState {
    match rec {
        TelemetryRecord::Altitude { alt } => EngineState {
            flight: spec_update_altitude(pre.flight, alt),
            ..pre
        },
        TelemetryRecord::BeaconLight { state } => if state != pre.prev_beacon {
            EngineState { prev_beacon: state, ..pre }
        } else {
            pre
        },
        TelemetryRecord::SeatbeltSwitch { state } => if state != pre.prev_seatbelt {
            EngineState { prev_seatbelt: state, ..pre }
        } else {
            pre
        },
        TelemetryRecord::JetwayExitOpen { percent } => EngineState {
            flight: spec_update_jetway_telemetry(pre.flight, percent, now_ms),
            ..pre
        },
        TelemetryRecord::LandingLights { state } => if state != pre.prev_landing_lights {
            EngineState { prev_landing_lights: state, ..pre }
        } else {
            pre
        },
        TelemetryRecord::CameraState { code } => EngineState {
            flight: spec_update_camera_state(pre.flight, code),
            ..pre
        },
        TelemetryRecord::CameraSubstate { code: _ } => EngineState {
            flight: spec_note_camera_substate(pre.flight, now_ms),
            ..pre
        },
        TelemetryRecord::CameraX { value } => EngineState {
            flight: spec_update_camera_axis(pre.flight, Axis::X, value),
            ..pre
        },
        TelemetryRecord::CameraY { value } => EngineState {
            flight: spec_update_camera_axis(pre.flight, Axis::Y, value),
            ..pre
        },
        TelemetryRecord::CameraZ { value } => EngineState {
            flight: spec_update_camera_axis(pre.flight, Axis::Z, value),
            ..pre
        },
        TelemetryRecord::Frame => pre,
        TelemetryRecord::GsxBypassPin { value } => EngineState {
            flight: spec_update_gsx_pin(pre.flight, value),
            ..pre
        },
        TelemetryRecord::GsxBypassPinAlt { value } => EngineState {
            flight: spec_update_gsx_pin(pre.flight, value),
            ..pre
        },
    }
}

/// The events one classified record emits, in order.
pub open spec fn spec_record_events(
    pre: EngineState,
    rec: TelemetryRecord,
    now_ms: u64,
) -> Seq<UiEvent> {
    let post = spec_record_state(pre, rec, now_ms);
    match rec {
        TelemetryRecord::Altitude { alt } => if spec_altitude_announce(pre.flight, alt) {
            seq![
                UiEvent::Audio { audio: AudioEvent::TenKFeet },
                UiEvent::Data { snapshot: spec_payload(post.flight) },
            ]
        } else {
            seq![UiEvent::Data { snapshot: spec_payload(post.flight) }]
        },
        TelemetryRecord::BeaconLight { state } => if state != pre.prev_beacon {
            seq![UiEvent::BeaconLightChanged { on: state == 1 }]
        } else {
            Seq::empty()
        },
        TelemetryRecord::SeatbeltSwitch { state } => if state != pre.prev_seatbelt {
            seq![UiEvent::SeatbeltSwitchChanged { on: state == 1 }]
        } else {
            Seq::empty()
        },
        TelemetryRecord::JetwayExitOpen { percent } => match spec_jetway_outcome(
            pre.flight, percent, now_ms,
        ) {
            JetwayOutcome::Debounced => Seq::empty(),
            JetwayOutcome::NoChange => seq![
                UiEvent::Data { snapshot: spec_payload(post.flight) },
            ],
            JetwayOutcome::Attached => seq![
                UiEvent::Audio { audio: AudioEvent::BoardingMusic { volume: 100 } },
                UiEvent::Data { snapshot: spec_payload(post.flight) },
            ],
            JetwayOutcome::Detached => seq![
                UiEvent::Audio { audio: AudioEvent::BoardingMusic { volume: 0 } },
                UiEvent::Data { snapshot: spec_payload(post.flight) },
            ],
        },
        TelemetryRecord::LandingLights { state } => if state != pre.prev_landing_lights {
            seq![UiEvent::LandingLightsChanged { on: state == 1 }]
        } else {
            Seq::empty()
        },
        TelemetryRecord::CameraState { code } => if spec_camera_mapping(code).1
            != pre.flight.camera_view_type {
            seq![
                UiEvent::CameraPositionChanged { update: spec_camera_state_update(pre.flight, code) },
            ]
        } else {
            Seq::empty()
        },
        TelemetryRecord::CameraSubstate { code: _ } => Seq::empty(),
        TelemetryRecord::CameraX { value } => if spec_significant_change(
            spec_axis_last(pre.flight, Axis::X), value,
        ) {
            seq![
                UiEvent::CameraPositionChanged {
                    update: spec_camera_axis_update(pre.flight, Axis::X, value),
                },
            ]
        } else {
            Seq::empty()
        },
        TelemetryRecord::CameraY { value } => if spec_significant_change(
            spec_axis_last(pre.flight, Axis::Y), value,
        ) {
            seq![
                UiEvent::CameraPositionChanged {
                    update: spec_camera_axis_update(pre.flight, Axis::Y, value),
                },
            ]
        } else {
            Seq::empty()
        },
        TelemetryRecord::CameraZ { value } => if spec_significant_change(
            spec_axis_last(pre.flight, Axis::Z), value,
        ) {
            seq![
                UiEvent::CameraPositionChanged {
                    update: spec_camera_axis_update(pre.flight, Axis::Z, value),
                },
            ]
        } else {
            Seq::empty()
        },
        TelemetryRecord::Frame => Seq::empty(),
        TelemetryRecord::GsxBypassPin { value } => match spec_gsx_outcome(pre.flight, value) {
            GsxOutcome::NoChange => Seq::empty(),
            GsxOutcome::Inserted => seq![
                UiEvent::Audio {
                    audio: AudioEvent::SafetyVideo { volume_units: pre.flight.volume_level },
                },
                UiEvent::Data { snapshot: spec_payload(post.flight) },
            ],
            GsxOutcome::Removed => seq![UiEvent::Data { snapshot: spec_payload(post.flight) }],
        },
        TelemetryRecord::GsxBypassPinAlt { value } => match spec_gsx_outcome(pre.flight, value) {
            GsxOutcome::NoChange => Seq::empty(),
            GsxOutcome::Inserted => seq![
                UiEvent::Audio {
                    audio: AudioEvent::SafetyVideo { volume_units: pre.flight.volume_level },
                },
                UiEvent::Data { snapshot: spec_payload(post.flight) },
            ],
            GsxOutcome::Removed => seq![UiEvent::Data { snapshot: spec_payload(post.flight) }],
        },
    }
}

/// The sequences one classified record launches.
pub open spec fn spec_record_spawns(
    pre: EngineState,
    rec: TelemetryRecord,
    now_ms: u64,
) -> Seq<SpawnedTask> {
    match rec {
        TelemetryRecord::JetwayExitOpen { percent } => match spec_jetway_outcome(
            pre.flight, percent, now_ms,
        ) {
            JetwayOutcome::Attached => seq![SpawnedTask::BoardingCycle],
            JetwayOutcome::Detached => seq![SpawnedTask::DoorsAutoDelay],
            _ => Seq::empty(),
        },
        _ => Seq::empty(),
    }
}

/// The fixed-point scalars a record may carry stay representable.
pub open spec fn record_in_bounds(rec: TelemetryRecord) -> bool {
    match rec {
        TelemetryRecord::Altitude { alt } => in_pos_bound(alt),
        TelemetryRecord::CameraX { value } => in_pos_bound(value),
        TelemetryRecord::CameraY { value } => in_pos_bound(value),
        TelemetryRecord::CameraZ { value } => in_pos_bound(value),
        _ => true,
    }
}

/// The engine state after one message.
pub open spec fn spec_message_state(pre: EngineState, msg: Message, now_ms: u64) -> EngineState {
    match msg {
        Message::Record { tag, payload } => match spec_classify(tag, payload) {
            Some(rec) => spec_record_state(pre, rec, now_ms),
            None => pre,
        },
        Message::ToggleJetway => EngineState {
            flight: spec_toggle_jetway(pre.flight, now_ms),
            ..pre
        },
        Message::Opened => EngineState { consecutive_errors: 0, ..pre },
        Message::Exception | Message::ReadError => if elapsed_at_least(
            pre.last_error_time, now_ms, ERROR_LOG_MIN_MS,
        ) {
            EngineState {
                consecutive_errors: if pre.consecutive_errors < u32::MAX {
                    (pre.consecutive_errors + 1) as u32
                } else {
                    pre.consecutive_errors
                },
                last_error_time: now_ms,
                ..pre
            }
        } else {
            pre
        },
        _ => pre,
    }
}

/// The events one message emits, in order.
pub open spec fn spec_message_events(pre: EngineState, msg: Message, now_ms: u64) -> Seq<UiEvent> {
    match msg {
        Message::Record { tag, payload } => match spec_classify(tag, payload) {
            Some(rec) => spec_record_events(pre, rec, now_ms),
            None => Seq::empty(),
        },
        Message::ToggleJetway => if elapsed_at_least(
            pre.flight.last_toggle_time, now_ms, TOGGLE_DEBOUNCE_MS,
        ) {
            seq![UiEvent::Data { snapshot: spec_payload(spec_toggle_jetway(pre.flight, now_ms)) }]
        } else {
            Seq::empty()
        },
        Message::Opened => seq![UiEvent::Open],
        Message::Quit => seq![UiEvent::Quit],
        _ => Seq::empty(),
    }
}

/// The sequences one message launches.
pub open spec fn spec_message_spawns(pre: EngineState, msg: Message, now_ms: u64) -> Seq<SpawnedTask> {
    match msg {
        Message::Record { tag, payload } => match spec_classify(tag, payload) {
            Some(rec) => spec_record_spawns(pre, rec, now_ms),
            None => Seq::empty(),
        },
        _ => Seq::empty(),
    }
}

/// Only a quit ends the loop.
pub open spec fn spec_message_keeps_running(msg: Message) -> bool {
    !(msg matches Message::Quit)
}

impl EngineState {
    /// The flight record stays well formed.
    pub open spec fn wf(self) -> bool {
        self.flight.wf()
    }

    /// A fresh engine at clock time `now_ms`: a fresh flight record, no
    /// light signal observed yet, no errors counted.
    pub fn new(now_ms: u64) -> (s: Self)
        ensures
            s == Self::spec_new(now_ms),
            s.wf(),
    {
        EngineState {
            flight: FlightDataState::new(now_ms),
            prev_beacon: -1,
            prev_seatbelt: -1,
            prev_landing_lights: -1,
            consecutive_errors: 0,
            last_error_time: now_ms,
        }
    }

    /// The value `new` returns.
    pub open spec fn spec_new(now_ms: u64) -> Self {
        EngineState {
            flight: FlightDataState::spec_new(now_ms),
            prev_beacon: -1i32,
            prev_seatbelt: -1i32,
            prev_landing_lights: -1i32,
            consecutive_errors: 0,
            last_error_time: now_ms,
        }
    }

    /// Dispatches one classified record: applies its transition and
    /// yields the events and sequence launches it owes.
    #[verifier::rlimit(100)]
    pub fn handle_record(&mut self, rec: TelemetryRecord, now_ms: u64) -> (out: DispatchOutput)
        requires
            old(self).wf(),
            record_in_bounds(rec),
        ensures
            final(self).wf(),
            *final(self) == spec_record_state(*old(self), rec, now_ms),
            out.events@ == spec_record_events(*old(self), rec, now_ms),
            out.spawns@ == spec_record_spawns(*old(self), rec, now_ms),
            out.keep_running,
    {
        match rec {
            TelemetryRecord::Altitude { alt } => {
                let announce = self.flight.update_altitude(alt);
                let snap = UiEvent::Data { snapshot: self.flight.get_payload() };
                if announce {
                    output2(UiEvent::Audio { audio: AudioEvent::TenKFeet }, snap)
                } else {
                    output1(snap)
                }
            },
            TelemetryRecord::BeaconLight { state } => {
                if state != self.prev_beacon {
                    self.prev_beacon = state;
                    output1(UiEvent::BeaconLightChanged { on: state == 1 })
                } else {
                    output0()
                }
            },
            TelemetryRecord::SeatbeltSwitch { state } => {
                if state != self.prev_seatbelt {
                    self.prev_seatbelt = state;
                    output1(UiEvent::SeatbeltSwitchChanged { on: state == 1 })
                } else {
                    output0()
                }
            },
            TelemetryRecord::JetwayExitOpen { percent } => {
                let outcome = self.flight.update_jetway_telemetry(percent, now_ms);
                match outcome {
                    JetwayOutcome::Debounced => output0(),
                    JetwayOutcome::NoChange => output1(
                        UiEvent::Data { snapshot: self.flight.get_payload() },
                    ),
                    JetwayOutcome::Attached => {
                        let mut out = output2(
                            UiEvent::Audio { audio: AudioEvent::BoardingMusic { volume: 100 } },
                            UiEvent::Data { snapshot: self.flight.get_payload() },
                        );
                        out.spawns.push(SpawnedTask::BoardingCycle);
                        proof {
                            assert(out.spawns@ =~= seq![SpawnedTask::BoardingCycle]);
                        }
                        out
                    },
                    JetwayOutcome::Detached => {
                        let mut out = output2(
                            UiEvent::Audio { audio: AudioEvent::BoardingMusic { volume: 0 } },
                            UiEvent::Data { snapshot: self.flight.get_payload() },
                        );
                        out.spawns.push(SpawnedTask::DoorsAutoDelay);
                        proof {
                            assert(out.spawns@ =~= seq![SpawnedTask::DoorsAutoDelay]);
                        }
                        out
                    },
                }
            },
            TelemetryRecord::LandingLights { state } => {
                if state != self.prev_landing_lights {
                    self.prev_landing_lights = state;
                    output1(UiEvent::LandingLightsChanged { on: state == 1 })
                } else {
                    output0()
                }
            },
            TelemetryRecord::CameraState { code } => {
                match self.flight.update_camera_state(code) {
                    Some(update) => output1(UiEvent::CameraPositionChanged { update }),
                    None => output0(),
                }
            },
            TelemetryRecord::CameraSubstate { code: _ } => {
                let _ = self.flight.note_camera_substate(now_ms);
                output0()
            },
            TelemetryRecord::CameraX { value } => {
                match self.flight.update_camera_axis(Axis::X, value) {
                    Some(update) => output1(UiEvent::CameraPositionChanged { update }),
                    None => output0(),
                }
            },
            TelemetryRecord::CameraY { value } => {
                match self.flight.update_camera_axis(Axis::Y, value) {
                    Some(update) => output1(UiEvent::CameraPositionChanged { update }),
                    None => output0(),
                }
            },
            TelemetryRecord::CameraZ { value } => {
                match self.flight.update_camera_axis(Axis::Z, value) {
                    Some(update) => output1(UiEvent::CameraPositionChanged { update }),
                    None => output0(),
                }
            },
            TelemetryRecord::Frame => output0(),
            TelemetryRecord::GsxBypassPin { value } => {
                let volume_units = self.flight.volume_level;
                match self.flight.update_gsx_pin(value) {
                    GsxOutcome::NoChange => output0(),
                    GsxOutcome::Inserted => output2(
                        UiEvent::Audio { audio: AudioEvent::SafetyVideo { volume_units } },
                        UiEvent::Data { snapshot: self.flight.get_payload() },
                    ),
                    GsxOutcome::Removed => output1(
                        UiEvent::Data { snapshot: self.flight.get_payload() },
                    ),
                }
            },
            TelemetryRecord::GsxBypassPinAlt { value } => {
                let volume_units = self.flight.volume_level;
                match self.flight.update_gsx_pin(value) {
                    GsxOutcome::NoChange => output0(),
                    GsxOutcome::Inserted => output2(
                        UiEvent::Audio { audio: AudioEvent::SafetyVideo { volume_units } },
                        UiEvent::Data { snapshot: self.flight.get_payload() },
                    ),
                    GsxOutcome::Removed => output1(
                        UiEvent::Data { snapshot: self.flight.get_payload() },
                    ),
                }
            },
        }
    }

    /// Dispatches one message from the telemetry source: classifies a
    /// data record, applies the matching transition, and yields the
    /// events, sequence launches, and whether the loop goes on.
    pub fn handle_message(&mut self, msg: Message, now_ms: u64) -> (out: DispatchOutput)
        requires
            old(self).wf(),
            msg matches Message::Record { tag, payload } ==> (
                spec_classify(tag, payload) matches Some(rec) ==> record_in_bounds(rec)
            ),
        ensures
            final(self).wf(),
            *final(self) == spec_message_state(*old(self), msg, now_ms),
            out.events@ == spec_message_events(*old(self), msg, now_ms),
            out.spawns@ == spec_message_spawns(*old(self), msg, now_ms),
            out.keep_running == spec_message_keeps_running(msg),
    {
        match msg {
            Message::Record { tag, payload } => {
                match classify_record(tag, payload) {
                    Some(rec) => self.handle_record(rec, now_ms),
                    None => output0(),
                }
            },
            Message::ToggleJetway => {
                let applied = self.flight.toggle_jetway(now_ms);
                if applied {
                    output1(UiEvent::Data { snapshot: self.flight.get_payload() })
                } else {
                    output0()
                }
            },
            Message::OtherEvent => output0(),
            Message::Opened => {
                self.consecutive_errors = 0;
                output1(UiEvent::Open)
            },
            Message::Quit => {
                let mut out = output1(UiEvent::Quit);
                out.keep_running = false;
                out
            },
            Message::Exception | Message::ReadError => {
                if now_ms >= self.last_error_time
                    && now_ms - self.last_error_time >= ERROR_LOG_MIN_MS
                {
                    if self.consecutive_errors < u32::MAX {
                        self.consecutive_errors = self.consecutive_errors + 1;
                    }
                    self.last_error_time = now_ms;
                }
                output0()
            },
            Message::NoData => output0(),
            Message::Other => output0(),
        }
    }
}

/// An output with nothing to do: the loop just goes on.
fn output0() -> (out: DispatchOutput)
    ensures
        out.events@ == Seq::<UiEvent>::empty(),
        out.spawns@ == Seq::<SpawnedTask>::empty(),
        out.keep_running,
{
    DispatchOutput { events: Vec::new(), spawns: Vec::new(), keep_running: true }
}

/// An output that emits one event.
fn output1(e: UiEvent) -> (out: DispatchOutput)
    ensures
        out.events@ == seq![e],
        out.spawns@ == Seq::<SpawnedTask>::empty(),
        out.keep_running,
{
    let mut events: Vec<UiEvent> = Vec::new();
    events.push(e);
    proof {
        assert(events@ =~= seq![e]);
    }
    DispatchOutput { events, spawns: Vec::new(), keep_running: true }
}

/// An output that emits two events in order.
fn output2(e1: UiEvent, e2: UiEvent) -> (out: DispatchOutput)
    ensures
        out.events@ == seq![e1, e2],
        out.spawns@ == Seq::<SpawnedTask>::empty(),
        out.keep_running,
{
    let mut events: Vec<UiEvent> = Vec::new();
    events.push(e1);
    events.push(e2);
    proof {
        assert(events@ =~= seq![e1, e2]);
    }
    DispatchOutput { events, spawns: Vec::new(), keep_running: true }
}

} // verus!
