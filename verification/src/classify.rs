use vstd::prelude::*;

verus! {

/// A decoded telemetry payload as the host delivers it: either a
/// float64 scalar, held in fixed-point units, or an int32 scalar.
#[derive(Clone, Copy, Debug, PartialEq, Eq, Structural)]
pub enum RawScalar {
    Fixed { value: i64 },
    Int32 { value: i32 },
}

/// A classified telemetry record: the closed set of definition tags
/// the engine consumes, each with its typed scalar.
#[derive(Clone, Copy, Debug, PartialEq, Eq, Structural)]
pub enum TelemetryRecord {
    Altitude { alt: i64 },
    BeaconLight { state: i32 },
    SeatbeltSwitch { state: i32 },
    JetwayExitOpen { percent: i64 },
    LandingLights { state: i32 },
    CameraState { code: i32 },
    CameraSubstate { code: i32 },
    CameraX { value: i64 },
    CameraY { value: i64 },
    CameraZ { value: i64 },
    Frame,
    GsxBypassPin { value: i32 },
    GsxBypassPinAlt { value: i32 },
}

/// The tag-to-record mapping: each known tag decodes under one rule;
/// an unknown tag, or a payload of the wrong shape for its tag, is no
/// record at all.
pub open spec fn spec_classify(tag: u32, payload: RawScalar) -> Option<TelemetryRecord> {
    match (tag, payload) {
        (0u32, RawScalar::Fixed { value }) => Some(TelemetryRecord::Altitude { alt: value }),
        (1u32, RawScalar::Int32 { value }) => Some(TelemetryRecord::BeaconLight { state: value }),
        (2u32, RawScalar::Int32 { value }) => Some(
            TelemetryRecord::SeatbeltSwitch { state: value },
        ),
        (3u32, RawScalar::Fixed { value }) => Some(
            TelemetryRecord::JetwayExitOpen { percent: value },
        ),
        (4u32, RawScalar::Int32 { value }) => Some(TelemetryRecord::LandingLights { state: value }),
        (5u32, RawScalar::Int32 { value }) => Some(TelemetryRecord::CameraState { code: value }),
        (6u32, RawScalar::Int32 { value }) => Some(TelemetryRecord::CameraSubstate { code: value }),
        (7u32, RawScalar::Fixed { value }) => Some(TelemetryRecord::CameraX { value }),
        (8u32, RawScalar::Fixed { value }) => Some(TelemetryRecord::CameraY { value }),
        (9u32, RawScalar::Fixed { value }) => Some(TelemetryRecord::CameraZ { value }),
        (10u32, _) => Some(TelemetryRecord::Frame),
        (11u32, RawScalar::Int32 { value }) => Some(TelemetryRecord::GsxBypassPin { value }),
        (12u32, RawScalar::Int32 { value }) => Some(TelemetryRecord::GsxBypassPinAlt { value }),
        _ => None,
    }
}

/// Maps a definition tag and decoded payload to a typed record.
/// Unknown tags and malformed payloads classify to nothing, so they
/// read as "no update" rather than an error.
pub fn classify_record(tag: u32, payload: RawScalar) -> (r: Option<TelemetryRecord>)
    ensures
        r == spec_classify(tag, payload),
{
    match (tag, payload) {
        (0u32, RawScalar::Fixed { value }) => Some(TelemetryRecord::Altitude { alt: value }),
        (1u32, RawScalar::Int32 { value }) => Some(TelemetryRecord::BeaconLight { state: value }),
        (2u32, RawScalar::Int32 { value }) => Some(
            TelemetryRecord::SeatbeltSwitch { state: value },
        ),
        (3u32, RawScalar::Fixed { value }) => Some(
            TelemetryRecord::JetwayExitOpen { percent: value },
        ),
        (4u32, RawScalar::Int32 { value }) => Some(TelemetryRecord::LandingLights { state: value }),
        (5u32, RawScalar::Int32 { value }) => Some(TelemetryRecord::CameraState { code: value }),
        (6u32, RawScalar::Int32 { value }) => Some(TelemetryRecord::CameraSubstate { code: value }),
        (7u32, RawScalar::Fixed { value }) => Some(TelemetryRecord::CameraX { value }),
        (8u32, RawScalar::Fixed { value }) => Some(TelemetryRecord::CameraY { value }),
        (9u32, RawScalar::Fixed { value }) => Some(TelemetryRecord::CameraZ { value }),
        (10u32, _) => Some(TelemetryRecord::Frame),
        (11u32, RawScalar::Int32 { value }) => Some(TelemetryRecord::GsxBypassPin { value }),
        (12u32, RawScalar::Int32 { value }) => Some(TelemetryRecord::GsxBypassPinAlt { value }),
        _ => None,
    }
}

} // verus!
