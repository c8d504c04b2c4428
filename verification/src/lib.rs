//! A flight-simulation cabin engine: classifies tagged telemetry
//! records, applies debounce and hysteresis rules to a single mutable
//! cabin/flight record, and decides which named UI events to emit and
//! which timed announcement sequences to run. Every decision is a
//! verified function from plain values to plain values; the telemetry
//! host, the event sink, clocks and threads live with the caller.

pub mod classify;
pub mod engine;
pub mod events;
pub mod laws;
pub mod lifecycle;
pub mod sequence;
pub mod state;
pub mod transitions;
