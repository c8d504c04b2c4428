use vstd::prelude::*;
use crate::engine::{EngineState, Message, spec_message_state};
use crate::state::{
    FlightDataState, elapsed_at_least, ALT_EIGHTEEN_K, ALT_TEN_K, JETWAY_UPDATE_MIN_MS,
    POS_EPSILON, TOGGLE_DEBOUNCE_MS,
};
use crate::transitions::{
    JetwayOutcome, spec_altitude_announce, spec_jetway_outcome, spec_significant_change,
    spec_toggle_jetway, spec_update_altitude, spec_update_jetway_telemetry,
};

verus! {

/// The state after a whole sequence of altitude records, applied in
/// order.
pub open spec fn apply_altitudes(s: FlightDataState, alts: Seq<i64>) -> FlightDataState
    decreases alts.len(),
{
    if alts.len() == 0 {
        s
    } else {
        apply_altitudes(spec_update_altitude(s, alts.first()), alts.drop_first())
    }
}

/// How many 10k-feet announcements a sequence of altitude records
/// fires, applied in order.
pub open spec fn count_ten_k_announcements(s: FlightDataState, alts: Seq<i64>) -> nat
    decreases alts.len(),
{
    if alts.len() == 0 {
        0nat
    } else {
        (if spec_altitude_announce(s, alts.first()) { 1nat } else { 0nat })
            + count_ten_k_announcements(spec_update_altitude(s, alts.first()), alts.drop_first())
    }
}

/// While the stored altitude already stands at or above 10,000 feet and
/// every further record stays there, no 10k-feet announcement fires.
pub proof fn lemma_no_announce_while_high(s: FlightDataState, alts: Seq<i64>)
    requires
        s.last_alt >= ALT_TEN_K,
        forall|i: int| 0 <= i < alts.len() ==> alts[i] >= ALT_TEN_K,
    ensures
        count_ten_k_announcements(s, alts) == 0,
    decreases alts.len(),
{
    if alts.len() > 0 {
        assert(alts[0] >= ALT_TEN_K);
        let s1 = spec_update_altitude(s, alts.first());
        assert(forall|i: int|
            0 <= i < alts.drop_first().len() ==> alts.drop_first()[i] == alts[i + 1]);
        lemma_no_announce_while_high(s1, alts.drop_first());
    }
}

/// The 10k-feet announcement fires at most once per ascent: over any
/// run of altitude records that all stand at or above 10,000 feet, at
/// most one announcement fires, whatever came before.
pub proof fn lemma_ten_k_at_most_once(s: FlightDataState, alts: Seq<i64>)
    requires
        forall|i: int| 0 <= i < alts.len() ==> alts[i] >= ALT_TEN_K,
    ensures
        count_ten_k_announcements(s, alts) <= 1,
{
    if alts.len() > 0 {
        assert(alts[0] >= ALT_TEN_K);
        let s1 = spec_update_altitude(s, alts.first());
        assert(s1.last_alt >= ALT_TEN_K);
        assert(forall|i: int|
            0 <= i < alts.drop_first().len() ==> alts.drop_first()[i] == alts[i + 1]);
        lemma_no_announce_while_high(s1, alts.drop_first());
    }
}

/// The 10k-feet flag clears exactly when altitude next drops below
/// 10,000 feet; at or above, it holds exactly when it already held or
/// the announcement fires now.
pub proof fn lemma_ten_k_clear(s: FlightDataState, alt: i64)
    ensures
        alt < ALT_TEN_K ==> !spec_update_altitude(s, alt).ten_k_announced,
        alt >= ALT_TEN_K ==> spec_update_altitude(s, alt).ten_k_announced
            == (s.ten_k_announced || spec_altitude_announce(s, alt)),
{
}

/// The arrive-soon flag becomes true the first time altitude reads
/// below 18,000 feet: after one record it holds exactly when it
/// already held or the record was below the threshold.
pub proof fn lemma_arrive_soon_sets(s: FlightDataState, alt: i64)
    ensures
        spec_update_altitude(s, alt).arrive_soon_announced
            == (s.arrive_soon_announced || alt < ALT_EIGHTEEN_K),
{
}

/// The arrive-soon flag never resets: once it holds, it holds after
/// any further sequence of altitude records.
pub proof fn lemma_arrive_soon_never_resets(s: FlightDataState, alts: Seq<i64>)
    requires
        s.arrive_soon_announced,
    ensures
        apply_altitudes(s, alts).arrive_soon_announced,
    decreases alts.len(),
{
    if alts.len() > 0 {
        lemma_arrive_soon_never_resets(spec_update_altitude(s, alts.first()), alts.drop_first());
    }
}

/// Manual jetway toggles issued less than the debounce interval apart:
/// after an applied toggle, a second request within the interval
/// leaves the state unchanged.
pub proof fn lemma_toggle_debounce(s: FlightDataState, t1: u64, t2: u64)
    requires
        elapsed_at_least(s.last_toggle_time, t1, TOGGLE_DEBOUNCE_MS),
        t1 <= t2,
        t2 - t1 < TOGGLE_DEBOUNCE_MS,
    ensures
        spec_toggle_jetway(spec_toggle_jetway(s, t1), t2) == spec_toggle_jetway(s, t1),
{
}

/// Telemetry-driven jetway updates arriving less than the throttle
/// interval apart: after an accepted update, a second reading within
/// the interval is debounced and leaves the state unchanged.
pub proof fn lemma_jetway_update_throttle(
    s: FlightDataState,
    e1: i64,
    t1: u64,
    e2: i64,
    t2: u64,
)
    requires
        elapsed_at_least(s.last_jetway_update, t1, JETWAY_UPDATE_MIN_MS),
        t1 <= t2,
        t2 - t1 < JETWAY_UPDATE_MIN_MS,
    ensures
        spec_jetway_outcome(spec_update_jetway_telemetry(s, e1, t1), e2, t2)
            == JetwayOutcome::Debounced,
        spec_update_jetway_telemetry(spec_update_jetway_telemetry(s, e1, t1), e2, t2)
            == spec_update_jetway_telemetry(s, e1, t1),
{
}

/// The arrive-soon flag never resets while the engine runs: once it
/// holds, it holds after any message whatever, from any source. Only a
/// fresh engine (a reconnection) starts with it cleared.
pub proof fn lemma_arrive_soon_survives_every_message(pre: EngineState, msg: Message, now_ms: u64)
    requires
        pre.flight.arrive_soon_announced,
    ensures
        spec_message_state(pre, msg, now_ms).flight.arrive_soon_announced,
{
}

/// A position delta of exactly the noise threshold is not significant;
/// one unit more is.
pub proof fn lemma_position_threshold(last: i64, v: i64)
    ensures
        v - last == POS_EPSILON ==> !spec_significant_change(last, v),
        v - last == POS_EPSILON + 1 ==> spec_significant_change(last, v),
{
}

} // verus!
