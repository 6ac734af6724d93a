//! What holds of the bridge over any run of operations.

use vstd::prelude::*;
use crate::answers::{deco_result_for, planned_view, DecoResultView};
use crate::boundary::{boundary_of, nul_free};
use crate::bridge::{
    keeps_sources, obstacle, state_on, step_for, BridgeView, RecordOutcome, Segment,
};
use crate::engine::{cns_of, otu_of};
use crate::config::{ceiling_type_json, stop_formatting_json, CeilingType, DecoStopFormatting};
use crate::json::{decimal, digit_char, digits, json_bool};
use crate::registry::{source_gas, source_gases, BreathingSource};

verus! {

/// Adding a batch of sources puts them behind the sources that are there,
/// in the order of the batch, and leaves the session alone.
pub proof fn law_batch_is_appended(bridge: BridgeView, batch: Seq<BreathingSource>)
    ensures
        bridge.with_sources(batch).sources == bridge.sources + batch,
        bridge.with_sources(batch).session == bridge.session,
    decreases batch.len(),
{
    if batch.len() == 0 {
        assert(bridge.sources + batch =~= bridge.sources);
    } else {
        law_batch_is_appended(bridge, batch.drop_last());
        assert(bridge.sources + batch =~= (bridge.sources + batch.drop_last()).push(
            batch.last(),
        ));
    }
}

/// Indices are given out in the order of insertion, one by one: the source
/// that is added as number `k` of a batch gets the index of the first one
/// plus `k`, and is found there afterwards. On a bridge without sources the
/// first index is zero.
pub proof fn law_indices_follow_insertion(
    bridge: BridgeView,
    batch: Seq<BreathingSource>,
    k: int,
)
    requires
        0 <= k < batch.len(),
    ensures
        bridge.with_sources(batch.take(k)).next_index() == bridge.next_index() + k,
        bridge.with_sources(batch).source(bridge.next_index() + k) == Some(batch[k]),
        bridge.sources.len() == 0 ==> bridge.with_sources(batch).source(k) == Some(batch[k]),
{
    law_batch_is_appended(bridge, batch);
    law_batch_is_appended(bridge, batch.take(k));
}

/// An index stays with its source: whatever is added later, the source is
/// found where it was.
pub proof fn law_index_is_stable(bridge: BridgeView, later: Seq<BreathingSource>, index: int)
    requires
        bridge.source(index) is Some,
    ensures
        bridge.with_sources(later).source(index) == bridge.source(index),
{
    law_batch_is_appended(bridge, later);
}

/// Two sources that are added one after the other get two indices in a row,
/// and each is found at its own.
pub proof fn law_two_sources_two_indices(
    bridge: BridgeView,
    first: BreathingSource,
    second: BreathingSource,
)
    ensures
        bridge.with_source(first).next_index() == bridge.next_index() + 1,
        bridge.with_source(first).with_source(second).source(bridge.next_index()) == Some(first),
        bridge.with_source(first).with_source(second).source(bridge.next_index() + 1) == Some(
            second,
        ),
{
}

/// A request to record on an index below zero or beyond the last source is
/// refused as `UnknownSource`, whatever else holds.
pub proof fn law_unknown_source_is_refused(
    bridge: BridgeView,
    depth: dive_deco::Depth,
    segment: Segment,
    index: int,
)
    requires
        index < 0 || index >= bridge.sources.len(),
    ensures
        obstacle(bridge, depth, index) == Some(RecordOutcome::UnknownSource),
        step_for(bridge, depth, index, segment) == Err::<crate::bridge::Step, RecordOutcome>(
            RecordOutcome::UnknownSource,
        ),
{
}

/// What stands against a request to record does not depend on the sources
/// that are added later, as long as the index is taken.
pub proof fn law_obstacle_is_stable(
    bridge: BridgeView,
    later: Seq<BreathingSource>,
    depth: dive_deco::Depth,
    index: int,
)
    requires
        bridge.source(index) is Some,
    ensures
        obstacle(bridge.with_sources(later), depth, index) == obstacle(bridge, depth, index),
{
    law_batch_is_appended(bridge, later);
}

/// Over a run of states of which each keeps the sources of the one before,
/// as every operation of the bridge does, an index that denotes a source at
/// the start denotes the same source at every later state.
pub proof fn law_index_outlives_any_run(run: Seq<BridgeView>, index: int, at: int)
    requires
        forall|i: int| 0 <= i < run.len() - 1 ==> keeps_sources(#[trigger] run[i], run[i + 1]),
        0 <= at < run.len(),
        run[0].source(index) is Some,
    ensures
        run[at].source(index) == run[0].source(index),
    decreases at,
{
    if at > 0 {
        law_index_outlives_any_run(run, index, at - 1);
        assert(keeps_sources(run[at - 1], run[at]));
    }
}

/// Adding a source keeps the sources that are there.
pub proof fn law_adding_keeps_sources(bridge: BridgeView, source: BreathingSource)
    ensures
        keeps_sources(bridge, bridge.with_source(source)),
{
}

/// Every source gives one gas to plan on, at its own index: an open
/// circuit its gas, a closed circuit its diluent. A source that is added
/// gives its gas behind the others.
pub proof fn law_deco_gases_follow_sources(bridge: BridgeView, source: BreathingSource, k: int)
    ensures
        bridge.deco_gases().len() == bridge.sources.len(),
        0 <= k < bridge.sources.len() ==> bridge.deco_gases()[k] == source_gas(bridge.sources[k]),
        bridge.with_source(source).deco_gases() == bridge.deco_gases().push(source_gas(source)),
{
    assert(source_gases(bridge.sources.push(source)) =~= source_gases(bridge.sources).push(
        source_gas(source),
    ));
}

/// Whatever the engine says of the decompression, the result is consistent:
/// it holds a schedule or a message, never both, and `success` tells which.
pub proof fn law_deco_result_is_consistent(outcome: Result<serde_json::Value, Seq<char>>)
    ensures
        deco_result_for(outcome).consistent(),
        deco_result_for(outcome).success == outcome is Ok,
        deco_result_for(outcome).success == deco_result_for(outcome).decotable is Some,
        deco_result_for(outcome).success == deco_result_for(outcome).error is None,
{
}

/// The complete state holds the answers that are given one by one: the
/// oxygen load and the oxygen units of the model, and the result of
/// planning that is made of the same answer of the planner.
pub proof fn law_state_holds_the_single_answers(
    bridge: BridgeView,
    ceiling: dive_deco::Depth,
    limit: dive_deco::Time,
    planned: Result<dive_deco::DecoRuntime, dive_deco::DecoCalculationError>,
)
    ensures
        state_on(bridge, ceiling, limit, planned).cns == Some(cns_of(bridge.model()).percent),
        state_on(bridge, ceiling, limit, planned).otu == Some(otu_of(bridge.model()).units),
        state_on(bridge, ceiling, limit, planned).deco_result == Some(
            deco_result_for(planned_view(planned)),
        ),
        state_on(bridge, ceiling, limit, planned).complete(),
{
}

/// A consistent result is the result of something the engine can say.
pub proof fn law_consistent_result_has_an_outcome(result: DecoResultView)
    requires
        result.consistent(),
    ensures
        exists|outcome: Result<serde_json::Value, Seq<char>>|
            #[trigger] deco_result_for(outcome) == result,
{
    if result.success {
        assert(deco_result_for(Ok(result.decotable->0)) == result);
    } else {
        assert(deco_result_for(Err(result.error->0)) == result);
    }
}

/// A text that is handed out is the encoding itself, and free of zero
/// bytes.
pub proof fn law_boundary_keeps_the_text(encoded: Option<Seq<char>>)
    ensures
        boundary_of(encoded) is Some ==> boundary_of(encoded) == encoded && nul_free(encoded->0),
        boundary_of(encoded) is None <==> encoded is None || !nul_free(encoded->0),
{
}

/// The digits of a number are digits: none of them is a minus sign.
proof fn lemma_digits_are_digits(n: nat, i: int)
    requires
        0 <= i < digits(n).len(),
    ensures
        exists|digit: int| 0 <= digit <= 9 && digits(n)[i] == #[trigger] digit_char(digit),
        digits(n)[i] != '-',
    decreases n,
{
    if n >= 10 && i < digits(n / 10).len() {
        lemma_digits_are_digits(n / 10, i);
    }
}

/// A number below ten has one digit, any other number more than one.
proof fn lemma_digit_count(n: nat)
    ensures
        digits(n).len() >= 1,
        n < 10 <==> digits(n).len() == 1,
    decreases n,
{
    if n >= 10 {
        lemma_digit_count(n / 10);
    }
}

/// Two natural numbers with the same digits are the same number.
proof fn lemma_digits_are_injective(a: nat, b: nat)
    requires
        digits(a) == digits(b),
    ensures
        a == b,
    decreases a,
{
    lemma_digit_count(a);
    lemma_digit_count(b);
    if a < 10 {
        assert(digits(a)[0] == digit_char(a as int));
        assert(digits(b)[0] == digit_char(b as int));
    } else {
        assert(digits(a).last() == digit_char((a % 10) as int));
        assert(digits(b).last() == digit_char((b % 10) as int));
        assert(digits(a).drop_last() =~= digits(a / 10));
        assert(digits(b).drop_last() =~= digits(b / 10));
        lemma_digits_are_injective(a / 10, b / 10);
    }
}

/// The text of a whole number tells the number: two numbers that are
/// written alike are the same.
pub proof fn law_decimal_is_injective(a: int, b: int)
    requires
        decimal(a) == decimal(b),
    ensures
        a == b,
{
    if a < 0 {
        if b < 0 {
            assert(decimal(a).subrange(1, decimal(a).len() as int) =~= digits((-a) as nat));
            assert(decimal(b).subrange(1, decimal(b).len() as int) =~= digits((-b) as nat));
            lemma_digits_are_injective((-a) as nat, (-b) as nat);
        } else {
            lemma_digit_count(b as nat);
            lemma_digits_are_digits(b as nat, 0);
        }
    } else if b < 0 {
        lemma_digit_count(a as nat);
        lemma_digits_are_digits(a as nat, 0);
    } else {
        lemma_digits_are_injective(a as nat, b as nat);
    }
}

/// The text of a flag tells the flag, and the name of a selector's variant
/// tells the variant.
pub proof fn law_names_are_injective(
    flag: bool,
    other_flag: bool,
    ceiling: CeilingType,
    other_ceiling: CeilingType,
    stops: DecoStopFormatting,
    other_stops: DecoStopFormatting,
)
    ensures
        json_bool(flag) == json_bool(other_flag) ==> flag == other_flag,
        ceiling_type_json(ceiling) == ceiling_type_json(other_ceiling) ==> ceiling
            == other_ceiling,
        stop_formatting_json(stops) == stop_formatting_json(other_stops) ==> stops == other_stops,
{
    reveal_strlit("true");
    reveal_strlit("false");
    reveal_strlit("\"Actual\"");
    reveal_strlit("\"Adaptive\"");
    reveal_strlit("\"Metric\"");
    reveal_strlit("\"Imperial\"");
    reveal_strlit("\"Continuous\"");
    assert("true"@.len() != "false"@.len());
    assert("\"Actual\""@.len() != "\"Adaptive\""@.len());
    assert("\"Metric\""@.len() != "\"Imperial\""@.len());
    assert("\"Metric\""@.len() != "\"Continuous\""@.len());
    assert("\"Imperial\""@.len() != "\"Continuous\""@.len());
}

} // verus!
