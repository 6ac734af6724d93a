//! The decompression engine, as far as the bridge calls it.
//!
//! The engine computes in floating point, which the proofs of this crate do
//! not look into. Its values pass through the bridge unopened: a `Depth`, a
//! `Time`, a `Gas`, a `Supersaturation`, a schedule, a failure and a model
//! are made and read by the engine alone. A bare number that the engine
//! answers leaves this module as a JSON value. Every item here is believed,
//! not proved.
//!
//! The bridge calls the engine where the engine reads something out of a
//! model, copies it, compares, or makes something by the four basic
//! operations: such a call ends, and what it gives has a name here. The
//! bridge does not call the engine where it simulates a dive: to record a
//! segment, and to find the limit, the ceiling or a schedule. The engine's
//! source shows no end to those loops, and their powers and exponentials
//! come from the platform. The caller of the bridge makes these calls, on
//! what the bridge hands it, and hands the bridge what came of them.

use vstd::prelude::*;
use crate::answers::{Cns, Otu};
use crate::config::CeilingType;

verus! {

/// The engine's depth, a length in metres.
#[verifier::external_type_specification]
#[verifier::external_body]
pub struct ExDepth(dive_deco::Depth);

/// The engine's time span.
#[verifier::external_type_specification]
#[verifier::external_body]
pub struct ExTime(dive_deco::Time);

/// The engine's gas mix: oxygen and helium fractions, the rest nitrogen.
#[verifier::external_type_specification]
#[verifier::external_body]
pub struct ExGas(dive_deco::Gas);

/// The engine's pair of gradient factors: the supersaturation of the
/// tissues at the depth of the diver and at the surface, in percent.
#[verifier::external_type_specification]
#[verifier::external_body]
pub struct ExSupersaturation(dive_deco::Supersaturation);

/// The engine's decompression schedule: the stages of the ascent and the
/// time to the surface.
#[verifier::external_type_specification]
#[verifier::external_body]
pub struct ExDecoRuntime(dive_deco::DecoRuntime);

/// The engine's reason for having no schedule.
#[verifier::external_type_specification]
#[verifier::external_body]
pub struct ExDecoCalculationError(dive_deco::DecoCalculationError);

/// The engine's model: its configuration and the tissue loading so far.
#[verifier::external_type_specification]
#[verifier::external_body]
pub struct ExBuhlmannModel(dive_deco::BuhlmannModel);

/// Whether the engine takes an ascent rate, given as the depth travelled in
/// a minute: `BuhlmannModel::update_config` takes a configuration that is
/// the default but for this rate. The engine takes 1 to 30 metres a minute.
pub uninterp spec fn rate_taken(ascent_per_minute: dive_deco::Depth) -> bool;

/// The model that `BuhlmannModel::new` makes of a configuration.
pub uninterp spec fn new_model(
    gf_low: u8,
    gf_high: u8,
    surface_pressure: i32,
    ascent_per_minute: dive_deco::Depth,
    ceiling_type: CeilingType,
    round_ceiling: bool,
    recalc_all_tissues_m_values: bool,
) -> dive_deco::BuhlmannModel;

/// The oxygen load of the central nervous system in a model, as
/// `DecoModel::cns` reads it out and `Value::from` makes a JSON value of it.
pub uninterp spec fn cns_of(model: dive_deco::BuhlmannModel) -> Cns;

/// The oxygen toxicity units in a model, as `DecoModel::otu` reads them out
/// and `Value::from` makes a JSON value of them.
pub uninterp spec fn otu_of(model: dive_deco::BuhlmannModel) -> Otu;

/// What `BuhlmannModel::supersaturation` makes of a model.
pub uninterp spec fn supersaturation_of(model: dive_deco::BuhlmannModel)
    -> dive_deco::Supersaturation;

/// Whether a depth compares as greater than or equal to `Depth::zero()`: it
/// is a number, and it is not above the surface.
pub uninterp spec fn depth_admissible(depth: dive_deco::Depth) -> bool;

/// The text that `Display` writes for a failure of the engine.
pub uninterp spec fn failure_words(failure: dive_deco::DecoCalculationError) -> Seq<char>;

/// Whether the engine takes a configuration with these gradient factors,
/// this surface pressure and this ascent rate. It takes gradient factors
/// from 1 to 100, the low one not above the high one, a surface pressure
/// from 500 to 1500 millibar, and an ascent rate that it takes by itself.
/// It looks at nothing else in a configuration.
pub open spec fn engine_accepts(
    gf_low: u8,
    gf_high: u8,
    surface_pressure: i32,
    ascent_per_minute: dive_deco::Depth,
) -> bool {
    &&& 1 <= gf_low <= gf_high <= 100
    &&& 500 <= surface_pressure <= 1500
    &&& rate_taken(ascent_per_minute)
}

/// Offers the default configuration with the given ascent rate to
/// `BuhlmannModel::update_config`, on a model made for the purpose by
/// `DecoModel::default`, and says whether it was taken. The gradient factors
/// and the surface pressure of the default pass the engine's tests, so that
/// its test of the rate alone decides.
#[verifier::external_body]
pub(crate) fn rate_is_taken(ascent_per_minute: &dive_deco::Depth) -> (taken: bool)
    ensures
        taken == rate_taken(*ascent_per_minute),
{
    let config = dive_deco::BuhlmannConfig::default().with_deco_ascent_rate(
        ascent_per_minute.as_meters(),
    );
    let mut scratch: dive_deco::BuhlmannModel = dive_deco::DecoModel::default();
    scratch.update_config(config).is_ok()
}

/// Calls `BuhlmannModel::new` on the configuration made of the arguments.
/// The engine panics on a configuration that it does not take, which the
/// precondition leaves out. It makes the model by plain arithmetic on the
/// configuration.
#[verifier::external_body]
pub(crate) fn fresh_model(
    gf_low: u8,
    gf_high: u8,
    surface_pressure: i32,
    ascent_per_minute: &dive_deco::Depth,
    ceiling_type: CeilingType,
    round_ceiling: bool,
    recalc_all_tissues_m_values: bool,
) -> (model: dive_deco::BuhlmannModel)
    requires
        engine_accepts(gf_low, gf_high, surface_pressure, *ascent_per_minute),
    ensures
        model == new_model(
            gf_low,
            gf_high,
            surface_pressure,
            *ascent_per_minute,
            ceiling_type,
            round_ceiling,
            recalc_all_tissues_m_values,
        ),
{
    dive_deco::DecoModel::new(dive_deco::BuhlmannConfig {
        gf: (gf_low, gf_high),
        surface_pressure,
        deco_ascent_rate: ascent_per_minute.as_meters(),
        ceiling_type: match ceiling_type {
            CeilingType::Actual => dive_deco::CeilingType::Actual,
            CeilingType::Adaptive => dive_deco::CeilingType::Adaptive,
        },
        round_ceiling,
        recalc_all_tissues_m_values,
    })
}

/// Copies a model by its `Clone`.
#[verifier::external_body]
pub(crate) fn model_copy(model: &dive_deco::BuhlmannModel) -> (copy: dive_deco::BuhlmannModel)
    ensures
        copy == *model,
{
    model.clone()
}

/// Compares a depth with `Depth::zero()` by the engine's own `>=`.
#[verifier::external_body]
pub(crate) fn depth_is_admissible(depth: &dive_deco::Depth) -> (admissible: bool)
    ensures
        admissible == depth_admissible(*depth),
{
    *depth >= dive_deco::Depth::zero()
}

/// Calls `BuhlmannModel::supersaturation`, which is plain arithmetic on the
/// tissues.
#[verifier::external_body]
pub(crate) fn model_supersaturation(
    model: &dive_deco::BuhlmannModel,
) -> (supersaturation: dive_deco::Supersaturation)
    ensures
        supersaturation == supersaturation_of(*model),
{
    model.supersaturation()
}

/// Calls `DecoModel::cns`, which reads the percentage out of the model, and
/// makes a JSON value of it by `Value::from`: a number, or null where the
/// percentage is not finite.
#[verifier::external_body]
pub(crate) fn model_cns(model: &dive_deco::BuhlmannModel) -> (cns: Cns)
    ensures
        cns == cns_of(*model),
{
    Cns { percent: serde_json::Value::from(dive_deco::DecoModel::cns(model)) }
}

/// Calls `DecoModel::otu`, which reads the units out of the model, and makes
/// a JSON value of them by `Value::from`: a number, or null where the units
/// are not finite.
#[verifier::external_body]
pub(crate) fn model_otu(model: &dive_deco::BuhlmannModel) -> (otu: Otu)
    ensures
        otu == otu_of(*model),
{
    Otu { units: serde_json::Value::from(dive_deco::DecoModel::otu(model)) }
}

/// Writes a failure of the engine by its `Display`.
#[verifier::external_body]
pub(crate) fn failure_message(failure: &dive_deco::DecoCalculationError) -> (words: String)
    ensures
        words@ == failure_words(*failure),
{
    failure.to_string()
}

} // verus!
