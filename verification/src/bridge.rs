//! The bridge: one dive session at most, the registry of breathing sources,
//! and the operations that callers reach them through.
//!
//! A caller owns the bridge and hands it to every operation. Whoever shares
//! one bridge among threads puts it behind a lock; an operation then runs
//! from start to end under that lock.
//!
//! Where an operation takes a simulation by the engine, the bridge decides
//! and the caller simulates. To record a segment, the bridge examines the
//! request and hands out a step: a copy of the model, the gas, and the
//! segment. The caller lets the engine record the segment on the copy and
//! hands the copy back to `Bridge::adopt`. To answer with the limit, the
//! ceiling or a schedule, the caller asks the engine about `Bridge::model`,
//! with `Bridge::deco_gases` as the candidates, and hands the answer to the
//! operation, which writes it.

use vstd::prelude::*;
use crate::answers::{
    complete_state_json, deco_result_for, deco_result_json, planned_view, state_of, Cns,
    CompleteDiveState, DecoResult, Otu,
};
use crate::boundary::{boundary_of, handle_text, BoundaryString};
use crate::config::{assembled, configuration_json, Configuration, InvalidConfiguration, Rate};
use crate::engine::{
    cns_of, depth_admissible, depth_is_admissible, fresh_model, model_cns, model_copy, model_otu,
    model_supersaturation, new_model, otu_of, supersaturation_of,
};
use crate::json::{
    depth_json, depth_text, json_text, supersaturation_json, supersaturation_text, text_of,
    time_json, time_text, value_text,
};
use crate::registry::{
    source_at, source_gas, source_gases, source_json, BreathingSource, Registry,
};

verus! {

/// A dive in progress: the configuration it was started with and the
/// engine's model of it.
pub struct Session {
    pub config: Configuration,
    pub model: dive_deco::BuhlmannModel,
}

/// The state behind the operations.
pub struct Bridge {
    session: Option<Session>,
    registry: Registry,
}

/// What a bridge holds: the session, if a dive was started, and the
/// breathing sources by index.
pub struct BridgeView {
    pub session: Option<Session>,
    pub sources: Seq<BreathingSource>,
}

impl BridgeView {
    /// The bridge after one more source was added.
    pub open spec fn with_source(self, source: BreathingSource) -> BridgeView {
        BridgeView { session: self.session, sources: self.sources.push(source) }
    }

    /// The bridge after a batch of sources was added, one after the other.
    pub open spec fn with_sources(self, batch: Seq<BreathingSource>) -> BridgeView
        decreases batch.len(),
    {
        if batch.len() == 0 {
            self
        } else {
            self.with_sources(batch.drop_last()).with_source(batch.last())
        }
    }

    /// The source with an index, if there is one.
    pub open spec fn source(self, index: int) -> Option<BreathingSource> {
        source_at(self.sources, index)
    }

    /// The index that the next source gets.
    pub open spec fn next_index(self) -> int {
        self.sources.len() as int
    }

    /// The gases that a decompression schedule may use: one for every
    /// source, in the order of their indices.
    pub open spec fn deco_gases(self) -> Seq<dive_deco::Gas> {
        source_gases(self.sources)
    }

    /// The gas that the engine is given for the source with an index.
    pub open spec fn gas_at(self, index: int) -> dive_deco::Gas
        recommends
            self.source(index) is Some,
    {
        source_gas(self.source(index)->0)
    }

    /// The engine's model of the dive.
    pub open spec fn model(self) -> dive_deco::BuhlmannModel
        recommends
            self.session is Some,
    {
        self.session->0.model
    }
}

/// No source of the bridge was moved, replaced or removed: every index
/// that was given out denotes what it did.
pub open spec fn keeps_sources(before: BridgeView, after: BridgeView) -> bool {
    before.sources.is_prefix_of(after.sources)
}

impl View for Bridge {
    type V = BridgeView;

    closed spec fn view(&self) -> BridgeView {
        BridgeView { session: self.session, sources: self.registry@ }
    }
}

/// What became of a request to record.
#[derive(Clone, Copy, Debug, PartialEq, Eq, Structural)]
pub enum RecordOutcome {
    /// The session has taken the recorded model in.
    Recorded,
    /// No breathing source has the index.
    UnknownSource,
    /// No dive was started.
    NoSession,
    /// The depth is above the surface, or no number: the engine panics on
    /// such a depth.
    DepthRefused,
}

/// A segment of a dive, as the engine records it.
pub enum Segment {
    /// A time spent at a depth.
    Stay { depth: dive_deco::Depth, time: dive_deco::Time },
    /// A linear change of depth to a target over a time.
    Travel { target: dive_deco::Depth, time: dive_deco::Time },
    /// A change of depth to a target at a rate.
    RatedTravel { target: dive_deco::Depth, rate: Rate },
}

/// What the engine is to do for a request to record: record the segment on
/// the model, breathing the gas. The model is a copy of the session's.
pub struct Step {
    pub model: dive_deco::BuhlmannModel,
    pub gas: dive_deco::Gas,
    pub segment: Segment,
}

/// What stands against a request to record at a depth on the source with
/// an index: the first of no such source, no session, and a depth that is
/// not taken.
pub open spec fn obstacle(bridge: BridgeView, depth: dive_deco::Depth, index: int) -> Option<
    RecordOutcome,
> {
    if bridge.source(index) is None {
        Some(RecordOutcome::UnknownSource)
    } else if bridge.session is None {
        Some(RecordOutcome::NoSession)
    } else if !depth_admissible(depth) {
        Some(RecordOutcome::DepthRefused)
    } else {
        None
    }
}

/// What a request to record a segment at a depth comes to: the step for
/// the engine, on a copy of the model and the gas of the source with the
/// index, or the obstacle.
pub open spec fn step_for(
    bridge: BridgeView,
    depth: dive_deco::Depth,
    index: int,
    segment: Segment,
) -> Result<Step, RecordOutcome> {
    match obstacle(bridge, depth, index) {
        Some(outcome) => Err(outcome),
        None => Ok(Step { model: bridge.model(), gas: bridge.gas_at(index), segment }),
    }
}

/// The state of a dive: the oxygen load, the oxygen units and the
/// supersaturation of the model, and what the engine answered for the
/// ceiling, the limit and the planning.
pub open spec fn state_on(
    bridge: BridgeView,
    ceiling: dive_deco::Depth,
    limit: dive_deco::Time,
    planned: Result<dive_deco::DecoRuntime, dive_deco::DecoCalculationError>,
) -> crate::answers::CompleteDiveStateView {
    state_of(
        cns_of(bridge.model()),
        otu_of(bridge.model()),
        supersaturation_of(bridge.model()),
        ceiling,
        limit,
        deco_result_for(planned_view(planned)),
    )
}

impl Bridge {
    /// A bridge without a session and without breathing sources.
    pub fn new() -> (bridge: Bridge)
        ensures
            bridge@.session is None,
            bridge@.sources == Seq::<BreathingSource>::empty(),
    {
        Bridge { session: None, registry: Registry::new() }
    }

    /// The number of breathing sources.
    pub fn source_count(&self) -> (count: usize)
        ensures
            count == self@.sources.len(),
    {
        self.registry.len()
    }

    /// Whether a dive was started.
    pub fn has_session(&self) -> (started: bool)
        ensures
            started == self@.session is Some,
    {
        self.session.is_some()
    }

    /// The configuration of the dive, if one was started.
    pub fn configuration(&self) -> (config: Option<&Configuration>)
        ensures
            match config {
                Some(found) => self@.session is Some && *found == self@.session->0.config,
                None => self@.session is None,
            },
    {
        match &self.session {
            Some(session) => Some(&session.config),
            None => None,
        }
    }

    /// The engine's model of the dive, if one was started: what the engine
    /// is asked about.
    pub fn model(&self) -> (model: Option<&dive_deco::BuhlmannModel>)
        ensures
            match model {
                Some(found) => self@.session is Some && *found == self@.model(),
                None => self@.session is None,
            },
    {
        match &self.session {
            Some(session) => Some(&session.model),
            None => None,
        }
    }

    /// The breathing source at an index; none below zero or beyond the last.
    pub fn source(&self, index: i32) -> (source: Option<&BreathingSource>)
        ensures
            match source {
                Some(found) => self@.source(index as int) == Some(*found),
                None => self@.source(index as int) is None,
            },
    {
        if index < 0 {
            None
        } else {
            self.registry.get(index as usize)
        }
    }

    /// The gases that the engine may plan decompression stops on: one for
    /// every source, in the order of their indices.
    pub fn deco_gases(&self) -> (gases: Vec<dive_deco::Gas>)
        ensures
            gases@ == self@.deco_gases(),
    {
        self.registry.gases()
    }

    /// Examines a request to record a segment at a depth on the source with
    /// an index, and hands out the step for the engine or the obstacle.
    pub fn step(
        &self,
        depth: &dive_deco::Depth,
        gas_index: i32,
        segment: Segment,
    ) -> (step: Result<Step, RecordOutcome>)
        ensures
            step == step_for(self@, *depth, gas_index as int, segment),
    {
        let gas = match self.source(gas_index) {
            Some(source) => source.gas(),
            None => {
                return Err(RecordOutcome::UnknownSource);
            },
        };
        match &self.session {
            None => Err(RecordOutcome::NoSession),
            Some(session) => {
                if depth_is_admissible(depth) {
                    Ok(Step { model: model_copy(&session.model), gas, segment })
                } else {
                    Err(RecordOutcome::DepthRefused)
                }
            },
        }
    }

    /// Takes in the model on which the engine has recorded a step: it is
    /// the model of the session from now on. Without a session it is
    /// dropped.
    pub fn adopt(&mut self, recorded: dive_deco::BuhlmannModel) -> (outcome: RecordOutcome)
        ensures
            old(self)@.session is None ==> outcome == RecordOutcome::NoSession && *final(self)
                == *old(self),
            old(self)@.session is Some ==> {
                &&& outcome == RecordOutcome::Recorded
                &&& final(self)@.session is Some
                &&& final(self)@.model() == recorded
                &&& final(self)@.session->0.config == old(self)@.session->0.config
                &&& final(self)@.sources == old(self)@.sources
            },
            keeps_sources(old(self)@, final(self)@),
    {
        match &mut self.session {
            Some(session) => {
                session.model = recorded;
                RecordOutcome::Recorded
            },
            None => RecordOutcome::NoSession,
        }
    }

    /// The result of planning the decompression, made of what the engine's
    /// planner said. Nothing comes back without a session or without an
    /// answer of the planner.
    pub fn plan_deco(
        &self,
        planned: Option<Result<dive_deco::DecoRuntime, dive_deco::DecoCalculationError>>,
    ) -> (result: Option<DecoResult>)
        ensures
            result is Some == (self@.session is Some && planned is Some),
            result is Some ==> result->0@ == deco_result_for(planned_view(planned->0)),
            result is Some ==> result->0@.consistent(),
    {
        if self.session.is_none() {
            return None;
        }
        match planned {
            Some(planned) => Some(DecoResult::from_planned(planned)),
            None => None,
        }
    }

    /// The whole state of the dive: what the bridge reads out of the model,
    /// and what the engine answered for the ceiling, the limit and the
    /// planning. Nothing comes back without a session or without one of the
    /// three answers.
    pub fn complete_state(
        &self,
        ceiling: Option<&dive_deco::Depth>,
        limit: Option<&dive_deco::Time>,
        planned: Option<Result<dive_deco::DecoRuntime, dive_deco::DecoCalculationError>>,
    ) -> (state: Option<CompleteDiveState>)
        ensures
            state is Some == (self@.session is Some && ceiling is Some && limit is Some
                && planned is Some),
            state is Some ==> state->0@ == state_on(self@, *ceiling->0, *limit->0, planned->0),
            state is Some ==> state->0@.complete(),
    {
        let session = match &self.session {
            Some(session) => session,
            None => {
                return None;
            },
        };
        match (ceiling, limit, planned) {
            (Some(ceiling), Some(limit), Some(planned)) => {
                let cns = model_cns(&session.model);
                let otu = model_otu(&session.model);
                let supersaturation = model_supersaturation(&session.model);
                let deco_result = DecoResult::from_planned(planned);
                Some(
                    CompleteDiveState::gather(
                        cns,
                        otu,
                        &supersaturation,
                        ceiling,
                        limit,
                        deco_result,
                    ),
                )
            },
            _ => None,
        }
    }
}

/// Hands out a time as its text.
pub fn encode_time(time: &dive_deco::Time) -> (handle: Option<BoundaryString>)
    ensures
        handle_text(handle) == boundary_of(time_json(*time)),
        handle is Some,
{
    BoundaryString::issue(time_text(time))
}

/// Hands out a depth as its text.
pub fn encode_depth(depth: &dive_deco::Depth) -> (handle: Option<BoundaryString>)
    ensures
        handle_text(handle) == boundary_of(depth_json(*depth)),
        handle is Some,
{
    BoundaryString::issue(depth_text(depth))
}

/// Hands out a supersaturation as its text.
pub fn encode_supersaturation(
    supersaturation: &dive_deco::Supersaturation,
) -> (handle: Option<BoundaryString>)
    ensures
        handle_text(handle) == boundary_of(supersaturation_json(*supersaturation)),
        handle is Some,
{
    BoundaryString::issue(supersaturation_text(supersaturation))
}

/// Hands out an oxygen load as its text.
pub fn encode_cns(cns: &Cns) -> (handle: Option<BoundaryString>)
    ensures
        handle_text(handle) == boundary_of(json_text(cns.percent)),
        handle is Some,
{
    BoundaryString::issue(value_text(&cns.percent))
}

/// Hands out oxygen units as their text.
pub fn encode_otu(otu: &Otu) -> (handle: Option<BoundaryString>)
    ensures
        handle_text(handle) == boundary_of(json_text(otu.units)),
        handle is Some,
{
    BoundaryString::issue(value_text(&otu.units))
}

/// Hands out a decompression result as its text.
pub fn encode_deco_result(result: &DecoResult) -> (handle: Option<BoundaryString>)
    ensures
        handle_text(handle) == boundary_of(deco_result_json(result@)),
        handle is Some,
{
    BoundaryString::issue(result.to_json())
}

/// Hands out a complete state as its text.
pub fn encode_complete_state(state: &CompleteDiveState) -> (handle: Option<BoundaryString>)
    ensures
        handle_text(handle) == boundary_of(complete_state_json(state@)),
        handle is Some,
{
    BoundaryString::issue(state.to_json())
}

/// Starts a dive. The selectors are looked at first, then the gradient
/// factors and the surface pressure, then the engine is asked about the
/// ascent rate. Where all is well, a session with the model that the engine
/// makes of the configuration takes the place of the old one, and the
/// configuration comes back as text. Where not, the bridge stays as it was.
#[allow(non_snake_case)]
pub fn CreateNewDive(
    bridge: &mut Bridge,
    gflow: u8,
    gfhigh: u8,
    surface_pressure: i32,
    deco_ascent_rate: Rate,
    ceiling_type: u8,
    round_ceiling: bool,
    recalc_all_tissues_m_values: bool,
    water_density: serde_json::Value,
    stop_formatting: u8,
    last_stop_depth: dive_deco::Depth,
    min_pp_o2: serde_json::Value,
) -> (outcome: Result<Option<BoundaryString>, InvalidConfiguration>)
    ensures
        match assembled(
            gflow,
            gfhigh,
            surface_pressure,
            deco_ascent_rate,
            ceiling_type,
            round_ceiling,
            recalc_all_tissues_m_values,
            water_density,
            stop_formatting,
            last_stop_depth,
            min_pp_o2,
        ) {
            Ok(config) => {
                &&& outcome is Ok
                &&& outcome->Ok_0 is Some
                &&& handle_text(outcome->Ok_0) == boundary_of(configuration_json(config))
                &&& final(bridge)@.session is Some
                &&& final(bridge)@.session->0.config == config
                &&& final(bridge)@.session->0.model == new_model(
                    gflow,
                    gfhigh,
                    surface_pressure,
                    deco_ascent_rate.per_minute,
                    config.ceiling_type,
                    round_ceiling,
                    recalc_all_tissues_m_values,
                )
                &&& final(bridge)@.sources == old(bridge)@.sources
            },
            Err(reason) => {
                &&& outcome == Err::<Option<BoundaryString>, InvalidConfiguration>(reason)
                &&& *final(bridge) == *old(bridge)
            },
        },
        keeps_sources(old(bridge)@, final(bridge)@),
{
    let config = match Configuration::assemble(
        gflow,
        gfhigh,
        surface_pressure,
        deco_ascent_rate,
        ceiling_type,
        round_ceiling,
        recalc_all_tissues_m_values,
        water_density,
        stop_formatting,
        last_stop_depth,
        min_pp_o2,
    ) {
        Ok(config) => config,
        Err(reason) => {
            return Err(reason);
        },
    };
    let model = fresh_model(
        config.gf.0,
        config.gf.1,
        config.surface_pressure,
        &config.deco_ascent_rate.per_minute,
        config.ceiling_type,
        config.round_ceiling,
        config.recalc_all_tissues_m_values,
    );
    let text = config.to_json();
    bridge.session = Some(Session { config, model });
    Ok(BoundaryString::issue(text))
}

/// The breathing source at an index, as text; a null handle where there is
/// no such source.
#[allow(non_snake_case)]
pub fn GetBreathingSourceConfig(bridge: &Bridge, index: i32) -> (handle: Option<BoundaryString>)
    ensures
        handle_text(handle) == match bridge@.source(index as int) {
            Some(source) => boundary_of(source_json(source)),
            None => None,
        },
        handle is Some == bridge@.source(index as int) is Some,
{
    match bridge.source(index) {
        Some(source) => BoundaryString::issue(source.to_json()),
        None => None,
    }
}

/// Adds an open-circuit source behind the others and returns its index.
#[allow(non_snake_case)]
pub fn AddBreathingSourceOpenCircuit(bridge: &mut Bridge, gas: dive_deco::Gas) -> (index: i32)
    requires
        old(bridge)@.sources.len() <= i32::MAX,
    ensures
        index == old(bridge)@.next_index(),
        final(bridge)@ == old(bridge)@.with_source(BreathingSource::OpenCircuit(gas)),
        keeps_sources(old(bridge)@, final(bridge)@),
{
    bridge.registry.add_open_circuit(gas) as i32
}

/// Adds a closed-circuit source behind the others and returns its index.
#[allow(non_snake_case)]
pub fn AddBreathingSourceClosedCircuit(
    bridge: &mut Bridge,
    setpoint: serde_json::Value,
    diluent: dive_deco::Gas,
) -> (index: i32)
    requires
        old(bridge)@.sources.len() <= i32::MAX,
    ensures
        index == old(bridge)@.next_index(),
        final(bridge)@ == old(bridge)@.with_source(
            BreathingSource::ClosedCircuit { setpoint, diluent },
        ),
        keeps_sources(old(bridge)@, final(bridge)@),
{
    bridge.registry.add_closed_circuit(setpoint, diluent) as i32
}

/// Examines a request to record a stay: the time is spent at the depth on
/// the source with the index. Where nothing stands against it, the step for
/// the engine comes back: a copy of the model, the gas of the source, and
/// the stay. The bridge stays as it is until the recorded copy is handed to
/// `Bridge::adopt`.
#[allow(non_snake_case)]
pub fn RecordDiveSegment(
    bridge: &Bridge,
    depth: dive_deco::Depth,
    time: dive_deco::Time,
    gas_index: i32,
) -> (step: Result<Step, RecordOutcome>)
    ensures
        step == step_for(bridge@, depth, gas_index as int, Segment::Stay { depth, time }),
{
    bridge.step(&depth, gas_index, Segment::Stay { depth, time })
}

/// Examines a request to record a change of depth at a fixed rate, on the
/// source with the index. Where nothing stands against it, the step for the
/// engine comes back: a copy of the model, the gas of the source, and the
/// travel. The bridge stays as it is until the recorded copy is handed to
/// `Bridge::adopt`.
#[allow(non_snake_case)]
pub fn RecordTravelWithRate(
    bridge: &Bridge,
    depth: dive_deco::Depth,
    rate: Rate,
    gas_index: i32,
) -> (step: Result<Step, RecordOutcome>)
    ensures
        step == step_for(
            bridge@,
            depth,
            gas_index as int,
            Segment::RatedTravel { target: depth, rate },
        ),
{
    bridge.step(&depth, gas_index, Segment::RatedTravel { target: depth, rate })
}

/// Examines a request to record a linear change of depth over a time, on
/// the source with the index. Where nothing stands against it, the step for
/// the engine comes back: a copy of the model, the gas of the source, and
/// the travel. The bridge stays as it is until the recorded copy is handed
/// to `Bridge::adopt`.
#[allow(non_snake_case)]
pub fn RecordTravel(
    bridge: &Bridge,
    depth: dive_deco::Depth,
    time: dive_deco::Time,
    gas_index: i32,
) -> (step: Result<Step, RecordOutcome>)
    ensures
        step == step_for(bridge@, depth, gas_index as int, Segment::Travel { target: depth, time }),
{
    bridge.step(&depth, gas_index, Segment::Travel { target: depth, time })
}

/// Writes what the engine's planner said of the model of the dive, with
/// `Bridge::deco_gases` as the candidates. The handle is null without a
/// session and without an answer. Else the answer is put into a result as
/// `DecoResult::from_planned` does it, and the result is handed out as its
/// text.
#[allow(non_snake_case)]
pub fn CalculateDeco(
    bridge: &Bridge,
    planned: Option<Result<dive_deco::DecoRuntime, dive_deco::DecoCalculationError>>,
) -> (handle: Option<BoundaryString>)
    ensures
        handle is Some == (bridge@.session is Some && planned is Some),
        handle is Some ==> handle_text(handle) == boundary_of(
            deco_result_json(deco_result_for(planned_view(planned->0))),
        ),
{
    match bridge.plan_deco(planned) {
        Some(result) => encode_deco_result(&result),
        None => None,
    }
}

/// Writes the no-decompression limit that the engine found for the model of
/// the dive. The handle is null without a session and without an answer;
/// else it holds the text of the limit.
#[allow(non_snake_case)]
pub fn GetCurrentNDL(
    bridge: &Bridge,
    limit: Option<&dive_deco::Time>,
) -> (handle: Option<BoundaryString>)
    ensures
        handle is Some == (bridge@.session is Some && limit is Some),
        handle is Some ==> handle_text(handle) == boundary_of(time_json(*limit->0)),
{
    if bridge.session.is_none() {
        return None;
    }
    match limit {
        Some(limit) => encode_time(limit),
        None => None,
    }
}

/// Writes the ceiling that the engine found for the model of the dive. The
/// handle is null without a session and without an answer; else it holds
/// the text of the ceiling.
#[allow(non_snake_case)]
pub fn GetCurrentCeiling(
    bridge: &Bridge,
    ceiling: Option<&dive_deco::Depth>,
) -> (handle: Option<BoundaryString>)
    ensures
        handle is Some == (bridge@.session is Some && ceiling is Some),
        handle is Some ==> handle_text(handle) == boundary_of(depth_json(*ceiling->0)),
{
    if bridge.session.is_none() {
        return None;
    }
    match ceiling {
        Some(ceiling) => encode_depth(ceiling),
        None => None,
    }
}

/// The supersaturation, as text. Without a session the handle is null. With
/// one, the supersaturation of the model is handed out as its text.
#[allow(non_snake_case)]
pub fn GetSupersaturation(bridge: &Bridge) -> (handle: Option<BoundaryString>)
    ensures
        handle is Some == bridge@.session is Some,
        bridge@.session is Some ==> handle_text(handle) == boundary_of(
            supersaturation_json(supersaturation_of(bridge@.model())),
        ),
{
    match &bridge.session {
        Some(session) => encode_supersaturation(&model_supersaturation(&session.model)),
        None => None,
    }
}

/// The oxygen toxicity units, as text. Without a session the handle is null.
/// With one, the units of the model are handed out as their text.
#[allow(non_snake_case)]
pub fn GetOtu(bridge: &Bridge) -> (handle: Option<BoundaryString>)
    ensures
        handle is Some == bridge@.session is Some,
        bridge@.session is Some ==> handle_text(handle) == boundary_of(
            json_text(otu_of(bridge@.model()).units),
        ),
{
    match &bridge.session {
        Some(session) => encode_otu(&model_otu(&session.model)),
        None => None,
    }
}

/// The oxygen load of the central nervous system in percent, as text.
/// Without a session the handle is null. With one, the load of the model is
/// handed out as its text.
#[allow(non_snake_case)]
pub fn GetCns(bridge: &Bridge) -> (handle: Option<BoundaryString>)
    ensures
        handle is Some == bridge@.session is Some,
        bridge@.session is Some ==> handle_text(handle) == boundary_of(
            json_text(cns_of(bridge@.model()).percent),
        ),
{
    match &bridge.session {
        Some(session) => encode_cns(&model_cns(&session.model)),
        None => None,
    }
}

/// Writes the complete state of the dive: what the bridge reads out of the
/// model, and what the engine answered for the ceiling, the limit and the
/// planning. The handle is null without a session and without one of the
/// three answers; else it holds the text of the state.
#[allow(non_snake_case)]
pub fn GetCompleteDiveState(
    bridge: &Bridge,
    ceiling: Option<&dive_deco::Depth>,
    limit: Option<&dive_deco::Time>,
    planned: Option<Result<dive_deco::DecoRuntime, dive_deco::DecoCalculationError>>,
) -> (handle: Option<BoundaryString>)
    ensures
        handle is Some == (bridge@.session is Some && ceiling is Some && limit is Some
            && planned is Some),
        handle is Some ==> handle_text(handle) == boundary_of(
            complete_state_json(state_on(bridge@, *ceiling->0, *limit->0, planned->0)),
        ),
{
    match bridge.complete_state(ceiling, limit, planned) {
        Some(state) => encode_complete_state(&state),
        None => None,
    }
}

/// Takes a handle back and ends it. A null handle is taken back as well.
#[allow(non_snake_case)]
pub fn FreeCString(handle: Option<BoundaryString>) {
    match handle {
        Some(string) => {
            let _ = string.into_string();
        },
        None => {},
    }
}

/// Takes a handle back, ends it, and returns the line that a log of the
/// released strings shows for it: the text, and nothing for a null handle.
pub fn println_c_string(handle: Option<BoundaryString>) -> (line: Option<String>)
    ensures
        text_of(line) == handle_text(handle),
{
    match handle {
        Some(string) => Some(string.into_string()),
        None => None,
    }
}

} // verus!
