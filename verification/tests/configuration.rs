use dive_deco::{DecoCalculationError, DecoModel, DecoRuntime, Depth, Gas, Time};
use dive_deco_bridge::boundary::BoundaryString;
use dive_deco_bridge::config::{
    CeilingType, Configuration, DecoStopFormatting, InvalidConfiguration, Rate,
};
use dive_deco_bridge::{
    AddBreathingSourceOpenCircuit, Bridge, CalculateDeco, CreateNewDive,
    GetBreathingSourceConfig, GetCompleteDiveState, GetCurrentCeiling, GetCurrentNDL,
    RecordDiveSegment, RecordOutcome, Segment, Step,
};
use serde_json::Value;

fn record(bridge: &mut Bridge, step: Result<Step, RecordOutcome>) -> RecordOutcome {
    match step {
        Ok(Step { mut model, gas, segment }) => {
            match segment {
                Segment::Stay { depth, time } => model.record(depth, time, &gas),
                Segment::Travel { target, time } => model.record_travel(target, time, &gas),
                Segment::RatedTravel { target, rate } => {
                    model.record_travel_with_rate(target, rate.per_minute.as_meters(), &gas)
                }
            }
            bridge.adopt(model)
        }
        Err(outcome) => outcome,
    }
}

fn stay(bridge: &mut Bridge, metres: f64, seconds: f64, index: i32) -> RecordOutcome {
    let step = RecordDiveSegment(
        bridge,
        Depth::from_meters(metres),
        Time::from_seconds(seconds),
        index,
    );
    record(bridge, step)
}

fn plan(bridge: &Bridge) -> Option<Result<DecoRuntime, DecoCalculationError>> {
    bridge.model().map(|model| model.deco(bridge.deco_gases()))
}

fn deco(bridge: &Bridge) -> Option<String> {
    CalculateDeco(bridge, plan(bridge)).map(BoundaryString::into_string)
}

fn ndl(bridge: &Bridge) -> Option<String> {
    let limit = bridge.model().map(|model| model.ndl());
    GetCurrentNDL(bridge, limit.as_ref()).map(BoundaryString::into_string)
}

fn ceiling(bridge: &Bridge) -> Option<String> {
    let ceiling = bridge.model().map(|model| model.ceiling());
    GetCurrentCeiling(bridge, ceiling.as_ref()).map(BoundaryString::into_string)
}

fn state(bridge: &Bridge) -> Option<String> {
    let ceiling = bridge.model().map(|model| model.ceiling());
    let limit = bridge.model().map(|model| model.ndl());
    GetCompleteDiveState(bridge, ceiling.as_ref(), limit.as_ref(), plan(bridge))
        .map(BoundaryString::into_string)
}

fn create(
    bridge: &mut Bridge,
    gf: (u8, u8),
    surface_pressure: i32,
    ascent_rate: f64,
    ceiling_type: u8,
    stop_formatting: u8,
) -> Result<String, InvalidConfiguration> {
    CreateNewDive(
        bridge,
        gf.0,
        gf.1,
        surface_pressure,
        Rate { per_minute: Depth::from_meters(ascent_rate) },
        ceiling_type,
        false,
        true,
        Value::from(1.0),
        stop_formatting,
        Depth::from_meters(3.0),
        Value::from(0.18),
    )
    .map(|handle| handle.expect("a configuration that can be written").into_string())
}

#[test]
fn selectors_stand_for_their_variants() {
    assert_eq!(CeilingType::from_selector(0), Some(CeilingType::Actual));
    assert_eq!(CeilingType::from_selector(1), Some(CeilingType::Adaptive));
    for selector in 2..=u8::MAX {
        assert_eq!(CeilingType::from_selector(selector), None);
    }
    assert_eq!(DecoStopFormatting::from_selector(0), Some(DecoStopFormatting::Metric));
    assert_eq!(DecoStopFormatting::from_selector(1), Some(DecoStopFormatting::Imperial));
    assert_eq!(DecoStopFormatting::from_selector(2), Some(DecoStopFormatting::Continuous));
    for selector in 3..=u8::MAX {
        assert_eq!(DecoStopFormatting::from_selector(selector), None);
    }
    assert_eq!(CeilingType::Actual.json_name(), "\"Actual\"");
    assert_eq!(CeilingType::Adaptive.json_name(), "\"Adaptive\"");
    assert_eq!(DecoStopFormatting::Metric.json_name(), "\"Metric\"");
    assert_eq!(DecoStopFormatting::Imperial.json_name(), "\"Imperial\"");
    assert_eq!(DecoStopFormatting::Continuous.json_name(), "\"Continuous\"");
}

#[test]
fn every_selector_pair_that_is_known_starts_a_dive() {
    for ceiling_type in 0..=1 {
        for stop_formatting in 0..=2 {
            let mut bridge = Bridge::new();
            assert!(create(&mut bridge, (30, 70), 1013, 9.0, ceiling_type, stop_formatting).is_ok());
            assert!(bridge.has_session());
        }
    }
}

#[test]
fn an_unknown_ceiling_type_is_refused() {
    let mut bridge = Bridge::new();
    for selector in [2, 3, 17, 255] {
        assert_eq!(
            create(&mut bridge, (30, 70), 1013, 9.0, selector, 0),
            Err(InvalidConfiguration::CeilingType)
        );
        assert!(!bridge.has_session());
    }
}

#[test]
fn an_unknown_stop_formatting_is_refused() {
    let mut bridge = Bridge::new();
    for selector in [3, 4, 17, 255] {
        assert_eq!(
            create(&mut bridge, (30, 70), 1013, 9.0, 1, selector),
            Err(InvalidConfiguration::StopFormatting)
        );
        assert!(!bridge.has_session());
    }
}

#[test]
fn what_the_engine_does_not_take_is_refused() {
    let mut bridge = Bridge::new();
    let refused = [
        ((0, 70), 1013, 9.0),
        ((30, 101), 1013, 9.0),
        ((80, 70), 1013, 9.0),
        ((120, 240), 1013, 9.0),
        ((30, 70), 499, 9.0),
        ((30, 70), 1501, 9.0),
        ((30, 70), 0, 9.0),
        ((30, 70), -1013, 9.0),
        ((30, 70), 1013, 0.5),
        ((30, 70), 1013, 30.5),
        ((30, 70), 1013, -3.0),
        ((30, 70), 1013, f64::NAN),
        ((30, 70), 1013, f64::INFINITY),
    ];
    for (gf, surface_pressure, ascent_rate) in refused {
        assert_eq!(
            create(&mut bridge, gf, surface_pressure, ascent_rate, 0, 0),
            Err(InvalidConfiguration::EngineLimits)
        );
        assert!(!bridge.has_session());
    }
    let taken = [
        ((1, 1), 500, 1.0),
        ((100, 100), 1500, 30.0),
        ((1, 100), 1013, 15.5),
        ((70, 70), 1000, 9.0),
    ];
    for (gf, surface_pressure, ascent_rate) in taken {
        assert!(create(&mut bridge, gf, surface_pressure, ascent_rate, 0, 0).is_ok());
    }
}

#[test]
fn the_first_fault_is_the_one_reported() {
    let mut bridge = Bridge::new();
    assert_eq!(
        create(&mut bridge, (0, 0), 0, 0.0, 9, 9),
        Err(InvalidConfiguration::CeilingType)
    );
    assert_eq!(
        create(&mut bridge, (0, 0), 0, 0.0, 1, 9),
        Err(InvalidConfiguration::StopFormatting)
    );
    assert_eq!(
        create(&mut bridge, (0, 0), 0, 0.0, 1, 2),
        Err(InvalidConfiguration::EngineLimits)
    );
}

#[test]
fn faults_have_their_words() {
    assert_eq!(InvalidConfiguration::CeilingType.message(), "Invalid ceiling type");
    assert_eq!(InvalidConfiguration::StopFormatting.message(), "Invalid stop formatting");
    assert_eq!(
        InvalidConfiguration::EngineLimits.message(),
        "Invalid configuration for the decompression engine"
    );
}

#[test]
fn a_refused_configuration_leaves_the_dive_as_it_was() {
    let mut bridge = Bridge::new();
    let first = create(&mut bridge, (30, 70), 1013, 9.0, 0, 0).expect("a valid configuration");
    AddBreathingSourceOpenCircuit(&mut bridge, Gas::new(0.21, 0.0));
    stay(&mut bridge, 30.0, 1200.0, 0);
    let whole = state(&bridge);

    assert!(create(&mut bridge, (40, 80), 1000, 9.0, 2, 0).is_err());
    assert!(create(&mut bridge, (40, 80), 1000, 9.0, 0, 3).is_err());
    assert!(create(&mut bridge, (90, 80), 1000, 9.0, 0, 0).is_err());

    assert_eq!(state(&bridge), whole);
    assert_eq!(bridge.configuration().expect("a session").to_json().expect("text"), first);
    assert_eq!(bridge.source_count(), 1);
}

#[test]
fn a_new_dive_takes_the_place_of_the_old_one() {
    let mut bridge = Bridge::new();
    assert!(bridge.configuration().is_none());
    create(&mut bridge, (30, 70), 1013, 9.0, 0, 0).expect("a valid configuration");
    let fresh = ndl(&bridge).expect("a session");
    assert_eq!(fresh, "{\"s\":5940.0}");
    AddBreathingSourceOpenCircuit(&mut bridge, Gas::new(0.21, 0.0));
    stay(&mut bridge, 30.0, 1200.0, 0);
    assert_eq!(ndl(&bridge).expect("a session"), "{\"s\":0.0}");

    let second = create(&mut bridge, (40, 80), 1000, 10.0, 1, 1).expect("a valid configuration");
    assert_eq!(ndl(&bridge).expect("a session"), fresh);
    let _ = (ceiling(&bridge), deco(&bridge));
    let stored = bridge.configuration().expect("a session");
    assert_eq!(stored.gf, (40, 80));
    assert_eq!(stored.surface_pressure, 1000);
    assert_eq!(stored.ceiling_type, CeilingType::Adaptive);
    assert_eq!(stored.stop_formatting, DecoStopFormatting::Imperial);
    assert_eq!(stored.to_json().expect("text"), second);
    assert!(GetBreathingSourceConfig(&bridge, 0).is_some());
}

#[test]
fn a_configuration_is_assembled_from_its_parts() {
    let config = Configuration::assemble(
        35,
        75,
        980,
        Rate { per_minute: Depth::from_meters(12.0) },
        1,
        true,
        true,
        Value::from(1.02),
        1,
        Depth::from_meters(6.0),
        Value::from(0.16),
    )
    .expect("a valid configuration");
    assert_eq!(config.gf, (35, 75));
    assert_eq!(config.surface_pressure, 980);
    assert_eq!(config.deco_ascent_rate.per_minute, Depth::from_meters(12.0));
    assert_eq!(config.ceiling_type, CeilingType::Adaptive);
    assert!(config.round_ceiling);
    assert!(config.recalc_all_tissues_m_values);
    assert_eq!(config.water_density, Value::from(1.02));
    assert_eq!(config.stop_formatting, DecoStopFormatting::Imperial);
    assert_eq!(config.last_stop_depth, Depth::from_meters(6.0));
    assert_eq!(config.min_pp_o2, Value::from(0.16));
}
