use dive_deco::{
    DecoCalculationError, DecoModel, DecoRuntime, Depth, Gas, Supersaturation, Time,
};
use dive_deco_bridge::boundary::BoundaryString;
use dive_deco_bridge::answers::{Cns, CompleteDiveState, DecoResult, Otu};
use dive_deco_bridge::bridge::{
    encode_cns, encode_complete_state, encode_deco_result, encode_depth,
    encode_otu, encode_supersaturation, encode_time,
};
use dive_deco_bridge::config::{Configuration, Rate};
use dive_deco_bridge::json::{push_bool, push_decimal};
use dive_deco_bridge::registry::BreathingSource;
use dive_deco_bridge::{
    AddBreathingSourceClosedCircuit, AddBreathingSourceOpenCircuit, Bridge, CalculateDeco,
    CreateNewDive, GetBreathingSourceConfig, GetCns, GetCompleteDiveState, GetCurrentCeiling,
    GetCurrentNDL, GetOtu, GetSupersaturation, RecordDiveSegment, RecordOutcome, Segment, Step,
};
use serde_json::Value;

fn record(bridge: &mut Bridge, step: Result<Step, RecordOutcome>) -> RecordOutcome {
    match step {
        Ok(Step { mut model, gas, segment }) => {
            match segment {
                Segment::Stay { depth, time } => model.record(depth, time, &gas),
                Segment::Travel { target, time } => model.record_travel(target, time, &gas),
                Segment::RatedTravel { target, rate } => {
                    model.record_travel_with_rate(target, rate.per_minute.as_meters(), &gas)
                }
            }
            bridge.adopt(model)
        }
        Err(outcome) => outcome,
    }
}

fn stay(bridge: &mut Bridge, metres: f64, seconds: f64, index: i32) -> RecordOutcome {
    let step = RecordDiveSegment(
        bridge,
        Depth::from_meters(metres),
        Time::from_seconds(seconds),
        index,
    );
    record(bridge, step)
}

fn plan(bridge: &Bridge) -> Option<Result<DecoRuntime, DecoCalculationError>> {
    bridge.model().map(|model| model.deco(bridge.deco_gases()))
}

fn deco(bridge: &Bridge) -> Option<String> {
    CalculateDeco(bridge, plan(bridge)).map(BoundaryString::into_string)
}

fn ndl(bridge: &Bridge) -> Option<String> {
    let limit = bridge.model().map(|model| model.ndl());
    GetCurrentNDL(bridge, limit.as_ref()).map(BoundaryString::into_string)
}

fn ceiling(bridge: &Bridge) -> Option<String> {
    let ceiling = bridge.model().map(|model| model.ceiling());
    GetCurrentCeiling(bridge, ceiling.as_ref()).map(BoundaryString::into_string)
}

fn state(bridge: &Bridge) -> Option<String> {
    let ceiling = bridge.model().map(|model| model.ceiling());
    let limit = bridge.model().map(|model| model.ndl());
    GetCompleteDiveState(bridge, ceiling.as_ref(), limit.as_ref(), plan(bridge))
        .map(BoundaryString::into_string)
}

fn parse(text: &str) -> Value {
    serde_json::from_str(text).expect("JSON")
}

fn configuration() -> Configuration {
    Configuration::assemble(
        30,
        70,
        1013,
        Rate { per_minute: Depth::from_meters(9.0) },
        1,
        true,
        false,
        Value::from(1.03),
        2,
        Depth::from_meters(4.5),
        Value::from(0.18),
    )
    .expect("a valid configuration")
}

fn dived() -> Bridge {
    let mut bridge = Bridge::new();
    CreateNewDive(
        &mut bridge,
        30,
        70,
        1013,
        Rate { per_minute: Depth::from_meters(9.0) },
        0,
        false,
        false,
        Value::from(1.0),
        0,
        Depth::from_meters(3.0),
        Value::from(0.18),
    )
    .expect("a valid configuration");
    AddBreathingSourceOpenCircuit(&mut bridge, Gas::new(0.21, 0.0));
    stay(&mut bridge, 30.0, 1200.0, 0);
    bridge
}

#[test]
fn configuration_text_is_exact() {
    assert_eq!(
        configuration().to_json().expect("text"),
        "{\"gf\":[30,70],\"surface_pressure\":1013,\"deco_ascent_rate\":9.0,\
         \"ceiling_type\":\"Adaptive\",\"round_ceiling\":true,\
         \"recalc_all_tissues_m_values\":false,\"water_density\":1.03,\
         \"stop_formatting\":\"Continuous\",\"last_stop_depth\":{\"m\":4.5},\"min_pp_o2\":0.18}"
    );
}

#[test]
fn new_dive_returns_its_configuration() {
    let mut bridge = Bridge::new();
    let text = CreateNewDive(
        &mut bridge,
        30,
        70,
        1013,
        Rate { per_minute: Depth::from_meters(9.0) },
        0,
        false,
        false,
        Value::from(1.0),
        0,
        Depth::from_meters(3.0),
        Value::from(0.18),
    )
    .expect("a valid configuration")
    .expect("text")
    .into_string();
    assert_eq!(
        text,
        "{\"gf\":[30,70],\"surface_pressure\":1013,\"deco_ascent_rate\":9.0,\
         \"ceiling_type\":\"Actual\",\"round_ceiling\":false,\
         \"recalc_all_tissues_m_values\":false,\"water_density\":1.0,\
         \"stop_formatting\":\"Metric\",\"last_stop_depth\":{\"m\":3.0},\"min_pp_o2\":0.18}"
    );
    let stored = bridge.configuration().expect("a session");
    assert_eq!(stored.to_json().expect("text"), text);
}

#[test]
fn configuration_round_trip() {
    let config = configuration();
    let decoded = parse(&config.to_json().expect("text"));
    assert_eq!(decoded["gf"][0], Value::from(config.gf.0));
    assert_eq!(decoded["gf"][1], Value::from(config.gf.1));
    assert_eq!(decoded["surface_pressure"], Value::from(config.surface_pressure));
    assert_eq!(
        decoded["deco_ascent_rate"].as_f64(),
        Some(config.deco_ascent_rate.per_minute.as_meters())
    );
    assert_eq!(decoded["ceiling_type"], Value::from("Adaptive"));
    assert_eq!(decoded["round_ceiling"], Value::Bool(config.round_ceiling));
    assert_eq!(
        decoded["recalc_all_tissues_m_values"],
        Value::Bool(config.recalc_all_tissues_m_values)
    );
    assert_eq!(decoded["water_density"], config.water_density);
    assert_eq!(decoded["stop_formatting"], Value::from("Continuous"));
    let last_stop: Depth =
        serde_json::from_value(decoded["last_stop_depth"].clone()).expect("a depth");
    assert_eq!(last_stop, config.last_stop_depth);
    assert_eq!(decoded["min_pp_o2"], config.min_pp_o2);
    assert_eq!(decoded.as_object().expect("an object").len(), 10);
}

#[test]
fn reals_that_are_no_numbers_are_null() {
    let config = Configuration::assemble(
        30,
        70,
        1013,
        Rate { per_minute: Depth::from_meters(9.0) },
        0,
        false,
        false,
        Value::from(f64::NAN),
        0,
        Depth::from_meters(f64::INFINITY),
        Value::from(f64::NEG_INFINITY),
    )
    .expect("a valid configuration");
    let decoded = parse(&config.to_json().expect("text"));
    assert_eq!(decoded["water_density"], Value::Null);
    assert_eq!(decoded["min_pp_o2"], Value::Null);
    assert_eq!(decoded["last_stop_depth"]["m"], Value::Null);
}

#[test]
fn breathing_source_texts_are_exact() {
    let open = BreathingSource::OpenCircuit(Gas::new(0.18, 0.45));
    assert_eq!(
        open.to_json().expect("text"),
        "{\"OpenCircuit\":{\"o2_pp\":0.18,\"n2_pp\":0.37,\"he_pp\":0.45}}"
    );
    let closed =
        BreathingSource::ClosedCircuit { setpoint: Value::from(1.3), diluent: Gas::new(0.1, 0.5) };
    assert_eq!(
        closed.to_json().expect("text"),
        "{\"ClosedCircuit\":{\"setpoint\":1.3,\"diluent\":{\"o2_pp\":0.1,\"n2_pp\":0.4,\"he_pp\":0.5}}}"
    );
}

#[test]
fn breathing_source_round_trip() {
    let mut bridge = Bridge::new();
    let trimix = Gas::new(0.18, 0.45);
    let diluent = Gas::new(0.1, 0.5);
    AddBreathingSourceOpenCircuit(&mut bridge, trimix);
    AddBreathingSourceClosedCircuit(&mut bridge, Value::from(1.3), diluent);

    let open = parse(&GetBreathingSourceConfig(&bridge, 0).expect("a source").into_string());
    let gas: Gas = serde_json::from_value(open["OpenCircuit"].clone()).expect("a gas");
    assert_eq!(gas, trimix);
    assert_eq!(open.as_object().expect("an object").len(), 1);

    let closed = parse(&GetBreathingSourceConfig(&bridge, 1).expect("a source").into_string());
    assert_eq!(closed["ClosedCircuit"]["setpoint"].as_f64(), Some(1.3));
    let gas: Gas =
        serde_json::from_value(closed["ClosedCircuit"]["diluent"].clone()).expect("a gas");
    assert_eq!(gas, diluent);
    assert_eq!(closed.as_object().expect("an object").len(), 1);
    assert_eq!(closed["ClosedCircuit"].as_object().expect("an object").len(), 2);
}

#[test]
fn deco_result_texts_are_exact() {
    let failure = DecoResult::from_outcome(Err(String::from("no gas")));
    assert!(!failure.success);
    assert_eq!(failure.error.as_deref(), Some("no gas"));
    assert!(failure.decotable.is_none());
    assert_eq!(
        failure.to_json().expect("text"),
        "{\"success\":false,\"error\":\"no gas\",\"decotable\":null}"
    );

    let schedule = parse("{\"deco_stages\":[],\"tts\":{\"s\":0.0}}");
    let success = DecoResult::from_outcome(Ok(schedule.clone()));
    assert!(success.success);
    assert!(success.error.is_none());
    assert_eq!(success.decotable, Some(schedule));
    assert_eq!(
        success.to_json().expect("text"),
        "{\"success\":true,\"error\":null,\"decotable\":{\"deco_stages\":[],\"tts\":{\"s\":0.0}}}"
    );
}

#[test]
fn deco_result_round_trip() {
    let messages = ["plain", "with \"quotes\" and \\ backslash", "line\nbreak\ttab", "Tiefe \u{fc}ber 40 m"];
    for message in messages {
        let result = DecoResult::from_outcome(Err(String::from(message)));
        let decoded = parse(&result.to_json().expect("text"));
        assert_eq!(decoded["success"], Value::Bool(false));
        assert_eq!(decoded["error"], Value::from(message));
        assert_eq!(decoded["decotable"], Value::Null);
        assert_eq!(decoded.as_object().expect("an object").len(), 3);
    }

    let bridge = dived();
    let planned = bridge.plan_deco(plan(&bridge)).expect("a session");
    let decoded = parse(&encode_deco_result(&planned).expect("a handle").into_string());
    assert_eq!(decoded, parse(&deco(&bridge).expect("a session")));
    assert_eq!(decoded["success"], Value::Bool(planned.success));
    assert_eq!(decoded["error"], Value::Null);
    assert_eq!(Some(decoded["decotable"].clone()), planned.decotable);
}

#[test]
fn complete_state_round_trip() {
    let bridge = dived();
    let roof = bridge.model().map(|model| model.ceiling());
    let limit = bridge.model().map(|model| model.ndl());
    let state = bridge
        .complete_state(roof.as_ref(), limit.as_ref(), plan(&bridge))
        .expect("a session");
    let text = encode_complete_state(&state).expect("a handle").into_string();
    assert_eq!(Some(text.clone()), self::state(&bridge));
    let decoded = parse(&text);
    assert_eq!(Some(decoded["cns"].clone()), state.cns);
    assert_eq!(Some(decoded["otu"].clone()), state.otu);
    assert_eq!(Some(decoded["supersaturation"].clone()), state.supersaturation);
    assert_eq!(Some(decoded["current_ceiling"].clone()), state.current_ceiling);
    assert_eq!(Some(decoded["current_ndl"].clone()), state.current_ndl);
    let result = state.deco_result.as_ref().expect("a result");
    assert_eq!(decoded["deco_result"]["success"], Value::Bool(result.success));
    assert_eq!(decoded["deco_result"]["error"], Value::Null);
    assert_eq!(Some(decoded["deco_result"]["decotable"].clone()), result.decotable);
    assert_eq!(decoded.as_object().expect("an object").len(), 6);
    assert!(text.starts_with("{\"cns\":"));
    assert!(text.contains(",\"otu\":"));
    assert!(text.contains(",\"deco_result\":{\"success\":true,\"error\":null,\"decotable\":{"));
}

#[test]
fn complete_state_agrees_with_the_single_answers() {
    let bridge = dived();
    let decoded = parse(&state(&bridge).expect("a session"));
    let single = |handle: Option<BoundaryString>| parse(&handle.expect("a handle").into_string());
    assert_eq!(decoded["cns"], single(GetCns(&bridge)));
    assert_eq!(decoded["otu"], single(GetOtu(&bridge)));
    assert_eq!(decoded["supersaturation"], single(GetSupersaturation(&bridge)));
    assert_eq!(decoded["current_ceiling"], parse(&ceiling(&bridge).expect("a session")));
    assert_eq!(decoded["current_ndl"], parse(&ndl(&bridge).expect("a session")));
    assert_eq!(decoded["deco_result"], parse(&deco(&bridge).expect("a session")));
}

#[test]
fn absent_fields_are_null() {
    let state = CompleteDiveState {
        cns: None,
        otu: Some(Value::from(12.5)),
        supersaturation: None,
        current_ceiling: None,
        current_ndl: None,
        deco_result: None,
    };
    assert_eq!(
        state.to_json().expect("text"),
        "{\"cns\":null,\"otu\":12.5,\"supersaturation\":null,\"current_ceiling\":null,\
         \"current_ndl\":null,\"deco_result\":null}"
    );
}

#[test]
fn engine_values_are_written_as_they_are() {
    assert_eq!(
        encode_time(&Time::from_seconds(90.0)).expect("a handle").into_string(),
        "{\"s\":90.0}"
    );
    assert_eq!(
        encode_time(&Time::from_minutes(1.5)).expect("a handle").into_string(),
        "{\"s\":90.0}"
    );
    assert_eq!(
        encode_depth(&Depth::from_meters(4.5)).expect("a handle").into_string(),
        "{\"m\":4.5}"
    );
    assert_eq!(
        encode_depth(&Depth::from_meters(f64::NAN)).expect("a handle").into_string(),
        "{\"m\":null}"
    );
    let pair = Supersaturation { gf_99: 12.5, gf_surf: 80.0 };
    assert_eq!(
        encode_supersaturation(&pair).expect("a handle").into_string(),
        "{\"gf_99\":12.5,\"gf_surf\":80.0}"
    );
    let cns = Cns { percent: Value::from(4.75) };
    assert_eq!(encode_cns(&cns).expect("a handle").into_string(), "4.75");
    let otu = Otu { units: Value::from(f64::NAN) };
    assert_eq!(encode_otu(&otu).expect("a handle").into_string(), "null");
    let escaped = Cns { percent: Value::from("a\u{0}b") };
    assert_eq!(encode_cns(&escaped).expect("a handle").into_string(), "\"a\\u0000b\"");
}

#[test]
fn a_state_is_gathered_from_the_answers() {
    let pair = Supersaturation { gf_99: 12.5, gf_surf: 80.0 };
    let ceiling = Depth::from_meters(4.5);
    let ndl = Time::from_seconds(0.0);
    let result = DecoResult::from_outcome(Err(String::from("no gas")));
    let state = CompleteDiveState::gather(
        Cns { percent: Value::from(3.25) },
        Otu { units: Value::from(17.0) },
        &pair,
        &ceiling,
        &ndl,
        result,
    );
    assert_eq!(state.cns, Some(Value::from(3.25)));
    assert_eq!(state.otu, Some(Value::from(17.0)));
    assert_eq!(state.supersaturation, Some(serde_json::to_value(&pair).expect("a value")));
    assert_eq!(state.current_ceiling, Some(serde_json::to_value(ceiling).expect("a value")));
    assert_eq!(state.current_ndl, Some(serde_json::to_value(ndl).expect("a value")));
    let result = state.deco_result.as_ref().expect("a result");
    assert!(!result.success);
    assert_eq!(result.error.as_deref(), Some("no gas"));
    assert_eq!(
        state.to_json().expect("text"),
        "{\"cns\":3.25,\"otu\":17.0,\"supersaturation\":{\"gf_99\":12.5,\"gf_surf\":80.0},\
         \"current_ceiling\":{\"m\":4.5},\"current_ndl\":{\"s\":0.0},\
         \"deco_result\":{\"success\":false,\"error\":\"no gas\",\"decotable\":null}}"
    );
}

#[test]
fn whole_numbers_are_written_as_serde_json_writes_them() {
    let numbers = [
        0,
        1,
        9,
        10,
        11,
        99,
        100,
        255,
        1013,
        -1,
        -9,
        -10,
        -1013,
        i64::from(i32::MAX),
        i64::from(i32::MIN),
        i64::MAX,
        i64::MIN,
        i64::MIN + 1,
        1_000_000_007,
        -90_071_992_547_409_93,
    ];
    for number in numbers {
        let mut out = String::from("n=");
        push_decimal(&mut out, number);
        let expected = format!("n={}", serde_json::to_string(&number).expect("text"));
        assert_eq!(out, expected);
    }
    let mut out = String::new();
    push_decimal(&mut out, -120);
    assert_eq!(out, "-120");
}

#[test]
fn booleans_are_written_as_words() {
    let mut out = String::from("[");
    push_bool(&mut out, true);
    out.push(',');
    push_bool(&mut out, false);
    out.push(']');
    assert_eq!(out, "[true,false]");
}
