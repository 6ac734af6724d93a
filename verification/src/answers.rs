//! The records that the bridge answers with: the outcome of planning the
//! decompression, and the complete state of a dive.

use vstd::prelude::*;
use vstd::string::*;
use crate::boundary::nul_free;
use crate::engine::{failure_message, failure_words};
use crate::json::{
    begin_plain, depth_value, depth_value_json, json_bool, json_string, optional_text,
    optional_to_text, outcome_view, pair_value_json, push_bool, push_plain, push_text,
    runtime_json, runtime_value, string_text, supersaturation_value, text_of, time_value,
    time_value_json,
};

verus! {

/// The oxygen load of the central nervous system in percent, as the JSON
/// value that stands for it.
pub struct Cns {
    pub percent: serde_json::Value,
}

/// The oxygen toxicity units, as the JSON value that stands for them.
pub struct Otu {
    pub units: serde_json::Value,
}

/// The outcome of planning the decompression: the schedule, or the words on
/// why there is none.
pub struct DecoResult {
    pub success: bool,
    pub error: Option<String>,
    pub decotable: Option<serde_json::Value>,
}

/// A `DecoResult` with its message as a sequence of characters.
pub struct DecoResultView {
    pub success: bool,
    pub error: Option<Seq<char>>,
    pub decotable: Option<serde_json::Value>,
}

impl DecoResultView {
    /// Success comes with a schedule and without a message; failure comes
    /// with a message and without a schedule.
    pub open spec fn consistent(self) -> bool {
        if self.success {
            self.error is None && self.decotable is Some
        } else {
            self.error is Some && self.decotable is None
        }
    }
}

impl View for DecoResult {
    type V = DecoResultView;

    open spec fn view(&self) -> DecoResultView {
        DecoResultView {
            success: self.success,
            error: match self.error {
                Some(message) => Some(message@),
                None => None,
            },
            decotable: self.decotable,
        }
    }
}

/// The result for what was said: success with the schedule, or failure with
/// the message.
pub open spec fn deco_result_for(outcome: Result<serde_json::Value, Seq<char>>) -> DecoResultView {
    match outcome {
        Ok(schedule) => DecoResultView { success: true, error: None, decotable: Some(schedule) },
        Err(message) => DecoResultView { success: false, error: Some(message), decotable: None },
    }
}

/// What the engine's planner said, as a schedule in JSON or a message: its
/// schedule is made a JSON value, its failure is written in its own words.
pub open spec fn planned_view(
    planned: Result<dive_deco::DecoRuntime, dive_deco::DecoCalculationError>,
) -> Result<serde_json::Value, Seq<char>> {
    match planned {
        Ok(runtime) => runtime_json(runtime),
        Err(failure) => Err(failure_words(failure)),
    }
}

/// The text of the message field: `null` without a message.
pub open spec fn error_json(error: Option<Seq<char>>) -> Option<Seq<char>> {
    match error {
        Some(message) => json_string(message),
        None => Some("null"@),
    }
}

/// The text of a result: a JSON object with the fields `success`, `error`
/// and `decotable`, in this order. There is none where the message or the
/// schedule cannot be written.
pub open spec fn deco_result_json(result: DecoResultView) -> Option<Seq<char>> {
    let error = error_json(result.error);
    let decotable = optional_text(result.decotable);
    if error is Some && decotable is Some {
        Some(
            "{\"success\":"@ + json_bool(result.success) + ",\"error\":"@ + error->0
                + ",\"decotable\":"@ + decotable->0 + "}"@,
        )
    } else {
        None
    }
}

impl DecoResult {
    /// Puts what was said into a result.
    pub fn from_outcome(outcome: Result<serde_json::Value, String>) -> (result: DecoResult)
        ensures
            result@ == deco_result_for(outcome_view(outcome)),
            result@.consistent(),
    {
        match outcome {
            Ok(schedule) => DecoResult { success: true, error: None, decotable: Some(schedule) },
            Err(message) => DecoResult { success: false, error: Some(message), decotable: None },
        }
    }

    /// Puts what the engine's planner said into a result.
    pub fn from_planned(
        planned: Result<dive_deco::DecoRuntime, dive_deco::DecoCalculationError>,
    ) -> (result: DecoResult)
        ensures
            result@ == deco_result_for(planned_view(planned)),
            result@.consistent(),
    {
        match planned {
            Ok(runtime) => DecoResult::from_outcome(runtime_value(&runtime)),
            Err(failure) => DecoResult::from_outcome(Err(failure_message(&failure))),
        }
    }

    /// Writes the result as JSON. There is a text for every result, and no
    /// zero byte stands in it.
    pub fn to_json(&self) -> (text: Option<String>)
        ensures
            text_of(text) == deco_result_json(self@),
            text is Some,
            nul_free(text->0@),
    {
        proof {
            reveal_strlit("null");
            reveal_strlit("{\"success\":");
            reveal_strlit(",\"error\":");
            reveal_strlit(",\"decotable\":");
            reveal_strlit("}");
        }
        let error = match &self.error {
            Some(message) => string_text(message.as_str()),
            None => Some(begin_plain("null")),
        };
        let error = match error {
            Some(error) => error,
            None => {
                return None;
            },
        };
        let decotable = match optional_to_text(&self.decotable) {
            Some(decotable) => decotable,
            None => {
                return None;
            },
        };
        let mut out = begin_plain("{\"success\":");
        push_bool(&mut out, self.success);
        push_plain(&mut out, ",\"error\":");
        push_text(&mut out, error.as_str());
        push_plain(&mut out, ",\"decotable\":");
        push_text(&mut out, decotable.as_str());
        push_plain(&mut out, "}");
        Some(out)
    }
}

/// Everything that can be asked of a dive, read in one go.
pub struct CompleteDiveState {
    pub cns: Option<serde_json::Value>,
    pub otu: Option<serde_json::Value>,
    pub supersaturation: Option<serde_json::Value>,
    pub current_ceiling: Option<serde_json::Value>,
    pub current_ndl: Option<serde_json::Value>,
    pub deco_result: Option<DecoResult>,
}

/// A `CompleteDiveState` with the view of its result.
pub struct CompleteDiveStateView {
    pub cns: Option<serde_json::Value>,
    pub otu: Option<serde_json::Value>,
    pub supersaturation: Option<serde_json::Value>,
    pub current_ceiling: Option<serde_json::Value>,
    pub current_ndl: Option<serde_json::Value>,
    pub deco_result: Option<DecoResultView>,
}

impl CompleteDiveStateView {
    /// The decompression result is there, and it is consistent.
    pub open spec fn complete(self) -> bool {
        self.deco_result is Some && self.deco_result->0.consistent()
    }
}

impl View for CompleteDiveState {
    type V = CompleteDiveStateView;

    open spec fn view(&self) -> CompleteDiveStateView {
        CompleteDiveStateView {
            cns: self.cns,
            otu: self.otu,
            supersaturation: self.supersaturation,
            current_ceiling: self.current_ceiling,
            current_ndl: self.current_ndl,
            deco_result: match self.deco_result {
                Some(result) => Some(result@),
                None => None,
            },
        }
    }
}

/// The state that is made of what the engine answered: the oxygen load and
/// the oxygen units as they are, the supersaturation, the ceiling and the
/// limit each as the JSON value that stands for it, where there is one, and
/// the result of planning the decompression.
pub open spec fn state_of(
    cns: Cns,
    otu: Otu,
    supersaturation: dive_deco::Supersaturation,
    ceiling: dive_deco::Depth,
    ndl: dive_deco::Time,
    result: DecoResultView,
) -> CompleteDiveStateView {
    CompleteDiveStateView {
        cns: Some(cns.percent),
        otu: Some(otu.units),
        supersaturation: pair_value_json(supersaturation),
        current_ceiling: depth_value_json(ceiling),
        current_ndl: time_value_json(ndl),
        deco_result: Some(result),
    }
}

/// The text of the result field: `null` without a result.
pub open spec fn optional_result_json(result: Option<DecoResultView>) -> Option<Seq<char>> {
    match result {
        Some(result) => deco_result_json(result),
        None => Some("null"@),
    }
}

/// The text of a complete state: a JSON object with the six fields in the
/// order of their declaration, `null` for one that is absent. There is none
/// where a field that is present cannot be written.
pub open spec fn complete_state_json(state: CompleteDiveStateView) -> Option<Seq<char>> {
    let cns = optional_text(state.cns);
    let otu = optional_text(state.otu);
    let supersaturation = optional_text(state.supersaturation);
    let ceiling = optional_text(state.current_ceiling);
    let ndl = optional_text(state.current_ndl);
    let result = optional_result_json(state.deco_result);
    if cns is Some && otu is Some && supersaturation is Some && ceiling is Some && ndl is Some
        && result is Some {
        Some(
            "{\"cns\":"@ + cns->0 + ",\"otu\":"@ + otu->0 + ",\"supersaturation\":"@
                + supersaturation->0 + ",\"current_ceiling\":"@ + ceiling->0
                + ",\"current_ndl\":"@ + ndl->0 + ",\"deco_result\":"@ + result->0 + "}"@,
        )
    } else {
        None
    }
}

impl CompleteDiveState {
    /// Puts what the engine answered into a state.
    pub fn gather(
        cns: Cns,
        otu: Otu,
        supersaturation: &dive_deco::Supersaturation,
        ceiling: &dive_deco::Depth,
        ndl: &dive_deco::Time,
        deco_result: DecoResult,
    ) -> (state: CompleteDiveState)
        ensures
            state@ == state_of(cns, otu, *supersaturation, *ceiling, *ndl, deco_result@),
    {
        CompleteDiveState {
            cns: Some(cns.percent),
            otu: Some(otu.units),
            supersaturation: supersaturation_value(supersaturation),
            current_ceiling: depth_value(ceiling),
            current_ndl: time_value(ndl),
            deco_result: Some(deco_result),
        }
    }

    /// Writes the state as JSON. There is a text for every state, and no
    /// zero byte stands in it.
    pub fn to_json(&self) -> (text: Option<String>)
        ensures
            text_of(text) == complete_state_json(self@),
            text is Some,
            nul_free(text->0@),
    {
        proof {
            reveal_strlit("null");
            reveal_strlit("{\"cns\":");
            reveal_strlit(",\"otu\":");
            reveal_strlit(",\"supersaturation\":");
            reveal_strlit(",\"current_ceiling\":");
            reveal_strlit(",\"current_ndl\":");
            reveal_strlit(",\"deco_result\":");
            reveal_strlit("}");
        }
        let cns = match optional_to_text(&self.cns) {
            Some(cns) => cns,
            None => {
                return None;
            },
        };
        let otu = match optional_to_text(&self.otu) {
            Some(otu) => otu,
            None => {
                return None;
            },
        };
        let supersaturation = match optional_to_text(&self.supersaturation) {
            Some(supersaturation) => supersaturation,
            None => {
                return None;
            },
        };
        let ceiling = match optional_to_text(&self.current_ceiling) {
            Some(ceiling) => ceiling,
            None => {
                return None;
            },
        };
        let ndl = match optional_to_text(&self.current_ndl) {
            Some(ndl) => ndl,
            None => {
                return None;
            },
        };
        let result = match &self.deco_result {
            Some(result) => result.to_json(),
            None => Some(begin_plain("null")),
        };
        let result = match result {
            Some(result) => result,
            None => {
                return None;
            },
        };
        let mut out = begin_plain("{\"cns\":");
        push_text(&mut out, cns.as_str());
        push_plain(&mut out, ",\"otu\":");
        push_text(&mut out, otu.as_str());
        push_plain(&mut out, ",\"supersaturation\":");
        push_text(&mut out, supersaturation.as_str());
        push_plain(&mut out, ",\"current_ceiling\":");
        push_text(&mut out, ceiling.as_str());
        push_plain(&mut out, ",\"current_ndl\":");
        push_text(&mut out, ndl.as_str());
        push_plain(&mut out, ",\"deco_result\":");
        push_text(&mut out, result.as_str());
        push_plain(&mut out, "}");
        Some(out)
    }
}

} // verus!
