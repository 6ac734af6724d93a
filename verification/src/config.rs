//! The configuration of a dive session, its two selectors, and the check
//! that stands before a session is made.

use vstd::prelude::*;
use vstd::string::*;
use crate::engine::{engine_accepts, rate_is_taken};
use crate::boundary::{nul_free, plain};
use crate::json::{
    begin_plain, decimal, depth_json, depth_text, json_bool, json_text, metres_json, metres_text,
    push_bool, push_decimal, push_plain, push_text, text_of, value_text,
};

verus! {

/// How the engine reports a ceiling.
#[derive(Clone, Copy, Debug, PartialEq, Eq, Structural)]
pub enum CeilingType {
    /// The ceiling of the tissues as they are.
    Actual,
    /// The ceiling after off-gassing on the way up is counted in.
    Adaptive,
}

/// How the depths of decompression stops are laid out.
#[derive(Clone, Copy, Debug, PartialEq, Eq, Structural)]
pub enum DecoStopFormatting {
    /// Stops on multiples of three metres.
    Metric,
    /// Stops on multiples of ten feet.
    Imperial,
    /// No grid: a stop at the ceiling itself.
    Continuous,
}

/// A vertical speed, held as the depth that is travelled in one minute.
pub struct Rate {
    pub per_minute: dive_deco::Depth,
}

/// The tunable parameters of a session.
///
/// The engine is made with the first six of them. The other four are kept
/// with the session and written back to the caller, and that is all: the
/// engine has no setting for them. Of these, a fractional number is held as
/// the JSON value that stands for it.
pub struct Configuration {
    /// Gradient factors, low then high, in percent.
    pub gf: (u8, u8),
    /// Surface pressure in millibar.
    pub surface_pressure: i32,
    /// The rate of ascent between decompression stops.
    pub deco_ascent_rate: Rate,
    /// How the engine reports a ceiling.
    pub ceiling_type: CeilingType,
    /// Whether a ceiling is rounded up to a whole metre.
    pub round_ceiling: bool,
    /// Whether the limits of all tissues follow the gradient factors, or
    /// those of the leading tissue alone.
    pub recalc_all_tissues_m_values: bool,
    /// The density of the water.
    pub water_density: serde_json::Value,
    /// How the depths of decompression stops are laid out.
    pub stop_formatting: DecoStopFormatting,
    /// The depth of the last decompression stop.
    pub last_stop_depth: dive_deco::Depth,
    /// The least partial pressure of oxygen that a gas may have.
    pub min_pp_o2: serde_json::Value,
}

/// Why no session was made.
#[derive(Clone, Copy, Debug, PartialEq, Eq, Structural)]
pub enum InvalidConfiguration {
    /// The ceiling selector is neither 0 nor 1.
    CeilingType,
    /// The stop selector is none of 0, 1 and 2.
    StopFormatting,
    /// The engine does not take the gradient factors, the surface pressure
    /// or the ascent rate.
    EngineLimits,
}

/// The ceiling type that a selector stands for.
pub open spec fn ceiling_type_of(selector: u8) -> Option<CeilingType> {
    if selector == 0 {
        Some(CeilingType::Actual)
    } else if selector == 1 {
        Some(CeilingType::Adaptive)
    } else {
        None
    }
}

/// The stop formatting that a selector stands for.
pub open spec fn stop_formatting_of(selector: u8) -> Option<DecoStopFormatting> {
    if selector == 0 {
        Some(DecoStopFormatting::Metric)
    } else if selector == 1 {
        Some(DecoStopFormatting::Imperial)
    } else if selector == 2 {
        Some(DecoStopFormatting::Continuous)
    } else {
        None
    }
}

/// The text of a ceiling type: its name in double quotes.
pub open spec fn ceiling_type_json(ceiling_type: CeilingType) -> Seq<char> {
    match ceiling_type {
        CeilingType::Actual => "\"Actual\""@,
        CeilingType::Adaptive => "\"Adaptive\""@,
    }
}

/// The text of a stop formatting: its name in double quotes.
pub open spec fn stop_formatting_json(stop_formatting: DecoStopFormatting) -> Seq<char> {
    match stop_formatting {
        DecoStopFormatting::Metric => "\"Metric\""@,
        DecoStopFormatting::Imperial => "\"Imperial\""@,
        DecoStopFormatting::Continuous => "\"Continuous\""@,
    }
}

/// The configuration that the arguments describe, or the first thing that is
/// wrong with them: the ceiling selector, then the stop selector, then what
/// the engine checks.
pub open spec fn assembled(
    gf_low: u8,
    gf_high: u8,
    surface_pressure: i32,
    deco_ascent_rate: Rate,
    ceiling_type: u8,
    round_ceiling: bool,
    recalc_all_tissues_m_values: bool,
    water_density: serde_json::Value,
    stop_formatting: u8,
    last_stop_depth: dive_deco::Depth,
    min_pp_o2: serde_json::Value,
) -> Result<Configuration, InvalidConfiguration> {
    if ceiling_type_of(ceiling_type) is None {
        Err(InvalidConfiguration::CeilingType)
    } else if stop_formatting_of(stop_formatting) is None {
        Err(InvalidConfiguration::StopFormatting)
    } else if !engine_accepts(gf_low, gf_high, surface_pressure, deco_ascent_rate.per_minute) {
        Err(InvalidConfiguration::EngineLimits)
    } else {
        Ok(
            Configuration {
                gf: (gf_low, gf_high),
                surface_pressure,
                deco_ascent_rate,
                ceiling_type: ceiling_type_of(ceiling_type)->0,
                round_ceiling,
                recalc_all_tissues_m_values,
                water_density,
                stop_formatting: stop_formatting_of(stop_formatting)->0,
                last_stop_depth,
                min_pp_o2,
            },
        )
    }
}

/// The text of a configuration: one JSON object with the fields in the order
/// of their declaration. There is none where a fractional number or the last
/// stop's depth cannot be written.
pub open spec fn configuration_json(config: Configuration) -> Option<Seq<char>> {
    let rate = metres_json(config.deco_ascent_rate.per_minute);
    let density = json_text(config.water_density);
    let last_stop = depth_json(config.last_stop_depth);
    let pp_o2 = json_text(config.min_pp_o2);
    if rate is Some && density is Some && last_stop is Some && pp_o2 is Some {
        Some(
            "{\"gf\":["@ + decimal(config.gf.0 as int) + ","@ + decimal(config.gf.1 as int)
                + "],\"surface_pressure\":"@ + decimal(config.surface_pressure as int)
                + ",\"deco_ascent_rate\":"@ + rate->0 + ",\"ceiling_type\":"@ + ceiling_type_json(
                config.ceiling_type,
            ) + ",\"round_ceiling\":"@ + json_bool(config.round_ceiling)
                + ",\"recalc_all_tissues_m_values\":"@ + json_bool(
                config.recalc_all_tissues_m_values,
            ) + ",\"water_density\":"@ + density->0 + ",\"stop_formatting\":"@
                + stop_formatting_json(config.stop_formatting) + ",\"last_stop_depth\":"@
                + last_stop->0 + ",\"min_pp_o2\":"@ + pp_o2->0 + "}"@,
        )
    } else {
        None
    }
}

impl CeilingType {
    /// Reads a selector: 0 is `Actual`, 1 is `Adaptive`.
    pub fn from_selector(selector: u8) -> (ceiling_type: Option<CeilingType>)
        ensures
            ceiling_type == ceiling_type_of(selector),
    {
        if selector == 0 {
            Some(CeilingType::Actual)
        } else if selector == 1 {
            Some(CeilingType::Adaptive)
        } else {
            None
        }
    }

    /// The name, in double quotes.
    pub fn json_name(&self) -> (name: &'static str)
        ensures
            name@ == ceiling_type_json(*self),
            plain(name@),
    {
        proof {
            reveal_strlit("\"Actual\"");
            reveal_strlit("\"Adaptive\"");
        }
        match self {
            CeilingType::Actual => "\"Actual\"",
            CeilingType::Adaptive => "\"Adaptive\"",
        }
    }
}

impl DecoStopFormatting {
    /// Reads a selector: 0 is `Metric`, 1 is `Imperial`, 2 is `Continuous`.
    pub fn from_selector(selector: u8) -> (stop_formatting: Option<DecoStopFormatting>)
        ensures
            stop_formatting == stop_formatting_of(selector),
    {
        if selector == 0 {
            Some(DecoStopFormatting::Metric)
        } else if selector == 1 {
            Some(DecoStopFormatting::Imperial)
        } else if selector == 2 {
            Some(DecoStopFormatting::Continuous)
        } else {
            None
        }
    }

    /// The name, in double quotes.
    pub fn json_name(&self) -> (name: &'static str)
        ensures
            name@ == stop_formatting_json(*self),
            plain(name@),
    {
        proof {
            reveal_strlit("\"Metric\"");
            reveal_strlit("\"Imperial\"");
            reveal_strlit("\"Continuous\"");
        }
        match self {
            DecoStopFormatting::Metric => "\"Metric\"",
            DecoStopFormatting::Imperial => "\"Imperial\"",
            DecoStopFormatting::Continuous => "\"Continuous\"",
        }
    }
}

impl InvalidConfiguration {
    /// What is wrong, in words.
    pub open spec fn message_text(self) -> Seq<char> {
        match self {
            InvalidConfiguration::CeilingType => "Invalid ceiling type"@,
            InvalidConfiguration::StopFormatting => "Invalid stop formatting"@,
            InvalidConfiguration::EngineLimits => "Invalid configuration for the decompression engine"@,
        }
    }

    /// What is wrong, in words.
    pub fn message(&self) -> (text: String)
        ensures
            text@ == self.message_text(),
    {
        match self {
            InvalidConfiguration::CeilingType => String::from_str("Invalid ceiling type"),
            InvalidConfiguration::StopFormatting => String::from_str("Invalid stop formatting"),
            InvalidConfiguration::EngineLimits => String::from_str(
                "Invalid configuration for the decompression engine",
            ),
        }
    }
}

impl Configuration {
    /// Checks the two selectors, asks the engine about the rest, and puts
    /// the configuration together.
    pub fn assemble(
        gf_low: u8,
        gf_high: u8,
        surface_pressure: i32,
        deco_ascent_rate: Rate,
        ceiling_type: u8,
        round_ceiling: bool,
        recalc_all_tissues_m_values: bool,
        water_density: serde_json::Value,
        stop_formatting: u8,
        last_stop_depth: dive_deco::Depth,
        min_pp_o2: serde_json::Value,
    ) -> (outcome: Result<Configuration, InvalidConfiguration>)
        ensures
            outcome == assembled(
                gf_low,
                gf_high,
                surface_pressure,
                deco_ascent_rate,
                ceiling_type,
                round_ceiling,
                recalc_all_tissues_m_values,
                water_density,
                stop_formatting,
                last_stop_depth,
                min_pp_o2,
            ),
    {
        let ceiling = match CeilingType::from_selector(ceiling_type) {
            Some(ceiling) => ceiling,
            None => {
                return Err(InvalidConfiguration::CeilingType);
            },
        };
        let stops = match DecoStopFormatting::from_selector(stop_formatting) {
            Some(stops) => stops,
            None => {
                return Err(InvalidConfiguration::StopFormatting);
            },
        };
        let factors_taken = 1 <= gf_low && gf_low <= gf_high && gf_high <= 100;
        let pressure_taken = 500 <= surface_pressure && surface_pressure <= 1500;
        if !factors_taken || !pressure_taken || !rate_is_taken(&deco_ascent_rate.per_minute) {
            return Err(InvalidConfiguration::EngineLimits);
        }
        Ok(
            Configuration {
                gf: (gf_low, gf_high),
                surface_pressure,
                deco_ascent_rate,
                ceiling_type: ceiling,
                round_ceiling,
                recalc_all_tissues_m_values,
                water_density,
                stop_formatting: stops,
                last_stop_depth,
                min_pp_o2,
            },
        )
    }

    /// Writes the configuration as JSON. There is a text for every
    /// configuration, and no zero byte stands in it.
    pub fn to_json(&self) -> (text: Option<String>)
        ensures
            text_of(text) == configuration_json(*self),
            text is Some,
            nul_free(text->0@),
    {
        let rate = match metres_text(&self.deco_ascent_rate.per_minute) {
            Some(rate) => rate,
            None => {
                return None;
            },
        };
        let density = match value_text(&self.water_density) {
            Some(density) => density,
            None => {
                return None;
            },
        };
        let last_stop = match depth_text(&self.last_stop_depth) {
            Some(last_stop) => last_stop,
            None => {
                return None;
            },
        };
        let pp_o2 = match value_text(&self.min_pp_o2) {
            Some(pp_o2) => pp_o2,
            None => {
                return None;
            },
        };
        proof {
            reveal_strlit("{\"gf\":[");
            reveal_strlit(",");
            reveal_strlit("],\"surface_pressure\":");
            reveal_strlit(",\"deco_ascent_rate\":");
            reveal_strlit(",\"ceiling_type\":");
            reveal_strlit(",\"round_ceiling\":");
            reveal_strlit(",\"recalc_all_tissues_m_values\":");
            reveal_strlit(",\"water_density\":");
            reveal_strlit(",\"stop_formatting\":");
            reveal_strlit(",\"last_stop_depth\":");
            reveal_strlit(",\"min_pp_o2\":");
            reveal_strlit("}");
        }
        let mut out = begin_plain("{\"gf\":[");
        push_decimal(&mut out, self.gf.0 as i64);
        push_plain(&mut out, ",");
        push_decimal(&mut out, self.gf.1 as i64);
        push_plain(&mut out, "],\"surface_pressure\":");
        push_decimal(&mut out, self.surface_pressure as i64);
        push_plain(&mut out, ",\"deco_ascent_rate\":");
        push_text(&mut out, rate.as_str());
        push_plain(&mut out, ",\"ceiling_type\":");
        push_plain(&mut out, self.ceiling_type.json_name());
        push_plain(&mut out, ",\"round_ceiling\":");
        push_bool(&mut out, self.round_ceiling);
        push_plain(&mut out, ",\"recalc_all_tissues_m_values\":");
        push_bool(&mut out, self.recalc_all_tissues_m_values);
        push_plain(&mut out, ",\"water_density\":");
        push_text(&mut out, density.as_str());
        push_plain(&mut out, ",\"stop_formatting\":");
        push_plain(&mut out, self.stop_formatting.json_name());
        push_plain(&mut out, ",\"last_stop_depth\":");
        push_text(&mut out, last_stop.as_str());
        push_plain(&mut out, ",\"min_pp_o2\":");
        push_text(&mut out, pp_o2.as_str());
        push_plain(&mut out, "}");
        Some(out)
    }
}

} // verus!
