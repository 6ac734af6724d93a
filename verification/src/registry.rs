//! Breathing sources and the registry that numbers them.
//!
//! The registry only grows. A source is known by the index it got when it
//! was added, counted from zero, and keeps that index for good.

use vstd::prelude::*;
use vstd::string::*;
use crate::boundary::nul_free;
use crate::json::{
    begin_plain, gas_json, gas_text, json_text, push_plain, push_text, text_of, value_text,
};

verus! {

/// A gas supply.
pub enum BreathingSource {
    /// The gas is breathed as it is.
    OpenCircuit(dive_deco::Gas),
    /// A rebreather: it holds the partial pressure of oxygen at the setpoint
    /// and fills up with the diluent. The setpoint is held as the JSON value
    /// that stands for it; the engine has no setting for it, and is given
    /// the diluent as the gas of the source.
    ClosedCircuit { setpoint: serde_json::Value, diluent: dive_deco::Gas },
}

/// The text of a breathing source: a JSON object with one field, named
/// after the kind of circuit. There is none where a gas or the setpoint
/// cannot be written.
pub open spec fn source_json(source: BreathingSource) -> Option<Seq<char>> {
    match source {
        BreathingSource::OpenCircuit(gas) => {
            let mix = gas_json(gas);
            if mix is Some {
                Some("{\"OpenCircuit\":"@ + mix->0 + "}"@)
            } else {
                None
            }
        },
        BreathingSource::ClosedCircuit { setpoint, diluent } => {
            let pressure = json_text(setpoint);
            let mix = gas_json(diluent);
            if pressure is Some && mix is Some {
                Some(
                    "{\"ClosedCircuit\":{\"setpoint\":"@ + pressure->0 + ",\"diluent\":"@
                        + mix->0 + "}}"@,
                )
            } else {
                None
            }
        },
    }
}

/// The source at an index of a sequence, if the index is in it.
pub open spec fn source_at(sources: Seq<BreathingSource>, index: int) -> Option<BreathingSource> {
    if 0 <= index < sources.len() {
        Some(sources[index])
    } else {
        None
    }
}

/// The gas that the engine is given for a source: the gas of an open
/// circuit, the diluent of a closed one.
pub open spec fn source_gas(source: BreathingSource) -> dive_deco::Gas {
    match source {
        BreathingSource::OpenCircuit(gas) => gas,
        BreathingSource::ClosedCircuit { setpoint, diluent } => diluent,
    }
}

/// The gases of the sources, one for each, in the order of their indices.
pub open spec fn source_gases(sources: Seq<BreathingSource>) -> Seq<dive_deco::Gas> {
    Seq::new(sources.len(), |i: int| source_gas(sources[i]))
}

impl BreathingSource {
    /// The gas that the engine is given for the source.
    pub fn gas(&self) -> (gas: dive_deco::Gas)
        ensures
            gas == source_gas(*self),
    {
        match self {
            BreathingSource::OpenCircuit(gas) => *gas,
            BreathingSource::ClosedCircuit { setpoint, diluent } => *diluent,
        }
    }

    /// Writes the source as JSON. There is a text for every source, and no
    /// zero byte stands in it.
    pub fn to_json(&self) -> (text: Option<String>)
        ensures
            text_of(text) == source_json(*self),
            text is Some,
            nul_free(text->0@),
    {
        proof {
            reveal_strlit("{\"OpenCircuit\":");
            reveal_strlit("}");
            reveal_strlit("{\"ClosedCircuit\":{\"setpoint\":");
            reveal_strlit(",\"diluent\":");
            reveal_strlit("}}");
        }
        match self {
            BreathingSource::OpenCircuit(gas) => {
                let mix = match gas_text(gas) {
                    Some(mix) => mix,
                    None => {
                        return None;
                    },
                };
                let mut out = begin_plain("{\"OpenCircuit\":");
                push_text(&mut out, mix.as_str());
                push_plain(&mut out, "}");
                Some(out)
            },
            BreathingSource::ClosedCircuit { setpoint, diluent } => {
                let pressure = match value_text(setpoint) {
                    Some(pressure) => pressure,
                    None => {
                        return None;
                    },
                };
                let mix = match gas_text(diluent) {
                    Some(mix) => mix,
                    None => {
                        return None;
                    },
                };
                let mut out = begin_plain("{\"ClosedCircuit\":{\"setpoint\":");
                push_text(&mut out, pressure.as_str());
                push_plain(&mut out, ",\"diluent\":");
                push_text(&mut out, mix.as_str());
                push_plain(&mut out, "}}");
                Some(out)
            },
        }
    }
}

/// The breathing sources in the order in which they were added.
pub struct Registry {
    sources: Vec<BreathingSource>,
}

impl View for Registry {
    type V = Seq<BreathingSource>;

    closed spec fn view(&self) -> Seq<BreathingSource> {
        self.sources@
    }
}

impl Registry {
    /// A registry without sources.
    pub fn new() -> (registry: Registry)
        ensures
            registry@ == Seq::<BreathingSource>::empty(),
    {
        Registry { sources: Vec::new() }
    }

    /// The number of sources.
    pub fn len(&self) -> (count: usize)
        ensures
            count == self@.len(),
    {
        self.sources.len()
    }

    /// Adds a source behind the others and returns its index.
    pub fn add(&mut self, source: BreathingSource) -> (index: usize)
        ensures
            index == old(self)@.len(),
            final(self)@ == old(self)@.push(source),
    {
        self.sources.push(source);
        self.sources.len() - 1
    }

    /// Adds an open-circuit source and returns its index.
    pub fn add_open_circuit(&mut self, gas: dive_deco::Gas) -> (index: usize)
        ensures
            index == old(self)@.len(),
            final(self)@ == old(self)@.push(BreathingSource::OpenCircuit(gas)),
    {
        self.add(BreathingSource::OpenCircuit(gas))
    }

    /// Adds a closed-circuit source and returns its index.
    pub fn add_closed_circuit(
        &mut self,
        setpoint: serde_json::Value,
        diluent: dive_deco::Gas,
    ) -> (index: usize)
        ensures
            index == old(self)@.len(),
            final(self)@ == old(self)@.push(BreathingSource::ClosedCircuit { setpoint, diluent }),
    {
        self.add(BreathingSource::ClosedCircuit { setpoint, diluent })
    }

    /// The source at an index; none beyond the last one.
    pub fn get(&self, index: usize) -> (source: Option<&BreathingSource>)
        ensures
            match source {
                Some(found) => source_at(self@, index as int) == Some(*found),
                None => source_at(self@, index as int) is None,
            },
    {
        if index < self.sources.len() {
            Some(&self.sources[index])
        } else {
            None
        }
    }

    /// The gases of the sources, one for each, in the order of their
    /// indices: what the engine may plan decompression stops on.
    pub fn gases(&self) -> (gases: Vec<dive_deco::Gas>)
        ensures
            gases@ == source_gases(self@),
    {
        let mut gases: Vec<dive_deco::Gas> = Vec::new();
        let mut i: usize = 0;
        while i < self.sources.len()
            invariant
                i <= self.sources@.len(),
                gases@ == source_gases(self@.take(i as int)),
            decreases self.sources@.len() - i,
        {
            gases.push(self.sources[i].gas());
            i += 1;
            assert(gases@ =~= source_gases(self@.take(i as int)));
        }
        assert(self@.take(i as int) =~= self@);
        gases
    }
}

} // verus!
