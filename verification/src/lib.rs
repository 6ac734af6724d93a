//! A stateful bridge between callers that hold plain values and a
//! decompression engine.
//!
//! The bridge keeps one dive session at most and a registry of breathing
//! sources. Callers start a dive, add sources, record what the diver does,
//! and ask: for the no-decompression limit, the ceiling, the oxygen load, a
//! decompression schedule, or all of it at once. Every answer is JSON text in
//! a string that can cross a C boundary.
//!
//! The engine computes in floating point and is called, not proved. Where
//! it simulates a dive, the caller of the bridge calls it, on what the
//! bridge hands out, and hands the bridge what came of it. What is proved is
//! the bridge's own part: which operation changes what, when an operation
//! is refused, how indices are given out, what the engine is handed, and
//! how the answers are written.

pub mod answers;
pub mod boundary;
pub mod bridge;
pub mod config;
pub mod engine;
pub mod json;
pub mod laws;
pub mod registry;

pub use bridge::{
    println_c_string, AddBreathingSourceClosedCircuit, AddBreathingSourceOpenCircuit, Bridge,
    CalculateDeco, CreateNewDive, FreeCString, GetBreathingSourceConfig, GetCns,
    GetCompleteDiveState, GetCurrentCeiling, GetCurrentNDL, GetOtu, GetSupersaturation,
    RecordDiveSegment, RecordOutcome, RecordTravel, RecordTravelWithRate, Segment, Step,
};
