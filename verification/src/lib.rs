//! A verified core for a network-probe metrics exporter.
//!
//! On each probe request the surrounding service runs an external bandwidth
//! measurement tool, parses its JSON result into a typed model, and renders
//! the model as a text exposition of labeled gauges. This crate holds the
//! verified pipeline: request defaults and argument building, single-flight
//! gating, all-or-nothing payload parsing, and deterministic translation to
//! the exposition text. Process spawning and the HTTP surface live outside.

pub mod gate;
pub mod jsonval;
pub mod model;
pub mod parse;
pub mod runner;
pub mod translate;

pub use gate::ProbeGate;
pub use model::{IperfResult, DirectionStats, ProbeRequest, ProbeError};
pub use model::{default_bitrate, default_duration};
pub use parse::parse_payload;
pub use runner::{build_args, interpret_outcome, respond, SpawnOutcome};
pub use translate::MetricObservation;
