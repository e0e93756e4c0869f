//! Discrete state of the hair-cutting simulator: strands, their active
//! lengths and how a cut splits them, debris segments, step summaries,
//! configuration rules and the message types of the broker interface.
//!
//! Every type is generic over the vector type `V` that positions and
//! velocities are written in; the floating-point geometry lives with that
//! vector type, outside this crate.

pub mod config;
pub mod debris;
pub mod hair;
pub mod mqtt;
pub mod script;
pub mod simulation;

pub use config::{check_config, ConfigChecks, ConfigError};
pub use debris::{DebrisPoint, DebrisSegment};
pub use hair::{HairNode, HairRoot, HairStrand};
pub use mqtt::{PublishPacket, QoS};
pub use script::{CutLine, RasterSweep};
pub use simulation::StepSummary;
