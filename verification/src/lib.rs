//! Telemetry acquisition and flight-phase classification for a virtual
//! air-traffic-control assistant.
//!
//! The library decodes simulator wire formats into a canonical snapshot,
//! merges samples under a field-level overwrite policy, and classifies a
//! stream of snapshots into discrete flight phases. Telemetry values are
//! kept as raw IEEE-754 bit patterns so that decoding is bit-exact and the
//! classification rules are proved against an integer model of the float
//! ordering. The surrounding application owns the sockets, threads and
//! helper process that feed these functions.

pub mod facade;
pub mod fbits;
pub mod flight_phase;
pub mod little_navmap;
pub mod model_manager;
pub mod msfs;
pub mod simulator;
pub mod store;
pub mod text;
