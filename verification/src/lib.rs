//! Discovery and lifecycle engine for a fleet of locally running container
//! environments and shared infrastructure services.
//!
//! Truth about the fleet is derived entirely from the container runtime's
//! live state: raw tabular listing output is parsed into records, each record
//! is classified by naming convention as an infrastructure service or as a
//! component of a named application environment, published ports are decoded
//! from the runtime's port-mapping strings, and grouped start/stop operations
//! are planned from name filters.  All external processes (the runtime CLI,
//! network probes) are driven by an unverified shell around this crate: the
//! functions here take the observed outputs as plain values and are verified
//! to classify, decode, and decide correctly on every such input.
#![verifier::loop_isolation(false)]

pub mod classify;
pub mod discovery;
pub mod lifecycle;
pub mod models;
pub mod ports;
pub mod setup;
pub mod text;
