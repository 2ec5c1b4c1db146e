//! Provisioning, installation, supervision and gating logic for a locally-run
//! inference runtime.
//!
//! The library holds the decision logic: which archive variant to fetch for a
//! host, how a download proceeds and when it may be skipped, the
//! platform-specific install procedure, how the probed version output is
//! normalized, the singleton process supervisor, and the gating of generation
//! and model-pull requests. All network, filesystem and process work is done
//! by an unverified driver that feeds events into these state machines.

pub mod adapter;
pub mod appdir;
pub mod builder;
pub mod download;
pub mod error;
pub mod install;
pub mod platform;
pub mod progress;
pub mod supervisor;
pub mod variant;
pub mod version;
