//! A minimal package installer core: manifests fetched from remote sources
//! are resolved against a package reference (a name, optionally with an
//! explicit version), and the selected version entry's binary is planned for
//! installation with executable permissions.
//!
//! The decision logic lives here, fully verified: reference parsing, the
//! resolution algorithm, the source-priority aggregation, the diagnostics
//! produced when resolution fails, and the planned install file state.
//! Network and filesystem effects are performed by the surrounding
//! application, which hands this crate plain values.

pub mod search;
pub mod manifest;
pub mod resolve;
pub mod diagnostics;
pub mod aggregate;
pub mod install;
pub mod sources;
pub mod json;
