//! A layered-configuration provider that reads values from a worker
//! runtime's environment bindings.
//!
//! Given a target configuration shape's field names, the provider derives an
//! environment binding name for each field by upper-casing it, looks the
//! binding up first among plain variables and then among secrets, and files
//! the values it found under a configuration profile, ready for a
//! configuration-merging pipeline to combine with other sources.

pub mod env;
pub mod figment_api;
pub mod laws;
pub mod names;
pub mod provider;
