//! Resolution pipeline for obtaining prebuilt binaries of a package.
//!
//! Given a package name and an optional version constraint, the library
//! decides how the package should be installed: fetch a prebuilt artifact
//! from one of several backends, fall back to building from source, or do
//! nothing because the installed version is already current.  All network
//! and filesystem work is left to the caller; the library provides the
//! verified decision logic that drives it.

pub mod bins;
pub mod engine;
pub mod errors;
pub mod manifest;
pub mod matrix;
pub mod meta;
pub mod version;
pub mod views;
