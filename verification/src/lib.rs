//! A self-updating installer for a single released binary.
//!
//! The update is a linear pipeline: look up the latest release of a fixed
//! repository, compare its name against a locally stored version marker,
//! download a fixed-name compressed asset when an update is needed,
//! decompress it into the install path, and record the new version.
//!
//! This crate holds the verified decisions and data of that pipeline: the
//! release and asset model, the version gate, asset selection, the gzip
//! decompression step, and the bookkeeping of the local install state.
//! The surrounding process performs the network and file operations and
//! feeds their outcomes in as plain values.

pub mod config;
pub mod errors;
pub mod install;
pub mod local;
pub mod plan;
pub mod release;
