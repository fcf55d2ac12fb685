//! Resolve the location of an application's configuration file.
//!
//! The resolver probes a fixed, ordered list of candidate paths — an
//! environment-variable override first, then a sequence of conventional
//! per-platform directories — and loads the first file that exists.
//! This crate holds the verified core: candidate-path construction,
//! home-directory expansion, and the probing state machine with its
//! error taxonomy. Reading the environment and the filesystem is left
//! to the embedding application, which feeds each probe's outcome back
//! into the state machine.

pub mod errors;
pub mod laws;
pub mod paths;
pub mod resolve;

pub use errors::Error;
pub use paths::candidate_paths;
pub use paths::expand_home;
pub use paths::override_var_name;
pub use resolve::Outcome;
pub use resolve::Resolution;
