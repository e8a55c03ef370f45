//! Configurable random string generation.
//!
//! A [`RandomStringGenerator`] holds a count, a length and three inclusion
//! toggles. Its `generate` method derives the eligible ASCII character pool
//! from the toggles and samples characters uniformly with replacement to
//! produce the requested batch of strings, or reports a validation error.

pub mod chars;
pub mod generator;
mod rng;

pub use chars::build_pool;
pub use chars::char_allowed;
pub use generator::default_config;
pub use generator::valid_batch;
pub use generator::RandomStringGenerator;
pub use generator::ValidationError;
