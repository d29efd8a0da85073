//! Brute-force search for human-readable function signatures whose 4-byte
//! Keccak-256 selector matches a target value.
//!
//! The search repeatedly samples a random ordered subset of a word
//! dictionary, joins the words into a camelCase function name, appends a
//! fixed argument-type list, hashes the resulting signature, and records
//! every selector seen so far in a deduplicating registry.  A signature
//! whose selector equals the caller-supplied target ends the search.

pub mod driver;
pub mod flags;
pub mod formatter;
pub mod hasher;
pub mod registry;
pub mod sampler;

pub use driver::ConfigError;
pub use driver::FunctionData;
pub use driver::SearchOutcome;
pub use driver::StepOutcome;
pub use driver::run_search;
pub use driver::search_step;
pub use driver::MAX_ITER_COUNT;
pub use flags::RakeBuilder;
pub use flags::RakeFlags;
pub use formatter::format_signature;
pub use hasher::selector_of;
pub use registry::DedupRegistry;
pub use registry::InsertOutcome;
pub use sampler::sample_candidate;
