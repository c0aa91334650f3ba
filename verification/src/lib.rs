//! Build metadata resolved from the enclosing git repository at build time.
//!
//! The resolver opens the repository that encloses a starting directory,
//! reads the short name of its head reference, computes a describe-style
//! identifier for the current commit (nearest reachable tag, with a short
//! commit id as fallback), and records the wall-clock time of the first
//! resolution as a UTC RFC 3339 string.  A [`metadata::MetadataCell`]
//! memoizes one resolution so that every later read observes the same
//! three values.
//!
//! The failure policy is strict: any step that cannot be completed yields
//! a [`metadata::ResolveError`] naming the step, and no partial record is
//! ever produced.

pub mod clock;
pub mod metadata;
pub mod repo;
pub mod rfc3339;

pub use metadata::BuildMetadata;
pub use metadata::MetadataCell;
pub use metadata::ResolveError;
pub use metadata::resolve;
pub use rfc3339::ClockParts;
