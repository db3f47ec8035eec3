//! Structured, schema-versioned domain events for off-chain consumers.
//!
//! A business operation reports what happened through one emission helper.
//! The helper lays the occurrence out twice, as a standardized envelope and
//! as a record in the older positional format, and publishes both on the
//! channel of the execution context, the envelope first.
//!
//! - [`topics`]: the registry of event kinds and metadata keys.
//! - [`symbol`]: the texts that can be interned.
//! - [`value`], [`metadata`]: the typed values of an event and their keyed
//!   copy.
//! - [`envelope`], [`records`]: the records that are published.
//! - [`context`]: the identity, the clock and the channel of a unit of work.
//! - [`layout`]: the field layout of every event kind.
//! - [`emitter`]: the emission helpers.
//! - [`schema`]: schema versions, compatibility and migration paths.
//! - [`host`], [`encoding`]: the events as values of the Soroban host.
//! - [`laws`]: what holds of the library as a whole.

pub mod context;
pub mod emitter;
pub mod encoding;
pub mod envelope;
pub mod error;
pub mod host;
pub mod laws;
pub mod layout;
pub mod metadata;
pub mod records;
pub mod schema;
pub mod symbol;
pub mod topics;
pub mod value;
