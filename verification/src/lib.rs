//! Typed records exchanged with a driving simulator and the codec that turns
//! them into schemaless wire values and back.
//!
//! Every record kind is described by a schema: an ordered list of named,
//! typed fields. One generic codec encodes a record to a wire map with one
//! entry per field and decodes a wire map back, looking fields up by name and
//! rejecting missing, ill-typed and surplus entries.
pub mod scalar;
pub mod wire;
pub mod schema;
pub mod error;
pub mod codec;
pub mod proofs;
pub mod record;
pub mod types;
pub mod request;
