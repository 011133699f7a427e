//! State-transition engine for a social/content platform whose durable state
//! lives in fixed-capacity persistent records addressed by account handles
//! and owned by a single controlling program.
//!
//! One invocation decodes an instruction payload into one member of a closed
//! operation set, resolves and validates the supplied account handles,
//! applies a deterministic mutation to the decoded entities — for a
//! purchase, a balance transfer together with an append to the content's
//! history — and re-encodes the result into the same fixed-capacity
//! storage. Validation runs in full before any write, so an invocation
//! either returns every updated record or the first error and no record.
//!
//! The crate is organised bottom-up: [`errors`] defines the closed error
//! set, [`wire`] the byte-level primitives of the record layout,
//! [`entities`] the entity types and their views, [`codec`] the per-entity
//! encoders and decoders with their round-trip proofs, [`instruction`] the
//! operation payload and its codec, [`account`] the account handles and the
//! record-store adapter, [`handlers`] the per-operation validation and
//! mutation rules, and [`engine`] the dispatcher, proved to agree with its
//! specification-level transition function on every input.

pub mod account;
pub mod codec;
pub mod engine;
pub mod entities;
pub mod errors;
pub mod handlers;
pub mod instruction;
pub mod wire;
