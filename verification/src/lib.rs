//! A verified transaction builder for issuing a new fungible asset on a
//! Solana-style ledger.
//!
//! One issuance attempt runs through a fixed pipeline: validate the request,
//! derive the deterministic metadata and holder addresses, sequence the
//! ledger operations in their mandatory order, assemble and sign one atomic
//! transaction, drive submission to a terminal outcome, and map that outcome
//! into the caller-facing result record.  The sequencing rules, the address
//! determinism, the submission protocol and the result mapping are stated as
//! contracts and proved; the ledger SDK calls themselves stand behind a small
//! set of trusted wrappers in `ledger`.

pub mod error;
pub mod instructions;
pub mod ledger;
pub mod network;
pub mod params;
pub mod pipeline;
pub mod report;
pub mod submit;
