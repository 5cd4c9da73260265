//! Receiving side of a federated, server-to-server activity exchange.
//!
//! A remote server posts a signed activity to the inbox of this server.
//! This crate holds the rules by which such a request is admitted:
//! the URL and domain guards, the resolution of remote identifiers under a
//! per-request fetch budget, the contract every activity kind fulfils, and
//! the inbox state machine that strings these together.
//!
//! The crate performs no I/O. Where a fetch, the cryptographic check of a
//! signature or a delivery is needed the state machine hands out an
//! [`inbox::Action`] and is resumed with the outcome.
//!
//! - [`url`], [`utils`], [`instance`]: URLs and the guards on them.
//! - [`request`], [`object_id`]: the fetch budget of a request and the
//!   resolution of references under it.
//! - [`traits`]: what an application supplies.
//! - [`protocol`], [`inbox`], [`signatures`]: the state machine, as a
//!   model over plain values and as the code that runs it.
//! - [`invariants`]: what holds of every request.
//! - [`json`]: JSON documents as activities and objects are read from
//!   them.
//! - [`person`], [`database`], [`activities`]: an actor kind, a store and
//!   two activity kinds to begin with.

pub mod activities;
pub mod database;
pub mod error;
pub mod inbox;
pub mod instance;
pub mod invariants;
pub mod json;
pub mod object_id;
pub mod person;
pub mod protocol;
pub mod request;
pub mod signatures;
pub mod traits;
pub mod url;
pub mod utils;

