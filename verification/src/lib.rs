//! Bridge between a sandboxed contract and the host's cross-consensus messaging.
//!
//! A contract names one of six commands by number and passes a payload. The
//! bridge decodes the payload, stages work in a session of two lanes, meters
//! what the work costs, and answers with a status code and, where the command
//! has one, an output.
//!
//! - [`command`]: the six commands and their numbers.
//! - [`error`]: the failures and their status codes, on the host's side and
//!   on the contract's.
//! - [`weight`] and [`meter`]: the two-dimensional cost and the caller's budget.
//! - [`codec`]: the wire format, over the message codec of the host.
//! - [`host`]: what the executor and the query store report back.
//! - [`chain_ext`]: the session and the dispatch of the commands.
//! - [`laws`]: what holds of the bridge across calls.
//! - [`contract_utils`]: the metadata of a compiled contract.

pub mod chain_ext;
pub mod codec;
pub mod command;
pub mod contract_utils;
pub mod error;
pub mod host;
pub mod laws;
pub mod meter;
pub mod weight;
