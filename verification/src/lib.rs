//! Query execution adapter for a TypeDB transaction channel.
//!
//! The adapter turns each of the six query operations into a request for the
//! channel and turns what the channel returns into the result of the
//! operation. It performs no I/O: a caller takes the request out of a
//! prepared call, carries it over the channel, and hands the reply back.
//!
//! - `operation`: the operations and their dispatch modes.
//! - `message`: request and response envelopes.
//! - `error`: the errors a call can end in.
//! - `envelope`: unwrapping of the two nested unions of a reply.
//! - `answers`: what a stream of response parts amounts to.
//! - `query`: the query manager and the calls it prepares.
//! - `laws`: what holds of every call.

pub mod answers;
pub mod envelope;
pub mod error;
pub mod laws;
pub mod message;
pub mod operation;
pub mod query;
