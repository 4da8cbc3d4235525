//! The messages of an app server and of its multiplayer sessions.
//!
//! * [`jsonrpc_lite`] has the JSON-RPC messages and reads and writes them as JSON
//!   values; [`jsonrpc_laws`] has what holds of that as a whole, [`jsonrpc_fields`] where
//!   each field stands, and [`wire`] looks at their texts for fields that occur twice.
//! * [`session`] is a multiplayer session: who may join, and the transcript.
//!   [`socket`] is the course of one participant's connection, over the
//!   [`messages`] that travel on it.
//! * The rest is what those are made of.

pub mod decimal;
pub mod history;
pub mod json;
pub mod jsonrpc_fields;
pub mod jsonrpc_laws;
pub mod jsonrpc_lite;
pub mod messages;
pub mod names;
pub mod page;
pub mod quoting;
pub mod record;
pub mod session;
pub mod socket;
pub mod text;
pub mod transcript;
pub mod wire;
