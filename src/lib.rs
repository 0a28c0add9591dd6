//! A small tool-invocation service speaking JSON-RPC over HTTP, with the
//! client side that drives a chat model through one round of tool use.

pub mod text;
pub mod periodic_table;
pub mod json;
pub mod registry;
pub mod gateway;
pub mod framing;
pub mod client;
pub mod orchestration;
