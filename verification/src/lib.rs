//! Zetro: a schema-driven code generator for a compact RPC framework.
//!
//! A declarative JSON schema describing data structures, enumerations and
//! remote procedures ("routes") is lifted into a typed intermediate
//! representation, validated, and emitted as ready-to-compile Rust or
//! TypeScript source that speaks a minimal array-based wire protocol in
//! which routes are identified by opaque HMAC-derived tokens.

pub mod text;
pub mod errors;
pub mod json;
pub mod fields;
pub mod structs;
pub mod enums;
pub mod routes;
pub mod schema;
pub mod cli;
pub mod gen_rust;
pub mod gen_warp;
pub mod gen_ts;
pub mod gen_ts_client;
pub mod chat;
pub mod laws;
