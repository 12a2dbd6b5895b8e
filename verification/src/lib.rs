//! Request handling, expiration parsing and record planning for a small
//! key/value store kept in a hosted KV namespace.

pub mod text;
pub mod time_delta;
pub mod duration_helper;
pub mod kv;
pub mod store;
pub mod handler;
pub mod terms;

