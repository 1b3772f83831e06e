//! Request decoding and command dispatch for a RESP-like key-value protocol.

pub mod cmd;
pub mod decimal;
pub mod error;
pub mod frame;
pub mod parse;
pub mod store;
pub mod text;
