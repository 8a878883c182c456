//! Output-encoding adapters for blockchain-domain values inside a
//! debug/trace RPC response: 256-bit hashes, 256-bit unsigned integers and
//! raw byte buffers are rendered into the wire primitives (strings, a u64,
//! sequences of strings) that Ethereum-compatible JSON-RPC consumers expect.
//!
//! Every adapter is a total, stateless function: a value that cannot be
//! represented (a non-UTF-8 text buffer, an integer above 64 bits) degrades
//! to a defined fallback instead of failing the surrounding encode.

pub mod hash;
pub mod hexfmt;
pub mod numeric;
pub mod text;
