//! The core of a signed REST client for the private API of the OKX
//! exchange: account balances, sub-account balances, transfers between
//! accounts and withdrawals.
//!
//! The library decides what is sent and what an answer means. It builds the
//! URL of a call, the text that is signed, the signature and the headers,
//! and hands out a request that is ready to be sent; it reads the envelope
//! of an answer, and it steers the two operations that make one call after
//! another. It opens no connection: sending a prepared request and decoding
//! the bytes of an answer are left to the caller.
//!
//! Every function is verified against its contract. A few primitives are
//! computed by outside crates and believed to meet the contracts written
//! for them here: HMAC-SHA256 and Base64 ([`mac`]), URL parsing ([`url`]),
//! JSON writing ([`json`]), the header map ([`headers`]) and the clock
//! ([`clock`]).

pub mod balances;
pub mod clock;
pub mod constants;
pub mod credentials;
pub mod endpoints;
pub mod error;
pub mod headers;
pub mod json;
pub mod mac;
pub mod method;
pub mod okx;
pub mod schemas;
pub mod sweep;
pub mod text;
pub mod transfers;
pub mod url;
