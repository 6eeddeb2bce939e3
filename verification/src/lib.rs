//! Conversion between a loosely-typed wire representation of ledger messages
//! and a strictly validated internal transaction model, plus the one-way
//! rendering of read-model query results back into wire response records.

pub mod address;
pub mod bech32codec;
pub mod dto;
pub mod error;
pub mod hexcodec;
pub mod laws;
pub mod model;
pub mod trytes;
