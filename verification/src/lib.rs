//! Reserves of an automated-market-maker liquidity pool, computed from one
//! batched read of the pool's accounts.
//!
//! A pool holds two tokens, a quote token ("pc") and a base token ("coin"),
//! in two vaults. A pool whose mode permits it also trades on an order book
//! venue and keeps part of its funds there. A query reads seven accounts,
//! decodes them and returns what the pool holds for its liquidity
//! providers, together with the liquidity supply and the swap fee:
//!
//! - [`accounts`]: the seven addresses to read and the answer to the read;
//! - [`pool`], [`token`], [`venue`]: the records in the accounts' data;
//! - [`status`]: the pool's operating modes;
//! - [`authority`]: the address that owns a pool's open orders;
//! - [`calculator`]: the reserves from the decoded records;
//! - [`query`]: the query itself;
//! - [`laws`]: what holds of every query.
//!
//! The library reads no ledger: its caller does, and hands over the bytes.
//! Three calls leave the verified code, each behind a private function
//! whose contract is stated and not proved: the unpacking of a token
//! account, the reading of a pool's state record and the derivation of a
//! program's address.

pub mod accounts;
pub mod address;
pub mod authority;
pub mod bytes;
pub mod calculator;
pub mod error;
pub mod laws;
pub mod pool;
pub mod query;
pub mod status;
pub mod token;
pub mod venue;

use vstd::prelude::*;

verus! {

/// The number of basis points in a whole.
pub const TEN_THOUSAND: u64 = 10000;

} // verus!
