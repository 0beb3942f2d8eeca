//! Quotes against a snapshot of a Phoenix order-book market.
//!
//! The crate decodes a market account (a fixed header followed by a body whose
//! shape the header selects) into [`MarketMetadata`] and a [`LadderSnapshot`],
//! and simulates a marketable order walking that snapshot. Every function is
//! verified against a mathematical model of the bytes and of the walk; none
//! panics, whatever bytes it is given.
//!
//! - [`layout`], [`header`], [`book`], [`bytes`]: from account bytes to values
//! - [`metadata`], [`ladder`]: the values and their invariants
//! - [`quote`]: the walk of the book and the fee
//! - [`swap`], [`program`]: the accounts of a swap instruction
//! - [`amm`]: the adapter that ties them together
//! - [`laws`], [`symmetry`]: what holds of all of it
pub mod address;
pub mod amm;
pub mod book;
pub mod bytes;
pub mod error;
pub mod header;
pub mod ladder;
pub mod laws;
pub mod layout;
pub mod metadata;
pub mod program;
pub mod quote;
pub mod swap;
pub mod symmetry;

pub use address::Address;
pub use amm::{JupiterPhoenix, KeyedAccount, Quote, QuoteParams};
pub use error::QuoteError;
pub use header::MarketHeader;
pub use ladder::{LadderSnapshot, PriceLevel};
pub use layout::{MarketLayout, MarketSizeParams};
pub use metadata::MarketMetadata;
pub use swap::{AccountMeta, Side, Swap, SwapAndAccountMetas, SwapParams};
