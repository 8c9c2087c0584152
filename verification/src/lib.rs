//! Fair-launch token economy: anyone trades a token against one price curve
//! until the supply reaches its cap; then what was raised and the tokens are
//! locked for good in a pool that serves constant-product swaps.
//!
//! Three actors keep the state, each its own, and talk by one-way messages
//! that may arrive more than once:
//!
//! - the registry of launches ([`factory`], [`validation`]),
//! - the ledger of one token ([`token`], [`trading`], [`operations`],
//!   [`payments`]), priced by the curve of [`bonding_curve`],
//! - the pool actor ([`pool`], [`swap`], [`swapping`]).
//!
//! What each actor answers when asked is in [`registry_queries`],
//! [`token_queries`] and [`pool_queries`], in the forms of [`views`].
//! Numbers are 256 bits wide ([`uint256`]); the native currency and the
//! identifiers of the chain are plain values ([`amount`], [`identifiers`]).
//!
//! Every function is verified against its contract: an operation either
//! takes effect as its contract says or refuses and changes nothing, and no
//! number overflows unnoticed.

pub mod amount;
pub mod bonding_curve;
pub mod collections;
pub mod factory;
pub mod identifiers;
pub mod listing;
pub mod operations;
pub mod payments;
pub mod pool;
pub mod pool_queries;
pub mod registry_queries;
pub mod samples;
pub mod swap;
pub mod swapping;
pub mod text;
pub mod token;
pub mod token_queries;
pub mod trading;
pub mod types;
pub mod uint256;
pub mod validation;
pub mod views;
