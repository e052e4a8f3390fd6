//! Transaction assembly for a hot/cold delegated-voting contract on Cardano.
//!
//! The library builds fully priced governance transactions: it models
//! multi-asset values, encodes quorum rules into data terms, constructs the
//! script-integrity commitment, composes transaction bodies for each
//! governance operation, and drives the fee / execution-unit fixed-point
//! search until the transaction is self-consistent.

pub mod bridge;
pub mod compose;
pub mod engine;
pub mod error;
pub mod hexcode;
pub mod integrity;
pub mod ops;
pub mod params;
pub mod parse;
pub mod rules;
pub mod tx;
pub mod value;
