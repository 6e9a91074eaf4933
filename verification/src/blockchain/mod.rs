//! Supported chains, their configuration, and on-chain settlement decisions.
use vstd::prelude::*;

pub mod ethereum;
pub mod networks;
pub mod provider;
pub mod transfer;
pub mod tron;
pub mod tx_builder;


verus! {
}
