use vstd::prelude::*;

pub mod blockchain;
pub mod bytes;
pub mod decimal;
pub mod digest;
pub mod text;
pub mod ledger;
pub mod ledger_flex;
pub mod liquidity_pull;
pub mod onchain_request;
pub mod server_config;
pub mod settlement;

verus! {
}
