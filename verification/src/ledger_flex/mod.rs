//! Ledger hardware wallet protocol: APDU commands, USB HID framing and the signing exchange.
use vstd::prelude::*;

pub mod commands;
pub mod error;
pub mod signer;
pub mod transport;

verus! {
}
