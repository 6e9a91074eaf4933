//! Decisions of TRON settlement.
use vstd::prelude::*;
use crate::blockchain::ethereum::approval_reason;
use crate::ledger::ValidationResult;
use crate::text::owned;

verus! {

/// The record of a TRON settlement.
#[derive(Debug, Clone)]
pub struct OnChainResult {
    pub tx_hash: String,
    pub network: String,
    pub status: String,
    pub validation_status: String,
    pub validation_reason: Option<String>,
}

/// The result of an approved TRON settlement: network `tron`, status
/// `mocked`, validation `approved` with the validation's reason (`OK` when it
/// gave none).
pub fn approved_result(tx_hash: String, validation: &ValidationResult) -> (r: OnChainResult)
    ensures
        r.tx_hash@ == tx_hash@,
        r.network@ == "tron"@,
        r.status@ == "mocked"@,
        r.validation_status@ == "approved"@,
        r.validation_reason matches Some(m) && m@ == match validation.reason {
            Some(v) => v@,
            None => "OK"@,
        },
{
    OnChainResult {
        tx_hash,
        network: owned("tron"),
        status: owned("mocked"),
        validation_status: owned("approved"),
        validation_reason: Some(approval_reason(validation)),
    }
}

} // verus!
