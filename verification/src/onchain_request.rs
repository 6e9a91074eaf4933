//! Defaults of an on-chain settlement request.
use vstd::prelude::*;
use crate::text::owned;

verus! {

/// The asset, audit hash and token id of an on-chain request: the asset is
/// `asset`, else `currency`, else `USDT`; a missing audit hash or token id is
/// `N/A`.
pub fn resolve_onchain_fields(
    asset: Option<String>,
    currency: Option<String>,
    audit_hash: Option<String>,
    token_id: Option<String>,
) -> (r: (String, String, String))
    ensures
        r.0@ == match (asset, currency) {
            (Some(a), _) => a@,
            (None, Some(c)) => c@,
            (None, None) => "USDT"@,
        },
        r.1@ == match audit_hash {
            Some(h) => h@,
            None => "N/A"@,
        },
        r.2@ == match token_id {
            Some(t) => t@,
            None => "N/A"@,
        },
{
    let asset = match asset {
        Some(a) => a,
        None => match currency {
            Some(c) => c,
            None => owned("USDT"),
        },
    };
    let audit_hash = match audit_hash {
        Some(h) => h,
        None => owned("N/A"),
    };
    let token_id = match token_id {
        Some(t) => t,
        None => owned("N/A"),
    };
    (asset, audit_hash, token_id)
}

} // verus!
