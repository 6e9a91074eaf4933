//! Decisions of Ethereum settlement: what a validated request is recorded and
//! answered with, how a Ledger signature becomes a transaction hash, and how an
//! amount is scaled to token units.
use vstd::prelude::*;
use crate::blockchain::networks::Network;
use crate::decimal::{
    decimal_product, display_tail, display_text, exact_product, integer_part_text,
    lemma_display_parts, pow10, product_fits, signed_display, Amount,
};
use crate::digest::{hex_encode, hex_encoding, sha256, sha256_digest};
use crate::blockchain::tx_builder::{u256_limit, u256_value};
use crate::ledger::ValidationResult;
use crate::settlement::BAD_REQUEST;
use crate::text::{chars_of, decimal_text, digit_char, is_digit, lowercase, owned, push_str, same_text, string_of, to_lowercase,
    to_uppercase, uppercase};

verus! {

/// The record of an on-chain settlement.
#[derive(Debug, Clone)]
pub struct OnChainResult {
    pub tx_hash: String,
    pub network: String,
    pub status: String,
    pub validation_status: String,
    pub validation_reason: Option<String>,
    pub block_number: Option<u64>,
    pub gas_used: Option<String>,
    pub explorer_url: Option<String>,
}

/// The derivation path used when none is configured.
pub const DEFAULT_LEDGER_PATH: &'static str = "m/44'/60'/0'/0/0";

/// The reason recorded for a rejected request: the validation's reason, or
/// `rejected` when it gave none.
pub fn rejection_reason(validation: &ValidationResult) -> (r: String)
    ensures
        r@ == match validation.reason {
            Some(m) => m@,
            None => "rejected"@,
        },
{
    match &validation.reason {
        Some(m) => m.clone(),
        None => owned("rejected"),
    }
}

/// What a rejected request is written to the settlement log as.
#[derive(Debug, Clone)]
pub struct RejectionLog {
    pub tx_hash: String,
    pub status: String,
    pub validation_status: String,
    pub validation_reason: String,
}

/// The answer to a rejected request: its HTTP status and the fields of its
/// body.
#[derive(Debug, Clone)]
pub struct RejectionAnswer {
    pub http_status: u16,
    pub status: String,
    pub reason: String,
    pub channel: String,
    pub amount: String,
    pub currency: String,
}

/// The log entry of a rejected request: transaction hash `REJECTED`, status
/// and validation status `rejected`, and the rejection reason.
pub fn rejection_log(validation: &ValidationResult) -> (r: RejectionLog)
    ensures
        r.tx_hash@ == "REJECTED"@,
        r.status@ == "rejected"@,
        r.validation_status@ == "rejected"@,
        r.validation_reason@ == match validation.reason {
            Some(m) => m@,
            None => "rejected"@,
        },
{
    RejectionLog {
        tx_hash: owned("REJECTED"),
        status: owned("rejected"),
        validation_status: owned("rejected"),
        validation_reason: rejection_reason(validation),
    }
}

/// The answer to a request on `network` for `amount` of `asset` that
/// validation rejected: 400, status `rejected`, the rejection reason, and the
/// channel, amount (as `Decimal` displays it, a negative zero with its sign)
/// and currency of the request.
pub fn rejection_answer(network: &str, amount: &Amount, asset: &str, validation: &ValidationResult) -> (r:
    RejectionAnswer)
    ensures
        r.http_status == BAD_REQUEST,
        r.status@ == "rejected"@,
        r.reason@ == match validation.reason {
            Some(m) => m@,
            None => "rejected"@,
        },
        r.channel@ == network@,
        r.amount@ == signed_display(amount.parts(), amount.is_negative_zero()),
        r.currency@ == asset@,
{
    RejectionAnswer {
        http_status: BAD_REQUEST,
        status: owned("rejected"),
        reason: rejection_reason(validation),
        channel: owned(network),
        amount: amount.to_text(),
        currency: owned(asset),
    }
}

/// The reason recorded for an approved request: the validation's reason, or
/// `OK` when it gave none.
pub fn approval_reason(validation: &ValidationResult) -> (r: String)
    ensures
        r@ == match validation.reason {
            Some(m) => m@,
            None => "OK"@,
        },
{
    match &validation.reason {
        Some(m) => m.clone(),
        None => owned("OK"),
    }
}

/// Whether Ledger signing is enabled by the value of `LEDGER_ENABLED`: it is
/// when the value, lowercased, is `true` (unset counts as `false`).
pub fn ledger_enabled_from(value: Option<String>) -> (r: bool)
    ensures
        r == match value {
            Some(v) => lowercase(v@) == "true"@,
            None => false,
        },
{
    match value {
        Some(v) => {
            let lowered = to_lowercase(v.as_str());
            same_text(&lowered, "true")
        },
        None => false,
    }
}

/// The derivation path from the value of `LEDGER_DERIVATION_PATH`, or the
/// first Ethereum account's path when unset.
pub fn ledger_path_from(value: Option<String>) -> (r: String)
    ensures
        r@ == match value {
            Some(v) => v@,
            None => DEFAULT_LEDGER_PATH@,
        },
{
    match value {
        Some(v) => v,
        None => owned(DEFAULT_LEDGER_PATH),
    }
}

/// Whether the transaction hash of an approved settlement comes from a Ledger
/// signature: signing is enabled and the device signed.
pub fn ledger_signed(ledger_enabled: bool, ledger_outcome: &Option<Result<String, String>>) -> (r:
    bool)
    ensures
        r == (ledger_enabled && ledger_outcome matches Some(Ok(_))),
{
    if ledger_enabled {
        match ledger_outcome {
            Some(Ok(_)) => true,
            _ => false,
        }
    } else {
        false
    }
}

/// The status of an approved settlement: `signed` when its hash comes from a
/// Ledger signature, else `mocked`.
pub fn signing_status(signed_by_ledger: bool) -> (r: &'static str)
    ensures
        r@ == if signed_by_ledger {
            "signed"@
        } else {
            "mocked"@
        },
{
    if signed_by_ledger {
        "signed"
    } else {
        "mocked"
    }
}

/// The result of an approved settlement on `network` with transaction hash
/// `tx_hash`; `signed_by_ledger` tells whether that hash comes from a Ledger
/// signature (see `ledger_signed`) rather than a mock.
pub fn approved_result(network: &str, tx_hash: String, signed_by_ledger: bool, validation: &ValidationResult) -> (r: OnChainResult)
    ensures
        r.tx_hash@ == tx_hash@,
        r.network@ == network@,
        r.status@ == (if signed_by_ledger {
            "signed"@
        } else {
            "mocked"@
        }),
        r.validation_status@ == "approved"@,
        r.validation_reason matches Some(m) && m@ == match validation.reason {
            Some(v) => v@,
            None => "OK"@,
        },
        r.block_number is None,
        r.gas_used is None,
        r.explorer_url is None,
{
    OnChainResult {
        tx_hash,
        network: owned(network),
        status: owned(signing_status(signed_by_ledger)),
        validation_status: owned("approved"),
        validation_reason: Some(approval_reason(validation)),
        block_number: None,
        gas_used: None,
        explorer_url: None,
    }
}

/// The transaction hash derived from a Ledger signature: `0x` and the
/// lowercase hex of the signature's SHA-256.
pub fn tx_hash_from_signature(signature: &[u8]) -> (r: String)
    ensures
        r@ == "0x"@ + hex_encoding(sha256(signature@)),
{
    let digest = sha256_digest(signature);
    let mut r = owned("0x");
    let hex = hex_encode(digest.as_slice());
    push_str(&mut r, hex.as_str());
    r
}

/// The transaction hash of an approved settlement. With Ledger signing
/// enabled, `ledger_outcome` is what signing with the device gave (a hash, or
/// the reason it failed); on success that hash is used, and on failure, or
/// with signing disabled, the freshly generated `mock_hash` is used.
pub fn generate_transaction_hash(
    ledger_enabled: bool,
    ledger_outcome: Option<Result<String, String>>,
    mock_hash: String,
) -> (r: String)
    ensures
        r@ == match (ledger_enabled, ledger_outcome) {
            (true, Some(Ok(h))) => h@,
            _ => mock_hash@,
        },
{
    if ledger_enabled {
        match ledger_outcome {
            Some(Ok(h)) => h,
            _ => mock_hash,
        }
    } else {
        mock_hash
    }
}

/// A token that can be transferred.
#[derive(Debug, Clone, Copy, PartialEq, Eq, Structural)]
pub enum TokenKind {
    Usdt,
    Usdc,
}

/// The token an asset name stands for, ignoring case.
pub fn token_for_asset(asset: &str) -> (r: Option<TokenKind>)
    ensures
        r == if uppercase(asset@) == "USDT"@ {
            Some(TokenKind::Usdt)
        } else if uppercase(asset@) == "USDC"@ {
            Some(TokenKind::Usdc)
        } else {
            None::<TokenKind>
        },
{
    let upper = to_uppercase(asset);
    if same_text(&upper, "USDT") {
        Some(TokenKind::Usdt)
    } else if same_text(&upper, "USDC") {
        Some(TokenKind::Usdc)
    } else {
        None
    }
}

/// The reason an asset is refused: `Asset <asset> not supported`.
pub fn unsupported_asset_detail(asset: &str) -> (r: String)
    ensures
        r@ == "Asset "@ + asset@ + " not supported"@,
{
    let mut r = owned("Asset ");
    push_str(&mut r, asset);
    push_str(&mut r, " not supported");
    r
}

/// The text before the first `.` (all of it when there is none).
pub open spec fn before_dot(s: Seq<char>) -> Seq<char>
    decreases s.len(),
{
    if s.len() == 0 {
        s
    } else if s[0] == '.' {
        Seq::empty()
    } else {
        seq![s[0]] + before_dot(s.skip(1))
    }
}

fn text_before_dot(s: &str) -> (r: String)
    ensures
        r@ == before_dot(s@),
{
    let cs = chars_of(s);
    let mut i: usize = 0;
    assert(cs@.skip(0) == cs@);
    while i < cs.len() && cs[i] != '.'
        invariant
            i <= cs.len(),
            cs@ == s@,
            before_dot(s@) == cs@.take(i as int) + before_dot(cs@.skip(i as int)),
        decreases cs.len() - i,
    {
        assert(cs@.skip(i as int).skip(1) == cs@.skip(i + 1));
        assert(cs@.take(i + 1) == cs@.take(i as int) + seq![cs@[i as int]]);
        i = i + 1;
    }
    if i < cs.len() {
        assert(before_dot(cs@.skip(i as int)) =~= Seq::<char>::empty());
    } else {
        assert(cs@.skip(i as int) =~= Seq::<char>::empty());
    }
    assert(cs@.take(i as int) + Seq::<char>::empty() =~= cs@.take(i as int));
    let prefix = vstd::slice::slice_subrange(cs.as_slice(), 0, i);
    assert(prefix@ =~= cs@.take(i as int));
    string_of(prefix)
}

/// The decimal standing for `10^decimals`.
pub open spec fn scale_factor_parts(decimals: u32) -> (i128, u32) {
    (pow10(decimals as nat) as i128, 0u32)
}

/// The integer text of an amount in a token's base units: the amount times
/// `10^decimals`, as `Decimal` displays it, up to the decimal point.
pub open spec fn base_units_text(amount: (i128, u32), decimals: u32) -> Seq<char> {
    before_dot(display_text(decimal_product(amount, scale_factor_parts(decimals))->0))
}

/// The amount times `10^decimals`, truncated toward zero, as integer text.
pub open spec fn scaled_integer_text(amount: (i128, u32), decimals: u32) -> Seq<char> {
    integer_part_text(amount.0 * pow10(decimals as nat), amount.1 as nat)
}

proof fn lemma_decimal_text_no_dot(n: nat)
    ensures
        forall|i: int| 0 <= i < decimal_text(n).len() ==> #[trigger] decimal_text(n)[i] != '.',
    decreases n,
{
    if n >= 10 {
        lemma_decimal_text_no_dot(n / 10);
        assert(decimal_text(n) == decimal_text(n / 10).push(digit_char(n % 10)));
    }
}

proof fn lemma_before_dot_prefix(a: Seq<char>, b: Seq<char>)
    requires
        forall|i: int| 0 <= i < a.len() ==> #[trigger] a[i] != '.',
        b.len() == 0 || b[0] == '.',
    ensures
        before_dot(a + b) == a,
    decreases a.len(),
{
    if a.len() == 0 {
        assert(a + b =~= b);
    } else {
        lemma_before_dot_prefix(a.skip(1), b);
        assert((a + b).skip(1) =~= a.skip(1) + b);
        assert(seq![a[0]] + a.skip(1) =~= a);
    }
}

/// Where the scaled amount fits a `Decimal` exactly, its text before the
/// point is the amount times `10^decimals`, truncated toward zero.
proof fn lemma_base_units_exact(amount: (i128, u32), decimals: u32)
    requires
        product_fits(amount, scale_factor_parts(decimals)),
        decimal_product(amount, scale_factor_parts(decimals)) == Some(
            exact_product(amount, scale_factor_parts(decimals)),
        ),
        decimals <= 19,
    ensures
        base_units_text(amount, decimals) == scaled_integer_text(amount, decimals),
{
    let f = scale_factor_parts(decimals);
    let p = exact_product(amount, f);
    lemma_pow10_bound_any(decimals as nat);
    assert(f.0 == pow10(decimals as nat));
    lemma_display_parts(p);
    reveal_strlit("0");
    reveal_strlit("-");
    reveal_strlit("");
    reveal_strlit(".");
    let ip = integer_part_text(p.0 as int, p.1 as nat);
    let m = amount.0 * pow10(decimals as nat);
    let n: nat = if p.0 < 0 {
        (-p.0) as nat
    } else {
        p.0 as nat
    };
    lemma_decimal_text_no_dot(n / (pow10(p.1 as nat) as nat));
    assert forall|i: int| 0 <= i < ip.len() implies #[trigger] ip[i] != '.' by {
        if p.0 < 0 {
            if i > 0 {
                assert(ip[i] == ip.skip(1)[i - 1]);
            }
        }
    }
    lemma_before_dot_prefix(ip, display_tail(p));
    if m == 0 {
        crate::decimal::lemma_pow10_positive(amount.1 as nat);
        assert(scaled_integer_text(amount, decimals) =~= ""@ + "0"@);
        assert(ip =~= ""@ + "0"@);
    }
}

proof fn lemma_pow10_bound_any(n: nat)
    requires
        n <= 19,
    ensures
        pow10(n) <= 10_000_000_000_000_000_000,
        pow10(n) as i128 == pow10(n),
{
    crate::decimal::lemma_pow10_positive(n);
    if n < 19 {
        lemma_pow10_bound(n);
    } else {
        reveal_with_fuel(pow10, 20);
    }
}

/// `10^decimals` as a decimal.
fn scale_factor(decimals: u32) -> (r: Amount)
    requires
        decimals <= 19,
    ensures
        r.parts() == scale_factor_parts(decimals),
{
    let mut p: u64 = 1;
    let mut i: u32 = 0;
    while i < decimals
        invariant
            i <= decimals <= 19,
            p == pow10(i as nat),
            p <= 10_000_000_000_000_000_000u64,
        decreases decimals - i,
    {
        assert(pow10((i + 1) as nat) == 10 * pow10(i as nat));
        assert(p * 10 <= 10_000_000_000_000_000_000u64 * 10) by (nonlinear_arith)
            requires
                p <= 10_000_000_000_000_000_000u64,
        ;
        proof {
            lemma_pow10_bound(i as nat);
        }
        p = p * 10;
        i = i + 1;
    }
    Amount::from_integer_u64(p)
}

proof fn lemma_pow10_bound(n: nat)
    requires
        n < 19,
    ensures
        pow10(n) <= 1_000_000_000_000_000_000,
{
    lemma_pow10_monotone(n, 18);
    reveal_with_fuel(pow10, 19);
}

proof fn lemma_pow10_monotone(a: nat, b: nat)
    requires
        a <= b,
    ensures
        pow10(a) <= pow10(b),
    decreases b,
{
    if a < b {
        lemma_pow10_monotone(a, (b - 1) as nat);
        crate::decimal::lemma_pow10_positive((b - 1) as nat);
    }
}

/// The integer text of `amount` in base units of a token with `decimals`
/// decimals (the text parsed into the transfer amount).
pub fn base_units_integer_text(amount: &Amount, decimals: u32) -> (r: String)
    requires
        decimals <= 19,
        decimal_product(amount.parts(), scale_factor_parts(decimals)) is Some,
    ensures
        r@ == base_units_text(amount.parts(), decimals),
        product_fits(amount.parts(), scale_factor_parts(decimals)) ==> r@ == scaled_integer_text(
            amount.parts(),
            decimals,
        ),
{
    let factor = scale_factor(decimals);
    let scaled = amount.checked_mul(&factor);
    proof {
        if product_fits(amount.parts(), scale_factor_parts(decimals)) {
            lemma_base_units_exact(amount.parts(), decimals);
        }
    }
    let scaled = match scaled {
        Some(s) => s,
        None => return owned(""),
    };
    let text = scaled.to_text();
    text_before_dot(text.as_str())
}

/// The base-units text for any inputs: `None` exactly where `10^decimals` does
/// not fit in 64 bits or the scaled amount overflows a decimal (where the
/// multiplication fails), else `base_units_integer_text`.
pub fn base_units_integer_text_checked(amount: &Amount, decimals: u32) -> (r: Option<String>)
    ensures
        r is None <==> (decimals > 19 || decimal_product(amount.parts(), scale_factor_parts(decimals))
            is None),
        match r {
            None => decimals > 19 || decimal_product(amount.parts(), scale_factor_parts(decimals))
                is None,
            Some(t) => decimals <= 19 && t@ == base_units_text(amount.parts(), decimals) && (
            product_fits(amount.parts(), scale_factor_parts(decimals)) ==> t@
                == scaled_integer_text(amount.parts(), decimals)),
        },
{
    if decimals > 19 {
        return None;
    }
    let factor = scale_factor(decimals);
    if amount.checked_mul(&factor).is_none() {
        return None;
    }
    Some(base_units_integer_text(amount, decimals))
}

/// Why a text is no 256-bit decimal number (`uint`'s `FromDecStrErr`).
#[derive(Debug, Clone, Copy, PartialEq, Eq, Structural)]
pub enum DecStrError {
    /// A character is not a decimal digit.
    InvalidCharacter,
    /// The number does not fit in 256 bits.
    InvalidLength,
}

/// `U256::from_dec_str` read digit by digit from the left: the value, or the
/// first error met (a non-digit, or a value reaching 2^256). The empty text
/// reads as zero.
pub open spec fn dec_str_value(s: Seq<char>) -> Result<int, DecStrError>
    decreases s.len(),
{
    if s.len() == 0 {
        Ok(0)
    } else {
        match dec_str_value(s.drop_last()) {
            Err(e) => Err(e),
            Ok(v) => if !is_digit(s.last()) {
                Err(DecStrError::InvalidCharacter)
            } else if v * 10 + (s.last() as int - 48) >= u256_limit() {
                Err(DecStrError::InvalidLength)
            } else {
                Ok(v * 10 + (s.last() as int - 48))
            },
        }
    }
}

/// `U256::from_dec_str` (ethers-core's `U256`, from `uint`): it reads the
/// text's bytes from the left, fails on the first byte that is no digit and
/// when the value reaches 2^256, and gives the limbs of the value.
#[verifier::external_body]
fn u256_from_dec_str(s: &str) -> (r: Result<[u64; 4], DecStrError>)
    ensures
        match r {
            Ok(l) => dec_str_value(s@) == Ok::<int, DecStrError>(u256_value(l@)),
            Err(e) => dec_str_value(s@) == Err::<int, DecStrError>(e),
        },
{
    match ethers_core::types::U256::from_dec_str(s) {
        Ok(v) => Ok(v.0),
        Err(ethers_core::abi::ethereum_types::FromDecStrErr::InvalidCharacter) => Err(DecStrError::InvalidCharacter),
        Err(ethers_core::abi::ethereum_types::FromDecStrErr::InvalidLength) => Err(DecStrError::InvalidLength),
    }
}

/// The text `FromDecStrErr` displays.
pub open spec fn dec_str_error_text(e: DecStrError) -> Seq<char> {
    match e {
        DecStrError::InvalidCharacter => "a character is not in the range 0-9"@,
        DecStrError::InvalidLength => "the number is too large for the type"@,
    }
}

/// The transfer amount of `amount` for a token with `decimals` decimals: the
/// base-units text read as a 256-bit number, or the conversion error's
/// message. `None` where the base units cannot be computed (`decimals` above
/// 19, or the scaled amount overflowing a decimal).
pub fn transfer_amount(amount: &Amount, decimals: u32) -> (r: Option<Result<[u64; 4], String>>)
    ensures
        r is None <==> (decimals > 19 || decimal_product(amount.parts(), scale_factor_parts(decimals))
            is None),
        match r {
            None => decimals > 19 || decimal_product(amount.parts(), scale_factor_parts(decimals))
                is None,
            Some(res) => decimals <= 19 && match dec_str_value(base_units_text(amount.parts(), decimals)) {
                Ok(v) => res matches Ok(l) && u256_value(l@) == v,
                Err(e) => res matches Err(m) && m@ == "Failed to convert amount: "@
                    + dec_str_error_text(e),
            },
        },
{
    let text = match base_units_integer_text_checked(amount, decimals) {
        Some(t) => t,
        None => return None,
    };
    match u256_from_dec_str(text.as_str()) {
        Ok(l) => Some(Ok(l)),
        Err(e) => {
            let mut m = owned("Failed to convert amount: ");
            match e {
                DecStrError::InvalidCharacter => push_str(&mut m, "a character is not in the range 0-9"),
                DecStrError::InvalidLength => push_str(&mut m, "the number is too large for the type"),
            }
            Some(Err(m))
        },
    }
}

/// The status of a mined transaction: `confirmed` when its receipt's status is
/// 1, else `failed`.
pub fn receipt_status(status: Option<u64>) -> (r: &'static str)
    ensures
        r@ == if status == Some(1u64) {
            "confirmed"@
        } else {
            "failed"@
        },
{
    let s: u64 = match status {
        Some(v) => v,
        None => 0,
    };
    if s == 1 {
        "confirmed"
    } else {
        "failed"
    }
}

/// The explorer page of a transaction: `<explorer>/tx/<hash>`.
pub fn explorer_tx_url(network: Network, tx_hash: &str) -> (r: String)
    ensures
        r@ == network.explorer_text() + "/tx/"@ + tx_hash@,
{
    let mut r = owned(network.explorer());
    push_str(&mut r, "/tx/");
    push_str(&mut r, tx_hash);
    r
}

/// The result of a transfer that was sent and mined.
pub fn mined_result(
    network: &str,
    tx_hash: String,
    status: &str,
    validation: &ValidationResult,
    block_number: Option<u64>,
    gas_used: Option<String>,
    explorer_url: String,
) -> (r: OnChainResult)
    ensures
        r.tx_hash@ == tx_hash@,
        r.network@ == network@,
        r.status@ == status@,
        r.validation_status@ == "approved"@,
        r.validation_reason matches Some(m) && m@ == match validation.reason {
            Some(v) => v@,
            None => "OK"@,
        },
        r.block_number == block_number,
        r.gas_used == gas_used,
        r.explorer_url == Some(explorer_url),
{
    OnChainResult {
        tx_hash,
        network: owned(network),
        status: owned(status),
        validation_status: owned("approved"),
        validation_reason: Some(approval_reason(validation)),
        block_number,
        gas_used,
        explorer_url: Some(explorer_url),
    }
}

} // verus!
