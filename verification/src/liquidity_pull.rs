//! Liquidity pulls: reading a balance from a liquidity file's fields, computing
//! the amount that may be pulled, and the settlement that records it.
//!
//! Reading the file, parsing its JSON, writing the database rows and answering
//! the HTTP request are done by the caller; the rules are here.
use vstd::prelude::*;
use crate::decimal::{decimal_parse, decimal_product, display_text, parts_less, pow10, Amount};
use crate::settlement::{
    audit_hash_text, execute_settlement, settlement_error, SettlementAmount, SettlementRequest,
};
use crate::text::{chars_of, owned, push_signed_decimal, signed_decimal_text, string_of};
use crate::blockchain::networks::is_hex_digit;

verus! {

/// The liquidity file read when none is configured.
pub const DEFAULT_LIQUIDITY_FILE: &'static str = "/home/agronet/backend/src/Rv-offline.json";

/// Limits of a liquidity pull.
#[derive(Debug, Clone)]
pub struct LiquidityState {
    pub file_path: String,
    pub max_pull_ratio: Amount,
    pub safe_pull_limit: Amount,
}

/// The default pull ratio, 0.7.
pub open spec fn default_ratio_parts() -> (i128, u32) {
    (7, 1)
}

/// The default safe pull limit, 1000000.
pub open spec fn default_limit_parts() -> (i128, u32) {
    (1000000, 0)
}

impl LiquidityState {
    /// The limits from configured values (those of `LIQUIDITY_FILE`,
    /// `MAX_PULL_RATIO` and `SAFE_PULL_LIMIT`, when set): a value that is unset
    /// or not a decimal gives the default.
    pub fn from_values(file: Option<String>, ratio: Option<String>, limit: Option<String>) -> (r:
        LiquidityState)
        ensures
            r.file_path@ == match file {
                Some(f) => f@,
                None => DEFAULT_LIQUIDITY_FILE@,
            },
            r.max_pull_ratio.parts() == match ratio {
                Some(t) => match decimal_parse(t@) {
                    Some(p) => p,
                    None => default_ratio_parts(),
                },
                None => default_ratio_parts(),
            },
            r.safe_pull_limit.parts() == match limit {
                Some(t) => match decimal_parse(t@) {
                    Some(p) => p,
                    None => default_limit_parts(),
                },
                None => default_limit_parts(),
            },
    {
        let file_path = match file {
            Some(f) => f,
            None => owned(DEFAULT_LIQUIDITY_FILE),
        };
        let default_ratio = match Amount::from_parts(7, 1) {
            Some(a) => a,
            None => Amount::zero(),
        };
        let max_pull_ratio = match ratio {
            Some(t) => match Amount::parse(t.as_str()) {
                Some(a) => a,
                None => default_ratio,
            },
            None => default_ratio,
        };
        let default_limit = Amount::from_integer(1_000_000);
        let safe_pull_limit = match limit {
            Some(t) => match Amount::parse(t.as_str()) {
                Some(a) => a,
                None => default_limit,
            },
            None => default_limit,
        };
        LiquidityState { file_path, max_pull_ratio, safe_pull_limit }
    }
}

/// Whether a balance text keeps a character: ASCII digits, `.` and `,`.
pub open spec fn balance_char_kept(c: char) -> bool {
    ('0' <= c && c <= '9') || c == '.' || c == ','
}

/// A balance text with every other character removed and `,` read as `.`.
pub open spec fn cleaned_balance(s: Seq<char>) -> Seq<char>
    decreases s.len(),
{
    if s.len() == 0 {
        Seq::empty()
    } else {
        let c = s.last();
        cleaned_balance(s.drop_last()) + if balance_char_kept(c) {
            seq![
                if c == ',' {
                    '.'
                } else {
                    c
                },
            ]
        } else {
            Seq::empty()
        }
    }
}

/// A balance text of digits, `.` and `,` keeps its length and every character
/// but `,`, which is read as `.`; so a text of digits and `.` is kept as it is.
pub proof fn law_balance_text_kept(s: Seq<char>)
    requires
        forall|i: int| 0 <= i < s.len() ==> balance_char_kept(#[trigger] s[i]),
    ensures
        cleaned_balance(s).len() == s.len(),
        forall|i: int|
            0 <= i < s.len() ==> #[trigger] cleaned_balance(s)[i] == if s[i] == ',' {
                '.'
            } else {
                s[i]
            },
        (forall|i: int| 0 <= i < s.len() ==> #[trigger] s[i] != ',') ==> cleaned_balance(s) == s,
    decreases s.len(),
{
    if s.len() > 0 {
        let t = s.drop_last();
        assert forall|i: int| 0 <= i < t.len() implies balance_char_kept(#[trigger] t[i]) by {
            assert(t[i] == s[i]);
        }
        law_balance_text_kept(t);
        assert(balance_char_kept(s[s.len() - 1]));
        assert forall|i: int| 0 <= i < s.len() implies #[trigger] cleaned_balance(s)[i] == if s[i]
            == ',' {
            '.'
        } else {
            s[i]
        } by {
            if i < s.len() - 1 {
                assert(cleaned_balance(s)[i] == cleaned_balance(t)[i]);
                assert(t[i] == s[i]);
            }
        }
        if forall|i: int| 0 <= i < s.len() ==> #[trigger] s[i] != ',' {
            assert(cleaned_balance(s) =~= s);
        }
    } else {
        assert(cleaned_balance(s) =~= s);
    }
}

/// A cleaned balance text holds only digits and `.`, and is no longer than the
/// text it came from.
pub proof fn law_balance_text_clean(s: Seq<char>)
    ensures
        cleaned_balance(s).len() <= s.len(),
        forall|i: int|
            0 <= i < cleaned_balance(s).len() ==> ('0' <= #[trigger] cleaned_balance(s)[i]
                && cleaned_balance(s)[i] <= '9') || cleaned_balance(s)[i] == '.',
    decreases s.len(),
{
    if s.len() > 0 {
        let t = s.drop_last();
        law_balance_text_clean(t);
        let c = cleaned_balance(s);
        assert forall|i: int| 0 <= i < c.len() implies ('0' <= #[trigger] c[i] && c[i] <= '9') || c[i]
            == '.' by {
            if i < cleaned_balance(t).len() {
                assert(c[i] == cleaned_balance(t)[i]);
            }
        }
    }
}

/// Reads a `total_balance` text that may hold separators: keeps digits, `.`
/// and `,`, reads `,` as `.`, and parses the rest as a decimal.
pub fn parse_total_balance(s: &str) -> (r: Option<Amount>)
    ensures
        match r {
            Some(a) => decimal_parse(cleaned_balance(s@)) == Some(a.parts()),
            None => decimal_parse(cleaned_balance(s@)) is None,
        },
{
    let cs = chars_of(s);
    let mut kept: Vec<char> = Vec::new();
    let mut i: usize = 0;
    assert(cs@.take(0) =~= Seq::<char>::empty());
    while i < cs.len()
        invariant
            i <= cs.len(),
            kept@ == cleaned_balance(cs@.take(i as int)),
        decreases cs.len() - i,
    {
        let c = cs[i];
        assert(cs@.take(i + 1).drop_last() == cs@.take(i as int));
        if ('0' <= c && c <= '9') || c == '.' || c == ',' {
            let ghost before = kept@;
            kept.push(if c == ',' {
                '.'
            } else {
                c
            });
            assert(kept@ =~= cleaned_balance(cs@.take(i + 1)));
        } else {
            assert(kept@ =~= cleaned_balance(cs@.take(i + 1)));
        }
        i = i + 1;
    }
    assert(cs@.take(cs@.len() as int) == cs@);
    let normalized = string_of(kept.as_slice());
    Amount::parse(normalized.as_str())
}

/// `0x` followed by exactly 40 hexadecimal digits.
pub open spec fn is_contract_address_text(s: Seq<char>) -> bool {
    &&& s.len() == 42
    &&& s[0] == '0'
    &&& s[1] == 'x'
    &&& forall|i: int| 2 <= i < 42 ==> is_hex_digit(#[trigger] s[i])
}

/// The pattern a contract address must match.
pub open spec fn contract_address_pattern() -> Seq<char> {
    "^0x[0-9a-fA-F]{40}$"@
}

/// `Regex::new(pattern)` then `is_match(s)`, for the contract-address
/// pattern: it is anchored at both ends (`$` matches only at the end of the
/// text), so it matches exactly `0x` followed by 40 ASCII hex digits. The
/// pattern is valid, so `Regex::new` succeeds.
#[verifier::external_body]
fn regex_is_match(pattern: &str, s: &str) -> (r: bool)
    requires
        pattern@ == contract_address_pattern(),
    ensures
        r == is_contract_address_text(s@),
{
    regex::Regex::new(pattern).unwrap().is_match(s)
}

/// Whether a contract address is present and well formed.
pub fn validate_contract_address(addr_opt: &Option<String>) -> (r: bool)
    ensures
        r == match addr_opt {
            Some(a) => is_contract_address_text(a@),
            None => false,
        },
{
    match addr_opt {
        Some(addr) => regex_is_match("^0x[0-9a-fA-F]{40}$", addr.as_str()),
        None => false,
    }
}

/// The fields a SWIFT/GPI liquidity file offers, each present only when the
/// surrounding objects exist and the field is a string:
/// `swift_transaction_details.CurrentBalance`,
/// `swift_transaction_details.output_currency` and `blockchain_transaction.to`.
#[derive(Debug, Clone)]
pub struct SwiftFields {
    pub current_balance: Option<String>,
    pub output_currency: Option<String>,
    pub contract_to: Option<String>,
}

/// A text with every `,` removed.
pub open spec fn without_commas(s: Seq<char>) -> Seq<char>
    decreases s.len(),
{
    if s.len() == 0 {
        Seq::empty()
    } else {
        without_commas(s.drop_last()) + if s.last() == ',' {
            Seq::empty()
        } else {
            seq![s.last()]
        }
    }
}

/// What a SWIFT/GPI file gives: its balance (read without commas), stablecoin
/// and contract, when all three are there and the balance is a decimal.
pub open spec fn swift_reading(f: SwiftFields) -> Option<((i128, u32), Seq<char>, Seq<char>)> {
    match (f.current_balance, f.output_currency, f.contract_to) {
        (Some(b), Some(c), Some(t)) => match decimal_parse(without_commas(b@)) {
            Some(p) => Some((p, c@, t@)),
            None => None,
        },
        _ => None,
    }
}

/// Reads the balance, stablecoin and contract of a SWIFT/GPI liquidity file.
pub fn parse_swift_like(fields: &SwiftFields) -> (r: Option<(Amount, String, String)>)
    ensures
        match r {
            Some((a, c, t)) => swift_reading(*fields) == Some((a.parts(), c@, t@)),
            None => swift_reading(*fields) is None,
        },
{
    let balance_str = match &fields.current_balance {
        Some(b) => b,
        None => return None,
    };
    let stablecoin = match &fields.output_currency {
        Some(c) => c,
        None => return None,
    };
    let contract = match &fields.contract_to {
        Some(t) => t,
        None => return None,
    };
    let cs = chars_of(balance_str.as_str());
    let mut kept: Vec<char> = Vec::new();
    let mut i: usize = 0;
    assert(cs@.take(0) =~= Seq::<char>::empty());
    while i < cs.len()
        invariant
            i <= cs.len(),
            kept@ == without_commas(cs@.take(i as int)),
        decreases cs.len() - i,
    {
        let c = cs[i];
        assert(cs@.take(i + 1).drop_last() == cs@.take(i as int));
        if c != ',' {
            kept.push(c);
        }
        assert(kept@ =~= without_commas(cs@.take(i + 1)));
        i = i + 1;
    }
    assert(cs@.take(cs@.len() as int) == cs@);
    let cleaned = string_of(kept.as_slice());
    match Amount::parse(cleaned.as_str()) {
        Some(a) => Some((a, stablecoin.clone(), contract.clone())),
        None => None,
    }
}

/// The SWIFT/GPI fields of a liquidity file's text as `serde_json` reads it:
/// the parser's error message when the text is not JSON; nothing when
/// `swift_transaction_details` or `blockchain_transaction` is missing; else
/// `CurrentBalance`, `output_currency` and `to`, each where it is a string.
pub uninterp spec fn swift_json_fields(content: Seq<char>) -> Result<
    Option<(Option<Seq<char>>, Option<Seq<char>>, Option<Seq<char>>)>,
    Seq<char>,
>;

/// The texts of what reading a file's SWIFT/GPI fields gave.
pub open spec fn swift_json_view(r: Result<Option<SwiftFields>, String>) -> Result<
    Option<(Option<Seq<char>>, Option<Seq<char>>, Option<Seq<char>>)>,
    Seq<char>,
> {
    match r {
        Err(m) => Err(m@),
        Ok(None) => Ok(None),
        Ok(Some(f)) => Ok(
            Some(
                (
                    match f.current_balance {
                        Some(b) => Some(b@),
                        None => None,
                    },
                    match f.output_currency {
                        Some(c) => Some(c@),
                        None => None,
                    },
                    match f.contract_to {
                        Some(t) => Some(t@),
                        None => None,
                    },
                ),
            ),
        ),
    }
}

/// `serde_json::from_str::<Value>` on a liquidity file's text, then `get` of
/// `swift_transaction_details` and `blockchain_transaction`, and `get` plus
/// `as_str` of their fields `CurrentBalance`, `output_currency` and `to`; a
/// parse failure gives the error's message. What the parser accepts is left to
/// the name `swift_json_fields`.
#[verifier::external_body]
fn parse_swift_json(content: &str) -> (r: Result<Option<SwiftFields>, String>)
    ensures
        swift_json_view(r) == swift_json_fields(content@),
{
    let json: serde_json::Value = match serde_json::from_str(content) {
        Ok(v) => v,
        Err(e) => return Err(e.to_string()),
    };
    let text = |v: Option<&serde_json::Value>| v.and_then(|x| x.as_str()).map(|s| s.to_string());
    match (json.get("swift_transaction_details"), json.get("blockchain_transaction")) {
        (Some(swift), Some(chain)) => Ok(Some(SwiftFields {
            current_balance: text(swift.get("CurrentBalance")),
            output_currency: text(swift.get("output_currency")),
            contract_to: text(chain.get("to")),
        })),
        _ => Ok(None),
    }
}

/// Plans the pull of a liquidity file's text read as a SWIFT/GPI file: a
/// parse error when the text is not JSON; nothing when it is no SWIFT/GPI
/// file (missing objects or fields, or a balance that is no decimal), so
/// that the ERC-8040 format is tried; else the pull that `plan_pull_checked`
/// plans for its balance, contract and stablecoin, from source `SWIFT`.
pub fn swift_pull_from_text(content: &str, state: &LiquidityState, timestamp: i64) -> (r: Result<
    Option<Option<Result<LiquidityPlan, LiquidityError>>>,
    LiquidityError,
>)
    ensures
        match swift_json_fields(content@) {
            Err(m) => r matches Err(LiquidityError::ParseError(e)) && e@ == m,
            Ok(None) => r matches Ok(None),
            Ok(Some((b, c, t))) => match (b, c, t) {
                (Some(b), Some(c), Some(t)) => match decimal_parse(without_commas(b)) {
                    None => r matches Ok(None),
                    Some(p) => r matches Ok(Some(o)) && exists|bal: Amount, contract: String|
                        #![trigger bal.parts(), contract@]
                        bal.parts() == p && contract@ == t && ((o is None) <==> (
                        pull_needs_product(Some(contract)) && decimal_product(
                            p,
                            state.max_pull_ratio.parts(),
                        ) is None)) && match o {
                            None => true,
                            Some(res) => pull_outcome(
                                res,
                                bal,
                                Some(contract),
                                c,
                                *state,
                                timestamp,
                                "SWIFT"@,
                            ),
                        },
                },
                _ => r matches Ok(None),
            },
        },
{
    let fields = match parse_swift_json(content) {
        Err(m) => return Err(LiquidityError::ParseError(m)),
        Ok(None) => return Ok(None),
        Ok(Some(f)) => f,
    };
    match parse_swift_like(&fields) {
        None => Ok(None),
        Some((balance, stablecoin, contract)) => {
            let ghost b = balance;
            let ghost c = contract;
            let outcome = plan_pull_checked(balance, Some(contract), stablecoin, state, timestamp, "SWIFT");
            assert(b.parts() == b.parts() && c@ == c@);
            Ok(Some(outcome))
        },
    }
}

/// Whether a liquidity file's extension is accepted: `txt`, `fin` or `json`.
pub fn is_allowed_liquidity_extension(ext: Option<&str>) -> (r: bool)
    ensures
        r == match ext {
            Some(e) => e@ == "txt"@ || e@ == "fin"@ || e@ == "json"@,
            None => false,
        },
{
    match ext {
        Some(e) => {
            let t = owned(e);
            crate::text::same_text(&t, "txt") || crate::text::same_text(&t, "fin")
                || crate::text::same_text(&t, "json")
        },
        None => false,
    }
}

/// The amount a pull may take: the balance times the pull ratio, capped at the
/// safe pull limit.
pub open spec fn pull_amount_parts(balance: (i128, u32), state: LiquidityState) -> Option<
    (i128, u32),
> {
    match decimal_product(balance, state.max_pull_ratio.parts()) {
        Some(p) => if parts_less(state.safe_pull_limit.parts(), p) {
            Some(state.safe_pull_limit.parts())
        } else {
            Some(p)
        },
        None => None,
    }
}

/// The amount a pull may take is the balance times the pull ratio when that
/// product is within the safe pull limit, and the limit when the product
/// exceeds it; there is an amount exactly when the product exists.
pub proof fn law_pull_amount_is_capped_product(balance: (i128, u32), state: LiquidityState)
    ensures
        pull_amount_parts(balance, state) is Some <==> decimal_product(
            balance,
            state.max_pull_ratio.parts(),
        ) is Some,
        decimal_product(balance, state.max_pull_ratio.parts()) matches Some(p) ==> (!parts_less(
            state.safe_pull_limit.parts(),
            p,
        ) ==> pull_amount_parts(balance, state) == Some(p)),
        decimal_product(balance, state.max_pull_ratio.parts()) matches Some(p) ==> (parts_less(
            state.safe_pull_limit.parts(),
            p,
        ) ==> pull_amount_parts(balance, state) == Some(state.safe_pull_limit.parts())),
{
}

/// A pull never takes more than the safe pull limit.
pub proof fn law_pull_within_limit(balance: (i128, u32), state: LiquidityState)
    ensures
        pull_amount_parts(balance, state) matches Some(a) ==> !parts_less(
            state.safe_pull_limit.parts(),
            a,
        ),
{
}

/// The amount a pull may take from this balance.
pub fn authorized_pull_amount(balance: &Amount, state: &LiquidityState) -> (r: Amount)
    requires
        decimal_product(balance.parts(), state.max_pull_ratio.parts()) is Some,
    ensures
        pull_amount_parts(balance.parts(), *state) == Some(r.parts()),
{
    let product = match balance.checked_mul(&state.max_pull_ratio) {
        Some(p) => p,
        None => return state.safe_pull_limit,
    };
    if state.safe_pull_limit.less_than(&product) {
        state.safe_pull_limit
    } else {
        product
    }
}

/// Why a liquidity pull ends without a settlement.
#[derive(Debug, Clone)]
pub enum LiquidityError {
    /// The file could not be read.
    ReadError(String),
    /// The file is not JSON.
    ParseError(String),
    /// The file is neither SWIFT/GPI nor ERC-8040.
    InvalidFormat,
    /// The ERC-8040 file has no readable total balance.
    NoTotalBalance,
    /// The contract address is missing or malformed.
    InvalidContractAddress,
    /// The amount to pull is not positive.
    InvalidAuthorizedAmount,
    /// The settlement was refused: HTTP status and reason.
    SettlementRejected(u16, String),
}

impl LiquidityError {
    /// The error code reported for this error.
    pub fn code(&self) -> (r: &'static str)
        ensures
            r@ == match self {
                LiquidityError::ReadError(_) => "read_error"@,
                LiquidityError::ParseError(_) => "parse_error"@,
                LiquidityError::InvalidFormat => "invalid_format"@,
                LiquidityError::NoTotalBalance => "no_total_balance"@,
                LiquidityError::InvalidContractAddress => "invalid_contract_address"@,
                LiquidityError::InvalidAuthorizedAmount => "invalid_authorized_amount"@,
                LiquidityError::SettlementRejected(_, _) => "settlement_rejected"@,
            },
    {
        match self {
            LiquidityError::ReadError(_) => "read_error",
            LiquidityError::ParseError(_) => "parse_error",
            LiquidityError::InvalidFormat => "invalid_format",
            LiquidityError::NoTotalBalance => "no_total_balance",
            LiquidityError::InvalidContractAddress => "invalid_contract_address",
            LiquidityError::InvalidAuthorizedAmount => "invalid_authorized_amount",
            LiquidityError::SettlementRejected(_, _) => "settlement_rejected",
        }
    }
}

/// A pull to carry out: what to record and to credit.
#[derive(Debug, Clone)]
pub struct LiquidityPlan {
    pub token_id: String,
    pub stablecoin: String,
    pub balance: Amount,
    pub pulled_amount: Amount,
    pub audit_hash: String,
    pub source_format: String,
    pub contract_address: String,
}

/// The token id of a pull made at a UNIX timestamp: `ERC8040-` and the timestamp.
pub open spec fn pull_token_id(timestamp: i64) -> Seq<char> {
    "ERC8040-"@ + signed_decimal_text(timestamp as int)
}

/// The settlement request that records a pull.
pub open spec fn pull_request_matches(
    req: SettlementRequest,
    token_id: Seq<char>,
    stablecoin: Seq<char>,
    amount: (i128, u32),
) -> bool {
    &&& req.token_id@ == token_id
    &&& req.stablecoin@ == stablecoin
    &&& req.amount.text@ == display_text(amount)
    &&& req.amount.positive_finite
    &&& req.wallet_from@ == "PRIVATE_SOURCE"@
    &&& req.wallet_to@ == "TREASURY_DEST"@
}

/// The inputs on which a pull would compute its amount: a well-formed contract.
pub open spec fn pull_needs_product(contract: Option<String>) -> bool {
    match contract {
        Some(c) => is_contract_address_text(c@),
        None => false,
    }
}

/// What a pull of `balance` gives: a missing or malformed contract is refused;
/// a non-positive amount is refused; else the settlement of the amount under
/// the token id made from the timestamp decides, and an accepted one is planned
/// with its audit hash.
pub open spec fn pull_outcome(
    r: Result<LiquidityPlan, LiquidityError>,
    balance: Amount,
    contract: Option<String>,
    stablecoin: Seq<char>,
    state: LiquidityState,
    timestamp: i64,
    source_format: Seq<char>,
) -> bool {
    &&& (!pull_needs_product(contract) ==> (r matches Err(LiquidityError::InvalidContractAddress)))
    &&& pull_needs_product(contract) ==> ({
        let amount = pull_amount_parts(balance.parts(), state)->0;
        if !parts_less((0i128, 0u32), amount) {
            r matches Err(LiquidityError::InvalidAuthorizedAmount)
        } else {
            match r {
                Ok(plan) => {
                    &&& plan.token_id@ == pull_token_id(timestamp)
                    &&& plan.stablecoin@ == stablecoin
                    &&& plan.balance == balance
                    &&& plan.pulled_amount.parts() == amount
                    &&& plan.source_format@ == source_format
                    &&& plan.contract_address@ == contract->0@
                    &&& exists|req: SettlementRequest|
                        pull_request_matches(req, pull_token_id(timestamp), stablecoin, amount)
                            && settlement_error(req) is None && plan.audit_hash@ == audit_hash_text(
                            req,
                        )
                },
                Err(LiquidityError::SettlementRejected(code, detail)) => exists|
                    req: SettlementRequest,
                |
                    pull_request_matches(req, pull_token_id(timestamp), stablecoin, amount)
                        && settlement_error(req) == Some(detail@) && code == 400,
                _ => false,
            }
        }
    })
}

/// Plans a pull of `balance`: checks the contract, computes the amount, and
/// settles it under a token id made from the timestamp. Errors, in order: a
/// missing or malformed contract, a non-positive amount, a refused settlement.
pub fn plan_pull(
    balance: Amount,
    contract: Option<String>,
    stablecoin: String,
    state: &LiquidityState,
    timestamp: i64,
    source_format: &str,
) -> (r: Result<LiquidityPlan, LiquidityError>)
    requires
        pull_needs_product(contract) ==> decimal_product(
            balance.parts(),
            state.max_pull_ratio.parts(),
        ) is Some,
    ensures
        pull_outcome(r, balance, contract, stablecoin@, *state, timestamp, source_format@),
{
    if !validate_contract_address(&contract) {
        return Err(LiquidityError::InvalidContractAddress);
    }
    let contract_address = match contract {
        Some(c) => c,
        None => return Err(LiquidityError::InvalidContractAddress),
    };
    let authorized = authorized_pull_amount(&balance, state);
    let zero = Amount::zero();
    if !zero.less_than(&authorized) {
        return Err(LiquidityError::InvalidAuthorizedAmount);
    }
    assert(authorized.parts().0 != 0) by {
        assert(pow10(0) == 1);
        if authorized.parts().0 == 0 {
            assert(0 * pow10(authorized.parts().1 as nat) == 0);
        }
    }
    let mut token_id = owned("ERC8040-");
    push_signed_decimal(&mut token_id, timestamp);
    let req = SettlementRequest {
        token_id: token_id.clone(),
        stablecoin: stablecoin.clone(),
        amount: SettlementAmount { text: authorized.to_text(), positive_finite: true },
        wallet_from: owned("PRIVATE_SOURCE"),
        wallet_to: owned("TREASURY_DEST"),
    };
    assert(pull_request_matches(req, pull_token_id(timestamp), stablecoin@, authorized.parts()));
    match execute_settlement(&req) {
        Ok(receipt) => Ok(
            LiquidityPlan {
                token_id,
                stablecoin,
                balance,
                pulled_amount: authorized,
                audit_hash: receipt.audit_hash,
                source_format: owned(source_format),
                contract_address,
            },
        ),
        Err(rej) => Err(LiquidityError::SettlementRejected(rej.status_code, rej.detail)),
    }
}

/// Plans a pull for any inputs: `None` where multiplying the balance by the
/// pull ratio overflows a decimal (where the multiplication itself would
/// fail), else what `plan_pull` gives.
pub fn plan_pull_checked(
    balance: Amount,
    contract: Option<String>,
    stablecoin: String,
    state: &LiquidityState,
    timestamp: i64,
    source_format: &str,
) -> (r: Option<Result<LiquidityPlan, LiquidityError>>)
    ensures
        r is None <==> (pull_needs_product(contract) && decimal_product(
            balance.parts(),
            state.max_pull_ratio.parts(),
        ) is None),
        match r {
            None => true,
            Some(res) => pull_outcome(
                res,
                balance,
                contract,
                stablecoin@,
                *state,
                timestamp,
                source_format@,
            ),
        },
{
    if validate_contract_address(&contract) && balance.checked_mul(&state.max_pull_ratio).is_none() {
        return None;
    }
    Some(plan_pull(balance, contract, stablecoin, state, timestamp, source_format))
}

/// Plans the pull of an ERC-8040 liquidity file from its `total_balance`,
/// `contract_address` and `currency` fields: no readable balance is refused
/// first; the stablecoin is the currency, `USDT` when absent. `None` where the
/// amount computation overflows.
pub fn plan_erc8040_pull(
    total_balance: Option<String>,
    contract: Option<String>,
    currency: Option<String>,
    state: &LiquidityState,
    timestamp: i64,
) -> (r: Option<Result<LiquidityPlan, LiquidityError>>)
    ensures
        ({
            let balance = match total_balance {
                Some(t) => decimal_parse(cleaned_balance(t@)),
                None => None,
            };
            let stablecoin = match currency {
                Some(c) => c@,
                None => "USDT"@,
            };
            match balance {
                None => r matches Some(Err(LiquidityError::NoTotalBalance)),
                Some(p) => (r is None <==> (pull_needs_product(contract) && decimal_product(
                    p,
                    state.max_pull_ratio.parts(),
                ) is None)) && match r {
                    None => true,
                    Some(res) => exists|b: Amount|
                        b.parts() == p && pull_outcome(
                            res,
                            b,
                            contract,
                            stablecoin,
                            *state,
                            timestamp,
                            "ERC-8040"@,
                        ),
                },
            }
        }),
{
    let balance = match total_balance {
        Some(t) => parse_total_balance(t.as_str()),
        None => None,
    };
    let balance = match balance {
        Some(b) => b,
        None => return Some(Err(LiquidityError::NoTotalBalance)),
    };
    let stablecoin = match currency {
        Some(c) => c,
        None => owned("USDT"),
    };
    plan_pull_checked(balance, contract, stablecoin, state, timestamp, "ERC-8040")
}

} // verus!
