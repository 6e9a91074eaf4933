//! Stablecoin settlement requests: validation and the ATF-AI audit hash.
use vstd::prelude::*;
use vstd::utf8::encode_utf8;
use crate::bytes::append_bytes;
use crate::digest::{hex_encode, hex_encoding, lemma_hex_encoding_len, sha256, sha256_digest};
use crate::text::{ascii_upper, ascii_upper_text, chars_of, owned, push_char};

verus! {

/// An amount as settlement reads it: the text its `Display` writes, and whether
/// it is a positive finite number.
#[derive(Debug, Clone)]
pub struct SettlementAmount {
    pub text: String,
    pub positive_finite: bool,
}

/// A request to settle an amount of a stablecoin between two wallets.
#[derive(Debug, Clone)]
pub struct SettlementRequest {
    pub token_id: String,
    pub stablecoin: String,
    pub amount: SettlementAmount,
    pub wallet_from: String,
    pub wallet_to: String,
}

/// The HTTP status of a rejected request (400 Bad Request).
pub const BAD_REQUEST: u16 = 400;

/// An accepted settlement.
#[derive(Debug, Clone)]
pub struct SettlementReceipt {
    pub status: String,
    pub token_id: String,
    pub stablecoin: String,
    pub audit_hash: String,
}

/// A rejected settlement: HTTP status and reason.
#[derive(Debug, Clone)]
pub struct SettlementRejection {
    pub status_code: u16,
    pub detail: String,
}

/// Characters with the Unicode `White_Space` property (what `char::is_whitespace`
/// and `str::trim` treat as white space).
pub open spec fn is_white_space(c: char) -> bool {
    let u = c as u32;
    (0x9 <= u && u <= 0xd) || u == 0x20 || u == 0x85 || u == 0xa0 || u == 0x1680 || (0x2000 <= u
        && u <= 0x200a) || u == 0x2028 || u == 0x2029 || u == 0x202f || u == 0x205f || u == 0x3000
}

/// Text that is empty once trimmed: nothing but white space.
pub open spec fn is_blank_text(s: Seq<char>) -> bool {
    forall|i: int| 0 <= i < s.len() ==> is_white_space(#[trigger] s[i])
}

fn white_space(c: char) -> (r: bool)
    ensures
        r == is_white_space(c),
{
    let u = c as u32;
    (0x9 <= u && u <= 0xd) || u == 0x20 || u == 0x85 || u == 0xa0 || u == 0x1680 || (0x2000 <= u
        && u <= 0x200a) || u == 0x2028 || u == 0x2029 || u == 0x202f || u == 0x205f || u == 0x3000
}

/// Whether `s.trim().is_empty()`.
pub fn is_blank(s: &str) -> (r: bool)
    ensures
        r == is_blank_text(s@),
{
    let cs = chars_of(s);
    let mut i: usize = 0;
    while i < cs.len()
        invariant
            cs@ == s@,
            i <= cs.len(),
            forall|j: int| 0 <= j < i ==> is_white_space(#[trigger] s@[j]),
        decreases cs.len() - i,
    {
        if !white_space(cs[i]) {
            return false;
        }
        i = i + 1;
    }
    true
}

/// Why a request is refused, if it is: a blank token id, a blank stablecoin, a
/// blank wallet, or an amount that is not a positive finite number (checked in
/// that order).
pub open spec fn settlement_error(req: SettlementRequest) -> Option<Seq<char>> {
    if is_blank_text(req.token_id@) {
        Some("token_id is required"@)
    } else if is_blank_text(req.stablecoin@) {
        Some("stablecoin is required"@)
    } else if is_blank_text(req.wallet_from@) || is_blank_text(req.wallet_to@) {
        Some("wallet_from and wallet_to are required"@)
    } else if !req.amount.positive_finite {
        Some("amount must be a positive finite number"@)
    } else {
        None
    }
}

/// A settlement request is accepted exactly when its token id, stablecoin and
/// both wallets are not blank and its amount is positive and finite; with the
/// token id and stablecoin given, a blank wallet on either side is refused with
/// the wallets' message.
pub proof fn law_settlement_accepts_complete_requests(req: SettlementRequest)
    ensures
        settlement_error(req) is None <==> (!is_blank_text(req.token_id@) && !is_blank_text(
            req.stablecoin@,
        ) && !is_blank_text(req.wallet_from@) && !is_blank_text(req.wallet_to@)
            && req.amount.positive_finite),
        (!is_blank_text(req.token_id@) && !is_blank_text(req.stablecoin@) && (is_blank_text(
            req.wallet_from@,
        ) || is_blank_text(req.wallet_to@))) ==> settlement_error(req) == Some(
            "wallet_from and wallet_to are required"@,
        ),
{
}

/// Blank means nothing but white space: the empty text is blank; space, tab,
/// line feed and carriage return are white space; no ASCII letter or digit is.
pub proof fn law_blank_text(c: char)
    ensures
        is_blank_text(Seq::<char>::empty()),
        is_white_space(' ') && is_white_space('\t') && is_white_space('\n') && is_white_space('\r'),
        (('a' <= c && c <= 'z') || ('A' <= c && c <= 'Z') || ('0' <= c && c <= '9')) ==> !is_white_space(c),
        (('a' <= c && c <= 'z') || ('A' <= c && c <= 'Z') || ('0' <= c && c <= '9')) ==> !is_blank_text(seq![c]),
{
    if ('a' <= c && c <= 'z') || ('A' <= c && c <= 'Z') || ('0' <= c && c <= '9') {
        assert(seq![c][0] == c);
    }
}

/// Checks that a settlement request is complete.
pub fn validate_settlement_request(req: &SettlementRequest) -> (r: Result<(), String>)
    ensures
        match r {
            Ok(_) => settlement_error(*req) is None,
            Err(m) => settlement_error(*req) == Some(m@),
        },
{
    if is_blank(req.token_id.as_str()) {
        return Err(owned("token_id is required"));
    }
    if is_blank(req.stablecoin.as_str()) {
        return Err(owned("stablecoin is required"));
    }
    if is_blank(req.wallet_from.as_str()) || is_blank(req.wallet_to.as_str()) {
        return Err(owned("wallet_from and wallet_to are required"));
    }
    if !req.amount.positive_finite {
        return Err(owned("amount must be a positive finite number"));
    }
    Ok(())
}

/// The bytes the audit hash is taken over: the UTF-8 of token id, stablecoin,
/// amount text, source wallet and destination wallet, one after the other.
pub open spec fn audit_input(req: SettlementRequest) -> Seq<u8> {
    encode_utf8(req.token_id@) + encode_utf8(req.stablecoin@) + encode_utf8(req.amount.text@)
        + encode_utf8(req.wallet_from@) + encode_utf8(req.wallet_to@)
}

/// The audit hash of a request: `ATF-AI-AUDIT-` and the first 32 hex digits of
/// the SHA-256 of its fields, uppercase.
pub open spec fn audit_hash_text(req: SettlementRequest) -> Seq<char> {
    "ATF-AI-AUDIT-"@ + ascii_upper_text(hex_encoding(sha256(audit_input(req))).take(32))
}

/// Builds the audit hash of a settlement request.
pub fn build_audit_hash(req: &SettlementRequest) -> (r: String)
    ensures
        r@ == audit_hash_text(*req),
{
    let mut input: Vec<u8> = Vec::new();
    append_bytes(&mut input, req.token_id.as_str().as_bytes());
    append_bytes(&mut input, req.stablecoin.as_str().as_bytes());
    append_bytes(&mut input, req.amount.text.as_str().as_bytes());
    append_bytes(&mut input, req.wallet_from.as_str().as_bytes());
    append_bytes(&mut input, req.wallet_to.as_str().as_bytes());
    assert(input@ == audit_input(*req));
    let digest = sha256_digest(input.as_slice());
    let short = hex_encode(digest.as_slice());
    let hex_chars = chars_of(short.as_str());
    proof {
        lemma_hex_encoding_len(digest@);
    }
    let mut r = owned("ATF-AI-AUDIT-");
    let ghost head = r@;
    let mut i: usize = 0;
    while i < 32
        invariant
            hex_chars@ == hex_encoding(sha256(audit_input(*req))),
            hex_chars@.len() == 64,
            i <= 32,
            r@ == head + ascii_upper_text(hex_chars@.take(i as int)),
        decreases 32 - i,
    {
        let c = hex_chars[i];
        let u: char = if 'a' <= c && c <= 'z' {
            ((c as u32) - 32) as u8 as char
        } else {
            c
        };
        assert(u == ascii_upper(c));
        push_char(&mut r, u);
        assert(ascii_upper_text(hex_chars@.take(i + 1)) =~= ascii_upper_text(
            hex_chars@.take(i as int),
        ).push(u));
        i = i + 1;
    }
    r
}

/// What settling a request gives: on a valid request, status `ok` with its
/// token id, stablecoin and audit hash; otherwise a 400 with the reason.
pub fn execute_settlement(req: &SettlementRequest) -> (r: Result<
    SettlementReceipt,
    SettlementRejection,
>)
    ensures
        match r {
            Ok(receipt) => settlement_error(*req) is None && receipt.status@ == "ok"@
                && receipt.token_id@ == req.token_id@ && receipt.stablecoin@ == req.stablecoin@
                && receipt.audit_hash@ == audit_hash_text(*req),
            Err(rej) => settlement_error(*req) == Some(rej.detail@) && rej.status_code
                == BAD_REQUEST,
        },
{
    match validate_settlement_request(req) {
        Err(e) => Err(SettlementRejection { status_code: BAD_REQUEST, detail: e }),
        Ok(_) => {
            let audit_hash = build_audit_hash(req);
            Ok(
                SettlementReceipt {
                    status: owned("ok"),
                    token_id: req.token_id.clone(),
                    stablecoin: req.stablecoin.clone(),
                    audit_hash,
                },
            )
        },
    }
}

} // verus!
