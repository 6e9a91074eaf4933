use agronet_backend::settlement::{
    build_audit_hash, execute_settlement, is_blank, validate_settlement_request,
    SettlementAmount, SettlementRequest, BAD_REQUEST,
};

fn request(token: &str, coin: &str, amount: &str, ok: bool, from: &str, to: &str) -> SettlementRequest {
    SettlementRequest {
        token_id: token.to_string(),
        stablecoin: coin.to_string(),
        amount: SettlementAmount { text: amount.to_string(), positive_finite: ok },
        wallet_from: from.to_string(),
        wallet_to: to.to_string(),
    }
}

#[test]
fn audit_hash_value() {
    let req = request("TOK1", "USDT", "12.5", true, "walletA", "walletB");
    assert_eq!(build_audit_hash(&req), "ATF-AI-AUDIT-11DD1D5AD45076F64269A41B8174B542");
}

#[test]
fn settlement_accepts_valid_request() {
    let req = request("TOK1", "USDT", "12.5", true, "walletA", "walletB");
    let receipt = execute_settlement(&req).unwrap();
    assert_eq!(receipt.status, "ok");
    assert_eq!(receipt.token_id, "TOK1");
    assert_eq!(receipt.stablecoin, "USDT");
    assert_eq!(receipt.audit_hash, "ATF-AI-AUDIT-11DD1D5AD45076F64269A41B8174B542");
}

#[test]
fn settlement_rejections_in_order() {
    let e = |r: SettlementRequest| validate_settlement_request(&r).unwrap_err();
    assert_eq!(e(request(" ", "", "1", false, "", "")), "token_id is required");
    assert_eq!(e(request("t", "\t\n", "1", false, "", "")), "stablecoin is required");
    assert_eq!(e(request("t", "c", "1", false, "a", " ")), "wallet_from and wallet_to are required");
    assert_eq!(e(request("t", "c", "NaN", false, "a", "b")), "amount must be a positive finite number");
    let rej = execute_settlement(&request("", "c", "1", true, "a", "b")).unwrap_err();
    assert_eq!(rej.status_code, BAD_REQUEST);
    assert_eq!(rej.detail, "token_id is required");
}

#[test]
fn blank_text() {
    assert!(is_blank(""));
    assert!(is_blank(" \t\u{3000}\u{a0}"));
    assert!(!is_blank(" x "));
}
