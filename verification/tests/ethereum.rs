use agronet_backend::blockchain::ethereum::{
    approved_result, base_units_integer_text_checked, generate_transaction_hash, ledger_signed, explorer_tx_url, ledger_enabled_from,
    ledger_path_from, receipt_status, transfer_amount, rejection_answer, rejection_log, rejection_reason, token_for_asset, tx_hash_from_signature,
    unsupported_asset_detail, TokenKind,
};
use agronet_backend::blockchain::networks::Network;
use agronet_backend::blockchain::tron;
use agronet_backend::decimal::Amount;
use agronet_backend::ledger::ValidationResult;
use agronet_backend::onchain_request::resolve_onchain_fields;
use agronet_backend::server_config::{bearer_token, bind_ip_from, login_outcome, port_from};

#[test]
fn ledger_settings() {
    assert!(ledger_enabled_from(Some("TRUE".to_string())));
    assert!(!ledger_enabled_from(Some("yes".to_string())));
    assert!(!ledger_enabled_from(None));
    assert_eq!(ledger_path_from(None), "m/44'/60'/0'/0/0");
    assert_eq!(ledger_path_from(Some("m/1".to_string())), "m/1");
}

#[test]
fn results() {
    let v = ValidationResult { approved: true, reason: None };
    let r = approved_result("ethereum", "abc".to_string(), false, &v);
    assert_eq!(r.status, "mocked");
    assert_eq!(r.validation_status, "approved");
    assert_eq!(r.validation_reason.as_deref(), Some("OK"));
    assert!(r.explorer_url.is_none());
    let r = approved_result("ethereum", "abc".to_string(), true, &v);
    assert_eq!(r.status, "signed");
    let t = tron::approved_result("h".to_string(), &ValidationResult { approved: true, reason: Some("fine".to_string()) });
    assert_eq!(t.network, "tron");
    assert_eq!(t.validation_reason.as_deref(), Some("fine"));
    assert_eq!(rejection_reason(&ValidationResult { approved: false, reason: None }), "rejected");
}

#[test]
fn fallback_hash_is_reported_as_mocked() {
    let v = ValidationResult { approved: true, reason: None };
    let failed: Option<Result<String, String>> = Some(Err("no device".to_string()));
    let hash = generate_transaction_hash(true, failed.clone(), "mock-1".to_string());
    assert_eq!(hash, "mock-1");
    assert!(!ledger_signed(true, &failed));
    let r = approved_result("ethereum", hash, ledger_signed(true, &failed), &v);
    assert_eq!(r.status, "mocked");
    let signed: Option<Result<String, String>> = Some(Ok("0xabc".to_string()));
    let hash = generate_transaction_hash(true, signed.clone(), "mock-2".to_string());
    assert_eq!(hash, "0xabc");
    let r = approved_result("ethereum", hash, ledger_signed(true, &signed), &v);
    assert_eq!(r.status, "signed");
    assert!(!ledger_signed(false, &signed));
    assert!(!ledger_signed(true, &None));
}

#[test]
fn signature_hash() {
    let sig: Vec<u8> = (0..65).collect();
    assert_eq!(
        tx_hash_from_signature(&sig),
        "0x4bfd2c8b6f1eec7a2afeb48b934ee4b2694182027e6d0fc075074f2fabb31781"
    );
}

#[test]
fn assets_amounts_and_receipts() {
    assert_eq!(token_for_asset("usdt"), Some(TokenKind::Usdt));
    assert_eq!(token_for_asset("UsDc"), Some(TokenKind::Usdc));
    assert_eq!(token_for_asset("dai"), None);
    assert_eq!(unsupported_asset_detail("dai"), "Asset dai not supported");
    let amount = Amount::from_parts(12345, 3).unwrap(); // 12.345
    assert_eq!(base_units_integer_text_checked(&amount, 6).unwrap(), "12345000");
    assert_eq!(base_units_integer_text_checked(&amount, 2).unwrap(), "1234");
    assert!(base_units_integer_text_checked(&amount, 20).is_none());
    assert_eq!(receipt_status(Some(1)), "confirmed");
    assert_eq!(receipt_status(Some(0)), "failed");
    assert_eq!(receipt_status(None), "failed");
    assert_eq!(explorer_tx_url(Network::BaseMainnet, "0xab"), "https://basescan.org/tx/0xab");
}

#[test]
fn onchain_request_defaults() {
    let (a, h, t) = resolve_onchain_fields(None, Some("USDC".to_string()), None, Some("T".to_string()));
    assert_eq!((a.as_str(), h.as_str(), t.as_str()), ("USDC", "N/A", "T"));
    let (a, _, _) = resolve_onchain_fields(None, None, None, None);
    assert_eq!(a, "USDT");
}

#[test]
fn server_settings() {
    assert_eq!(port_from(None), 8080);
    assert_eq!(port_from(Some("9090".to_string())), 9090);
    assert_eq!(port_from(Some("70000".to_string())), 8080);
    assert_eq!(bind_ip_from(None), "127.0.0.1");
    assert_eq!(bearer_token("Bearer abc.def"), "abc.def");
    assert_eq!(bearer_token("Bearer Bearer x"), "x");
    assert_eq!(bearer_token("Token x"), "Token x");
    assert_eq!(bearer_token("Bearer"), "Bearer");
}

#[test]
fn login_needs_the_stored_password() {
    assert!(login_outcome(Some("pw".to_string()), "pw"));
    assert!(!login_outcome(Some("pw".to_string()), "PW"));
    assert!(!login_outcome(None, "pw"));
}

#[test]
fn base_units_truncate_the_scaled_amount() {
    let amount = Amount::from_parts(1234567891, 9).unwrap(); // 1.234567891
    assert_eq!(base_units_integer_text_checked(&amount, 6).unwrap(), "1234567");
    let small = Amount::from_parts(5, 3).unwrap(); // 0.005
    assert_eq!(base_units_integer_text_checked(&small, 2).unwrap(), "0");
    let zero = Amount::from_parts(0, 4).unwrap();
    assert_eq!(base_units_integer_text_checked(&zero, 18).unwrap(), "0");
}

#[test]
fn rejections_are_logged_and_answered() {
    let v = ValidationResult { approved: false, reason: Some("Daily limit exceeded".to_string()) };
    let log = rejection_log(&v);
    assert_eq!(log.tx_hash, "REJECTED");
    assert_eq!(log.status, "rejected");
    assert_eq!(log.validation_status, "rejected");
    assert_eq!(log.validation_reason, "Daily limit exceeded");
    let amount = Amount::from_parts(150, 2).unwrap();
    let a = rejection_answer("tron", &amount, "USDT", &v);
    assert_eq!(a.http_status, 400);
    assert_eq!(a.status, "rejected");
    assert_eq!(a.reason, "Daily limit exceeded");
    assert_eq!(a.channel, "tron");
    assert_eq!(a.amount, "1.50");
    assert_eq!(a.currency, "USDT");
    let none = ValidationResult { approved: false, reason: None };
    assert_eq!(rejection_log(&none).validation_reason, "rejected");
}

#[test]
fn transfer_amounts_in_base_units() {
    let amount = Amount::from_parts(12345, 3).unwrap(); // 12.345
    let limbs = transfer_amount(&amount, 6).unwrap().unwrap();
    assert_eq!(limbs, [12_345_000, 0, 0, 0]);
    let negative = Amount::from_parts(-5, 0).unwrap();
    assert_eq!(
        transfer_amount(&negative, 2).unwrap().unwrap_err(),
        "Failed to convert amount: a character is not in the range 0-9"
    );
    assert!(transfer_amount(&amount, 20).is_none());
}

#[test]
fn a_negative_zero_amount_is_answered_with_its_sign() {
    let v = ValidationResult { approved: false, reason: None };
    let minus_zero = Amount::from_decimal_parts(0, 1, true).unwrap();
    assert!(minus_zero.negative_zero());
    assert_eq!(minus_zero.to_text(), "-0.0");
    assert_eq!(rejection_answer("ethereum", &minus_zero, "USDT", &v).amount, "-0.0");
    let minus_one = Amount::from_decimal_parts(-10, 1, true).unwrap();
    assert!(!minus_one.negative_zero());
    assert_eq!(minus_one.to_text(), "-1.0");
}
