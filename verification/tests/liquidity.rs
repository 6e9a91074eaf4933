use agronet_backend::decimal::Amount;
use agronet_backend::liquidity_pull::{
    authorized_pull_amount, is_allowed_liquidity_extension, parse_swift_like, parse_total_balance,
    plan_erc8040_pull, plan_pull_checked, swift_pull_from_text, validate_contract_address,
    LiquidityError,
    LiquidityState, SwiftFields,
};

const CONTRACT: &str = "0x0123456789abcdef0123456789ABCDEF01234567";

fn state() -> LiquidityState {
    LiquidityState::from_values(Some("f.json".to_string()), None, None)
}

#[test]
fn state_defaults() {
    let s = LiquidityState::from_values(None, None, Some("oops".to_string()));
    assert_eq!(s.file_path, "/home/agronet/backend/src/Rv-offline.json");
    assert_eq!(s.max_pull_ratio.to_text(), "0.7");
    assert_eq!(s.safe_pull_limit.to_text(), "1000000");
    let t = LiquidityState::from_values(None, Some("0.5".to_string()), Some("10".to_string()));
    assert_eq!(t.max_pull_ratio.to_text(), "0.5");
    assert_eq!(t.safe_pull_limit.to_text(), "10");
}

#[test]
fn total_balance_parsing() {
    assert_eq!(parse_total_balance("USD 1234,50").unwrap().to_text(), "1234.50");
    assert_eq!(parse_total_balance("$ 99").unwrap().to_text(), "99");
    assert!(parse_total_balance("1.000,50").is_none());
    assert!(parse_total_balance("none").is_none());
}

#[test]
fn contract_address_validation() {
    assert!(validate_contract_address(&Some(CONTRACT.to_string())));
    assert!(!validate_contract_address(&Some("0x123".to_string())));
    assert!(!validate_contract_address(&Some(format!("{}\n", CONTRACT))));
    assert!(!validate_contract_address(&None));
}

#[test]
fn swift_fields() {
    let f = SwiftFields {
        current_balance: Some("1,250,000.75".to_string()),
        output_currency: Some("USDT".to_string()),
        contract_to: Some(CONTRACT.to_string()),
    };
    let (b, c, t) = parse_swift_like(&f).unwrap();
    assert_eq!(b.to_text(), "1250000.75");
    assert_eq!(c, "USDT");
    assert_eq!(t, CONTRACT);
    let missing = SwiftFields { current_balance: None, ..f.clone() };
    assert!(parse_swift_like(&missing).is_none());
}

#[test]
fn extensions() {
    assert!(is_allowed_liquidity_extension(Some("json")));
    assert!(is_allowed_liquidity_extension(Some("fin")));
    assert!(!is_allowed_liquidity_extension(Some("exe")));
    assert!(!is_allowed_liquidity_extension(None));
}

#[test]
fn pull_amount_is_capped() {
    let s = state();
    let big = Amount::from_integer(10_000_000);
    assert_eq!(authorized_pull_amount(&big, &s).to_text(), "1000000");
    let small = Amount::from_integer(100);
    assert_eq!(authorized_pull_amount(&small, &s).to_text(), "70.0");
}

#[test]
fn erc8040_plan() {
    let plan = plan_erc8040_pull(
        Some("100".to_string()),
        Some(CONTRACT.to_string()),
        None,
        &state(),
        1_700_000_000,
    )
    .unwrap()
    .unwrap();
    assert_eq!(plan.token_id, "ERC8040-1700000000");
    assert_eq!(plan.stablecoin, "USDT");
    assert_eq!(plan.pulled_amount.to_text(), "70.0");
    assert_eq!(plan.balance.to_text(), "100");
    assert_eq!(plan.source_format, "ERC-8040");
    assert_eq!(plan.contract_address, CONTRACT);
    assert_eq!(plan.audit_hash, "ATF-AI-AUDIT-CE23125810205785B0A08F5F704B5E16");
}

#[test]
fn pull_errors() {
    let s = state();
    assert!(matches!(
        plan_erc8040_pull(None, Some(CONTRACT.to_string()), None, &s, 0),
        Some(Err(LiquidityError::NoTotalBalance))
    ));
    let e = plan_pull_checked(Amount::from_integer(5), Some("0x1".to_string()), "USDT".to_string(), &s, 0, "SWIFT")
        .unwrap()
        .unwrap_err();
    assert!(matches!(e, LiquidityError::InvalidContractAddress));
    assert_eq!(e.code(), "invalid_contract_address");
    let e = plan_pull_checked(Amount::zero(), Some(CONTRACT.to_string()), "USDT".to_string(), &s, 0, "SWIFT")
        .unwrap()
        .unwrap_err();
    assert!(matches!(e, LiquidityError::InvalidAuthorizedAmount));
    let e = plan_pull_checked(Amount::from_integer(5), Some(CONTRACT.to_string()), " ".to_string(), &s, -1, "SWIFT")
        .unwrap()
        .unwrap_err();
    match e {
        LiquidityError::SettlementRejected(code, detail) => {
            assert_eq!(code, 400);
            assert_eq!(detail, "stablecoin is required");
        }
        other => panic!("{:?}", other),
    }
}

#[test]
fn pull_overflow_is_reported() {
    let huge = Amount::from_parts(79_228_162_514_264_337_593_543_950_335, 0).unwrap();
    let s = LiquidityState::from_values(None, Some("1000".to_string()), None);
    assert!(plan_pull_checked(huge, Some(CONTRACT.to_string()), "USDT".to_string(), &s, 0, "SWIFT").is_none());
}

#[test]
fn error_codes() {
    assert_eq!(LiquidityError::ReadError("x".to_string()).code(), "read_error");
    assert_eq!(LiquidityError::ParseError("x".to_string()).code(), "parse_error");
    assert_eq!(LiquidityError::InvalidFormat.code(), "invalid_format");
    assert_eq!(LiquidityError::NoTotalBalance.code(), "no_total_balance");
    assert_eq!(LiquidityError::InvalidAuthorizedAmount.code(), "invalid_authorized_amount");
    assert_eq!(LiquidityError::SettlementRejected(400, "d".to_string()).code(), "settlement_rejected");
}

#[test]
fn swift_files_are_read_from_their_text() {
    let s = state();
    let text = format!(
        r#"{{"swift_transaction_details": {{"CurrentBalance": "1,000.00", "output_currency": "USDC"}},
            "blockchain_transaction": {{"to": "{}"}}}}"#,
        CONTRACT
    );
    let plan = swift_pull_from_text(&text, &s, 7).unwrap().unwrap().unwrap().unwrap();
    assert_eq!(plan.stablecoin, "USDC");
    assert_eq!(plan.balance.to_text(), "1000.00");
    assert_eq!(plan.pulled_amount.to_text(), "700.000");
    assert_eq!(plan.source_format, "SWIFT");
    assert_eq!(plan.token_id, "ERC8040-7");
    assert_eq!(plan.contract_address, CONTRACT);

    assert!(matches!(swift_pull_from_text("not json", &s, 7), Err(LiquidityError::ParseError(_))));
    assert!(swift_pull_from_text(r#"{"financial_info": {}}"#, &s, 7).unwrap().is_none());
    let no_balance = r#"{"swift_transaction_details": {"output_currency": "USDC"}, "blockchain_transaction": {"to": "0x1"}}"#;
    assert!(swift_pull_from_text(no_balance, &s, 7).unwrap().is_none());
    let bad_contract = r#"{"swift_transaction_details": {"CurrentBalance": "5", "output_currency": "USDC"}, "blockchain_transaction": {"to": "0x1"}}"#;
    assert!(matches!(
        swift_pull_from_text(bad_contract, &s, 7).unwrap().unwrap().unwrap(),
        Err(LiquidityError::InvalidContractAddress)
    ));
}
