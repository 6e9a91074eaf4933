use agronet_backend::decimal::Amount;
use agronet_backend::ledger::{
    daily_limit_decision, daily_limit_decision_checked, screen_onchain_request, LedgerRule,
    RuleLookup,
};

fn rule() -> LedgerRule {
    LedgerRule {
        id: 1,
        min_amount: Amount::from_integer(10),
        max_amount: Amount::from_integer(1000),
        daily_limit: Amount::from_integer(5000),
    }
}

#[test]
fn lookup_failures() {
    let amount = Amount::from_integer(50);
    let r = screen_onchain_request(RuleLookup::NotFound, &amount).unwrap_err();
    assert!(!r.approved);
    assert_eq!(r.reason.unwrap(), "No active ledger rule for channel/currency");
    let r = screen_onchain_request(RuleLookup::QueryFailed("boom".to_string()), &amount).unwrap_err();
    assert_eq!(r.reason.unwrap(), "Validation query failed: boom");
    let r = screen_onchain_request(RuleLookup::DecodeFailed("col".to_string()), &amount).unwrap_err();
    assert_eq!(r.reason.unwrap(), "Validation decode failed: col");
}

#[test]
fn range_checks() {
    let below = Amount::from_parts(995, 2).unwrap(); // 9.95
    let r = screen_onchain_request(RuleLookup::Found(rule()), &below).unwrap_err();
    assert_eq!(r.reason.unwrap(), "Amount outside allowed range");
    let above = Amount::from_parts(10001, 1).unwrap(); // 1000.1
    assert!(screen_onchain_request(RuleLookup::Found(rule()), &above).is_err());
    let edge = Amount::from_parts(1000000, 3).unwrap(); // 1000.000
    assert_eq!(screen_onchain_request(RuleLookup::Found(rule()), &edge).unwrap().id, 1);
}

#[test]
fn daily_limit() {
    let r = rule();
    let ok = daily_limit_decision(&r, &Amount::from_integer(100), &Amount::from_integer(4900));
    assert!(ok.approved);
    assert_eq!(ok.reason.unwrap(), "OK");
    let over = daily_limit_decision(&r, &Amount::from_integer(101), &Amount::from_integer(4900));
    assert!(!over.approved);
    assert_eq!(over.reason.unwrap(), "Daily limit exceeded");
    let max = Amount::from_parts(79_228_162_514_264_337_593_543_950_335, 0).unwrap();
    assert!(daily_limit_decision_checked(&r, &max, &max).is_none());
}

#[test]
fn lowering_an_amount_in_range_keeps_it_in_range() {
    let higher = Amount::from_parts(99950, 2).unwrap(); // 999.50
    assert!(screen_onchain_request(RuleLookup::Found(rule()), &higher).is_ok());
    for lower in [Amount::from_integer(10), Amount::from_parts(1001, 2).unwrap(), Amount::from_integer(999)] {
        assert!(screen_onchain_request(RuleLookup::Found(rule()), &lower).is_ok());
    }
}

#[test]
fn lowering_an_approved_amount_keeps_it_within_the_daily_limit() {
    let spent = Amount::from_integer(4000);
    let higher = Amount::from_integer(1000);
    assert!(daily_limit_decision_checked(&rule(), &higher, &spent).unwrap().approved);
    let lower = Amount::from_parts(99950, 2).unwrap();
    assert!(daily_limit_decision_checked(&rule(), &lower, &spent).unwrap().approved);
    let over = Amount::from_parts(100001, 2).unwrap();
    assert!(!daily_limit_decision_checked(&rule(), &over, &spent).unwrap().approved);
    let sum = spent.checked_add(&lower).unwrap();
    assert_eq!(sum.to_text(), "4999.50");
}
