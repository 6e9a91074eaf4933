use agronet_backend::blockchain::tx_builder::{
    cap_gas_price, gas_limit_with_buffer, gas_limit_with_buffer_checked, max_gas_price_gwei_from,
    retry_decision, RetryDecision,
};

#[test]
fn test_tx_builder_config() {
    assert_eq!(max_gas_price_gwei_from(None), 100);
}

#[test]
fn gas_settings() {
    assert_eq!(max_gas_price_gwei_from(Some("250".to_string())), 250);
    assert_eq!(max_gas_price_gwei_from(Some("-1".to_string())), 100);
    assert_eq!(cap_gas_price(5, 100), 5);
    assert_eq!(cap_gas_price(200_000_000_000, 100), 100_000_000_000);
}

#[test]
fn retries_back_off() {
    assert_eq!(retry_decision(0, 3), RetryDecision::RetryAfter { attempt: 1, delay_secs: 2 });
    assert_eq!(retry_decision(2, 3), RetryDecision::RetryAfter { attempt: 3, delay_secs: 8 });
    assert_eq!(retry_decision(3, 3), RetryDecision::GiveUp);
    assert_eq!(retry_decision(0, 0), RetryDecision::GiveUp);
}

#[test]
fn gas_buffer() {
    assert_eq!(gas_limit_with_buffer([21000, 0, 0, 0]), [25200, 0, 0, 0]);
    assert_eq!(gas_limit_with_buffer([1001, 0, 0, 0]), [1201, 0, 0, 0]);
    assert_eq!(gas_limit_with_buffer([0, 1, 0, 0]), [3689348814741910323, 1, 0, 0]);
    assert!(gas_limit_with_buffer_checked([0, 0, 0, u64::MAX]).is_none());
}
