//! Gas price capping, configuration and retry decisions for transactions.
use vstd::prelude::*;
use crate::text::{chars_of, parse_unsigned, parse_unsigned_text};

verus! {

/// Maximum gas price in gwei when none is configured.
pub const DEFAULT_MAX_GAS_PRICE_GWEI: u64 = 100;

/// Wei per gwei.
pub const WEI_PER_GWEI: u128 = 1_000_000_000;

/// The maximum gas price in gwei from the value of `MAX_GAS_PRICE_GWEI`: the
/// value when it reads as a `u64`, else 100.
pub fn max_gas_price_gwei_from(value: Option<String>) -> (r: u64)
    ensures
        r == match value {
            Some(v) => match parse_unsigned_text(v@, u64::MAX as nat) {
                Some(n) => n as u64,
                None => DEFAULT_MAX_GAS_PRICE_GWEI,
            },
            None => DEFAULT_MAX_GAS_PRICE_GWEI,
        },
{
    match value {
        Some(v) => {
            let cs = chars_of(v.as_str());
            match parse_unsigned(cs.as_slice(), u64::MAX) {
                Some(n) => n,
                None => DEFAULT_MAX_GAS_PRICE_GWEI,
            }
        },
        None => DEFAULT_MAX_GAS_PRICE_GWEI,
    }
}

/// A gas price capped at the maximum: the price, or `max_gas_price_gwei` gwei
/// when the price is higher.
pub fn cap_gas_price(price_wei: u128, max_gas_price_gwei: u64) -> (r: u128)
    ensures
        r == if price_wei > max_gas_price_gwei * WEI_PER_GWEI {
            max_gas_price_gwei * WEI_PER_GWEI
        } else {
            price_wei as int
        },
        r <= price_wei,
        r <= max_gas_price_gwei * WEI_PER_GWEI,
{
    assert(max_gas_price_gwei * WEI_PER_GWEI <= u64::MAX * WEI_PER_GWEI);
    let max_price: u128 = (max_gas_price_gwei as u128) * WEI_PER_GWEI;
    if price_wei > max_price {
        max_price
    } else {
        price_wei
    }
}

/// What to do after a failed send.
#[derive(Debug, Clone, Copy, PartialEq, Eq, Structural)]
pub enum RetryDecision {
    /// Report the failure.
    GiveUp,
    /// Wait `delay_secs` seconds, then make retry number `attempt`.
    RetryAfter { attempt: u32, delay_secs: u64 },
}

/// Two to the power `n`.
pub open spec fn pow2(n: nat) -> int
    decreases n,
{
    if n == 0 {
        1
    } else {
        2 * pow2((n - 1) as nat)
    }
}

/// The back-off doubles: one second before any retry, and each further step
/// twice the one before; every delay is positive.
pub proof fn law_backoff_doubles(n: nat)
    ensures
        pow2(0) == 1,
        pow2(n + 1) == 2 * pow2(n),
        pow2(n) >= 1,
    decreases n,
{
    if n > 0 {
        law_backoff_doubles((n - 1) as nat);
    }
}

/// The inputs on which the back-off delay would not fit in 64 bits.
pub open spec fn retry_delay_overflows(retries: u32, max_retries: u32) -> bool {
    retries < max_retries && retries + 1 >= 64
}

/// After the send that followed `retries` retries failed: give up once
/// `max_retries` retries were made, else retry after `2^(retries + 1)` seconds.
pub fn retry_decision(retries: u32, max_retries: u32) -> (r: RetryDecision)
    requires
        !retry_delay_overflows(retries, max_retries),
    ensures
        r == if retries >= max_retries {
            RetryDecision::GiveUp
        } else {
            RetryDecision::RetryAfter {
                attempt: (retries + 1) as u32,
                delay_secs: pow2((retries + 1) as nat) as u64,
            }
        },
{
    if retries >= max_retries {
        return RetryDecision::GiveUp;
    }
    let attempt = retries + 1;
    let mut delay: u64 = 1;
    let mut i: u32 = 0;
    while i < attempt
        invariant
            attempt < 64,
            i <= attempt,
            delay == pow2(i as nat),
            delay <= 0x8000_0000_0000_0000u64,
        decreases attempt - i,
    {
        proof {
            lemma_pow2_bound(i as nat);
        }
        delay = delay * 2;
        i = i + 1;
    }
    RetryDecision::RetryAfter { attempt, delay_secs: delay }
}

proof fn lemma_pow2_bound(n: nat)
    requires
        n < 63,
    ensures
        pow2(n) <= 0x4000_0000_0000_0000,
{
    lemma_pow2_mono(n, 62);
    reveal_with_fuel(pow2, 63);
}

proof fn lemma_pow2_mono(a: nat, b: nat)
    requires
        a <= b,
    ensures
        pow2(a) <= pow2(b),
    decreases b,
{
    if a < b {
        lemma_pow2_mono(a, (b - 1) as nat);
        lemma_pow2_positive((b - 1) as nat);
    }
}

proof fn lemma_pow2_positive(n: nat)
    ensures
        pow2(n) >= 1,
    decreases n,
{
    if n > 0 {
        lemma_pow2_positive((n - 1) as nat);
    }
}

/// The value of a 256-bit unsigned integer held as four 64-bit limbs, least
/// significant first (the layout of ethers-core's `U256`).
pub open spec fn u256_value(limbs: Seq<u64>) -> int {
    limbs[0] + limbs[1] * 0x1_0000_0000_0000_0000int + limbs[2] * 0x1_0000_0000_0000_0000_0000_0000_0000_0000int
        + limbs[3] * 0x1_0000_0000_0000_0000_0000_0000_0000_0000_0000_0000_0000_0000int
}

/// One past the largest 256-bit value.
pub open spec fn u256_limit() -> int {
    0x1_0000_0000_0000_0000_0000_0000_0000_0000_0000_0000_0000_0000_0000_0000_0000_0000int
}

/// `U256::checked_mul` by a 64-bit factor: `None` exactly when the product
/// does not fit in 256 bits, else the product.
#[verifier::external_body]
fn u256_checked_mul(limbs: [u64; 4], factor: u64) -> (r: Option<[u64; 4]>)
    ensures
        match r {
            None => u256_value(limbs@) * factor >= u256_limit(),
            Some(p) => u256_value(p@) == u256_value(limbs@) * factor,
        },
{
    ethers_core::types::U256(limbs).checked_mul(ethers_core::types::U256::from(factor)).map(|p| p.0)
}

/// `U256` division by a non-zero 64-bit divisor: the quotient rounded down.
#[verifier::external_body]
fn u256_div(limbs: [u64; 4], divisor: u64) -> (r: [u64; 4])
    requires
        divisor > 0,
    ensures
        u256_value(r@) == u256_value(limbs@) / (divisor as int),
{
    (ethers_core::types::U256(limbs) / ethers_core::types::U256::from(divisor)).0
}

/// The gas limit for an estimate: the estimate plus a 20% buffer, rounded
/// down (`estimate * 120 / 100`).
pub fn gas_limit_with_buffer(estimate: [u64; 4]) -> (r: [u64; 4])
    requires
        u256_value(estimate@) * 120 < u256_limit(),
    ensures
        u256_value(r@) == u256_value(estimate@) * 120 / 100,
{
    match u256_checked_mul(estimate, 120) {
        Some(p) => u256_div(p, 100),
        None => estimate,
    }
}

/// The buffered gas limit for any estimate: `None` where `estimate * 120`
/// does not fit in 256 bits (where the multiplication itself would fail).
pub fn gas_limit_with_buffer_checked(estimate: [u64; 4]) -> (r: Option<[u64; 4]>)
    ensures
        match r {
            None => u256_value(estimate@) * 120 >= u256_limit(),
            Some(g) => u256_value(g@) == u256_value(estimate@) * 120 / 100,
        },
{
    match u256_checked_mul(estimate, 120) {
        Some(p) => Some(u256_div(p, 100)),
        None => None,
    }
}

} // verus!
