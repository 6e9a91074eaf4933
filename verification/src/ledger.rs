//! Ledger rules for on-chain requests: amount range and daily limit.
//!
//! The rule and the day's approved total are read from the database by the
//! caller; the decisions on them are made here.
use vstd::prelude::*;
use crate::decimal::{
    decimal_sum, lemma_exact_sums_ordered, lemma_parts_le_trans, parts_less, sum_is_exact, Amount,
};
use crate::text::{owned, push_str};

verus! {

/// The outcome of validating a request.
#[derive(Debug, Clone)]
pub struct ValidationResult {
    pub approved: bool,
    pub reason: Option<String>,
}

/// The limits configured for a channel and currency.
#[derive(Debug, Clone)]
pub struct LedgerRule {
    pub id: i64,
    pub min_amount: Amount,
    pub max_amount: Amount,
    pub daily_limit: Amount,
}

/// What looking up the active rule gave.
#[derive(Debug, Clone)]
pub enum RuleLookup {
    /// The rule.
    Found(LedgerRule),
    /// No active rule.
    NotFound,
    /// The query failed, with the database's message.
    QueryFailed(String),
    /// A column could not be decoded, with the database's message.
    DecodeFailed(String),
}

/// A rejection with this reason.
pub open spec fn rejected_with(r: ValidationResult, reason: Seq<char>) -> bool {
    &&& !r.approved
    &&& r.reason matches Some(m)
    &&& m@ == reason
}

/// An approval with this reason.
pub open spec fn approved_with(r: ValidationResult, reason: Seq<char>) -> bool {
    &&& r.approved
    &&& r.reason matches Some(m)
    &&& m@ == reason
}

/// Whether an amount lies outside a rule's range.
pub open spec fn outside_range(rule: LedgerRule, amount: Amount) -> bool {
    parts_less(amount.parts(), rule.min_amount.parts()) || parts_less(
        rule.max_amount.parts(),
        amount.parts(),
    )
}

/// First stage of validation: the rule lookup and the amount range. Gives the
/// rule when the request passes, else the rejection.
pub fn screen_onchain_request(lookup: RuleLookup, amount: &Amount) -> (r: Result<
    LedgerRule,
    ValidationResult,
>)
    ensures
        match lookup {
            RuleLookup::NotFound => r matches Err(v) && rejected_with(
                v,
                "No active ledger rule for channel/currency"@,
            ),
            RuleLookup::QueryFailed(e) => r matches Err(v) && rejected_with(
                v,
                "Validation query failed: "@ + e@,
            ),
            RuleLookup::DecodeFailed(e) => r matches Err(v) && rejected_with(
                v,
                "Validation decode failed: "@ + e@,
            ),
            RuleLookup::Found(rule) => if outside_range(rule, *amount) {
                r matches Err(v) && rejected_with(v, "Amount outside allowed range"@)
            } else {
                r == Ok::<LedgerRule, ValidationResult>(rule)
            },
        },
{
    match lookup {
        RuleLookup::NotFound => Err(
            ValidationResult {
                approved: false,
                reason: Some(owned("No active ledger rule for channel/currency")),
            },
        ),
        RuleLookup::QueryFailed(e) => {
            let mut m = owned("Validation query failed: ");
            push_str(&mut m, e.as_str());
            Err(ValidationResult { approved: false, reason: Some(m) })
        },
        RuleLookup::DecodeFailed(e) => {
            let mut m = owned("Validation decode failed: ");
            push_str(&mut m, e.as_str());
            Err(ValidationResult { approved: false, reason: Some(m) })
        },
        RuleLookup::Found(rule) => {
            if amount.less_than(&rule.min_amount) || rule.max_amount.less_than(amount) {
                Err(
                    ValidationResult {
                        approved: false,
                        reason: Some(owned("Amount outside allowed range")),
                    },
                )
            } else {
                Ok(rule)
            }
        },
    }
}

/// The range check passes exactly when the amount is at least the rule's
/// minimum and at most its maximum in value.
pub proof fn law_range_check(rule: LedgerRule, amount: Amount)
    ensures
        !outside_range(rule, amount) <==> (!parts_less(amount.parts(), rule.min_amount.parts())
            && !parts_less(rule.max_amount.parts(), amount.parts())),
{
}

/// Whether the day's total with this amount goes over the rule's daily limit.
pub open spec fn over_daily_limit(rule: LedgerRule, amount: Amount, daily_sum: Amount) -> bool {
    match decimal_sum(daily_sum.parts(), amount.parts()) {
        Some(total) => parts_less(rule.daily_limit.parts(), total),
        None => false,
    }
}

/// The day's total with the amount goes over the limit exactly when the sum
/// exists and exceeds the daily limit in value; an amount whose sum stays at
/// the limit is within it.
pub proof fn law_daily_limit_check(rule: LedgerRule, amount: Amount, daily_sum: Amount)
    ensures
        over_daily_limit(rule, amount, daily_sum) <==> (decimal_sum(daily_sum.parts(), amount.parts())
            matches Some(total) && parts_less(rule.daily_limit.parts(), total)),
        decimal_sum(daily_sum.parts(), amount.parts()) == Some(rule.daily_limit.parts())
            ==> !over_daily_limit(rule, amount, daily_sum),
{
}

/// Second stage: the daily limit. Approves with reason `OK` unless the day's
/// approved total plus this amount exceeds the limit.
pub fn daily_limit_decision(rule: &LedgerRule, amount: &Amount, daily_sum: &Amount) -> (r:
    ValidationResult)
    requires
        decimal_sum(daily_sum.parts(), amount.parts()) is Some,
    ensures
        if over_daily_limit(*rule, *amount, *daily_sum) {
            rejected_with(r, "Daily limit exceeded"@)
        } else {
            approved_with(r, "OK"@)
        },
{
    let total = match daily_sum.checked_add(amount) {
        Some(t) => t,
        None => {
            return ValidationResult { approved: false, reason: Some(owned("Daily limit exceeded")) };
        },
    };
    if rule.daily_limit.less_than(&total) {
        ValidationResult { approved: false, reason: Some(owned("Daily limit exceeded")) }
    } else {
        ValidationResult { approved: true, reason: Some(owned("OK")) }
    }
}

/// The daily-limit stage for any inputs: `None` where adding the amount to the
/// day's total overflows a decimal (where the addition itself would fail),
/// else the decision of `daily_limit_decision`.
pub fn daily_limit_decision_checked(rule: &LedgerRule, amount: &Amount, daily_sum: &Amount) -> (r:
    Option<ValidationResult>)
    ensures
        match r {
            None => decimal_sum(daily_sum.parts(), amount.parts()) is None,
            Some(v) => decimal_sum(daily_sum.parts(), amount.parts()) is Some && if over_daily_limit(
                *rule,
                *amount,
                *daily_sum,
            ) {
                rejected_with(v, "Daily limit exceeded"@)
            } else {
                approved_with(v, "OK"@)
            },
        },
{
    match daily_sum.checked_add(amount) {
        None => None,
        Some(_) => Some(daily_limit_decision(rule, amount, daily_sum)),
    }
}

/// Lowering an approved amount keeps it approved: an amount not below the
/// rule's minimum and not above an amount that is in range and within the
/// daily limit is in range and within the daily limit too. Stated where the
/// day's total plus each amount is the exact sum (as `Amount::checked_add`
/// gives for non-negative decimals whose sum fits).
pub proof fn law_lower_amount_stays_approved(
    rule: LedgerRule,
    daily_sum: Amount,
    lower: Amount,
    higher: Amount,
)
    requires
        !outside_range(rule, higher),
        !over_daily_limit(rule, higher, daily_sum),
        !parts_less(lower.parts(), rule.min_amount.parts()),
        !parts_less(higher.parts(), lower.parts()),
        (decimal_sum(daily_sum.parts(), lower.parts()) matches Some(s) && sum_is_exact(
            daily_sum.parts(),
            lower.parts(),
            s,
        )),
        (decimal_sum(daily_sum.parts(), higher.parts()) matches Some(s) && sum_is_exact(
            daily_sum.parts(),
            higher.parts(),
            s,
        )),
    ensures
        !outside_range(rule, lower),
        !over_daily_limit(rule, lower, daily_sum),
{
    lemma_parts_le_trans(lower.parts(), higher.parts(), rule.max_amount.parts());
    let s1 = decimal_sum(daily_sum.parts(), lower.parts())->0;
    let s2 = decimal_sum(daily_sum.parts(), higher.parts())->0;
    lemma_exact_sums_ordered(daily_sum.parts(), lower.parts(), higher.parts(), s1, s2);
    lemma_parts_le_trans(s1, s2, rule.daily_limit.parts());
}

} // verus!
