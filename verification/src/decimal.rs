//! Decimal amounts, computed with `rust_decimal`.
//!
//! An [`Amount`] holds a `rust_decimal::Decimal` as its parts: a mantissa of at
//! most 96 bits and a scale of at most 28, standing for `mantissa / 10^scale`.
//! Arithmetic, parsing and display are done by `rust_decimal` itself.
use vstd::prelude::*;
use rust_decimal::Decimal;
use std::str::FromStr;
use crate::text::{decimal_text, digit_char};

verus! {

/// Largest magnitude of a mantissa (96 bits).
pub const MAX_MANTISSA: i128 = 0xFFFF_FFFF_FFFF_FFFF_FFFF_FFFF;

/// Largest scale.
pub const MAX_SCALE: u32 = 28;

/// Ten to the power `n`.
pub open spec fn pow10(n: nat) -> int
    decreases n,
{
    if n == 0 {
        1
    } else {
        10 * pow10((n - 1) as nat)
    }
}

/// Powers of ten are positive.
pub proof fn lemma_pow10_positive(n: nat)
    ensures
        pow10(n) >= 1,
    decreases n,
{
    if n > 0 {
        lemma_pow10_positive((n - 1) as nat);
    }
}

/// Parts that a `Decimal` can have.
pub open spec fn parts_wf(parts: (i128, u32)) -> bool {
    parts.1 <= MAX_SCALE && -MAX_MANTISSA <= parts.0 <= MAX_MANTISSA
}

/// `value(a) < value(b)` for parts standing for `mantissa / 10^scale`.
pub open spec fn parts_less(a: (i128, u32), b: (i128, u32)) -> bool {
    a.0 * pow10(b.1 as nat) < b.0 * pow10(a.1 as nat)
}

/// `value(a) <= value(b)` and `value(b) <= value(c)` give `value(a) <= value(c)`.
pub proof fn lemma_parts_le_trans(a: (i128, u32), b: (i128, u32), c: (i128, u32))
    requires
        !parts_less(b, a),
        !parts_less(c, b),
    ensures
        !parts_less(c, a),
{
    let pa = pow10(a.1 as nat);
    let pb = pow10(b.1 as nat);
    let pc = pow10(c.1 as nat);
    lemma_pow10_positive(a.1 as nat);
    lemma_pow10_positive(b.1 as nat);
    lemma_pow10_positive(c.1 as nat);
    let (a0, b0, c0) = (a.0 as int, b.0 as int, c.0 as int);
    assert(a0 * pc <= c0 * pa) by (nonlinear_arith)
        requires
            a0 * pb <= b0 * pa,
            b0 * pc <= c0 * pb,
            pa >= 1,
            pb >= 1,
            pc >= 1,
    ;
}

/// The parts of `Decimal::from_str(text)`, when it succeeds.
pub uninterp spec fn decimal_parse(text: Seq<char>) -> Option<(i128, u32)>;

/// The parts of `a.checked_mul(b)` for decimals with these parts.
pub uninterp spec fn decimal_product(a: (i128, u32), b: (i128, u32)) -> Option<(i128, u32)>;

/// The sign and the integer part of `mantissa / 10^scale`, truncated toward
/// zero: what `Decimal` displays before the point.
pub open spec fn integer_part_text(mantissa: int, scale: nat) -> Seq<char> {
    let n: nat = if mantissa < 0 {
        (-mantissa) as nat
    } else {
        mantissa as nat
    };
    (if mantissa < 0 {
        "-"@
    } else {
        ""@
    }) + (if n < pow10(scale) {
        "0"@
    } else {
        decimal_text(n / (pow10(scale) as nat))
    })
}

/// What `Decimal` displays from the point on: nothing for scale zero, else the
/// point and the last `scale` digits.
pub open spec fn display_tail(parts: (i128, u32)) -> Seq<char> {
    let magnitude: nat = if parts.0 < 0 {
        (-parts.0) as nat
    } else {
        parts.0 as nat
    };
    let d = zero_padded(mantissa_digits(magnitude), parts.1 as nat);
    if parts.1 == 0 {
        Seq::empty()
    } else {
        "."@ + d.skip(d.len() - parts.1)
    }
}

proof fn lemma_digits_len(n: nat, k: nat)
    ensures
        mantissa_digits(n).len() <= k <==> n < pow10(k),
    decreases n,
{
    lemma_pow10_positive(k);
    if n > 0 {
        if k > 0 {
            lemma_digits_len(n / 10, (k - 1) as nat);
            assert(pow10(k) == 10 * pow10((k - 1) as nat));
        }
    }
}

proof fn lemma_digits_take(n: nat, k: nat)
    requires
        n >= pow10(k),
    ensures
        mantissa_digits(n).len() >= k,
        mantissa_digits(n).take(mantissa_digits(n).len() - k) == mantissa_digits(n / (pow10(k) as nat)),
    decreases k,
{
    lemma_pow10_positive(k);
    if k == 0 {
        assert(mantissa_digits(n).take(mantissa_digits(n).len() as int) =~= mantissa_digits(n));
    } else {
        let p = pow10((k - 1) as nat);
        lemma_pow10_positive((k - 1) as nat);
        assert(pow10(k) == 10 * p);
        assert(n / 10 >= p);
        lemma_digits_take(n / 10, (k - 1) as nat);
        let d = mantissa_digits(n / 10);
        assert(mantissa_digits(n) == d.push(digit_char(n % 10)));
        assert(mantissa_digits(n).take(mantissa_digits(n).len() - k) =~= d.take(d.len() - (k - 1)));
        vstd::arithmetic::div_mod::lemma_div_denominator(n as int, 10, p);
    }
}

proof fn lemma_digits_text(n: nat)
    requires
        n > 0,
    ensures
        mantissa_digits(n) == decimal_text(n),
    decreases n,
{
    if n >= 10 {
        lemma_digits_text(n / 10);
    } else {
        assert(mantissa_digits(n / 10) =~= Seq::<char>::empty());
        assert(mantissa_digits(n) =~= seq![digit_char(n)]);
    }
}

/// `Decimal`'s display is the sign and integer part, then the point and
/// fraction digits.
pub proof fn lemma_display_parts(parts: (i128, u32))
    ensures
        display_text(parts) == integer_part_text(parts.0 as int, parts.1 as nat) + display_tail(
            parts,
        ),
{
    let magnitude: nat = if parts.0 < 0 {
        (-parts.0) as nat
    } else {
        parts.0 as nat
    };
    let k = parts.1 as nat;
    let digits = mantissa_digits(magnitude);
    let d = zero_padded(digits, k);
    let whole = d.len() - k;
    lemma_digits_len(magnitude, k);
    lemma_pow10_positive(k);
    reveal_strlit("0");
    reveal_strlit("");
    if magnitude < pow10(k) {
        assert(digits.len() <= k);
        assert(d.len() == k);
        if k == 0 {
            assert(digits.len() == 0);
        }
    } else {
        lemma_digits_take(magnitude, k);
        let p = pow10(k) as nat;
        assert(magnitude / p >= 1) by (nonlinear_arith)
            requires
                magnitude >= p,
                p >= 1,
        ;
        lemma_digits_text(magnitude / (pow10(k) as nat));
        assert(d == digits);
        if k == 0 {
            assert(digits.take(digits.len() as int) =~= digits);
            assert(pow10(k) == 1);
            assert(magnitude / 1nat == magnitude);
        }
    }
    let sign = if parts.0 < 0 {
        "-"@
    } else {
        ""@
    };
    if k == 0 {
        assert(display_tail(parts) =~= Seq::<char>::empty());
        assert(integer_part_text(parts.0 as int, k) + Seq::<char>::empty() =~= integer_part_text(
            parts.0 as int,
            k,
        ));
    } else {
        assert(display_text(parts) =~= sign + (if whole == 0 {
            "0"@
        } else {
            d.take(whole)
        }) + display_tail(parts));
    }
}

/// Whether the exact product of decimals with these parts is one a `Decimal`
/// holds: its mantissa within 96 bits and its scale within 28.
pub open spec fn product_fits(a: (i128, u32), b: (i128, u32)) -> bool {
    -MAX_MANTISSA <= a.0 * b.0 <= MAX_MANTISSA && a.1 + b.1 <= MAX_SCALE
}

/// The exact product of decimals with these parts, where it fits: mantissas
/// multiplied and scales added, and plain zero (scale 0) where it is zero.
pub open spec fn exact_product(a: (i128, u32), b: (i128, u32)) -> (i128, u32) {
    if a.0 * b.0 == 0 {
        (0i128, 0u32)
    } else {
        ((a.0 * b.0) as i128, (a.1 + b.1) as u32)
    }
}

/// Whether `s` stands for the exact sum of `a` and `b` in value:
/// `s.0 / 10^s.1 == a.0 / 10^a.1 + b.0 / 10^b.1`, multiplied out.
pub open spec fn sum_is_exact(a: (i128, u32), b: (i128, u32), s: (i128, u32)) -> bool {
    s.0 * pow10(a.1 as nat) * pow10(b.1 as nat) == (a.0 * pow10(b.1 as nat) + b.0 * pow10(
        a.1 as nat,
    )) * pow10(s.1 as nat)
}

/// Whether two non-negative decimals have a sum that a `Decimal` holds at the
/// larger of their scales: both mantissas brought to that scale add up to at
/// most 96 bits.
pub open spec fn sum_fits(a: (i128, u32), b: (i128, u32)) -> bool {
    let scale: nat = if a.1 >= b.1 {
        a.1 as nat
    } else {
        b.1 as nat
    };
    &&& 0 <= a.0
    &&& 0 <= b.0
    &&& a.0 * pow10((scale - a.1) as nat) + b.0 * pow10((scale - b.1) as nat) <= MAX_MANTISSA
}

/// Exact sums keep the order of what is added: with `t` added to both,
/// `value(a1) <= value(a2)` gives `value(s1) <= value(s2)`.
pub proof fn lemma_exact_sums_ordered(
    t: (i128, u32),
    a1: (i128, u32),
    a2: (i128, u32),
    s1: (i128, u32),
    s2: (i128, u32),
)
    requires
        sum_is_exact(t, a1, s1),
        sum_is_exact(t, a2, s2),
        !parts_less(a2, a1),
    ensures
        !parts_less(s2, s1),
{
    let pt = pow10(t.1 as nat);
    let p1 = pow10(a1.1 as nat);
    let p2 = pow10(a2.1 as nat);
    let q1 = pow10(s1.1 as nat);
    let q2 = pow10(s2.1 as nat);
    lemma_pow10_positive(t.1 as nat);
    lemma_pow10_positive(a1.1 as nat);
    lemma_pow10_positive(a2.1 as nat);
    lemma_pow10_positive(s1.1 as nat);
    lemma_pow10_positive(s2.1 as nat);
    let (tv, x1, x2, v1, v2) = (t.0 as int, a1.0 as int, a2.0 as int, s1.0 as int, s2.0 as int);
    let w1 = tv * p1 + x1 * pt;
    let w2 = tv * p2 + x2 * pt;
    assert(w1 * p2 <= w2 * p1) by (nonlinear_arith)
        requires
            x1 * p2 <= x2 * p1,
            pt >= 1,
            w1 == tv * p1 + x1 * pt,
            w2 == tv * p2 + x2 * pt,
    ;
    assert(w1 * q1 * (p2 * q2) <= w2 * q2 * (p1 * q1)) by (nonlinear_arith)
        requires
            w1 * p2 <= w2 * p1,
            q1 >= 1,
            q2 >= 1,
    ;
    let big = pt * p1 * p2;
    let e1 = v1 * pt * p1;
    let e2 = v2 * pt * p2;
    assert(v1 * q2 * big == e1 * (p2 * q2)) by (nonlinear_arith)
        requires
            big == pt * p1 * p2,
            e1 == v1 * pt * p1,
    ;
    assert(v2 * q1 * big == e2 * (p1 * q1)) by (nonlinear_arith)
        requires
            big == pt * p1 * p2,
            e2 == v2 * pt * p2,
    ;
    assert(e1 == w1 * q1);
    assert(e2 == w2 * q2);
    assert(e1 * (p2 * q2) == w1 * q1 * (p2 * q2));
    assert(e2 * (p1 * q1) == w2 * q2 * (p1 * q1));
    assert(v1 * q2 * big <= v2 * q1 * big);
    assert(big >= 1) by (nonlinear_arith)
        requires
            big == pt * p1 * p2,
            pt >= 1,
            p1 >= 1,
            p2 >= 1,
    ;
    assert(v1 * q2 <= v2 * q1) by (nonlinear_arith)
        requires
            v1 * q2 * big <= v2 * q1 * big,
            big >= 1,
    ;
}

/// The parts of `a.checked_add(b)` for decimals with these parts.
pub uninterp spec fn decimal_sum(a: (i128, u32), b: (i128, u32)) -> Option<(i128, u32)>;

/// The decimal digits of `n`, most significant first; none for zero.
pub open spec fn mantissa_digits(n: nat) -> Seq<char>
    decreases n,
{
    if n == 0 {
        Seq::empty()
    } else {
        mantissa_digits(n / 10).push(digit_char(n % 10))
    }
}

/// `d` with zeros in front up to `width` characters.
pub open spec fn zero_padded(d: Seq<char>, width: nat) -> Seq<char> {
    if d.len() >= width {
        d
    } else {
        Seq::new((width - d.len()) as nat, |i: int| '0') + d
    }
}

/// The text `Decimal`'s `Display` writes for a decimal with these parts: a `-`
/// for a negative mantissa, the digits of the mantissa's magnitude padded with
/// zeros to at least `scale` digits, and, for a positive scale, a point before
/// the last `scale` digits, with `0` before the point where no digit is left;
/// `0` for a zero mantissa of scale zero. Trailing zeros are kept.
pub open spec fn display_text(parts: (i128, u32)) -> Seq<char> {
    let sign = if parts.0 < 0 {
        "-"@
    } else {
        ""@
    };
    let magnitude: nat = if parts.0 < 0 {
        (-parts.0) as nat
    } else {
        parts.0 as nat
    };
    let d = zero_padded(mantissa_digits(magnitude), parts.1 as nat);
    let whole = d.len() - parts.1;
    let body = if parts.1 == 0 {
        if d.len() == 0 {
            "0"@
        } else {
            d
        }
    } else {
        (if whole == 0 {
            "0"@
        } else {
            d.take(whole)
        }) + "."@ + d.skip(whole)
    };
    sign + body
}

/// What `Decimal` displays for a decimal with these parts whose zero may carry
/// a minus sign: `-` before the text of a negative zero.
pub open spec fn signed_display(parts: (i128, u32), negative_zero: bool) -> Seq<char> {
    if negative_zero {
        "-"@ + display_text(parts)
    } else {
        display_text(parts)
    }
}

/// A decimal number: `mantissa / 10^scale`. Like a `Decimal`, a zero may carry
/// a minus sign; it changes only how the zero is displayed.
#[derive(Debug, Clone, Copy)]
pub struct Amount {
    mantissa: i128,
    scale: u32,
    negative_zero: bool,
}

impl Amount {
    #[verifier::type_invariant]
    spec fn inv(&self) -> bool {
        &&& parts_wf((self.mantissa, self.scale))
        &&& self.negative_zero ==> self.mantissa == 0
    }

    /// Whether this is a zero with a minus sign.
    pub closed spec fn is_negative_zero(&self) -> bool {
        self.negative_zero
    }

    /// Whether this is a zero with a minus sign.
    pub fn negative_zero(&self) -> (r: bool)
        ensures
            r == self.is_negative_zero(),
            r ==> self.parts().0 == 0,
    {
        proof {
            use_type_invariant(self);
        }
        self.negative_zero
    }

    /// The amount with these parts and sign (as a `Decimal`'s mantissa, scale
    /// and `is_sign_negative`), when the parts are within range; only a zero
    /// keeps the sign apart from its mantissa.
    pub fn from_decimal_parts(mantissa: i128, scale: u32, sign_negative: bool) -> (r: Option<Amount>)
        ensures
            match r {
                Some(a) => parts_wf((mantissa, scale)) && a.parts() == (mantissa, scale)
                    && a.is_negative_zero() == (sign_negative && mantissa == 0),
                None => !parts_wf((mantissa, scale)),
            },
    {
        if scale <= MAX_SCALE && -MAX_MANTISSA <= mantissa && mantissa <= MAX_MANTISSA {
            Some(Amount { mantissa, scale, negative_zero: sign_negative && mantissa == 0 })
        } else {
            None
        }
    }

    /// The mantissa and the scale.
    pub closed spec fn parts(&self) -> (i128, u32) {
        (self.mantissa, self.scale)
    }

    /// The amount with these parts, when they are within range (as
    /// `Decimal::try_from_i128_with_scale`).
    pub fn from_parts(mantissa: i128, scale: u32) -> (r: Option<Amount>)
        ensures
            match r {
                Some(a) => parts_wf((mantissa, scale)) && a.parts() == (mantissa, scale)
                    && !a.is_negative_zero(),
                None => !parts_wf((mantissa, scale)),
            },
    {
        if scale <= MAX_SCALE && -MAX_MANTISSA <= mantissa && mantissa <= MAX_MANTISSA {
            Some(Amount { mantissa, scale, negative_zero: false })
        } else {
            None
        }
    }

    /// A whole number.
    pub fn from_integer(n: i64) -> (r: Amount)
        ensures
            r.parts() == (n as i128, 0u32),
            !r.is_negative_zero(),
    {
        Amount { mantissa: n as i128, scale: 0, negative_zero: false }
    }

    /// A whole number given as an unsigned 64-bit value.
    pub fn from_integer_u64(n: u64) -> (r: Amount)
        ensures
            r.parts() == (n as i128, 0u32),
            !r.is_negative_zero(),
    {
        Amount { mantissa: n as i128, scale: 0, negative_zero: false }
    }

    /// Zero.
    pub fn zero() -> (r: Amount)
        ensures
            r.parts() == (0i128, 0u32),
            !r.is_negative_zero(),
    {
        Amount { mantissa: 0, scale: 0, negative_zero: false }
    }

    /// The mantissa.
    pub fn mantissa(&self) -> (r: i128)
        ensures
            r == self.parts().0,
    {
        self.mantissa
    }

    /// The scale.
    pub fn scale(&self) -> (r: u32)
        ensures
            r == self.parts().1,
    {
        self.scale
    }

    /// Parses a decimal (`Decimal::from_str`).
    pub fn parse(text: &str) -> (r: Option<Amount>)
        ensures
            match r {
                Some(a) => decimal_parse(text@) == Some(a.parts()),
                None => decimal_parse(text@) is None,
            },
    {
        match decimal_from_str(text) {
            Some((m, s, neg)) => Some(Amount { mantissa: m, scale: s, negative_zero: neg && m == 0 }),
            None => None,
        }
    }

    /// `self * other`, or `None` where `Decimal`'s multiplication overflows.
    pub fn checked_mul(&self, other: &Amount) -> (r: Option<Amount>)
        ensures
            match r {
                Some(a) => decimal_product(self.parts(), other.parts()) == Some(a.parts())
                    && !a.is_negative_zero(),
                None => decimal_product(self.parts(), other.parts()) is None,
            },
            product_fits(self.parts(), other.parts()) ==> decimal_product(
                self.parts(),
                other.parts(),
            ) == Some(exact_product(self.parts(), other.parts())),
    {
        proof {
            use_type_invariant(self);
            use_type_invariant(other);
        }
        match decimal_checked_mul(self.mantissa, self.scale, other.mantissa, other.scale) {
            Some((m, s)) => Some(Amount { mantissa: m, scale: s, negative_zero: false }),
            None => None,
        }
    }

    /// `self + other`, or `None` where `Decimal`'s addition overflows.
    pub fn checked_add(&self, other: &Amount) -> (r: Option<Amount>)
        ensures
            match r {
                Some(a) => decimal_sum(self.parts(), other.parts()) == Some(a.parts())
                    && !a.is_negative_zero(),
                None => decimal_sum(self.parts(), other.parts()) is None,
            },
            sum_fits(self.parts(), other.parts()) ==> (decimal_sum(self.parts(), other.parts())
                matches Some(p) && sum_is_exact(self.parts(), other.parts(), p)),
    {
        proof {
            use_type_invariant(self);
            use_type_invariant(other);
        }
        match decimal_checked_add(self.mantissa, self.scale, other.mantissa, other.scale) {
            Some((m, s)) => Some(Amount { mantissa: m, scale: s, negative_zero: false }),
            None => None,
        }
    }

    /// Whether `self` is less than `other` in value.
    pub fn less_than(&self, other: &Amount) -> (r: bool)
        ensures
            r == parts_less(self.parts(), other.parts()),
    {
        proof {
            use_type_invariant(self);
            use_type_invariant(other);
        }
        decimal_less(self.mantissa, self.scale, other.mantissa, other.scale)
    }

    /// The text `Decimal`'s `Display` writes for this amount.
    pub fn to_text(&self) -> (r: String)
        ensures
            r@ == signed_display(self.parts(), self.is_negative_zero()),
            !self.is_negative_zero() || self.parts().0 == 0,
    {
        proof {
            use_type_invariant(self);
        }
        decimal_to_string(self.mantissa, self.scale, self.mantissa < 0 || self.negative_zero)
    }
}

/// `Decimal::from_str`: on success, the parts of the parsed decimal, which a
/// `Decimal` always keeps within 96 bits and scale 28. Which texts parse, and
/// how digits beyond 28 places are rounded, is left to the name `decimal_parse`.
/// The third part is `is_sign_negative`: set for a negative mantissa, clear
/// for a positive one; which zeros carry it is left unstated.
#[verifier::external_body]
fn decimal_from_str(text: &str) -> (r: Option<(i128, u32, bool)>)
    ensures
        r is None <==> decimal_parse(text@) is None,
        r matches Some(p) ==> decimal_parse(text@) == Some((p.0, p.1)),
        r matches Some(p) ==> parts_wf((p.0, p.1)),
        r matches Some(p) ==> (p.0 < 0 ==> p.2),
        r matches Some(p) ==> (p.0 > 0 ==> !p.2),
{
    Decimal::from_str(text).ok().map(|d| (d.mantissa(), d.scale(), d.is_sign_negative()))
}

/// `Decimal::checked_mul` on the decimals with these parts: `None` where the
/// product overflows, else the product's parts (rounded by `rust_decimal` where
/// it needs more than 96 bits or 28 places; left to the name `decimal_product`).
/// Where the exact product fits, it is that product: a zero operand gives
/// `Decimal::ZERO`, and otherwise the mantissas are multiplied and the scales
/// added with no rescaling.
#[verifier::external_body]
fn decimal_checked_mul(am: i128, as_: u32, bm: i128, bs: u32) -> (r: Option<(i128, u32)>)
    requires
        parts_wf((am, as_)),
        parts_wf((bm, bs)),
    ensures
        r == decimal_product((am, as_), (bm, bs)),
        r matches Some(p) ==> parts_wf(p),
        product_fits((am, as_), (bm, bs)) ==> r == Some(exact_product((am, as_), (bm, bs))),
{
    let a = Decimal::from_i128_with_scale(am, as_);
    let b = Decimal::from_i128_with_scale(bm, bs);
    a.checked_mul(b).map(|d| (d.mantissa(), d.scale()))
}

/// `Decimal::checked_add` on the decimals with these parts: `None` where the
/// sum overflows, else the sum's parts (rounded by `rust_decimal` where it
/// needs more than 96 bits; left to the name `decimal_sum`). For non-negative
/// operands whose sum fits in 96 bits at the larger scale, every path of the
/// addition (zero operand, 32- and 64-bit fast paths, aligned and unaligned
/// 96-bit addition) computes that sum without rounding, so the result is the
/// exact sum in value.
#[verifier::external_body]
fn decimal_checked_add(am: i128, as_: u32, bm: i128, bs: u32) -> (r: Option<(i128, u32)>)
    requires
        parts_wf((am, as_)),
        parts_wf((bm, bs)),
    ensures
        r == decimal_sum((am, as_), (bm, bs)),
        r matches Some(p) ==> parts_wf(p),
        sum_fits((am, as_), (bm, bs)) ==> r is Some,
        r matches Some(p) ==> (sum_fits((am, as_), (bm, bs)) ==> sum_is_exact((am, as_), (bm, bs), p)),
{
    let a = Decimal::from_i128_with_scale(am, as_);
    let b = Decimal::from_i128_with_scale(bm, bs);
    a.checked_add(b)
        .map(|d| (d.mantissa(), d.scale()))
}

/// `Decimal`'s `<`: compares the values `mantissa / 10^scale` exactly.
#[verifier::external_body]
fn decimal_less(am: i128, as_: u32, bm: i128, bs: u32) -> (r: bool)
    requires
        parts_wf((am, as_)),
        parts_wf((bm, bs)),
    ensures
        r == parts_less((am, as_), (bm, bs)),
{
    Decimal::from_i128_with_scale(am, as_) < Decimal::from_i128_with_scale(bm, bs)
}

/// `Decimal`'s `to_string` (its `Display` without width or precision) of the
/// decimal with these parts and this sign (`set_sign_negative`, which for a
/// nonzero mantissa agrees with its sign): the text `signed_display` describes
/// (`Display` writes `-` for any negative sign).
#[verifier::external_body]
fn decimal_to_string(m: i128, s: u32, sign_negative: bool) -> (r: String)
    requires
        parts_wf((m, s)),
        m < 0 ==> sign_negative,
        m > 0 ==> !sign_negative,
    ensures
        r@ == signed_display((m, s), m == 0 && sign_negative),
{
    let mut d = Decimal::from_i128_with_scale(m, s);
    d.set_sign_negative(sign_negative);
    d.to_string()
}

} // verus!
