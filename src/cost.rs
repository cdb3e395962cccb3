use vstd::prelude::*;
use crate::resources::Resources;
use vstd::arithmetic::div_mod::lemma_fundamental_div_mod_converse_div;

verus! {

/// The largest amount a cost can reach; larger results are held there.
pub const AMOUNT_CAP: u64 = 18446744073709551615;

/// `b` raised to `e`.
pub open spec fn pw(b: nat, e: nat) -> nat
    decreases e,
{
    if e == 0 {
        1
    } else {
        b * pw(b, (e - 1) as nat)
    }
}

/// `x` held at the cap.
pub open spec fn capped(x: nat) -> nat {
    if x <= AMOUNT_CAP {
        x
    } else {
        AMOUNT_CAP as nat
    }
}

/// `x / y` rounded up.
pub open spec fn div_ceil(x: nat, y: nat) -> nat
    recommends
        y > 0,
{
    ((x + y - 1) as nat / y) as nat
}

/// How a price scales with an upgrade's level.
#[derive(Debug, Clone, Copy, PartialEq, Eq, Structural)]
pub enum CostFormula {
    /// The base price at every level.
    Flat,
    /// The base price times `2^level`.
    Double,
    /// The base price times `1.2^level`, rounded up.
    Exponential,
}

/// The amount that `base` scales to at `level` under formula `f`, held at the cap.
pub open spec fn scaled(f: CostFormula, base: nat, level: nat) -> nat {
    match f {
        CostFormula::Flat => base,
        CostFormula::Double => capped(base * pw(2, level)),
        CostFormula::Exponential => capped(div_ceil(base * pw(6, level), pw(5, level))),
    }
}

/// Every entry of `base` scaled to `level`, kinds kept in order.
pub open spec fn scaled_list(f: CostFormula, base: Seq<(Resources, u64)>, level: nat) -> Seq<
    (Resources, u64),
> {
    Seq::new(base.len(), |i: int| (base[i].0, scaled(f, base[i].1 as nat, level) as u64))
}

proof fn lemma_pw_positive(b: nat, e: nat)
    requires
        b > 0,
    ensures
        pw(b, e) > 0,
    decreases e,
{
    if e > 0 {
        lemma_pw_positive(b, (e - 1) as nat);
        assert(b * pw(b, (e - 1) as nat) > 0) by (nonlinear_arith)
            requires
                b > 0,
                pw(b, (e - 1) as nat) > 0,
        ;
    }
}

proof fn lemma_pw_succ(b: nat, e: nat)
    ensures
        pw(b, e + 1) == b * pw(b, e),
{
    assert(pw(b, e + 1) == b * pw(b, ((e + 1) - 1) as nat));
}

/// `6^j * 5^i >= 6^i * 5^j` when `j >= i`: the ratio `1.2^n` grows with `n`.
proof fn lemma_ratio_grows(i: nat, j: nat)
    requires
        i <= j,
    ensures
        pw(6, j) * pw(5, i) >= pw(6, i) * pw(5, j),
    decreases j - i,
{
    if i < j {
        lemma_ratio_grows(i, (j - 1) as nat);
        let a = pw(6, (j - 1) as nat);
        let c = pw(5, (j - 1) as nat);
        lemma_pw_succ(6, (j - 1) as nat);
        lemma_pw_succ(5, (j - 1) as nat);
        let x = pw(5, i);
        let y = pw(6, i);
        assert(6 * a * x >= 5 * c * y) by (nonlinear_arith)
            requires
                a * x >= y * c,
        ;
        assert(pw(6, j) * x == 6 * a * x) by (nonlinear_arith)
            requires
                pw(6, j) == 6 * a,
        ;
        assert(y * pw(5, j) == 5 * c * y) by (nonlinear_arith)
            requires
                pw(5, j) == 5 * c,
        ;
    }
}

/// `ceil(x2 / den2) >= ceil(x1 / den1)` whenever `x2 / den2 >= x1 / den1`.
proof fn lemma_div_ceil_mono(x1: nat, den1: nat, x2: nat, den2: nat)
    requires
        den1 > 0,
        den2 > 0,
        x2 * den1 >= x1 * den2,
    ensures
        div_ceil(x2, den2) >= div_ceil(x1, den1),
{
    let c1 = div_ceil(x1, den1);
    let c2 = div_ceil(x2, den2);
    assert((x1 + den1 - 1) as nat == ((x1 + den1 - 1) as nat / den1) * den1 + ((x1 + den1 - 1) as nat % den1))
        by (nonlinear_arith)
        requires
            den1 > 0,
    ;
    assert(((x1 + den1 - 1) as nat % den1) < den1) by (nonlinear_arith)
        requires
            den1 > 0,
    ;
    assert((x2 + den2 - 1) as nat == ((x2 + den2 - 1) as nat / den2) * den2 + ((x2 + den2 - 1) as nat % den2))
        by (nonlinear_arith)
        requires
            den2 > 0,
    ;
    assert(((x2 + den2 - 1) as nat % den2) < den2) by (nonlinear_arith)
        requires
            den2 > 0,
    ;
    if c1 > 0 {
        assert((c1 - 1) * den1 < x1) by (nonlinear_arith)
            requires
                (x1 + den1 - 1) == c1 * den1 + ((x1 + den1 - 1) as nat % den1),
                ((x1 + den1 - 1) as nat % den1) >= 0,
                c1 > 0,
        ;
        assert(x2 * den1 >= x1 * den2);
        assert((c1 - 1) * den1 * den2 < x1 * den2) by (nonlinear_arith)
            requires
                (c1 - 1) * den1 < x1,
                den2 > 0,
        ;
        assert(c2 * den2 + den2 - 1 >= x2 + den2 - 1);
        assert(c2 >= c1) by (nonlinear_arith)
            requires
                (c1 - 1) * den1 * den2 < x1 * den2,
                x2 * den1 >= x1 * den2,
                c2 * den2 >= x2,
                den1 > 0,
                den2 > 0,
                c1 > 0,
        ;
    }
}

/// Over levels, the exponential price never falls.
pub proof fn lemma_exponential_monotone(base: nat, l1: nat, l2: nat)
    requires
        l1 <= l2,
    ensures
        scaled(CostFormula::Exponential, base, l2) >= scaled(CostFormula::Exponential, base, l1),
{
    lemma_ratio_grows(l1, l2);
    lemma_pw_positive(5, l1);
    lemma_pw_positive(5, l2);
    let x1 = base * pw(6, l1);
    let x2 = base * pw(6, l2);
    assert(x2 * pw(5, l1) >= x1 * pw(5, l2)) by (nonlinear_arith)
        requires
            pw(6, l2) * pw(5, l1) >= pw(6, l1) * pw(5, l2),
            x1 == base * pw(6, l1),
            x2 == base * pw(6, l2),
    ;
    lemma_div_ceil_mono(x1, pw(5, l1), x2, pw(5, l2));
}

/// One more level doubles the `Double` price, as long as the result stays under the cap.
pub proof fn lemma_double_step(base: nat, level: nat)
    requires
        base * pw(2, level + 1) <= AMOUNT_CAP,
    ensures
        scaled(CostFormula::Double, base, level + 1) == 2 * scaled(
            CostFormula::Double,
            base,
            level,
        ),
{
    lemma_pw_succ(2, level);
    assert(base * pw(2, level + 1) == 2 * (base * pw(2, level))) by (nonlinear_arith)
        requires
            pw(2, level + 1) == 2 * pw(2, level),
    ;
}

/// The number written by little-endian base-5 digits `s`.
pub open spec fn val5(s: Seq<u8>) -> nat
    decreases s.len(),
{
    if s.len() == 0 {
        0
    } else {
        s[0] as nat + 5 * val5(s.subrange(1, s.len() as int))
    }
}

/// Every entry is a base-5 digit.
pub open spec fn digits_ok(s: Seq<u8>) -> bool {
    forall|i: int| 0 <= i < s.len() ==> #[trigger] s[i] < 5
}

proof fn lemma_val5_push(s: Seq<u8>, d: u8)
    ensures
        val5(s.push(d)) == val5(s) + d * pw(5, s.len()),
    decreases s.len(),
{
    if s.len() == 0 {
        assert(s.push(d).subrange(1, 1) =~= Seq::<u8>::empty());
        assert(val5(Seq::<u8>::empty()) == 0);
        assert(s.push(d)[0] == d);
        assert(pw(5, 0) == 1);
    } else {
        let t = s.subrange(1, s.len() as int);
        assert(s.push(d)[0] == s[0]);
        assert(s.push(d).subrange(1, s.len() as int + 1) =~= t.push(d));
        lemma_val5_push(t, d);
        lemma_pw_succ(5, t.len());
        assert(5 * (val5(t) + d * pw(5, t.len())) == 5 * val5(t) + d * pw(5, s.len()))
            by (nonlinear_arith)
            requires
                pw(5, s.len()) == 5 * pw(5, t.len()),
        ;
    }
}

proof fn lemma_val5_step(s: Seq<u8>, i: int)
    requires
        0 <= i < s.len(),
    ensures
        val5(s.subrange(i, s.len() as int)) == s[i] as nat + 5 * val5(
            s.subrange(i + 1, s.len() as int),
        ),
{
    let t = s.subrange(i, s.len() as int);
    assert(t.subrange(1, t.len() as int) =~= s.subrange(i + 1, s.len() as int));
}

proof fn lemma_val5_split(s: Seq<u8>, m: nat)
    requires
        m <= s.len(),
    ensures
        val5(s) == val5(s.subrange(0, m as int)) + pw(5, m) * val5(
            s.subrange(m as int, s.len() as int),
        ),
    decreases m,
{
    if m == 0 {
        assert(s.subrange(0, s.len() as int) =~= s);
        assert(s.subrange(0, 0) =~= Seq::<u8>::empty());
    } else {
        let k = (m - 1) as nat;
        lemma_val5_split(s, k);
        assert(s.subrange(0, m as int) =~= s.subrange(0, k as int).push(s[k as int]));
        lemma_val5_push(s.subrange(0, k as int), s[k as int]);
        lemma_val5_step(s, k as int);
        lemma_pw_succ(5, k);
        let lo = val5(s.subrange(0, k as int));
        let hi = val5(s.subrange(m as int, s.len() as int));
        let d = s[k as int] as nat;
        let p = pw(5, k);
        let mid = val5(s.subrange(k as int, s.len() as int));
        assert(mid == d + 5 * hi);
        assert(val5(s.subrange(0, m as int)) == lo + d * p);
        assert(pw(5, m) == 5 * p);
        let whole = val5(s);
        let low = val5(s.subrange(0, m as int));
        let scale = pw(5, m);
        assert(whole == lo + p * mid);
        assert(whole == low + scale * hi) by (nonlinear_arith)
            requires
                whole == lo + p * mid,
                mid == d + 5 * hi,
                low == lo + d * p,
                scale == 5 * p,
        ;
    }
}

proof fn lemma_val5_bound(s: Seq<u8>)
    requires
        digits_ok(s),
    ensures
        val5(s) < pw(5, s.len()),
    decreases s.len(),
{
    if s.len() > 0 {
        let t = s.subrange(1, s.len() as int);
        assert(digits_ok(t)) by {
            assert forall|i: int| 0 <= i < t.len() implies #[trigger] t[i] < 5 by {
                assert(t[i] == s[i + 1]);
            }
        }
        lemma_val5_bound(t);
        lemma_pw_succ(5, t.len());
        assert(s[0] < 5);
    }
}

proof fn lemma_val5_zero(s: Seq<u8>)
    ensures
        (val5(s) == 0) == (forall|i: int| 0 <= i < s.len() ==> #[trigger] s[i] == 0),
    decreases s.len(),
{
    if s.len() > 0 {
        let t = s.subrange(1, s.len() as int);
        lemma_val5_zero(t);
        if val5(s) == 0 {
            assert forall|i: int| 0 <= i < s.len() implies #[trigger] s[i] == 0 by {
                if i > 0 {
                    assert(t[i - 1] == s[i]);
                }
            }
        } else if forall|i: int| 0 <= i < s.len() ==> #[trigger] s[i] == 0 {
            assert forall|i: int| 0 <= i < t.len() implies #[trigger] t[i] == 0 by {
                assert(t[i] == s[i + 1]);
            }
            assert(s[0] == 0);
        }
    }
}

proof fn lemma_pw_mono(base: nat, a: nat, b: nat)
    requires
        base >= 1,
        a <= b,
    ensures
        pw(base, a) <= pw(base, b),
    decreases b - a,
{
    if a < b {
        lemma_pw_mono(base, a, (b - 1) as nat);
        lemma_pw_succ(base, (b - 1) as nat);
        lemma_pw_positive(base, (b - 1) as nat);
        assert(pw(base, (b - 1) as nat) <= base * pw(base, (b - 1) as nat)) by (nonlinear_arith)
            requires
                base >= 1,
        ;
    }
}

proof fn lemma_pw5_mono(a: nat, b: nat)
    requires
        a <= b,
    ensures
        pw(5, a) <= pw(5, b),
{
    lemma_pw_mono(5, a, b);
}

/// The base-5 digits of `b`.
fn to_digits(b: u64) -> (r: Vec<u8>)
    ensures
        val5(r@) == b,
        digits_ok(r@),
        r@.len() <= 28,
{
    let mut d: Vec<u8> = Vec::new();
    let mut x: u64 = b;
    assert(pw(5, 0) == 1);
    assert(d@.len() == 0);
    assert(val5(d@) == 0);
    while x > 0
        invariant
            b == val5(d@) + pw(5, d@.len()) * x,
            digits_ok(d@),
            d@.len() <= 28,
            x > 0 ==> pw(5, d@.len()) <= b,
        decreases x,
    {
        let digit = (x % 5) as u8;
        proof {
            lemma_val5_push(d@, digit);
            lemma_pw_succ(5, d@.len());
            let p = pw(5, d@.len());
            assert(p * x == digit * p + (5 * p) * (x / 5)) by (nonlinear_arith)
                requires
                    x == 5 * (x / 5) + x % 5,
                    digit == x % 5,
            ;
            if x / 5 > 0 {
                assert(5 * p <= p * x) by (nonlinear_arith)
                    requires
                        x == 5 * (x / 5) + x % 5,
                        x / 5 >= 1,
                        p >= 0,
                ;
                assert(p * x <= b) by (nonlinear_arith)
                    requires
                        b == val5(d@) + p * x,
                ;
            }
            lemma_pw5_mono(0, d@.len());
            assert(d@.len() < 28) by {
                if d@.len() >= 28 {
                    lemma_pw5_mono(28, d@.len());
                    assert(pw(5, 28) == 37252902984619140625nat) by {
                        reveal_with_fuel(pw, 29);
                    }
                }
            }
        }
        d.push(digit);
        x = x / 5;
    }
    d
}

/// The digits of six times the number written by `d`.
fn times_six(d: &Vec<u8>) -> (r: Vec<u8>)
    requires
        digits_ok(d@),
        d@.len() < 1000,
    ensures
        val5(r@) == 6 * val5(d@),
        digits_ok(r@),
        r@.len() <= d@.len() + 2,
{
    let mut out: Vec<u8> = Vec::new();
    let mut carry: u8 = 0;
    let n = d.len();
    let mut i: usize = 0;
    while i < n
        invariant
            n == d@.len(),
            i <= n,
            out@.len() == i,
            digits_ok(d@),
            digits_ok(out@),
            carry <= 5,
            val5(out@) + carry * pw(5, i as nat) == 6 * val5(d@.subrange(0, i as int)),
        decreases n - i,
    {
        let x: u8 = 6 * d[i] + carry;
        let digit: u8 = x % 5;
        let next: u8 = x / 5;
        proof {
            let p = pw(5, i as nat);
            lemma_val5_push(out@, digit);
            lemma_pw_succ(5, i as nat);
            assert(d@.subrange(0, i + 1) =~= d@.subrange(0, i as int).push(d@[i as int]));
            lemma_val5_push(d@.subrange(0, i as int), d@[i as int]);
            assert(digit * p + next * (5 * p) == x * p) by (nonlinear_arith)
                requires
                    x == 5 * next + digit,
            ;
            assert(x * p == 6 * (d@[i as int] * p) + carry * p) by (nonlinear_arith)
                requires
                    x == 6 * d@[i as int] + carry,
            ;
        }
        out.push(digit);
        carry = next;
        i = i + 1;
    }
    assert(d@.subrange(0, n as int) =~= d@);
    let low: u8 = carry % 5;
    let high: u8 = carry / 5;
    proof {
        lemma_val5_push(out@, low);
        lemma_pw_succ(5, n as nat);
        let p = pw(5, n as nat);
        assert(low * p + high * (5 * p) == carry * p) by (nonlinear_arith)
            requires
                carry == 5 * high + low,
        ;
    }
    out.push(low);
    if high > 0 {
        proof {
            lemma_val5_push(out@, high);
        }
        out.push(high);
    }
    out
}

/// `ceil(val5(d) / 5^n)`, held at the cap.
fn shift_ceil(d: &Vec<u8>, n: usize) -> (r: u64)
    requires
        digits_ok(d@),
        n <= d@.len(),
    ensures
        r == capped(div_ceil(val5(d@), pw(5, n as nat))),
{
    let len = d.len();
    let mut v: u64 = 0;
    let mut i: usize = len;
    assert(d@.subrange(len as int, len as int) =~= Seq::<u8>::empty());
    while i > n
        invariant
            len == d@.len(),
            n <= i <= len,
            v == capped(val5(d@.subrange(i as int, len as int))),
        decreases i,
    {
        i = i - 1;
        proof {
            lemma_val5_step(d@, i as int);
        }
        let w: u128 = 5 * (v as u128) + d[i] as u128;
        if w > AMOUNT_CAP as u128 {
            v = AMOUNT_CAP;
        } else {
            v = w as u64;
        }
    }
    let mut nonzero = false;
    let mut j: usize = 0;
    while j < n
        invariant
            n <= d@.len(),
            j <= n,
            nonzero == exists|t: int| 0 <= t < j && #[trigger] d@[t] != 0,
        decreases n - j,
    {
        if d[j] != 0 {
            nonzero = true;
        }
        j = j + 1;
    }
    proof {
        let lo_s = d@.subrange(0, n as int);
        let hi = val5(d@.subrange(n as int, len as int));
        let lo = val5(lo_s);
        let p = pw(5, n as nat);
        lemma_val5_split(d@, n as nat);
        assert(digits_ok(lo_s)) by {
            assert forall|t: int| 0 <= t < lo_s.len() implies #[trigger] lo_s[t] < 5 by {
                assert(lo_s[t] == d@[t]);
            }
        }
        lemma_val5_bound(lo_s);
        lemma_val5_zero(lo_s);
        lemma_pw_positive(5, n as nat);
        if nonzero {
            let t = choose|t: int| 0 <= t < n && #[trigger] d@[t] != 0;
            assert(lo_s[t] != 0);
            assert(lo > 0);
            assert(val5(d@) + p - 1 == (hi + 1) * p + (lo - 1)) by (nonlinear_arith)
                requires
                    val5(d@) == lo + p * hi,
            ;
            lemma_fundamental_div_mod_converse_div(
                val5(d@) + p - 1,
                p as int,
                (hi + 1) as int,
                (lo - 1) as int,
            );
        } else {
            assert forall|t: int| 0 <= t < lo_s.len() implies #[trigger] lo_s[t] == 0 by {
                assert(lo_s[t] == d@[t]);
                assert(!(d@[t] != 0));
            }
            assert(lo == 0);
            assert(val5(d@) + p - 1 == hi * p + (p - 1)) by (nonlinear_arith)
                requires
                    val5(d@) == lo + p * hi,
                    lo == 0,
            ;
            lemma_fundamental_div_mod_converse_div(val5(d@) + p - 1, p as int, hi as int, (p - 1) as int);
        }
    }
    if nonzero {
        if v == AMOUNT_CAP {
            AMOUNT_CAP
        } else {
            v + 1
        }
    } else {
        v
    }
}

/// `ceil(x * p / p) == x`.
proof fn lemma_div_ceil_exact(x: nat, p: nat)
    requires
        p > 0,
    ensures
        div_ceil(x * p, p) == x,
{
    assert(x * p + p - 1 == x * p + (p - 1));
    lemma_fundamental_div_mod_converse_div((x * p + p - 1) as int, p as int, x as int, (p - 1) as int);
}

proof fn lemma_pw_four(b: nat, e: nat)
    ensures
        pw(b, e + 4) == (b * b * b * b) * pw(b, e),
{
    lemma_pw_succ(b, e);
    lemma_pw_succ(b, e + 1);
    lemma_pw_succ(b, e + 2);
    lemma_pw_succ(b, e + 3);
    assert(b * (b * (b * (b * pw(b, e)))) == (b * b * b * b) * pw(b, e)) by (nonlinear_arith);
}

/// `1.2^(4j) >= 2^j`, since `1.2^4 > 2`.
proof fn lemma_ratio_doubles(j: nat)
    ensures
        pw(6, 4 * j) >= pw(2, j) * pw(5, 4 * j),
    decreases j,
{
    if j == 0 {
        assert(pw(6, 0) == 1 && pw(2, 0) == 1 && pw(5, 0) == 1);
    } else {
        let k = (j - 1) as nat;
        lemma_ratio_doubles(k);
        lemma_pw_four(6, 4 * k);
        lemma_pw_four(5, 4 * k);
        lemma_pw_succ(2, k);
        assert(4 * k + 4 == 4 * j);
        let a = pw(6, 4 * k);
        let c = pw(5, 4 * k);
        let t = pw(2, k);
        assert(1296 * a >= (2 * t) * (625 * c)) by (nonlinear_arith)
            requires
                a >= t * c,
                c >= 0,
                t >= 0,
        ;
    }
}

/// From level 256 on, `1.2^level` alone exceeds the cap.
proof fn lemma_exponential_saturates(b: nat, n: nat)
    requires
        b >= 1,
        n >= 256,
    ensures
        scaled(CostFormula::Exponential, b, n) == AMOUNT_CAP,
{
    let m = AMOUNT_CAP as nat;
    assert(pw(2, 64) == 18446744073709551616nat) by {
        reveal_with_fuel(pw, 65);
    }
    lemma_ratio_doubles(64);
    assert(4 * 64nat == 256nat);
    lemma_pw_positive(5, 256);
    let a0 = pw(6, 256);
    let c0 = pw(5, 256);
    assert(a0 >= m * c0) by (nonlinear_arith)
        requires
            a0 >= 18446744073709551616nat * c0,
            c0 > 0,
            m < 18446744073709551616nat,
    ;
    lemma_ratio_grows(256, n);
    lemma_pw_positive(5, n);
    let a = pw(6, n);
    let c = pw(5, n);
    assert(a >= m * c) by (nonlinear_arith)
        requires
            a * c0 >= a0 * c,
            a0 >= m * c0,
            c0 > 0,
    ;
    assert((b * a) * c >= (m * c) * c) by (nonlinear_arith)
        requires
            a >= m * c,
            b >= 1,
    ;
    lemma_div_ceil_mono(m * c, c, b * a, c);
    lemma_div_ceil_exact(m, c);
}

/// `ceil(b * 6^n / 5^n)`, held at the cap.
fn exponential_amount(b: u64, n: u32) -> (r: u64)
    ensures
        r == scaled(CostFormula::Exponential, b as nat, n as nat),
{
    if b == 0 {
        proof {
            lemma_pw_positive(5, n as nat);
            assert(0 * pw(6, n as nat) == 0);
            lemma_div_ceil_exact(0, pw(5, n as nat));
        }
        return 0;
    }
    if n >= 256 {
        proof {
            lemma_exponential_saturates(b as nat, n as nat);
        }
        return AMOUNT_CAP;
    }
    let mut d = to_digits(b);
    let mut i: u32 = 0;
    assert(pw(6, 0) == 1);
    while i < n
        invariant
            i <= n,
            n < 256,
            val5(d@) == b * pw(6, i as nat),
            digits_ok(d@),
            d@.len() <= 28 + 2 * i,
        decreases n - i,
    {
        d = times_six(&d);
        proof {
            lemma_pw_succ(6, i as nat);
            assert(6 * (b * pw(6, i as nat)) == b * (6 * pw(6, i as nat))) by (nonlinear_arith);
        }
        i = i + 1;
    }
    proof {
        lemma_ratio_grows(0, n as nat);
        assert(pw(6, 0) == 1 && pw(5, 0) == 1);
        assert(pw(6, n as nat) >= pw(5, n as nat)) by (nonlinear_arith)
            requires
                pw(6, n as nat) * pw(5, 0) >= pw(6, 0) * pw(5, n as nat),
                pw(6, 0) == 1,
                pw(5, 0) == 1,
        ;
        lemma_val5_bound(d@);
        lemma_pw_positive(6, n as nat);
        assert(b * pw(6, n as nat) >= pw(6, n as nat)) by (nonlinear_arith)
            requires
                b >= 1,
        ;
        if d@.len() < n {
            lemma_pw5_mono(d@.len(), n as nat);
            assert(false);
        }
        assert(n <= d@.len());
    }
    shift_ceil(&d, n as usize)
}

/// `b * 2^n`, held at the cap.
fn double_amount(b: u64, n: u32) -> (r: u64)
    ensures
        r == scaled(CostFormula::Double, b as nat, n as nat),
{
    if b == 0 {
        assert(0 * pw(2, n as nat) == 0);
        return 0;
    }
    let mut v: u64 = b;
    let mut i: u32 = 0;
    assert(pw(2, 0) == 1);
    while i < n
        invariant
            i <= n,
            v == b * pw(2, i as nat),
            b >= 1,
        decreases n - i,
    {
        proof {
            lemma_pw_succ(2, i as nat);
        }
        if v > AMOUNT_CAP / 2 {
            proof {
                lemma_pw_mono(2, (i + 1) as nat, n as nat);
                assert(b * pw(2, n as nat) >= b * pw(2, (i + 1) as nat)) by (nonlinear_arith)
                    requires
                        pw(2, n as nat) >= pw(2, (i + 1) as nat),
                ;
                assert(b * pw(2, (i + 1) as nat) == 2 * v) by (nonlinear_arith)
                    requires
                        v == b * pw(2, i as nat),
                        pw(2, (i + 1) as nat) == 2 * pw(2, i as nat),
                ;
            }
            return AMOUNT_CAP;
        }
        proof {
            assert(b * pw(2, (i + 1) as nat) == 2 * v) by (nonlinear_arith)
                requires
                    v == b * pw(2, i as nat),
                    pw(2, (i + 1) as nat) == 2 * pw(2, i as nat),
            ;
        }
        v = v * 2;
        i = i + 1;
    }
    v
}

impl CostFormula {
    /// `base_cost` priced at `level`: each amount scaled by the formula, kinds kept in order.
    pub fn calculate_cost(&self, base_cost: Vec<(Resources, u64)>, level: u32) -> (r: Vec<
        (Resources, u64),
    >)
        ensures
            r@ == scaled_list(*self, base_cost@, level as nat),
    {
        match self {
            CostFormula::Flat => {
                assert(base_cost@ =~= scaled_list(*self, base_cost@, level as nat));
                base_cost
            },
            _ => {
                let mut out: Vec<(Resources, u64)> = Vec::new();
                let n = base_cost.len();
                let mut i: usize = 0;
                while i < n
                    invariant
                        n == base_cost@.len(),
                        i <= n,
                        out@ =~= scaled_list(*self, base_cost@, level as nat).subrange(0, i as int),
                        *self != CostFormula::Flat,
                    decreases n - i,
                {
                    let (k, b) = base_cost[i];
                    let a = match self {
                        CostFormula::Double => double_amount(b, level),
                        _ => exponential_amount(b, level),
                    };
                    out.push((k, a));
                    i = i + 1;
                }
                out
            },
        }
    }
}

/// At level zero every formula gives the base price.
pub proof fn lemma_scaled_level_zero(f: CostFormula, base: Seq<(Resources, u64)>)
    ensures
        scaled_list(f, base, 0) == base,
{
    assert(pw(2, 0) == 1 && pw(6, 0) == 1 && pw(5, 0) == 1);
    assert forall|i: int| 0 <= i < base.len() implies #[trigger] scaled_list(f, base, 0)[i] == base[i] by {
        let b = base[i].1 as nat;
        assert(b * 1 == b);
        lemma_div_ceil_exact(b, 1);
    }
    assert(scaled_list(f, base, 0) =~= base);
}

} // verus!
