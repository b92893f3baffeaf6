//! Exact integer arithmetic behind the catalog curves and the combat formula.

use vstd::prelude::*;
use vstd::arithmetic::power::{pow, lemma_pow0, lemma_pow_positive, lemma_pow_increases};
use crate::bignat::BigNat;

verus! {

/// `pow(b, e + 1)` unfolds to one more factor `b`.
pub proof fn lemma_pow_step(b: int, e: nat)
    ensures
        pow(b, e + 1) == b * pow(b, e),
{
    reveal(pow);
}

/// `x * c^n`, built one factor at a time.
pub open spec fn times_pow(x: int, c: int, n: nat) -> int
    decreases n,
{
    if n == 0 {
        x
    } else {
        c * times_pow(x, c, (n - 1) as nat)
    }
}

/// `times_pow(x, c, n)` is `x * pow(c, n)`.
pub proof fn lemma_times_pow(x: int, c: int, n: nat)
    ensures
        times_pow(x, c, n) == x * pow(c, n),
    decreases n,
{
    reveal(pow);
    if n > 0 {
        lemma_times_pow(x, c, (n - 1) as nat);
        assert(c * (x * pow(c, (n - 1) as nat)) == x * (c * pow(c, (n - 1) as nat)))
            by (nonlinear_arith);
    }
}

/// `floor(base * (n / d)^k)`, the value of a geometric curve at step `k`.
pub open spec fn geometric_floor(base: int, n: int, d: int, k: nat) -> int {
    (base * pow(n, k)) / pow(d, k)
}

/// Computes `geometric_floor` exactly, without rounding in between.
pub fn scaled_floor(base: u32, n: u32, d: u32, k: u32) -> (r: u128)
    requires
        n >= 1,
        d >= 1,
        base * pow(n as int, k as nat) <= u128::MAX,
        pow(d as int, k as nat) <= u128::MAX,
    ensures
        r == geometric_floor(base as int, n as int, d as int, k as nat),
{
    let mut num: u128 = base as u128;
    let mut den: u128 = 1;
    let mut i: u32 = 0;
    proof {
        lemma_pow0(n as int);
        lemma_pow0(d as int);
    }
    while i < k
        invariant
            i <= k,
            n >= 1,
            d >= 1,
            num == base * pow(n as int, i as nat),
            den == pow(d as int, i as nat),
            base * pow(n as int, k as nat) <= u128::MAX,
            pow(d as int, k as nat) <= u128::MAX,
        decreases k - i,
    {
        proof {
            lemma_pow_step(n as int, i as nat);
            lemma_pow_step(d as int, i as nat);
            lemma_pow_increases(n as nat, (i + 1) as nat, k as nat);
            lemma_pow_increases(d as nat, (i + 1) as nat, k as nat);
            lemma_pow_positive(n as int, i as nat);
            assert(base * pow(n as int, (i + 1) as nat) <= base * pow(n as int, k as nat))
                by (nonlinear_arith)
                requires
                    pow(n as int, (i + 1) as nat) <= pow(n as int, k as nat),
                    base >= 0,
            ;
            assert(num * n == base * pow(n as int, (i + 1) as nat)) by (nonlinear_arith)
                requires
                    num == base * pow(n as int, i as nat),
                    pow(n as int, (i + 1) as nat) == n * pow(n as int, i as nat),
            ;
            assert(den * d == pow(d as int, (i + 1) as nat)) by (nonlinear_arith)
                requires
                    den == pow(d as int, i as nat),
                    pow(d as int, (i + 1) as nat) == d * pow(d as int, i as nat),
            ;
        }
        num = num * (n as u128);
        den = den * (d as u128);
        i = i + 1;
    }
    proof {
        lemma_pow_positive(d as int, k as nat);
    }
    num / den
}

/// The integer square root: the largest `s` with `s * s <= x`.
pub open spec fn isqrt(x: nat) -> nat
    decreases x,
{
    if x == 0 {
        0
    } else {
        let s = isqrt((x - 1) as nat);
        if (s + 1) * (s + 1) <= x {
            s + 1
        } else {
            s
        }
    }
}

pub proof fn lemma_isqrt(x: nat)
    ensures
        isqrt(x) * isqrt(x) <= x < (isqrt(x) + 1) * (isqrt(x) + 1),
    decreases x,
{
    if x > 0 {
        lemma_isqrt((x - 1) as nat);
        let s = isqrt((x - 1) as nat);
        assert((s + 1) * (s + 1) < (s + 2) * (s + 2)) by (nonlinear_arith);
        if (s + 1) * (s + 1) <= x {
            assert(isqrt(x) == s + 1);
            assert((isqrt(x) + 1) * (isqrt(x) + 1) == (s + 2) * (s + 2));
        } else {
            assert(isqrt(x) == s);
        }
    } else {
        assert(isqrt(x) == 0);
        assert(isqrt(x) * isqrt(x) == 0 && (isqrt(x) + 1) * (isqrt(x) + 1) == 1)
            by (nonlinear_arith)
            requires
                isqrt(x) == 0,
        ;
    }
}

/// Whatever lies between two neighbouring squares has the lower one's root.
pub proof fn lemma_isqrt_unique(x: nat, s: nat)
    requires
        s * s <= x < (s + 1) * (s + 1),
    ensures
        isqrt(x) == s,
{
    lemma_isqrt(x);
    let r = isqrt(x);
    if r < s {
        assert((r + 1) * (r + 1) <= s * s) by (nonlinear_arith)
            requires
                r + 1 <= s,
        ;
    } else if r > s {
        assert((s + 1) * (s + 1) <= r * r) by (nonlinear_arith)
            requires
                s + 1 <= r,
        ;
    }
}

/// A quotient lies where the multiples of the divisor put it.
pub proof fn lemma_quotient_unique(n: int, d: int, q: int)
    requires
        d > 0,
        q * d <= n < (q + 1) * d,
    ensures
        n / d == q,
{
    assert(n / d == q) by (nonlinear_arith)
        requires
            d > 0,
            q * d <= n < (q + 1) * d,
    ;
}

/// `min(a, b)` on integers.
pub open spec fn min_int(a: int, b: int) -> int {
    if a <= b {
        a
    } else {
        b
    }
}

/// The integer square root of a machine word.
pub fn isqrt_u128(x: u128) -> (r: u64)
    requires
        x < 0x1_0000_0000_0000_0000_0000_0000_0000,
    ensures
        r == isqrt(x as nat),
        r < 0x1_0000_0000_0000_0000,
{
    let mut lo: u128 = 0;
    let mut up: u128 = 0x1_0000_0000_0000_0000;
    assert(0x1_0000_0000_0000_0000u128 * 0x1_0000_0000_0000_0000u128 > x) by (nonlinear_arith)
        requires
            x < 0x1_0000_0000_0000_0000_0000_0000_0000,
    ;
    while up - lo > 1
        invariant
            lo < up <= 0x1_0000_0000_0000_0000,
            lo * lo <= x < up * up,
        decreases up - lo,
    {
        let mid: u128 = lo + (up - lo) / 2;
        assert(mid * mid <= 0xffff_ffff_ffff_ffff * 0xffff_ffff_ffff_ffff) by (nonlinear_arith)
            requires
                mid <= 0xffff_ffff_ffff_ffff,
        ;
        if mid * mid <= x {
            lo = mid;
        } else {
            up = mid;
        }
    }
    proof {
        lemma_isqrt_unique(x as nat, lo as nat);
    }
    lo as u64
}

/// `x * c^k` on numbers of any size.
pub fn scale_pow(x: BigNat, c: u32, k: u32) -> (r: BigNat)
    ensures
        r@ == times_pow(x@, c as int, k as nat),
{
    let mut acc = x;
    let mut i: u32 = 0;
    while i < k
        invariant
            i <= k,
            acc@ == times_pow(x@, c as int, i as nat),
        decreases k - i,
    {
        let next = acc.mul_small(c);
        proof {
            assert(acc@ * c == c * acc@) by (nonlinear_arith);
        }
        acc = next;
        i = i + 1;
    }
    acc
}

/// `floor(n / d)`, capped at `cap`.
pub fn capped_quotient(n: &BigNat, d: &BigNat, cap: u32) -> (r: u32)
    requires
        d@ > 0,
    ensures
        r == min_int(cap as int, n@ / d@),
{
    let mut lo: u64 = 0;
    let mut up: u64 = cap as u64 + 1;
    proof {
        n.lemma_nonnegative();
        assert(0 * d@ == 0);
    }
    while up - lo > 1
        invariant
            d@ > 0,
            lo < up <= cap + 1,
            lo * d@ <= n@,
            up == cap + 1 || up * d@ > n@,
        decreases up - lo,
    {
        let mid: u64 = lo + (up - lo) / 2;
        let m = d.mul_small(mid as u32);
        proof {
            assert(d@ * mid == mid * d@) by (nonlinear_arith);
        }
        if m.le(n) {
            lo = mid;
        } else {
            up = mid;
        }
    }
    proof {
        let q = n@ / d@;
        if up * d@ > n@ {
            lemma_quotient_unique(n@, d@, lo as int);
        } else {
            assert(lo == cap);
            assert(q >= lo) by (nonlinear_arith)
                requires
                    d@ > 0,
                    lo * d@ <= n@,
                    q == n@ / d@,
            ;
        }
    }
    lo as u32
}

/// `floor(sqrt(b / a))`, capped at `cap`.
pub fn capped_root_quotient(b: &BigNat, a: &BigNat, cap: u32) -> (r: u32)
    requires
        a@ > 0,
    ensures
        b@ >= 0,
        r == min_int(cap as int, isqrt((b@ / a@) as nat) as int),
{
    let mut lo: u64 = 0;
    let mut up: u64 = cap as u64 + 1;
    proof {
        b.lemma_nonnegative();
        assert(0 * 0 * a@ == 0);
    }
    while up - lo > 1
        invariant
            a@ > 0,
            lo < up <= cap + 1,
            lo * lo * a@ <= b@,
            up == cap + 1 || up * up * a@ > b@,
        decreases up - lo,
    {
        let mid: u64 = lo + (up - lo) / 2;
        assert(mid * mid <= 0xffff_ffff * 0xffff_ffff) by (nonlinear_arith)
            requires
                mid <= 0xffff_ffff,
        ;
        let sq = BigNat::from_u64(mid * mid);
        let m = a.mul(&sq);
        proof {
            assert(a@ * (mid * mid) == mid * mid * a@) by (nonlinear_arith);
        }
        if m.le(b) {
            lo = mid;
        } else {
            up = mid;
        }
    }
    proof {
        let y = b@ / a@;
        assert(y >= 0 && y * a@ <= b@ < (y + 1) * a@) by (nonlinear_arith)
            requires
                a@ > 0,
                b@ >= 0,
                y == b@ / a@,
        ;
        assert(lo * lo <= y) by (nonlinear_arith)
            requires
                a@ > 0,
                lo * lo * a@ <= b@,
                b@ < (y + 1) * a@,
        ;
        if up * up * a@ > b@ {
            assert(up == lo + 1);
            assert((lo + 1) * (lo + 1) > y) by (nonlinear_arith)
                requires
                    a@ > 0,
                    (lo + 1) * (lo + 1) * a@ > b@,
                    y * a@ <= b@,
            ;
            lemma_isqrt_unique(y as nat, lo as nat);
        } else {
            assert(lo == cap);
            lemma_isqrt(y as nat);
            let s = isqrt(y as nat);
            if s < lo {
                assert((s + 1) * (s + 1) <= lo * lo) by (nonlinear_arith)
                    requires
                        s + 1 <= lo,
                        s >= 0,
                ;
            }
        }
    }
    lo as u32
}

} // verus!
