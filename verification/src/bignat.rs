//! Natural numbers of any size, as little-endian limbs in base 2^32.
//!
//! The combat formula and the production curve compare products that do not
//! fit a machine word; they are computed here exactly.

use vstd::prelude::*;
use vstd::arithmetic::power::{pow, lemma_pow0, lemma_pow_positive};
use crate::numeric::lemma_pow_step;

verus! {

/// The base of one limb, `2^32`.
pub open spec fn radix() -> int {
    0x1_0000_0000
}

/// `radix()^i`, the weight of limb `i`.
pub open spec fn weight(i: nat) -> int {
    pow(radix(), i)
}

/// The number that a sequence of limbs stands for, least significant first.
pub open spec fn limbs_value(s: Seq<u32>) -> int
    decreases s.len(),
{
    if s.len() == 0 {
        0
    } else {
        limbs_value(s.drop_last()) + s.last() as int * weight((s.len() - 1) as nat)
    }
}

pub proof fn lemma_weight(i: nat)
    ensures
        weight(0) == 1,
        weight(i + 1) == radix() * weight(i),
        weight(i) >= 1,
{
    lemma_pow0(radix());
    lemma_pow_step(radix(), i);
    lemma_pow_positive(radix(), i);
}

pub proof fn lemma_value_push(s: Seq<u32>, x: u32)
    ensures
        limbs_value(s.push(x)) == limbs_value(s) + x as int * weight(s.len()),
{
    assert(s.push(x).drop_last() =~= s);
}

pub proof fn lemma_value_take(s: Seq<u32>, i: int)
    requires
        0 <= i < s.len(),
    ensures
        limbs_value(s.take(i + 1)) == limbs_value(s.take(i)) + s[i] as int * weight(i as nat),
{
    assert(s.take(i + 1).drop_last() =~= s.take(i));
}

/// A number of `n` limbs is below `radix()^n`.
pub proof fn lemma_value_bound(s: Seq<u32>)
    ensures
        0 <= limbs_value(s) < weight(s.len()),
    decreases s.len(),
{
    if s.len() == 0 {
        lemma_weight(0);
    } else {
        let n = (s.len() - 1) as nat;
        lemma_value_bound(s.drop_last());
        lemma_weight(n);
        let w = weight(n);
        let x = s.last() as int;
        assert(limbs_value(s.drop_last()) + x * w < radix() * w) by (nonlinear_arith)
            requires
                0 <= limbs_value(s.drop_last()) < w,
                0 <= x < radix(),
        ;
        assert(0 <= x * w) by (nonlinear_arith)
            requires
                0 <= x,
                0 <= w,
        ;
    }
}

/// The low `i` limbs of `s`, all of it where `i` is past the end.
pub open spec fn low_value(s: Seq<u32>, i: int) -> int {
    if i >= s.len() {
        limbs_value(s)
    } else {
        limbs_value(s.take(i))
    }
}

/// Limb `i` of `s`, zero past the end.
pub open spec fn limb_or_zero(s: Seq<u32>, i: int) -> int {
    if 0 <= i < s.len() {
        s[i] as int
    } else {
        0
    }
}

pub proof fn lemma_low_value_step(s: Seq<u32>, i: int)
    requires
        0 <= i,
    ensures
        low_value(s, i + 1) == low_value(s, i) + limb_or_zero(s, i) * weight(i as nat),
        0 <= low_value(s, i) < weight(i as nat),
{
    if i < s.len() {
        lemma_value_take(s, i);
        assert(s.take(s.len() as int) =~= s);
        lemma_value_bound(s.take(i));
    } else {
        lemma_value_bound(s);
        lemma_weight_monotone(s.len(), i as nat);
    }
}

pub proof fn lemma_weight_monotone(i: nat, j: nat)
    requires
        i <= j,
    ensures
        weight(i) <= weight(j),
    decreases j - i,
{
    if i < j {
        lemma_weight_monotone(i, (j - 1) as nat);
        lemma_weight((j - 1) as nat);
        assert(weight((j - 1) as nat) <= radix() * weight((j - 1) as nat)) by (nonlinear_arith)
            requires
                weight((j - 1) as nat) >= 1,
        ;
    }
}

/// An arbitrary-precision natural number.
pub struct BigNat {
    limbs: Vec<u32>,
}

impl View for BigNat {
    type V = int;

    closed spec fn view(&self) -> int {
        limbs_value(self.limbs@)
    }
}

impl BigNat {
    pub proof fn lemma_nonnegative(&self)
        ensures
            self@ >= 0,
    {
        lemma_value_bound(self.limbs@);
    }

    pub fn zero() -> (r: BigNat)
        ensures
            r@ == 0,
    {
        BigNat { limbs: Vec::new() }
    }

    pub fn from_u64(x: u64) -> (r: BigNat)
        ensures
            r@ == x,
    {
        let lo: u32 = (x % 0x1_0000_0000) as u32;
        let hi: u32 = (x / 0x1_0000_0000) as u32;
        let mut limbs: Vec<u32> = Vec::new();
        limbs.push(lo);
        proof {
            lemma_value_push(Seq::<u32>::empty(), lo);
            assert(limbs@ =~= Seq::<u32>::empty().push(lo));
            lemma_weight(0);
            assert(limbs_value(Seq::<u32>::empty()) == 0);
            assert(lo as int * weight(0) == lo as int) by (nonlinear_arith)
                requires
                    weight(0) == 1,
            ;
            assert(limbs_value(limbs@) == lo as int);
        }
        let ghost s1 = limbs@;
        limbs.push(hi);
        proof {
            lemma_value_push(s1, hi);
            lemma_weight(0);
            assert(limbs@ =~= s1.push(hi));
            assert(weight(1) == radix());
            assert(limbs_value(s1) == lo as int);
            assert(limbs_value(limbs@) == lo as int + hi as int * radix());
        }
        BigNat { limbs }
    }

    pub fn from_u128(x: u128) -> (r: BigNat)
        ensures
            r@ == x,
    {
        let lo: u64 = (x % 0x1_0000_0000_0000_0000) as u64;
        let hi: u64 = (x / 0x1_0000_0000_0000_0000) as u64;
        let high = BigNat::from_u64(hi).shifted().shifted();
        let low = BigNat::from_u64(lo);
        proof {
            assert(hi * radix() * radix() == hi * 0x1_0000_0000_0000_0000) by (nonlinear_arith);
        }
        high.add(&low)
    }

    /// `self * m`.
    pub fn mul_small(&self, m: u32) -> (r: BigNat)
        ensures
            r@ == self@ * m,
    {
        let n = self.limbs.len();
        let mut out: Vec<u32> = Vec::new();
        let mut carry: u64 = 0;
        let mut i: usize = 0;
        proof {
            lemma_weight(0);
            assert(self.limbs@.take(0) =~= Seq::<u32>::empty());
        }
        while i < n
            invariant
                n == self.limbs.len(),
                i <= n,
                out.len() == i,
                carry < 0x1_0000_0000,
                limbs_value(out@) + carry * weight(i as nat) == limbs_value(
                    self.limbs@.take(i as int),
                ) * m,
            decreases n - i,
        {
            let a = self.limbs[i];
            assert(a as u64 * m as u64 + carry <= 0xffff_ffff_ffff_ffff) by (nonlinear_arith)
                requires
                    a <= 0xffff_ffff,
                    m <= 0xffff_ffff,
                    carry < 0x1_0000_0000,
            ;
            let t: u64 = (a as u64) * (m as u64) + carry;
            let lo: u32 = (t % 0x1_0000_0000) as u32;
            let hi: u64 = t / 0x1_0000_0000;
            proof {
                lemma_value_push(out@, lo);
                lemma_value_take(self.limbs@, i as int);
                lemma_weight(i as nat);
                let w = weight(i as nat);
                let v = limbs_value(out@);
                let p = limbs_value(self.limbs@.take(i as int));
                assert(v + lo * w + hi * (radix() * w) == (p + a * w) * m) by (nonlinear_arith)
                    requires
                        v + carry * w == p * m,
                        lo + hi * radix() == a * m + carry,
                ;
            }
            out.push(lo);
            carry = hi;
            i = i + 1;
        }
        proof {
            assert(self.limbs@.take(n as int) =~= self.limbs@);
            lemma_value_push(out@, carry as u32);
        }
        out.push(carry as u32);
        BigNat { limbs: out }
    }

    /// `self + other`.
    pub fn add(&self, other: &BigNat) -> (r: BigNat)
        ensures
            r@ == self@ + other@,
    {
        let n = if self.limbs.len() > other.limbs.len() {
            self.limbs.len()
        } else {
            other.limbs.len()
        };
        let mut out: Vec<u32> = Vec::new();
        let mut carry: u64 = 0;
        let mut i: usize = 0;
        proof {
            lemma_weight(0);
            assert(self.limbs@.take(0) =~= Seq::<u32>::empty());
            assert(other.limbs@.take(0) =~= Seq::<u32>::empty());
        }
        while i < n
            invariant
                n >= self.limbs.len(),
                n >= other.limbs.len(),
                i <= n,
                out.len() == i,
                carry <= 1,
                limbs_value(out@) + carry * weight(i as nat) == low_value(self.limbs@, i as int)
                    + low_value(other.limbs@, i as int),
            decreases n - i,
        {
            let a: u64 = if i < self.limbs.len() {
                self.limbs[i] as u64
            } else {
                0
            };
            let b: u64 = if i < other.limbs.len() {
                other.limbs[i] as u64
            } else {
                0
            };
            let t: u64 = a + b + carry;
            let lo: u32 = (t % 0x1_0000_0000) as u32;
            let hi: u64 = t / 0x1_0000_0000;
            proof {
                lemma_value_push(out@, lo);
                lemma_low_value_step(self.limbs@, i as int);
                lemma_low_value_step(other.limbs@, i as int);
                lemma_weight(i as nat);
                let w = weight(i as nat);
                let v = limbs_value(out@);
                let p = low_value(self.limbs@, i as int);
                let q = low_value(other.limbs@, i as int);
                assert(v + lo * w + hi * (radix() * w) == (p + a * w) + (q + b * w))
                    by (nonlinear_arith)
                    requires
                        v + carry * w == p + q,
                        lo + hi * radix() == a + b + carry,
                ;
            }
            out.push(lo);
            carry = hi;
            i = i + 1;
        }
        proof {
            lemma_value_push(out@, carry as u32);
        }
        out.push(carry as u32);
        BigNat { limbs: out }
    }

    /// `self - other`, where `other` is not the larger one.
    pub fn sub(&self, other: &BigNat) -> (r: BigNat)
        requires
            other@ <= self@,
        ensures
            r@ == self@ - other@,
    {
        let n = if self.limbs.len() > other.limbs.len() {
            self.limbs.len()
        } else {
            other.limbs.len()
        };
        let mut out: Vec<u32> = Vec::new();
        let mut borrow: u64 = 0;
        let mut i: usize = 0;
        proof {
            lemma_weight(0);
            assert(self.limbs@.take(0) =~= Seq::<u32>::empty());
            assert(other.limbs@.take(0) =~= Seq::<u32>::empty());
        }
        while i < n
            invariant
                n >= self.limbs.len(),
                n >= other.limbs.len(),
                i <= n,
                out.len() == i,
                borrow <= 1,
                limbs_value(out@) + low_value(other.limbs@, i as int) == low_value(
                    self.limbs@,
                    i as int,
                ) + borrow * weight(i as nat),
            decreases n - i,
        {
            let a: u64 = if i < self.limbs.len() {
                self.limbs[i] as u64
            } else {
                0
            };
            let b: u64 = if i < other.limbs.len() {
                other.limbs[i] as u64
            } else {
                0
            };
            let t: u64 = a + 0x1_0000_0000 - b - borrow;
            let lo: u32 = (t % 0x1_0000_0000) as u32;
            let next: u64 = if t < 0x1_0000_0000 {
                1
            } else {
                0
            };
            proof {
                lemma_value_push(out@, lo);
                lemma_low_value_step(self.limbs@, i as int);
                lemma_low_value_step(other.limbs@, i as int);
                lemma_weight(i as nat);
                let w = weight(i as nat);
                let v = limbs_value(out@);
                let p = low_value(self.limbs@, i as int);
                let q = low_value(other.limbs@, i as int);
                assert(lo + (1 - next) * radix() == t);
                assert(v + lo * w + (q + b * w) == (p + a * w) + next * (radix() * w))
                    by (nonlinear_arith)
                    requires
                        v + q == p + borrow * w,
                        lo + (1 - next) * radix() == a + radix() - b - borrow,
                ;
            }
            out.push(lo);
            borrow = next;
            i = i + 1;
        }
        proof {
            lemma_value_bound(out@);
            assert(borrow * weight(n as nat) == if borrow == 1 {
                weight(n as nat)
            } else {
                0
            }) by (nonlinear_arith)
                requires
                    borrow <= 1,
            ;
        }
        BigNat { limbs: out }
    }

    /// `self * radix()`: one limb up.
    fn shifted(&self) -> (r: BigNat)
        ensures
            r@ == self@ * radix(),
    {
        let n = self.limbs.len();
        let mut out: Vec<u32> = Vec::new();
        out.push(0);
        let mut i: usize = 0;
        proof {
            lemma_weight(0);
            lemma_value_push(Seq::<u32>::empty(), 0);
            assert(out@ =~= Seq::<u32>::empty().push(0u32));
            assert(self.limbs@.take(0) =~= Seq::<u32>::empty());
        }
        while i < n
            invariant
                n == self.limbs.len(),
                i <= n,
                out.len() == i + 1,
                limbs_value(out@) == limbs_value(self.limbs@.take(i as int)) * radix(),
            decreases n - i,
        {
            let a = self.limbs[i];
            proof {
                lemma_value_push(out@, a);
                lemma_value_take(self.limbs@, i as int);
                lemma_weight(i as nat);
                let w = weight(i as nat);
                let p = limbs_value(self.limbs@.take(i as int));
                assert(p * radix() + a * (radix() * w) == (p + a * w) * radix())
                    by (nonlinear_arith);
            }
            out.push(a);
            i = i + 1;
        }
        proof {
            assert(self.limbs@.take(n as int) =~= self.limbs@);
        }
        BigNat { limbs: out }
    }

    /// `self * other`.
    pub fn mul(&self, other: &BigNat) -> (r: BigNat)
        ensures
            r@ == self@ * other@,
    {
        let n = other.limbs.len();
        let mut acc = BigNat::zero();
        let mut i: usize = n;
        proof {
            assert(other.limbs@.skip(n as int) =~= Seq::<u32>::empty());
        }
        while i > 0
            invariant
                n == other.limbs.len(),
                i <= n,
                acc@ == self@ * limbs_value(other.limbs@.skip(i as int)),
            decreases i,
        {
            i = i - 1;
            let step = self.mul_small(other.limbs[i]);
            let up = acc.shifted();
            proof {
                lemma_value_skip(other.limbs@, i as int);
                let h = limbs_value(other.limbs@.skip(i + 1));
                let x = other.limbs[i as int] as int;
                assert(self@ * h * radix() + self@ * x == self@ * (x + radix() * h))
                    by (nonlinear_arith);
            }
            acc = up.add(&step);
        }
        proof {
            assert(other.limbs@.skip(0) =~= other.limbs@);
        }
        acc
    }

    /// `self <= other`.
    pub fn le(&self, other: &BigNat) -> (r: bool)
        ensures
            r == (self@ <= other@),
    {
        let n = if self.limbs.len() > other.limbs.len() {
            self.limbs.len()
        } else {
            other.limbs.len()
        };
        let mut below = false;
        let mut same = true;
        let mut i: usize = 0;
        proof {
            assert(self.limbs@.take(0) =~= Seq::<u32>::empty());
            assert(other.limbs@.take(0) =~= Seq::<u32>::empty());
        }
        while i < n
            invariant
                n >= self.limbs.len(),
                n >= other.limbs.len(),
                i <= n,
                same == (low_value(self.limbs@, i as int) == low_value(other.limbs@, i as int)),
                below == (low_value(self.limbs@, i as int) < low_value(other.limbs@, i as int)),
            decreases n - i,
        {
            let a: u32 = if i < self.limbs.len() {
                self.limbs[i]
            } else {
                0
            };
            let b: u32 = if i < other.limbs.len() {
                other.limbs[i]
            } else {
                0
            };
            proof {
                lemma_low_value_step(self.limbs@, i as int);
                lemma_low_value_step(other.limbs@, i as int);
                lemma_weight(i as nat);
                let w = weight(i as nat);
                let p = low_value(self.limbs@, i as int);
                let q = low_value(other.limbs@, i as int);
                if a < b {
                    assert(p + a * w < q + b * w) by (nonlinear_arith)
                        requires
                            0 <= p < w,
                            0 <= q,
                            0 <= a < b,
                    ;
                } else if a > b {
                    assert(p + a * w > q + b * w) by (nonlinear_arith)
                        requires
                            0 <= q < w,
                            0 <= p,
                            0 <= b < a,
                    ;
                }
            }
            if a < b {
                below = true;
                same = false;
            } else if a > b {
                below = false;
                same = false;
            }
            i = i + 1;
        }
        below || same
    }
}

/// The value of the limbs from `i` on, by its lowest limb and the rest.
pub proof fn lemma_value_skip(s: Seq<u32>, i: int)
    requires
        0 <= i < s.len(),
    ensures
        limbs_value(s.skip(i)) == s[i] as int + radix() * limbs_value(s.skip(i + 1)),
{
    lemma_value_front(s.skip(i));
    assert(s.skip(i).drop_first() =~= s.skip(i + 1));
}

/// The value by the lowest limb and the rest.
pub proof fn lemma_value_front(s: Seq<u32>)
    requires
        s.len() > 0,
    ensures
        limbs_value(s) == s[0] as int + radix() * limbs_value(s.drop_first()),
    decreases s.len(),
{
    if s.len() == 1 {
        lemma_weight(0);
        assert(s.drop_last() =~= Seq::<u32>::empty());
        assert(s.drop_first() =~= Seq::<u32>::empty());
        assert(limbs_value(Seq::<u32>::empty()) == 0);
        assert(s.last() as int * weight(0) == s.last() as int) by (nonlinear_arith)
            requires
                weight(0) == 1,
        ;
    } else {
        let t = s.drop_last();
        lemma_value_front(t);
        assert(t.drop_first() =~= s.drop_first().drop_last());
        let n = (s.len() - 2) as nat;
        lemma_weight(n);
        let x = s.last() as int;
        let w = weight(n);
        let r = limbs_value(t.drop_first());
        let u = s.drop_first();
        assert(u.drop_last() =~= t.drop_first());
        assert(u.last() == s.last());
        assert(limbs_value(u) == r + x * w);
        assert(limbs_value(s) == limbs_value(t) + x * weight((n + 1) as nat));
        assert(radix() * (r + x * w) == radix() * r + x * (radix() * w)) by (nonlinear_arith);
    }
}

} // verus!
