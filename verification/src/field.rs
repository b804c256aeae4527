//! Scalar-field elements of the BN254 curve, held as four 64-bit limbs in
//! little-endian order, always reduced below the field modulus.

use vstd::arithmetic::div_mod::lemma_fundamental_div_mod;
use vstd::arithmetic::div_mod::lemma_mod_bound;
use vstd::arithmetic::div_mod::lemma_mod_multiples_vanish;
use vstd::arithmetic::div_mod::lemma_small_mod;
use vstd::prelude::*;

verus! {

/// Lowest limb of the field modulus.
pub const P0: u64 = 0x43e1f593f0000001;
/// Second limb of the field modulus.
pub const P1: u64 = 0x2833e84879b97091;
/// Third limb of the field modulus.
pub const P2: u64 = 0xb85045b68181585d;
/// Highest limb of the field modulus.
pub const P3: u64 = 0x30644e72e131a029;

/// The field modulus as an integer.
pub open spec fn p_int() -> int {
    P0 + P1 * 0x10000000000000000
        + P2 * 0x100000000000000000000000000000000
        + P3 * 0x1000000000000000000000000000000000000000000000000
}

/// A scalar-field element, as four 64-bit limbs, least significant first.
#[derive(Clone, Copy, Debug, PartialEq, Eq, Structural)]
pub struct Fe {
    pub l0: u64,
    pub l1: u64,
    pub l2: u64,
    pub l3: u64,
}

/// The integer a limb tuple stands for.
pub open spec fn fe_val(e: Fe) -> int {
    e.l0 + e.l1 * 0x10000000000000000
        + e.l2 * 0x100000000000000000000000000000000
        + e.l3 * 0x1000000000000000000000000000000000000000000000000
}

/// A well-formed element is reduced: its value lies below the modulus.
pub open spec fn fe_wf(e: Fe) -> bool {
    fe_val(e) < p_int()
}

impl Fe {
    /// The element standing for a small integer.
    pub fn from_u64(n: u64) -> (r: Fe)
        ensures
            fe_wf(r),
            fe_val(r) == n,
    {
        let r = Fe { l0: n, l1: 0, l2: 0, l3: 0 };
        proof {
            assert(fe_val(r) == n);
            assert(n < p_int());
        }
        r
    }
}

/// The raw limb sum of two reduced elements. It is exact: two values below
/// the modulus add to less than 2^255, so no carry leaves the top limb.
fn add_limbs(a: &Fe, b: &Fe) -> (t: Fe)
    requires
        fe_wf(*a),
        fe_wf(*b),
    ensures
        fe_val(t) == fe_val(*a) + fe_val(*b),
{
    let s0: u128 = a.l0 as u128 + b.l0 as u128;
    proof {
        lemma_fundamental_div_mod(s0 as int, 0x10000000000000000);
        lemma_mod_bound(s0 as int, 0x10000000000000000);
    }
    let d0: u64 = (s0 % 0x10000000000000000) as u64;
    let c0: u64 = (s0 / 0x10000000000000000) as u64;
    let s1: u128 = a.l1 as u128 + b.l1 as u128 + c0 as u128;
    proof {
        lemma_fundamental_div_mod(s1 as int, 0x10000000000000000);
        lemma_mod_bound(s1 as int, 0x10000000000000000);
    }
    let d1: u64 = (s1 % 0x10000000000000000) as u64;
    let c1: u64 = (s1 / 0x10000000000000000) as u64;
    let s2: u128 = a.l2 as u128 + b.l2 as u128 + c1 as u128;
    proof {
        lemma_fundamental_div_mod(s2 as int, 0x10000000000000000);
        lemma_mod_bound(s2 as int, 0x10000000000000000);
    }
    let d2: u64 = (s2 % 0x10000000000000000) as u64;
    let c2: u64 = (s2 / 0x10000000000000000) as u64;
    let s3: u128 = a.l3 as u128 + b.l3 as u128 + c2 as u128;
    proof {
        lemma_fundamental_div_mod(s3 as int, 0x10000000000000000);
        lemma_mod_bound(s3 as int, 0x10000000000000000);
    }
    let d3: u64 = (s3 % 0x10000000000000000) as u64;
    let c3: u64 = (s3 / 0x10000000000000000) as u64;
    let t = Fe { l0: d0, l1: d1, l2: d2, l3: d3 };
    proof {
        assert(fe_val(t) + c3 * 0x10000000000000000000000000000000000000000000000000000000000000000
            == fe_val(*a) + fe_val(*b));
        assert(p_int() + p_int()
            < 0x10000000000000000000000000000000000000000000000000000000000000000);
        assert(c3 == 0);
    }
    t
}

/// Whether a raw limb tuple's value reaches the modulus, by comparing limbs
/// from the most significant end.
fn geq_p(t: &Fe) -> (r: bool)
    ensures
        r == (fe_val(*t) >= p_int()),
{
    if t.l3 != P3 {
        t.l3 > P3
    } else if t.l2 != P2 {
        t.l2 > P2
    } else if t.l1 != P1 {
        t.l1 > P1
    } else {
        t.l0 >= P0
    }
}

/// The value with the modulus taken off once, by a borrowing limb
/// subtraction.
fn sub_p(t: &Fe) -> (r: Fe)
    requires
        fe_val(*t) >= p_int(),
    ensures
        fe_val(r) == fe_val(*t) - p_int(),
{
    let x0: u128 = t.l0 as u128 + 0x10000000000000000 - P0 as u128;
    proof {
        lemma_fundamental_div_mod(x0 as int, 0x10000000000000000);
        lemma_mod_bound(x0 as int, 0x10000000000000000);
    }
    let d0: u64 = (x0 % 0x10000000000000000) as u64;
    let nb0: u64 = 1 - (x0 / 0x10000000000000000) as u64;
    let x1: u128 = t.l1 as u128 + 0x10000000000000000 - P1 as u128 - nb0 as u128;
    proof {
        lemma_fundamental_div_mod(x1 as int, 0x10000000000000000);
        lemma_mod_bound(x1 as int, 0x10000000000000000);
    }
    let d1: u64 = (x1 % 0x10000000000000000) as u64;
    let nb1: u64 = 1 - (x1 / 0x10000000000000000) as u64;
    let x2: u128 = t.l2 as u128 + 0x10000000000000000 - P2 as u128 - nb1 as u128;
    proof {
        lemma_fundamental_div_mod(x2 as int, 0x10000000000000000);
        lemma_mod_bound(x2 as int, 0x10000000000000000);
    }
    let d2: u64 = (x2 % 0x10000000000000000) as u64;
    let nb2: u64 = 1 - (x2 / 0x10000000000000000) as u64;
    let x3: u128 = t.l3 as u128 + 0x10000000000000000 - P3 as u128 - nb2 as u128;
    proof {
        lemma_fundamental_div_mod(x3 as int, 0x10000000000000000);
        lemma_mod_bound(x3 as int, 0x10000000000000000);
    }
    let d3: u64 = (x3 % 0x10000000000000000) as u64;
    let nb3: u64 = 1 - (x3 / 0x10000000000000000) as u64;
    let r = Fe { l0: d0, l1: d1, l2: d2, l3: d3 };
    proof {
        assert(fe_val(r)
            == fe_val(*t) - p_int()
                + nb3 * 0x10000000000000000000000000000000000000000000000000000000000000000);
        assert(nb3 == 0);
    }
    r
}

/// Field addition: the sum of two reduced elements, reduced again.
pub fn fe_add(a: &Fe, b: &Fe) -> (r: Fe)
    requires
        fe_wf(*a),
        fe_wf(*b),
    ensures
        fe_wf(r),
        fe_val(r) == (fe_val(*a) + fe_val(*b)) % p_int(),
{
    let t = add_limbs(a, b);
    if geq_p(&t) {
        let r = sub_p(&t);
        proof {
            lemma_mod_multiples_vanish(1, fe_val(*a) + fe_val(*b) - p_int(), p_int());
            lemma_small_mod((fe_val(*a) + fe_val(*b) - p_int()) as nat, p_int() as nat);
        }
        r
    } else {
        proof {
            lemma_small_mod((fe_val(*a) + fe_val(*b)) as nat, p_int() as nat);
        }
        t
    }
}

/// A reduced element is determined by its value: the base-2^64 limb
/// decomposition of an integer below 2^256 is unique.
pub proof fn lemma_fe_val_injective(x: Fe, y: Fe)
    requires
        fe_val(x) == fe_val(y),
    ensures
        x == y,
{
    let rx1: int = x.l1 + x.l2 * 0x10000000000000000
        + x.l3 * 0x100000000000000000000000000000000;
    let ry1: int = y.l1 + y.l2 * 0x10000000000000000
        + y.l3 * 0x100000000000000000000000000000000;
    assert(fe_val(x) == x.l0 + 0x10000000000000000 * rx1);
    assert(fe_val(y) == y.l0 + 0x10000000000000000 * ry1);
    lemma_mod_multiples_vanish(rx1, x.l0 as int, 0x10000000000000000);
    lemma_small_mod(x.l0 as nat, 0x10000000000000000);
    lemma_mod_multiples_vanish(ry1, y.l0 as int, 0x10000000000000000);
    lemma_small_mod(y.l0 as nat, 0x10000000000000000);
    assert(x.l0 == fe_val(x) % 0x10000000000000000);
    assert(y.l0 == fe_val(y) % 0x10000000000000000);
    assert(rx1 == ry1);
    let rx2: int = x.l2 + x.l3 * 0x10000000000000000;
    let ry2: int = y.l2 + y.l3 * 0x10000000000000000;
    assert(rx1 == x.l1 + 0x10000000000000000 * rx2);
    assert(ry1 == y.l1 + 0x10000000000000000 * ry2);
    lemma_mod_multiples_vanish(rx2, x.l1 as int, 0x10000000000000000);
    lemma_small_mod(x.l1 as nat, 0x10000000000000000);
    lemma_mod_multiples_vanish(ry2, y.l1 as int, 0x10000000000000000);
    lemma_small_mod(y.l1 as nat, 0x10000000000000000);
    assert(x.l1 == rx1 % 0x10000000000000000);
    assert(y.l1 == ry1 % 0x10000000000000000);
    assert(rx2 == ry2);
    lemma_mod_multiples_vanish(x.l3 as int, x.l2 as int, 0x10000000000000000);
    lemma_small_mod(x.l2 as nat, 0x10000000000000000);
    lemma_mod_multiples_vanish(y.l3 as int, y.l2 as int, 0x10000000000000000);
    lemma_small_mod(y.l2 as nat, 0x10000000000000000);
    assert(x.l2 == rx2 % 0x10000000000000000);
    assert(y.l2 == ry2 % 0x10000000000000000);
    assert(x.l3 == y.l3);
}

} // verus!
