use vstd::arithmetic::div_mod::lemma_fundamental_div_mod_converse;
use vstd::prelude::*;

verus! {

/// 2^64, the weight of one limb.
pub open spec fn limb_base() -> nat {
    0x1_0000_0000_0000_0000nat
}

/// 2^256: every value of a `Uint256` lies below it, and arithmetic wraps at it.
pub open spec fn word_modulus() -> nat {
    0x1_0000_0000_0000_0000_0000_0000_0000_0000_0000_0000_0000_0000_0000_0000_0000_0000nat
}

/// An unsigned 256-bit integer held as four 64-bit limbs, least significant first.
#[derive(Clone, Copy, Debug, PartialEq, Eq, Structural)]
pub struct Uint256 {
    pub l0: u64,
    pub l1: u64,
    pub l2: u64,
    pub l3: u64,
}

impl View for Uint256 {
    type V = nat;

    /// The integer that the limbs spell out.
    open spec fn view(&self) -> nat {
        limbs_value(self.l0, self.l1, self.l2, self.l3)
    }
}

/// The value of four little-endian limbs.
pub open spec fn limbs_value(l0: u64, l1: u64, l2: u64, l3: u64) -> nat {
    l0 as nat + limb_base() * (l1 as nat + limb_base() * (l2 as nat + limb_base() * l3 as nat))
}

/// 2^64 as a machine integer wide enough to hold a limb sum with its carry.
const LIMB_BASE: u128 = 0x1_0000_0000_0000_0000;

/// Every value of a `Uint256` lies in `[0, 2^256)`.
pub proof fn lemma_value_bounded(x: Uint256)
    ensures
        x@ < word_modulus(),
{
    let b = limb_base() as int;
    let (l0, l1, l2, l3) = (x.l0 as int, x.l1 as int, x.l2 as int, x.l3 as int);
    assert(l0 + b * (l1 + b * (l2 + b * l3)) < b * b * b * b) by (nonlinear_arith)
        requires
            0 <= l0 < b,
            0 <= l1 < b,
            0 <= l2 < b,
            0 <= l3 < b,
    ;
}

/// Adding four limb pairs with a rippling carry, and dropping the last carry,
/// spells out the sum modulo 2^256.
proof fn lemma_carry_chain(a: Uint256, b: Uint256, r: Uint256, c0: int, c1: int, c2: int, c3: int)
    requires
        a.l0 + b.l0 == r.l0 + limb_base() * c0,
        a.l1 + b.l1 + c0 == r.l1 + limb_base() * c1,
        a.l2 + b.l2 + c1 == r.l2 + limb_base() * c2,
        a.l3 + b.l3 + c2 == r.l3 + limb_base() * c3,
    ensures
        r@ == (a@ + b@) % word_modulus(),
{
    let m = limb_base() as int;
    let sum = a@ + b@;
    assert(sum == r@ + (m * m * m * m) * c3) by (nonlinear_arith)
        requires
            m == limb_base(),
            sum == a@ + b@,
            a.l0 + b.l0 == r.l0 + m * c0,
            a.l1 + b.l1 + c0 == r.l1 + m * c1,
            a.l2 + b.l2 + c1 == r.l2 + m * c2,
            a.l3 + b.l3 + c2 == r.l3 + m * c3,
            a@ == a.l0 + m * (a.l1 + m * (a.l2 + m * a.l3)),
            b@ == b.l0 + m * (b.l1 + m * (b.l2 + m * b.l3)),
            r@ == r.l0 + m * (r.l1 + m * (r.l2 + m * r.l3)),
    ;
    lemma_value_bounded(r);
    lemma_fundamental_div_mod_converse(sum as int, word_modulus() as int, c3, r@ as int);
}

impl Uint256 {
    /// Zero.
    pub fn zero() -> (r: Uint256)
        ensures
            r@ == 0,
    {
        Uint256 { l0: 0, l1: 0, l2: 0, l3: 0 }
    }

    /// The 256-bit value of a 64-bit integer.
    pub fn from_u64(v: u64) -> (r: Uint256)
        ensures
            r@ == v as nat,
    {
        Uint256 { l0: v, l1: 0, l2: 0, l3: 0 }
    }

    /// The sum of two values, wrapping around at 2^256.
    pub fn wrapping_add(self, rhs: Uint256) -> (r: Uint256)
        ensures
            r@ == (self@ + rhs@) % word_modulus(),
    {
        let t0: u128 = self.l0 as u128 + rhs.l0 as u128;
        let c0: u128 = t0 / LIMB_BASE;
        let t1: u128 = self.l1 as u128 + rhs.l1 as u128 + c0;
        let c1: u128 = t1 / LIMB_BASE;
        let t2: u128 = self.l2 as u128 + rhs.l2 as u128 + c1;
        let c2: u128 = t2 / LIMB_BASE;
        let t3: u128 = self.l3 as u128 + rhs.l3 as u128 + c2;
        let c3: u128 = t3 / LIMB_BASE;
        let r = Uint256 {
            l0: (t0 % LIMB_BASE) as u64,
            l1: (t1 % LIMB_BASE) as u64,
            l2: (t2 % LIMB_BASE) as u64,
            l3: (t3 % LIMB_BASE) as u64,
        };
        proof {
            lemma_carry_chain(self, rhs, r, c0 as int, c1 as int, c2 as int, c3 as int);
        }
        r
    }
}

} // verus!
