//! Unsigned 256-bit amounts in the chain's base unit, held as four 64-bit
//! limbs, least significant first.
use alloy_primitives::U256;
use vstd::prelude::*;

verus! {

/// 2^64.
pub open spec fn limb_base() -> int {
    0x1_0000_0000_0000_0000
}

/// The largest amount: 2^256 - 1.
pub open spec fn amount_max() -> int {
    limb_base() * limb_base() * limb_base() * limb_base() - 1
}

/// A non-negative integer below 2^256.
#[derive(Clone, Copy, Debug, PartialEq, Eq)]
pub struct Amount {
    pub limbs: [u64; 4],
}

impl Amount {
    /// The integer that the limbs stand for.
    pub open spec fn value(self) -> int {
        self.limbs@[0] as int + limb_base() * (self.limbs@[1] as int + limb_base() * (
        self.limbs@[2] as int + limb_base() * self.limbs@[3] as int))
    }

    pub fn zero() -> (r: Amount)
        ensures
            r.value() == 0,
    {
        Amount { limbs: [0u64, 0u64, 0u64, 0u64] }
    }

    pub fn from_u128(v: u128) -> (r: Amount)
        ensures
            r.value() == v,
    {
        let lo = (v % 0x1_0000_0000_0000_0000u128) as u64;
        let hi = (v / 0x1_0000_0000_0000_0000u128) as u64;
        let r = Amount { limbs: [lo, hi, 0u64, 0u64] };
        assert(r.limbs@[0] == lo && r.limbs@[1] == hi && r.limbs@[2] == 0 && r.limbs@[3] == 0);
        r
    }
}

/// Every amount lies between zero and the largest amount.
pub proof fn lemma_amount_bounds(a: Amount)
    ensures
        0 <= a.value() <= amount_max(),
{
    let b = limb_base();
    let x0 = a.limbs@[0] as int;
    let x1 = a.limbs@[1] as int;
    let x2 = a.limbs@[2] as int;
    let x3 = a.limbs@[3] as int;
    assert(0 <= x3 <= b - 1);
    assert(0 <= x2 + b * x3 <= b * b - 1) by (nonlinear_arith)
        requires
            0 <= x2 <= b - 1,
            0 <= x3 <= b - 1,
            b == limb_base(),
    ;
    assert(0 <= x1 + b * (x2 + b * x3) <= b * b * b - 1) by (nonlinear_arith)
        requires
            0 <= x1 <= b - 1,
            0 <= x2 + b * x3 <= b * b - 1,
            b == limb_base(),
    ;
    assert(0 <= x0 + b * (x1 + b * (x2 + b * x3)) <= b * b * b * b - 1) by (nonlinear_arith)
        requires
            0 <= x0 <= b - 1,
            0 <= x1 + b * (x2 + b * x3) <= b * b * b - 1,
            b == limb_base(),
    ;
}

/// Relies on ruint's `Uint::saturating_mul`: the product, or the largest
/// value where the product does not fit in 256 bits.
#[verifier::external_body]
pub(crate) fn saturating_product(a: Amount, b: Amount) -> (r: Amount)
    ensures
        a.value() * b.value() <= amount_max() ==> r.value() == a.value() * b.value(),
        a.value() * b.value() > amount_max() ==> r.value() == amount_max(),
{
    let p = U256::from_limbs(a.limbs).saturating_mul(U256::from_limbs(b.limbs));
    Amount { limbs: p.into_limbs() }
}

/// Relies on ruint's `Uint::checked_add`: the sum, or nothing where the sum
/// does not fit in 256 bits.
#[verifier::external_body]
pub(crate) fn checked_sum(a: Amount, b: Amount) -> (r: Option<Amount>)
    ensures
        a.value() + b.value() <= amount_max() <==> r.is_some(),
        r matches Some(s) ==> s.value() == a.value() + b.value(),
{
    match U256::from_limbs(a.limbs).checked_add(U256::from_limbs(b.limbs)) {
        Some(s) => Some(Amount { limbs: s.into_limbs() }),
        None => None,
    }
}

/// Relies on ruint's `Ord` on `Uint`: numeric order.
#[verifier::external_body]
pub(crate) fn less_than(a: Amount, b: Amount) -> (r: bool)
    ensures
        r == (a.value() < b.value()),
{
    U256::from_limbs(a.limbs) < U256::from_limbs(b.limbs)
}

} // verus!
