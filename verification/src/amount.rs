//! Amounts of the native asset: unsigned 512-bit integers.
//!
//! An [`Amount`] carries the eight little-endian 64-bit limbs of a
//! `U512`. Its view is the number they denote. Sums, differences and
//! comparisons are computed by `U512` itself.

use odra_core::casper_types::U512;
use vstd::prelude::*;

verus! {

/// An unsigned 512-bit amount, least significant limb first.
#[derive(Clone, Copy, Debug, PartialEq, Eq)]
pub struct Amount {
    pub limbs: [u64; 8],
}

/// The number denoted by eight little-endian 64-bit limbs.
pub open spec fn limbs_value(l: Seq<u64>) -> nat
    recommends
        l.len() == 8,
{
    (l[0] + 0x1_0000_0000_0000_0000int * (l[1] + 0x1_0000_0000_0000_0000int * (l[2]
        + 0x1_0000_0000_0000_0000int * (l[3] + 0x1_0000_0000_0000_0000int * (l[4]
        + 0x1_0000_0000_0000_0000int * (l[5] + 0x1_0000_0000_0000_0000int * (l[6]
        + 0x1_0000_0000_0000_0000int * l[7]))))))) as nat
}

impl View for Amount {
    type V = nat;

    open spec fn view(&self) -> nat {
        limbs_value(self.limbs@)
    }
}

impl Amount {
    /// The largest amount: two to the power 512, less one.
    pub open spec fn max_value() -> nat {
        0xFFFF_FFFF_FFFF_FFFF_FFFF_FFFF_FFFF_FFFF_FFFF_FFFF_FFFF_FFFF_FFFF_FFFF_FFFF_FFFF_FFFF_FFFF_FFFF_FFFF_FFFF_FFFF_FFFF_FFFF_FFFF_FFFF_FFFF_FFFF_FFFF_FFFF_FFFF_FFFFnat
    }

    /// The amount zero.
    pub fn zero() -> (r: Amount)
        ensures
            r@ == 0,
    {
        Amount { limbs: [0, 0, 0, 0, 0, 0, 0, 0] }
    }

    /// The amount whose value is `v`.
    pub fn from_u64(v: u64) -> (r: Amount)
        ensures
            r@ == v,
    {
        Amount { limbs: [v, 0, 0, 0, 0, 0, 0, 0] }
    }
}

/// Calls `U512`'s `+` (its `Add::add`) on the two amounts' limbs: the
/// result denotes the sum of the two numbers. `U512` panics when the sum
/// does not fit in 512 bits, so such operands are excluded.
#[verifier::external_body]
pub(crate) fn u512_add(a: &Amount, b: &Amount) -> (r: Amount)
    requires
        a@ + b@ <= Amount::max_value(),
    ensures
        r@ == a@ + b@,
{
    Amount { limbs: (U512(a.limbs) + U512(b.limbs)).0 }
}

/// Calls `U512`'s `-` (its `Sub::sub`) on the two amounts' limbs: the
/// result denotes the difference of the two numbers. `U512` panics when
/// the second is the larger, so such operands are excluded.
#[verifier::external_body]
pub(crate) fn u512_sub(a: &Amount, b: &Amount) -> (r: Amount)
    requires
        b@ <= a@,
    ensures
        r@ == a@ - b@,
{
    Amount { limbs: (U512(a.limbs) - U512(b.limbs)).0 }
}

/// Calls `U512`'s `<` (its `PartialOrd::lt`) on the two amounts' limbs:
/// true exactly when the first denotes the smaller number.
#[verifier::external_body]
pub(crate) fn u512_lt(a: &Amount, b: &Amount) -> (r: bool)
    ensures
        r == (a@ < b@),
{
    U512(a.limbs) < U512(b.limbs)
}

/// Calls `U512::is_zero` on the amount's limbs: true exactly when they
/// denote the number zero.
#[verifier::external_body]
pub(crate) fn u512_is_zero(a: &Amount) -> (r: bool)
    ensures
        r == (a@ == 0),
{
    U512(a.limbs).is_zero()
}

} // verus!
