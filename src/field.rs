use vstd::prelude::*;

use crate::curve::{MCLBN_FP_UNIT_SIZE, MCLBN_FR_UNIT_SIZE};

verus! {

/// An element of the base field: fixed-width limbs, least significant first.
#[derive(Clone, Copy, Debug)]
pub struct Fp {
    d: [u64; MCLBN_FP_UNIT_SIZE],
}

/// An element of the scalar field.
#[derive(Clone, Copy, Debug)]
pub struct Fr {
    d: [u64; MCLBN_FR_UNIT_SIZE],
}

/// An element of the quadratic extension of the base field.
#[derive(Clone, Copy, Debug)]
pub struct Fp2 {
    d: [Fp; 2],
}

impl View for Fp {
    type V = Seq<u64>;

    closed spec fn view(&self) -> Seq<u64> {
        self.d@
    }
}

impl View for Fr {
    type V = Seq<u64>;

    closed spec fn view(&self) -> Seq<u64> {
        self.d@
    }
}

impl View for Fp2 {
    type V = Seq<Fp>;

    closed spec fn view(&self) -> Seq<Fp> {
        self.d@
    }
}

/// Every limb is zero.
pub open spec fn all_zero(s: Seq<u64>) -> bool {
    forall|i: int| 0 <= i < s.len() ==> s[i] == 0
}

impl Fp {
    pub open spec fn is_zero(&self) -> bool {
        self@.len() == MCLBN_FP_UNIT_SIZE && all_zero(self@)
    }

    pub fn zero() -> (r: Fp)
        ensures
            r.is_zero(),
    {
        Fp { d: [0u64; MCLBN_FP_UNIT_SIZE] }
    }

    /// The element with the given limbs.
    pub fn from_limbs(d: [u64; MCLBN_FP_UNIT_SIZE]) -> (r: Fp)
        ensures
            r@ == d@,
    {
        Fp { d }
    }

    pub fn limbs(&self) -> (r: [u64; MCLBN_FP_UNIT_SIZE])
        ensures
            r@ == self@,
    {
        self.d
    }
}

impl Fr {
    pub open spec fn is_zero(&self) -> bool {
        self@.len() == MCLBN_FR_UNIT_SIZE && all_zero(self@)
    }

    pub fn zero() -> (r: Fr)
        ensures
            r.is_zero(),
    {
        Fr { d: [0u64; MCLBN_FR_UNIT_SIZE] }
    }

    /// The element with the given limbs.
    pub fn from_limbs(d: [u64; MCLBN_FR_UNIT_SIZE]) -> (r: Fr)
        ensures
            r@ == d@,
    {
        Fr { d }
    }

    pub fn limbs(&self) -> (r: [u64; MCLBN_FR_UNIT_SIZE])
        ensures
            r@ == self@,
    {
        self.d
    }
}

impl Fp2 {
    pub open spec fn is_zero(&self) -> bool {
        self@.len() == 2 && self@[0].is_zero() && self@[1].is_zero()
    }

    pub fn zero() -> (r: Fp2)
        ensures
            r.is_zero(),
    {
        Fp2 { d: [Fp::zero(), Fp::zero()] }
    }

    /// The element `a + b * u` over the base field.
    pub fn from_parts(a: Fp, b: Fp) -> (r: Fp2)
        ensures
            r@ == seq![a, b],
    {
        let r = Fp2 { d: [a, b] };
        assert(r@ =~= seq![a, b]);
        r
    }

    pub fn parts(&self) -> (r: (Fp, Fp))
        ensures
            self@.len() == 2 && r.0 == self@[0] && r.1 == self@[1],
    {
        (self.d[0], self.d[1])
    }
}

} // verus!
