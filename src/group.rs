use vstd::prelude::*;

use crate::field::{Fp, Fp2};

verus! {

/// A point of G1 in projective coordinates over the base field.
#[derive(Clone, Copy, Debug)]
pub struct G1 {
    pub x: Fp,
    pub y: Fp,
    pub z: Fp,
}

/// A point of G2 in projective coordinates over the quadratic extension.
#[derive(Clone, Copy, Debug)]
pub struct G2 {
    pub x: Fp2,
    pub y: Fp2,
    pub z: Fp2,
}

/// An element of the pairing's target group: twelve base-field coefficients.
#[derive(Clone, Copy, Debug)]
pub struct GT {
    d: [Fp; 12],
}

impl View for GT {
    type V = Seq<Fp>;

    closed spec fn view(&self) -> Seq<Fp> {
        self.d@
    }
}

impl G1 {
    pub open spec fn is_zero(&self) -> bool {
        self.x.is_zero() && self.y.is_zero() && self.z.is_zero()
    }

    pub fn zero() -> (r: G1)
        ensures
            r.is_zero(),
    {
        G1 { x: Fp::zero(), y: Fp::zero(), z: Fp::zero() }
    }
}

impl G2 {
    pub open spec fn is_zero(&self) -> bool {
        self.x.is_zero() && self.y.is_zero() && self.z.is_zero()
    }

    pub fn zero() -> (r: G2)
        ensures
            r.is_zero(),
    {
        G2 { x: Fp2::zero(), y: Fp2::zero(), z: Fp2::zero() }
    }
}

impl GT {
    pub open spec fn is_zero(&self) -> bool {
        self@.len() == 12 && forall|i: int| 0 <= i < 12 ==> (#[trigger] self@[i]).is_zero()
    }

    pub fn zero() -> (r: GT)
        ensures
            r.is_zero(),
    {
        let z = Fp::zero();
        GT { d: [z; 12] }
    }

    /// The element with the given coefficients.
    pub fn from_coeffs(d: [Fp; 12]) -> (r: GT)
        ensures
            r@ == d@,
    {
        GT { d }
    }

    pub fn coeffs(&self) -> (r: [Fp; 12])
        ensures
            r@ == self@,
    {
        self.d
    }
}

} // verus!
