use vstd::prelude::*;

use crate::field::Fr;
use crate::group::{G1, G2};

verus! {

/// A secret key: the two scalars `(x, y)`.
#[derive(Clone, Copy, Debug)]
pub struct SecretKey {
    pub x: Fr,
    pub y: Fr,
}

/// A public key: `(x*P, y*Q)` for the fixed generators `P` of G1 and `Q` of G2.
#[allow(non_snake_case)]
#[derive(Clone, Copy, Debug)]
pub struct PublicKey {
    pub xP: G1,
    pub yQ: G2,
}

impl SecretKey {
    pub open spec fn is_zero(&self) -> bool {
        self.x.is_zero() && self.y.is_zero()
    }

    pub fn zero() -> (r: SecretKey)
        ensures
            r.is_zero(),
    {
        SecretKey { x: Fr::zero(), y: Fr::zero() }
    }

    /// Wipes the key.
    pub fn clear(&mut self)
        ensures
            final(self).is_zero(),
    {
        *self = SecretKey::zero();
    }
}

impl PublicKey {
    pub open spec fn is_zero(&self) -> bool {
        self.xP.is_zero() && self.yQ.is_zero()
    }

    pub fn zero() -> (r: PublicKey)
        ensures
            r.is_zero(),
    {
        PublicKey { xP: G1::zero(), yQ: G2::zero() }
    }

    pub fn clear(&mut self)
        ensures
            final(self).is_zero(),
    {
        *self = PublicKey::zero();
    }
}

} // verus!
