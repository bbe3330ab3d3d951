use vstd::prelude::*;

use crate::group::{G1, G2, GT};

verus! {

/// A ciphertext in G1: the pair of points `(S, T)`.
#[allow(non_snake_case)]
#[derive(Clone, Copy, Debug)]
pub struct CipherTextG1 {
    pub S: G1,
    pub T: G1,
}

/// A ciphertext in G2: the pair of points `(S, T)`.
#[allow(non_snake_case)]
#[derive(Clone, Copy, Debug)]
pub struct CipherTextG2 {
    pub S: G2,
    pub T: G2,
}

/// A ciphertext in GT: four target-group elements.
#[derive(Clone, Copy, Debug)]
pub struct CipherTextGT {
    pub g: [GT; 4],
}

impl CipherTextG1 {
    pub open spec fn is_zero(&self) -> bool {
        self.S.is_zero() && self.T.is_zero()
    }

    pub fn zero() -> (r: CipherTextG1)
        ensures
            r.is_zero(),
    {
        CipherTextG1 { S: G1::zero(), T: G1::zero() }
    }

    pub fn clear(&mut self)
        ensures
            final(self).is_zero(),
    {
        *self = CipherTextG1::zero();
    }
}

impl CipherTextG2 {
    pub open spec fn is_zero(&self) -> bool {
        self.S.is_zero() && self.T.is_zero()
    }

    pub fn zero() -> (r: CipherTextG2)
        ensures
            r.is_zero(),
    {
        CipherTextG2 { S: G2::zero(), T: G2::zero() }
    }

    pub fn clear(&mut self)
        ensures
            final(self).is_zero(),
    {
        *self = CipherTextG2::zero();
    }
}

impl CipherTextGT {
    pub open spec fn is_zero(&self) -> bool {
        forall|i: int| 0 <= i < 4 ==> (#[trigger] self.g@[i]).is_zero()
    }

    pub fn zero() -> (r: CipherTextGT)
        ensures
            r.is_zero(),
    {
        let z = GT::zero();
        CipherTextGT { g: [z; 4] }
    }

    pub fn clear(&mut self)
        ensures
            final(self).is_zero(),
    {
        *self = CipherTextGT::zero();
    }
}

} // verus!
