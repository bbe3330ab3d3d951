use vstd::prelude::*;

verus! {

/// The pairing-friendly or plain elliptic curves the arithmetic engine knows.
#[allow(non_camel_case_types)]
#[derive(Clone, Copy, Debug, PartialEq, Eq, Structural)]
pub enum CurveType {
    BN254,
    BN381,
    SNARK,
    BLS12_381,
    SECP192K1,
    SECP224K1,
    SECP256K1,
    NIST_P192,
    NIST_P224,
    NIST_P256,
}

/// Limbs of a base-field element.
pub const MCLBN_FP_UNIT_SIZE: usize = 6;

/// Limbs of a scalar-field element.
pub const MCLBN_FR_UNIT_SIZE: usize = 4;

/// The layout tag the engine checks at initialisation: ten times the scalar
/// limb count plus the base limb count.
pub const MCLBN_COMPILED_TIME_VAR: usize = MCLBN_FR_UNIT_SIZE * 10 + MCLBN_FP_UNIT_SIZE;

impl CurveType {
    /// The engine's numeric identifier of the curve.
    pub open spec fn spec_code(self) -> i32 {
        match self {
            CurveType::BN254 => 0,
            CurveType::BN381 => 1,
            CurveType::SNARK => 4,
            CurveType::BLS12_381 => 5,
            CurveType::SECP192K1 => 100,
            CurveType::SECP224K1 => 101,
            CurveType::SECP256K1 => 102,
            CurveType::NIST_P192 => 105,
            CurveType::NIST_P224 => 106,
            CurveType::NIST_P256 => 107,
        }
    }

    pub fn code(&self) -> (r: i32)
        ensures
            r == self.spec_code(),
    {
        match self {
            CurveType::BN254 => 0,
            CurveType::BN381 => 1,
            CurveType::SNARK => 4,
            CurveType::BLS12_381 => 5,
            CurveType::SECP192K1 => 100,
            CurveType::SECP224K1 => 101,
            CurveType::SECP256K1 => 102,
            CurveType::NIST_P192 => 105,
            CurveType::NIST_P224 => 106,
            CurveType::NIST_P256 => 107,
        }
    }
}

} // verus!
