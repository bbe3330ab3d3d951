use vstd::prelude::*;

pub mod cipher;
pub mod config;
pub mod curve;
pub mod dlp;
pub mod error;
pub mod field;
pub mod group;
pub mod keys;

verus! {

} // verus!
