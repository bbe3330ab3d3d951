use vstd::prelude::*;

verus! {

/// What can go wrong when a ciphertext is turned back into an integer.
#[derive(Clone, Copy, Debug, PartialEq, Eq, Structural)]
pub enum SheError {
    /// No integer in the decodable range reproduces the ciphertext: it is out
    /// of range, was made under another key, or is corrupted.
    CantDecrypt,
    /// The engine failed in a way not otherwise classified.
    InternalError,
}

/// Whether an engine status code reports success (zero does).
pub fn status_ok(status: i32) -> (r: bool)
    ensures
        r <==> status == 0,
{
    status == 0
}

/// The outcome of a decryption call from the engine's status and the value it
/// wrote: the value on success, `CantDecrypt` on any other status.
pub fn decryption_result(status: i32, value: i64) -> (r: Result<i64, SheError>)
    ensures
        status == 0 ==> r == Ok::<i64, SheError>(value),
        status != 0 ==> r == Err::<i64, SheError>(SheError::CantDecrypt),
{
    if status == 0 {
        Ok(value)
    } else {
        Err(SheError::CantDecrypt)
    }
}

} // verus!
