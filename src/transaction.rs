//! The read-modify-write discipline over the transport.
//!
//! The library keeps no copy of any register. A caller reads a word through
//! its transport, hands the outcome to [`modify`], and performs the write it
//! returns. A plain [`RegisterWrite`] made without a read overwrites every
//! field of the register, including those the caller did not mean to touch.
use vstd::prelude::*;

use crate::register::Register;

verus! {

/// A fault reported by the transport, passed through without being read.
#[derive(Debug, Clone, Copy, PartialEq, Eq)]
pub struct TransportError<E>(pub E);

/// One register write for the transport to perform.
#[derive(Debug, Clone, Copy, PartialEq, Eq, Structural)]
pub struct RegisterWrite {
    /// The register to write.
    pub register: Register,
    /// The whole word to store in it.
    pub word: u16,
}

/// Decides the write that completes a read-modify-write of `register`.
///
/// `read` is what the transport returned when the register was read. When the
/// read failed, no write is issued and the fault is returned as
/// `TransportError`. Otherwise the write stores `edit` applied to the word
/// that was read, so every bit that `edit` keeps keeps the value observed.
pub fn modify<E, F: Fn(u16) -> u16>(register: Register, read: Result<u16, E>, edit: F) -> (r: Result<
    RegisterWrite,
    TransportError<E>,
>)
    requires
        forall|w: u16| edit.requires((w,)),
    ensures
        match read {
            Err(e) => r == Err::<RegisterWrite, TransportError<E>>(TransportError(e)),
            Ok(w) => r matches Ok(out) && out.register == register && edit.ensures((w,), out.word),
        },
{
    match read {
        Err(e) => Err(TransportError(e)),
        Ok(w) => {
            let word = edit(w);
            Ok(RegisterWrite { register, word })
        },
    }
}

} // verus!
