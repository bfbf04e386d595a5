//! Control-register model of the NAU88C22 audio codec.
//!
//! The library names every register on the codec's control bus, maps each
//! one to its bus address, and gives typed access to the fields packed into
//! each register word. Every field write replaces exactly the bits of that
//! field and leaves all other bits of the word as they were.
use vstd::prelude::*;

pub mod bits;
pub mod codec;
pub mod latch;
pub mod modes;
pub mod register;
pub mod transaction;

pub use modes::{CompandingMode, Gpio1Selection, ReservedFieldValue};
pub use register::{Register, UnknownRegisterAddress};

verus! {

} // verus!
