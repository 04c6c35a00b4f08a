//! A monotonic, wrap-safe 64-bit time source built on the 32-bit always-on
//! real-time clock of the FE310 family, with a 32-bit variant for callers
//! that accept wraparound.
use vstd::prelude::*;

pub mod clock;
pub mod clock32;
pub mod laws;
pub mod regs;

verus! {

/// The 64-bit clock under its shorter name.
pub type MonoRtc = clock::MonoRtc64;

} // verus!
