//! The stop-mode selector shared with the low-power subsystem.
//!
//! Entering a stop mode requires the bus to be quiescent first — the
//! caller runs [`crate::spi::Spi::disable`] before stopping the peripheral
//! clock.  The register sequencing that actually enters and leaves the
//! low-power modes drives chip-specific power-control registers and stays
//! outside this verified core; only the mode encoding lives here.

use vstd::prelude::*;

verus! {

/// The three stop modes the power controller's mode field accepts.
#[derive(Clone, Copy, Debug, PartialEq, Eq, Structural)]
pub enum StopMode {
    Zero,
    One,
    Two,
}

/// The power-control register encoding of a stop mode.
pub open spec fn spec_stop_mode_bits(mode: StopMode) -> u8 {
    match mode {
        StopMode::Zero => 0,
        StopMode::One => 1,
        StopMode::Two => 2,
    }
}

impl StopMode {
    /// The value this mode writes to the power controller's mode field.
    pub fn bits(self) -> (r: u8)
        ensures
            r == spec_stop_mode_bits(self),
    {
        match self {
            StopMode::Zero => 0,
            StopMode::One => 1,
            StopMode::Two => 2,
        }
    }
}

} // verus!
