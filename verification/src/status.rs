//! A status snapshot of the peripheral and its decoding into a fault kind.
//!
//! Every blocking primitive re-reads the hardware status register and runs it
//! through [`classify`] before touching the data registers, so that a latched
//! fault aborts the operation instead of acting on stale hardware state.

use vstd::prelude::*;

verus! {

/// A hardware fault latched by the peripheral's status register.
#[derive(Clone, Copy, Debug, PartialEq, Eq, Structural)]
pub enum FaultKind {
    ModeFault,
    CrcError,
    Overrun,
    Underrun,
    TiFrameError,
}

/// Why a blocking transfer operation gave up.
///
/// `HardwareFault` reports a latched fault found by [`classify`];
/// `Timeout` means an awaited availability flag never rose within the
/// iteration bound of the busy-wait.
#[derive(Clone, Copy, Debug, PartialEq, Eq, Structural)]
pub enum TransferError {
    HardwareFault(FaultKind),
    Timeout,
}

/// The requested interrupt kind has no bit in the interrupt registers'
/// map, so the request was rejected rather than silently aliased to an
/// unrelated bit.
#[derive(Clone, Copy, Debug, PartialEq, Eq, Structural)]
pub struct UnsupportedInterrupt;

/// One immutable read of the peripheral's status bits at a single instant.
///
/// Snapshots are never persisted: the hardware is re-read on every poll.
#[derive(Clone, Copy, Debug)]
pub struct StatusSnapshot {
    /// Fault flag: master mode fault.
    pub mode_fault: bool,
    /// Fault flag: CRC check failed.
    pub crc_error: bool,
    /// Fault flag: receive FIFO overrun.
    pub overrun: bool,
    /// Fault flag: transmit FIFO underrun.
    pub underrun: bool,
    /// Fault flag: TI frame format error.
    pub ti_frame_error: bool,
    /// Completion flag: no more data to transmit.
    pub tx_complete: bool,
    /// Completion flag: end of the current transaction.
    pub end_of_transaction: bool,
    /// Availability flag: a word can be written and one read back at once.
    pub duplex_available: bool,
    /// Availability flag: the receive FIFO holds at least one word.
    pub rx_not_empty: bool,
    /// Availability flag: receive FIFO fill level.
    pub rx_fill_level: u8,
}

/// The fault a snapshot reports, by fixed priority:
/// mode fault, then CRC error, then overrun, then underrun, then TI frame
/// error.  `None` when no fault flag is set.
pub open spec fn spec_classify(s: StatusSnapshot) -> Option<FaultKind> {
    if s.mode_fault {
        Some(FaultKind::ModeFault)
    } else if s.crc_error {
        Some(FaultKind::CrcError)
    } else if s.overrun {
        Some(FaultKind::Overrun)
    } else if s.underrun {
        Some(FaultKind::Underrun)
    } else if s.ti_frame_error {
        Some(FaultKind::TiFrameError)
    } else {
        None
    }
}

/// Decode a status snapshot into a fault kind, or `None` when no fault flag
/// is set.  Pure: the snapshot is not modified and no register is touched.
pub fn classify(s: &StatusSnapshot) -> (r: Option<FaultKind>)
    ensures
        r == spec_classify(*s),
{
    if s.mode_fault {
        Some(FaultKind::ModeFault)
    } else if s.crc_error {
        Some(FaultKind::CrcError)
    } else if s.overrun {
        Some(FaultKind::Overrun)
    } else if s.underrun {
        Some(FaultKind::Underrun)
    } else if s.ti_frame_error {
        Some(FaultKind::TiFrameError)
    } else {
        None
    }
}

} // verus!
