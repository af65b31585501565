//! Blocking driver core for a synchronous full-duplex serial bus built on a
//! small fixed-depth hardware transmit/receive FIFO pair.
//!
//! The driver paces word-at-a-time exchanges so that the bounded FIFO never
//! overruns or underruns, keeps an exact word-for-word correspondence between
//! transmitted and received data, and bounds every busy-wait.  The register
//! surface is reached through the [`bus::SpiBus`] capability, so the same
//! verified engine runs against real hardware registers or against the
//! deterministic fake peripheral used by the tests.

pub mod bus;
pub mod fake;
pub mod laws;
pub mod low_power;
pub mod spi;
pub mod status;

pub use bus::{BusModel, SpiBus};
pub use fake::FakeSpi;
pub use low_power::StopMode;
pub use spi::{DataSize, Spi, SpiInterrupt, FIFO_DEPTH, MAX_ITERS};
pub use status::UnsupportedInterrupt;
pub use status::{classify, FaultKind, StatusSnapshot, TransferError};
