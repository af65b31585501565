//! A deterministic fake peripheral.
//!
//! [`FakeSpi`] implements [`SpiBus`] entirely in software, so the driver can
//! be exercised without hardware: it records every data-register access,
//! can echo each transmitted word back into the receive FIFO, can hold a
//! pre-latched fault or stale receive words, and raises each completion
//! flag after a configurable number of status reads.

use vstd::prelude::*;

use crate::bus::{BusModel, SpiBus};
use crate::status::{FaultKind, StatusSnapshot};

verus! {

/// A software stand-in for the peripheral's register block.
///
/// Configuration fields (`echo_mask`, `latched_fault`, the wait counters)
/// are plain public fields: a test sets them up before handing the fake to
/// the driver.  The access logs are public too, so a test can check exactly
/// which words crossed each data register.
pub struct FakeSpi {
    /// Words observed on the transmit data register, oldest first.
    pub tx_seen: Vec<u8>,
    /// Words currently waiting in the receive FIFO, front next.
    pub rx_queue: Vec<u8>,
    /// Words handed out of the receive data register, oldest first.
    pub rx_given: Vec<u8>,
    /// A fault the fake reports on every status read.
    pub latched_fault: Option<FaultKind>,
    /// When set, every transmitted word `w` makes `w ^ mask` pending in the
    /// receive FIFO; when `None`, transmitted words get no response and the
    /// awaited availability flags never rise.
    pub echo_mask: Option<u8>,
    /// Status reads left until `tx_complete` reads as set.
    pub txc_countdown: u32,
    /// Status reads left until `end_of_transaction` reads as set.
    pub eot_countdown: u32,
    /// The peripheral-enable control bit.
    pub enabled: bool,
    /// The transaction-start control bit.
    pub started: bool,
    /// Interrupt-enable bit positions set, in order.
    pub ier_log: Vec<u8>,
    /// Interrupt-clear bit positions written, in order.
    pub ifcr_log: Vec<u8>,
    /// Status reads performed so far.
    pub polls: Ghost<nat>,
    /// Executable mirror of the status-read count, saturating at the type's
    /// maximum, so a test can observe how long a busy-wait really spun.
    pub poll_count: u64,
}

impl FakeSpi {
    /// A fresh, idle, enabled peripheral: nothing latched, nothing pending,
    /// both completion flags already raised, no echo configured.
    pub fn new() -> (r: FakeSpi)
        ensures
            r.model() == (BusModel {
                txs: Seq::<u8>::empty(),
                rxs: Seq::<u8>::empty(),
                fault: None::<FaultKind>,
                rx_pending: 0nat,
                txc_wait: 0nat,
                eot_wait: 0nat,
                status_reads: 0nat,
                enabled: true,
                started: false,
                ier: Seq::<u8>::empty(),
                ifcr: Seq::<u8>::empty(),
            }),
            r.echo_mask is None,
    {
        FakeSpi {
            tx_seen: Vec::new(),
            rx_queue: Vec::new(),
            rx_given: Vec::new(),
            latched_fault: None,
            echo_mask: None,
            txc_countdown: 0,
            eot_countdown: 0,
            enabled: true,
            started: false,
            ier_log: Vec::new(),
            ifcr_log: Vec::new(),
            polls: Ghost(0nat),
            poll_count: 0,
        }
    }
}

impl SpiBus for FakeSpi {
    open spec fn model(&self) -> BusModel {
        BusModel {
            txs: self.tx_seen@,
            rxs: self.rx_given@,
            fault: self.latched_fault,
            rx_pending: self.rx_queue@.len(),
            txc_wait: self.txc_countdown as nat,
            eot_wait: self.eot_countdown as nat,
            status_reads: self.polls@,
            enabled: self.enabled,
            started: self.started,
            ier: self.ier_log@,
            ifcr: self.ifcr_log@,
        }
    }

    fn read_status(&mut self) -> (s: StatusSnapshot) {
        let fault = self.latched_fault;
        let s = StatusSnapshot {
            mode_fault: matches!(fault, Some(FaultKind::ModeFault)),
            crc_error: matches!(fault, Some(FaultKind::CrcError)),
            overrun: matches!(fault, Some(FaultKind::Overrun)),
            underrun: matches!(fault, Some(FaultKind::Underrun)),
            ti_frame_error: matches!(fault, Some(FaultKind::TiFrameError)),
            tx_complete: self.txc_countdown == 0,
            end_of_transaction: self.eot_countdown == 0,
            duplex_available: self.rx_queue.len() > 0,
            rx_not_empty: self.rx_queue.len() > 0,
            rx_fill_level: if self.rx_queue.len() >= 3 {
                3
            } else {
                self.rx_queue.len() as u8
            },
        };
        if self.txc_countdown > 0 {
            self.txc_countdown = self.txc_countdown - 1;
        }
        if self.eot_countdown > 0 {
            self.eot_countdown = self.eot_countdown - 1;
        }
        self.polls = Ghost(self.polls@ + 1);
        if self.poll_count < u64::MAX {
            self.poll_count = self.poll_count + 1;
        }
        s
    }

    fn write_tx(&mut self, word: u8) {
        self.tx_seen.push(word);
        match self.echo_mask {
            Some(mask) => {
                self.rx_queue.push(word ^ mask);
            },
            None => {},
        }
    }

    fn read_rx(&mut self) -> (word: u8) {
        let word = self.rx_queue.remove(0);
        self.rx_given.push(word);
        word
    }

    fn set_start(&mut self) {
        self.started = true;
    }

    fn clear_enable(&mut self) {
        self.enabled = false;
    }

    fn set_ier_bit(&mut self, bit: u8) {
        self.ier_log.push(bit);
    }

    fn write_ifcr_bit(&mut self, bit: u8) {
        self.ifcr_log.push(bit);
    }
}

} // verus!
