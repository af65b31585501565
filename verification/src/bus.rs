//! The register capability the driver runs against.
//!
//! All hardware access goes through [`SpiBus`], an explicit, injectable
//! handle for the peripheral's register surface.  Its specification is a
//! ghost [`BusModel`]: the history of data-register accesses, the latched
//! fault, the words waiting in the receive FIFO, and how many status reads
//! remain until each completion flag rises.  The verified engine is generic
//! over the capability, so the same proofs cover real registers and the
//! deterministic fake peripheral in [`crate::fake`].

use vstd::prelude::*;

use crate::status::{spec_classify, FaultKind, StatusSnapshot};

verus! {

/// The abstract state of a peripheral behind a [`SpiBus`] handle.
pub ghost struct BusModel {
    /// Words stored to the transmit data register, oldest first.
    pub txs: Seq<u8>,
    /// Words loaded from the receive data register, oldest first.
    pub rxs: Seq<u8>,
    /// The fault the peripheral has latched, reported by every status read.
    pub fault: Option<FaultKind>,
    /// Words currently waiting in the receive FIFO.
    pub rx_pending: nat,
    /// Status reads left until `tx_complete` reads as set.
    pub txc_wait: nat,
    /// Status reads left until `end_of_transaction` reads as set.
    pub eot_wait: nat,
    /// Status reads performed so far.
    pub status_reads: nat,
    /// The peripheral-enable control bit.
    pub enabled: bool,
    /// The transaction-start control bit.
    pub started: bool,
    /// Interrupt-enable bit positions set, in order.
    pub ier: Seq<u8>,
    /// Interrupt-clear bit positions written, in order.
    pub ifcr: Seq<u8>,
}

/// The data-register history and receive FIFO are unchanged.
pub open spec fn same_data(pre: BusModel, post: BusModel) -> bool {
    &&& post.txs == pre.txs
    &&& post.rxs == pre.rxs
    &&& post.rx_pending == pre.rx_pending
}

/// Latched fault and control bits are unchanged.
pub open spec fn same_control(pre: BusModel, post: BusModel) -> bool {
    &&& post.fault == pre.fault
    &&& post.enabled == pre.enabled
    &&& post.started == pre.started
}

/// The interrupt-register logs are unchanged.
pub open spec fn same_irq(pre: BusModel, post: BusModel) -> bool {
    &&& post.ier == pre.ier
    &&& post.ifcr == pre.ifcr
}

/// No status read happened: the read counter and the completion-flag wait
/// counters are unchanged.
pub open spec fn same_polling(pre: BusModel, post: BusModel) -> bool {
    &&& post.status_reads == pre.status_reads
    &&& post.txc_wait == pre.txc_wait
    &&& post.eot_wait == pre.eot_wait
}

/// One status read happened: the read counter advanced by one and each
/// completion-flag wait counter counted down towards zero.
pub open spec fn one_status_read(pre: BusModel, post: BusModel) -> bool {
    &&& post.status_reads == pre.status_reads + 1
    &&& post.txc_wait == if pre.txc_wait > 0 { (pre.txc_wait - 1) as nat } else { 0nat }
    &&& post.eot_wait == if pre.eot_wait > 0 { (pre.eot_wait - 1) as nat } else { 0nat }
}

/// Status reads only count completion-flag wait counters down, never up.
pub open spec fn waits_no_grow(pre: BusModel, post: BusModel) -> bool {
    &&& post.txc_wait <= pre.txc_wait
    &&& post.eot_wait <= pre.eot_wait
}

/// The whole register surface other than the status register is unchanged.
pub open spec fn same_registers(pre: BusModel, post: BusModel) -> bool {
    &&& same_data(pre, post)
    &&& same_control(pre, post)
    &&& same_irq(pre, post)
}

/// An explicit, injectable capability for the peripheral's register surface.
///
/// Every method stands for exactly one register access of the stated width:
/// the hardware advances its FIFO pointers by access width, so a store or
/// load must move exactly one word.  The contracts say how each access moves
/// the abstract [`BusModel`]; they promise nothing about when availability
/// flags rise, since that is the peripheral's own timing.
pub trait SpiBus: Sized {
    /// The abstract state of the peripheral behind this handle.
    spec fn model(&self) -> BusModel;

    /// Read the status register once.
    ///
    /// The snapshot reports the latched fault exactly, reports the receive
    /// FIFO as non-empty exactly when a word is pending, never claims duplex
    /// availability without a pending word, and reports each completion flag
    /// once its wait counter has run out.
    fn read_status(&mut self) -> (s: StatusSnapshot)
        ensures
            same_registers(old(self).model(), final(self).model()),
            one_status_read(old(self).model(), final(self).model()),
            spec_classify(s) == old(self).model().fault,
            s.rx_not_empty == (old(self).model().rx_pending > 0),
            s.rx_fill_level != 0 ==> old(self).model().rx_pending > 0,
            s.duplex_available ==> old(self).model().rx_pending > 0,
            s.tx_complete == (old(self).model().txc_wait == 0),
            s.end_of_transaction == (old(self).model().eot_wait == 0),
    ;

    /// Store one word to the transmit data register, in a single
    /// single-word-width access.  At most one response word can become
    /// pending in the receive FIFO as a consequence.
    fn write_tx(&mut self, word: u8)
        ensures
            final(self).model().txs == old(self).model().txs.push(word),
            final(self).model().rxs == old(self).model().rxs,
            final(self).model().rx_pending >= old(self).model().rx_pending,
            final(self).model().rx_pending <= old(self).model().rx_pending + 1,
            same_control(old(self).model(), final(self).model()),
            same_irq(old(self).model(), final(self).model()),
            same_polling(old(self).model(), final(self).model()),
    ;

    /// Load one word from the receive data register, in a single
    /// single-word-width access.  Only meaningful while a word is pending.
    fn read_rx(&mut self) -> (word: u8)
        requires
            old(self).model().rx_pending > 0,
        ensures
            final(self).model().rxs == old(self).model().rxs.push(word),
            final(self).model().txs == old(self).model().txs,
            final(self).model().rx_pending == old(self).model().rx_pending - 1,
            same_control(old(self).model(), final(self).model()),
            same_irq(old(self).model(), final(self).model()),
            same_polling(old(self).model(), final(self).model()),
    ;

    /// Assert the transaction-start control bit.  Idempotent: safe to assert
    /// again mid-transaction.
    fn set_start(&mut self)
        ensures
            same_data(old(self).model(), final(self).model()),
            same_irq(old(self).model(), final(self).model()),
            same_polling(old(self).model(), final(self).model()),
            final(self).model().fault == old(self).model().fault,
            final(self).model().enabled == old(self).model().enabled,
            final(self).model().started == true,
    ;

    /// Clear the peripheral-enable control bit.
    fn clear_enable(&mut self)
        ensures
            same_data(old(self).model(), final(self).model()),
            same_irq(old(self).model(), final(self).model()),
            same_polling(old(self).model(), final(self).model()),
            final(self).model().fault == old(self).model().fault,
            final(self).model().started == old(self).model().started,
            final(self).model().enabled == false,
    ;

    /// Set one bit in the interrupt-enable register.
    fn set_ier_bit(&mut self, bit: u8)
        requires
            bit < 32,
        ensures
            same_data(old(self).model(), final(self).model()),
            same_control(old(self).model(), final(self).model()),
            same_polling(old(self).model(), final(self).model()),
            final(self).model().ier == old(self).model().ier.push(bit),
            final(self).model().ifcr == old(self).model().ifcr,
    ;

    /// Write one bit to the interrupt-clear register.
    fn write_ifcr_bit(&mut self, bit: u8)
        requires
            bit < 32,
        ensures
            same_data(old(self).model(), final(self).model()),
            same_control(old(self).model(), final(self).model()),
            same_polling(old(self).model(), final(self).model()),
            final(self).model().ier == old(self).model().ier,
            final(self).model().ifcr == old(self).model().ifcr.push(bit),
    ;
}

} // verus!
