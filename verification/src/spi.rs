//! The blocking transfer engine.
//!
//! [`Spi`] owns a [`SpiBus`] register capability and builds on it, from the
//! bottom up: word-level primitives with bounded busy-waits and fault
//! preemption ([`Spi::send_word`], [`Spi::exchange_word`],
//! [`Spi::receive_word`]), the buffer-level operations [`Spi::write`] and
//! [`Spi::transfer`] that pace those primitives so that never more than
//! [`FIFO_DEPTH`] words are in flight, and the quiescence protocol
//! [`Spi::disable`] required before the peripheral may be shut off.

use vstd::prelude::*;

use crate::bus::{
    one_status_read, same_control, same_data, same_irq, same_polling, same_registers,
    waits_no_grow, BusModel, SpiBus,
};
use crate::status::{classify, TransferError, UnsupportedInterrupt};

verus! {

/// Conservative depth of the hardware transmit/receive FIFOs, shared across
/// the peripheral family.  The engine never lets more than this many
/// transmitted words be outstanding (sent but not yet received) at once.
pub const FIFO_DEPTH: usize = 4;

/// Base iteration count for busy-waits.  Each availability poll spins for at
/// most `MAX_ITERS * 10` status reads before giving up with
/// [`TransferError::Timeout`].  An iteration bound, not a wall-clock timer:
/// the timeout scales with the CPU clock, deterministically.
pub const MAX_ITERS: u32 = 10_000;

/// Exact number of status reads an availability poll performs before it
/// times out.
pub open spec fn poll_bound() -> int {
    MAX_ITERS * 10
}

/// The pipelining discipline that keeps the bounded hardware FIFO from
/// overrunning: counting from the start of the current operation (`pre`),
/// the words stored to the transmit register but not yet matched by a
/// receive-register load — the in-flight count — never drop below zero and
/// never exceed [`FIFO_DEPTH`].  [`Spi::write`] and [`Spi::transfer`]
/// maintain this at every loop step.
pub open spec fn in_flight_bounded(pre: BusModel, cur: BusModel) -> bool {
    &&& cur.rxs.len() + pre.txs.len() <= cur.txs.len() + pre.rxs.len()
    &&& cur.txs.len() + pre.rxs.len() <= cur.rxs.len() + pre.txs.len() + FIFO_DEPTH
}

/// A blocking full-duplex serial bus driver over the register capability
/// `B`.
pub struct Spi<B: SpiBus> {
    bus: B,
}

impl<B: SpiBus> Spi<B> {
    /// The abstract state of the underlying peripheral.
    pub closed spec fn model(&self) -> BusModel {
        self.bus.model()
    }

    /// Take ownership of a register capability.
    pub fn new(bus: B) -> (r: Spi<B>)
        ensures
            r.model() == bus.model(),
    {
        Spi { bus }
    }

    /// Give the register capability back, for inspection or reuse.
    pub fn release(self) -> (r: B)
        ensures
            r.model() == self.model(),
    {
        self.bus
    }

    /// Send one word without waiting for its response: classify the current
    /// status and abort on a latched fault, store the word to the transmit
    /// register in one single-word access, and assert the transaction-start
    /// bit (idempotent, so safe mid-transaction).
    ///
    /// Used to prime the transmit FIFO at the start of a transfer, while
    /// responses have not started coming back.
    pub fn send_word(&mut self, word: u8) -> (r: Result<(), TransferError>)
        ensures
            one_status_read(old(self).model(), final(self).model()),
            same_irq(old(self).model(), final(self).model()),
            final(self).model().fault == old(self).model().fault,
            final(self).model().enabled == old(self).model().enabled,
            final(self).model().rxs == old(self).model().rxs,
            (match old(self).model().fault {
                Some(k) => {
                    &&& r == Err::<(), TransferError>(TransferError::HardwareFault(k))
                    &&& final(self).model().txs == old(self).model().txs
                    &&& final(self).model().rx_pending == old(self).model().rx_pending
                    &&& final(self).model().started == old(self).model().started
                },
                None => {
                    &&& r is Ok
                    &&& final(self).model().txs == old(self).model().txs.push(word)
                    &&& final(self).model().started == true
                    &&& final(self).model().rx_pending >= old(self).model().rx_pending
                    &&& final(self).model().rx_pending <= old(self).model().rx_pending + 1
                },
            }),
    {
        let s = self.bus.read_status();
        match classify(&s) {
            Some(k) => Err(TransferError::HardwareFault(k)),
            None => {
                self.bus.write_tx(word);
                self.bus.set_start();
                Ok(())
            },
        }
    }

    /// Exchange one word: classify and abort on a latched fault, busy-wait
    /// for duplex availability for at most `MAX_ITERS * 10` status reads,
    /// then store the outgoing word and load the incoming one, each in one
    /// single-word access.
    ///
    /// Assumes the transaction has started and at least one word is already
    /// in the transmit FIFO; a peripheral that never raises the flag makes
    /// the poll give up with `Timeout` after exactly [`poll_bound`] reads.
    pub fn exchange_word(&mut self, word: u8) -> (r: Result<u8, TransferError>)
        ensures
            same_irq(old(self).model(), final(self).model()),
            waits_no_grow(old(self).model(), final(self).model()),
            final(self).model().fault == old(self).model().fault,
            final(self).model().enabled == old(self).model().enabled,
            final(self).model().started == old(self).model().started,
            final(self).model().status_reads >= old(self).model().status_reads + 1,
            final(self).model().status_reads <= old(self).model().status_reads + 1
                + poll_bound(),
            (match old(self).model().fault {
                Some(k) => {
                    &&& r == Err::<u8, TransferError>(TransferError::HardwareFault(k))
                    &&& same_data(old(self).model(), final(self).model())
                    &&& final(self).model().status_reads == old(self).model().status_reads + 1
                },
                None => (match r {
                    Ok(w) => {
                        &&& final(self).model().txs == old(self).model().txs.push(word)
                        &&& final(self).model().rxs == old(self).model().rxs.push(w)
                        &&& old(self).model().rx_pending > 0
                        &&& final(self).model().rx_pending <= old(self).model().rx_pending
                        &&& final(self).model().rx_pending + 1 >= old(self).model().rx_pending
                    },
                    Err(e) => {
                        &&& e == TransferError::Timeout
                        &&& same_data(old(self).model(), final(self).model())
                        &&& final(self).model().status_reads == old(self).model().status_reads
                            + 1 + poll_bound()
                    },
                }),
            }),
    {
        let s = self.bus.read_status();
        match classify(&s) {
            Some(k) => {
                return Err(TransferError::HardwareFault(k));
            },
            None => {},
        }
        let ghost m1 = self.bus.model();
        let cap: u32 = MAX_ITERS * 10;
        let mut i: u32 = 0;
        let mut available = false;
        while i < cap
            invariant_except_break
                !available,
                self.bus.model().status_reads == m1.status_reads + i,
            invariant
                cap == MAX_ITERS * 10,
                i <= cap,
                same_registers(m1, self.bus.model()),
                waits_no_grow(m1, self.bus.model()),
            ensures
                same_registers(m1, self.bus.model()),
                waits_no_grow(m1, self.bus.model()),
                available ==> self.bus.model().rx_pending > 0,
                available ==> self.bus.model().status_reads >= m1.status_reads + 1,
                available ==> self.bus.model().status_reads <= m1.status_reads + poll_bound(),
                !available ==> self.bus.model().status_reads == m1.status_reads + poll_bound(),
            decreases cap - i,
        {
            let s2 = self.bus.read_status();
            if s2.duplex_available {
                available = true;
                break;
            }
            i = i + 1;
        }
        if !available {
            return Err(TransferError::Timeout);
        }
        self.bus.write_tx(word);
        let w = self.bus.read_rx();
        Ok(w)
    }

    /// Receive one word: classify and abort on a latched fault, busy-wait
    /// for the receive FIFO to be non-empty for at most `MAX_ITERS * 10`
    /// status reads, then load one word in one single-word access.
    ///
    /// Nothing is transmitted, so this succeeds exactly when a word is
    /// already pending and no fault is latched; with an empty receive FIFO
    /// the poll gives up with `Timeout` after exactly [`poll_bound`] reads.
    pub fn receive_word(&mut self) -> (r: Result<u8, TransferError>)
        ensures
            same_irq(old(self).model(), final(self).model()),
            waits_no_grow(old(self).model(), final(self).model()),
            final(self).model().fault == old(self).model().fault,
            final(self).model().enabled == old(self).model().enabled,
            final(self).model().started == old(self).model().started,
            final(self).model().txs == old(self).model().txs,
            (match old(self).model().fault {
                Some(k) => {
                    &&& r == Err::<u8, TransferError>(TransferError::HardwareFault(k))
                    &&& same_data(old(self).model(), final(self).model())
                    &&& final(self).model().status_reads == old(self).model().status_reads + 1
                },
                None => if old(self).model().rx_pending == 0 {
                    &&& r == Err::<u8, TransferError>(TransferError::Timeout)
                    &&& same_data(old(self).model(), final(self).model())
                    &&& final(self).model().status_reads == old(self).model().status_reads
                        + 1 + poll_bound()
                } else {
                    match r {
                        Ok(w) => {
                            &&& final(self).model().rxs == old(self).model().rxs.push(w)
                            &&& final(self).model().rx_pending == old(self).model().rx_pending
                                - 1
                            &&& final(self).model().status_reads == old(
                                self,
                            ).model().status_reads + 2
                        },
                        Err(_) => false,
                    }
                },
            }),
    {
        let s = self.bus.read_status();
        match classify(&s) {
            Some(k) => {
                return Err(TransferError::HardwareFault(k));
            },
            None => {},
        }
        let ghost m1 = self.bus.model();
        let cap: u32 = MAX_ITERS * 10;
        let mut i: u32 = 0;
        let mut available = false;
        while i < cap
            invariant_except_break
                !available,
                self.bus.model().status_reads == m1.status_reads + i,
            invariant
                cap == MAX_ITERS * 10,
                i <= cap,
                i > 0 ==> m1.rx_pending == 0,
                same_registers(m1, self.bus.model()),
                waits_no_grow(m1, self.bus.model()),
            ensures
                same_registers(m1, self.bus.model()),
                waits_no_grow(m1, self.bus.model()),
                available ==> self.bus.model().rx_pending > 0,
                available ==> self.bus.model().status_reads == m1.status_reads + 1,
                !available ==> self.bus.model().status_reads == m1.status_reads + poll_bound(),
                !available ==> m1.rx_pending == 0,
            decreases cap - i,
        {
            let s2 = self.bus.read_status();
            if s2.rx_not_empty {
                available = true;
                break;
            }
            i = i + 1;
        }
        if !available {
            return Err(TransferError::Timeout);
        }
        let w = self.bus.read_rx();
        Ok(w)
    }

    /// Write every word of `words` on the bus, in order, blocking until
    /// complete and discarding everything received.
    ///
    /// An empty buffer succeeds immediately with no register access.
    /// Otherwise the transmit FIFO is primed with `min(FIFO_DEPTH, len)`
    /// words, each remaining word is exchanged (the response discarded, but
    /// drained, so the receive FIFO cannot overrun), and the residual
    /// responses are drained.  A latched fault aborts before anything is
    /// sent; a timeout aborts where it strikes, leaving the FIFO state to
    /// the caller's recovery via [`Spi::disable`].
    pub fn write(&mut self, words: &Vec<u8>) -> (r: Result<(), TransferError>)
        ensures
            same_irq(old(self).model(), final(self).model()),
            waits_no_grow(old(self).model(), final(self).model()),
            final(self).model().fault == old(self).model().fault,
            final(self).model().enabled == old(self).model().enabled,
            words@.len() == 0 ==> r is Ok && final(self).model() == old(self).model(),
            words@.len() > 0 ==> (match old(self).model().fault {
                Some(k) => {
                    &&& r == Err::<(), TransferError>(TransferError::HardwareFault(k))
                    &&& same_data(old(self).model(), final(self).model())
                    &&& final(self).model().status_reads == old(self).model().status_reads + 1
                    &&& final(self).model().started == old(self).model().started
                },
                None => (match r {
                    Ok(_) => {
                        &&& final(self).model().txs == old(self).model().txs + words@
                        &&& final(self).model().rxs.len() == old(self).model().rxs.len()
                            + words@.len()
                        &&& final(self).model().started == true
                    },
                    Err(e) => {
                        &&& e == TransferError::Timeout
                        &&& final(self).model().txs.len() <= old(self).model().txs.len()
                            + words@.len()
                        &&& final(self).model().txs == old(self).model().txs + words@.subrange(
                            0,
                            final(self).model().txs.len() - old(self).model().txs.len(),
                        )
                        &&& final(self).model().rxs.len() + old(self).model().txs.len()
                            <= final(self).model().txs.len() + old(self).model().rxs.len()
                        &&& final(self).model().txs.len() + old(self).model().rxs.len()
                            <= final(self).model().rxs.len() + old(self).model().txs.len()
                            + FIFO_DEPTH
                    },
                }),
            }),
    {
        if words.len() == 0 {
            return Ok(());
        }
        let ghost pre = self.bus.model();
        let len = words.len();
        let prime = if len < FIFO_DEPTH {
            len
        } else {
            FIFO_DEPTH
        };

        // Prime the transmit FIFO while no responses are due yet.
        let mut failure: Option<TransferError> = None;
        let mut i: usize = 0;
        while i < prime
            invariant_except_break
                failure is None,
                i == 0 ==> self.bus.model() == pre,
                self.bus.model().txs == pre.txs + words@.subrange(0, i as int),
                self.bus.model().status_reads == pre.status_reads + i,
                i > 0 ==> pre.fault is None,
                i > 0 ==> self.bus.model().started == true,
            invariant
                i <= prime,
                0 < prime,
                prime <= FIFO_DEPTH,
                prime <= len,
                prime == FIFO_DEPTH || prime == len,
                len == words@.len(),
                same_irq(pre, self.bus.model()),
                waits_no_grow(pre, self.bus.model()),
                self.bus.model().fault == pre.fault,
                self.bus.model().enabled == pre.enabled,
                self.bus.model().rxs == pre.rxs,
                in_flight_bounded(pre, self.bus.model()),
            ensures
                same_irq(pre, self.bus.model()),
                waits_no_grow(pre, self.bus.model()),
                self.bus.model().fault == pre.fault,
                self.bus.model().enabled == pre.enabled,
                self.bus.model().rxs == pre.rxs,
                (match failure {
                    None => {
                        &&& pre.fault is None
                        &&& self.bus.model().txs == pre.txs + words@.subrange(0, prime as int)
                        &&& self.bus.model().started == true
                    },
                    Some(e) => {
                        &&& pre.fault matches Some(k)
                            && e == TransferError::HardwareFault(k)
                        &&& same_data(pre, self.bus.model())
                        &&& self.bus.model().status_reads == pre.status_reads + 1
                        &&& self.bus.model().started == pre.started
                    },
                }),
            decreases prime - i,
        {
            match self.send_word(words[i]) {
                Ok(_) => {
                    i = i + 1;
                },
                Err(e) => {
                    failure = Some(e);
                    break;
                },
            }
        }
        match failure {
            Some(e) => {
                return Err(e);
            },
            None => {},
        }

        // Keep filling the transmit FIFO while draining the responses of
        // earlier words, so that sent minus received never exceeds the FIFO
        // depth.
        let mut j: usize = prime;
        while j < len
            invariant_except_break
                failure is None,
                self.bus.model().txs == pre.txs + words@.subrange(0, j as int),
                self.bus.model().rxs.len() == pre.rxs.len() + j - prime,
            invariant
                prime <= j <= len,
                prime <= FIFO_DEPTH,
                len == words@.len(),
                pre.fault is None,
                same_irq(pre, self.bus.model()),
                waits_no_grow(pre, self.bus.model()),
                self.bus.model().fault == pre.fault,
                self.bus.model().enabled == pre.enabled,
                self.bus.model().started == true,
                pre.rxs.is_prefix_of(self.bus.model().rxs),
                in_flight_bounded(pre, self.bus.model()),
            ensures
                same_irq(pre, self.bus.model()),
                waits_no_grow(pre, self.bus.model()),
                self.bus.model().fault == pre.fault,
                self.bus.model().enabled == pre.enabled,
                self.bus.model().started == true,
                (match failure {
                    None => {
                        &&& self.bus.model().txs == pre.txs + words@.subrange(0, len as int)
                        &&& self.bus.model().rxs.len() == pre.rxs.len() + len - prime
                    },
                    Some(e) => {
                        &&& e == TransferError::Timeout
                        &&& (exists|n: int|
                            prime <= n <= len && self.bus.model().txs == pre.txs
                                + words@.subrange(0, n) && self.bus.model().rxs.len()
                                == pre.rxs.len() + n - prime)
                    },
                }),
            decreases len - j,
        {
            match self.exchange_word(words[j]) {
                Ok(_) => {
                    j = j + 1;
                },
                Err(e) => {
                    failure = Some(e);
                    break;
                },
            }
        }
        match failure {
            Some(e) => {
                return Err(e);
            },
            None => {},
        }

        // Drain the residual responses still in flight.
        let mut k: usize = 0;
        while k < prime
            invariant_except_break
                failure is None,
                self.bus.model().rxs.len() == pre.rxs.len() + (len - prime) + k,
            invariant
                k <= prime,
                prime <= FIFO_DEPTH,
                prime <= len,
                len == words@.len(),
                pre.fault is None,
                same_irq(pre, self.bus.model()),
                waits_no_grow(pre, self.bus.model()),
                self.bus.model().fault == pre.fault,
                self.bus.model().enabled == pre.enabled,
                self.bus.model().started == true,
                self.bus.model().txs == pre.txs + words@.subrange(0, len as int),
                in_flight_bounded(pre, self.bus.model()),
            ensures
                same_irq(pre, self.bus.model()),
                waits_no_grow(pre, self.bus.model()),
                self.bus.model().fault == pre.fault,
                self.bus.model().enabled == pre.enabled,
                self.bus.model().started == true,
                self.bus.model().txs == pre.txs + words@.subrange(0, len as int),
                (match failure {
                    None => self.bus.model().rxs.len() == pre.rxs.len() + len,
                    Some(e) => {
                        &&& e == TransferError::Timeout
                        &&& self.bus.model().rxs.len() >= pre.rxs.len() + (len - prime)
                        &&& self.bus.model().rxs.len() <= pre.rxs.len() + len
                    },
                }),
            decreases prime - k,
        {
            match self.receive_word() {
                Ok(_) => {
                    k = k + 1;
                },
                Err(e) => {
                    failure = Some(e);
                    break;
                },
            }
        }
        proof {
            assert(words@.subrange(0, len as int) == words@);
        }
        match failure {
            Some(e) => Err(e),
            None => Ok(()),
        }
    }

    /// Exchange every word of `words` on the bus, in place: on success the
    /// word at each position has been replaced by the response to the word
    /// originally there.
    ///
    /// The buffer itself serves as the pipeline delay line: after priming
    /// with `min(FIFO_DEPTH, len)` words, each further word is exchanged and
    /// the response stored `FIFO_DEPTH` positions back, then the residual
    /// responses are drained into the tail.  No extra allocation, and never
    /// more than [`FIFO_DEPTH`] words in flight.  A latched fault aborts
    /// before anything is sent; a timeout aborts where it strikes.
    pub fn transfer(&mut self, words: &mut Vec<u8>) -> (r: Result<(), TransferError>)
        ensures
            same_irq(old(self).model(), final(self).model()),
            waits_no_grow(old(self).model(), final(self).model()),
            final(self).model().fault == old(self).model().fault,
            final(self).model().enabled == old(self).model().enabled,
            final(words)@.len() == old(words)@.len(),
            old(words)@.len() == 0 ==> r is Ok && final(self).model() == old(self).model()
                && final(words)@ == old(words)@,
            old(words)@.len() > 0 ==> (match old(self).model().fault {
                Some(k) => {
                    &&& r == Err::<(), TransferError>(TransferError::HardwareFault(k))
                    &&& same_data(old(self).model(), final(self).model())
                    &&& final(self).model().status_reads == old(self).model().status_reads + 1
                    &&& final(self).model().started == old(self).model().started
                    &&& final(words)@ == old(words)@
                },
                None => (match r {
                    Ok(_) => {
                        &&& final(self).model().txs == old(self).model().txs + old(words)@
                        &&& final(self).model().rxs == old(self).model().rxs + final(words)@
                        &&& final(self).model().started == true
                    },
                    Err(e) => {
                        &&& e == TransferError::Timeout
                        &&& final(self).model().txs.len() <= old(self).model().txs.len()
                            + old(words)@.len()
                        &&& final(self).model().txs == old(self).model().txs + old(
                            words,
                        )@.subrange(
                            0,
                            final(self).model().txs.len() - old(self).model().txs.len(),
                        )
                        &&& final(self).model().rxs.len() + old(self).model().txs.len()
                            <= final(self).model().txs.len() + old(self).model().rxs.len()
                        &&& final(self).model().txs.len() + old(self).model().rxs.len()
                            <= final(self).model().rxs.len() + old(self).model().txs.len()
                            + FIFO_DEPTH
                    },
                }),
            }),
    {
        if words.len() == 0 {
            return Ok(());
        }
        let ghost pre = self.bus.model();
        let ghost w0 = words@;
        let len = words.len();
        let prime = if len < FIFO_DEPTH {
            len
        } else {
            FIFO_DEPTH
        };

        // Prime the transmit FIFO while no responses are due yet.
        let mut failure: Option<TransferError> = None;
        let mut i: usize = 0;
        while i < prime
            invariant_except_break
                failure is None,
                i == 0 ==> self.bus.model() == pre,
                self.bus.model().txs == pre.txs + w0.subrange(0, i as int),
                self.bus.model().status_reads == pre.status_reads + i,
                i > 0 ==> pre.fault is None,
                i > 0 ==> self.bus.model().started == true,
            invariant
                i <= prime,
                0 < prime,
                prime <= FIFO_DEPTH,
                prime <= len,
                prime == FIFO_DEPTH || prime == len,
                len == w0.len(),
                words@ == w0,
                same_irq(pre, self.bus.model()),
                waits_no_grow(pre, self.bus.model()),
                self.bus.model().fault == pre.fault,
                self.bus.model().enabled == pre.enabled,
                self.bus.model().rxs == pre.rxs,
                in_flight_bounded(pre, self.bus.model()),
            ensures
                words@ == w0,
                same_irq(pre, self.bus.model()),
                waits_no_grow(pre, self.bus.model()),
                self.bus.model().fault == pre.fault,
                self.bus.model().enabled == pre.enabled,
                self.bus.model().rxs == pre.rxs,
                (match failure {
                    None => {
                        &&& pre.fault is None
                        &&& self.bus.model().txs == pre.txs + w0.subrange(0, prime as int)
                        &&& self.bus.model().started == true
                    },
                    Some(e) => {
                        &&& pre.fault matches Some(k)
                            && e == TransferError::HardwareFault(k)
                        &&& same_data(pre, self.bus.model())
                        &&& self.bus.model().status_reads == pre.status_reads + 1
                        &&& self.bus.model().started == pre.started
                    },
                }),
            decreases prime - i,
        {
            match self.send_word(words[i]) {
                Ok(_) => {
                    i = i + 1;
                },
                Err(e) => {
                    failure = Some(e);
                    break;
                },
            }
        }
        match failure {
            Some(e) => {
                return Err(e);
            },
            None => {},
        }

        // Steady state: exchange each remaining word and store the response
        // FIFO-depth positions back, the buffer acting as the delay line.
        let mut j: usize = prime;
        while j < len
            invariant_except_break
                failure is None,
                self.bus.model().txs == pre.txs + w0.subrange(0, j as int),
                self.bus.model().rxs == pre.rxs + words@.subrange(0, (j - prime) as int),
            invariant
                prime <= j <= len,
                0 < prime,
                prime <= FIFO_DEPTH,
                len == w0.len(),
                words@.len() == len,
                forall|t: int| j - prime <= t < len ==> words@[t] == w0[t],
                pre.fault is None,
                same_irq(pre, self.bus.model()),
                waits_no_grow(pre, self.bus.model()),
                self.bus.model().fault == pre.fault,
                self.bus.model().enabled == pre.enabled,
                self.bus.model().started == true,
                in_flight_bounded(pre, self.bus.model()),
            ensures
                words@.len() == len,
                same_irq(pre, self.bus.model()),
                waits_no_grow(pre, self.bus.model()),
                self.bus.model().fault == pre.fault,
                self.bus.model().enabled == pre.enabled,
                self.bus.model().started == true,
                (match failure {
                    None => {
                        &&& self.bus.model().txs == pre.txs + w0.subrange(0, len as int)
                        &&& self.bus.model().rxs == pre.rxs + words@.subrange(
                            0,
                            (len - prime) as int,
                        )
                        &&& (forall|t: int| len - prime <= t < len ==> words@[t] == w0[t])
                    },
                    Some(e) => {
                        &&& e == TransferError::Timeout
                        &&& self.bus.model().txs.len() <= pre.txs.len() + len
                        &&& self.bus.model().txs == pre.txs + w0.subrange(
                            0,
                            self.bus.model().txs.len() - pre.txs.len(),
                        )
                        &&& self.bus.model().rxs.len() + prime == self.bus.model().txs.len()
                            + pre.rxs.len() - pre.txs.len()
                    },
                }),
            decreases len - j,
        {
            let outgoing = words[j];
            match self.exchange_word(outgoing) {
                Ok(v) => {
                    words[j - prime] = v;
                    proof {
                        assert(self.bus.model().txs =~= pre.txs + w0.subrange(0, (j + 1) as int));
                        assert(self.bus.model().rxs =~= pre.rxs + words@.subrange(
                            0,
                            (j + 1 - prime) as int,
                        ));
                    }
                    j = j + 1;
                },
                Err(e) => {
                    failure = Some(e);
                    break;
                },
            }
        }
        match failure {
            Some(e) => {
                return Err(e);
            },
            None => {},
        }

        // Drain the residual responses into the buffer tail.
        let mut k: usize = 0;
        while k < prime
            invariant_except_break
                failure is None,
                self.bus.model().rxs == pre.rxs + words@.subrange(0, (len - prime + k) as int),
            invariant
                k <= prime,
                0 < prime,
                prime <= FIFO_DEPTH,
                prime <= len,
                len == w0.len(),
                words@.len() == len,
                pre.fault is None,
                same_irq(pre, self.bus.model()),
                waits_no_grow(pre, self.bus.model()),
                self.bus.model().fault == pre.fault,
                self.bus.model().enabled == pre.enabled,
                self.bus.model().started == true,
                self.bus.model().txs == pre.txs + w0.subrange(0, len as int),
                in_flight_bounded(pre, self.bus.model()),
            ensures
                words@.len() == len,
                same_irq(pre, self.bus.model()),
                waits_no_grow(pre, self.bus.model()),
                self.bus.model().fault == pre.fault,
                self.bus.model().enabled == pre.enabled,
                self.bus.model().started == true,
                self.bus.model().txs == pre.txs + w0.subrange(0, len as int),
                (match failure {
                    None => self.bus.model().rxs == pre.rxs + words@.subrange(0, len as int),
                    Some(e) => {
                        &&& e == TransferError::Timeout
                        &&& self.bus.model().rxs.len() >= pre.rxs.len() + (len - prime)
                        &&& self.bus.model().rxs.len() <= pre.rxs.len() + len
                    },
                }),
            decreases prime - k,
        {
            match self.receive_word() {
                Ok(v) => {
                    words[len - prime + k] = v;
                    k = k + 1;
                },
                Err(e) => {
                    failure = Some(e);
                    break;
                },
            }
        }
        proof {
            assert(w0.subrange(0, len as int) == w0);
            assert(words@.subrange(0, len as int) == words@);
        }
        match failure {
            Some(e) => Err(e),
            None => Ok(()),
        }
    }

    /// The quiescence protocol required before the peripheral may be
    /// disabled or its clock stopped, in four strict steps: block until
    /// transmit-complete, block until end-of-transaction, drain every stale
    /// word left in the receive FIFO with raw single-word loads, and clear
    /// the peripheral-enable bit.
    ///
    /// Exactly one discard load per stale word, and none when the FIFO is
    /// already empty.  No timeout and no fault classification: the waits run
    /// until the completion flags rise, and the bus is already idle.  Only
    /// meaningful between transfers; calling it mid-transfer is a caller
    /// error.
    pub fn disable(&mut self)
        ensures
            same_irq(old(self).model(), final(self).model()),
            final(self).model().fault == old(self).model().fault,
            final(self).model().started == old(self).model().started,
            final(self).model().txs == old(self).model().txs,
            old(self).model().rxs.is_prefix_of(final(self).model().rxs),
            final(self).model().rxs.len() == old(self).model().rxs.len() + old(
                self,
            ).model().rx_pending,
            final(self).model().rx_pending == 0,
            final(self).model().txc_wait == 0,
            final(self).model().eot_wait == 0,
            final(self).model().enabled == false,
    {
        let ghost pre = self.bus.model();

        // 1. Wait until no more data is left to transmit.
        let mut s = self.bus.read_status();
        while !s.tx_complete
            invariant
                same_registers(pre, self.bus.model()),
                s.tx_complete ==> self.bus.model().txc_wait == 0,
                s.end_of_transaction ==> self.bus.model().eot_wait == 0,
                s.rx_not_empty == (self.bus.model().rx_pending > 0),
                s.rx_fill_level != 0 ==> self.bus.model().rx_pending > 0,
            decreases self.bus.model().txc_wait + (if s.tx_complete {
                0int
            } else {
                1int
            }),
        {
            s = self.bus.read_status();
        }

        // 2. Wait until the last data frame is fully sent.
        while !s.end_of_transaction
            invariant
                same_registers(pre, self.bus.model()),
                self.bus.model().txc_wait == 0,
                s.end_of_transaction ==> self.bus.model().eot_wait == 0,
                s.rx_not_empty == (self.bus.model().rx_pending > 0),
                s.rx_fill_level != 0 ==> self.bus.model().rx_pending > 0,
            decreases self.bus.model().eot_wait + (if s.end_of_transaction {
                0int
            } else {
                1int
            }),
        {
            s = self.bus.read_status();
        }

        // 3. Read the receive FIFO empty, one discard load per stale word.
        // No new exchange happens, so the fill can only go down.
        while s.rx_not_empty || s.rx_fill_level != 0
            invariant
                same_control(pre, self.bus.model()),
                same_irq(pre, self.bus.model()),
                self.bus.model().txc_wait == 0,
                self.bus.model().eot_wait == 0,
                self.bus.model().txs == pre.txs,
                pre.rxs.is_prefix_of(self.bus.model().rxs),
                self.bus.model().rx_pending <= pre.rx_pending,
                self.bus.model().rxs.len() + self.bus.model().rx_pending == pre.rxs.len()
                    + pre.rx_pending,
                s.rx_not_empty == (self.bus.model().rx_pending > 0),
                s.rx_fill_level != 0 ==> self.bus.model().rx_pending > 0,
            decreases self.bus.model().rx_pending,
        {
            let _discard = self.bus.read_rx();
            s = self.bus.read_status();
        }

        // 4. Clear the peripheral-enable bit.
        self.bus.clear_enable();
    }

    /// Enable one interrupt kind, by setting its bit in the
    /// interrupt-enable register.  A pure bit toggle, not coordinated with
    /// the blocking engine.
    ///
    /// The register map exposes no enable bit for [`SpiInterrupt::Dxp`],
    /// [`SpiInterrupt::Txp`] and [`SpiInterrupt::Rxp`]; rather than silently
    /// alias them to an unrelated bit, those kinds are rejected as
    /// unsupported and no register is touched.
    pub fn enable_interrupt(&mut self, interrupt_type: SpiInterrupt) -> (r: Result<
        (),
        UnsupportedInterrupt,
    >)
        ensures
            same_data(old(self).model(), final(self).model()),
            same_control(old(self).model(), final(self).model()),
            same_polling(old(self).model(), final(self).model()),
            final(self).model().ifcr == old(self).model().ifcr,
            (match spec_interrupt_bit(interrupt_type) {
                Some(b) => r is Ok && final(self).model().ier == old(self).model().ier.push(b),
                None => r is Err && final(self).model().ier == old(self).model().ier,
            }),
    {
        match interrupt_bit(interrupt_type) {
            Some(bit) => {
                self.bus.set_ier_bit(bit);
                Ok(())
            },
            None => Err(UnsupportedInterrupt),
        }
    }

    /// Clear one interrupt kind, by writing its bit to the interrupt-clear
    /// register.  A pure bit toggle, not coordinated with the blocking
    /// engine.
    ///
    /// The same three kinds without a mapped bit are rejected as
    /// unsupported, exactly as in [`Spi::enable_interrupt`].
    pub fn clear_interrupt(&mut self, interrupt_type: SpiInterrupt) -> (r: Result<
        (),
        UnsupportedInterrupt,
    >)
        ensures
            same_data(old(self).model(), final(self).model()),
            same_control(old(self).model(), final(self).model()),
            same_polling(old(self).model(), final(self).model()),
            final(self).model().ier == old(self).model().ier,
            (match spec_interrupt_bit(interrupt_type) {
                Some(b) => r is Ok && final(self).model().ifcr == old(self).model().ifcr.push(
                    b,
                ),
                None => r is Err && final(self).model().ifcr == old(self).model().ifcr,
            }),
    {
        match interrupt_bit(interrupt_type) {
            Some(bit) => {
                self.bus.write_ifcr_bit(bit);
                Ok(())
            },
            None => Err(UnsupportedInterrupt),
        }
    }
}

/// The interrupt kinds the peripheral can raise.  Enable them with
/// [`Spi::enable_interrupt`], clear them with [`Spi::clear_interrupt`].
#[derive(Clone, Copy, Debug, PartialEq, Eq, Structural)]
pub enum SpiInterrupt {
    /// Additional number of transactions reload.
    NumberOfTransactionsReload,
    /// Master mode fault.
    ModeFault,
    /// TI frame format error.
    Tifre,
    /// CRC error.
    CrcError,
    /// Receive FIFO overrun.
    Overrun,
    /// Transmit FIFO underrun.
    Underrun,
    /// Transmit FIFO threshold reached.
    Txtfie,
    /// End of transaction, suspend, or transmit complete.
    EotSuspTxc,
    /// Duplex data available: no enable bit in the register map.
    Dxp,
    /// Transmit data available: no enable bit in the register map.
    Txp,
    /// Receive data available: no enable bit in the register map.
    Rxp,
}

/// The interrupt-enable (and matching interrupt-clear) register bit for
/// each interrupt kind, or `None` for the kinds whose bit the register map
/// does not expose.
pub open spec fn spec_interrupt_bit(kind: SpiInterrupt) -> Option<u8> {
    match kind {
        SpiInterrupt::NumberOfTransactionsReload => Some(10u8),
        SpiInterrupt::ModeFault => Some(9u8),
        SpiInterrupt::Tifre => Some(8u8),
        SpiInterrupt::CrcError => Some(7u8),
        SpiInterrupt::Overrun => Some(6u8),
        SpiInterrupt::Underrun => Some(5u8),
        SpiInterrupt::Txtfie => Some(4u8),
        SpiInterrupt::EotSuspTxc => Some(3u8),
        SpiInterrupt::Dxp => None,
        SpiInterrupt::Txp => None,
        SpiInterrupt::Rxp => None,
    }
}

/// Number of bits in a single data frame on the bus, as written to the
/// frame-size configuration field.  This engine itself is byte-granular;
/// the type enumerates what the configuration register accepts.
#[derive(Clone, Copy, Debug, PartialEq, Eq, Structural)]
pub enum DataSize {
    D4,
    D5,
    D6,
    D7,
    D8,
    D9,
    D10,
    D11,
    D12,
    D13,
    D14,
    D15,
    D16,
    D17,
    D18,
    D19,
    D20,
    D21,
    D22,
    D23,
    D24,
    D25,
    D26,
    D27,
    D28,
    D29,
    D30,
    D31,
    D32,
}

/// The configuration-field encoding of a frame size: one less than the
/// number of bits per frame.
pub open spec fn spec_data_size_bits(size: DataSize) -> u8 {
    match size {
        DataSize::D4 => 3,
        DataSize::D5 => 4,
        DataSize::D6 => 5,
        DataSize::D7 => 6,
        DataSize::D8 => 7,
        DataSize::D9 => 8,
        DataSize::D10 => 9,
        DataSize::D11 => 10,
        DataSize::D12 => 11,
        DataSize::D13 => 12,
        DataSize::D14 => 13,
        DataSize::D15 => 14,
        DataSize::D16 => 15,
        DataSize::D17 => 16,
        DataSize::D18 => 17,
        DataSize::D19 => 18,
        DataSize::D20 => 19,
        DataSize::D21 => 20,
        DataSize::D22 => 21,
        DataSize::D23 => 22,
        DataSize::D24 => 23,
        DataSize::D25 => 24,
        DataSize::D26 => 25,
        DataSize::D27 => 26,
        DataSize::D28 => 27,
        DataSize::D29 => 28,
        DataSize::D30 => 29,
        DataSize::D31 => 30,
        DataSize::D32 => 31,
    }
}

impl DataSize {
    /// The value this frame size writes to the configuration field.
    pub fn bits(self) -> (r: u8)
        ensures
            r == spec_data_size_bits(self),
    {
        match self {
            DataSize::D4 => 3,
            DataSize::D5 => 4,
            DataSize::D6 => 5,
            DataSize::D7 => 6,
            DataSize::D8 => 7,
            DataSize::D9 => 8,
            DataSize::D10 => 9,
            DataSize::D11 => 10,
            DataSize::D12 => 11,
            DataSize::D13 => 12,
            DataSize::D14 => 13,
            DataSize::D15 => 14,
            DataSize::D16 => 15,
            DataSize::D17 => 16,
            DataSize::D18 => 17,
            DataSize::D19 => 18,
            DataSize::D20 => 19,
            DataSize::D21 => 20,
            DataSize::D22 => 21,
            DataSize::D23 => 22,
            DataSize::D24 => 23,
            DataSize::D25 => 24,
            DataSize::D26 => 25,
            DataSize::D27 => 26,
            DataSize::D28 => 27,
            DataSize::D29 => 28,
            DataSize::D30 => 29,
            DataSize::D31 => 30,
            DataSize::D32 => 31,
        }
    }
}

/// Look up the register bit for an interrupt kind.
pub fn interrupt_bit(kind: SpiInterrupt) -> (r: Option<u8>)
    ensures
        r == spec_interrupt_bit(kind),
{
    match kind {
        SpiInterrupt::NumberOfTransactionsReload => Some(10u8),
        SpiInterrupt::ModeFault => Some(9u8),
        SpiInterrupt::Tifre => Some(8u8),
        SpiInterrupt::CrcError => Some(7u8),
        SpiInterrupt::Overrun => Some(6u8),
        SpiInterrupt::Underrun => Some(5u8),
        SpiInterrupt::Txtfie => Some(4u8),
        SpiInterrupt::EotSuspTxc => Some(3u8),
        SpiInterrupt::Dxp => None,
        SpiInterrupt::Txp => None,
        SpiInterrupt::Rxp => None,
    }
}

} // verus!
