//! Pipeline correctness of the in-place transfer.
//!
//! [`crate::spi::Spi::transfer`] promises, over the [`BusModel`], that a
//! completed call appended the original buffer to the transmit history and
//! the final buffer to the receive history, word for word.  The lemma here
//! closes the loop: against a peripheral that echoes each transmitted word
//! back in its own position, those two facts force every final buffer word
//! to be the echo of the word originally at the same index — the buffer
//! acting as delay line loses nothing and reorders nothing.

use vstd::prelude::*;

use crate::bus::BusModel;

verus! {

/// Pipeline correctness: suppose a peripheral answers position for
/// position, that is, the word of its receive history at each index is
/// `echo` of the word of its transmit history at the same index.  Then any
/// operation that starts with transmit and receive histories of equal
/// length, appends `sent` to the transmit history and `got` of the same
/// length to the receive history — exactly what a completed
/// [`crate::spi::Spi::transfer`] of a buffer ensures — received, at every
/// index, the echo of the word it sent at that index.
pub proof fn lemma_pipeline_correctness(
    pre: BusModel,
    post: BusModel,
    sent: Seq<u8>,
    got: Seq<u8>,
    echo: spec_fn(u8) -> u8,
)
    requires
        pre.rxs.len() == pre.txs.len(),
        post.txs == pre.txs + sent,
        post.rxs == pre.rxs + got,
        got.len() == sent.len(),
        forall|n: int| 0 <= n < post.rxs.len() ==> post.rxs[n] == echo(post.txs[n]),
    ensures
        forall|i: int| 0 <= i < got.len() ==> got[i] == echo(sent[i]),
{
    assert forall|i: int| 0 <= i < got.len() implies got[i] == echo(sent[i]) by {
        let n = pre.rxs.len() + i;
        assert(post.rxs[n] == echo(post.txs[n]));
        assert(post.rxs[n] == got[i]);
        assert(post.txs[n] == sent[i]);
    }
}

} // verus!
