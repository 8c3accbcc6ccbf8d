use vstd::prelude::*;

use crate::registers::{shift_seq, TxPath, FIFO_DEPTH};

verus! {

/// No progress can be made now; the caller may retry later.
#[derive(Clone, Copy, Debug, PartialEq, Eq, Structural)]
pub struct WouldBlock;

/// How many bytes of a buffer of `len` bytes fit in a TX FIFO holding `queued`.
pub open spec fn spec_writable(queued: int, len: int) -> int {
    let free = FIFO_DEPTH - queued;
    if free < len {
        free
    } else {
        len
    }
}

/// The contract of a raw write of `data` into the TX FIFO.
pub open spec fn write_raw_outcome(
    old_tx: TxPath,
    new_tx: TxPath,
    data: Seq<u8>,
    r: Result<&[u8], WouldBlock>,
) -> bool {
    let n = spec_writable(old_tx.fifo@.len() as int, data.len() as int);
    let blocked = n == 0 && data.len() > 0;
    &&& new_tx.line@ == old_tx.line@
    &&& new_tx.shifting == old_tx.shifting
    &&& blocked ==> r == Err::<&[u8], WouldBlock>(WouldBlock) && new_tx.fifo@ == old_tx.fifo@
    &&& !blocked ==> r is Ok && r->Ok_0@ == data.subrange(n, data.len() as int) && new_tx.fifo@
        == old_tx.fifo@ + data.subrange(0, n)
}

/// The contract of a blocking write: every byte of `data` was accepted behind
/// what was pending, and the line only grew.
pub open spec fn write_full_outcome(old_tx: TxPath, new_tx: TxPath, data: Seq<u8>) -> bool {
    &&& new_tx.line@ + new_tx.pending() == old_tx.line@ + old_tx.pending() + data
    &&& new_tx.line@.len() >= old_tx.line@.len()
    &&& new_tx.line@.subrange(0, old_tx.line@.len() as int) == old_tx.line@
}

/// Writes bytes into the TX FIFO until it is full or the data runs out.
///
/// If the FIFO was full before any byte could be written, `WouldBlock` is
/// returned and nothing changes. Otherwise the bytes that were not written are
/// returned (none at all for an empty buffer).
pub fn write_raw<'d>(tx: &mut TxPath, data: &'d [u8]) -> (r: Result<&'d [u8], WouldBlock>)
    requires
        old(tx).wf(),
    ensures
        final(tx).wf(),
        write_raw_outcome(*old(tx), *final(tx), data@, r),
{
    let ghost start = *tx;
    let mut written: usize = 0;
    while written < data.len() && !tx.is_tx_full()
        invariant
            tx.wf(),
            written <= data@.len(),
            written <= spec_writable(start.fifo@.len() as int, data@.len() as int),
            tx.fifo@ == start.fifo@ + data@.subrange(0, written as int),
            tx.line@ == start.line@,
            tx.shifting == start.shifting,
        decreases data@.len() - written,
    {
        tx.write_dr(data[written]);
        written = written + 1;
        assert(data@.subrange(0, written as int) == data@.subrange(0, written - 1).push(
            data@[written - 1],
        ));
    }
    if written == 0 && data.len() > 0 {
        assert(tx.fifo@ =~= start.fifo@);
        assert(tx.line@ =~= start.line@);
        Err(WouldBlock)
    } else {
        assert(tx.fifo@ =~= start.fifo@ + data@.subrange(0, written as int));
        Ok(&data[written..data.len()])
    }
}

/// Writes the whole buffer, waiting whenever the TX FIFO is full until the
/// transmitter has shifted a byte out. There is no timeout.
pub fn write_full_blocking(tx: &mut TxPath, data: &[u8])
    requires
        old(tx).wf(),
    ensures
        final(tx).wf(),
        write_full_outcome(*old(tx), *final(tx), data@),
{
    let ghost start = *tx;
    let mut rest: &[u8] = data;
    while rest.len() > 0
        invariant
            tx.wf(),
            tx.line@ + tx.pending() + rest@ == start.line@ + start.pending() + data@,
            tx.line@.len() >= start.line@.len(),
            tx.line@.subrange(0, start.line@.len() as int) == start.line@,
        decreases rest@.len() * (FIFO_DEPTH + 1) + tx.fifo@.len(),
    {
        let ghost before = *tx;
        let ghost before_rest = rest@;
        match write_raw(tx, rest) {
            Ok(remaining) => {
                let ghost n = spec_writable(before.fifo@.len() as int, before_rest.len() as int);
                assert(before_rest == before_rest.subrange(0, n) + remaining@);
                assert(tx.line@ + tx.pending() + remaining@ =~= before.line@ + before.pending()
                    + before_rest);
                let ghost r = before_rest.len() as int;
                let ghost f = before.fifo@.len() as int;
                assert((r - n) * (FIFO_DEPTH + 1) + f + n < r * (FIFO_DEPTH + 1) + f)
                    by (nonlinear_arith)
                    requires
                        n >= 1,
                ;
                rest = remaining;
            },
            Err(_) => {
                assert(before.fifo@.len() == FIFO_DEPTH);
                tx.transmit_word();
                assert(before.fifo@ =~= seq![before.fifo@[0]] + before.fifo@.drop_first());
                assert(tx.line@ + tx.pending() =~= before.line@ + before.pending());
                assert(tx.line@.subrange(0, start.line@.len() as int) =~= before.line@.subrange(
                    0,
                    start.line@.len() as int,
                ));
            },
        }
    }
    assert(rest@ =~= Seq::<u8>::empty());
    assert(tx.line@ + tx.pending() =~= tx.line@ + tx.pending() + rest@);
}

/// Reports `WouldBlock` while the transmitter is busy: bytes are queued or
/// the last one is still being shifted out.
pub fn transmit_flushed(tx: &TxPath) -> (r: Result<(), WouldBlock>)
    ensures
        r is Ok <==> tx.fifo@.len() == 0 && tx.shifting is None,
{
    if tx.is_busy() {
        Err(WouldBlock)
    } else {
        Ok(())
    }
}

/// Queues one byte, or reports `WouldBlock` when the TX FIFO is full.
pub fn write_byte(tx: &mut TxPath, word: u8) -> (r: Result<(), WouldBlock>)
    requires
        old(tx).wf(),
    ensures
        final(tx).wf(),
        final(tx).line@ == old(tx).line@,
        final(tx).shifting == old(tx).shifting,
        old(tx).fifo@.len() == FIFO_DEPTH ==> r == Err::<(), WouldBlock>(WouldBlock)
            && final(tx).fifo@ == old(tx).fifo@,
        old(tx).fifo@.len() < FIFO_DEPTH ==> r == Ok::<(), WouldBlock>(()) && final(tx).fifo@
            == old(tx).fifo@.push(word),
{
    let data: Vec<u8> = vec![word];
    let res = write_raw(tx, data.as_slice());
    if res.is_err() {
        Err(WouldBlock)
    } else {
        assert(data@.subrange(0, 1) =~= seq![word]);
        Ok(())
    }
}

/// A raw write into a TX FIFO with `N` free slots, of a buffer longer than `N`,
/// succeeds with the last `len - N` bytes left over when `N > 0`, and reports
/// `WouldBlock` when `N == 0`.
pub proof fn lemma_write_raw_free_slots(
    old_tx: TxPath,
    new_tx: TxPath,
    data: Seq<u8>,
    r: Result<&[u8], WouldBlock>,
)
    requires
        old_tx.wf(),
        write_raw_outcome(old_tx, new_tx, data, r),
        data.len() > FIFO_DEPTH - old_tx.fifo@.len(),
    ensures
        FIFO_DEPTH - old_tx.fifo@.len() == 0 ==> r == Err::<&[u8], WouldBlock>(WouldBlock),
        FIFO_DEPTH - old_tx.fifo@.len() > 0 ==> r is Ok && r->Ok_0@.len() == data.len() - (
        FIFO_DEPTH - old_tx.fifo@.len()),
{
}

} // verus!
