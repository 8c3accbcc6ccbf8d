use vstd::prelude::*;

use crate::registers::{RxPath, DR_BE, DR_FE, DR_OE, DR_PE};

verus! {

/// A line error the receiver flagged on a received byte.
#[derive(Clone, Copy, Debug, PartialEq, Eq, Structural)]
pub enum ReadErrorType {
    /// The receive FIFO overflowed and data was lost.
    Overrun,
    /// The line was held low for longer than a whole frame.
    Break,
    /// The parity bit did not match.
    Parity,
    /// No valid stop bit was seen.
    Framing,
}

/// A read that stopped on a line error.
#[derive(Clone, Copy, Debug, PartialEq, Eq, Structural)]
pub struct ReadError {
    pub err_type: ReadErrorType,
    /// How many valid bytes were stored before the faulty one.
    pub bytes_read: usize,
}

/// The outcome of a non-blocking operation that did not succeed.
#[derive(Clone, Copy, Debug, PartialEq, Eq, Structural)]
pub enum NbError<E> {
    /// No progress can be made now; the caller may retry later.
    WouldBlock,
    /// The operation failed.
    Other(E),
}

/// The error a received word carries, if any. When several flags are set,
/// framing wins over parity, parity over break, break over overrun.
pub open spec fn read_error_of(w: u16) -> Option<ReadErrorType> {
    if w & DR_FE != 0 {
        Some(ReadErrorType::Framing)
    } else if w & DR_PE != 0 {
        Some(ReadErrorType::Parity)
    } else if w & DR_BE != 0 {
        Some(ReadErrorType::Break)
    } else if w & DR_OE != 0 {
        Some(ReadErrorType::Overrun)
    } else {
        None
    }
}

/// The data byte of a received word.
pub open spec fn data_of(w: u16) -> u8 {
    (w % 256) as u8
}

/// Decodes the error flags of a received word.
pub fn decode_error(w: u16) -> (r: Option<ReadErrorType>)
    ensures
        r == read_error_of(w),
{
    if w & DR_FE != 0 {
        Some(ReadErrorType::Framing)
    } else if w & DR_PE != 0 {
        Some(ReadErrorType::Parity)
    } else if w & DR_BE != 0 {
        Some(ReadErrorType::Break)
    } else if w & DR_OE != 0 {
        Some(ReadErrorType::Overrun)
    } else {
        None
    }
}

/// `buf` is `old_buf` with `n` received data bytes stored from `offset` on.
pub open spec fn stored(
    buf: Seq<u8>,
    old_buf: Seq<u8>,
    words: Seq<u16>,
    offset: int,
    n: int,
) -> bool {
    &&& buf.len() == old_buf.len()
    &&& forall|i: int| 0 <= i < n ==> #[trigger] buf[offset + i] == data_of(words[i])
    &&& forall|i: int|
        0 <= i < buf.len() && !(offset <= i < offset + n) ==> #[trigger] buf[i] == old_buf[i]
}

/// The first `n` words carry no error.
pub open spec fn clean_prefix(words: Seq<u16>, n: int) -> bool {
    forall|i: int| 0 <= i < n ==> (#[trigger] read_error_of(words[i])) is None
}

/// The contract of a raw read of the RX FIFO into `buf[offset..]`.
pub open spec fn read_raw_outcome(
    old_rx: Seq<u16>,
    new_rx: Seq<u16>,
    old_buf: Seq<u8>,
    buf: Seq<u8>,
    offset: int,
    r: Result<usize, NbError<ReadError>>,
) -> bool {
    let room = old_buf.len() - offset;
    let m = if old_rx.len() < room {
        old_rx.len() as int
    } else {
        room
    };
    &&& (old_rx.len() == 0) == (r == Err::<usize, NbError<ReadError>>(NbError::WouldBlock))
    &&& r == Err::<usize, NbError<ReadError>>(NbError::WouldBlock) ==> new_rx == old_rx && buf
        == old_buf
    &&& r is Ok ==> {
        &&& r->Ok_0 == m
        &&& clean_prefix(old_rx, m)
        &&& stored(buf, old_buf, old_rx, offset, m)
        &&& new_rx == old_rx.skip(m)
    }
    &&& r matches Err(NbError::Other(e)) ==> {
        &&& e.bytes_read < m
        &&& clean_prefix(old_rx, e.bytes_read as int)
        &&& read_error_of(old_rx[e.bytes_read as int]) == Some(e.err_type)
        &&& stored(buf, old_buf, old_rx, offset, e.bytes_read as int)
        &&& new_rx == old_rx.skip(e.bytes_read + 1)
    }
}

/// Reads received bytes into `buffer[offset..]`.
fn read_raw_from(rx: &mut RxPath, buffer: &mut [u8], offset: usize) -> (r: Result<
    usize,
    NbError<ReadError>,
>)
    requires
        old(rx).wf(),
        offset <= old(buffer)@.len(),
    ensures
        final(rx).wf(),
        final(rx).line@ == old(rx).line@,
        read_raw_outcome(
            old(rx).fifo@,
            final(rx).fifo@,
            old(buffer)@,
            final(buffer)@,
            offset as int,
            r,
        ),
{
    let ghost start = rx.fifo@;
    let ghost start_line = rx.line@;
    let ghost start_buf = buffer@;
    let mut n: usize = 0;
    let mut failed: Option<ReadErrorType> = None;
    assert(start.skip(0) =~= start);
    while failed.is_none() && n < buffer.len() - offset && !rx.is_rx_empty()
        invariant
            rx.wf(),
            rx.line@ == start_line,
            offset <= start_buf.len(),
            buffer@.len() == start_buf.len(),
            n <= start.len(),
            offset + n <= start_buf.len(),
            failed is None ==> rx.fifo@ == start.skip(n as int),
            failed is Some ==> {
                &&& n < start.len()
                &&& offset + n < start_buf.len()
                &&& rx.fifo@ == start.skip(n + 1)
                &&& read_error_of(start[n as int]) == failed
            },
            clean_prefix(start, n as int),
            stored(buffer@, start_buf, start, offset as int, n as int),
        decreases start_buf.len() - offset - n + (if failed is None { 1int } else { 0int }),
    {
        let w = rx.read_dr();
        assert(w == start[n as int]);
        assert(rx.fifo@ =~= start.skip(n + 1));
        match decode_error(w) {
            Some(e) => {
                failed = Some(e);
            },
            None => {
                buffer[offset + n] = (w % 256) as u8;
                n = n + 1;
            },
        }
    }
    match failed {
        Some(e) => Err(NbError::Other(ReadError { err_type: e, bytes_read: n })),
        None => {
            if n == 0 && rx.is_rx_empty() {
                assert(rx.fifo@ =~= start);
                assert(buffer@ =~= start_buf);
                Err(NbError::WouldBlock)
            } else {
                Ok(n)
            }
        },
    }
}

/// Reads bytes from the RX FIFO until it is empty or the buffer is full.
///
/// If nothing was waiting, `WouldBlock` is returned. A byte flagged with a line
/// error stops the read: it is consumed, and the error says how many valid bytes
/// were stored before it.
pub fn read_raw(rx: &mut RxPath, buffer: &mut [u8]) -> (r: Result<usize, NbError<ReadError>>)
    requires
        old(rx).wf(),
    ensures
        final(rx).wf(),
        final(rx).line@ == old(rx).line@,
        read_raw_outcome(old(rx).fifo@, final(rx).fifo@, old(buffer)@, final(buffer)@, 0, r),
{
    read_raw_from(rx, buffer, 0)
}

/// The contract of a blocking read: the words on their way are `fifo` then
/// `line`. Either the first `buf.len()` of them are clean and their data bytes
/// fill the buffer, or the read stopped on the first faulty one among them.
pub open spec fn read_full_outcome(
    old_rx: RxPath,
    new_rx: RxPath,
    old_buf: Seq<u8>,
    buf: Seq<u8>,
    r: Result<(), ReadErrorType>,
) -> bool {
    let words = old_rx.fifo@ + old_rx.line@;
    let len = old_buf.len() as int;
    &&& r is Ok <==> clean_prefix(words, len)
    &&& r is Ok ==> stored(buf, old_buf, words, 0, len) && new_rx.fifo@ + new_rx.line@
        == words.skip(len)
    &&& r is Err ==> exists|j: int|
        0 <= j < len && clean_prefix(words, j) && read_error_of(words[j]) == Some(r->Err_0)
            && stored(buf, old_buf, words, 0, j) && new_rx.fifo@ + new_rx.line@ == words.skip(
            j + 1,
        )
}

/// A blocking read of `len` bytes from these words comes to an end: there are
/// enough of them, or one among those that would fill the buffer is flagged.
pub open spec fn read_full_can_finish(words: Seq<u16>, len: int) -> bool {
    ||| words.len() >= len
    ||| exists|j: int|
        0 <= j < words.len() && j < len && (#[trigger] read_error_of(words[j])) is Some
}

/// Reads until the buffer is full, waiting whenever the RX FIFO is empty until
/// the receiver has taken the next word off the line. A line error ends the
/// read at once. The words on their way (`fifo` then `line`) must be enough to
/// end the read: otherwise the wait would never end.
pub fn read_full_blocking(rx: &mut RxPath, buffer: &mut [u8]) -> (r: Result<(), ReadErrorType>)
    requires
        old(rx).wf(),
        read_full_can_finish(old(rx).fifo@ + old(rx).line@, old(buffer)@.len() as int),
    ensures
        final(rx).wf(),
        read_full_outcome(*old(rx), *final(rx), old(buffer)@, final(buffer)@, r),
{
    let ghost words = rx.fifo@ + rx.line@;
    let ghost start_buf = buffer@;
    let ghost mut fail_at: int = 0;
    let mut offset: usize = 0;
    let mut failed: Option<ReadErrorType> = None;
    assert(words.skip(0) =~= words);
    while failed.is_none() && offset < buffer.len()
        invariant
            rx.wf(),
            buffer@.len() == start_buf.len(),
            offset <= start_buf.len(),
            read_full_can_finish(words, start_buf.len() as int),
            failed is None ==> {
                &&& rx.fifo@ + rx.line@ == words.skip(offset as int)
                &&& clean_prefix(words, offset as int)
                &&& stored(buffer@, start_buf, words, 0, offset as int)
            },
            failed is Some ==> {
                &&& 0 <= fail_at < start_buf.len()
                &&& clean_prefix(words, fail_at)
                &&& read_error_of(words[fail_at]) == failed
                &&& stored(buffer@, start_buf, words, 0, fail_at)
                &&& rx.fifo@ + rx.line@ == words.skip(fail_at + 1)
            },
        decreases (start_buf.len() - offset) * 2 + (if failed is None && rx.fifo@.len() == 0 {
            1int
        } else {
            0int
        }) + (if failed is None {
            2int
        } else {
            0int
        }),
    {
        let ghost f = rx.fifo@;
        let ghost l = rx.line@;
        let ghost b = buffer@;
        assert forall|i: int| 0 <= i < f.len() implies f[i] == words[offset + i] by {
            assert((f + l)[i] == words.skip(offset as int)[i]);
        }
        match read_raw_from(rx, buffer, offset) {
            Ok(k) => {
                assert forall|i: int| 0 <= i < f.len() + l.len() - k implies #[trigger] (f.skip(
                    k as int,
                ) + l)[i] == words.skip(offset + k)[i] by {
                    assert((f + l)[k + i] == words.skip(offset as int)[k + i]);
                }
                assert(rx.fifo@ + rx.line@ =~= words.skip(offset + k));
                assert forall|i: int| 0 <= i < offset + k implies (#[trigger] read_error_of(
                    words[i],
                )) is None by {
                    if i >= offset {
                        assert(read_error_of(f[i - offset]) is None);
                    }
                }
                assert forall|i: int| 0 <= i < offset + k implies #[trigger] buffer@[0 + i]
                    == data_of(words[i]) by {
                    if i >= offset {
                        assert(buffer@[offset + (i - offset)] == data_of(f[i - offset]));
                    } else {
                        assert(b[0 + i] == data_of(words[i]));
                    }
                }
                offset = offset + k;
            },
            Err(NbError::Other(e)) => {
                let ghost j = e.bytes_read as int;
                proof {
                    fail_at = offset + j;
                }
                assert forall|i: int| 0 <= i < f.len() + l.len() - (j + 1) implies #[trigger] (f.skip(
                    j + 1,
                ) + l)[i] == words.skip(fail_at + 1)[i] by {
                    assert((f + l)[j + 1 + i] == words.skip(offset as int)[j + 1 + i]);
                }
                assert(rx.fifo@ + rx.line@ =~= words.skip(fail_at + 1));
                assert(f[j] == words[fail_at]);
                assert forall|i: int| 0 <= i < fail_at implies (#[trigger] read_error_of(
                    words[i],
                )) is None by {
                    if i >= offset {
                        assert(read_error_of(f[i - offset]) is None);
                    }
                }
                assert forall|i: int| 0 <= i < fail_at implies #[trigger] buffer@[0 + i]
                    == data_of(words[i]) by {
                    if i >= offset {
                        assert(buffer@[offset + (i - offset)] == data_of(f[i - offset]));
                    } else {
                        assert(b[0 + i] == data_of(words[i]));
                    }
                }
                failed = Some(e.err_type);
            },
            Err(NbError::WouldBlock) => {
                assert(f.len() == 0);
                assert((f + l).len() == words.len() - offset);
                proof {
                    if words.len() < start_buf.len() {
                        let j = choose|j: int|
                            0 <= j < words.len() && j < start_buf.len() && (#[trigger] read_error_of(
                                words[j],
                            )) is Some;
                        if j < offset {
                            assert(read_error_of(words[j]) is None);
                        }
                    }
                }
                assert(l.len() > 0);
                rx.receive_word();
                assert(rx.fifo@ + rx.line@ =~= f + l);
            },
        }
    }
    match failed {
        Some(t) => Err(t),
        None => Ok(()),
    }
}

/// The contract of a single-byte read.
pub open spec fn read_byte_outcome(
    old_rx: Seq<u16>,
    new_rx: Seq<u16>,
    r: Result<u8, NbError<ReadErrorType>>,
) -> bool {
    &&& old_rx.len() == 0 ==> r == Err::<u8, NbError<ReadErrorType>>(NbError::WouldBlock)
        && new_rx == old_rx
    &&& old_rx.len() > 0 ==> new_rx == old_rx.drop_first() && match read_error_of(old_rx[0]) {
        None => r == Ok::<u8, NbError<ReadErrorType>>(data_of(old_rx[0])),
        Some(t) => r == Err::<u8, NbError<ReadErrorType>>(NbError::Other(t)),
    }
}

/// Reads one byte: the oldest received word's data, or its line error.
pub fn read_byte(rx: &mut RxPath) -> (r: Result<u8, NbError<ReadErrorType>>)
    requires
        old(rx).wf(),
    ensures
        final(rx).wf(),
        final(rx).line@ == old(rx).line@,
        read_byte_outcome(old(rx).fifo@, final(rx).fifo@, r),
{
    let ghost start = rx.fifo@;
    let mut byte: Vec<u8> = vec![0u8];
    let res = read_raw(rx, byte.as_mut_slice());
    match res {
        Ok(_) => {
            assert(byte@[0int + 0int] == data_of(start[0]));
            assert(start.skip(1) =~= start.drop_first());
            Ok(byte[0])
        },
        Err(NbError::Other(e)) => {
            assert(start.skip(1) =~= start.drop_first());
            Err(NbError::Other(e.err_type))
        },
        Err(NbError::WouldBlock) => Err(NbError::WouldBlock),
    }
}

/// A raw read stops at the first word flagged with an error among those that
/// fit the buffer, and reports that error with the exact number of valid bytes
/// stored before it.
pub proof fn lemma_read_raw_first_error(
    old_rx: Seq<u16>,
    new_rx: Seq<u16>,
    old_buf: Seq<u8>,
    buf: Seq<u8>,
    r: Result<usize, NbError<ReadError>>,
    j: int,
)
    requires
        read_raw_outcome(old_rx, new_rx, old_buf, buf, 0, r),
        0 <= j < old_rx.len(),
        j < old_buf.len(),
        clean_prefix(old_rx, j),
        read_error_of(old_rx[j]) is Some,
    ensures
        r == Err::<usize, NbError<ReadError>>(
            NbError::Other(
                ReadError { err_type: read_error_of(old_rx[j])->Some_0, bytes_read: j as usize },
            ),
        ),
        stored(buf, old_buf, old_rx, 0, j),
        new_rx == old_rx.skip(j + 1),
{
    match r {
        Ok(_) => {
            assert(read_error_of(old_rx[j]) is None);
        },
        Err(NbError::WouldBlock) => {},
        Err(NbError::Other(e)) => {
            let k = e.bytes_read as int;
            if k < j {
                assert(read_error_of(old_rx[k]) is None);
            } else if k > j {
                assert(read_error_of(old_rx[j]) is None);
            }
        },
    }
}

} // verus!
