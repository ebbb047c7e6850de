//! The mathematical model of a byte reader, shared by every layer of the
//! body pipeline.

use crate::body::limit::UnitHandler;
use crate::error::Error;
use vstd::prelude::*;
use vstd::slice::slice_subrange;

verus! {

/// How a reader behaves once its bytes are used up.
pub enum Ending {
    /// Every further read reports 0 bytes.
    Clean,
    /// Every further read fails with [`Error::BodyExceedsLimit`].
    Exceeded,
    /// The next read fails with [`Error::Io`]; after that the end is clean.
    Corrupt,
}

/// What a reader will still deliver: `bytes`, in order, and then `end`.
pub struct Stream {
    pub bytes: Seq<u8>,
    pub end: Ending,
}

/// The smaller of a byte count and a buffer length.
pub open spec fn chunk_len(available: nat, room: nat) -> nat {
    if available <= room {
        available
    } else {
        room
    }
}

/// The one relation every `read` of the pipeline obeys. While bytes are left
/// a read copies as many as fit to the front of the buffer and reports their
/// number; once they are used up it reports the stream's ending.
pub open spec fn read_post(
    pre: Stream,
    post: Stream,
    buf_before: Seq<u8>,
    buf_after: Seq<u8>,
    r: Result<usize, Error>,
) -> bool {
    if pre.bytes.len() > 0 {
        let n = chunk_len(pre.bytes.len(), buf_before.len());
        &&& r matches Ok(k) && k == n
        &&& post.bytes == pre.bytes.skip(n as int)
        &&& post.end == pre.end
        &&& buf_after == pre.bytes.take(n as int) + buf_before.skip(n as int)
    } else {
        &&& buf_after == buf_before
        &&& match pre.end {
            Ending::Clean => r matches Ok(k) && k == 0 && post == pre,
            Ending::Exceeded => r matches Err(Error::BodyExceedsLimit) && post == pre,
            Ending::Corrupt => r matches Err(Error::Io(_)) && post == (Stream {
                bytes: Seq::empty(),
                end: Ending::Clean,
            }),
        }
    }
}

/// Whether `fault` is the failure that a stream of the ending `end` ends in.
pub open spec fn fault_of(end: Ending, fault: Option<Error>) -> bool {
    match end {
        Ending::Clean => fault is None,
        Ending::Exceeded => fault matches Some(Error::BodyExceedsLimit),
        Ending::Corrupt => fault matches Some(Error::Io(_)),
    }
}

/// What reading a stream to its end gives where only a whole body counts:
/// all its bytes, or the error its ending stands for.
pub open spec fn drained(s: Stream, r: Result<Vec<u8>, Error>) -> bool {
    match s.end {
        Ending::Clean => r matches Ok(v) && v@ == s.bytes,
        Ending::Exceeded => r matches Err(Error::BodyExceedsLimit),
        Ending::Corrupt => r matches Err(Error::Io(_)),
    }
}

/// The stream that is left after it was read to its end.
pub open spec fn after_drain(s: Stream) -> Stream {
    Stream {
        bytes: Seq::empty(),
        end: match s.end {
            Ending::Exceeded => Ending::Exceeded,
            _ => Ending::Clean,
        },
    }
}

/// How many wire bytes a read takes of a reader that taps the wire where
/// `taps`, that has `due` wire bytes still to take, and that delivers `r`.
pub open spec fn wire_taken(taps: bool, due: nat, r: Result<usize, Error>) -> nat {
    if taps {
        match r {
            Ok(n) => n as nat,
            Err(_) => 0,
        }
    } else {
        due
    }
}

/// `source` without its first `k` bytes.
pub open spec fn without_front(source: Seq<u8>, k: nat) -> Seq<u8> {
    if k == 0 {
        source
    } else {
        source.skip(k as int)
    }
}

/// A layer of the body pipeline: something that can be read from, given the
/// wire body it sits on.
pub trait Reader {
    /// What the reader will still deliver, where `source` is what is left of
    /// the wire body.
    spec fn stream(&self, source: Seq<u8>) -> Stream;

    /// Whether the reader hands wire bytes on as it takes them. A reader
    /// that does not takes all the wire bytes it is due with its first read,
    /// and holds in memory what it makes of them.
    spec fn taps(&self) -> bool;

    /// How many bytes of the wire body `source` the reader will take if it
    /// is read to its end.
    spec fn wire_due(&self, source: Seq<u8>) -> nat;

    /// A reader takes no more of the wire body than there is, and one that
    /// hands wire bytes on delivers just those it is due.
    proof fn lemma_wire(&self, source: Seq<u8>)
        ensures
            self.wire_due(source) <= source.len(),
            self.taps() ==> self.stream(source).bytes == source.take(self.wire_due(source) as int),
    ;

    /// Reads into the front of `buf`. The result obeys [`read_post`]; the
    /// wire body loses what [`wire_taken`] says, from its front.
    fn read(&mut self, unit: &mut UnitHandler, buf: &mut [u8]) -> (r: Result<usize, Error>)
        ensures
            read_post(
                old(self).stream(old(unit).remaining()),
                final(self).stream(final(unit).remaining()),
                old(buf)@,
                final(buf)@,
                r,
            ),
            final(self).taps() == old(self).taps(),
            final(unit).remaining() == without_front(
                old(unit).remaining(),
                wire_taken(old(self).taps(), old(self).wire_due(old(unit).remaining()), r),
            ),
            final(self).wire_due(final(unit).remaining()) == old(self).wire_due(
                old(unit).remaining(),
            ) - wire_taken(old(self).taps(), old(self).wire_due(old(unit).remaining()), r),
    ;
}

/// Copies `src[start..start + n]` over the first `n` bytes of `buf`.
pub fn copy_to_front(buf: &mut [u8], src: &Vec<u8>, start: usize, n: usize)
    requires
        start + n <= src.len(),
        n <= old(buf)@.len(),
    ensures
        final(buf)@ == src@.subrange(start as int, start + n) + old(buf)@.skip(n as int),
{
    let mut i: usize = 0;
    while i < n
        invariant
            i <= n,
            n <= buf@.len(),
            start + n <= src.len(),
            buf@.len() == old(buf)@.len(),
            forall|j: int| 0 <= j < i ==> buf@[j] == src@[start + j],
            forall|j: int| i <= j < buf@.len() ==> buf@[j] == old(buf)@[j],
        decreases n - i,
    {
        buf[i] = src[start + i];
        i += 1;
    }
    assert(final(buf)@ =~= src@.subrange(start as int, start + n) + old(buf)@.skip(n as int));
}

/// Reads `reader` to its end: all the bytes it still had, and the failure
/// that its stream ends in, if it ends in one. Afterwards the reader has
/// nothing left to deliver, and the wire body has lost what the reader was
/// due.
pub fn drain<R: Reader>(reader: &mut R, unit: &mut UnitHandler) -> (r: (Vec<u8>, Option<Error>))
    ensures
        r.0@ == old(reader).stream(old(unit).remaining()).bytes,
        fault_of(old(reader).stream(old(unit).remaining()).end, r.1),
        final(reader).stream(final(unit).remaining()) == after_drain(
            old(reader).stream(old(unit).remaining()),
        ),
        final(reader).taps() == old(reader).taps(),
        final(reader).wire_due(final(unit).remaining()) == 0,
        final(unit).remaining() == without_front(
            old(unit).remaining(),
            old(reader).wire_due(old(unit).remaining()),
        ),
{
    let mut out: Vec<u8> = Vec::new();
    let mut buf: Vec<u8> = vec![0u8; 4096];
    let ghost start = reader.stream(unit.remaining());
    let ghost source = unit.remaining();
    let ghost due = reader.wire_due(source);
    let ghost mut taken: nat = 0;
    proof {
        reader.lemma_wire(source);
    }
    loop
        invariant
            buf@.len() == 4096,
            start.bytes == out@ + reader.stream(unit.remaining()).bytes,
            start.end == reader.stream(unit.remaining()).end,
            reader.taps() == old(reader).taps(),
            start == old(reader).stream(old(unit).remaining()),
            source == old(unit).remaining(),
            due == old(reader).wire_due(source),
            taken + reader.wire_due(unit.remaining()) == due,
            due <= source.len(),
            unit.remaining() == without_front(source, taken),
        decreases reader.stream(unit.remaining()).bytes.len(),
    {
        let ghost pre = reader.stream(unit.remaining());
        let ghost before = taken;
        let ghost pre_due = reader.wire_due(unit.remaining());
        proof {
            reader.lemma_wire(unit.remaining());
        }
        let r = reader.read(unit, buf.as_mut_slice());
        proof {
            let step = wire_taken(reader.taps(), pre_due, r);
            taken = before + step;
            assert(source.skip(before as int).skip(step as int) =~= source.skip(taken as int));
            assert(source.skip(0) =~= source);
        }
        match r {
            Ok(n) => {
                if n == 0 {
                    assert(pre.bytes =~= Seq::<u8>::empty());
                    assert(start.bytes =~= out@);
                    return (out, None);
                }
                out.extend_from_slice(slice_subrange(buf.as_slice(), 0, n));
                proof {
                    assert(buf@.subrange(0, n as int) =~= pre.bytes.take(n as int));
                    assert(pre.bytes =~= pre.bytes.take(n as int) + pre.bytes.skip(n as int));
                    assert(start.bytes =~= out@ + reader.stream(unit.remaining()).bytes);
                }
            },
            Err(e) => {
                assert(pre.bytes =~= Seq::<u8>::empty());
                assert(start.bytes =~= out@);
                return (out, Some(e));
            },
        }
    }
}

/// Reads `reader` to its end where only a whole body counts: all the bytes
/// it still had, or the error that its stream ends in.
pub fn read_to_end<R: Reader>(reader: &mut R, unit: &mut UnitHandler) -> (r: Result<
    Vec<u8>,
    Error,
>)
    ensures
        drained(old(reader).stream(old(unit).remaining()), r),
        final(reader).stream(final(unit).remaining()) == after_drain(
            old(reader).stream(old(unit).remaining()),
        ),
        final(reader).taps() == old(reader).taps(),
        final(reader).wire_due(final(unit).remaining()) == 0,
        final(unit).remaining() == without_front(
            old(unit).remaining(),
            old(reader).wire_due(old(unit).remaining()),
        ),
{
    let (out, fault) = drain(reader, unit);
    match fault {
        Some(e) => Err(e),
        None => Ok(out),
    }
}

} // verus!
