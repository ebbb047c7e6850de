//! The wire body held in memory, and the reader that caps how much of it a
//! caller may take.

use crate::body::stream::{chunk_len, copy_to_front, read_post, Ending, Reader, Stream};
use crate::error::Error;
use vstd::prelude::*;

verus! {

/// The wire body of one response, as the protocol unit delivered it: the
/// bytes after framing, before any content decoding.
#[derive(Debug)]
pub struct UnitHandler {
    data: Vec<u8>,
    pos: usize,
}

impl UnitHandler {
    #[verifier::type_invariant]
    spec fn wf(self) -> bool {
        self.pos <= self.data.len()
    }

    /// The bytes that have not been read yet.
    pub closed spec fn remaining(self) -> Seq<u8> {
        self.data@.skip(self.pos as int)
    }

    /// A handler that will deliver `data`.
    pub fn new(data: Vec<u8>) -> (r: Self)
        ensures
            r.remaining() == data@,
    {
        UnitHandler { data, pos: 0 }
    }

    /// The number of bytes that have not been read yet.
    pub fn unread(&self) -> (n: usize)
        ensures
            n == self.remaining().len(),
    {
        proof {
            use_type_invariant(self);
        }
        self.data.len() - self.pos
    }

    /// Copies the next bytes to the front of `buf`, as many as fit, and
    /// reports their number; 0 once the body has been read. This is a read
    /// from memory and never fails; the steps of a read from a live
    /// connection are those of [`crate::unit::UnitDriver`].
    pub fn do_read(&mut self, buf: &mut [u8]) -> (r: Result<usize, Error>)
        ensures
            r matches Ok(n) && n == chunk_len(old(self).remaining().len(), old(buf)@.len()),
            final(self).remaining() == old(self).remaining().skip(r->Ok_0 as int),
            final(buf)@ == old(self).remaining().take(r->Ok_0 as int) + old(buf)@.skip(
                r->Ok_0 as int,
            ),
    {
        proof {
            use_type_invariant(&*self);
        }
        let avail = self.data.len() - self.pos;
        let n = if avail <= buf.len() {
            avail
        } else {
            buf.len()
        };
        copy_to_front(buf, &self.data, self.pos, n);
        self.pos = self.pos + n;
        assert(self.data@.subrange(old(self).pos as int, old(self).pos + n) =~= old(
            self,
        ).remaining().take(n as int));
        assert(final(self).remaining() =~= old(self).remaining().skip(n as int));
        Ok(n)
    }
}

/// What a cap of `left` bytes lets through of `source`: its first `left`
/// bytes. The end is clean where the source has no more than that, and an
/// error only where a byte beyond the cap exists.
pub open spec fn limited(source: Seq<u8>, left: nat) -> Stream {
    Stream {
        bytes: source.take(chunk_len(source.len(), left) as int),
        end: if left < source.len() {
            Ending::Exceeded
        } else {
            Ending::Clean
        },
    }
}

/// Caps the number of wire bytes that are read: `limit` at the start, `left`
/// of them still to go.
#[derive(Debug)]
pub struct LimitReader {
    limit: u64,
    left: u64,
}

impl LimitReader {
    #[verifier::type_invariant]
    spec fn wf(self) -> bool {
        self.left <= self.limit
    }

    /// The cap this reader was made with.
    pub closed spec fn limit(self) -> nat {
        self.limit as nat
    }

    /// How many more bytes the reader lets through.
    pub closed spec fn left(self) -> nat {
        self.left as nat
    }

    /// How many bytes the reader has let through so far.
    pub open spec fn yielded(self) -> nat {
        (self.limit() - self.left()) as nat
    }

    /// A reader that lets `limit` bytes through.
    pub fn new(limit: u64) -> (r: Self)
        ensures
            r.limit() == limit,
            r.left() == limit,
    {
        LimitReader { limit, left: limit }
    }

    /// How many bytes the next read may take with room for `room` of them:
    /// none once nothing is left of the cap.
    pub fn window(&self, room: usize) -> (n: usize)
        ensures
            n == chunk_len(self.left(), room as nat),
    {
        if self.left < room as u64 {
            self.left as usize
        } else {
            room
        }
    }

    /// Whether nothing is left of the cap.
    pub fn is_spent(&self) -> (r: bool)
        ensures
            r == (self.left() == 0),
    {
        self.left == 0
    }

    /// What a read reports once nothing is left of the cap, given how many
    /// bytes a look beyond the cap found: the clean end where it found none,
    /// and [`Error::BodyExceedsLimit`] where it found one.
    pub fn past_cap(&self, found: usize) -> (r: Result<usize, Error>)
        ensures
            found == 0 ==> (r matches Ok(n) && n == 0),
            found > 0 ==> r matches Err(Error::BodyExceedsLimit),
    {
        if found > 0 {
            Err(Error::BodyExceedsLimit)
        } else {
            Ok(0)
        }
    }

    /// Counts `n` bytes as read.
    pub fn advance(&mut self, n: usize)
        requires
            n <= old(self).left(),
        ensures
            final(self).left() == old(self).left() - n,
            final(self).limit() == old(self).limit(),
            final(self).yielded() == old(self).yielded() + n,
            final(self).yielded() <= final(self).limit(),
    {
        proof {
            use_type_invariant(&*self);
        }
        self.left = self.left - n as u64;
    }
}

impl Reader for LimitReader {
    /// What the reader still delivers from `source`.
    open spec fn stream(&self, source: Seq<u8>) -> Stream {
        limited(source, self.left())
    }

    open spec fn taps(&self) -> bool {
        true
    }

    open spec fn wire_due(&self, source: Seq<u8>) -> nat {
        chunk_len(source.len(), self.left())
    }

    proof fn lemma_wire(&self, source: Seq<u8>) {
    }

    /// Reads from `unit` into `buf`, never more than is left of the cap.
    /// Once nothing is left of it the read reports the clean end where the
    /// wire body has ended too, and fails with [`Error::BodyExceedsLimit`]
    /// where it has a byte more.
    fn read(&mut self, unit: &mut UnitHandler, buf: &mut [u8]) -> (r: Result<usize, Error>)
        ensures
            r is Err <==> old(self).left() == 0 && old(unit).remaining().len() > 0,
            r matches Ok(n) ==> final(self).left() == old(self).left() - n,
            r is Err ==> *final(self) == *old(self) && *final(unit) == *old(unit),
            final(self).limit() == old(self).limit(),
            final(self).yielded() <= final(self).limit(),
    {
        proof {
            use_type_invariant(&*self);
        }
        let ghost source = unit.remaining();
        let ghost before = buf@;
        if self.is_spent() {
            let r = self.past_cap(unit.unread());
            proof {
                assert(limited(source, 0).bytes =~= Seq::<u8>::empty());
            }
            return r;
        }
        let room: usize = buf.len();
        let max: usize = self.window(room);
        let n = if max == room {
            match unit.do_read(buf) {
                Ok(n) => n,
                Err(e) => {
                    return Err(e);
                },
            }
        } else {
            let (head, tail) = buf.split_at_mut(max);
            match unit.do_read(head) {
                Ok(n) => n,
                Err(e) => {
                    return Err(e);
                },
            }
        };
        self.advance(n);
        proof {
            assert(final(buf)@ =~= source.take(n as int) + before.skip(n as int));
            if n == 0 {
                assert(final(buf)@ =~= before);
                assert(source.skip(0) =~= source);
            }
            assert(old(self).stream(source).bytes.take(n as int) =~= source.take(n as int));
            assert(final(self).stream(source.skip(n as int)).bytes =~= old(self).stream(
                source,
            ).bytes.skip(n as int));
        }
        Ok(n)
    }
}

} // verus!
