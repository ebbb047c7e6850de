//! The buffers of a connection: the input that arrived and is not consumed
//! yet, and the output that is not sent yet.

use vstd::prelude::*;
use vstd::slice::slice_subrange;

verus! {

/// The input and output buffers of one connection, each of a fixed size.
pub struct Buffers {
    input: Vec<u8>,
    input_size: usize,
    output: Vec<u8>,
    output_size: usize,
}

/// The smaller of two lengths.
pub open spec fn at_most(wanted: nat, room: nat) -> nat {
    if wanted <= room {
        wanted
    } else {
        room
    }
}

impl Buffers {
    /// The input that arrived and is not consumed yet.
    pub closed spec fn pending_input(self) -> Seq<u8> {
        self.input@
    }

    /// The output that is not sent yet.
    pub closed spec fn pending_output(self) -> Seq<u8> {
        self.output@
    }

    /// How much input the buffer holds at most.
    pub closed spec fn input_size(self) -> nat {
        self.input_size as nat
    }

    /// How much output the buffer holds at most.
    pub closed spec fn output_size(self) -> nat {
        self.output_size as nat
    }

    /// What holds of all buffers: neither holds more than its size.
    pub open spec fn wf(self) -> bool {
        &&& self.pending_input().len() <= self.input_size()
        &&& self.pending_output().len() <= self.output_size()
    }

    /// Whether `other` has the sizes of these buffers.
    pub open spec fn same_sizes(self, other: Self) -> bool {
        &&& self.input_size() == other.input_size()
        &&& self.output_size() == other.output_size()
    }

    /// Empty buffers of the given sizes.
    pub fn new(input_size: usize, output_size: usize) -> (r: Self)
        ensures
            r.wf(),
            r.pending_input() == Seq::<u8>::empty(),
            r.pending_output() == Seq::<u8>::empty(),
            r.input_size() == input_size,
            r.output_size() == output_size,
    {
        Buffers { input: Vec::new(), input_size, output: Vec::new(), output_size }
    }

    /// The input that arrived and is not consumed yet.
    pub fn input(&self) -> (r: &[u8])
        ensures
            r@ == self.pending_input(),
    {
        self.input.as_slice()
    }

    /// Marks the first `amount` bytes of the input as consumed; no more can
    /// be consumed than there is.
    pub fn consume_input(&mut self, amount: usize)
        requires
            old(self).wf(),
            amount <= old(self).pending_input().len(),
        ensures
            final(self).wf(),
            final(self).same_sizes(*old(self)),
            final(self).pending_input() == old(self).pending_input().skip(amount as int),
            final(self).pending_output() == old(self).pending_output(),
    {
        let rest = self.input.split_off(amount);
        assert(rest@ =~= old(self).pending_input().skip(amount as int));
        self.input = rest;
    }

    /// Takes in input that arrived: as many of `bytes` as the buffer has
    /// room for, behind the input that is pending. Says how many it took.
    pub fn fill_input(&mut self, bytes: &[u8]) -> (n: usize)
        requires
            old(self).wf(),
        ensures
            final(self).wf(),
            final(self).same_sizes(*old(self)),
            n == at_most(
                bytes@.len(),
                (old(self).input_size() - old(self).pending_input().len()) as nat,
            ),
            final(self).pending_input() == old(self).pending_input() + bytes@.take(n as int),
            final(self).pending_output() == old(self).pending_output(),
    {
        let room = self.input_size - self.input.len();
        let n = if bytes.len() <= room {
            bytes.len()
        } else {
            room
        };
        self.input.extend_from_slice(slice_subrange(bytes, 0, n));
        assert(bytes@.subrange(0, n as int) =~= bytes@.take(n as int));
        n
    }

    /// Takes in output to send: as many of `bytes` as the buffer has room
    /// for, behind the output that is pending. Says how many it took.
    pub fn write(&mut self, bytes: &[u8]) -> (n: usize)
        requires
            old(self).wf(),
        ensures
            final(self).wf(),
            final(self).same_sizes(*old(self)),
            n == at_most(
                bytes@.len(),
                (old(self).output_size() - old(self).pending_output().len()) as nat,
            ),
            final(self).pending_output() == old(self).pending_output() + bytes@.take(n as int),
            final(self).pending_input() == old(self).pending_input(),
    {
        let room = self.output_size - self.output.len();
        let n = if bytes.len() <= room {
            bytes.len()
        } else {
            room
        };
        self.output.extend_from_slice(slice_subrange(bytes, 0, n));
        assert(bytes@.subrange(0, n as int) =~= bytes@.take(n as int));
        n
    }

    /// Hands out the pending output, to be sent; none is pending afterwards.
    pub fn flush(&mut self) -> (r: Vec<u8>)
        requires
            old(self).wf(),
        ensures
            final(self).wf(),
            final(self).same_sizes(*old(self)),
            r@ == old(self).pending_output(),
            final(self).pending_output() == Seq::<u8>::empty(),
            final(self).pending_input() == old(self).pending_input(),
    {
        let mut out: Vec<u8> = Vec::new();
        core::mem::swap(&mut self.output, &mut out);
        out
    }
}

} // verus!
