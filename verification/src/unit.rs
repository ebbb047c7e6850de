//! One read of a response body from a live connection, as a sequence of
//! decisions. The library decides; a driver that owns the connection and the
//! protocol unit does the work of each step and reports what came of it.

use crate::time::NextTimeout;
use vstd::prelude::*;

verus! {

/// What the protocol unit reports when it is polled while a body is read.
#[derive(Debug, Clone, Copy)]
pub enum Event {
    /// The unit needs input from the connection.
    AwaitInput { timeout: NextTimeout },
    /// The unit has written `amount` bytes of the body to the caller's buffer.
    ResponseBody { amount: usize },
    /// The exchange is over; `must_close` says whether the connection can
    /// serve another.
    Reset { must_close: bool },
}

/// What the driver does next.
#[derive(Debug, Clone, Copy)]
pub enum ReadStep {
    /// Poll the unit and report the event with [`UnitDriver::on_event`].
    Poll,
    /// Wait for input on the connection, for `timeout` at most, and report
    /// how much there is with [`UnitDriver::on_input`].
    AwaitInput { timeout: NextTimeout },
    /// Hand the unit the first `max` bytes of the input and the caller's
    /// buffer, consume what it used, and go on with [`UnitDriver::on_consumed`].
    HandleInput { max: usize },
    /// Close the connection; the read is over with 0 bytes.
    Close,
    /// Return the connection to the pool; the read is over with 0 bytes.
    Reuse,
    /// The read is over with `amount` bytes.
    Done { amount: usize },
}

/// Where a read stands.
#[derive(Debug, Clone, Copy, PartialEq, Eq, Structural)]
pub enum ReadPhase {
    /// No read is under way.
    Idle,
    /// The unit is being polled for what to do.
    Polling,
    /// The connection is awaited.
    Awaiting,
    /// The unit is being fed `max` bytes of input at most.
    Feeding { max: usize },
    /// The unit is being polled for the amount it wrote.
    Counting,
}

/// The state of reading a body from a live connection: whether the body
/// still holds its connection, and where the current read stands.
pub struct UnitDriver {
    connected: bool,
    phase: ReadPhase,
}

impl UnitDriver {
    /// Whether the body still holds its connection.
    pub closed spec fn connected(self) -> bool {
        self.connected
    }

    /// Where the current read stands.
    pub closed spec fn phase(self) -> ReadPhase {
        self.phase
    }

    /// The state of a body that has just been handed its connection.
    pub fn new() -> (r: Self)
        ensures
            r.connected(),
            r.phase() == ReadPhase::Idle,
    {
        UnitDriver { connected: true, phase: ReadPhase::Idle }
    }

    /// Whether the body still holds its connection.
    pub fn is_connected(&self) -> (r: bool)
        ensures
            r == self.connected(),
    {
        self.connected
    }

    /// Where the current read stands.
    pub fn read_phase(&self) -> (r: ReadPhase)
        ensures
            r == self.phase(),
    {
        self.phase
    }

    /// Starts a read. A body that has given up its connection has nothing
    /// more to read: the read is over with 0 bytes, and the unit is not
    /// polled. Otherwise the unit is polled.
    pub fn begin(&mut self) -> (r: ReadStep)
        requires
            old(self).phase() == ReadPhase::Idle,
        ensures
            final(self).connected() == old(self).connected(),
            old(self).connected() ==> r is Poll && final(self).phase() == ReadPhase::Polling,
            !old(self).connected() ==> r == (ReadStep::Done { amount: 0 }) && final(self).phase()
                == ReadPhase::Idle,
    {
        if !self.connected {
            return ReadStep::Done { amount: 0 };
        }
        self.phase = ReadPhase::Polling;
        ReadStep::Poll
    }

    /// Takes the event of the first poll of a read, which is no
    /// `ResponseBody`. On `Reset` the body gives up its connection, to be
    /// closed where it must be and to be used again where it can, and the
    /// read is over; on `AwaitInput` the connection is awaited.
    pub fn on_event(&mut self, event: Event) -> (r: ReadStep)
        requires
            old(self).phase() == ReadPhase::Polling,
            old(self).connected(),
            !(event is ResponseBody),
        ensures
            match event {
                Event::AwaitInput { timeout } => {
                    &&& r == (ReadStep::AwaitInput { timeout })
                    &&& final(self).connected()
                    &&& final(self).phase() == ReadPhase::Awaiting
                },
                Event::Reset { must_close } => {
                    &&& r == if must_close {
                        ReadStep::Close
                    } else {
                        ReadStep::Reuse
                    }
                    &&& !final(self).connected()
                    &&& final(self).phase() == ReadPhase::Idle
                },
                Event::ResponseBody { .. } => false,
            },
    {
        match event {
            Event::AwaitInput { timeout } => {
                self.phase = ReadPhase::Awaiting;
                ReadStep::AwaitInput { timeout }
            },
            Event::Reset { must_close } => {
                self.connected = false;
                self.phase = ReadPhase::Idle;
                if must_close {
                    ReadStep::Close
                } else {
                    ReadStep::Reuse
                }
            },
            Event::ResponseBody { amount } => ReadStep::Done { amount },
        }
    }

    /// Takes the length of the connection's input once it has arrived, and
    /// the length of the caller's buffer: the unit is handed no more input
    /// than the buffer has room.
    pub fn on_input(&mut self, input_len: usize, buf_len: usize) -> (r: ReadStep)
        requires
            old(self).phase() == ReadPhase::Awaiting,
        ensures
            r == (ReadStep::HandleInput { max: input_window(input_len, buf_len) }),
            final(self).phase() == (ReadPhase::Feeding { max: input_window(input_len, buf_len) }),
            final(self).connected() == old(self).connected(),
    {
        let max = if input_len <= buf_len {
            input_len
        } else {
            buf_len
        };
        self.phase = ReadPhase::Feeding { max };
        ReadStep::HandleInput { max }
    }

    /// Takes the number of input bytes that the unit used, which is no more
    /// than it was handed; the unit is polled for the amount it wrote.
    pub fn on_consumed(&mut self, used: usize) -> (r: ReadStep)
        requires
            old(self).phase() matches ReadPhase::Feeding { max } && used <= max,
        ensures
            r is Poll,
            final(self).phase() == ReadPhase::Counting,
            final(self).connected() == old(self).connected(),
    {
        self.phase = ReadPhase::Counting;
        ReadStep::Poll
    }

    /// Takes the event of the second poll of a read, which is a
    /// `ResponseBody`: the read is over with the amount it names.
    pub fn on_body(&mut self, event: Event) -> (r: ReadStep)
        requires
            old(self).phase() == ReadPhase::Counting,
            event is ResponseBody,
        ensures
            r == (ReadStep::Done { amount: event->amount }),
            final(self).phase() == ReadPhase::Idle,
            final(self).connected() == old(self).connected(),
    {
        self.phase = ReadPhase::Idle;
        match event {
            Event::ResponseBody { amount } => ReadStep::Done { amount },
            _ => ReadStep::Done { amount: 0 },
        }
    }

    /// Gives the body up. A connection that it still holds is in the middle
    /// of an exchange and is closed; one that it gave up is left alone.
    pub fn abandon(&mut self) -> (r: ReadStep)
        ensures
            !final(self).connected(),
            final(self).phase() == ReadPhase::Idle,
            r == if old(self).connected() {
                ReadStep::Close
            } else {
                ReadStep::Done { amount: 0 }
            },
    {
        let held = self.connected;
        self.connected = false;
        self.phase = ReadPhase::Idle;
        if held {
            ReadStep::Close
        } else {
            ReadStep::Done { amount: 0 }
        }
    }
}

/// How much of the connection's input is handed to the unit: all of it, or
/// as much as the caller's buffer has room for.
pub open spec fn input_window(input_len: usize, buf_len: usize) -> usize {
    if input_len <= buf_len {
        input_len
    } else {
        buf_len
    }
}

} // verus!
