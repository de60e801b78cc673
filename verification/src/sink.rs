//! Serial sink: the line of bytes that a command becomes, and the queue of
//! bytes waiting to go out to the device.
//!
//! The sink does not own the device. It knows whether one is configured and
//! collects what must be written to it; the program drains the queue into the
//! open port. Without a device every command is dropped silently, so the
//! whole pipeline runs with no hardware attached.

use vstd::prelude::*;
use vstd::string::*;
use vstd::utf8::*;

verus! {

/// The rate, in baud, at which the serial device is opened.
pub const BAUD_RATE: u32 = 9600;

/// The byte that ends a line.
pub const LINE_END: u8 = 0x0A;

/// A message as it goes over the wire: its text, then one line end.
pub open spec fn line(text: Seq<char>) -> Seq<u8> {
    encode_utf8(text).push(LINE_END)
}

/// Where commands go: a serial device, or nowhere.
pub struct SerialSink {
    configured: bool,
    outbox: Vec<u8>,
}

impl SerialSink {
    #[verifier::type_invariant]
    spec fn outbox_empty_without_device(&self) -> bool {
        !self.configured ==> self.outbox@.len() == 0
    }

    /// Whether a serial device is configured.
    pub closed spec fn configured(&self) -> bool {
        self.configured
    }

    /// The bytes queued for the device and not yet taken.
    pub closed spec fn pending(&self) -> Seq<u8> {
        self.outbox@
    }

    /// A sink for a configured device, or one that drops everything.
    pub fn new(configured: bool) -> (sink: Self)
        ensures
            sink.configured() == configured,
            sink.pending() == Seq::<u8>::empty(),
    {
        SerialSink { configured, outbox: Vec::new() }
    }

    /// Whether a serial device is configured.
    pub fn is_configured(&self) -> (configured: bool)
        ensures
            configured == self.configured(),
    {
        self.configured
    }

    /// Hands out the queued bytes, in the order they were queued, and leaves
    /// the queue empty.
    pub fn take_pending(&mut self) -> (bytes: Vec<u8>)
        ensures
            bytes@ == old(self).pending(),
            final(self).pending() == Seq::<u8>::empty(),
            final(self).configured() == old(self).configured(),
            !old(self).configured() ==> bytes@.len() == 0,
    {
        proof {
            use_type_invariant(&*self);
        }
        let mut bytes: Vec<u8> = Vec::new();
        std::mem::swap(&mut self.outbox, &mut bytes);
        bytes
    }
}

/// What is queued after a message was sent to a sink.
pub open spec fn pending_after_send(configured: bool, pending: Seq<u8>, message: Seq<char>) -> Seq<
    u8,
> {
    if configured {
        pending + line(message)
    } else {
        pending
    }
}

/// Sends one message: with a device configured, its line is queued behind
/// what is already waiting; without one, nothing happens.
pub fn send_serial(message: &str, sink: &mut SerialSink)
    ensures
        final(sink).configured() == old(sink).configured(),
        final(sink).pending() == pending_after_send(
            old(sink).configured(),
            old(sink).pending(),
            message@,
        ),
{
    if sink.configured {
        // The queue is taken out while it grows and put back when the line is
        // complete.
        let mut queue: Vec<u8> = Vec::new();
        std::mem::swap(&mut sink.outbox, &mut queue);
        queue.extend_from_slice(message.as_bytes());
        queue.push(LINE_END);
        std::mem::swap(&mut sink.outbox, &mut queue);
    }
}

} // verus!
