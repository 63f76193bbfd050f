//! The buffer between the encoder and the socket: what is written gathers in
//! it, and a flush hands it on as one datagram.

use vstd::prelude::*;

verus! {

/// The most bytes that one UDP datagram can carry over IPv4.
pub const MAX_DATAGRAM_SIZE: usize = 65507;

/// What a flush asks the transport to do.
#[derive(Debug, PartialEq)]
pub enum Flushed {
    /// Nothing was written since the last flush: there is nothing to send.
    Nothing,
    /// Send these bytes as one datagram.
    Datagram(Vec<u8>),
    /// These bytes are more than one datagram can carry. They are handed
    /// over whole, for the transport to report: nothing is cut off.
    Oversized(Vec<u8>),
}

impl Flushed {
    /// The bytes that are handed over; none for `Nothing`.
    pub open spec fn bytes(&self) -> Seq<u8> {
        match self {
            Flushed::Nothing => Seq::empty(),
            Flushed::Datagram(b) => b@,
            Flushed::Oversized(b) => b@,
        }
    }
}

/// The bytes written since the last flush.
#[derive(Debug)]
pub struct DatagramBuffer {
    buffer: Vec<u8>,
}

impl View for DatagramBuffer {
    type V = Seq<u8>;

    closed spec fn view(&self) -> Seq<u8> {
        self.buffer@
    }
}

impl DatagramBuffer {
    /// A buffer with nothing in it.
    pub fn new() -> (r: Self)
        ensures
            r@ == Seq::<u8>::empty(),
    {
        DatagramBuffer { buffer: Vec::new() }
    }

    /// Puts the bytes at the end of the buffer and says how many were taken:
    /// always all of them.
    pub fn write(&mut self, bytes: &[u8]) -> (taken: usize)
        ensures
            final(self)@ == old(self)@ + bytes@,
            taken == bytes@.len(),
    {
        self.buffer.extend_from_slice(bytes);
        bytes.len()
    }

    /// Empties the buffer and hands over what was in it, as one datagram:
    /// nothing where the buffer was empty, and marked as oversized where it
    /// held more than one datagram can carry.
    pub fn flush(&mut self) -> (r: Flushed)
        ensures
            final(self)@ == Seq::<u8>::empty(),
            r.bytes() == old(self)@,
            r is Nothing <==> old(self)@.len() == 0,
            r is Oversized <==> old(self)@.len() > MAX_DATAGRAM_SIZE,
    {
        let mut pending: Vec<u8> = Vec::new();
        std::mem::swap(&mut pending, &mut self.buffer);
        if pending.len() == 0 {
            assert(pending@ =~= Seq::<u8>::empty());
            Flushed::Nothing
        } else if pending.len() > MAX_DATAGRAM_SIZE {
            Flushed::Oversized(pending)
        } else {
            Flushed::Datagram(pending)
        }
    }
}

} // verus!
