//! A received packet.
use vstd::prelude::*;

verus! {

/// The bytes of one packet, as read out of the RX FIFO.
///
/// Its length is the width that the chip reported for the packet; a width
/// above 32 is a transport anomaly that the caller can see here.
#[derive(Clone, Debug, PartialEq, Eq)]
pub struct Payload {
    data: Vec<u8>,
}

impl View for Payload {
    type V = Seq<u8>;

    closed spec fn view(&self) -> Seq<u8> {
        self.data@
    }
}

impl Payload {
    /// Wraps the bytes of a packet.
    pub fn new(data: Vec<u8>) -> (r: Payload)
        ensures
            r@ == data@,
    {
        Payload { data }
    }

    /// Number of bytes in the packet.
    pub fn len(&self) -> (r: usize)
        ensures
            r == self@.len(),
    {
        self.data.len()
    }

    /// Whether the packet holds no byte.
    pub fn is_empty(&self) -> (r: bool)
        ensures
            r == (self@.len() == 0),
    {
        self.data.len() == 0
    }

    /// The bytes of the packet.
    pub fn as_slice(&self) -> (r: &[u8])
        ensures
            r@ == self@,
    {
        self.data.as_slice()
    }
}

} // verus!
