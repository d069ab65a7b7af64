//! Receive operations.
use vstd::prelude::*;

use crate::payload::Payload;

verus! {

/// RX mode operations. Each first brings the chip into RX mode.
pub trait Rx {
    /// Failure of a receive operation (a bus failure).
    type Error;

    /// Whether a packet is waiting, and on which pipe.
    ///
    /// Clears all three interrupt flags on every call, so the caller repeats
    /// the call until it returns `None` before it waits for the next interrupt.
    fn can_read(&mut self) -> Result<Option<u8>, Self::Error>;

    /// Whether an in-band carrier is detected.
    fn has_carrier(&mut self) -> Result<bool, Self::Error>;

    /// Whether the RX FIFO is empty.
    fn rx_queue_empty(&mut self) -> Result<bool, Self::Error>;

    /// Whether the RX FIFO is full.
    fn rx_queue_is_full(&mut self) -> Result<bool, Self::Error>;

    /// Reads the packet at the head of the RX FIFO.
    fn read(&mut self) -> Result<Payload, Self::Error>;
}

} // verus!
