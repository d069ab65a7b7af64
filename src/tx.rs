//! Transmit operations.
use vstd::prelude::*;

use crate::command::MAX_PAYLOAD;
use crate::registers::ObserveTx;
use nb::Error as NbError;

verus! {

/// The error of a non-blocking operation, as the nb crate defines it: `Other`
/// carries a failure, `WouldBlock` says that the operation is still under way.
#[verifier::external_type_specification]
#[verifier::reject_recursive_types(E)]
pub struct ExNbError<E>(NbError<E>);

/// TX mode operations, with TX settling and Standby-II. Each first brings the
/// chip into TX mode.
///
/// The datasheet asks never to keep the chip in TX mode for more than 4 ms at
/// a time.
pub trait Tx {
    /// Failure of a transmit operation (a bus failure).
    type Error;

    /// Whether the TX FIFO is empty.
    fn tx_empty(&mut self) -> Result<bool, Self::Error>;

    /// Whether the TX FIFO is full.
    fn tx_full(&mut self) -> Result<bool, Self::Error>;

    /// Whether the TX FIFO has room for a packet.
    fn can_send(&mut self) -> Result<bool, Self::Error>;

    /// Queues a packet and starts transmission; does not wait.
    fn send(&mut self, packet: &[u8]) -> Result<(), Self::Error>
        requires
            packet@.len() <= MAX_PAYLOAD,
    ;

    /// Polls the completion of the queued sends: `Ok(true)` once the TX FIFO
    /// is empty, `Ok(false)` when a packet ran out of retries (the TX FIFO is
    /// then flushed), `WouldBlock` while sending goes on.
    fn poll_send(&mut self) -> nb::Result<bool, Self::Error>;

    /// Clears the TX interrupt flags and drives chip-enable low.
    fn clear_tx_interrupts_and_ce(&mut self) -> nb::Result<(), Self::Error>;

    /// One round of waiting for the TX FIFO to drain: keeps transmission going
    /// while packets are queued, flushes the TX FIFO when a packet ran out of
    /// retries, and drives chip-enable low once the FIFO is empty. Returns
    /// whether the FIFO was empty; the caller repeats it until then.
    fn wait_empty_step(&mut self) -> Result<bool, Self::Error>;

    /// Reads the lost and retransmitted packet counters.
    fn observe(&mut self) -> Result<ObserveTx, Self::Error>;
}

} // verus!
