//! Failures reported by the driver.
use vstd::prelude::*;

verus! {

/// Why an operation failed.
#[derive(Clone, Copy, Debug, PartialEq, Eq)]
pub enum Error<E> {
    /// The byte exchange on the bus failed; the bus's own error is kept.
    TransportFailure(E),
    /// The address-width register read back a value that no chip holds.
    NotConnected,
}

} // verus!
