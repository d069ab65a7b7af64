//! Driver for the nRF24L01+ packet-radio transceiver over a byte-exchange bus
//! and two control lines.
//!
//! The driver keeps, as ghost state, a record of every operation it drives on
//! the lines and of the bytes clocked back during each. The contracts of its
//! operations state which transactions they issue, in which order, and how
//! their results are read out of the replies.
use vstd::prelude::*;

pub mod bus;
pub mod command;
pub mod config;
pub mod driver;
pub mod error;
pub mod mode;
pub mod payload;
pub mod registers;
pub mod rx;
pub mod tx;

pub use crate::bus::{Bus, BusOp, Event};
pub use crate::config::{
    CrcMode, DataRate, InterruptMask, NRF24L01Config, NRF24L01Configuration, PALevel, RetransmitConfig,
};
pub use crate::driver::NRF24L01;
pub use crate::error::Error;
pub use crate::mode::{ChangeModes, Mode};
pub use crate::payload::Payload;
pub use crate::rx::Rx;
pub use crate::tx::Tx;

verus! {

/// Number of RX pipes with configurable addresses.
pub const PIPES_COUNT: usize = 6;

/// Minimum address length.
pub const MIN_ADDR_BYTES: usize = 2;

/// Maximum address length.
pub const MAX_ADDR_BYTES: usize = 5;

} // verus!
