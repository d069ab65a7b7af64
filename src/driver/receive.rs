//! Receive operations.
use vstd::prelude::*;

use crate::bus::{Bus, BusOp, lemma_appended_trans, read_op, write_op};
use crate::command::{Command, reply_byte, reply_bytes, reply_status};
use crate::driver::{NRF24L01, is_bus_failure};
use crate::error::Error;
use crate::mode::{Mode, transition_ops};
use crate::payload::Payload;
use crate::registers::{CD, CLEAR_ALL_IRQ, FIFO_STATUS, FifoStatus, STATUS, Status, bit_of};
use crate::rx::Rx;

verus! {

/// Pipe of the packet at the head of the RX FIFO, from the reply to a read
/// of the FIFO status: none when the RX FIFO is empty.
pub open spec fn pipe_with_data(reply: Seq<u8>) -> Option<u8> {
    if bit_of(reply_byte(reply, 0), 0) {
        None
    } else {
        Some((reply_status(reply) >> 1u8) & 7u8)
    }
}

impl<'a, B: Bus> NRF24L01<'a, B> {
    /// Brings the chip into RX mode, then reads a one-byte register.
    fn rx_read_byte(&mut self, addr: u8) -> (r: Result<(Status, u8), Error<B::Error>>)
        requires
            addr < 32,
        ensures
            r is Ok ==> Self::forced_then(old(self), final(self), Mode::Rx, seq![read_op(addr, 1)]),
            r is Ok ==> r->Ok_0.0.0 == reply_status(final(self).last_reply()),
            r is Ok ==> r->Ok_0.1 == reply_byte(final(self).last_reply(), 0),
            r is Err ==> is_bus_failure(r),
            r is Err ==> Self::ended_in_failure(old(self), final(self)),
            r matches Err(Error::TransportFailure(e)) ==> final(self).last_bus_error() == Some(e),
    {
        let ghost t0 = self.trace@;
        match self.change_mode(Mode::Rx) {
            Ok(()) => {},
            Err(e) => return Err(e),
        }
        let ghost t1 = self.trace@;
        let r = self.read_register_byte(addr);
        proof {
            if r is Ok {
                lemma_appended_trans(t0, t1, self.trace@, transition_ops(old(self).mode, Mode::Rx, old(self).config), seq![read_op(addr, 1)]);
            }
        }
        r
    }
}

impl<'a, B: Bus> Rx for NRF24L01<'a, B> {
    type Error = Error<B::Error>;

    fn can_read(&mut self) -> (r: Result<Option<u8>, Self::Error>)
        ensures
            r is Ok ==> Self::forced_then(
                old(self),
                final(self),
                Mode::Rx,
                seq![write_op(STATUS, seq![CLEAR_ALL_IRQ]), read_op(FIFO_STATUS, 1)],
            ),
            r is Ok ==> r->Ok_0 == pipe_with_data(final(self).last_reply()),
            r is Err ==> is_bus_failure(r),
            r is Err ==> Self::ended_in_failure(old(self), final(self)),
            r matches Err(Error::TransportFailure(e)) ==> final(self).last_bus_error() == Some(e),
    {
        let ghost t0 = self.trace@;
        match self.change_mode(Mode::Rx) {
            Ok(()) => {},
            Err(e) => return Err(e),
        }
        let ghost t1 = self.trace@;
        match self.write_register_byte(STATUS, CLEAR_ALL_IRQ) {
            Ok(_) => {},
            Err(e) => return Err(e),
        }
        let ghost t2 = self.trace@;
        match self.read_register_byte(FIFO_STATUS) {
            Ok((status, fifo)) => {
                proof {
                    lemma_appended_trans(t1, t2, self.trace@, seq![write_op(STATUS, seq![CLEAR_ALL_IRQ])], seq![read_op(FIFO_STATUS, 1)]);
                    lemma_appended_trans(t0, t1, self.trace@, transition_ops(old(self).mode, Mode::Rx, old(self).config),
                        seq![write_op(STATUS, seq![CLEAR_ALL_IRQ])] + seq![read_op(FIFO_STATUS, 1)]);
                    assert(seq![write_op(STATUS, seq![CLEAR_ALL_IRQ])] + seq![read_op(FIFO_STATUS, 1)]
                        =~= seq![write_op(STATUS, seq![CLEAR_ALL_IRQ]), read_op(FIFO_STATUS, 1)]);
                }
                if !FifoStatus(fifo).rx_empty() {
                    Ok(Some(status.rx_p_no()))
                } else {
                    Ok(None)
                }
            },
            Err(e) => Err(e),
        }
    }

    fn has_carrier(&mut self) -> (r: Result<bool, Self::Error>)
        ensures
            r is Ok ==> Self::forced_then(old(self), final(self), Mode::Rx, seq![read_op(CD, 1)]),
            r is Ok ==> r->Ok_0 == bit_of(reply_byte(final(self).last_reply(), 0), 0),
            r is Err ==> is_bus_failure(r),
            r is Err ==> Self::ended_in_failure(old(self), final(self)),
            r matches Err(Error::TransportFailure(e)) ==> final(self).last_bus_error() == Some(e),
    {
        match self.rx_read_byte(CD) {
            Ok((_, cd)) => Ok((cd >> 0u8) & 1u8 == 1u8),
            Err(e) => Err(e),
        }
    }

    fn rx_queue_empty(&mut self) -> (r: Result<bool, Self::Error>)
        ensures
            r is Ok ==> Self::forced_then(old(self), final(self), Mode::Rx, seq![read_op(FIFO_STATUS, 1)]),
            r is Ok ==> r->Ok_0 == bit_of(reply_byte(final(self).last_reply(), 0), 0),
            r is Err ==> is_bus_failure(r),
            r is Err ==> Self::ended_in_failure(old(self), final(self)),
            r matches Err(Error::TransportFailure(e)) ==> final(self).last_bus_error() == Some(e),
    {
        match self.rx_read_byte(FIFO_STATUS) {
            Ok((_, fifo)) => Ok(FifoStatus(fifo).rx_empty()),
            Err(e) => Err(e),
        }
    }

    fn rx_queue_is_full(&mut self) -> (r: Result<bool, Self::Error>)
        ensures
            r is Ok ==> Self::forced_then(old(self), final(self), Mode::Rx, seq![read_op(FIFO_STATUS, 1)]),
            r is Ok ==> r->Ok_0 == bit_of(reply_byte(final(self).last_reply(), 0), 1),
            r is Err ==> is_bus_failure(r),
            r is Err ==> Self::ended_in_failure(old(self), final(self)),
            r matches Err(Error::TransportFailure(e)) ==> final(self).last_bus_error() == Some(e),
    {
        match self.rx_read_byte(FIFO_STATUS) {
            Ok((_, fifo)) => Ok(FifoStatus(fifo).rx_full()),
            Err(e) => Err(e),
        }
    }

    fn read(&mut self) -> (r: Result<Payload, Self::Error>)
        ensures
            r is Ok ==> Self::forced_then(
                old(self),
                final(self),
                Mode::Rx,
                seq![
                    BusOp::Exchange(Command::ReadRxPayloadWidth.frame()),
                    BusOp::Exchange(
                        (Command::ReadRxPayload {
                            width: reply_byte(Self::reply_after(old(self), final(self), Mode::Rx, 0), 0) as usize,
                        }).frame(),
                    ),
                ],
            ),
            r is Ok ==> r->Ok_0@ == reply_bytes(
                final(self).last_reply(),
                reply_byte(Self::reply_after(old(self), final(self), Mode::Rx, 0), 0) as nat,
            ),
            r is Err ==> is_bus_failure(r),
            r is Err ==> Self::ended_in_failure(old(self), final(self)),
            r matches Err(Error::TransportFailure(e)) ==> final(self).last_bus_error() == Some(e),
    {
        let ghost t0 = self.trace@;
        match self.change_mode(Mode::Rx) {
            Ok(()) => {},
            Err(e) => return Err(e),
        }
        let ghost t1 = self.trace@;
        let width = match self.send_command(&Command::ReadRxPayloadWidth) {
            Ok((_, bytes)) => bytes[0],
            Err(e) => return Err(e),
        };
        let ghost t2 = self.trace@;
        let command = Command::ReadRxPayload { width: width as usize };
        match self.send_command(&command) {
            Ok((_, bytes)) => {
                proof {
                    let w = BusOp::Exchange(Command::ReadRxPayloadWidth.frame());
                    let p = BusOp::Exchange(command.frame());
                    lemma_appended_trans(t1, t2, self.trace@, seq![w], seq![p]);
                    lemma_appended_trans(t0, t1, self.trace@, transition_ops(old(self).mode, Mode::Rx, old(self).config), seq![w] + seq![p]);
                    assert(seq![w] + seq![p] =~= seq![w, p]);
                    assert(t1.len() == t0.len() + transition_ops(old(self).mode, Mode::Rx, old(self).config).len());
                    assert(self.trace@[t1.len() as int] == t2[t1.len() as int]);
                }
                Ok(Payload::new(bytes))
            },
            Err(e) => Err(e),
        }
    }
}

} // verus!
