//! Transmit operations and the decisions of a send poll.
use vstd::prelude::*;

use crate::bus::{no_failure, Bus, BusOp, appended, lemma_appended_refl, lemma_appended_trans, read_op, write_op};
use crate::command::{Command, reply_byte, reply_status, tx_payload_frame};
use crate::driver::{NRF24L01, is_bus_failure};
use crate::error::Error;
use crate::mode::{Mode, transition_ops};
use crate::registers::{CLEAR_TX_IRQ, FIFO_STATUS, FifoStatus, OBSERVE_TX, ObserveTx, STATUS, Status, bit_of};
use crate::tx::Tx;

verus! {

/// Outcome of polling a send, from the status and FIFO status: failure when
/// the retransmit count ran out, success when the TX FIFO is empty, none yet
/// otherwise.
pub open spec fn poll_outcome(status: u8, fifo: u8) -> Option<bool> {
    if bit_of(status, 4) {
        Some(false)
    } else if bit_of(fifo, 4) {
        Some(true)
    } else {
        None
    }
}

/// Decides the outcome of a send poll from the status and FIFO status.
pub fn poll_decision(status: Status, fifo: FifoStatus) -> (r: Option<bool>)
    ensures
        r == poll_outcome(status.0, fifo.0),
{
    if status.max_rt() {
        Some(false)
    } else if fifo.tx_empty() {
        Some(true)
    } else {
        None
    }
}

/// Operations that clear the TX interrupt flags and stop transmission.
pub open spec fn clear_tx_ops() -> Seq<BusOp> {
    seq![write_op(STATUS, seq![CLEAR_TX_IRQ]), BusOp::ChipEnable(false)]
}

/// Operations of a send poll after the status read.
pub open spec fn poll_ops(status: u8, fifo: u8) -> Seq<BusOp> {
    match poll_outcome(status, fifo) {
        Some(false) => seq![BusOp::Exchange(Command::FlushTx.frame())] + clear_tx_ops(),
        Some(true) => clear_tx_ops(),
        None => seq![BusOp::ChipEnable(true)],
    }
}

/// Operations of one round of waiting for the TX FIFO, after the status read.
pub open spec fn wait_ops(status: u8, fifo: u8) -> Seq<BusOp> {
    (if bit_of(fifo, 4) { seq![] } else { seq![BusOp::ChipEnable(true)] }) + (if bit_of(status, 4) {
        seq![BusOp::Exchange(Command::FlushTx.frame()), write_op(STATUS, seq![CLEAR_TX_IRQ])]
    } else {
        seq![]
    }) + (if bit_of(fifo, 4) { seq![BusOp::ChipEnable(false)] } else { seq![] })
}

impl<'a, B: Bus> NRF24L01<'a, B> {
    /// Brings the chip into TX mode, then reads a one-byte register.
    fn tx_read_byte(&mut self, addr: u8) -> (r: Result<(Status, u8), Error<B::Error>>)
        requires
            addr < 32,
        ensures
            r is Ok ==> Self::forced_then(old(self), final(self), Mode::Tx, seq![read_op(addr, 1)]),
            r is Ok ==> r->Ok_0.0.0 == reply_status(final(self).last_reply()),
            r is Ok ==> r->Ok_0.1 == reply_byte(final(self).last_reply(), 0),
            r is Ok ==> final(self).last_reply() == Self::reply_after(old(self), final(self), Mode::Tx, 0),
            r is Err ==> is_bus_failure(r),
            r is Err ==> Self::ended_in_failure(old(self), final(self)),
            r matches Err(Error::TransportFailure(e)) ==> final(self).last_bus_error() == Some(e),
    {
        let ghost t0 = self.trace@;
        match self.change_mode(Mode::Tx) {
            Ok(()) => {},
            Err(e) => return Err(e),
        }
        let ghost t1 = self.trace@;
        let r = self.read_register_byte(addr);
        proof {
            if r is Ok {
                lemma_appended_trans(t0, t1, self.trace@, transition_ops(old(self).mode, Mode::Tx, old(self).config), seq![read_op(addr, 1)]);
            }
        }
        r
    }

    /// Clears the TX interrupt flags, then drives chip-enable low.
    fn clear_tx(&mut self) -> (r: Result<(), Error<B::Error>>)
        ensures
            final(self).same_state(old(self)),
            r is Ok ==> appended(old(self).trace(), final(self).trace(), clear_tx_ops()),
            r is Err ==> is_bus_failure(r),
            r is Ok ==> no_failure(old(self).trace(), final(self).trace()),
            r is Err ==> Self::ended_in_failure(old(self), final(self)),
            r matches Err(Error::TransportFailure(e)) ==> final(self).last_bus_error() == Some(e),
    {
        let ghost t0 = self.trace@;
        match self.write_register_byte(STATUS, CLEAR_TX_IRQ) {
            Ok(_) => {},
            Err(e) => return Err(e),
        }
        let ghost t1 = self.trace@;
        self.ce_disable();
        proof {
            lemma_appended_trans(t0, t1, self.trace@, seq![write_op(STATUS, seq![CLEAR_TX_IRQ])], seq![BusOp::ChipEnable(false)]);
            assert(seq![write_op(STATUS, seq![CLEAR_TX_IRQ])] + seq![BusOp::ChipEnable(false)] =~= clear_tx_ops());
        }
        Ok(())
    }
}

impl<'a, B: Bus> Tx for NRF24L01<'a, B> {
    type Error = Error<B::Error>;

    fn tx_empty(&mut self) -> (r: Result<bool, Self::Error>)
        ensures
            r is Ok ==> Self::forced_then(old(self), final(self), Mode::Tx, seq![read_op(FIFO_STATUS, 1)]),
            r is Ok ==> r->Ok_0 == bit_of(reply_byte(final(self).last_reply(), 0), 4),
            r is Err ==> is_bus_failure(r),
            r is Err ==> Self::ended_in_failure(old(self), final(self)),
            r matches Err(Error::TransportFailure(e)) ==> final(self).last_bus_error() == Some(e),
    {
        match self.tx_read_byte(FIFO_STATUS) {
            Ok((_, fifo)) => Ok(FifoStatus(fifo).tx_empty()),
            Err(e) => Err(e),
        }
    }

    fn tx_full(&mut self) -> (r: Result<bool, Self::Error>)
        ensures
            r is Ok ==> Self::forced_then(old(self), final(self), Mode::Tx, seq![read_op(FIFO_STATUS, 1)]),
            r is Ok ==> r->Ok_0 == bit_of(reply_byte(final(self).last_reply(), 0), 5),
            r is Err ==> is_bus_failure(r),
            r is Err ==> Self::ended_in_failure(old(self), final(self)),
            r matches Err(Error::TransportFailure(e)) ==> final(self).last_bus_error() == Some(e),
    {
        match self.tx_read_byte(FIFO_STATUS) {
            Ok((_, fifo)) => Ok(FifoStatus(fifo).tx_full()),
            Err(e) => Err(e),
        }
    }

    fn can_send(&mut self) -> (r: Result<bool, Self::Error>)
        ensures
            r is Ok ==> Self::forced_then(old(self), final(self), Mode::Tx, seq![read_op(FIFO_STATUS, 1)]),
            r is Ok ==> r->Ok_0 == !bit_of(reply_byte(final(self).last_reply(), 0), 5),
            r is Err ==> is_bus_failure(r),
            r is Err ==> Self::ended_in_failure(old(self), final(self)),
            r matches Err(Error::TransportFailure(e)) ==> final(self).last_bus_error() == Some(e),
    {
        match self.tx_full() {
            Ok(full) => Ok(!full),
            Err(e) => Err(e),
        }
    }

    fn send(&mut self, packet: &[u8]) -> (r: Result<(), Self::Error>)
        ensures
            r is Ok ==> Self::forced_then(
                old(self),
                final(self),
                Mode::Tx,
                seq![BusOp::Exchange(tx_payload_frame(packet@)), BusOp::ChipEnable(true)],
            ),
            r is Err ==> is_bus_failure(r),
            r is Err ==> Self::ended_in_failure(old(self), final(self)),
            r matches Err(Error::TransportFailure(e)) ==> final(self).last_bus_error() == Some(e),
    {
        let ghost t0 = self.trace@;
        match self.change_mode(Mode::Tx) {
            Ok(()) => {},
            Err(e) => return Err(e),
        }
        let ghost t1 = self.trace@;
        let mut data: Vec<u8> = Vec::new();
        let mut i: usize = 0;
        while i < packet.len()
            invariant
                i <= packet@.len(),
                data@ == packet@.subrange(0, i as int),
            decreases packet@.len() - i,
        {
            data.push(packet[i]);
            i = i + 1;
            assert(data@ =~= packet@.subrange(0, i as int));
        }
        assert(data@ =~= packet@);
        let command = Command::WriteTxPayload { data };
        match self.send_command(&command) {
            Ok(_) => {},
            Err(e) => return Err(e),
        }
        let ghost t2 = self.trace@;
        self.ce_enable();
        proof {
            let w = BusOp::Exchange(tx_payload_frame(packet@));
            assert(command.frame() == tx_payload_frame(packet@));
            lemma_appended_trans(t1, t2, self.trace@, seq![w], seq![BusOp::ChipEnable(true)]);
            lemma_appended_trans(t0, t1, self.trace@, transition_ops(old(self).mode, Mode::Tx, old(self).config), seq![w] + seq![BusOp::ChipEnable(true)]);
            assert(seq![w] + seq![BusOp::ChipEnable(true)] =~= seq![w, BusOp::ChipEnable(true)]);
        }
        Ok(())
    }

    fn poll_send(&mut self) -> (r: nb::Result<bool, Self::Error>)
        ensures
            !(r matches Err(nb::Error::Other(_))) ==> Self::forced_then(
                old(self),
                final(self),
                Mode::Tx,
                seq![read_op(FIFO_STATUS, 1)] + poll_ops(
                    reply_status(Self::reply_after(old(self), final(self), Mode::Tx, 0)),
                    reply_byte(Self::reply_after(old(self), final(self), Mode::Tx, 0), 0),
                ),
            ),
            r matches Ok(b) ==> poll_outcome(
                reply_status(Self::reply_after(old(self), final(self), Mode::Tx, 0)),
                reply_byte(Self::reply_after(old(self), final(self), Mode::Tx, 0), 0),
            ) == Some(b),
            r matches Err(nb::Error::WouldBlock) ==> poll_outcome(
                reply_status(Self::reply_after(old(self), final(self), Mode::Tx, 0)),
                reply_byte(Self::reply_after(old(self), final(self), Mode::Tx, 0), 0),
            ) is None,
            r matches Err(nb::Error::Other(e)) ==> e is TransportFailure,
            r matches Err(nb::Error::Other(_)) ==> Self::ended_in_failure(old(self), final(self)),
            r matches Err(nb::Error::Other(Error::TransportFailure(e))) ==> final(self).last_bus_error() == Some(e),
    {
        let ghost t0 = self.trace@;
        let (status, fifo) = match self.tx_read_byte(FIFO_STATUS) {
            Ok(pair) => pair,
            Err(e) => return Err(nb::Error::Other(e)),
        };
        let ghost t1 = self.trace@;
        let ghost k: int = (t0.len() + transition_ops(old(self).mode, Mode::Tx, old(self).config).len()) as int;
        let ghost head = transition_ops(old(self).mode, Mode::Tx, old(self).config) + seq![read_op(FIFO_STATUS, 1)];
        match poll_decision(status, FifoStatus(fifo)) {
            Some(false) => {
                // A packet that ran out of retries stays in the TX FIFO: flush it,
                // or every later send stays blocked behind it.
                match self.send_command(&Command::FlushTx) {
                    Ok(_) => {},
                    Err(e) => return Err(nb::Error::Other(e)),
                }
                let ghost t2 = self.trace@;
                match self.clear_tx() {
                    Ok(()) => {},
                    Err(e) => return Err(nb::Error::Other(e)),
                }
                proof {
                    lemma_appended_trans(t1, t2, self.trace@, seq![BusOp::Exchange(Command::FlushTx.frame())], clear_tx_ops());
                    lemma_appended_trans(t0, t1, self.trace@, head, seq![BusOp::Exchange(Command::FlushTx.frame())] + clear_tx_ops());
                    assert(self.trace@[k] == t1[k]);
                    assert(head + (seq![BusOp::Exchange(Command::FlushTx.frame())] + clear_tx_ops()) =~=
                        transition_ops(old(self).mode, Mode::Tx, old(self).config) + (seq![read_op(FIFO_STATUS, 1)] + poll_ops(status.0, fifo)));
                }
                Ok(false)
            },
            Some(true) => {
                match self.clear_tx() {
                    Ok(()) => {},
                    Err(e) => return Err(nb::Error::Other(e)),
                }
                proof {
                    lemma_appended_trans(t0, t1, self.trace@, head, clear_tx_ops());
                    assert(self.trace@[k] == t1[k]);
                    assert(head + clear_tx_ops() =~=
                        transition_ops(old(self).mode, Mode::Tx, old(self).config) + (seq![read_op(FIFO_STATUS, 1)] + poll_ops(status.0, fifo)));
                }
                Ok(true)
            },
            None => {
                self.ce_enable();
                proof {
                    lemma_appended_trans(t0, t1, self.trace@, head, seq![BusOp::ChipEnable(true)]);
                    assert(self.trace@[k] == t1[k]);
                    assert(head + seq![BusOp::ChipEnable(true)] =~=
                        transition_ops(old(self).mode, Mode::Tx, old(self).config) + (seq![read_op(FIFO_STATUS, 1)] + poll_ops(status.0, fifo)));
                }
                Err(nb::Error::WouldBlock)
            },
        }
    }

    fn clear_tx_interrupts_and_ce(&mut self) -> (r: nb::Result<(), Self::Error>)
        ensures
            r is Ok ==> Self::forced_then(old(self), final(self), Mode::Tx, clear_tx_ops()),
            r is Err ==> r->Err_0 matches nb::Error::Other(Error::TransportFailure(_)),
            r matches Err(nb::Error::Other(_)) ==> Self::ended_in_failure(old(self), final(self)),
            r matches Err(nb::Error::Other(Error::TransportFailure(e))) ==> final(self).last_bus_error() == Some(e),
    {
        let ghost t0 = self.trace@;
        match self.change_mode(Mode::Tx) {
            Ok(()) => {},
            Err(e) => return Err(nb::Error::Other(e)),
        }
        let ghost t1 = self.trace@;
        match self.clear_tx() {
            Ok(()) => {},
            Err(e) => return Err(nb::Error::Other(e)),
        }
        proof {
            lemma_appended_trans(t0, t1, self.trace@, transition_ops(old(self).mode, Mode::Tx, old(self).config), clear_tx_ops());
        }
        Ok(())
    }

    fn wait_empty_step(&mut self) -> (r: Result<bool, Self::Error>)
        ensures
            r is Ok ==> Self::forced_then(
                old(self),
                final(self),
                Mode::Tx,
                seq![read_op(FIFO_STATUS, 1)] + wait_ops(
                    reply_status(Self::reply_after(old(self), final(self), Mode::Tx, 0)),
                    reply_byte(Self::reply_after(old(self), final(self), Mode::Tx, 0), 0),
                ),
            ),
            r is Ok ==> r->Ok_0 == bit_of(reply_byte(Self::reply_after(old(self), final(self), Mode::Tx, 0), 0), 4),
            r is Err ==> is_bus_failure(r),
            r is Err ==> Self::ended_in_failure(old(self), final(self)),
            r matches Err(Error::TransportFailure(e)) ==> final(self).last_bus_error() == Some(e),
    {
        let ghost t0 = self.trace@;
        let (status, fifo) = match self.tx_read_byte(FIFO_STATUS) {
            Ok(pair) => pair,
            Err(e) => return Err(e),
        };
        let ghost t1 = self.trace@;
        let ghost k: int = (t0.len() + transition_ops(old(self).mode, Mode::Tx, old(self).config).len()) as int;
        let ghost head = transition_ops(old(self).mode, Mode::Tx, old(self).config) + seq![read_op(FIFO_STATUS, 1)];
        let empty = FifoStatus(fifo).tx_empty();
        if !empty {
            self.ce_enable();
        } else {
            proof { lemma_appended_refl(t1); }
        }
        let ghost t2 = self.trace@;
        let ghost part1: Seq<BusOp> = if empty { seq![] } else { seq![BusOp::ChipEnable(true)] };
        // Transmission does not go on while MAX_RT is set, and the failed packet
        // stays in the TX FIFO: flush it and clear the flags.
        if status.max_rt() {
            match self.send_command(&Command::FlushTx) {
                Ok(_) => {},
                Err(e) => return Err(e),
            }
            let ghost t3 = self.trace@;
            match self.write_register_byte(STATUS, CLEAR_TX_IRQ) {
                Ok(_) => {},
                Err(e) => return Err(e),
            }
            proof {
                lemma_appended_trans(t2, t3, self.trace@, seq![BusOp::Exchange(Command::FlushTx.frame())], seq![write_op(STATUS, seq![CLEAR_TX_IRQ])]);
                assert(seq![BusOp::Exchange(Command::FlushTx.frame())] + seq![write_op(STATUS, seq![CLEAR_TX_IRQ])] =~=
                    seq![BusOp::Exchange(Command::FlushTx.frame()), write_op(STATUS, seq![CLEAR_TX_IRQ])]);
            }
        } else {
            proof { lemma_appended_refl(t2); }
        }
        let ghost t3 = self.trace@;
        let ghost part2: Seq<BusOp> = if status.0 >> 4u8 & 1u8 == 1u8 {
            seq![BusOp::Exchange(Command::FlushTx.frame()), write_op(STATUS, seq![CLEAR_TX_IRQ])]
        } else {
            seq![]
        };
        if empty {
            self.ce_disable();
        } else {
            proof { lemma_appended_refl(t3); }
        }
        let ghost part3: Seq<BusOp> = if empty { seq![BusOp::ChipEnable(false)] } else { seq![] };
        proof {
            lemma_appended_trans(t1, t2, t3, part1, part2);
            lemma_appended_trans(t1, t3, self.trace@, part1 + part2, part3);
            lemma_appended_trans(t0, t1, self.trace@, head, part1 + part2 + part3);
            assert(self.trace@[k] == t1[k]);
            assert(head + (part1 + part2 + part3) =~=
                transition_ops(old(self).mode, Mode::Tx, old(self).config) + (seq![read_op(FIFO_STATUS, 1)] + wait_ops(status.0, fifo)));
        }
        Ok(empty)
    }

    fn observe(&mut self) -> (r: Result<ObserveTx, Self::Error>)
        ensures
            r is Ok ==> Self::forced_then(old(self), final(self), Mode::Tx, seq![read_op(OBSERVE_TX, 1)]),
            r is Ok ==> r->Ok_0.0 == reply_byte(final(self).last_reply(), 0),
            r is Err ==> is_bus_failure(r),
            r is Err ==> Self::ended_in_failure(old(self), final(self)),
            r matches Err(Error::TransportFailure(e)) ==> final(self).last_bus_error() == Some(e),
    {
        match self.tx_read_byte(OBSERVE_TX) {
            Ok((_, observe_tx)) => Ok(ObserveTx(observe_tx)),
            Err(e) => Err(e),
        }
    }
}

} // verus!
