//! The driver: owns the bus, executes commands, keeps the shadow of the control
//! register and of the logical configuration, and records what it drove.
use vstd::prelude::*;

use crate::bus::{no_failure, no_exchange, Bus, BusOp, Event, appended, lemma_appended_nothing, lemma_appended_push, lemma_appended_refl, lemma_appended_trans, write_op};
use crate::command::{Command, read_frame, reply_byte, reply_bytes, reply_status, write_frame};
use crate::config::NRF24L01Config;
use crate::error::Error;
use crate::mode::{lemma_mode_bits, lemma_transition_keeps_agreement, mode_bits_agree, lemma_transition_without_exchange, ChangeModes, Mode, config_update_ops, leave_standby_ops, leave_standby_shadow, standby_ops, standby_shadow, transition_ops, transition_shadow};
use crate::registers::{bit_of, lemma_merge_bit, CONFIG, CONFIG_RESET, PRIM_RX, PWR_UP, SETUP_AW, Status, lemma_merge_idempotent, merge_bits};
use crate::rx::Rx;
use crate::tx::Tx;

pub mod configure;
pub mod receive;
pub mod resync;
pub mod transmit;

verus! {

/// Driver for the nRF24L01+.
pub struct NRF24L01<'a, B: Bus> {
    bus: B,
    config: u8,
    mode: Mode,
    nrf_config: NRF24L01Config<'a>,
    trace: Ghost<Seq<Event>>,
    bus_error: Ghost<Option<B::Error>>,
    chip_select_high: Ghost<bool>,
}

/// The result is a failure of the bus.
pub open spec fn is_bus_failure<T, E>(r: Result<T, Error<E>>) -> bool {
    r matches Err(Error::TransportFailure(_))
}

impl<'a, B: Bus> NRF24L01<'a, B> {
    /// The mode the chip is in.
    pub closed spec fn current_mode(&self) -> Mode {
        self.mode
    }

    /// The value last written to the control register.
    pub closed spec fn shadow(&self) -> u8 {
        self.config
    }

    /// The logical configuration last applied.
    pub closed spec fn settings(&self) -> NRF24L01Config<'a> {
        self.nrf_config
    }

    /// Everything driven on the bus since construction, with the replies.
    pub closed spec fn trace(&self) -> Seq<Event> {
        self.trace@
    }

    /// The error that the bus returned from the last failed exchange.
    pub closed spec fn last_bus_error(&self) -> Option<B::Error> {
        self.bus_error@
    }

    /// Chip-select is high: no transaction is under way.
    pub closed spec fn deselected(&self) -> bool {
        self.chip_select_high@
    }

    /// `after` is `before` with no failed exchange among the new events.
    pub open spec fn succeeded_since(before: &Self, after: &Self) -> bool {
        no_failure(before.trace(), after.trace())
    }

    /// The bytes clocked back during the last operation.
    pub open spec fn last_reply(&self) -> Seq<u8> {
        self.trace().last().reply
    }

    /// `after` ends with an exchange that the bus reported as failed, and
    /// nothing was driven after it.
    pub open spec fn ended_in_failure(before: &Self, after: &Self) -> bool {
        &&& after.trace().len() > before.trace().len()
        &&& after.trace().last().failed
    }

    /// The mode agrees with the control-register shadow (see `mode_bits_agree`).
    /// Construction establishes it, and mode changes and setters keep it.
    pub open spec fn mode_bits_agree(&self) -> bool {
        mode_bits_agree(self.current_mode(), self.shadow())
    }

    /// Mode, control register and configuration are those of `other`.
    pub open spec fn same_state(&self, other: &Self) -> bool {
        &&& self.current_mode() == other.current_mode()
        &&& self.shadow() == other.shadow()
        &&& self.settings() == other.settings()
    }

    /// `after` is `before` once the control-register bits under `mask` are
    /// set to those of `bits`, written only if that changes the value.
    pub open spec fn update_config_post(before: &Self, after: &Self, mask: u8, bits: u8) -> bool {
        &&& after.shadow() == merge_bits(before.shadow(), mask, bits)
        &&& after.current_mode() == before.current_mode()
        &&& after.settings() == before.settings()
        &&& appended(before.trace(), after.trace(), config_update_ops(before.shadow(), mask, bits))
        &&& no_failure(before.trace(), after.trace())
    }

    /// `after` is `before` once it went into mode `to` along the transition table.
    pub open spec fn mode_change_post(before: &Self, after: &Self, to: Mode) -> bool {
        &&& after.current_mode() == to
        &&& after.shadow() == transition_shadow(before.current_mode(), to, before.shadow())
        &&& after.settings() == before.settings()
        &&& appended(
            before.trace(),
            after.trace(),
            transition_ops(before.current_mode(), to, before.shadow()),
        )
        &&& no_failure(before.trace(), after.trace())
    }

    /// `after` is `before` once it was brought into mode `to` along the
    /// transition table and then drove `tail`.
    pub open spec fn forced_then(before: &Self, after: &Self, to: Mode, tail: Seq<BusOp>) -> bool {
        &&& after.current_mode() == to
        &&& after.shadow() == transition_shadow(before.current_mode(), to, before.shadow())
        &&& after.settings() == before.settings()
        &&& appended(
            before.trace(),
            after.trace(),
            transition_ops(before.current_mode(), to, before.shadow()) + tail,
        )
        &&& no_failure(before.trace(), after.trace())
    }

    /// The reply to the `j`-th operation that followed the transition into `to`.
    pub open spec fn reply_after(before: &Self, after: &Self, to: Mode, j: int) -> Seq<u8> {
        after.trace()[before.trace().len() + transition_ops(before.current_mode(), to, before.shadow()).len() + j].reply
    }

    /// An operation that brings the chip into a mode and then drives no
    /// control-register write keeps the mode and the control bits in agreement.
    pub proof fn lemma_forced_keeps_agreement(before: &Self, after: &Self, to: Mode, tail: Seq<BusOp>)
        requires
            Self::forced_then(before, after, to, tail),
            before.mode_bits_agree(),
        ensures
            after.mode_bits_agree(),
    {
        lemma_transition_keeps_agreement(before.current_mode(), to, before.shadow());
    }

    /// A second update of the control register with the same bits drives
    /// nothing on the bus and leaves the register as the first one left it.
    pub proof fn lemma_update_config_idempotent(d0: &Self, d1: &Self, d2: &Self, mask: u8, bits: u8)
        requires
            Self::update_config_post(d0, d1, mask, bits),
            Self::update_config_post(d1, d2, mask, bits),
        ensures
            d2.trace() == d1.trace(),
            d2.shadow() == d1.shadow(),
    {
        lemma_merge_idempotent(d0.shadow(), mask, bits);
        lemma_appended_nothing(d1.trace(), d2.trace());
    }

    /// From any mode, one transition reaches its target; the same transition
    /// once more drives nothing on the bus and changes nothing.
    pub proof fn lemma_mode_change_repeat(d0: &Self, d1: &Self, d2: &Self, to: Mode)
        requires
            Self::mode_change_post(d0, d1, to),
            Self::mode_change_post(d1, d2, to),
        ensures
            d1.current_mode() == to,
            d2.current_mode() == to,
            d2.trace() == d1.trace(),
            d2.shadow() == d1.shadow(),
    {
        lemma_appended_nothing(d1.trace(), d2.trace());
    }

    /// Constructs a driver: chip-enable low, a connectivity probe of the
    /// address-width register, then power-up. The chip is then in Standby.
    pub fn new(bus: B) -> (r: Result<Self, Error<B::Error>>)
        ensures
            r matches Ok(d) ==> {
                &&& d.current_mode() == Mode::Standby
                &&& d.shadow() == merge_bits(CONFIG_RESET, PWR_UP, PWR_UP)
                &&& d.settings().is_initial()
                &&& d.mode_bits_agree()
                &&& no_failure(seq![], d.trace())
                &&& appended(
                    seq![],
                    d.trace(),
                    seq![
                        BusOp::ChipEnable(false),
                        BusOp::Exchange(read_frame(SETUP_AW, 1)),
                        BusOp::Exchange(write_frame(CONFIG, seq![merge_bits(CONFIG_RESET, PWR_UP, PWR_UP)])),
                    ],
                )
                &&& reply_byte(d.trace()[1].reply, 0) <= 3
            },
            r is Err ==> r->Err_0 is TransportFailure || r->Err_0 is NotConnected,
    {
        let mut bus = bus;
        bus.set_ce(false);
        bus.set_csn(true);
        let ghost first = Event { op: BusOp::ChipEnable(false), reply: seq![], failed: false, framed: false };
        let trace: Ghost<Seq<Event>> = Ghost(Seq::empty().push(first));
        let bus_error: Ghost<Option<B::Error>> = Ghost(None);
        let chip_select_high: Ghost<bool> = Ghost(true);
        let mut device = NRF24L01 {
            bus,
            config: CONFIG_RESET,
            mode: Mode::Standby,
            nrf_config: NRF24L01Config::default(),
            trace,
            bus_error,
            chip_select_high,
        };
        proof {
            lemma_appended_push(seq![], first);
            assert(seq![].push(first) =~= device.trace@);
        }
        let ghost t1 = device.trace@;
        match device.probe_and_power_up() {
            Err(e) => return Err(e),
            Ok(()) => {},
        }
        proof {
            assert((8u8 & !2u8) | (2u8 & 2u8) == 10u8) by (bit_vector);
            assert((10u8 >> 1u8) & 1u8 == 1u8) by (bit_vector);
            lemma_appended_trans(seq![], t1, device.trace@, seq![BusOp::ChipEnable(false)],
                seq![BusOp::Exchange(read_frame(SETUP_AW, 1))] + config_update_ops(CONFIG_RESET, PWR_UP, PWR_UP));
            assert(seq![BusOp::ChipEnable(false)] + (seq![BusOp::Exchange(read_frame(SETUP_AW, 1))]
                + config_update_ops(CONFIG_RESET, PWR_UP, PWR_UP)) =~= seq![
                        BusOp::ChipEnable(false),
                        BusOp::Exchange(read_frame(SETUP_AW, 1)),
                        BusOp::Exchange(write_frame(CONFIG, seq![merge_bits(CONFIG_RESET, PWR_UP, PWR_UP)])),
                    ]);
        }
        Ok(device)
    }

    /// The address-width probe: the first operation after `before`.
    pub open spec fn probe_event(before: &Self, after: &Self) -> Event {
        after.trace()[before.trace().len() as int]
    }

    /// The probe read back a value that no chip holds.
    pub open spec fn probe_implausible(before: &Self, after: &Self) -> bool {
        !Self::probe_event(before, after).failed && reply_byte(Self::probe_event(before, after).reply, 0) > 3
    }

    /// Probes the address-width register and, when it holds a value that a
    /// chip can hold, powers the chip up (a control-register write only if the
    /// power bit is not set yet). A chip that answers implausibly is reported
    /// as not connected, and nothing is driven after the probe.
    pub fn probe_and_power_up(&mut self) -> (r: Result<(), Error<B::Error>>)
        ensures
            final(self).current_mode() == old(self).current_mode(),
            final(self).settings() == old(self).settings(),
            final(self).trace().len() > old(self).trace().len(),
            final(self).trace().subrange(0, old(self).trace().len() as int) == old(self).trace(),
            Self::probe_event(old(self), final(self)).op == BusOp::Exchange(read_frame(SETUP_AW, 1)),
            (r matches Err(Error::NotConnected)) == Self::probe_implausible(old(self), final(self)),
            Self::probe_implausible(old(self), final(self)) ==> final(self).trace().len() == old(self).trace().len() + 1
                && final(self).shadow() == old(self).shadow(),
            Self::probe_event(old(self), final(self)).failed ==> is_bus_failure(r)
                && final(self).trace().len() == old(self).trace().len() + 1,
            r is Ok ==> final(self).shadow() == merge_bits(old(self).shadow(), PWR_UP, PWR_UP) && appended(
                old(self).trace(),
                final(self).trace(),
                seq![BusOp::Exchange(read_frame(SETUP_AW, 1))] + config_update_ops(old(self).shadow(), PWR_UP, PWR_UP),
            ),
            r is Err ==> Self::probe_implausible(old(self), final(self)) || (is_bus_failure(r)
                && Self::ended_in_failure(old(self), final(self))),
            !Self::probe_event(old(self), final(self)).failed && !Self::probe_implausible(old(self), final(self))
                && merge_bits(old(self).shadow(), PWR_UP, PWR_UP) == old(self).shadow() ==> r is Ok,
            r matches Err(Error::TransportFailure(e)) ==> final(self).last_bus_error() == Some(e),
            r is Ok ==> no_failure(old(self).trace(), final(self).trace()),
    {
        let ghost t0 = self.trace@;
        let probe = self.is_connected();
        proof {
            assert(self.trace@[t0.len() + 0int].op == seq![BusOp::Exchange(read_frame(SETUP_AW, 1))][0]);
        }
        let connected = match probe {
            Err(e) => return Err(e),
            Ok(connected) => connected,
        };
        if !connected {
            return Err(Error::NotConnected);
        }
        let ghost t1 = self.trace@;
        let r = self.update_config(PWR_UP, PWR_UP);
        proof {
            assert(self.trace@[t0.len() as int] == self.trace@.subrange(0, t1.len() as int)[t0.len() as int]);
            assert(self.trace@.subrange(0, t0.len() as int) =~= t1.subrange(0, t0.len() as int));
            if r is Ok {
                lemma_appended_trans(t0, t1, self.trace@, seq![BusOp::Exchange(read_frame(SETUP_AW, 1))],
                    config_update_ops(old(self).config, PWR_UP, PWR_UP));
            }
        }
        r
    }

    /// Reads the address-width register and tells whether its value is one a
    /// chip can hold (at most 3: the two-bit field, reserved bits clear).
    pub fn is_connected(&mut self) -> (r: Result<bool, Error<B::Error>>)
        ensures
            final(self).same_state(old(self)),
            appended(old(self).trace(), final(self).trace(), seq![BusOp::Exchange(read_frame(SETUP_AW, 1))]),
            r is Ok ==> r->Ok_0 == (reply_byte(final(self).last_reply(), 0) <= 3),
            (r is Err) == final(self).trace().last().failed,
            r is Ok ==> no_failure(old(self).trace(), final(self).trace()),
            r matches Err(Error::TransportFailure(e)) ==> final(self).last_bus_error() == Some(e),
            r is Err ==> is_bus_failure(r),
    {
        match self.read_register_byte(SETUP_AW) {
            Ok((_, setup_aw)) => Ok(setup_aw <= 3),
            Err(e) => Err(e),
        }
    }

    /// Drives chip-enable high: radio activity starts.
    pub fn ce_enable(&mut self)
        ensures
            final(self).same_state(old(self)),
            appended(old(self).trace(), final(self).trace(), seq![BusOp::ChipEnable(true)]),
            no_failure(old(self).trace(), final(self).trace()),
    {
        self.bus.set_ce(true);
        let ghost e = Event { op: BusOp::ChipEnable(true), reply: seq![], failed: false, framed: false };
        proof { lemma_appended_push(self.trace@, e); }
        self.trace = Ghost(self.trace@.push(e));
    }

    /// Drives chip-enable low: radio activity stops.
    pub fn ce_disable(&mut self)
        ensures
            final(self).same_state(old(self)),
            appended(old(self).trace(), final(self).trace(), seq![BusOp::ChipEnable(false)]),
            no_failure(old(self).trace(), final(self).trace()),
    {
        self.bus.set_ce(false);
        let ghost e = Event { op: BusOp::ChipEnable(false), reply: seq![], failed: false, framed: false };
        proof { lemma_appended_push(self.trace@, e); }
        self.trace = Ghost(self.trace@.push(e));
    }

    /// Executes one command as one transaction: chip-select low, the exchange,
    /// chip-select high (also when the exchange failed), then the reply decoded.
    pub fn send_command(&mut self, command: &Command) -> (r: Result<(Status, Vec<u8>), Error<B::Error>>)
        requires
            command.valid(),
        ensures
            final(self).same_state(old(self)),
            appended(old(self).trace(), final(self).trace(), seq![BusOp::Exchange(command.frame())]),
            r is Ok ==> r->Ok_0.0.0 == reply_status(final(self).last_reply()),
            r is Ok ==> r->Ok_0.1@ == reply_bytes(final(self).last_reply(), command.response_len()),
            (r is Err) == final(self).trace().last().failed,
            r is Err ==> is_bus_failure(r),
            r matches Err(Error::TransportFailure(e)) ==> final(self).last_bus_error() == Some(e),
            r is Ok ==> no_failure(old(self).trace(), final(self).trace()),
            final(self).trace().last().framed,
            final(self).deselected(),
    {
        let buf = command.encode();
        self.bus.set_csn(false);
        self.chip_select_high = Ghost(false);
        let transfer_result = self.bus.transfer(buf.as_slice());
        let ghost framed = !self.chip_select_high@;
        self.bus.set_csn(true);
        self.chip_select_high = Ghost(true);
        match transfer_result {
            Ok(reply) => {
                let ghost e = Event { op: BusOp::Exchange(buf@), reply: reply@, failed: false, framed };
                proof { lemma_appended_push(self.trace@, e); }
                self.trace = Ghost(self.trace@.push(e));
                Ok(command.decode_response(reply.as_slice()))
            },
            Err(err) => {
                let ghost e = Event { op: BusOp::Exchange(buf@), reply: seq![], failed: true, framed };
                proof { lemma_appended_push(self.trace@, e); }
                self.trace = Ghost(self.trace@.push(e));
                self.bus_error = Ghost(Some(err));
                Err(Error::TransportFailure(err))
            },
        }
    }

    /// Writes `data` into the register at `addr`; returns the status byte.
    pub fn write_register(&mut self, addr: u8, data: Vec<u8>) -> (r: Result<Status, Error<B::Error>>)
        requires
            addr < 32,
            data@.len() <= 32,
        ensures
            final(self).same_state(old(self)),
            appended(old(self).trace(), final(self).trace(), seq![BusOp::Exchange(write_frame(addr, data@))]),
            r is Ok ==> r->Ok_0.0 == reply_status(final(self).last_reply()),
            (r is Err) == final(self).trace().last().failed,
            r is Ok ==> no_failure(old(self).trace(), final(self).trace()),
            r matches Err(Error::TransportFailure(e)) ==> final(self).last_bus_error() == Some(e),
            r is Err ==> is_bus_failure(r),
    {
        let ghost d = data@;
        let command = Command::WriteRegister { addr, data };
        match self.send_command(&command) {
            Ok((status, _)) => Ok(status),
            Err(e) => Err(e),
        }
    }

    /// Writes a one-byte register.
    pub fn write_register_byte(&mut self, addr: u8, value: u8) -> (r: Result<Status, Error<B::Error>>)
        requires
            addr < 32,
        ensures
            final(self).same_state(old(self)),
            appended(old(self).trace(), final(self).trace(), seq![write_op(addr, seq![value])]),
            r is Ok ==> r->Ok_0.0 == reply_status(final(self).last_reply()),
            (r is Err) == final(self).trace().last().failed,
            r is Ok ==> no_failure(old(self).trace(), final(self).trace()),
            r matches Err(Error::TransportFailure(e)) ==> final(self).last_bus_error() == Some(e),
            r is Err ==> is_bus_failure(r),
    {
        let data = vec![value];
        assert(data@ =~= seq![value]);
        self.write_register(addr, data)
    }

    /// Reads `width` bytes of the register at `addr`.
    pub fn read_register(&mut self, addr: u8, width: usize) -> (r: Result<(Status, Vec<u8>), Error<B::Error>>)
        requires
            addr < 32,
            width <= 32,
        ensures
            final(self).same_state(old(self)),
            appended(old(self).trace(), final(self).trace(), seq![BusOp::Exchange(read_frame(addr, width as nat))]),
            r is Ok ==> r->Ok_0.0.0 == reply_status(final(self).last_reply()),
            r is Ok ==> r->Ok_0.1@ == reply_bytes(final(self).last_reply(), width as nat),
            (r is Err) == final(self).trace().last().failed,
            r is Ok ==> no_failure(old(self).trace(), final(self).trace()),
            r matches Err(Error::TransportFailure(e)) ==> final(self).last_bus_error() == Some(e),
            r is Err ==> is_bus_failure(r),
    {
        let command = Command::ReadRegister { addr, width };
        self.send_command(&command)
    }

    /// Reads a one-byte register.
    pub fn read_register_byte(&mut self, addr: u8) -> (r: Result<(Status, u8), Error<B::Error>>)
        requires
            addr < 32,
        ensures
            final(self).same_state(old(self)),
            appended(old(self).trace(), final(self).trace(), seq![BusOp::Exchange(read_frame(addr, 1))]),
            r is Ok ==> r->Ok_0.0.0 == reply_status(final(self).last_reply()),
            r is Ok ==> r->Ok_0.1 == reply_byte(final(self).last_reply(), 0),
            (r is Err) == final(self).trace().last().failed,
            r is Ok ==> no_failure(old(self).trace(), final(self).trace()),
            r matches Err(Error::TransportFailure(e)) ==> final(self).last_bus_error() == Some(e),
            r is Err ==> is_bus_failure(r),
    {
        match self.read_register(addr, 1) {
            Ok((status, bytes)) => {
                assert(bytes@[0] == reply_byte(self.last_reply(), 0));
                Ok((status, bytes[0]))
            },
            Err(e) => Err(e),
        }
    }

    /// Sets the control-register bits under `mask` to those of `bits`; the
    /// register is written only if that changes its value.
    pub fn update_config(&mut self, mask: u8, bits: u8) -> (r: Result<(), Error<B::Error>>)
        ensures
            r is Ok ==> Self::update_config_post(old(self), final(self), mask, bits),
            merge_bits(old(self).shadow(), mask, bits) == old(self).shadow() ==> r is Ok
                && final(self).trace() == old(self).trace(),
            r is Err ==> is_bus_failure(r) && final(self).same_state(old(self)),
            r is Err ==> Self::ended_in_failure(old(self), final(self)) && appended(
                old(self).trace(),
                final(self).trace(),
                config_update_ops(old(self).shadow(), mask, bits),
            ),
            old(self).mode_bits_agree() && !bit_of(mask, 0) && !bit_of(mask, 1) ==> final(self).mode_bits_agree(),
            r matches Err(Error::TransportFailure(e)) ==> final(self).last_bus_error() == Some(e),
    {
        proof {
            lemma_merge_bit(self.config, mask, bits, 0);
            lemma_merge_bit(self.config, mask, bits, 1);
        }
        let new_config = (self.config & !mask) | (bits & mask);
        if new_config != self.config {
            let data = vec![new_config];
            assert(data@ =~= seq![new_config]);
            match self.write_register(CONFIG, data) {
                Ok(_) => {},
                Err(e) => return Err(e),
            }
            self.config = new_config;
        } else {
            proof { lemma_appended_refl(self.trace@); }
        }
        Ok(())
    }

    /// Moves the chip into `to` along the transition table: a transition
    /// between two modes other than Standby passes through Standby.
    fn change_mode(&mut self, to: Mode) -> (r: Result<(), Error<B::Error>>)
        ensures
            r is Ok ==> Self::mode_change_post(old(self), final(self), to),
            no_exchange(transition_ops(old(self).current_mode(), to, old(self).shadow())) ==> r is Ok,
            old(self).current_mode() == to ==> r is Ok && final(self).trace() == old(self).trace()
                && final(self).same_state(old(self)),
            r is Err ==> is_bus_failure(r) && final(self).settings() == old(self).settings(),
            r is Err ==> Self::ended_in_failure(old(self), final(self)),
            r is Ok && old(self).mode_bits_agree() ==> final(self).mode_bits_agree(),
            r matches Err(Error::TransportFailure(e)) ==> final(self).last_bus_error() == Some(e),
            r is Err ==> exists|n: int| 0 <= n < transition_ops(old(self).current_mode(), to, old(self).shadow()).len()
                && #[trigger] appended(old(self).trace(), final(self).trace(),
                    transition_ops(old(self).current_mode(), to, old(self).shadow()).take(n + 1)),
            r is Err && old(self).mode_bits_agree() ==> final(self).mode_bits_agree(),
    {
        proof {
            if mode_bits_agree(self.mode, self.config) {
                lemma_transition_keeps_agreement(self.mode, to, self.config);
            }
        }
        let ghost t0 = self.trace@;
        let ghost m0 = self.mode;
        let ghost s0 = self.config;
        if self.mode == to {
            proof { lemma_appended_refl(t0); }
            return Ok(());
        }
        proof {
            if no_exchange(transition_ops(m0, to, s0)) {
                lemma_transition_without_exchange(m0, to, s0);
            }
        }
        proof {
            lemma_mode_bits(1);
            lemma_merge_bit(s0, PWR_UP, PWR_UP, 1);
        }
        match self.mode {
            Mode::PowerDown => {
                match self.update_config(PWR_UP, PWR_UP) {
                    Ok(()) => {},
                    Err(e) => {
                        proof {
                            let ops = transition_ops(m0, to, s0);
                            assert(ops.take(1) =~= config_update_ops(s0, PWR_UP, PWR_UP));
                            assert(appended(t0, self.trace@, ops.take(0int + 1)));
                        }
                        return Err(e);
                    },
                }
            },
            Mode::Rx | Mode::Tx => {
                self.ce_disable();
            },
            Mode::Standby => {
                proof { lemma_appended_refl(t0); }
            },
        }
        self.mode = Mode::Standby;
        let ghost t1 = self.trace@;
        let ghost s1 = self.config;
        assert(s1 == standby_shadow(m0, s0));
        match to {
            Mode::Standby => {
                proof { lemma_appended_refl(t1); }
            },
            Mode::PowerDown => {
                match self.update_config(PWR_UP, 0) {
                    Ok(()) => {},
                    Err(e) => {
                        proof {
                            let ops = transition_ops(m0, to, s0);
                            let n = standby_ops(m0, s0).len() as int;
                            lemma_appended_trans(t0, t1, self.trace@, standby_ops(m0, s0), config_update_ops(s1, PWR_UP, 0));
                            assert(ops.take(n + 1) =~= standby_ops(m0, s0) + config_update_ops(s1, PWR_UP, 0));
                        }
                        return Err(e);
                    },
                }
            },
            Mode::Rx => {
                match self.update_config(PRIM_RX, PRIM_RX) {
                    Ok(()) => {},
                    Err(e) => {
                        proof {
                            let ops = transition_ops(m0, to, s0);
                            let n = standby_ops(m0, s0).len() as int;
                            lemma_appended_trans(t0, t1, self.trace@, standby_ops(m0, s0), config_update_ops(s1, PRIM_RX, PRIM_RX));
                            assert(ops.take(n + 1) =~= standby_ops(m0, s0) + config_update_ops(s1, PRIM_RX, PRIM_RX));
                        }
                        return Err(e);
                    },
                }
                let ghost t2 = self.trace@;
                self.ce_enable();
                proof {
                    lemma_appended_trans(t1, t2, self.trace@, config_update_ops(s1, PRIM_RX, PRIM_RX), seq![BusOp::ChipEnable(true)]);
                    assert(config_update_ops(s1, PRIM_RX, PRIM_RX) + seq![BusOp::ChipEnable(true)]
                        =~= leave_standby_ops(to, s1));
                }
            },
            Mode::Tx => {
                match self.update_config(PRIM_RX, 0) {
                    Ok(()) => {},
                    Err(e) => {
                        proof {
                            let ops = transition_ops(m0, to, s0);
                            let n = standby_ops(m0, s0).len() as int;
                            lemma_appended_trans(t0, t1, self.trace@, standby_ops(m0, s0), config_update_ops(s1, PRIM_RX, 0));
                            assert(ops.take(n + 1) =~= standby_ops(m0, s0) + config_update_ops(s1, PRIM_RX, 0));
                        }
                        return Err(e);
                    },
                }
            },
        }
        self.mode = to;
        proof {
            lemma_appended_trans(t0, t1, self.trace@, standby_ops(m0, s0), leave_standby_ops(to, s1));
        }
        assert(self.config == leave_standby_shadow(to, s1));
        Ok(())
    }
}

impl<'a, B: Bus> ChangeModes for NRF24L01<'a, B> {
    type Error = Error<B::Error>;

    fn to_standby(&mut self) -> (r: Result<(), Self::Error>)
        ensures
            r is Ok ==> Self::mode_change_post(old(self), final(self), Mode::Standby),
            no_exchange(transition_ops(old(self).current_mode(), Mode::Standby, old(self).shadow())) ==> r is Ok,
            old(self).current_mode() == Mode::Standby ==> r is Ok && final(self).trace() == old(self).trace()
                && final(self).same_state(old(self)),
            r is Ok && old(self).mode_bits_agree() ==> final(self).mode_bits_agree(),
            r is Err ==> is_bus_failure(r) && final(self).settings() == old(self).settings(),
            r is Err ==> Self::ended_in_failure(old(self), final(self)),
            r matches Err(Error::TransportFailure(e)) ==> final(self).last_bus_error() == Some(e),
            r is Err ==> exists|n: int| 0 <= n < transition_ops(old(self).current_mode(), Mode::Standby, old(self).shadow()).len()
                && #[trigger] appended(old(self).trace(), final(self).trace(),
                    transition_ops(old(self).current_mode(), Mode::Standby, old(self).shadow()).take(n + 1)),
            r is Err && old(self).mode_bits_agree() ==> final(self).mode_bits_agree(),
    {
        self.change_mode(Mode::Standby)
    }

    fn to_power_down(&mut self) -> (r: Result<(), Self::Error>)
        ensures
            r is Ok ==> Self::mode_change_post(old(self), final(self), Mode::PowerDown),
            no_exchange(transition_ops(old(self).current_mode(), Mode::PowerDown, old(self).shadow())) ==> r is Ok,
            old(self).current_mode() == Mode::PowerDown ==> r is Ok && final(self).trace() == old(self).trace()
                && final(self).same_state(old(self)),
            r is Ok && old(self).mode_bits_agree() ==> final(self).mode_bits_agree(),
            r is Err ==> is_bus_failure(r) && final(self).settings() == old(self).settings(),
            r is Err ==> Self::ended_in_failure(old(self), final(self)),
            r matches Err(Error::TransportFailure(e)) ==> final(self).last_bus_error() == Some(e),
            r is Err ==> exists|n: int| 0 <= n < transition_ops(old(self).current_mode(), Mode::PowerDown, old(self).shadow()).len()
                && #[trigger] appended(old(self).trace(), final(self).trace(),
                    transition_ops(old(self).current_mode(), Mode::PowerDown, old(self).shadow()).take(n + 1)),
            r is Err && old(self).mode_bits_agree() ==> final(self).mode_bits_agree(),
    {
        self.change_mode(Mode::PowerDown)
    }

    fn to_rx(&mut self) -> (r: Result<(), Self::Error>)
        ensures
            r is Ok ==> Self::mode_change_post(old(self), final(self), Mode::Rx),
            no_exchange(transition_ops(old(self).current_mode(), Mode::Rx, old(self).shadow())) ==> r is Ok,
            old(self).current_mode() == Mode::Rx ==> r is Ok && final(self).trace() == old(self).trace()
                && final(self).same_state(old(self)),
            r is Ok && old(self).mode_bits_agree() ==> final(self).mode_bits_agree(),
            r is Err ==> is_bus_failure(r) && final(self).settings() == old(self).settings(),
            r is Err ==> Self::ended_in_failure(old(self), final(self)),
            r matches Err(Error::TransportFailure(e)) ==> final(self).last_bus_error() == Some(e),
            r is Err ==> exists|n: int| 0 <= n < transition_ops(old(self).current_mode(), Mode::Rx, old(self).shadow()).len()
                && #[trigger] appended(old(self).trace(), final(self).trace(),
                    transition_ops(old(self).current_mode(), Mode::Rx, old(self).shadow()).take(n + 1)),
            r is Err && old(self).mode_bits_agree() ==> final(self).mode_bits_agree(),
    {
        self.change_mode(Mode::Rx)
    }

    fn to_tx(&mut self) -> (r: Result<(), Self::Error>)
        ensures
            r is Ok ==> Self::mode_change_post(old(self), final(self), Mode::Tx),
            no_exchange(transition_ops(old(self).current_mode(), Mode::Tx, old(self).shadow())) ==> r is Ok,
            old(self).current_mode() == Mode::Tx ==> r is Ok && final(self).trace() == old(self).trace()
                && final(self).same_state(old(self)),
            r is Ok && old(self).mode_bits_agree() ==> final(self).mode_bits_agree(),
            r is Err ==> is_bus_failure(r) && final(self).settings() == old(self).settings(),
            r is Err ==> Self::ended_in_failure(old(self), final(self)),
            r matches Err(Error::TransportFailure(e)) ==> final(self).last_bus_error() == Some(e),
            r is Err ==> exists|n: int| 0 <= n < transition_ops(old(self).current_mode(), Mode::Tx, old(self).shadow()).len()
                && #[trigger] appended(old(self).trace(), final(self).trace(),
                    transition_ops(old(self).current_mode(), Mode::Tx, old(self).shadow()).take(n + 1)),
            r is Err && old(self).mode_bits_agree() ==> final(self).mode_bits_agree(),
    {
        self.change_mode(Mode::Tx)
    }
}

} // verus!
