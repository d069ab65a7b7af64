//! Rebuilding the shadow state from the registers of the chip.
use vstd::prelude::*;

use crate::PIPES_COUNT;
use crate::bus::{no_failure, Bus, BusOp, appended, lemma_appended_refl, lemma_appended_trans, read_op};
use crate::command::reply_byte;
use crate::config::{NRF24L01Config, RetransmitConfig};
use crate::driver::{NRF24L01, is_bus_failure};
use crate::error::Error;
use crate::mode::Mode;
use crate::registers::{CONFIG, DYNPD, EN_AA, EN_RXADDR, RF_CH, RF_SETUP, RX_PW_P0, SETUP_AW, SETUP_RETR, bit_of, crc_mode_from, crc_of, data_rate_from, flags_of, interrupt_mask_from, interrupt_mask_of, length_of, pa_level_from, pa_of, payload_length_from, pipe_flags_from, rate_of};

verus! {

/// The registers that a resynchronisation reads, in order: control, RF setup,
/// channel, read enable, auto-acknowledge, retransmit, address width,
/// dynamic lengths, then the six static lengths.
pub open spec fn resync_registers() -> Seq<u8> {
    seq![
        CONFIG,
        RF_SETUP,
        RF_CH,
        EN_RXADDR,
        EN_AA,
        SETUP_RETR,
        SETUP_AW,
        DYNPD,
        RX_PW_P0,
        (RX_PW_P0 + 1) as u8,
        (RX_PW_P0 + 2) as u8,
        (RX_PW_P0 + 3) as u8,
        (RX_PW_P0 + 4) as u8,
        (RX_PW_P0 + 5) as u8,
    ]
}

/// Mode after a resynchronisation that read `config` from the control
/// register: power-down when the power bit is clear; otherwise the mode held
/// before, when the role bit agrees with it, else Standby.
pub open spec fn resynced_mode(before: Mode, config: u8) -> Mode {
    if !bit_of(config, 1) {
        Mode::PowerDown
    } else {
        match before {
            Mode::Rx => if bit_of(config, 0) { Mode::Rx } else { Mode::Standby },
            Mode::Tx => if !bit_of(config, 0) { Mode::Tx } else { Mode::Standby },
            _ => Mode::Standby,
        }
    }
}

/// Chip-enable is lowered when a resynchronisation takes the chip out of RX
/// or TX mode.
pub open spec fn resync_tail(before: Mode, config: u8) -> Seq<BusOp> {
    if (before == Mode::Rx || before == Mode::Tx) && resynced_mode(before, config) != before {
        seq![BusOp::ChipEnable(false)]
    } else {
        seq![]
    }
}

/// The reads of a resynchronisation.
pub open spec fn resync_reads() -> Seq<BusOp> {
    Seq::new(14, |k: int| read_op(resync_registers()[k], 1))
}

impl<'a, B: Bus> NRF24L01<'a, B> {
    /// Byte read back by the `k`-th operation after `before`.
    pub open spec fn read_back(before: &Self, after: &Self, k: int) -> u8 {
        reply_byte(after.trace()[before.trace().len() + k].reply, 0)
    }

    /// Rebuilds the shadow of the control register and the configuration
    /// from the registers of the chip, for use after a fault (an unexpected
    /// reset) may have made them diverge. The addresses are kept: the
    /// configuration holds them as given.
    pub fn resynchronize(&mut self) -> (r: Result<(), Error<B::Error>>)
        ensures
            r is Ok ==> final(self).current_mode() == resynced_mode(
                old(self).current_mode(),
                Self::read_back(old(self), final(self), 0),
            ),
            r is Ok ==> final(self).mode_bits_agree(),
            r is Ok ==> appended(old(self).trace(), final(self).trace(), resync_reads() + resync_tail(
                old(self).current_mode(),
                Self::read_back(old(self), final(self), 0),
            )),
            r is Ok ==> final(self).shadow() == Self::read_back(old(self), final(self), 0),
            r is Ok ==> final(self).settings() == (NRF24L01Config {
                data_rate: rate_of(Self::read_back(old(self), final(self), 1)),
                crc_mode: crc_of(Self::read_back(old(self), final(self), 0)),
                rf_channel: Self::read_back(old(self), final(self), 2) & 127u8,
                pa_level: pa_of(Self::read_back(old(self), final(self), 1)),
                interrupt_mask: interrupt_mask_of(Self::read_back(old(self), final(self), 0)),
                read_enabled_pipes: final(self).settings().read_enabled_pipes,
                retransmit_config: RetransmitConfig {
                    delay: Self::read_back(old(self), final(self), 5) >> 4u8,
                    count: Self::read_back(old(self), final(self), 5) & 15u8,
                },
                auto_ack_pipes: final(self).settings().auto_ack_pipes,
                address_width: ((Self::read_back(old(self), final(self), 6) & 3u8) + 2) as u8,
                pipe_payload_lengths: final(self).settings().pipe_payload_lengths,
                ..old(self).settings()
            }),
            r is Ok ==> final(self).settings().read_enabled_pipes@ == flags_of(Self::read_back(old(self), final(self), 3)),
            r is Ok ==> final(self).settings().auto_ack_pipes@ == flags_of(Self::read_back(old(self), final(self), 4)),
            r is Ok ==> final(self).settings().pipe_payload_lengths@ == Seq::new(6, |i: int| length_of(
                bit_of(Self::read_back(old(self), final(self), 7), i as u8),
                Self::read_back(old(self), final(self), 8 + i),
            )),
            r is Err ==> is_bus_failure(r),
            r is Err ==> Self::ended_in_failure(old(self), final(self)),
            r matches Err(Error::TransportFailure(e)) ==> final(self).last_bus_error() == Some(e),
            r is Ok ==> no_failure(old(self).trace(), final(self).trace()),
    {
        let regs: [u8; 14] = [
            CONFIG,
            RF_SETUP,
            RF_CH,
            EN_RXADDR,
            EN_AA,
            SETUP_RETR,
            SETUP_AW,
            DYNPD,
            RX_PW_P0,
            RX_PW_P0 + 1,
            RX_PW_P0 + 2,
            RX_PW_P0 + 3,
            RX_PW_P0 + 4,
            RX_PW_P0 + 5,
        ];
        assert(regs@ =~= resync_registers());
        let ghost t0 = self.trace@;
        proof {
            lemma_appended_refl(t0);
            assert(resync_reads().take(0) =~= seq![]);
        }
        let mut vals: Vec<u8> = Vec::new();
        let mut k: usize = 0;
        while k < 14
            invariant
                k <= 14,
                regs@ == resync_registers(),
                self.same_state(old(self)),
                t0 == old(self).trace(),
                vals@.len() == k,
                appended(t0, self.trace@, resync_reads().take(k as int)),
                no_failure(t0, self.trace@),
                forall|j: int| 0 <= j < k ==> vals@[j] == reply_byte(#[trigger] self.trace@[t0.len() + j].reply, 0),
            decreases 14 - k,
        {
            let ghost tb = self.trace@;
            let value = match self.read_register_byte(regs[k]) {
                Ok((_, value)) => value,
                Err(e) => return Err(e),
            };
            proof {
                lemma_appended_trans(t0, tb, self.trace@, resync_reads().take(k as int), seq![read_op(regs@[k as int], 1)]);
                assert(resync_reads().take(k as int) + seq![read_op(regs@[k as int], 1)] =~= resync_reads().take(k + 1));
                assert forall|j: int| 0 <= j < k implies #[trigger] self.trace@[t0.len() + j] == tb[t0.len() + j] by {
                    assert(self.trace@.subrange(0, tb.len() as int)[t0.len() + j] == tb[t0.len() + j]);
                }
            }
            vals.push(value);
            k = k + 1;
        }
        assert(resync_reads().take(14) =~= resync_reads());
        let dynamic = pipe_flags_from(vals[7]);
        let mut lengths: [Option<u8>; PIPES_COUNT] = [None; PIPES_COUNT];
        let mut i: usize = 0;
        while i < PIPES_COUNT
            invariant
                i <= PIPES_COUNT,
                vals@.len() == 14,
                dynamic@ == flags_of(vals@[7]),
                forall|j: int| 0 <= j < i ==> lengths@[j] == length_of(bit_of(vals@[7], j as u8), vals@[8 + j]),
            decreases PIPES_COUNT - i,
        {
            lengths[i] = payload_length_from(dynamic[i], vals[8 + i]);
            i = i + 1;
        }
        let width_code = vals[6];
        let aw = width_code & 3u8;
        assert(width_code & 3u8 <= 3u8) by (bit_vector);
        let control = vals[0];
        let powered = (control >> 1u8) & 1u8 == 1u8;
        let receiver = (control >> 0u8) & 1u8 == 1u8;
        let old_mode = self.mode;
        let mode = if !powered {
            Mode::PowerDown
        } else {
            match old_mode {
                Mode::Rx => if receiver { Mode::Rx } else { Mode::Standby },
                Mode::Tx => if !receiver { Mode::Tx } else { Mode::Standby },
                _ => Mode::Standby,
            }
        };
        let ghost t14 = self.trace@;
        let leaving = match old_mode {
            Mode::Rx | Mode::Tx => mode != old_mode,
            _ => false,
        };
        if leaving {
            self.ce_disable();
        } else {
            proof { lemma_appended_refl(t14); }
        }
        proof {
            lemma_appended_trans(t0, t14, self.trace@, resync_reads(), resync_tail(old_mode, control));
            assert forall|j: int| 0 <= j < 14 implies vals@[j] == reply_byte(#[trigger] self.trace@[t0.len() + j].reply, 0) by {
                assert(self.trace@[t0.len() + j] == self.trace@.subrange(0, t14.len() as int)[t0.len() + j]);
            }
        }
        self.mode = mode;
        self.config = control;
        self.nrf_config.crc_mode = crc_mode_from(vals[0]);
        self.nrf_config.interrupt_mask = interrupt_mask_from(vals[0]);
        self.nrf_config.data_rate = data_rate_from(vals[1]);
        self.nrf_config.pa_level = pa_level_from(vals[1]);
        self.nrf_config.rf_channel = vals[2] & 127u8;
        self.nrf_config.read_enabled_pipes = pipe_flags_from(vals[3]);
        self.nrf_config.auto_ack_pipes = pipe_flags_from(vals[4]);
        self.nrf_config.retransmit_config = RetransmitConfig { delay: vals[5] >> 4u8, count: vals[5] & 15u8 };
        self.nrf_config.address_width = aw + 2;
        self.nrf_config.pipe_payload_lengths = lengths;
        proof {
            assert(lengths@ =~= Seq::new(6, |j: int| length_of(bit_of(vals@[7], j as u8), vals@[8 + j])));
        }
        Ok(())
    }
}

} // verus!
