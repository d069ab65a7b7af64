//! Operating modes of the chip and the transition table between them.
use vstd::prelude::*;

use crate::bus::{lemma_no_exchange_split, no_exchange, BusOp};
use crate::command::write_frame;
use crate::registers::{bit_of, lemma_merge_bit, merge_bits, CONFIG, PRIM_RX, PWR_UP};

verus! {

/// Mode of the nRF24L01+.
#[derive(Clone, Copy, Debug, PartialEq, Eq, Structural)]
pub enum Mode {
    /// Standby-I: low power, ready to switch quickly; the mode after power-up.
    Standby,
    /// Power down: minimal current, registers kept, slow to leave.
    PowerDown,
    /// Receiving: packets are put into the RX FIFO.
    Rx,
    /// Transmitting: packets are sent from the TX FIFO while chip-enable is high.
    Tx,
}

/// Change the device between the modes of the datasheet.
pub trait ChangeModes {
    /// Failure of a transition (a bus failure).
    type Error;

    /// Converts the device into Standby-I.
    fn to_standby(&mut self) -> Result<(), Self::Error>;

    /// Converts the device into power-down mode.
    fn to_power_down(&mut self) -> Result<(), Self::Error>;

    /// Converts the device into RX mode.
    fn to_rx(&mut self) -> Result<(), Self::Error>;

    /// Converts the device into TX mode (Standby-II while the TX FIFO is empty).
    fn to_tx(&mut self) -> Result<(), Self::Error>;
}

/// Bus operations of a control-register update that sets the bits under
/// `mask` to those of `bits`: one write when the value changes, none otherwise.
pub open spec fn config_update_ops(shadow: u8, mask: u8, bits: u8) -> Seq<BusOp> {
    if merge_bits(shadow, mask, bits) == shadow {
        seq![]
    } else {
        seq![BusOp::Exchange(write_frame(CONFIG, seq![merge_bits(shadow, mask, bits)]))]
    }
}

/// Operations that bring the chip from `from` into Standby.
pub open spec fn standby_ops(from: Mode, shadow: u8) -> Seq<BusOp> {
    match from {
        Mode::Standby => seq![],
        Mode::PowerDown => config_update_ops(shadow, PWR_UP, PWR_UP),
        Mode::Rx | Mode::Tx => seq![BusOp::ChipEnable(false)],
    }
}

/// Control register once the chip is in Standby after leaving `from`.
pub open spec fn standby_shadow(from: Mode, shadow: u8) -> u8 {
    if from == Mode::PowerDown {
        merge_bits(shadow, PWR_UP, PWR_UP)
    } else {
        shadow
    }
}

/// Operations that bring the chip from Standby into `to`.
pub open spec fn leave_standby_ops(to: Mode, shadow: u8) -> Seq<BusOp> {
    match to {
        Mode::Standby => seq![],
        Mode::PowerDown => config_update_ops(shadow, PWR_UP, 0),
        Mode::Rx => config_update_ops(shadow, PRIM_RX, PRIM_RX).push(BusOp::ChipEnable(true)),
        Mode::Tx => config_update_ops(shadow, PRIM_RX, 0),
    }
}

/// Control register once the chip is in `to` after leaving Standby.
pub open spec fn leave_standby_shadow(to: Mode, shadow: u8) -> u8 {
    match to {
        Mode::Standby => shadow,
        Mode::PowerDown => merge_bits(shadow, PWR_UP, 0),
        Mode::Rx => merge_bits(shadow, PRIM_RX, PRIM_RX),
        Mode::Tx => merge_bits(shadow, PRIM_RX, 0),
    }
}

/// The transition table: nothing when already there, else into Standby and
/// from there into the target.
pub open spec fn transition_ops(from: Mode, to: Mode, shadow: u8) -> Seq<BusOp> {
    if from == to {
        seq![]
    } else {
        standby_ops(from, shadow) + leave_standby_ops(to, standby_shadow(from, shadow))
    }
}

/// Control register after the transition from `from` to `to`.
pub open spec fn transition_shadow(from: Mode, to: Mode, shadow: u8) -> u8 {
    if from == to {
        shadow
    } else {
        leave_standby_shadow(to, standby_shadow(from, shadow))
    }
}

/// A control-register update that needs no transaction changes nothing.
pub proof fn lemma_update_without_exchange(shadow: u8, mask: u8, bits: u8)
    requires
        no_exchange(config_update_ops(shadow, mask, bits)),
    ensures
        merge_bits(shadow, mask, bits) == shadow,
{
    if merge_bits(shadow, mask, bits) != shadow {
        assert(config_update_ops(shadow, mask, bits)[0] is Exchange);
    }
}

/// A transition that needs no transaction needs none in either of its halves,
/// and none of its control-register updates changes anything.
pub proof fn lemma_transition_without_exchange(from: Mode, to: Mode, shadow: u8)
    requires
        from != to,
        no_exchange(transition_ops(from, to, shadow)),
    ensures
        from == Mode::PowerDown ==> merge_bits(shadow, PWR_UP, PWR_UP) == shadow,
        to == Mode::PowerDown ==> merge_bits(standby_shadow(from, shadow), PWR_UP, 0) == standby_shadow(from, shadow),
        to == Mode::Rx ==> merge_bits(standby_shadow(from, shadow), PRIM_RX, PRIM_RX) == standby_shadow(from, shadow),
        to == Mode::Tx ==> merge_bits(standby_shadow(from, shadow), PRIM_RX, 0) == standby_shadow(from, shadow),
{
    let s1 = standby_shadow(from, shadow);
    lemma_no_exchange_split(standby_ops(from, shadow), leave_standby_ops(to, s1));
    if from == Mode::PowerDown {
        lemma_update_without_exchange(shadow, PWR_UP, PWR_UP);
    }
    match to {
        Mode::PowerDown => lemma_update_without_exchange(s1, PWR_UP, 0),
        Mode::Rx => {
            let cu = config_update_ops(s1, PRIM_RX, PRIM_RX);
            assert(cu.push(BusOp::ChipEnable(true)) =~= cu + seq![BusOp::ChipEnable(true)]);
            lemma_no_exchange_split(cu, seq![BusOp::ChipEnable(true)]);
            lemma_update_without_exchange(s1, PRIM_RX, PRIM_RX);
        },
        Mode::Tx => lemma_update_without_exchange(s1, PRIM_RX, 0),
        Mode::Standby => {},
    }
}

/// Bits of the two control-register masks that transitions use, and of 0.
pub proof fn lemma_mode_bits(n: u8)
    requires
        n < 8,
    ensures
        bit_of(PWR_UP, n) == (n == 1),
        bit_of(PRIM_RX, n) == (n == 0),
        !bit_of(0, n),
{
    assert(((2u8 >> n) & 1u8 == 1u8) == (n == 1u8)) by (bit_vector)
        requires
            n < 8,
    ;
    assert(((1u8 >> n) & 1u8 == 1u8) == (n == 0u8)) by (bit_vector)
        requires
            n < 8,
    ;
    assert(!((0u8 >> n) & 1u8 == 1u8)) by (bit_vector);
}

/// What a transition between two different modes leaves in the control
/// register: the role bit (bit 0) selects receiver in RX mode and transmitter
/// in TX mode, power-down clears the power bit (bit 1) and leaving power-down
/// sets it, and no other bit (CRC, interrupt masks) changes.
pub proof fn lemma_transition_bits(from: Mode, to: Mode, shadow: u8, n: u8)
    requires
        from != to,
        n < 8,
    ensures
        to == Mode::Rx ==> bit_of(transition_shadow(from, to, shadow), 0),
        to == Mode::Tx ==> !bit_of(transition_shadow(from, to, shadow), 0),
        to == Mode::PowerDown ==> !bit_of(transition_shadow(from, to, shadow), 1),
        from == Mode::PowerDown ==> bit_of(transition_shadow(from, to, shadow), 1),
        2 <= n ==> bit_of(transition_shadow(from, to, shadow), n) == bit_of(shadow, n),
{
    let s1 = standby_shadow(from, shadow);
    lemma_mode_bits(0);
    lemma_mode_bits(1);
    lemma_mode_bits(n);
    lemma_merge_bit(shadow, PWR_UP, PWR_UP, 0);
    lemma_merge_bit(shadow, PWR_UP, PWR_UP, 1);
    lemma_merge_bit(shadow, PWR_UP, PWR_UP, n);
    lemma_merge_bit(s1, PWR_UP, 0, 0);
    lemma_merge_bit(s1, PWR_UP, 0, 1);
    lemma_merge_bit(s1, PWR_UP, 0, n);
    lemma_merge_bit(s1, PRIM_RX, PRIM_RX, 0);
    lemma_merge_bit(s1, PRIM_RX, PRIM_RX, 1);
    lemma_merge_bit(s1, PRIM_RX, PRIM_RX, n);
    lemma_merge_bit(s1, PRIM_RX, 0, 0);
    lemma_merge_bit(s1, PRIM_RX, 0, 1);
    lemma_merge_bit(s1, PRIM_RX, 0, n);
}

/// The mode agrees with the control register: the power bit (bit 1) is set
/// in every mode but power-down, the role bit (bit 0) is set in RX mode and
/// clear in TX mode.
pub open spec fn mode_bits_agree(mode: Mode, shadow: u8) -> bool {
    match mode {
        Mode::PowerDown => !bit_of(shadow, 1),
        Mode::Standby => bit_of(shadow, 1),
        Mode::Rx => bit_of(shadow, 1) && bit_of(shadow, 0),
        Mode::Tx => bit_of(shadow, 1) && !bit_of(shadow, 0),
    }
}

/// A transition keeps the mode and the control register in agreement.
pub proof fn lemma_transition_keeps_agreement(from: Mode, to: Mode, shadow: u8)
    requires
        mode_bits_agree(from, shadow),
    ensures
        mode_bits_agree(to, transition_shadow(from, to, shadow)),
{
    let s1 = standby_shadow(from, shadow);
    lemma_mode_bits(0);
    lemma_mode_bits(1);
    lemma_merge_bit(shadow, PWR_UP, PWR_UP, 1);
    lemma_merge_bit(s1, PWR_UP, 0, 1);
    lemma_merge_bit(s1, PRIM_RX, PRIM_RX, 0);
    lemma_merge_bit(s1, PRIM_RX, PRIM_RX, 1);
    lemma_merge_bit(s1, PRIM_RX, 0, 0);
    lemma_merge_bit(s1, PRIM_RX, 0, 1);
}

} // verus!
