//! Register map of the transceiver: bus addresses and the bit layout of the
//! single-byte registers that the driver reads or writes.
use vstd::prelude::*;

use crate::config::{CrcMode, DataRate, InterruptMask, PALevel};
use crate::PIPES_COUNT;

verus! {

/// Control register (power, role, CRC, interrupt masks).
pub const CONFIG: u8 = 0x00;
/// Auto-acknowledge enable, one bit per pipe.
pub const EN_AA: u8 = 0x01;
/// Receive-address enable, one bit per pipe.
pub const EN_RXADDR: u8 = 0x02;
/// Address width (`width - 2`).
pub const SETUP_AW: u8 = 0x03;
/// Automatic retransmission delay and count.
pub const SETUP_RETR: u8 = 0x04;
/// RF channel.
pub const RF_CH: u8 = 0x05;
/// Data rate and power-amplifier level.
pub const RF_SETUP: u8 = 0x06;
/// Status flags; also shifted out as the first byte of every transaction.
pub const STATUS: u8 = 0x07;
/// Lost and retransmitted packet counters.
pub const OBSERVE_TX: u8 = 0x08;
/// Carrier detect.
pub const CD: u8 = 0x09;
/// Receive address of pipe 0; pipe `n` is at `RX_ADDR_P0 + n`.
pub const RX_ADDR_P0: u8 = 0x0A;
/// Transmit address.
pub const TX_ADDR: u8 = 0x10;
/// Static payload length of pipe 0; pipe `n` is at `RX_PW_P0 + n`.
pub const RX_PW_P0: u8 = 0x11;
/// FIFO status.
pub const FIFO_STATUS: u8 = 0x17;
/// Dynamic payload length enable, one bit per pipe.
pub const DYNPD: u8 = 0x1C;
/// Feature register.
pub const FEATURE: u8 = 0x1D;

/// Control-register bit: mask the data-ready interrupt.
pub const MASK_RX_DR: u8 = 0x40;
/// Control-register bit: mask the data-sent interrupt.
pub const MASK_TX_DS: u8 = 0x20;
/// Control-register bit: mask the maximum-retransmits interrupt.
pub const MASK_MAX_RT: u8 = 0x10;
/// Control-register bit: enable CRC.
pub const EN_CRC: u8 = 0x08;
/// Control-register bit: two-byte CRC.
pub const CRCO: u8 = 0x04;
/// Control-register bit: power up.
pub const PWR_UP: u8 = 0x02;
/// Control-register bit: primary receiver.
pub const PRIM_RX: u8 = 0x01;
/// Value of the control register after a chip reset.
pub const CONFIG_RESET: u8 = 0x08;

/// Feature-register bit: enable dynamic payload lengths.
pub const EN_DPL: u8 = 0x04;

/// Status value that clears all three interrupt flags.
pub const CLEAR_ALL_IRQ: u8 = 0x70;
/// Status value that clears the two transmit interrupt flags.
pub const CLEAR_TX_IRQ: u8 = 0x30;

/// Bit `n` of `v`.
pub open spec fn bit_of(v: u8, n: u8) -> bool {
    (v >> n) & 1u8 == 1u8
}

/// `v` with the bits selected by `mask` replaced by those of `bits`.
pub open spec fn merge_bits(v: u8, mask: u8, bits: u8) -> u8 {
    (v & !mask) | (bits & mask)
}

/// Bit `n` of `merge_bits(v, mask, bits)` comes from `bits` where `mask` selects it,
/// from `v` elsewhere.
pub proof fn lemma_merge_bit(v: u8, mask: u8, bits: u8, n: u8)
    requires
        n < 8,
    ensures
        bit_of(merge_bits(v, mask, bits), n) == if bit_of(mask, n) {
            bit_of(bits, n)
        } else {
            bit_of(v, n)
        },
{
    assert(((((v & !mask) | (bits & mask)) >> n) & 1u8 == 1u8) == if (mask >> n) & 1u8 == 1u8 {
        (bits >> n) & 1u8 == 1u8
    } else {
        (v >> n) & 1u8 == 1u8
    }) by (bit_vector)
        requires
            n < 8,
    ;
}

/// Merging the same bits a second time changes nothing.
pub proof fn lemma_merge_idempotent(v: u8, mask: u8, bits: u8)
    ensures
        merge_bits(merge_bits(v, mask, bits), mask, bits) == merge_bits(v, mask, bits),
{
    assert((((v & !mask) | (bits & mask)) & !mask) | (bits & mask) == (v & !mask) | (bits
        & mask)) by (bit_vector);
}

/// `v` has a bit set for every `true` among `flags`, pipe `n` at bit `n`.
pub open spec fn pipe_bits(flags: Seq<bool>) -> u8 {
    ((if flags[0] { 1u8 } else { 0u8 }) + (if flags[1] { 2u8 } else { 0u8 }) + (if flags[2] {
        4u8
    } else {
        0u8
    }) + (if flags[3] { 8u8 } else { 0u8 }) + (if flags[4] { 16u8 } else { 0u8 }) + (if flags[5] {
        32u8
    } else {
        0u8
    })) as u8
}

/// Packs one flag per pipe into a register value (`EN_AA`, `EN_RXADDR`, `DYNPD`).
pub fn pipe_flags(flags: &[bool; PIPES_COUNT]) -> (r: u8)
    ensures
        r == pipe_bits(flags@),
{
    let mut r: u8 = 0;
    if flags[0] {
        r = r + 1;
    }
    if flags[1] {
        r = r + 2;
    }
    if flags[2] {
        r = r + 4;
    }
    if flags[3] {
        r = r + 8;
    }
    if flags[4] {
        r = r + 16;
    }
    if flags[5] {
        r = r + 32;
    }
    r
}

/// Two-bit code of a power-amplifier level (`RF_PWR`).
pub open spec fn pa_code(pa: PALevel) -> u8 {
    match pa {
        PALevel::PA0dBm => 3,
        PALevel::PA6dBm => 2,
        PALevel::PA12dBm => 1,
        PALevel::PA18dBm => 0,
    }
}

/// `RF_DR_LOW` (bit 5) and `RF_DR_HIGH` (bit 3) of a data rate.
pub open spec fn rate_bits(rate: DataRate) -> u8 {
    match rate {
        DataRate::R250Kbps => 0x20,
        DataRate::R1Mbps => 0x00,
        DataRate::R2Mbps => 0x08,
    }
}

/// Value of `RF_SETUP` for a data rate and a power level (`RF_PWR` in bits 2..1).
pub open spec fn rf_setup_byte(rate: DataRate, pa: PALevel) -> u8 {
    (rate_bits(rate) + 2 * pa_code(pa)) as u8
}

/// Builds the `RF_SETUP` value.
pub fn rf_setup(rate: DataRate, pa: PALevel) -> (r: u8)
    ensures
        r == rf_setup_byte(rate, pa),
{
    let pwr: u8 = match pa {
        PALevel::PA0dBm => 3,
        PALevel::PA6dBm => 2,
        PALevel::PA12dBm => 1,
        PALevel::PA18dBm => 0,
    };
    let dr: u8 = match rate {
        DataRate::R250Kbps => 0x20,
        DataRate::R1Mbps => 0x00,
        DataRate::R2Mbps => 0x08,
    };
    dr + 2 * pwr
}

/// `EN_CRC` and `CRCO` bits of the control register for a CRC mode.
pub open spec fn crc_bits(mode: CrcMode) -> u8 {
    match mode {
        CrcMode::Disabled => 0,
        CrcMode::OneByte => EN_CRC,
        CrcMode::TwoBytes => (EN_CRC + CRCO) as u8,
    }
}

/// Builds the CRC bits of the control register.
pub fn crc_config(mode: CrcMode) -> (r: u8)
    ensures
        r == crc_bits(mode),
{
    match mode {
        CrcMode::Disabled => 0,
        CrcMode::OneByte => EN_CRC,
        CrcMode::TwoBytes => EN_CRC + CRCO,
    }
}

/// Interrupt-mask bits of the control register.
pub open spec fn mask_bits(m: InterruptMask) -> u8 {
    ((if m.data_ready_rx { MASK_RX_DR } else { 0u8 }) + (if m.data_sent_tx {
        MASK_TX_DS
    } else {
        0u8
    }) + (if m.max_retramsits_tx { MASK_MAX_RT } else { 0u8 })) as u8
}

/// Builds the interrupt-mask bits of the control register.
pub fn interrupt_mask_config(m: InterruptMask) -> (r: u8)
    ensures
        r == mask_bits(m),
{
    let mut r: u8 = 0;
    if m.data_ready_rx {
        r = r + MASK_RX_DR;
    }
    if m.data_sent_tx {
        r = r + MASK_TX_DS;
    }
    if m.max_retramsits_tx {
        r = r + MASK_MAX_RT;
    }
    r
}

/// Value of `SETUP_RETR`: delay step in bits 7..4, count in bits 3..0.
pub open spec fn setup_retr_byte(delay: u8, count: u8) -> u8 {
    (delay * 16 + count) as u8
}

/// Builds the `SETUP_RETR` value.
pub fn setup_retr(delay: u8, count: u8) -> (r: u8)
    requires
        delay < 16,
        count < 16,
    ensures
        r == setup_retr_byte(delay, count),
{
    delay * 16 + count
}

/// Data rate held in an `RF_SETUP` value: `RF_DR_LOW` selects 250 Kbps,
/// otherwise `RF_DR_HIGH` selects 2 Mbps, otherwise 1 Mbps.
pub open spec fn rate_of(v: u8) -> DataRate {
    if bit_of(v, 5) {
        DataRate::R250Kbps
    } else if bit_of(v, 3) {
        DataRate::R2Mbps
    } else {
        DataRate::R1Mbps
    }
}

/// Reads the data rate out of an `RF_SETUP` value.
pub fn data_rate_from(v: u8) -> (r: DataRate)
    ensures
        r == rate_of(v),
{
    if (v >> 5u8) & 1u8 == 1u8 {
        DataRate::R250Kbps
    } else if (v >> 3u8) & 1u8 == 1u8 {
        DataRate::R2Mbps
    } else {
        DataRate::R1Mbps
    }
}

/// Power level held in an `RF_SETUP` value (`RF_PWR`, bits 2..1).
pub open spec fn pa_of(v: u8) -> PALevel {
    let code = (v >> 1u8) & 3u8;
    if code == 3 {
        PALevel::PA0dBm
    } else if code == 2 {
        PALevel::PA6dBm
    } else if code == 1 {
        PALevel::PA12dBm
    } else {
        PALevel::PA18dBm
    }
}

/// Reads the power level out of an `RF_SETUP` value.
pub fn pa_level_from(v: u8) -> (r: PALevel)
    ensures
        r == pa_of(v),
{
    let code = (v >> 1u8) & 3u8;
    if code == 3 {
        PALevel::PA0dBm
    } else if code == 2 {
        PALevel::PA6dBm
    } else if code == 1 {
        PALevel::PA12dBm
    } else {
        PALevel::PA18dBm
    }
}

/// CRC mode held in a control-register value.
pub open spec fn crc_of(v: u8) -> CrcMode {
    if !bit_of(v, 3) {
        CrcMode::Disabled
    } else if bit_of(v, 2) {
        CrcMode::TwoBytes
    } else {
        CrcMode::OneByte
    }
}

/// Reads the CRC mode out of a control-register value.
pub fn crc_mode_from(v: u8) -> (r: CrcMode)
    ensures
        r == crc_of(v),
{
    if (v >> 3u8) & 1u8 != 1u8 {
        CrcMode::Disabled
    } else if (v >> 2u8) & 1u8 == 1u8 {
        CrcMode::TwoBytes
    } else {
        CrcMode::OneByte
    }
}

/// Interrupt mask held in a control-register value.
pub open spec fn interrupt_mask_of(v: u8) -> InterruptMask {
    InterruptMask { data_ready_rx: bit_of(v, 6), data_sent_tx: bit_of(v, 5), max_retramsits_tx: bit_of(v, 4) }
}

/// Reads the interrupt mask out of a control-register value.
pub fn interrupt_mask_from(v: u8) -> (r: InterruptMask)
    ensures
        r == interrupt_mask_of(v),
{
    InterruptMask {
        data_ready_rx: (v >> 6u8) & 1u8 == 1u8,
        data_sent_tx: (v >> 5u8) & 1u8 == 1u8,
        max_retramsits_tx: (v >> 4u8) & 1u8 == 1u8,
    }
}

/// One flag per pipe, pipe `n` at bit `n`.
pub open spec fn flags_of(v: u8) -> Seq<bool> {
    Seq::new(6, |i: int| bit_of(v, i as u8))
}

/// Unpacks one flag per pipe from a register value.
pub fn pipe_flags_from(v: u8) -> (r: [bool; PIPES_COUNT])
    ensures
        r@ == flags_of(v),
{
    let mut r = [false; PIPES_COUNT];
    let mut i: usize = 0;
    while i < PIPES_COUNT
        invariant
            i <= PIPES_COUNT,
            forall|j: int| 0 <= j < i ==> r@[j] == bit_of(v, j as u8),
        decreases PIPES_COUNT - i,
    {
        r[i] = (v >> (i as u8)) & 1u8 == 1u8;
        i = i + 1;
    }
    assert(r@ =~= flags_of(v));
    r
}

/// Payload length of a pipe from its dynamic-length flag and its `RX_PW`
/// value (bits 5..0): none when dynamic.
pub open spec fn length_of(dynamic: bool, pw: u8) -> Option<u8> {
    if dynamic {
        None
    } else {
        Some(pw & 63u8)
    }
}

/// Reads the payload length of a pipe.
pub fn payload_length_from(dynamic: bool, pw: u8) -> (r: Option<u8>)
    ensures
        r == length_of(dynamic, pw),
{
    if dynamic {
        None
    } else {
        Some(pw & 63u8)
    }
}

/// Status register, as shifted out first in every transaction.
#[derive(Clone, Copy, Debug, PartialEq, Eq, Structural)]
pub struct Status(pub u8);

impl Status {
    /// Data ready in the RX FIFO.
    pub fn rx_dr(&self) -> (r: bool)
        ensures
            r == bit_of(self.0, 6),
    {
        (self.0 >> 6u8) & 1u8 == 1u8
    }

    /// A packet was sent (and acknowledged, if auto-acknowledge is on).
    pub fn tx_ds(&self) -> (r: bool)
        ensures
            r == bit_of(self.0, 5),
    {
        (self.0 >> 5u8) & 1u8 == 1u8
    }

    /// The retransmit count was exhausted without acknowledgement.
    pub fn max_rt(&self) -> (r: bool)
        ensures
            r == bit_of(self.0, 4),
    {
        (self.0 >> 4u8) & 1u8 == 1u8
    }

    /// Pipe number of the packet at the head of the RX FIFO (7: FIFO empty).
    pub fn rx_p_no(&self) -> (r: u8)
        ensures
            r == (self.0 >> 1u8) & 7u8,
            r < 8,
    {
        let v = self.0;
        assert((v >> 1u8) & 7u8 < 8) by (bit_vector);
        (v >> 1u8) & 7u8
    }

    /// The TX FIFO is full.
    pub fn tx_full(&self) -> (r: bool)
        ensures
            r == bit_of(self.0, 0),
    {
        (self.0 >> 0u8) & 1u8 == 1u8
    }
}

/// FIFO status register.
#[derive(Clone, Copy, Debug, PartialEq, Eq, Structural)]
pub struct FifoStatus(pub u8);

impl FifoStatus {
    /// The last transmitted packet is reused.
    pub fn tx_reuse(&self) -> (r: bool)
        ensures
            r == bit_of(self.0, 6),
    {
        (self.0 >> 6u8) & 1u8 == 1u8
    }

    /// The TX FIFO is full.
    pub fn tx_full(&self) -> (r: bool)
        ensures
            r == bit_of(self.0, 5),
    {
        (self.0 >> 5u8) & 1u8 == 1u8
    }

    /// The TX FIFO is empty.
    pub fn tx_empty(&self) -> (r: bool)
        ensures
            r == bit_of(self.0, 4),
    {
        (self.0 >> 4u8) & 1u8 == 1u8
    }

    /// The RX FIFO is full.
    pub fn rx_full(&self) -> (r: bool)
        ensures
            r == bit_of(self.0, 1),
    {
        (self.0 >> 1u8) & 1u8 == 1u8
    }

    /// The RX FIFO is empty.
    pub fn rx_empty(&self) -> (r: bool)
        ensures
            r == bit_of(self.0, 0),
    {
        (self.0 >> 0u8) & 1u8 == 1u8
    }
}

/// Transmit observation register: lost and retransmitted packet counters.
#[derive(Clone, Copy, Debug, PartialEq, Eq, Structural)]
pub struct ObserveTx(pub u8);

impl ObserveTx {
    /// Count of lost packets (bits 7..4).
    pub fn plos_cnt(&self) -> (r: u8)
        ensures
            r == self.0 >> 4u8,
    {
        self.0 >> 4u8
    }

    /// Count of retransmissions of the current packet (bits 3..0).
    pub fn arc_cnt(&self) -> (r: u8)
        ensures
            r == self.0 & 15u8,
    {
        self.0 & 15u8
    }
}

} // verus!
verus! {

/// The data rate and the power level written into `RF_SETUP` read back as
/// themselves.
pub proof fn lemma_rf_setup_round_trip(rate: DataRate, pa: PALevel)
    ensures
        rate_of(rf_setup_byte(rate, pa)) == rate,
        pa_of(rf_setup_byte(rate, pa)) == pa,
{
    let c = pa_code(pa);
    let d = rate_bits(rate);
    assert(c <= 3 && (d == 0x20u8 || d == 0u8 || d == 8u8) ==> {
        &&& ((((d + 2 * c) as u8) >> 5u8) & 1u8 == 1u8) == (d == 0x20u8)
        &&& ((((d + 2 * c) as u8) >> 3u8) & 1u8 == 1u8) == (d == 8u8)
        &&& (((d + 2 * c) as u8) >> 1u8) & 3u8 == c
    }) by (bit_vector);
}

/// The CRC bits merged into a control-register value read back as the mode.
pub proof fn lemma_crc_round_trip(v: u8, mode: CrcMode)
    ensures
        crc_of(merge_bits(v, (EN_CRC + CRCO) as u8, crc_bits(mode))) == mode,
{
    let b = crc_bits(mode);
    assert((b == 0u8 || b == 8u8 || b == 12u8) ==> {
        &&& ((((v & !12u8) | (b & 12u8)) >> 3u8) & 1u8 == 1u8) == (b != 0u8)
        &&& ((((v & !12u8) | (b & 12u8)) >> 2u8) & 1u8 == 1u8) == (b == 12u8)
    }) by (bit_vector);
}

/// The interrupt-mask bits merged into a control-register value read back as
/// the mask.
pub proof fn lemma_interrupt_mask_round_trip(v: u8, m: InterruptMask)
    ensures
        interrupt_mask_of(merge_bits(v, (MASK_RX_DR + MASK_TX_DS + MASK_MAX_RT) as u8, mask_bits(m))) == m,
{
    let a: u8 = if m.data_ready_rx { 1 } else { 0 };
    let b: u8 = if m.data_sent_tx { 1 } else { 0 };
    let c: u8 = if m.max_retramsits_tx { 1 } else { 0 };
    assert(mask_bits(m) == (a * 64 + b * 32 + c * 16) as u8);
    assert(a <= 1 && b <= 1 && c <= 1 ==> {
        let x = (v & !0x70u8) | (((a * 64 + b * 32 + c * 16) as u8) & 0x70u8);
        &&& (x >> 6u8) & 1u8 == a
        &&& (x >> 5u8) & 1u8 == b
        &&& (x >> 4u8) & 1u8 == c
    }) by (bit_vector);
}

/// One flag per pipe, packed, unpacks as the same flags.
pub proof fn lemma_pipe_flags_round_trip(flags: Seq<bool>)
    requires
        flags.len() == 6,
    ensures
        flags_of(pipe_bits(flags)) == flags,
{
    let f0: u8 = if flags[0] { 1 } else { 0 };
    let f1: u8 = if flags[1] { 1 } else { 0 };
    let f2: u8 = if flags[2] { 1 } else { 0 };
    let f3: u8 = if flags[3] { 1 } else { 0 };
    let f4: u8 = if flags[4] { 1 } else { 0 };
    let f5: u8 = if flags[5] { 1 } else { 0 };
    let x = pipe_bits(flags);
    assert(x == (f0 + f1 * 2 + f2 * 4 + f3 * 8 + f4 * 16 + f5 * 32) as u8);
    assert(f0 <= 1 && f1 <= 1 && f2 <= 1 && f3 <= 1 && f4 <= 1 && f5 <= 1 ==> {
        let y = (f0 + f1 * 2 + f2 * 4 + f3 * 8 + f4 * 16 + f5 * 32) as u8;
        &&& (y >> 0u8) & 1u8 == f0
        &&& (y >> 1u8) & 1u8 == f1
        &&& (y >> 2u8) & 1u8 == f2
        &&& (y >> 3u8) & 1u8 == f3
        &&& (y >> 4u8) & 1u8 == f4
        &&& (y >> 5u8) & 1u8 == f5
    }) by (bit_vector);
    assert(flags_of(x) =~= flags);
}

/// The CRC and interrupt-mask fields of the control register leave its power
/// and role bits alone.
pub proof fn lemma_field_masks_spare_mode_bits()
    ensures
        !bit_of((EN_CRC + CRCO) as u8, 0),
        !bit_of((EN_CRC + CRCO) as u8, 1),
        !bit_of((MASK_RX_DR + MASK_TX_DS + MASK_MAX_RT) as u8, 0),
        !bit_of((MASK_RX_DR + MASK_TX_DS + MASK_MAX_RT) as u8, 1),
{
    assert(!((12u8 >> 0u8) & 1u8 == 1u8) && !((12u8 >> 1u8) & 1u8 == 1u8)) by (bit_vector);
    assert(!((0x70u8 >> 0u8) & 1u8 == 1u8) && !((0x70u8 >> 1u8) & 1u8 == 1u8)) by (bit_vector);
}

} // verus!
