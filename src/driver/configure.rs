//! Keeping the registers in step with the logical configuration.
use vstd::prelude::*;

use crate::{MAX_ADDR_BYTES, PIPES_COUNT};
use crate::bus::{no_failure, Bus, BusOp, appended, lemma_appended_refl, lemma_appended_trans, read_op, write_op};
use crate::command::{Command, reply_byte};
use crate::config::{CrcMode, DataRate, InterruptMask, NRF24L01Config, NRF24L01Configuration, PALevel, RetransmitConfig, payload_length_ok};
use crate::driver::{NRF24L01, is_bus_failure};
use crate::error::Error;
use crate::mode::config_update_ops;
use crate::registers::{lemma_field_masks_spare_mode_bits, CRCO, DYNPD, EN_AA, EN_CRC, EN_DPL, EN_RXADDR, FEATURE, MASK_MAX_RT, MASK_RX_DR, MASK_TX_DS, RF_CH, RF_SETUP, RX_ADDR_P0, RX_PW_P0, SETUP_AW, SETUP_RETR, TX_ADDR, crc_bits, crc_config, interrupt_mask_config, mask_bits, merge_bits, pipe_bits, pipe_flags, rf_setup, rf_setup_byte, setup_retr, setup_retr_byte};

verus! {

/// `s` with the first `k` fields of `c` applied, in the order in which a
/// whole configuration is applied.
pub open spec fn applied_prefix<'a>(s: NRF24L01Config<'a>, c: NRF24L01Config<'a>, k: int) -> NRF24L01Config<'a> {
    NRF24L01Config {
        data_rate: if k > 0 { c.data_rate } else { s.data_rate },
        crc_mode: if k > 1 { c.crc_mode } else { s.crc_mode },
        rf_channel: if k > 2 { c.rf_channel } else { s.rf_channel },
        pa_level: if k > 3 { c.pa_level } else { s.pa_level },
        interrupt_mask: if k > 4 { c.interrupt_mask } else { s.interrupt_mask },
        read_enabled_pipes: if k > 5 { c.read_enabled_pipes } else { s.read_enabled_pipes },
        rx_addr: if k > 6 { c.rx_addr } else { s.rx_addr },
        tx_addr: if k > 7 { c.tx_addr } else { s.tx_addr },
        retransmit_config: if k > 8 { c.retransmit_config } else { s.retransmit_config },
        auto_ack_pipes: if k > 9 { c.auto_ack_pipes } else { s.auto_ack_pipes },
        address_width: if k > 10 { c.address_width } else { s.address_width },
        pipe_payload_lengths: if k > 11 { c.pipe_payload_lengths } else { s.pipe_payload_lengths },
    }
}

/// `got` is `s` with the first `k` fields of `c` applied; while the receive
/// addresses (field 6) are being applied, each pipe holds its old or its new
/// address.
pub open spec fn partly_applied<'a>(s: NRF24L01Config<'a>, c: NRF24L01Config<'a>, got: NRF24L01Config<'a>, k: int) -> bool {
    &&& got == (NRF24L01Config { rx_addr: got.rx_addr, ..applied_prefix(s, c, k) })
    &&& forall|i: int| 0 <= i < PIPES_COUNT ==> #[trigger] got.rx_addr@[i] == applied_prefix(s, c, k).rx_addr@[i]
        || (k == 6 && got.rx_addr@[i] == c.rx_addr@[i])
}

/// Control-register bits that hold the CRC mode.
pub open spec fn crc_mask() -> u8 {
    (EN_CRC + CRCO) as u8
}

/// Control-register bits that hold the interrupt mask.
pub open spec fn irq_mask() -> u8 {
    (MASK_RX_DR + MASK_TX_DS + MASK_MAX_RT) as u8
}

/// Static length written for a pipe: 0 for a dynamic one.
pub open spec fn static_len(len: Option<u8>) -> u8 {
    match len {
        Some(n) => n,
        None => 0,
    }
}

/// Which pipes have dynamic payload lengths.
pub open spec fn dynamic_pipes(lengths: Seq<Option<u8>>) -> Seq<bool> {
    Seq::new(6, |i: int| lengths[i] is None)
}

/// The writes of the six static payload-length registers.
pub open spec fn payload_width_ops(lengths: Seq<Option<u8>>) -> Seq<BusOp> {
    Seq::new(6, |i: int| write_op((RX_PW_P0 + i) as u8, seq![static_len(lengths[i])]))
}

/// Operations that set the static payload lengths: the feature bit first
/// (read back as `feature`, written with `EN_DPL`) when a pipe is dynamic, then
/// the dynamic-length bitmap, then the six length registers.
pub open spec fn payload_lengths_ops(lengths: Seq<Option<u8>>, feature: u8) -> Seq<BusOp> {
    (if pipe_bits(dynamic_pipes(lengths)) != 0 {
        seq![read_op(FEATURE, 1), write_op(FEATURE, seq![feature | EN_DPL])]
    } else {
        seq![]
    }) + seq![write_op(DYNPD, seq![pipe_bits(dynamic_pipes(lengths))])] + payload_width_ops(lengths)
}

/// Data-rate write when the rate of `c` differs from that of `s` (the power
/// level comes from `s`).
pub open spec fn rate_ops<'a>(s: NRF24L01Config<'a>, c: NRF24L01Config<'a>) -> Seq<BusOp> {
    if c.data_rate != s.data_rate {
        seq![write_op(RF_SETUP, seq![rf_setup_byte(c.data_rate, s.pa_level)])]
    } else {
        seq![]
    }
}

/// Control-register update when the CRC mode of `c` differs from that of `s`.
pub open spec fn crc_ops<'a>(s: NRF24L01Config<'a>, shadow: u8, c: NRF24L01Config<'a>) -> Seq<BusOp> {
    if c.crc_mode != s.crc_mode {
        config_update_ops(shadow, crc_mask(), crc_bits(c.crc_mode))
    } else {
        seq![]
    }
}

/// Channel write when the channel of `c` differs from that of `s`.
pub open spec fn channel_ops<'a>(s: NRF24L01Config<'a>, c: NRF24L01Config<'a>) -> Seq<BusOp> {
    if c.rf_channel != s.rf_channel {
        seq![write_op(RF_CH, seq![c.rf_channel])]
    } else {
        seq![]
    }
}

/// Power-level write when the level of `c` differs from that of `s` (the
/// data rate comes from `s`).
pub open spec fn pa_ops<'a>(s: NRF24L01Config<'a>, c: NRF24L01Config<'a>) -> Seq<BusOp> {
    if c.pa_level != s.pa_level {
        seq![write_op(RF_SETUP, seq![rf_setup_byte(s.data_rate, c.pa_level)])]
    } else {
        seq![]
    }
}

/// Control-register update when the interrupt mask of `c` differs from that of `s`.
pub open spec fn mask_ops<'a>(s: NRF24L01Config<'a>, shadow: u8, c: NRF24L01Config<'a>) -> Seq<BusOp> {
    if c.interrupt_mask != s.interrupt_mask {
        config_update_ops(shadow, irq_mask(), mask_bits(c.interrupt_mask))
    } else {
        seq![]
    }
}

/// Read-enable write when the read-enabled pipes of `c` differ from those of `s`.
pub open spec fn read_enabled_ops<'a>(s: NRF24L01Config<'a>, c: NRF24L01Config<'a>) -> Seq<BusOp> {
    if c.read_enabled_pipes != s.read_enabled_pipes {
        seq![write_op(EN_RXADDR, seq![pipe_bits(c.read_enabled_pipes@)])]
    } else {
        seq![]
    }
}

/// The writes of the six receive addresses of `c`.
pub open spec fn rx_addr_writes<'a>(c: NRF24L01Config<'a>) -> Seq<BusOp> {
    Seq::new(6, |i: int| write_op((RX_ADDR_P0 + i) as u8, c.rx_addr@[i]@))
}

/// All six receive-address writes when an address of `c` differs from `s`.
pub open spec fn rx_addr_ops<'a>(s: NRF24L01Config<'a>, c: NRF24L01Config<'a>) -> Seq<BusOp> {
    if c.rx_addr != s.rx_addr {
        rx_addr_writes(c)
    } else {
        seq![]
    }
}

/// Transmit-address write when the address of `c` differs from that of `s`.
pub open spec fn tx_addr_ops<'a>(s: NRF24L01Config<'a>, c: NRF24L01Config<'a>) -> Seq<BusOp> {
    if c.tx_addr != s.tx_addr {
        seq![write_op(TX_ADDR, c.tx_addr@)]
    } else {
        seq![]
    }
}

/// Retransmit write when the retransmit setting of `c` differs from that of `s`.
pub open spec fn retransmit_ops<'a>(s: NRF24L01Config<'a>, c: NRF24L01Config<'a>) -> Seq<BusOp> {
    if c.retransmit_config != s.retransmit_config {
        seq![write_op(SETUP_RETR, seq![setup_retr_byte(c.retransmit_config.delay, c.retransmit_config.count)])]
    } else {
        seq![]
    }
}

/// Auto-acknowledge write when the pipes of `c` differ from those of `s`.
pub open spec fn auto_ack_ops<'a>(s: NRF24L01Config<'a>, c: NRF24L01Config<'a>) -> Seq<BusOp> {
    if c.auto_ack_pipes != s.auto_ack_pipes {
        seq![write_op(EN_AA, seq![pipe_bits(c.auto_ack_pipes@)])]
    } else {
        seq![]
    }
}

/// Address-width write when the width of `c` differs from that of `s`.
pub open spec fn width_ops<'a>(s: NRF24L01Config<'a>, c: NRF24L01Config<'a>) -> Seq<BusOp> {
    if c.address_width != s.address_width {
        seq![write_op(SETUP_AW, seq![(c.address_width - 2) as u8])]
    } else {
        seq![]
    }
}

/// Payload-length operations when the lengths of `c` differ from those of `s`.
pub open spec fn lengths_ops<'a>(s: NRF24L01Config<'a>, c: NRF24L01Config<'a>, feature: u8) -> Seq<BusOp> {
    if c.pipe_payload_lengths != s.pipe_payload_lengths {
        payload_lengths_ops(c.pipe_payload_lengths@, feature)
    } else {
        seq![]
    }
}

/// Control register once the CRC mode of `c` was applied over `s`.
pub open spec fn crc_synced_shadow<'a>(s: NRF24L01Config<'a>, shadow: u8, c: NRF24L01Config<'a>) -> u8 {
    if c.crc_mode != s.crc_mode {
        merge_bits(shadow, crc_mask(), crc_bits(c.crc_mode))
    } else {
        shadow
    }
}

/// `s` with field `k` of `c` applied (fields in the order in which a whole
/// configuration is applied).
pub open spec fn with_field<'a>(s: NRF24L01Config<'a>, c: NRF24L01Config<'a>, k: int) -> NRF24L01Config<'a> {
    NRF24L01Config {
        data_rate: if k == 0 { c.data_rate } else { s.data_rate },
        crc_mode: if k == 1 { c.crc_mode } else { s.crc_mode },
        rf_channel: if k == 2 { c.rf_channel } else { s.rf_channel },
        pa_level: if k == 3 { c.pa_level } else { s.pa_level },
        interrupt_mask: if k == 4 { c.interrupt_mask } else { s.interrupt_mask },
        read_enabled_pipes: if k == 5 { c.read_enabled_pipes } else { s.read_enabled_pipes },
        rx_addr: if k == 6 { c.rx_addr } else { s.rx_addr },
        tx_addr: if k == 7 { c.tx_addr } else { s.tx_addr },
        retransmit_config: if k == 8 { c.retransmit_config } else { s.retransmit_config },
        auto_ack_pipes: if k == 9 { c.auto_ack_pipes } else { s.auto_ack_pipes },
        address_width: if k == 10 { c.address_width } else { s.address_width },
        pipe_payload_lengths: if k == 11 { c.pipe_payload_lengths } else { s.pipe_payload_lengths },
    }
}

/// Field `k` of `c` equals that of `s`: its setter is not called.
pub open spec fn field_same<'a>(s: NRF24L01Config<'a>, c: NRF24L01Config<'a>, k: int) -> bool {
    with_field(s, c, k) == s
}

/// Operations of the setter of field `k` (not the payload lengths) when it
/// differs, over configuration `s` and control register `shadow`.
pub open spec fn field_ops<'a>(s: NRF24L01Config<'a>, shadow: u8, c: NRF24L01Config<'a>, k: int) -> Seq<BusOp> {
    if k == 0 {
        rate_ops(s, c)
    } else if k == 1 {
        crc_ops(s, shadow, c)
    } else if k == 2 {
        channel_ops(s, c)
    } else if k == 3 {
        pa_ops(s, c)
    } else if k == 4 {
        mask_ops(s, shadow, c)
    } else if k == 5 {
        read_enabled_ops(s, c)
    } else if k == 6 {
        rx_addr_ops(s, c)
    } else if k == 7 {
        tx_addr_ops(s, c)
    } else if k == 8 {
        retransmit_ops(s, c)
    } else if k == 9 {
        auto_ack_ops(s, c)
    } else {
        width_ops(s, c)
    }
}

/// Control register once field `k` of `c` was applied over `s` and `shadow`.
pub open spec fn field_shadow<'a>(s: NRF24L01Config<'a>, shadow: u8, c: NRF24L01Config<'a>, k: int) -> u8 {
    if k == 1 && c.crc_mode != s.crc_mode {
        merge_bits(shadow, crc_mask(), crc_bits(c.crc_mode))
    } else if k == 4 && c.interrupt_mask != s.interrupt_mask {
        merge_bits(shadow, irq_mask(), mask_bits(c.interrupt_mask))
    } else {
        shadow
    }
}

/// Control register once the first `k` fields of `c` were applied over `s`
/// and `shadow`.
pub open spec fn shadow_upto<'a>(s: NRF24L01Config<'a>, shadow: u8, c: NRF24L01Config<'a>, k: int) -> u8 {
    if k <= 1 {
        shadow
    } else if k <= 4 {
        crc_synced_shadow(s, shadow, c)
    } else if c.interrupt_mask != s.interrupt_mask {
        merge_bits(crc_synced_shadow(s, shadow, c), irq_mask(), mask_bits(c.interrupt_mask))
    } else {
        crc_synced_shadow(s, shadow, c)
    }
}

/// Operations that apply the first `k` fields of `c` over `s` and `shadow`
/// (up to the address width): one setter for each field that differs, none
/// for the others.
pub open spec fn ops_before<'a>(s: NRF24L01Config<'a>, shadow: u8, c: NRF24L01Config<'a>, k: int) -> Seq<BusOp>
    decreases k,
{
    if k <= 0 {
        seq![]
    } else {
        ops_before(s, shadow, c, k - 1) + field_ops(applied_prefix(s, c, k - 1), shadow_upto(s, shadow, c, k - 1), c, k - 1)
    }
}

/// After a failed setter of field `k`, `got` is `s` except that, for the
/// receive addresses, each pipe holds its old or its new address.
pub open spec fn field_partly<'a>(s: NRF24L01Config<'a>, c: NRF24L01Config<'a>, got: NRF24L01Config<'a>, k: int) -> bool {
    &&& got == (NRF24L01Config { rx_addr: got.rx_addr, ..s })
    &&& forall|i: int| 0 <= i < PIPES_COUNT ==> #[trigger] got.rx_addr@[i] == s.rx_addr@[i]
        || (k == 6 && got.rx_addr@[i] == c.rx_addr@[i])
}

impl<'a, B: Bus> NRF24L01<'a, B> {
    /// `after` is `before` with the configuration `settings`, the same mode and
    /// control register, once it drove `ops`.
    pub open spec fn setter_post(before: &Self, after: &Self, settings: NRF24L01Config<'a>, ops: Seq<BusOp>) -> bool {
        &&& after.current_mode() == before.current_mode()
        &&& after.shadow() == before.shadow()
        &&& after.settings() == settings
        &&& appended(before.trace(), after.trace(), ops)
        &&& no_failure(before.trace(), after.trace())
    }

    /// `after` is `before` once the control-register bits under `mask` were set
    /// to `bits` and the configuration became `settings`.
    pub open spec fn config_setter_post(before: &Self, after: &Self, settings: NRF24L01Config<'a>, mask: u8, bits: u8) -> bool {
        &&& after.current_mode() == before.current_mode()
        &&& after.shadow() == merge_bits(before.shadow(), mask, bits)
        &&& after.settings() == settings
        &&& appended(before.trace(), after.trace(), config_update_ops(before.shadow(), mask, bits))
        &&& no_failure(before.trace(), after.trace())
    }

    /// `after` is `before` with the configuration `settings` and the control
    /// register `shadow`, in the same mode; when `settings` is the present
    /// configuration, nothing was driven on the bus.
    pub open spec fn synced(before: &Self, after: &Self, settings: NRF24L01Config<'a>, shadow: u8) -> bool {
        &&& after.current_mode() == before.current_mode()
        &&& after.settings() == settings
        &&& after.shadow() == shadow
        &&& settings == before.settings() ==> after.trace() == before.trace()
        &&& no_failure(before.trace(), after.trace())
    }

    /// Applying `c` over `before` failed in the setter of field `k`: the
    /// setters of the fields before it drove their operations and succeeded,
    /// field `k` differed, its setter ended in a failed exchange, and the
    /// configuration holds the fields before `k` (see `partly_applied`).
    pub open spec fn failed_at(before: &Self, after: &Self, c: NRF24L01Config<'a>, k: int) -> bool {
        let p = ops_before(before.settings(), before.shadow(), c, k);
        let mid = before.trace().len() + p.len();
        &&& !field_same(applied_prefix(before.settings(), c, k), c, k)
        &&& partly_applied(before.settings(), c, after.settings(), k)
        &&& mid < after.trace().len()
        &&& appended(before.trace(), after.trace().subrange(0, mid as int), p)
        &&& no_failure(before.trace(), after.trace().subrange(0, mid as int))
        &&& after.trace().last().failed
        &&& after.current_mode() == before.current_mode()
    }

    /// Control register once `configuration` was applied over `settings`.
    pub open spec fn configured_shadow(shadow: u8, settings: NRF24L01Config<'a>, configuration: NRF24L01Config<'a>) -> u8 {
        let s1 = if configuration.crc_mode != settings.crc_mode {
            merge_bits(shadow, crc_mask(), crc_bits(configuration.crc_mode))
        } else {
            shadow
        };
        if configuration.interrupt_mask != settings.interrupt_mask {
            merge_bits(s1, irq_mask(), mask_bits(configuration.interrupt_mask))
        } else {
            s1
        }
    }

    /// A configuration that was applied is the one read back; applying it
    /// again drives nothing on the bus.
    pub proof fn lemma_configuration_round_trip(d0: &Self, d1: &Self, d2: &Self, configuration: NRF24L01Config<'a>)
        requires
            Self::synced(d0, d1, configuration, Self::configured_shadow(d0.shadow(), d0.settings(), configuration)),
            Self::synced(d1, d2, configuration, Self::configured_shadow(d1.shadow(), d1.settings(), configuration)),
        ensures
            d1.settings() == configuration,
            d2.settings() == configuration,
            d2.trace() == d1.trace(),
            d2.shadow() == d1.shadow(),
    {
    }
}

/// Whether two flag arrays are equal.
fn same_flags(a: &[bool; PIPES_COUNT], b: &[bool; PIPES_COUNT]) -> (r: bool)
    ensures
        r == (*a == *b),
{
    let mut i: usize = 0;
    while i < PIPES_COUNT
        invariant
            i <= PIPES_COUNT,
            forall|j: int| 0 <= j < i ==> a@[j] == b@[j],
        decreases PIPES_COUNT - i,
    {
        if a[i] != b[i] {
            return false;
        }
        i = i + 1;
    }
    assert(*a =~= *b);
    true
}

/// Whether two addresses are equal.
fn same_addr(a: &[u8], b: &[u8]) -> (r: bool)
    ensures
        r == (a == b),
{
    if a.len() != b.len() {
        return false;
    }
    let mut i: usize = 0;
    while i < a.len()
        invariant
            i <= a@.len(),
            a@.len() == b@.len(),
            forall|j: int| 0 <= j < i ==> a@[j] == b@[j],
        decreases a@.len() - i,
    {
        if a[i] != b[i] {
            return false;
        }
        i = i + 1;
    }
    assert(a =~= b);
    true
}

/// Whether two arrays of addresses are equal.
fn same_addrs(a: &[&[u8]; PIPES_COUNT], b: &[&[u8]; PIPES_COUNT]) -> (r: bool)
    ensures
        r == (*a == *b),
{
    let mut i: usize = 0;
    while i < PIPES_COUNT
        invariant
            i <= PIPES_COUNT,
            forall|j: int| 0 <= j < i ==> a@[j] == b@[j],
        decreases PIPES_COUNT - i,
    {
        if !same_addr(a[i], b[i]) {
            return false;
        }
        i = i + 1;
    }
    assert(*a =~= *b);
    true
}

/// Whether two arrays of payload lengths are equal.
fn same_lengths(a: &[Option<u8>; PIPES_COUNT], b: &[Option<u8>; PIPES_COUNT]) -> (r: bool)
    ensures
        r == (*a == *b),
{
    let mut i: usize = 0;
    while i < PIPES_COUNT
        invariant
            i <= PIPES_COUNT,
            forall|j: int| 0 <= j < i ==> a@[j] == b@[j],
        decreases PIPES_COUNT - i,
    {
        let equal = match (a[i], b[i]) {
            (Some(x), Some(y)) => x == y,
            (None, None) => true,
            _ => false,
        };
        if !equal {
            return false;
        }
        i = i + 1;
    }
    assert(*a =~= *b);
    true
}

impl<'a, B: Bus> NRF24L01<'a, B> {
    /// Discards the RX FIFO. The `NRF24L01Configuration` method of the same
    /// purpose delegates here; verified callers call this one.
    pub fn apply_flush_rx(&mut self) -> (r: Result<(), Error<B::Error>>)
        ensures
            final(self).same_state(old(self)),
            appended(old(self).trace(), final(self).trace(), seq![BusOp::Exchange(Command::FlushRx.frame())]),
            (r is Err) == final(self).trace().last().failed,
            r is Err ==> is_bus_failure(r),
            r is Err ==> Self::ended_in_failure(old(self), final(self)),
            r is Err ==> final(self).trace().subrange(0, old(self).trace().len() as int) == old(self).trace(),
            r matches Err(Error::TransportFailure(e)) ==> final(self).last_bus_error() == Some(e),
    {
        match self.send_command(&Command::FlushRx) {
            Ok(_) => Ok(()),
            Err(e) => Err(e),
        }
    }

    /// Discards the TX FIFO. The `NRF24L01Configuration` method of the same
    /// purpose delegates here; verified callers call this one.
    pub fn apply_flush_tx(&mut self) -> (r: Result<(), Error<B::Error>>)
        ensures
            final(self).same_state(old(self)),
            appended(old(self).trace(), final(self).trace(), seq![BusOp::Exchange(Command::FlushTx.frame())]),
            (r is Err) == final(self).trace().last().failed,
            r is Err ==> is_bus_failure(r),
            r is Err ==> Self::ended_in_failure(old(self), final(self)),
            r is Err ==> final(self).trace().subrange(0, old(self).trace().len() as int) == old(self).trace(),
            r matches Err(Error::TransportFailure(e)) ==> final(self).last_bus_error() == Some(e),
    {
        match self.send_command(&Command::FlushTx) {
            Ok(_) => Ok(()),
            Err(e) => Err(e),
        }
    }

    /// Sets the RF channel. The `NRF24L01Configuration` method of the same
    /// purpose delegates here; verified callers call this one.
    pub fn apply_rf_channel(&mut self, rf_channel: u8) -> (r: Result<(), Error<B::Error>>)
        requires
            rf_channel < 126,
        ensures
            r is Ok ==> Self::setter_post(old(self), final(self),
                (NRF24L01Config { rf_channel, ..old(self).settings() }),
                seq![write_op(RF_CH, seq![rf_channel])]),
            r is Err ==> is_bus_failure(r) && final(self).same_state(old(self)),
            appended(old(self).trace(), final(self).trace(), seq![write_op(RF_CH, seq![rf_channel])]),
            (r is Err) == final(self).trace().last().failed,
            r is Err ==> Self::ended_in_failure(old(self), final(self)),
            r is Err ==> final(self).trace().subrange(0, old(self).trace().len() as int) == old(self).trace(),
            r matches Err(Error::TransportFailure(e)) ==> final(self).last_bus_error() == Some(e),
    {
        match self.write_register_byte(RF_CH, rf_channel) {
            Ok(_) => {},
            Err(e) => return Err(e),
        }
        self.nrf_config.rf_channel = rf_channel;
        Ok(())
    }

    /// Sets the data rate; the power level comes from the present configuration. The `NRF24L01Configuration` method of the same
    /// purpose delegates here; verified callers call this one.
    pub fn apply_data_rate(&mut self, rate: DataRate) -> (r: Result<(), Error<B::Error>>)
        ensures
            r is Ok ==> Self::setter_post(old(self), final(self),
                (NRF24L01Config { data_rate: rate, ..old(self).settings() }),
                seq![write_op(RF_SETUP, seq![rf_setup_byte(rate, old(self).settings().pa_level)])]),
            r is Err ==> is_bus_failure(r) && final(self).same_state(old(self)),
            appended(old(self).trace(), final(self).trace(), seq![write_op(RF_SETUP, seq![rf_setup_byte(rate, old(self).settings().pa_level)])]),
            (r is Err) == final(self).trace().last().failed,
            r is Err ==> Self::ended_in_failure(old(self), final(self)),
            r is Err ==> final(self).trace().subrange(0, old(self).trace().len() as int) == old(self).trace(),
            r matches Err(Error::TransportFailure(e)) ==> final(self).last_bus_error() == Some(e),
    {
        // Rate and power share the register: the power comes from the shadow.
        let value = rf_setup(rate, self.nrf_config.pa_level);
        match self.write_register_byte(RF_SETUP, value) {
            Ok(_) => {},
            Err(e) => return Err(e),
        }
        self.nrf_config.data_rate = rate;
        Ok(())
    }

    /// Sets the power-amplifier level; the data rate comes from the present configuration. The `NRF24L01Configuration` method of the same
    /// purpose delegates here; verified callers call this one.
    pub fn apply_pa_level(&mut self, power: PALevel) -> (r: Result<(), Error<B::Error>>)
        ensures
            r is Ok ==> Self::setter_post(old(self), final(self),
                (NRF24L01Config { pa_level: power, ..old(self).settings() }),
                seq![write_op(RF_SETUP, seq![rf_setup_byte(old(self).settings().data_rate, power)])]),
            r is Err ==> is_bus_failure(r) && final(self).same_state(old(self)),
            appended(old(self).trace(), final(self).trace(), seq![write_op(RF_SETUP, seq![rf_setup_byte(old(self).settings().data_rate, power)])]),
            (r is Err) == final(self).trace().last().failed,
            r is Err ==> Self::ended_in_failure(old(self), final(self)),
            r is Err ==> final(self).trace().subrange(0, old(self).trace().len() as int) == old(self).trace(),
            r matches Err(Error::TransportFailure(e)) ==> final(self).last_bus_error() == Some(e),
    {
        // Rate and power share the register: the rate comes from the shadow.
        let value = rf_setup(self.nrf_config.data_rate, power);
        match self.write_register_byte(RF_SETUP, value) {
            Ok(_) => {},
            Err(e) => return Err(e),
        }
        self.nrf_config.pa_level = power;
        Ok(())
    }

    /// Sets the CRC mode in the control register. The `NRF24L01Configuration` method of the same
    /// purpose delegates here; verified callers call this one.
    pub fn apply_crc_mode(&mut self, mode: CrcMode) -> (r: Result<(), Error<B::Error>>)
        ensures
            r is Ok ==> Self::config_setter_post(old(self), final(self),
                (NRF24L01Config { crc_mode: mode, ..old(self).settings() }),
                crc_mask(), crc_bits(mode)),
            merge_bits(old(self).shadow(), crc_mask(), crc_bits(mode)) == old(self).shadow() ==> r is Ok
                && final(self).trace() == old(self).trace(),
            r is Err ==> is_bus_failure(r) && final(self).same_state(old(self)),
            r is Err ==> Self::ended_in_failure(old(self), final(self)) && appended(
                old(self).trace(),
                final(self).trace(),
                config_update_ops(old(self).shadow(), crc_mask(), crc_bits(mode)),
            ),
            r is Ok && old(self).mode_bits_agree() ==> final(self).mode_bits_agree(),
            r is Err ==> Self::ended_in_failure(old(self), final(self)),
            r is Err ==> final(self).trace().subrange(0, old(self).trace().len() as int) == old(self).trace(),
            r matches Err(Error::TransportFailure(e)) ==> final(self).last_bus_error() == Some(e),
    {
        proof {
            lemma_field_masks_spare_mode_bits();
        }
        let bits = crc_config(mode);
        match self.update_config(EN_CRC + CRCO, bits) {
            Ok(()) => {},
            Err(e) => return Err(e),
        }
        self.nrf_config.crc_mode = mode;
        Ok(())
    }

    /// Sets the interrupt mask in the control register. The `NRF24L01Configuration` method of the same
    /// purpose delegates here; verified callers call this one.
    pub fn apply_interrupt_mask(&mut self, interrupt_mask: InterruptMask) -> (r: Result<(), Error<B::Error>>)
        ensures
            r is Ok ==> Self::config_setter_post(old(self), final(self),
                (NRF24L01Config { interrupt_mask, ..old(self).settings() }),
                irq_mask(), mask_bits(interrupt_mask)),
            merge_bits(old(self).shadow(), irq_mask(), mask_bits(interrupt_mask)) == old(self).shadow() ==> r is Ok
                && final(self).trace() == old(self).trace(),
            r is Err ==> is_bus_failure(r) && final(self).same_state(old(self)),
            r is Err ==> Self::ended_in_failure(old(self), final(self)) && appended(
                old(self).trace(),
                final(self).trace(),
                config_update_ops(old(self).shadow(), irq_mask(), mask_bits(interrupt_mask)),
            ),
            r is Ok && old(self).mode_bits_agree() ==> final(self).mode_bits_agree(),
            r is Err ==> Self::ended_in_failure(old(self), final(self)),
            r is Err ==> final(self).trace().subrange(0, old(self).trace().len() as int) == old(self).trace(),
            r matches Err(Error::TransportFailure(e)) ==> final(self).last_bus_error() == Some(e),
    {
        proof {
            lemma_field_masks_spare_mode_bits();
        }
        let bits = interrupt_mask_config(interrupt_mask);
        match self.update_config(MASK_RX_DR + MASK_TX_DS + MASK_MAX_RT, bits) {
            Ok(()) => {},
            Err(e) => return Err(e),
        }
        self.nrf_config.interrupt_mask = interrupt_mask;
        Ok(())
    }

    /// Sets the read-enabled pipes. The `NRF24L01Configuration` method of the same
    /// purpose delegates here; verified callers call this one.
    pub fn apply_read_enabled_pipes(&mut self, read_enabled_pipes: &[bool; PIPES_COUNT]) -> (r: Result<(), Error<B::Error>>)
        ensures
            r is Ok ==> Self::setter_post(old(self), final(self),
                (NRF24L01Config { read_enabled_pipes: *read_enabled_pipes, ..old(self).settings() }),
                seq![write_op(EN_RXADDR, seq![pipe_bits(read_enabled_pipes@)])]),
            r is Err ==> is_bus_failure(r) && final(self).same_state(old(self)),
            appended(old(self).trace(), final(self).trace(), seq![write_op(EN_RXADDR, seq![pipe_bits(read_enabled_pipes@)])]),
            (r is Err) == final(self).trace().last().failed,
            r is Err ==> Self::ended_in_failure(old(self), final(self)),
            r is Err ==> final(self).trace().subrange(0, old(self).trace().len() as int) == old(self).trace(),
            r matches Err(Error::TransportFailure(e)) ==> final(self).last_bus_error() == Some(e),
    {
        match self.write_register_byte(EN_RXADDR, pipe_flags(read_enabled_pipes)) {
            Ok(_) => {},
            Err(e) => return Err(e),
        }
        self.nrf_config.read_enabled_pipes = *read_enabled_pipes;
        Ok(())
    }

    /// Sets the receive address of one pipe. The `NRF24L01Configuration` method of the same
    /// purpose delegates here; verified callers call this one.
    pub fn apply_rx_addr(&mut self, pipe_no: usize, addr: &'a [u8]) -> (r: Result<(), Error<B::Error>>)
        requires
            pipe_no < PIPES_COUNT,
            addr@.len() <= MAX_ADDR_BYTES,
        ensures
            r is Ok ==> Self::setter_post(old(self), final(self),
                (NRF24L01Config { rx_addr: final(self).settings().rx_addr, ..old(self).settings() }),
                seq![write_op((RX_ADDR_P0 + pipe_no) as u8, addr@)]),
            r is Ok ==> final(self).settings().rx_addr@ == old(self).settings().rx_addr@.update(pipe_no as int, addr),
            r is Err ==> is_bus_failure(r) && final(self).same_state(old(self)),
            appended(old(self).trace(), final(self).trace(), seq![write_op((RX_ADDR_P0 + pipe_no) as u8, addr@)]),
            (r is Err) == final(self).trace().last().failed,
            r is Err ==> Self::ended_in_failure(old(self), final(self)),
            r is Err ==> final(self).trace().subrange(0, old(self).trace().len() as int) == old(self).trace(),
            r matches Err(Error::TransportFailure(e)) ==> final(self).last_bus_error() == Some(e),
    {
        let mut data: Vec<u8> = Vec::new();
        let mut i: usize = 0;
        while i < addr.len()
            invariant
                i <= addr@.len(),
                data@ == addr@.subrange(0, i as int),
            decreases addr@.len() - i,
        {
            data.push(addr[i]);
            i = i + 1;
            assert(data@ =~= addr@.subrange(0, i as int));
        }
        assert(data@ =~= addr@);
        match self.write_register(RX_ADDR_P0 + pipe_no as u8, data) {
            Ok(_) => {},
            Err(e) => return Err(e),
        }
        self.nrf_config.rx_addr[pipe_no] = addr;
        Ok(())
    }

    /// Sets the transmit address. The `NRF24L01Configuration` method of the same
    /// purpose delegates here; verified callers call this one.
    pub fn apply_tx_addr(&mut self, addr: &'a [u8]) -> (r: Result<(), Error<B::Error>>)
        requires
            addr@.len() <= MAX_ADDR_BYTES,
        ensures
            r is Ok ==> Self::setter_post(old(self), final(self),
                (NRF24L01Config { tx_addr: addr, ..old(self).settings() }),
                seq![write_op(TX_ADDR, addr@)]),
            r is Err ==> is_bus_failure(r) && final(self).same_state(old(self)),
            appended(old(self).trace(), final(self).trace(), seq![write_op(TX_ADDR, addr@)]),
            (r is Err) == final(self).trace().last().failed,
            r is Err ==> Self::ended_in_failure(old(self), final(self)),
            r is Err ==> final(self).trace().subrange(0, old(self).trace().len() as int) == old(self).trace(),
            r matches Err(Error::TransportFailure(e)) ==> final(self).last_bus_error() == Some(e),
    {
        let mut data: Vec<u8> = Vec::new();
        let mut i: usize = 0;
        while i < addr.len()
            invariant
                i <= addr@.len(),
                data@ == addr@.subrange(0, i as int),
            decreases addr@.len() - i,
        {
            data.push(addr[i]);
            i = i + 1;
            assert(data@ =~= addr@.subrange(0, i as int));
        }
        assert(data@ =~= addr@);
        match self.write_register(TX_ADDR, data) {
            Ok(_) => {},
            Err(e) => return Err(e),
        }
        self.nrf_config.tx_addr = addr;
        Ok(())
    }

    /// Sets the retransmit delay and count. The `NRF24L01Configuration` method of the same
    /// purpose delegates here; verified callers call this one.
    pub fn apply_retransmit_config(&mut self, delay: u8, count: u8) -> (r: Result<(), Error<B::Error>>)
        requires
            delay < 16,
            count < 16,
        ensures
            r is Ok ==> Self::setter_post(old(self), final(self),
                (NRF24L01Config { retransmit_config: RetransmitConfig { delay, count }, ..old(self).settings() }),
                seq![write_op(SETUP_RETR, seq![setup_retr_byte(delay, count)])]),
            r is Err ==> is_bus_failure(r) && final(self).same_state(old(self)),
            appended(old(self).trace(), final(self).trace(), seq![write_op(SETUP_RETR, seq![setup_retr_byte(delay, count)])]),
            (r is Err) == final(self).trace().last().failed,
            r is Err ==> Self::ended_in_failure(old(self), final(self)),
            r is Err ==> final(self).trace().subrange(0, old(self).trace().len() as int) == old(self).trace(),
            r matches Err(Error::TransportFailure(e)) ==> final(self).last_bus_error() == Some(e),
    {
        match self.write_register_byte(SETUP_RETR, setup_retr(delay, count)) {
            Ok(_) => {},
            Err(e) => return Err(e),
        }
        self.nrf_config.retransmit_config = RetransmitConfig { delay, count };
        Ok(())
    }

    /// Sets the auto-acknowledging pipes. The `NRF24L01Configuration` method of the same
    /// purpose delegates here; verified callers call this one.
    pub fn apply_auto_ack(&mut self, auto_ack_pipes: [bool; PIPES_COUNT]) -> (r: Result<(), Error<B::Error>>)
        ensures
            r is Ok ==> Self::setter_post(old(self), final(self),
                (NRF24L01Config { auto_ack_pipes, ..old(self).settings() }),
                seq![write_op(EN_AA, seq![pipe_bits(auto_ack_pipes@)])]),
            r is Err ==> is_bus_failure(r) && final(self).same_state(old(self)),
            appended(old(self).trace(), final(self).trace(), seq![write_op(EN_AA, seq![pipe_bits(auto_ack_pipes@)])]),
            (r is Err) == final(self).trace().last().failed,
            r is Err ==> Self::ended_in_failure(old(self), final(self)),
            r is Err ==> final(self).trace().subrange(0, old(self).trace().len() as int) == old(self).trace(),
            r matches Err(Error::TransportFailure(e)) ==> final(self).last_bus_error() == Some(e),
    {
        match self.write_register_byte(EN_AA, pipe_flags(&auto_ack_pipes)) {
            Ok(_) => {},
            Err(e) => return Err(e),
        }
        self.nrf_config.auto_ack_pipes = auto_ack_pipes;
        Ok(())
    }

    /// Sets the address width. The `NRF24L01Configuration` method of the same
    /// purpose delegates here; verified callers call this one.
    pub fn apply_address_width(&mut self, width: u8) -> (r: Result<(), Error<B::Error>>)
        requires
            3 <= width <= MAX_ADDR_BYTES,
        ensures
            r is Ok ==> Self::setter_post(old(self), final(self),
                (NRF24L01Config { address_width: width, ..old(self).settings() }),
                seq![write_op(SETUP_AW, seq![(width - 2) as u8])]),
            r is Err ==> is_bus_failure(r) && final(self).same_state(old(self)),
            appended(old(self).trace(), final(self).trace(), seq![write_op(SETUP_AW, seq![(width - 2) as u8])]),
            (r is Err) == final(self).trace().last().failed,
            r is Err ==> Self::ended_in_failure(old(self), final(self)),
            r is Err ==> final(self).trace().subrange(0, old(self).trace().len() as int) == old(self).trace(),
            r matches Err(Error::TransportFailure(e)) ==> final(self).last_bus_error() == Some(e),
    {
        match self.write_register_byte(SETUP_AW, width - 2) {
            Ok(_) => {},
            Err(e) => return Err(e),
        }
        self.nrf_config.address_width = width;
        Ok(())
    }

    /// Sets the payload length of each pipe. The `NRF24L01Configuration` method of the same
    /// purpose delegates here; verified callers call this one.
    pub fn apply_pipes_payload_lengths(&mut self, lengths: [Option<u8>; PIPES_COUNT]) -> (r: Result<(), Error<B::Error>>)
        requires
            forall|i: int| 0 <= i < PIPES_COUNT ==> payload_length_ok(#[trigger] lengths@[i]),
        ensures
            r is Ok ==> Self::setter_post(old(self), final(self),
                (NRF24L01Config { pipe_payload_lengths: lengths, ..old(self).settings() }),
                payload_lengths_ops(lengths@, reply_byte(final(self).trace()[old(self).trace().len() as int].reply, 0))),
            r is Err ==> is_bus_failure(r) && final(self).same_state(old(self)),
            r is Err ==> Self::ended_in_failure(old(self), final(self)),
            r is Err ==> Self::ended_in_failure(old(self), final(self)),
            r is Err ==> final(self).trace().subrange(0, old(self).trace().len() as int) == old(self).trace(),
            r matches Err(Error::TransportFailure(e)) ==> final(self).last_bus_error() == Some(e),
    {
        let ghost t0 = self.trace@;
        let mut dynamic = [true; PIPES_COUNT];
        let mut i: usize = 0;
        while i < PIPES_COUNT
            invariant
                i <= PIPES_COUNT,
                forall|j: int| 0 <= j < i ==> dynamic@[j] == (lengths@[j] is None),
            decreases PIPES_COUNT - i,
        {
            dynamic[i] = lengths[i].is_none();
            i = i + 1;
        }
        assert(dynamic@ =~= dynamic_pipes(lengths@));
        let dynpd = pipe_flags(&dynamic);
        let ghost head: Seq<BusOp>;
        if dynpd != 0 {
            // Dynamic lengths need the feature bit before the per-pipe bitmap.
            let feature = match self.read_register_byte(FEATURE) {
                Ok((_, feature)) => feature,
                Err(e) => return Err(e),
            };
            let ghost t1 = self.trace@;
            match self.write_register_byte(FEATURE, feature | EN_DPL) {
                Ok(_) => {},
                Err(e) => return Err(e),
            }
            proof {
                head = seq![read_op(FEATURE, 1), write_op(FEATURE, seq![feature | EN_DPL])];
                lemma_appended_trans(t0, t1, self.trace@, seq![read_op(FEATURE, 1)], seq![write_op(FEATURE, seq![feature | EN_DPL])]);
                assert(seq![read_op(FEATURE, 1)] + seq![write_op(FEATURE, seq![feature | EN_DPL])] =~= head);
            }
        } else {
            proof {
                head = seq![];
                lemma_appended_refl(t0);
            }
        }
        let ghost t2 = self.trace@;
        match self.write_register_byte(DYNPD, dynpd) {
            Ok(_) => {},
            Err(e) => return Err(e),
        }
        let ghost t3 = self.trace@;
        proof {
            lemma_appended_trans(t0, t2, t3, head, seq![write_op(DYNPD, seq![dynpd])]);
            lemma_appended_refl(t3);
            assert(payload_width_ops(lengths@).take(0) =~= seq![]);
        }
        // Static lengths are written for every pipe; the chip ignores them on
        // pipes with dynamic lengths.
        let mut pipe: usize = 0;
        while pipe < PIPES_COUNT
            invariant
                pipe <= PIPES_COUNT,
                self.same_state(old(self)),
                appended(t3, self.trace@, payload_width_ops(lengths@).take(pipe as int)),
                no_failure(t3, self.trace@),
                no_failure(t0, t3),
                t0.len() <= t3.len(),
                t3.subrange(0, t0.len() as int) == t0,
                t0 == old(self).trace(),
            decreases PIPES_COUNT - pipe,
        {
            let length = match lengths[pipe] {
                Some(n) => n,
                None => 0u8,
            };
            let ghost tb = self.trace@;
            match self.write_register_byte(RX_PW_P0 + pipe as u8, length) {
                Ok(_) => {},
                Err(e) => return Err(e),
            }
            proof {
                lemma_appended_trans(t3, tb, self.trace@, payload_width_ops(lengths@).take(pipe as int),
                    seq![write_op((RX_PW_P0 + pipe) as u8, seq![length])]);
                assert(payload_width_ops(lengths@).take(pipe as int) + seq![write_op((RX_PW_P0 + pipe) as u8, seq![length])]
                    =~= payload_width_ops(lengths@).take(pipe + 1));
            }
            pipe = pipe + 1;
        }
        proof {
            assert(payload_width_ops(lengths@).take(6) =~= payload_width_ops(lengths@));
            lemma_appended_trans(t0, t3, self.trace@, head + seq![write_op(DYNPD, seq![dynpd])], payload_width_ops(lengths@));
            if dynpd != 0 {
                assert(self.trace@[t0.len() as int] == t3[t0.len() as int]);
            }
        }
        self.nrf_config.pipe_payload_lengths = lengths;
        Ok(())
    }

    /// Applies the data rate of `configuration` if it differs from the present one.
    fn sync_data_rate(&mut self, configuration: &NRF24L01Config<'a>) -> (r: Result<(), Error<B::Error>>)
        requires
            configuration.valid(),
        ensures
            r is Ok ==> Self::synced(old(self), final(self),
                (NRF24L01Config { data_rate: configuration.data_rate, ..old(self).settings() }),
                old(self).shadow()),
            r is Ok ==> appended(old(self).trace(), final(self).trace(), rate_ops(old(self).settings(), *configuration)),
            r is Err ==> is_bus_failure(r),
            configuration.data_rate == old(self).settings().data_rate ==> r is Ok && final(self).trace() == old(self).trace(),
            r is Err ==> Self::ended_in_failure(old(self), final(self)) && final(self).current_mode() == old(self).current_mode(),
            r is Err ==> final(self).settings() == old(self).settings(),
            r is Err ==> Self::ended_in_failure(old(self), final(self)),
            r is Err ==> final(self).trace().subrange(0, old(self).trace().len() as int) == old(self).trace(),
            r matches Err(Error::TransportFailure(e)) ==> final(self).last_bus_error() == Some(e),
    {
        if configuration.data_rate != self.nrf_config.data_rate {
            self.apply_data_rate(configuration.data_rate)
        } else {
            proof { lemma_appended_refl(self.trace@); }
            Ok(())
        }
    }

    /// Applies the RF channel of `configuration` if it differs from the present one.
    fn sync_rf_channel(&mut self, configuration: &NRF24L01Config<'a>) -> (r: Result<(), Error<B::Error>>)
        requires
            configuration.valid(),
        ensures
            r is Ok ==> Self::synced(old(self), final(self),
                (NRF24L01Config { rf_channel: configuration.rf_channel, ..old(self).settings() }),
                old(self).shadow()),
            r is Ok ==> appended(old(self).trace(), final(self).trace(), channel_ops(old(self).settings(), *configuration)),
            r is Err ==> is_bus_failure(r),
            configuration.rf_channel == old(self).settings().rf_channel ==> r is Ok && final(self).trace() == old(self).trace(),
            r is Err ==> Self::ended_in_failure(old(self), final(self)) && final(self).current_mode() == old(self).current_mode(),
            r is Err ==> final(self).settings() == old(self).settings(),
            r is Err ==> Self::ended_in_failure(old(self), final(self)),
            r is Err ==> final(self).trace().subrange(0, old(self).trace().len() as int) == old(self).trace(),
            r matches Err(Error::TransportFailure(e)) ==> final(self).last_bus_error() == Some(e),
    {
        if configuration.rf_channel != self.nrf_config.rf_channel {
            self.apply_rf_channel(configuration.rf_channel)
        } else {
            proof { lemma_appended_refl(self.trace@); }
            Ok(())
        }
    }

    /// Applies the power-amplifier level of `configuration` if it differs from the present one.
    fn sync_pa_level(&mut self, configuration: &NRF24L01Config<'a>) -> (r: Result<(), Error<B::Error>>)
        requires
            configuration.valid(),
        ensures
            r is Ok ==> Self::synced(old(self), final(self),
                (NRF24L01Config { pa_level: configuration.pa_level, ..old(self).settings() }),
                old(self).shadow()),
            r is Ok ==> appended(old(self).trace(), final(self).trace(), pa_ops(old(self).settings(), *configuration)),
            r is Err ==> is_bus_failure(r),
            configuration.pa_level == old(self).settings().pa_level ==> r is Ok && final(self).trace() == old(self).trace(),
            r is Err ==> Self::ended_in_failure(old(self), final(self)) && final(self).current_mode() == old(self).current_mode(),
            r is Err ==> final(self).settings() == old(self).settings(),
            r is Err ==> Self::ended_in_failure(old(self), final(self)),
            r is Err ==> final(self).trace().subrange(0, old(self).trace().len() as int) == old(self).trace(),
            r matches Err(Error::TransportFailure(e)) ==> final(self).last_bus_error() == Some(e),
    {
        if configuration.pa_level != self.nrf_config.pa_level {
            self.apply_pa_level(configuration.pa_level)
        } else {
            proof { lemma_appended_refl(self.trace@); }
            Ok(())
        }
    }

    /// Applies the read-enabled pipes of `configuration` if they differ from the present ones.
    fn sync_read_enabled_pipes(&mut self, configuration: &NRF24L01Config<'a>) -> (r: Result<(), Error<B::Error>>)
        requires
            configuration.valid(),
        ensures
            r is Ok ==> Self::synced(old(self), final(self),
                (NRF24L01Config { read_enabled_pipes: configuration.read_enabled_pipes, ..old(self).settings() }),
                old(self).shadow()),
            r is Ok ==> appended(old(self).trace(), final(self).trace(), read_enabled_ops(old(self).settings(), *configuration)),
            r is Err ==> is_bus_failure(r),
            configuration.read_enabled_pipes == old(self).settings().read_enabled_pipes ==> r is Ok && final(self).trace() == old(self).trace(),
            r is Err ==> Self::ended_in_failure(old(self), final(self)) && final(self).current_mode() == old(self).current_mode(),
            r is Err ==> final(self).settings() == old(self).settings(),
            r is Err ==> Self::ended_in_failure(old(self), final(self)),
            r is Err ==> final(self).trace().subrange(0, old(self).trace().len() as int) == old(self).trace(),
            r matches Err(Error::TransportFailure(e)) ==> final(self).last_bus_error() == Some(e),
    {
        if !same_flags(&configuration.read_enabled_pipes, &self.nrf_config.read_enabled_pipes) {
            self.apply_read_enabled_pipes(&configuration.read_enabled_pipes)
        } else {
            proof { lemma_appended_refl(self.trace@); }
            Ok(())
        }
    }

    /// Applies the transmit address of `configuration` if it differs from the present one.
    fn sync_tx_addr(&mut self, configuration: &NRF24L01Config<'a>) -> (r: Result<(), Error<B::Error>>)
        requires
            configuration.valid(),
        ensures
            r is Ok ==> Self::synced(old(self), final(self),
                (NRF24L01Config { tx_addr: configuration.tx_addr, ..old(self).settings() }),
                old(self).shadow()),
            r is Ok ==> appended(old(self).trace(), final(self).trace(), tx_addr_ops(old(self).settings(), *configuration)),
            r is Err ==> is_bus_failure(r),
            configuration.tx_addr == old(self).settings().tx_addr ==> r is Ok && final(self).trace() == old(self).trace(),
            r is Err ==> Self::ended_in_failure(old(self), final(self)) && final(self).current_mode() == old(self).current_mode(),
            r is Err ==> final(self).settings() == old(self).settings(),
            r is Err ==> Self::ended_in_failure(old(self), final(self)),
            r is Err ==> final(self).trace().subrange(0, old(self).trace().len() as int) == old(self).trace(),
            r matches Err(Error::TransportFailure(e)) ==> final(self).last_bus_error() == Some(e),
    {
        if !same_addr(configuration.tx_addr, self.nrf_config.tx_addr) {
            self.apply_tx_addr(configuration.tx_addr)
        } else {
            proof { lemma_appended_refl(self.trace@); }
            Ok(())
        }
    }

    /// Applies the retransmit setting of `configuration` if it differs from the present one.
    fn sync_retransmit_config(&mut self, configuration: &NRF24L01Config<'a>) -> (r: Result<(), Error<B::Error>>)
        requires
            configuration.valid(),
        ensures
            r is Ok ==> Self::synced(old(self), final(self),
                (NRF24L01Config { retransmit_config: configuration.retransmit_config, ..old(self).settings() }),
                old(self).shadow()),
            r is Ok ==> appended(old(self).trace(), final(self).trace(), retransmit_ops(old(self).settings(), *configuration)),
            r is Err ==> is_bus_failure(r),
            configuration.retransmit_config == old(self).settings().retransmit_config ==> r is Ok && final(self).trace() == old(self).trace(),
            r is Err ==> Self::ended_in_failure(old(self), final(self)) && final(self).current_mode() == old(self).current_mode(),
            r is Err ==> final(self).settings() == old(self).settings(),
            r is Err ==> Self::ended_in_failure(old(self), final(self)),
            r is Err ==> final(self).trace().subrange(0, old(self).trace().len() as int) == old(self).trace(),
            r matches Err(Error::TransportFailure(e)) ==> final(self).last_bus_error() == Some(e),
    {
        if configuration.retransmit_config != self.nrf_config.retransmit_config {
            self.apply_retransmit_config(configuration.retransmit_config.delay, configuration.retransmit_config.count)
        } else {
            proof { lemma_appended_refl(self.trace@); }
            Ok(())
        }
    }

    /// Applies the auto-acknowledge pipes of `configuration` if they differ from the present ones.
    fn sync_auto_ack_pipes(&mut self, configuration: &NRF24L01Config<'a>) -> (r: Result<(), Error<B::Error>>)
        requires
            configuration.valid(),
        ensures
            r is Ok ==> Self::synced(old(self), final(self),
                (NRF24L01Config { auto_ack_pipes: configuration.auto_ack_pipes, ..old(self).settings() }),
                old(self).shadow()),
            r is Ok ==> appended(old(self).trace(), final(self).trace(), auto_ack_ops(old(self).settings(), *configuration)),
            r is Err ==> is_bus_failure(r),
            configuration.auto_ack_pipes == old(self).settings().auto_ack_pipes ==> r is Ok && final(self).trace() == old(self).trace(),
            r is Err ==> Self::ended_in_failure(old(self), final(self)) && final(self).current_mode() == old(self).current_mode(),
            r is Err ==> final(self).settings() == old(self).settings(),
            r is Err ==> Self::ended_in_failure(old(self), final(self)),
            r is Err ==> final(self).trace().subrange(0, old(self).trace().len() as int) == old(self).trace(),
            r matches Err(Error::TransportFailure(e)) ==> final(self).last_bus_error() == Some(e),
    {
        if !same_flags(&configuration.auto_ack_pipes, &self.nrf_config.auto_ack_pipes) {
            self.apply_auto_ack(configuration.auto_ack_pipes)
        } else {
            proof { lemma_appended_refl(self.trace@); }
            Ok(())
        }
    }

    /// Applies the address width of `configuration` if it differs from the present one.
    fn sync_address_width(&mut self, configuration: &NRF24L01Config<'a>) -> (r: Result<(), Error<B::Error>>)
        requires
            configuration.valid(),
        ensures
            r is Ok ==> Self::synced(old(self), final(self),
                (NRF24L01Config { address_width: configuration.address_width, ..old(self).settings() }),
                old(self).shadow()),
            r is Ok ==> appended(old(self).trace(), final(self).trace(), width_ops(old(self).settings(), *configuration)),
            r is Err ==> is_bus_failure(r),
            configuration.address_width == old(self).settings().address_width ==> r is Ok && final(self).trace() == old(self).trace(),
            r is Err ==> Self::ended_in_failure(old(self), final(self)) && final(self).current_mode() == old(self).current_mode(),
            r is Err ==> final(self).settings() == old(self).settings(),
            r is Err ==> Self::ended_in_failure(old(self), final(self)),
            r is Err ==> final(self).trace().subrange(0, old(self).trace().len() as int) == old(self).trace(),
            r matches Err(Error::TransportFailure(e)) ==> final(self).last_bus_error() == Some(e),
    {
        if configuration.address_width != self.nrf_config.address_width {
            self.apply_address_width(configuration.address_width)
        } else {
            proof { lemma_appended_refl(self.trace@); }
            Ok(())
        }
    }

    /// Applies the payload lengths of `configuration` if they differ from the present ones.
    fn sync_pipe_payload_lengths(&mut self, configuration: &NRF24L01Config<'a>) -> (r: Result<(), Error<B::Error>>)
        requires
            configuration.valid(),
        ensures
            r is Ok ==> Self::synced(old(self), final(self),
                (NRF24L01Config { pipe_payload_lengths: configuration.pipe_payload_lengths, ..old(self).settings() }),
                old(self).shadow()),
            r is Ok ==> appended(old(self).trace(), final(self).trace(), lengths_ops(old(self).settings(), *configuration, reply_byte(final(self).trace()[old(self).trace().len() as int].reply, 0))),
            r is Err ==> is_bus_failure(r),
            configuration.pipe_payload_lengths == old(self).settings().pipe_payload_lengths ==> r is Ok && final(self).trace() == old(self).trace(),
            r is Err ==> Self::ended_in_failure(old(self), final(self)) && final(self).current_mode() == old(self).current_mode(),
            r is Err ==> final(self).settings() == old(self).settings(),
            r is Err ==> Self::ended_in_failure(old(self), final(self)),
            r is Err ==> final(self).trace().subrange(0, old(self).trace().len() as int) == old(self).trace(),
            r matches Err(Error::TransportFailure(e)) ==> final(self).last_bus_error() == Some(e),
    {
        if !same_lengths(&configuration.pipe_payload_lengths, &self.nrf_config.pipe_payload_lengths) {
            self.apply_pipes_payload_lengths(configuration.pipe_payload_lengths)
        } else {
            proof { lemma_appended_refl(self.trace@); }
            Ok(())
        }
    }

    /// Applies the CRC mode of `configuration` if it differs from the present one.
    fn sync_crc_mode(&mut self, configuration: &NRF24L01Config<'a>) -> (r: Result<(), Error<B::Error>>)
        requires
            configuration.valid(),
        ensures
            r is Ok ==> Self::synced(old(self), final(self),
                (NRF24L01Config { crc_mode: configuration.crc_mode, ..old(self).settings() }),
                if configuration.crc_mode != old(self).settings().crc_mode {
                    merge_bits(old(self).shadow(), crc_mask(), crc_bits(configuration.crc_mode))
                } else {
                    old(self).shadow()
                }),
            r is Ok ==> appended(old(self).trace(), final(self).trace(), crc_ops(old(self).settings(), old(self).shadow(), *configuration)),
            r is Err ==> is_bus_failure(r),
            configuration.crc_mode == old(self).settings().crc_mode ==> r is Ok && final(self).trace() == old(self).trace(),
            r is Err ==> Self::ended_in_failure(old(self), final(self)) && final(self).current_mode() == old(self).current_mode(),
            r is Err ==> final(self).settings() == old(self).settings(),
            r is Ok && old(self).mode_bits_agree() ==> final(self).mode_bits_agree(),
            r is Err ==> Self::ended_in_failure(old(self), final(self)),
            r is Err ==> final(self).trace().subrange(0, old(self).trace().len() as int) == old(self).trace(),
            r matches Err(Error::TransportFailure(e)) ==> final(self).last_bus_error() == Some(e),
    {
        if configuration.crc_mode != self.nrf_config.crc_mode {
            self.apply_crc_mode(configuration.crc_mode)
        } else {
            proof { lemma_appended_refl(self.trace@); }
            Ok(())
        }
    }

    /// Applies the interrupt mask of `configuration` if it differs from the present one.
    fn sync_interrupt_mask(&mut self, configuration: &NRF24L01Config<'a>) -> (r: Result<(), Error<B::Error>>)
        requires
            configuration.valid(),
        ensures
            r is Ok ==> Self::synced(old(self), final(self),
                (NRF24L01Config { interrupt_mask: configuration.interrupt_mask, ..old(self).settings() }),
                if configuration.interrupt_mask != old(self).settings().interrupt_mask {
                    merge_bits(old(self).shadow(), irq_mask(), mask_bits(configuration.interrupt_mask))
                } else {
                    old(self).shadow()
                }),
            r is Ok ==> appended(old(self).trace(), final(self).trace(), mask_ops(old(self).settings(), old(self).shadow(), *configuration)),
            r is Err ==> is_bus_failure(r),
            configuration.interrupt_mask == old(self).settings().interrupt_mask ==> r is Ok && final(self).trace() == old(self).trace(),
            r is Err ==> Self::ended_in_failure(old(self), final(self)) && final(self).current_mode() == old(self).current_mode(),
            r is Err ==> final(self).settings() == old(self).settings(),
            r is Ok && old(self).mode_bits_agree() ==> final(self).mode_bits_agree(),
            r is Err ==> Self::ended_in_failure(old(self), final(self)),
            r is Err ==> final(self).trace().subrange(0, old(self).trace().len() as int) == old(self).trace(),
            r matches Err(Error::TransportFailure(e)) ==> final(self).last_bus_error() == Some(e),
    {
        if configuration.interrupt_mask != self.nrf_config.interrupt_mask {
            self.apply_interrupt_mask(configuration.interrupt_mask)
        } else {
            proof { lemma_appended_refl(self.trace@); }
            Ok(())
        }
    }

    /// Applies the receive addresses of `configuration`, all six pipes, if any differs.
    fn sync_rx_addr(&mut self, configuration: &NRF24L01Config<'a>) -> (r: Result<(), Error<B::Error>>)
        requires
            configuration.valid(),
        ensures
            r is Ok ==> Self::synced(old(self), final(self),
                (NRF24L01Config { rx_addr: configuration.rx_addr, ..old(self).settings() }),
                old(self).shadow()),
            r is Ok ==> appended(old(self).trace(), final(self).trace(), rx_addr_ops(old(self).settings(), *configuration)),
            r is Err ==> is_bus_failure(r),
            configuration.rx_addr == old(self).settings().rx_addr ==> r is Ok && final(self).trace() == old(self).trace(),
            r is Err ==> Self::ended_in_failure(old(self), final(self)) && final(self).current_mode() == old(self).current_mode(),
            r is Err ==> final(self).settings() == (NRF24L01Config { rx_addr: final(self).settings().rx_addr, ..old(self).settings() }),
            r is Err ==> forall|i: int| 0 <= i < PIPES_COUNT ==> #[trigger] final(self).settings().rx_addr@[i] == old(self).settings().rx_addr@[i]
                || final(self).settings().rx_addr@[i] == configuration.rx_addr@[i],
            r is Err ==> Self::ended_in_failure(old(self), final(self)),
            r is Err ==> final(self).trace().subrange(0, old(self).trace().len() as int) == old(self).trace(),
            r matches Err(Error::TransportFailure(e)) ==> final(self).last_bus_error() == Some(e),
    {
        if same_addrs(&configuration.rx_addr, &self.nrf_config.rx_addr) {
            proof { lemma_appended_refl(self.trace@); }
            return Ok(());
        }
        let ghost t0 = self.trace@;
        proof {
            lemma_appended_refl(t0);
            assert(rx_addr_writes(*configuration).take(0) =~= seq![]);
        }
        let mut pipe_no: usize = 0;
        while pipe_no < PIPES_COUNT
            invariant
                pipe_no <= PIPES_COUNT,
                configuration.valid(),
                self.mode == old(self).mode,
                self.config == old(self).config,
                self.nrf_config == (NRF24L01Config { rx_addr: self.nrf_config.rx_addr, ..old(self).nrf_config }),
                forall|j: int| 0 <= j < pipe_no ==> self.nrf_config.rx_addr@[j] == configuration.rx_addr@[j],
                forall|j: int| pipe_no <= j < PIPES_COUNT ==> self.nrf_config.rx_addr@[j] == old(self).nrf_config.rx_addr@[j],
                configuration.rx_addr != old(self).nrf_config.rx_addr,
                t0 == old(self).trace@,
                appended(t0, self.trace@, rx_addr_writes(*configuration).take(pipe_no as int)),
                no_failure(t0, self.trace@),
            decreases PIPES_COUNT - pipe_no,
        {
            let ghost tb = self.trace@;
            match self.apply_rx_addr(pipe_no, configuration.rx_addr[pipe_no]) {
                Ok(()) => {},
                Err(e) => return Err(e),
            }
            proof {
                let w = write_op((RX_ADDR_P0 + pipe_no) as u8, configuration.rx_addr@[pipe_no as int]@);
                lemma_appended_trans(t0, tb, self.trace@, rx_addr_writes(*configuration).take(pipe_no as int), seq![w]);
                assert(rx_addr_writes(*configuration).take(pipe_no as int) + seq![w]
                    =~= rx_addr_writes(*configuration).take(pipe_no + 1));
            }
            pipe_no = pipe_no + 1;
        }
        assert(self.nrf_config.rx_addr =~= configuration.rx_addr);
        assert(rx_addr_writes(*configuration).take(6) =~= rx_addr_writes(*configuration));
        Ok(())
    }

    /// Applies field `k` (not the payload lengths) of `configuration` if it
    /// differs from the present one.
    #[verifier::rlimit(40)]
    fn sync_field(&mut self, configuration: &NRF24L01Config<'a>, k: usize) -> (r: Result<(), Error<B::Error>>)
        requires
            configuration.valid(),
            k < 11,
        ensures
            r is Ok ==> Self::synced(old(self), final(self), with_field(old(self).settings(), *configuration, k as int),
                field_shadow(old(self).settings(), old(self).shadow(), *configuration, k as int)),
            r is Ok ==> appended(old(self).trace(), final(self).trace(),
                field_ops(old(self).settings(), old(self).shadow(), *configuration, k as int)),
            field_same(old(self).settings(), *configuration, k as int) ==> r is Ok && final(self).trace() == old(self).trace(),
            r is Err ==> !field_same(old(self).settings(), *configuration, k as int),
            r is Err ==> field_partly(old(self).settings(), *configuration, final(self).settings(), k as int),
            r is Err ==> is_bus_failure(r) && Self::ended_in_failure(old(self), final(self))
                && final(self).current_mode() == old(self).current_mode(),
            r is Err ==> final(self).trace().subrange(0, old(self).trace().len() as int) == old(self).trace(),
            r matches Err(Error::TransportFailure(e)) ==> final(self).last_bus_error() == Some(e),
            r is Ok && old(self).mode_bits_agree() ==> final(self).mode_bits_agree(),
    {
        let ghost s = self.nrf_config;
        let r = if k == 0 {
            self.sync_data_rate(configuration)
        } else if k == 1 {
            self.sync_crc_mode(configuration)
        } else if k == 2 {
            self.sync_rf_channel(configuration)
        } else if k == 3 {
            self.sync_pa_level(configuration)
        } else if k == 4 {
            self.sync_interrupt_mask(configuration)
        } else if k == 5 {
            self.sync_read_enabled_pipes(configuration)
        } else if k == 6 {
            self.sync_rx_addr(configuration)
        } else if k == 7 {
            self.sync_tx_addr(configuration)
        } else if k == 8 {
            self.sync_retransmit_config(configuration)
        } else if k == 9 {
            self.sync_auto_ack_pipes(configuration)
        } else {
            self.sync_address_width(configuration)
        };
        r
    }

    /// Applies a whole configuration, one setter per field that differs. The
    /// `NRF24L01Configuration` method of the same purpose delegates here;
    /// verified callers call this one.
    #[verifier::rlimit(40)]
    pub fn apply_nrf_configuration(&mut self, configuration: NRF24L01Config<'a>) -> (r: Result<(), Error<B::Error>>)
        requires
            configuration.valid(),
        ensures
            r is Ok ==> Self::synced(old(self), final(self), configuration,
                Self::configured_shadow(old(self).shadow(), old(self).settings(), configuration)),
            r is Ok ==> appended(old(self).trace(), final(self).trace(),
                ops_before(old(self).settings(), old(self).shadow(), configuration, 11) + lengths_ops(
                    applied_prefix(old(self).settings(), configuration, 11),
                    configuration,
                    reply_byte(final(self).trace()[(old(self).trace().len() + ops_before(old(self).settings(), old(self).shadow(), configuration, 11).len()) as int].reply, 0),
                )),
            configuration == old(self).settings() ==> r is Ok && final(self).trace() == old(self).trace(),
            r is Err ==> is_bus_failure(r),
            r is Err ==> exists|k: int| 0 <= k < 12 && #[trigger] Self::failed_at(old(self), final(self), configuration, k),
            r is Err ==> Self::ended_in_failure(old(self), final(self)) && final(self).current_mode() == old(self).current_mode(),
            r is Err ==> final(self).trace().subrange(0, old(self).trace().len() as int) == old(self).trace(),
            r matches Err(Error::TransportFailure(e)) ==> final(self).last_bus_error() == Some(e),
            r is Ok && old(self).mode_bits_agree() ==> final(self).mode_bits_agree(),
    {
        let ghost s0 = self.nrf_config;
        let ghost sh0 = self.config;
        let ghost t0 = self.trace@;
        proof {
            lemma_appended_refl(t0);
            assert(s0 =~= applied_prefix(s0, configuration, 0));
        }
        let mut k: usize = 0;
        while k < 11
            invariant
                k <= 11,
                configuration.valid(),
                s0 == old(self).settings(),
                sh0 == old(self).shadow(),
                t0 == old(self).trace(),
                self.mode == old(self).mode,
                self.nrf_config == applied_prefix(s0, configuration, k as int),
                self.config == shadow_upto(s0, sh0, configuration, k as int),
                appended(t0, self.trace@, ops_before(s0, sh0, configuration, k as int)),
                no_failure(t0, self.trace@),
                s0 == configuration ==> self.trace@ == t0,
                old(self).mode_bits_agree() ==> self.mode_bits_agree(),
            decreases 11 - k,
        {
            let ghost tk = self.trace@;
            let ghost sk = self.nrf_config;
            match self.sync_field(&configuration, k) {
                Ok(()) => {},
                Err(e) => {
                    proof {
                        assert(self.trace@.subrange(0, tk.len() as int) == tk);
                        assert(Self::failed_at(old(self), self, configuration, k as int));
                    }
                    return Err(e);
                },
            }
            proof {
                lemma_appended_trans(t0, tk, self.trace@, ops_before(s0, sh0, configuration, k as int),
                    field_ops(sk, shadow_upto(s0, sh0, configuration, k as int), configuration, k as int));
                assert(with_field(sk, configuration, k as int) == applied_prefix(s0, configuration, k + 1));
            }
            k = k + 1;
        }
        let ghost t11 = self.trace@;
        let ghost s11 = self.nrf_config;
        match self.sync_pipe_payload_lengths(&configuration) {
            Ok(()) => {},
            Err(e) => {
                proof {
                    assert(self.trace@.subrange(0, t11.len() as int) == t11);
                    assert(!field_same(s11, configuration, 11));
                    assert(Self::failed_at(old(self), self, configuration, 11));
                }
                return Err(e);
            },
        }
        proof {
            lemma_appended_trans(t0, t11, self.trace@, ops_before(s0, sh0, configuration, 11),
                lengths_ops(s11, configuration, reply_byte(self.trace@[t11.len() as int].reply, 0)));
            assert(self.nrf_config =~= configuration);
        }
        Ok(())
    }
}

impl<'a, B: Bus> NRF24L01Configuration<'a> for NRF24L01<'a, B> {
    type Error = Error<B::Error>;

    fn flush_rx(&mut self) -> (r: Result<(), Self::Error>)
        ensures
            final(self).same_state(old(self)),
            appended(old(self).trace(), final(self).trace(), seq![BusOp::Exchange(Command::FlushRx.frame())]),
            (r is Err) == final(self).trace().last().failed,
            r is Err ==> is_bus_failure(r),
            r is Err ==> Self::ended_in_failure(old(self), final(self)),
            r is Err ==> final(self).trace().subrange(0, old(self).trace().len() as int) == old(self).trace(),
            r matches Err(Error::TransportFailure(e)) ==> final(self).last_bus_error() == Some(e),
    {
        self.apply_flush_rx()
    }

    fn flush_tx(&mut self) -> (r: Result<(), Self::Error>)
        ensures
            final(self).same_state(old(self)),
            appended(old(self).trace(), final(self).trace(), seq![BusOp::Exchange(Command::FlushTx.frame())]),
            (r is Err) == final(self).trace().last().failed,
            r is Err ==> is_bus_failure(r),
            r is Err ==> Self::ended_in_failure(old(self), final(self)),
            r is Err ==> final(self).trace().subrange(0, old(self).trace().len() as int) == old(self).trace(),
            r matches Err(Error::TransportFailure(e)) ==> final(self).last_bus_error() == Some(e),
    {
        self.apply_flush_tx()
    }

    fn set_rf_channel(&mut self, rf_channel: u8) -> (r: Result<(), Self::Error>)
        ensures
            r is Ok ==> Self::setter_post(old(self), final(self),
                (NRF24L01Config { rf_channel, ..old(self).settings() }),
                seq![write_op(RF_CH, seq![rf_channel])]),
            r is Err ==> is_bus_failure(r) && final(self).same_state(old(self)),
            appended(old(self).trace(), final(self).trace(), seq![write_op(RF_CH, seq![rf_channel])]),
            (r is Err) == final(self).trace().last().failed,
            r is Err ==> Self::ended_in_failure(old(self), final(self)),
            r is Err ==> final(self).trace().subrange(0, old(self).trace().len() as int) == old(self).trace(),
            r matches Err(Error::TransportFailure(e)) ==> final(self).last_bus_error() == Some(e),
    {
        self.apply_rf_channel(rf_channel)
    }

    fn set_data_rate(&mut self, rate: DataRate) -> (r: Result<(), Self::Error>)
        ensures
            r is Ok ==> Self::setter_post(old(self), final(self),
                (NRF24L01Config { data_rate: rate, ..old(self).settings() }),
                seq![write_op(RF_SETUP, seq![rf_setup_byte(rate, old(self).settings().pa_level)])]),
            r is Err ==> is_bus_failure(r) && final(self).same_state(old(self)),
            appended(old(self).trace(), final(self).trace(), seq![write_op(RF_SETUP, seq![rf_setup_byte(rate, old(self).settings().pa_level)])]),
            (r is Err) == final(self).trace().last().failed,
            r is Err ==> Self::ended_in_failure(old(self), final(self)),
            r is Err ==> final(self).trace().subrange(0, old(self).trace().len() as int) == old(self).trace(),
            r matches Err(Error::TransportFailure(e)) ==> final(self).last_bus_error() == Some(e),
    {
        self.apply_data_rate(rate)
    }

    fn set_pa_level(&mut self, power: PALevel) -> (r: Result<(), Self::Error>)
        ensures
            r is Ok ==> Self::setter_post(old(self), final(self),
                (NRF24L01Config { pa_level: power, ..old(self).settings() }),
                seq![write_op(RF_SETUP, seq![rf_setup_byte(old(self).settings().data_rate, power)])]),
            r is Err ==> is_bus_failure(r) && final(self).same_state(old(self)),
            appended(old(self).trace(), final(self).trace(), seq![write_op(RF_SETUP, seq![rf_setup_byte(old(self).settings().data_rate, power)])]),
            (r is Err) == final(self).trace().last().failed,
            r is Err ==> Self::ended_in_failure(old(self), final(self)),
            r is Err ==> final(self).trace().subrange(0, old(self).trace().len() as int) == old(self).trace(),
            r matches Err(Error::TransportFailure(e)) ==> final(self).last_bus_error() == Some(e),
    {
        self.apply_pa_level(power)
    }

    fn set_crc_mode(&mut self, mode: CrcMode) -> (r: Result<(), Self::Error>)
        ensures
            r is Ok ==> Self::config_setter_post(old(self), final(self),
                (NRF24L01Config { crc_mode: mode, ..old(self).settings() }),
                crc_mask(), crc_bits(mode)),
            merge_bits(old(self).shadow(), crc_mask(), crc_bits(mode)) == old(self).shadow() ==> r is Ok
                && final(self).trace() == old(self).trace(),
            r is Err ==> is_bus_failure(r) && final(self).same_state(old(self)),
            r is Err ==> Self::ended_in_failure(old(self), final(self)) && appended(
                old(self).trace(),
                final(self).trace(),
                config_update_ops(old(self).shadow(), crc_mask(), crc_bits(mode)),
            ),
            r is Ok && old(self).mode_bits_agree() ==> final(self).mode_bits_agree(),
            r is Err ==> Self::ended_in_failure(old(self), final(self)),
            r is Err ==> final(self).trace().subrange(0, old(self).trace().len() as int) == old(self).trace(),
            r matches Err(Error::TransportFailure(e)) ==> final(self).last_bus_error() == Some(e),
    {
        self.apply_crc_mode(mode)
    }

    fn set_interrupt_mask(&mut self, interrupt_mask: InterruptMask) -> (r: Result<(), Self::Error>)
        ensures
            r is Ok ==> Self::config_setter_post(old(self), final(self),
                (NRF24L01Config { interrupt_mask, ..old(self).settings() }),
                irq_mask(), mask_bits(interrupt_mask)),
            merge_bits(old(self).shadow(), irq_mask(), mask_bits(interrupt_mask)) == old(self).shadow() ==> r is Ok
                && final(self).trace() == old(self).trace(),
            r is Err ==> is_bus_failure(r) && final(self).same_state(old(self)),
            r is Err ==> Self::ended_in_failure(old(self), final(self)) && appended(
                old(self).trace(),
                final(self).trace(),
                config_update_ops(old(self).shadow(), irq_mask(), mask_bits(interrupt_mask)),
            ),
            r is Ok && old(self).mode_bits_agree() ==> final(self).mode_bits_agree(),
            r is Err ==> Self::ended_in_failure(old(self), final(self)),
            r is Err ==> final(self).trace().subrange(0, old(self).trace().len() as int) == old(self).trace(),
            r matches Err(Error::TransportFailure(e)) ==> final(self).last_bus_error() == Some(e),
    {
        self.apply_interrupt_mask(interrupt_mask)
    }

    fn set_read_enabled_pipes(&mut self, read_enabled_pipes: &[bool; PIPES_COUNT]) -> (r: Result<(), Self::Error>)
        ensures
            r is Ok ==> Self::setter_post(old(self), final(self),
                (NRF24L01Config { read_enabled_pipes: *read_enabled_pipes, ..old(self).settings() }),
                seq![write_op(EN_RXADDR, seq![pipe_bits(read_enabled_pipes@)])]),
            r is Err ==> is_bus_failure(r) && final(self).same_state(old(self)),
            appended(old(self).trace(), final(self).trace(), seq![write_op(EN_RXADDR, seq![pipe_bits(read_enabled_pipes@)])]),
            (r is Err) == final(self).trace().last().failed,
            r is Err ==> Self::ended_in_failure(old(self), final(self)),
            r is Err ==> final(self).trace().subrange(0, old(self).trace().len() as int) == old(self).trace(),
            r matches Err(Error::TransportFailure(e)) ==> final(self).last_bus_error() == Some(e),
    {
        self.apply_read_enabled_pipes(read_enabled_pipes)
    }

    fn set_rx_addr(&mut self, pipe_no: usize, addr: &'a [u8]) -> (r: Result<(), Self::Error>)
        ensures
            r is Ok ==> Self::setter_post(old(self), final(self),
                (NRF24L01Config { rx_addr: final(self).settings().rx_addr, ..old(self).settings() }),
                seq![write_op((RX_ADDR_P0 + pipe_no) as u8, addr@)]),
            r is Ok ==> final(self).settings().rx_addr@ == old(self).settings().rx_addr@.update(pipe_no as int, addr),
            r is Err ==> is_bus_failure(r) && final(self).same_state(old(self)),
            appended(old(self).trace(), final(self).trace(), seq![write_op((RX_ADDR_P0 + pipe_no) as u8, addr@)]),
            (r is Err) == final(self).trace().last().failed,
            r is Err ==> Self::ended_in_failure(old(self), final(self)),
            r is Err ==> final(self).trace().subrange(0, old(self).trace().len() as int) == old(self).trace(),
            r matches Err(Error::TransportFailure(e)) ==> final(self).last_bus_error() == Some(e),
    {
        self.apply_rx_addr(pipe_no, addr)
    }

    fn set_tx_addr(&mut self, addr: &'a [u8]) -> (r: Result<(), Self::Error>)
        ensures
            r is Ok ==> Self::setter_post(old(self), final(self),
                (NRF24L01Config { tx_addr: addr, ..old(self).settings() }),
                seq![write_op(TX_ADDR, addr@)]),
            r is Err ==> is_bus_failure(r) && final(self).same_state(old(self)),
            appended(old(self).trace(), final(self).trace(), seq![write_op(TX_ADDR, addr@)]),
            (r is Err) == final(self).trace().last().failed,
            r is Err ==> Self::ended_in_failure(old(self), final(self)),
            r is Err ==> final(self).trace().subrange(0, old(self).trace().len() as int) == old(self).trace(),
            r matches Err(Error::TransportFailure(e)) ==> final(self).last_bus_error() == Some(e),
    {
        self.apply_tx_addr(addr)
    }

    fn set_retransmit_config(&mut self, delay: u8, count: u8) -> (r: Result<(), Self::Error>)
        ensures
            r is Ok ==> Self::setter_post(old(self), final(self),
                (NRF24L01Config { retransmit_config: RetransmitConfig { delay, count }, ..old(self).settings() }),
                seq![write_op(SETUP_RETR, seq![setup_retr_byte(delay, count)])]),
            r is Err ==> is_bus_failure(r) && final(self).same_state(old(self)),
            appended(old(self).trace(), final(self).trace(), seq![write_op(SETUP_RETR, seq![setup_retr_byte(delay, count)])]),
            (r is Err) == final(self).trace().last().failed,
            r is Err ==> Self::ended_in_failure(old(self), final(self)),
            r is Err ==> final(self).trace().subrange(0, old(self).trace().len() as int) == old(self).trace(),
            r matches Err(Error::TransportFailure(e)) ==> final(self).last_bus_error() == Some(e),
    {
        self.apply_retransmit_config(delay, count)
    }

    fn set_auto_ack(&mut self, auto_ack_pipes: [bool; PIPES_COUNT]) -> (r: Result<(), Self::Error>)
        ensures
            r is Ok ==> Self::setter_post(old(self), final(self),
                (NRF24L01Config { auto_ack_pipes, ..old(self).settings() }),
                seq![write_op(EN_AA, seq![pipe_bits(auto_ack_pipes@)])]),
            r is Err ==> is_bus_failure(r) && final(self).same_state(old(self)),
            appended(old(self).trace(), final(self).trace(), seq![write_op(EN_AA, seq![pipe_bits(auto_ack_pipes@)])]),
            (r is Err) == final(self).trace().last().failed,
            r is Err ==> Self::ended_in_failure(old(self), final(self)),
            r is Err ==> final(self).trace().subrange(0, old(self).trace().len() as int) == old(self).trace(),
            r matches Err(Error::TransportFailure(e)) ==> final(self).last_bus_error() == Some(e),
    {
        self.apply_auto_ack(auto_ack_pipes)
    }

    fn set_address_width(&mut self, width: u8) -> (r: Result<(), Self::Error>)
        ensures
            r is Ok ==> Self::setter_post(old(self), final(self),
                (NRF24L01Config { address_width: width, ..old(self).settings() }),
                seq![write_op(SETUP_AW, seq![(width - 2) as u8])]),
            r is Err ==> is_bus_failure(r) && final(self).same_state(old(self)),
            appended(old(self).trace(), final(self).trace(), seq![write_op(SETUP_AW, seq![(width - 2) as u8])]),
            (r is Err) == final(self).trace().last().failed,
            r is Err ==> Self::ended_in_failure(old(self), final(self)),
            r is Err ==> final(self).trace().subrange(0, old(self).trace().len() as int) == old(self).trace(),
            r matches Err(Error::TransportFailure(e)) ==> final(self).last_bus_error() == Some(e),
    {
        self.apply_address_width(width)
    }

    fn set_pipes_payload_lengths(&mut self, lengths: [Option<u8>; PIPES_COUNT]) -> (r: Result<(), Self::Error>)
        ensures
            r is Ok ==> Self::setter_post(old(self), final(self),
                (NRF24L01Config { pipe_payload_lengths: lengths, ..old(self).settings() }),
                payload_lengths_ops(lengths@, reply_byte(final(self).trace()[old(self).trace().len() as int].reply, 0))),
            r is Err ==> is_bus_failure(r) && final(self).same_state(old(self)),
            r is Err ==> Self::ended_in_failure(old(self), final(self)),
            r is Err ==> Self::ended_in_failure(old(self), final(self)),
            r is Err ==> final(self).trace().subrange(0, old(self).trace().len() as int) == old(self).trace(),
            r matches Err(Error::TransportFailure(e)) ==> final(self).last_bus_error() == Some(e),
    {
        self.apply_pipes_payload_lengths(lengths)
    }

    fn set_nrf_configuration(&mut self, configuration: NRF24L01Config<'a>) -> (r: Result<(), Self::Error>)
        ensures
            r is Ok ==> Self::synced(old(self), final(self), configuration,
                Self::configured_shadow(old(self).shadow(), old(self).settings(), configuration)),
            r is Ok ==> appended(old(self).trace(), final(self).trace(),
                ops_before(old(self).settings(), old(self).shadow(), configuration, 11) + lengths_ops(
                    applied_prefix(old(self).settings(), configuration, 11),
                    configuration,
                    reply_byte(final(self).trace()[(old(self).trace().len() + ops_before(old(self).settings(), old(self).shadow(), configuration, 11).len()) as int].reply, 0),
                )),
            configuration == old(self).settings() ==> r is Ok && final(self).trace() == old(self).trace(),
            r is Err ==> is_bus_failure(r),
            r is Err ==> exists|k: int| 0 <= k < 12 && #[trigger] Self::failed_at(old(self), final(self), configuration, k),
            r is Err ==> Self::ended_in_failure(old(self), final(self)) && final(self).current_mode() == old(self).current_mode(),
            r is Err ==> final(self).trace().subrange(0, old(self).trace().len() as int) == old(self).trace(),
            r matches Err(Error::TransportFailure(e)) ==> final(self).last_bus_error() == Some(e),
            r is Ok && old(self).mode_bits_agree() ==> final(self).mode_bits_agree(),
    {
        self.apply_nrf_configuration(configuration)
    }

    fn get_data_rate(&self) -> (r: DataRate)
        ensures
            r == self.settings().data_rate,
    {
        self.nrf_config.data_rate
    }

    fn get_crc_mode(&self) -> (r: CrcMode)
        ensures
            r == self.settings().crc_mode,
    {
        self.nrf_config.crc_mode
    }

    fn get_rf_channel(&self) -> (r: u8)
        ensures
            r == self.settings().rf_channel,
    {
        self.nrf_config.rf_channel
    }

    fn get_pa_level(&self) -> (r: PALevel)
        ensures
            r == self.settings().pa_level,
    {
        self.nrf_config.pa_level
    }

    fn get_interrupt_mask(&self) -> (r: InterruptMask)
        ensures
            r == self.settings().interrupt_mask,
    {
        self.nrf_config.interrupt_mask
    }

    fn get_read_enabled_pipes(&self) -> (r: [bool; PIPES_COUNT])
        ensures
            r == self.settings().read_enabled_pipes,
    {
        self.nrf_config.read_enabled_pipes
    }

    fn get_rx_addr(&self) -> (r: [&'a [u8]; PIPES_COUNT])
        ensures
            r == self.settings().rx_addr,
    {
        self.nrf_config.rx_addr
    }

    fn get_tx_addr(&self) -> (r: &'a [u8])
        ensures
            r == self.settings().tx_addr,
    {
        self.nrf_config.tx_addr
    }

    fn get_retransmit_config(&self) -> (r: RetransmitConfig)
        ensures
            r == self.settings().retransmit_config,
    {
        self.nrf_config.retransmit_config
    }

    fn get_auto_ack_pipes(&self) -> (r: [bool; PIPES_COUNT])
        ensures
            r == self.settings().auto_ack_pipes,
    {
        self.nrf_config.auto_ack_pipes
    }

    fn get_address_width(&self) -> (r: u8)
        ensures
            r == self.settings().address_width,
    {
        self.nrf_config.address_width
    }

    fn get_pipe_payload_lengths(&self) -> (r: [Option<u8>; PIPES_COUNT])
        ensures
            r == self.settings().pipe_payload_lengths,
    {
        self.nrf_config.pipe_payload_lengths
    }

    fn get_config(&self) -> (r: NRF24L01Config<'a>)
        ensures
            r == self.settings(),
    {
        self.nrf_config
    }
}

} // verus!
