//! The logical configuration of the transceiver and the interface that keeps it
//! in step with the chip's registers.
use vstd::prelude::*;

use crate::{MAX_ADDR_BYTES, PIPES_COUNT};

verus! {

/// Supported air data rates.
#[derive(Clone, Copy, Debug, PartialEq, Eq, Structural)]
pub enum DataRate {
    /// 250 Kbps
    R250Kbps,
    /// 1 Mbps
    R1Mbps,
    /// 2 Mbps
    R2Mbps,
}

impl Default for DataRate {
    fn default() -> (r: DataRate)
        ensures
            r == DataRate::R1Mbps,
    {
        DataRate::R1Mbps
    }
}

/// Supported CRC modes.
#[derive(Clone, Copy, Debug, PartialEq, Eq, Structural)]
pub enum CrcMode {
    /// Disable all CRC generation/checking
    Disabled,
    /// One byte checksum
    OneByte,
    /// Two bytes checksum
    TwoBytes,
}

/// Power-amplifier level (negative dBm).
#[derive(Clone, Copy, Debug, PartialEq, Eq, Structural)]
pub enum PALevel {
    /// 0 dBm
    PA0dBm,
    /// -6 dBm
    PA6dBm,
    /// -12 dBm
    PA12dBm,
    /// -18 dBm
    PA18dBm,
}

/// Interrupt masks grouped together.
#[derive(Clone, Copy, Debug, PartialEq, Eq, Structural)]
pub struct InterruptMask {
    /// Mask the interrupt raised when data is available to be read
    pub data_ready_rx: bool,
    /// Mask the interrupt raised when data has been sent
    pub data_sent_tx: bool,
    /// Mask the interrupt raised when the maximum retries have been hit
    pub max_retramsits_tx: bool,
}

/// Retransmit configuration grouped together.
#[derive(Clone, Copy, Debug, PartialEq, Eq, Structural)]
pub struct RetransmitConfig {
    /// Delay step before retrying a transmission (0-15)
    pub delay: u8,
    /// Number of retransmissions to attempt (0-15)
    pub count: u8,
}

/// The logical configuration of the transceiver.
#[derive(Clone, Copy, Debug, PartialEq)]
pub struct NRF24L01Config<'a> {
    /// The rate to send data at
    pub data_rate: DataRate,
    /// The CRC mode
    pub crc_mode: CrcMode,
    /// The RF channel to listen and send on (0-125)
    pub rf_channel: u8,
    /// The power amplifier level
    pub pa_level: PALevel,
    /// The interrupt mask
    pub interrupt_mask: InterruptMask,
    /// The pipes that are to be read from
    pub read_enabled_pipes: [bool; PIPES_COUNT],
    /// The receive address of each pipe
    pub rx_addr: [&'a [u8]; PIPES_COUNT],
    /// The address to transmit to
    pub tx_addr: &'a [u8],
    /// Retransmission delay and count
    pub retransmit_config: RetransmitConfig,
    /// The pipes that acknowledge received packets automatically
    pub auto_ack_pipes: [bool; PIPES_COUNT],
    /// The address width (3-5 bytes)
    pub address_width: u8,
    /// The static payload length of each pipe; `None` selects dynamic length
    pub pipe_payload_lengths: [Option<u8>; PIPES_COUNT],
}

/// A static payload length is 1 to 32 bytes.
pub open spec fn payload_length_ok(len: Option<u8>) -> bool {
    match len {
        Some(n) => 1 <= n <= 32,
        None => true,
    }
}

impl<'a> NRF24L01Config<'a> {
    /// The invariants of a configuration that can be applied to the chip: channel
    /// below 126, address width 3 to 5, every address as long as the width,
    /// static payload lengths 1 to 32, retransmit delay and count below 16.
    pub open spec fn valid(&self) -> bool {
        &&& self.rf_channel < 126
        &&& 3 <= self.address_width <= MAX_ADDR_BYTES
        &&& forall|i: int| 0 <= i < PIPES_COUNT ==> #[trigger] self.rx_addr@[i]@.len() == self.address_width
        &&& self.tx_addr@.len() == self.address_width
        &&& forall|i: int| 0 <= i < PIPES_COUNT ==> payload_length_ok(#[trigger] self.pipe_payload_lengths@[i])
        &&& self.retransmit_config.delay < 16
        &&& self.retransmit_config.count < 16
    }

    /// Creates a configuration from its fields.
    pub fn new(
        data_rate: DataRate,
        crc_mode: CrcMode,
        rf_channel: u8,
        pa_level: PALevel,
        interrupt_mask: InterruptMask,
        read_enabled_pipes: [bool; PIPES_COUNT],
        rx_addr: [&'a [u8]; PIPES_COUNT],
        tx_addr: &'a [u8],
        retransmit_config: RetransmitConfig,
        auto_ack_pipes: [bool; PIPES_COUNT],
        address_width: u8,
        pipe_payload_lengths: [Option<u8>; PIPES_COUNT],
    ) -> (r: Self)
        ensures
            r == (NRF24L01Config {
                data_rate,
                crc_mode,
                rf_channel,
                pa_level,
                interrupt_mask,
                read_enabled_pipes,
                rx_addr,
                tx_addr,
                retransmit_config,
                auto_ack_pipes,
                address_width,
                pipe_payload_lengths,
            }),
    {
        Self {
            data_rate,
            crc_mode,
            rf_channel,
            pa_level,
            interrupt_mask,
            read_enabled_pipes,
            rx_addr,
            tx_addr,
            retransmit_config,
            auto_ack_pipes,
            address_width,
            pipe_payload_lengths,
        }
    }

    /// The configuration assumed before any setter has run: 1 Mbps, no CRC,
    /// channel 0, -18 dBm, nothing masked or enabled, addresses "rx" and "tx",
    /// no retransmission, width 0, dynamic payload lengths.
    pub open spec fn is_initial(&self) -> bool {
        &&& self.data_rate == DataRate::R1Mbps
        &&& self.crc_mode == CrcMode::Disabled
        &&& self.rf_channel == 0
        &&& self.pa_level == PALevel::PA18dBm
        &&& self.interrupt_mask == (InterruptMask {
            data_ready_rx: false,
            data_sent_tx: false,
            max_retramsits_tx: false,
        })
        &&& self.read_enabled_pipes@ == seq![false; 6]
        &&& forall|i: int| 0 <= i < PIPES_COUNT ==> #[trigger] self.rx_addr@[i]@ == seq![0x72u8, 0x78u8]
        &&& self.tx_addr@ == seq![0x74u8, 0x78u8]
        &&& self.retransmit_config == (RetransmitConfig { delay: 0, count: 0 })
        &&& self.auto_ack_pipes@ == seq![false; 6]
        &&& self.address_width == 0
        &&& self.pipe_payload_lengths@ == seq![None::<u8>; 6]
    }
}

impl<'a> Default for NRF24L01Config<'a> {
    fn default() -> (r: Self)
        ensures
            r.is_initial(),
    {
        let rx: &'a [u8] = &[0x72u8, 0x78u8];
        let tx: &'a [u8] = &[0x74u8, 0x78u8];
        let r = Self {
            data_rate: DataRate::R1Mbps,
            crc_mode: CrcMode::Disabled,
            rf_channel: 0u8,
            pa_level: PALevel::PA18dBm,
            interrupt_mask: InterruptMask {
                data_ready_rx: false,
                data_sent_tx: false,
                max_retramsits_tx: false,
            },
            read_enabled_pipes: [false; PIPES_COUNT],
            rx_addr: [rx; PIPES_COUNT],
            tx_addr: tx,
            retransmit_config: RetransmitConfig { delay: 0u8, count: 0u8 },
            auto_ack_pipes: [false; PIPES_COUNT],
            address_width: 0u8,
            pipe_payload_lengths: [None; PIPES_COUNT],
        };
        assert(r.read_enabled_pipes@ =~= seq![false; 6]);
        assert(r.auto_ack_pipes@ =~= seq![false; 6]);
        assert(r.pipe_payload_lengths@ =~= seq![None::<u8>; 6]);
        assert(r.tx_addr@ =~= seq![0x74u8, 0x78u8]);
        assert(rx@ =~= seq![0x72u8, 0x78u8]);
        r
    }
}

/// Modifies and reads back the configuration of the device.
pub trait NRF24L01Configuration<'a> {
    /// Failure of an operation (a bus failure).
    type Error;

    /// Discards all received packets that have not been read.
    fn flush_rx(&mut self) -> Result<(), Self::Error>;

    /// Discards all packets that have not been sent.
    fn flush_tx(&mut self) -> Result<(), Self::Error>;

    /// Sets the RF channel to send and receive on.
    fn set_rf_channel(&mut self, rf_channel: u8) -> Result<(), Self::Error>
        requires
            rf_channel < 126,
    ;

    /// Sets the air data rate.
    fn set_data_rate(&mut self, rate: DataRate) -> Result<(), Self::Error>;

    /// Sets the power amplifier level.
    fn set_pa_level(&mut self, power: PALevel) -> Result<(), Self::Error>;

    /// Sets the CRC mode.
    fn set_crc_mode(&mut self, mode: CrcMode) -> Result<(), Self::Error>;

    /// Sets the interrupt mask.
    fn set_interrupt_mask(&mut self, interrupt_mask: InterruptMask) -> Result<(), Self::Error>;

    /// Sets the pipes that are read-enabled.
    fn set_read_enabled_pipes(&mut self, read_enabled_pipes: &[bool; PIPES_COUNT]) -> Result<(), Self::Error>;

    /// Sets the receive address of one pipe.
    fn set_rx_addr(&mut self, pipe_no: usize, addr: &'a [u8]) -> Result<(), Self::Error>
        requires
            pipe_no < PIPES_COUNT,
            addr@.len() <= MAX_ADDR_BYTES,
    ;

    /// Sets the address to send to.
    fn set_tx_addr(&mut self, addr: &'a [u8]) -> Result<(), Self::Error>
        requires
            addr@.len() <= MAX_ADDR_BYTES,
    ;

    /// Sets the delay step and the number of retransmissions of unacknowledged packets.
    fn set_retransmit_config(&mut self, delay: u8, count: u8) -> Result<(), Self::Error>
        requires
            delay < 16,
            count < 16,
    ;

    /// Sets the pipes that acknowledge received packets automatically.
    fn set_auto_ack(&mut self, auto_ack_pipes: [bool; PIPES_COUNT]) -> Result<(), Self::Error>;

    /// Sets the address width (3 to 5 bytes) of sent and received packets.
    fn set_address_width(&mut self, width: u8) -> Result<(), Self::Error>
        requires
            3 <= width <= MAX_ADDR_BYTES,
    ;

    /// Sets the static payload length of each pipe (`None`: dynamic length).
    fn set_pipes_payload_lengths(&mut self, lengths: [Option<u8>; PIPES_COUNT]) -> Result<(), Self::Error>
        requires
            forall|i: int| 0 <= i < PIPES_COUNT ==> payload_length_ok(#[trigger] lengths@[i]),
    ;

    /// Applies a whole configuration, one setter for each field that differs
    /// from the present one.
    fn set_nrf_configuration(&mut self, configuration: NRF24L01Config<'a>) -> Result<(), Self::Error>
        requires
            configuration.valid(),
    ;

    /// The air data rate.
    fn get_data_rate(&self) -> DataRate;

    /// The CRC mode.
    fn get_crc_mode(&self) -> CrcMode;

    /// The RF channel.
    fn get_rf_channel(&self) -> u8;

    /// The power amplifier level.
    fn get_pa_level(&self) -> PALevel;

    /// The interrupt mask.
    fn get_interrupt_mask(&self) -> InterruptMask;

    /// Whether each pipe is read-enabled.
    fn get_read_enabled_pipes(&self) -> [bool; PIPES_COUNT];

    /// The receive address of each pipe.
    fn get_rx_addr(&self) -> [&'a [u8]; PIPES_COUNT];

    /// The address sent to.
    fn get_tx_addr(&self) -> &'a [u8];

    /// The retransmission delay and count.
    fn get_retransmit_config(&self) -> RetransmitConfig;

    /// Whether each pipe acknowledges automatically.
    fn get_auto_ack_pipes(&self) -> [bool; PIPES_COUNT];

    /// The address width.
    fn get_address_width(&self) -> u8;

    /// The static payload length of each pipe.
    fn get_pipe_payload_lengths(&self) -> [Option<u8>; PIPES_COUNT];

    /// The whole configuration.
    fn get_config(&self) -> NRF24L01Config<'a>;
}

} // verus!
