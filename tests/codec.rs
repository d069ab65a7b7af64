use nrf24l01::command::{Command, FLUSH_RX, FLUSH_TX, R_RX_PAYLOAD, R_RX_PL_WID, W_TX_PAYLOAD};
use nrf24l01::driver::transmit::poll_decision;
use nrf24l01::driver::NRF24L01;
use nrf24l01::registers::{
    crc_config, crc_mode_from, data_rate_from, interrupt_mask_config, interrupt_mask_from,
    pa_level_from, payload_length_from, pipe_flags, pipe_flags_from, rf_setup, setup_retr,
    FifoStatus, ObserveTx, Status,
};
use nrf24l01::{Bus, CrcMode, DataRate, InterruptMask, PALevel, Payload};

struct Loopback;

impl Bus for Loopback {
    type Error = ();

    fn transfer(&mut self, sent: &[u8]) -> Result<Vec<u8>, ()> {
        Ok(sent.to_vec())
    }

    fn set_ce(&mut self, _high: bool) {}

    fn set_csn(&mut self, _high: bool) {}
}

fn all_commands() -> Vec<(Command, u8, usize, usize)> {
    // (command, opcode, bytes after the opcode, response length)
    vec![
        (Command::ReadRegister { addr: 0x17, width: 1 }, 0x17, 1, 1),
        (Command::ReadRegister { addr: 0x0A, width: 5 }, 0x0A, 5, 5),
        (Command::WriteRegister { addr: 0x05, data: vec![42] }, 0x25, 1, 0),
        (Command::WriteRegister { addr: 0x10, data: vec![1, 2, 3, 4, 5] }, 0x30, 5, 0),
        (Command::ReadRxPayloadWidth, 0x60, 1, 1),
        (Command::ReadRxPayload { width: 4 }, 0x61, 4, 4),
        (Command::ReadRxPayload { width: 32 }, 0x61, 32, 32),
        (Command::WriteTxPayload { data: vec![9; 32] }, 0xA0, 32, 0),
        (Command::FlushTx, 0xE1, 0, 0),
        (Command::FlushRx, 0xE2, 0, 0),
    ]
}

#[test]
fn encode_follows_the_opcode_table() {
    for (cmd, opcode, out_len, _) in all_commands() {
        let frame = cmd.encode();
        assert_eq!(frame[0], opcode, "{:?}", cmd);
        assert_eq!(frame.len(), 1 + out_len, "{:?}", cmd);
    }
    assert_eq!(R_RX_PL_WID, 0x60);
    assert_eq!(R_RX_PAYLOAD, 0x61);
    assert_eq!(W_TX_PAYLOAD, 0xA0);
    assert_eq!(FLUSH_TX, 0xE1);
    assert_eq!(FLUSH_RX, 0xE2);
}

#[test]
fn encode_carries_written_bytes_and_zero_placeholders() {
    let w = Command::WriteRegister { addr: 0x10, data: vec![0xE7, 0xE6, 0xE5] }.encode();
    assert_eq!(w, vec![0x30, 0xE7, 0xE6, 0xE5]);
    let t = Command::WriteTxPayload { data: vec![1, 2, 3] }.encode();
    assert_eq!(t, vec![0xA0, 1, 2, 3]);
    let r = Command::ReadRegister { addr: 0x0B, width: 5 }.encode();
    assert_eq!(r, vec![0x0B, 0, 0, 0, 0, 0]);
    assert_eq!(Command::ReadRxPayloadWidth.encode(), vec![0x60, 0]);
    assert_eq!(Command::FlushTx.encode(), vec![0xE1]);
}

#[test]
fn loopback_round_trip_keeps_opcode_and_lengths() {
    for (cmd, opcode, _, response_len) in all_commands() {
        let frame = cmd.encode();
        let (status, response) = cmd.decode_response(&frame);
        assert_eq!(status, Status(opcode), "{:?}", cmd);
        assert_eq!(response.len(), response_len, "{:?}", cmd);
        assert!(response.iter().all(|b| *b == 0), "{:?}", cmd);
    }
}

#[test]
fn loopback_through_the_driver() {
    let mut d = NRF24L01::new(Loopback).unwrap();
    for (cmd, opcode, _, response_len) in all_commands() {
        let (status, response) = d.send_command(&cmd).unwrap();
        assert_eq!(status.0, opcode);
        assert_eq!(response.len(), response_len);
    }
}

#[test]
fn decode_response_reads_bytes_after_status() {
    let cmd = Command::ReadRegister { addr: 0x0A, width: 3 };
    let (status, bytes) = cmd.decode_response(&[0x0E, 1, 2, 3]);
    assert_eq!(status, Status(0x0E));
    assert_eq!(bytes, vec![1, 2, 3]);
    // a short reply reads as zeros past its end
    let (status, bytes) = cmd.decode_response(&[0x0E, 7]);
    assert_eq!(status, Status(0x0E));
    assert_eq!(bytes, vec![7, 0, 0]);
    let (status, bytes) = Command::FlushRx.decode_response(&[]);
    assert_eq!(status, Status(0));
    assert!(bytes.is_empty());
}

#[test]
fn status_fields() {
    let s = Status(0b0111_1011);
    assert!(s.rx_dr());
    assert!(s.tx_ds());
    assert!(s.max_rt());
    assert_eq!(s.rx_p_no(), 5);
    assert!(s.tx_full());
    let e = Status(0x0E);
    assert!(!e.rx_dr() && !e.tx_ds() && !e.max_rt() && !e.tx_full());
    assert_eq!(e.rx_p_no(), 7);
}

#[test]
fn fifo_status_fields() {
    let f = FifoStatus(0b0101_0011);
    assert!(f.tx_reuse());
    assert!(!f.tx_full());
    assert!(f.tx_empty());
    assert!(f.rx_full());
    assert!(f.rx_empty());
    let g = FifoStatus(0b0010_0000);
    assert!(g.tx_full() && !g.tx_empty() && !g.rx_full() && !g.rx_empty());
}

#[test]
fn observe_tx_counters() {
    let o = ObserveTx(0x5A);
    assert_eq!(o.plos_cnt(), 5);
    assert_eq!(o.arc_cnt(), 10);
}

#[test]
fn rf_setup_values() {
    assert_eq!(rf_setup(DataRate::R1Mbps, PALevel::PA0dBm), 0x06);
    assert_eq!(rf_setup(DataRate::R2Mbps, PALevel::PA0dBm), 0x0E);
    assert_eq!(rf_setup(DataRate::R250Kbps, PALevel::PA18dBm), 0x20);
    assert_eq!(rf_setup(DataRate::R250Kbps, PALevel::PA6dBm), 0x24);
    assert_eq!(rf_setup(DataRate::R1Mbps, PALevel::PA12dBm), 0x02);
}

#[test]
fn control_register_bits() {
    assert_eq!(crc_config(CrcMode::Disabled), 0x00);
    assert_eq!(crc_config(CrcMode::OneByte), 0x08);
    assert_eq!(crc_config(CrcMode::TwoBytes), 0x0C);
    let all = InterruptMask { data_ready_rx: true, data_sent_tx: true, max_retramsits_tx: true };
    assert_eq!(interrupt_mask_config(all), 0x70);
    let rx = InterruptMask { data_ready_rx: true, data_sent_tx: false, max_retramsits_tx: false };
    assert_eq!(interrupt_mask_config(rx), 0x40);
}

#[test]
fn pipe_flag_and_retransmit_values() {
    assert_eq!(pipe_flags(&[true, false, true, false, false, true]), 0b10_0101);
    assert_eq!(pipe_flags(&[false; 6]), 0);
    assert_eq!(pipe_flags(&[true; 6]), 0x3F);
    assert_eq!(setup_retr(5, 3), 0x53);
    assert_eq!(setup_retr(15, 15), 0xFF);
    assert_eq!(setup_retr(0, 0), 0x00);
}

#[test]
fn poll_decision_table() {
    assert_eq!(poll_decision(Status(0x10), FifoStatus(0x00)), Some(false));
    assert_eq!(poll_decision(Status(0x10), FifoStatus(0x10)), Some(false));
    assert_eq!(poll_decision(Status(0x00), FifoStatus(0x10)), Some(true));
    assert_eq!(poll_decision(Status(0x20), FifoStatus(0x11)), Some(true));
    assert_eq!(poll_decision(Status(0x0E), FifoStatus(0x01)), None);
}

#[test]
fn register_values_decode_to_what_was_encoded() {
    let rates = [DataRate::R250Kbps, DataRate::R1Mbps, DataRate::R2Mbps];
    let levels = [PALevel::PA0dBm, PALevel::PA6dBm, PALevel::PA12dBm, PALevel::PA18dBm];
    for rate in rates {
        for pa in levels {
            let v = rf_setup(rate, pa);
            assert_eq!(data_rate_from(v), rate);
            assert_eq!(pa_level_from(v), pa);
        }
    }
    for mode in [CrcMode::Disabled, CrcMode::OneByte, CrcMode::TwoBytes] {
        assert_eq!(crc_mode_from(0xF3 | crc_config(mode)), mode);
    }
    let m = InterruptMask { data_ready_rx: false, data_sent_tx: true, max_retramsits_tx: true };
    assert_eq!(interrupt_mask_from(0x0F | interrupt_mask_config(m)), m);
    let flags = [false, true, true, false, true, false];
    assert_eq!(pipe_flags_from(pipe_flags(&flags)), flags);
    assert_eq!(pipe_flags_from(0xC0), [false; 6]);
}

#[test]
fn payload_lengths_from_registers() {
    assert_eq!(payload_length_from(true, 12), None);
    assert_eq!(payload_length_from(false, 12), Some(12));
    assert_eq!(payload_length_from(false, 0xE0), Some(0x20));
}

#[test]
fn payload_holds_its_bytes() {
    let p = Payload::new(vec![1, 2, 3]);
    assert_eq!(p.len(), 3);
    assert!(!p.is_empty());
    assert_eq!(p.as_slice(), &[1, 2, 3]);
    assert!(Payload::new(Vec::new()).is_empty());
}
