use std::cell::RefCell;
use std::collections::VecDeque;
use std::rc::Rc;

use nrf24l01::{
    Bus, ChangeModes, CrcMode, DataRate, Error, InterruptMask, Mode, NRF24L01Config,
    NRF24L01Configuration, PALevel, RetransmitConfig, Rx, Tx, NRF24L01,
};

/// A simulated chip: one-byte registers, the multi-byte address registers,
/// both FIFOs and a log of what was driven.
struct Chip {
    regs: [u8; 32],
    addrs: Vec<Vec<u8>>,
    rx: VecDeque<(u8, Vec<u8>)>,
    tx: VecDeque<Vec<u8>>,
    max_rt: bool,
    ce: bool,
    ce_log: Vec<bool>,
    frames: Vec<Vec<u8>>,
    fail: bool,
    fail_after: Option<usize>,
}

impl Chip {
    fn new() -> Chip {
        let mut regs = [0u8; 32];
        regs[0x00] = 0x08;
        regs[0x03] = 0x03;
        Chip {
            regs,
            addrs: vec![Vec::new(); 32],
            rx: VecDeque::new(),
            tx: VecDeque::new(),
            max_rt: false,
            ce: false,
            ce_log: Vec::new(),
            frames: Vec::new(),
            fail: false,
            fail_after: None,
        }
    }

    fn status(&self) -> u8 {
        let pipe = match self.rx.front() {
            Some((p, _)) => *p,
            None => 7,
        };
        let mut s = pipe << 1;
        if self.max_rt {
            s |= 0x10;
        }
        if self.tx.len() >= 3 {
            s |= 0x01;
        }
        s
    }

    fn fifo_status(&self) -> u8 {
        let mut f = 0;
        if self.tx.len() >= 3 {
            f |= 0x20;
        }
        if self.tx.is_empty() {
            f |= 0x10;
        }
        if self.rx.len() >= 3 {
            f |= 0x02;
        }
        if self.rx.is_empty() {
            f |= 0x01;
        }
        f
    }

    fn writes_to(&self, addr: u8) -> usize {
        self.frames.iter().filter(|f| f[0] == 0x20 | addr).count()
    }

    fn count(&self, opcode: u8) -> usize {
        self.frames.iter().filter(|f| f[0] == opcode).count()
    }
}

#[derive(Clone)]
struct MockBus(Rc<RefCell<Chip>>);

impl Bus for MockBus {
    type Error = &'static str;

    fn transfer(&mut self, sent: &[u8]) -> Result<Vec<u8>, &'static str> {
        let mut chip = self.0.borrow_mut();
        if let Some(n) = chip.fail_after {
            if n == 0 {
                chip.fail = true;
            } else {
                chip.fail_after = Some(n - 1);
            }
        }
        if chip.fail {
            return Err("bus down");
        }
        chip.frames.push(sent.to_vec());
        let mut reply = vec![0u8; sent.len()];
        reply[0] = chip.status();
        let op = sent[0];
        match op {
            0x00..=0x1F => {
                let addr = op as usize;
                if sent.len() > 2 {
                    let stored = chip.addrs[addr].clone();
                    for i in 1..sent.len() {
                        reply[i] = *stored.get(i - 1).unwrap_or(&0);
                    }
                } else if sent.len() == 2 {
                    reply[1] = match addr {
                        0x07 => chip.status(),
                        0x17 => chip.fifo_status(),
                        _ => chip.regs[addr],
                    };
                }
            }
            0x20..=0x3F => {
                let addr = (op & 0x1F) as usize;
                if addr == 0x07 {
                    if sent[1] & 0x10 != 0 {
                        chip.max_rt = false;
                    }
                } else {
                    chip.regs[addr] = sent[1];
                    chip.addrs[addr] = sent[1..].to_vec();
                }
            }
            0x60 => {
                reply[1] = chip.rx.front().map(|(_, p)| p.len() as u8).unwrap_or(0);
            }
            0x61 => {
                if let Some((_, p)) = chip.rx.pop_front() {
                    for i in 1..sent.len() {
                        reply[i] = *p.get(i - 1).unwrap_or(&0);
                    }
                }
            }
            0xA0 => chip.tx.push_back(sent[1..].to_vec()),
            0xE1 => chip.tx.clear(),
            0xE2 => chip.rx.clear(),
            _ => {}
        }
        Ok(reply)
    }

    fn set_ce(&mut self, high: bool) {
        let mut chip = self.0.borrow_mut();
        chip.ce = high;
        chip.ce_log.push(high);
    }

    fn set_csn(&mut self, _high: bool) {}
}

fn setup() -> (Rc<RefCell<Chip>>, NRF24L01<'static, MockBus>) {
    let chip = Rc::new(RefCell::new(Chip::new()));
    let d = NRF24L01::new(MockBus(chip.clone())).unwrap();
    (chip, d)
}

static RX0: [u8; 5] = [0xE7, 0xE7, 0xE7, 0xE7, 0xE7];
static RX1: [u8; 5] = [0xC2, 0xC2, 0xC2, 0xC2, 0xC2];
static RX2: [u8; 5] = [0xC3, 0xC2, 0xC2, 0xC2, 0xC2];
static TXA: [u8; 5] = [0xE7, 0xE7, 0xE7, 0xE7, 0xE7];

fn sample_config() -> NRF24L01Config<'static> {
    NRF24L01Config::new(
        DataRate::R2Mbps,
        CrcMode::TwoBytes,
        76,
        PALevel::PA6dBm,
        InterruptMask { data_ready_rx: true, data_sent_tx: false, max_retramsits_tx: true },
        [true, true, false, false, false, false],
        [&RX0, &RX1, &RX2, &RX2, &RX2, &RX2],
        &TXA,
        RetransmitConfig { delay: 5, count: 3 },
        [true, true, true, false, false, false],
        5,
        [Some(4), None, Some(32), None, None, Some(1)],
    )
}

#[test]
fn construction_powers_up_in_standby() {
    let (chip, d) = setup();
    let chip = chip.borrow();
    assert_eq!(chip.frames, vec![vec![0x03, 0x00], vec![0x20, 0x0A]]);
    assert_eq!(chip.ce_log, vec![false]);
    assert_eq!(chip.regs[0], 0x0A);
    let cfg = d.get_config();
    assert_eq!(cfg, NRF24L01Config::default());
    assert_eq!(cfg.data_rate, DataRate::default());
    assert_eq!(cfg.rx_addr[3], b"rx");
    assert_eq!(cfg.tx_addr, b"tx");
}

#[test]
fn construction_fails_when_not_connected() {
    let chip = Rc::new(RefCell::new(Chip::new()));
    chip.borrow_mut().regs[0x03] = 0xFF;
    match NRF24L01::new(MockBus(chip.clone())) {
        Err(Error::NotConnected) => {}
        _ => panic!("expected NotConnected"),
    }
    assert_eq!(chip.borrow().frames.len(), 1);
}

#[test]
fn construction_reports_transport_failure() {
    let chip = Rc::new(RefCell::new(Chip::new()));
    chip.borrow_mut().fail = true;
    match NRF24L01::new(MockBus(chip)) {
        Err(Error::TransportFailure("bus down")) => {}
        _ => panic!("expected a transport failure"),
    }
}

#[test]
fn is_connected_reads_address_width() {
    let (chip, mut d) = setup();
    assert_eq!(d.is_connected(), Ok(true));
    chip.borrow_mut().regs[0x03] = 0x04;
    assert_eq!(d.is_connected(), Ok(false));
}

#[test]
fn update_config_second_application_writes_nothing() {
    let (chip, mut d) = setup();
    let before = chip.borrow().frames.len();
    d.update_config(0x0C, 0x0C).unwrap();
    assert_eq!(chip.borrow().frames.len(), before + 1);
    assert_eq!(chip.borrow().regs[0], 0x0E);
    d.update_config(0x0C, 0x0C).unwrap();
    assert_eq!(chip.borrow().frames.len(), before + 1);
    // power-up is already set after construction: nothing to write
    d.update_config(0x02, 0x02).unwrap();
    assert_eq!(chip.borrow().frames.len(), before + 1);
}

#[test]
fn mode_transitions_follow_the_table() {
    let (chip, mut d) = setup();
    d.to_rx().unwrap();
    assert_eq!(chip.borrow().regs[0], 0x0B);
    assert!(chip.borrow().ce);
    let n = chip.borrow().frames.len();
    let ce = chip.borrow().ce_log.len();
    d.to_rx().unwrap();
    assert_eq!(chip.borrow().frames.len(), n);
    assert_eq!(chip.borrow().ce_log.len(), ce);

    d.to_power_down().unwrap();
    assert!(!chip.borrow().ce);
    assert_eq!(chip.borrow().regs[0], 0x09);
    let n = chip.borrow().frames.len();
    d.to_power_down().unwrap();
    assert_eq!(chip.borrow().frames.len(), n);

    d.to_tx().unwrap();
    assert_eq!(chip.borrow().regs[0], 0x0A);
    assert!(!chip.borrow().ce);
    let n = chip.borrow().frames.len();
    d.to_tx().unwrap();
    assert_eq!(chip.borrow().frames.len(), n);

    d.to_standby().unwrap();
    assert!(!chip.borrow().ce);
    let n = chip.borrow().frames.len();
    let ce = chip.borrow().ce_log.len();
    d.to_standby().unwrap();
    assert_eq!(chip.borrow().frames.len(), n);
    assert_eq!(chip.borrow().ce_log.len(), ce);
}

#[test]
fn standby_to_power_down_and_back() {
    let (chip, mut d) = setup();
    d.to_power_down().unwrap();
    assert_eq!(chip.borrow().regs[0], 0x08);
    d.to_standby().unwrap();
    assert_eq!(chip.borrow().regs[0], 0x0A);
    d.to_rx().unwrap();
    d.to_tx().unwrap();
    assert_eq!(chip.borrow().regs[0], 0x0A);
    assert_eq!(chip.borrow().ce_log.last(), Some(&false));
}

#[test]
fn set_configuration_then_get_returns_it() {
    let (chip, mut d) = setup();
    let cfg = sample_config();
    d.set_nrf_configuration(cfg).unwrap();
    assert_eq!(d.get_config(), cfg);
    assert_eq!(d.get_rf_channel(), 76);
    assert_eq!(d.get_data_rate(), DataRate::R2Mbps);
    assert_eq!(d.get_crc_mode(), CrcMode::TwoBytes);
    assert_eq!(d.get_pa_level(), PALevel::PA6dBm);
    assert_eq!(d.get_address_width(), 5);
    assert_eq!(d.get_tx_addr(), &TXA[..]);
    assert_eq!(d.get_rx_addr()[1], &RX1[..]);
    assert_eq!(d.get_auto_ack_pipes(), [true, true, true, false, false, false]);
    assert_eq!(d.get_read_enabled_pipes(), [true, true, false, false, false, false]);
    assert_eq!(d.get_pipe_payload_lengths(), [Some(4), None, Some(32), None, None, Some(1)]);
    assert_eq!(d.get_interrupt_mask(), cfg.interrupt_mask);
    let chip = chip.borrow();
    assert_eq!(chip.regs[0x05], 76);
    assert_eq!(chip.regs[0x06], 0x0C);
    assert_eq!(chip.regs[0x00], 0x5E);
    assert_eq!(chip.regs[0x03], 3);
    assert_eq!(chip.regs[0x04], 0x53);
    assert_eq!(chip.regs[0x01], 0x07);
    assert_eq!(chip.regs[0x02], 0x03);
    assert_eq!(chip.regs[0x1C], 0b01_1010);
    assert_eq!(chip.regs[0x1D] & 0x04, 0x04);
    assert_eq!(chip.regs[0x11], 4);
    assert_eq!(chip.regs[0x12], 0);
    assert_eq!(chip.regs[0x13], 32);
    assert_eq!(chip.regs[0x16], 1);
    assert_eq!(chip.addrs[0x0A], RX0.to_vec());
    assert_eq!(chip.addrs[0x10], TXA.to_vec());
}

#[test]
fn set_configuration_twice_writes_nothing_the_second_time() {
    let (chip, mut d) = setup();
    let cfg = sample_config();
    d.set_nrf_configuration(cfg).unwrap();
    let n = chip.borrow().frames.len();
    d.set_nrf_configuration(cfg).unwrap();
    assert_eq!(chip.borrow().frames.len(), n);
    assert_eq!(d.get_config(), cfg);
}

#[test]
fn set_configuration_touches_only_changed_fields() {
    let (chip, mut d) = setup();
    let cfg = sample_config();
    d.set_nrf_configuration(cfg).unwrap();
    let n = chip.borrow().frames.len();
    let mut changed = cfg;
    changed.rf_channel = 100;
    d.set_nrf_configuration(changed).unwrap();
    assert_eq!(chip.borrow().frames.len(), n + 1);
    assert_eq!(chip.borrow().frames[n], vec![0x25, 100]);
    assert_eq!(d.get_config(), changed);
}

#[test]
fn data_rate_and_power_share_a_register() {
    let (chip, mut d) = setup();
    d.set_pa_level(PALevel::PA0dBm).unwrap();
    assert_eq!(chip.borrow().regs[0x06], 0x06);
    d.set_data_rate(DataRate::R250Kbps).unwrap();
    assert_eq!(chip.borrow().regs[0x06], 0x26);
    d.set_pa_level(PALevel::PA12dBm).unwrap();
    assert_eq!(chip.borrow().regs[0x06], 0x22);
}

#[test]
fn static_payload_lengths_need_no_feature_write() {
    let (chip, mut d) = setup();
    d.set_pipes_payload_lengths([Some(8); 6]).unwrap();
    let chip = chip.borrow();
    assert_eq!(chip.count(0x1D), 0);
    assert_eq!(chip.writes_to(0x1D), 0);
    assert_eq!(chip.regs[0x1C], 0);
    assert_eq!(chip.regs[0x15], 8);
}

#[test]
fn dynamic_payload_lengths_enable_the_feature_first() {
    let (chip, mut d) = setup();
    d.set_pipes_payload_lengths([None; 6]).unwrap();
    let chip = chip.borrow();
    let feature = chip.frames.iter().position(|f| f[0] == 0x3D).unwrap();
    let dynpd = chip.frames.iter().position(|f| f[0] == 0x3C).unwrap();
    assert!(feature < dynpd);
    assert_eq!(chip.regs[0x1C], 0x3F);
    assert_eq!(chip.regs[0x1D], 0x04);
}

#[test]
fn receive_scenario_reads_a_four_byte_payload() {
    let (chip, mut d) = setup();
    d.set_address_width(5).unwrap();
    d.set_rx_addr(0, &RX0).unwrap();
    let mut lengths = [None; 6];
    lengths[0] = Some(4);
    d.set_pipes_payload_lengths(lengths).unwrap();
    d.to_rx().unwrap();
    assert_eq!(d.can_read(), Ok(None));
    chip.borrow_mut().rx.push_back((0, vec![1, 2, 3, 4]));
    assert_eq!(d.rx_queue_empty(), Ok(false));
    assert_eq!(d.can_read(), Ok(Some(0)));
    let payload = d.read().unwrap();
    assert_eq!(payload.len(), 4);
    assert_eq!(payload.as_slice(), &[1, 2, 3, 4]);
    assert_eq!(d.rx_queue_empty(), Ok(true));
    assert_eq!(chip.borrow().addrs[0x0A], RX0.to_vec());
    assert_eq!(chip.borrow().regs[0x03], 3);
}

#[test]
fn can_read_clears_all_interrupt_flags() {
    let (chip, mut d) = setup();
    d.can_read().unwrap();
    let chip = chip.borrow();
    let n = chip.frames.len();
    assert_eq!(chip.frames[n - 2], vec![0x27, 0x70]);
    assert_eq!(chip.frames[n - 1], vec![0x17, 0x00]);
}

#[test]
fn rx_queue_full_and_carrier() {
    let (chip, mut d) = setup();
    for i in 0..3 {
        chip.borrow_mut().rx.push_back((1, vec![i]));
    }
    assert_eq!(d.rx_queue_is_full(), Ok(true));
    assert_eq!(d.can_read(), Ok(Some(1)));
    assert_eq!(d.has_carrier(), Ok(false));
    chip.borrow_mut().regs[0x09] = 1;
    assert_eq!(d.has_carrier(), Ok(true));
}

#[test]
fn send_then_poll_until_max_retries() {
    let (chip, mut d) = setup();
    d.send(&[1, 2, 3]).unwrap();
    assert!(chip.borrow().ce);
    assert_eq!(chip.borrow().tx.len(), 1);
    assert!(matches!(d.poll_send(), Err(nb::Error::WouldBlock)));
    assert!(matches!(d.poll_send(), Err(nb::Error::WouldBlock)));
    assert_eq!(chip.borrow().count(0xE1), 0);
    chip.borrow_mut().max_rt = true;
    assert!(matches!(d.poll_send(), Ok(false)));
    let chip = chip.borrow();
    assert_eq!(chip.count(0xE1), 1);
    assert!(chip.tx.is_empty());
    assert!(!chip.max_rt);
    assert!(!chip.ce);
}

#[test]
fn poll_send_succeeds_once_fifo_empties() {
    let (chip, mut d) = setup();
    d.send(&[7; 32]).unwrap();
    assert_eq!(chip.borrow().tx[0], vec![7; 32]);
    assert!(matches!(d.poll_send(), Err(nb::Error::WouldBlock)));
    chip.borrow_mut().tx.clear();
    assert!(matches!(d.poll_send(), Ok(true)));
    let chip = chip.borrow();
    assert_eq!(chip.count(0xE1), 0);
    assert_eq!(chip.frames[chip.frames.len() - 1], vec![0x27, 0x30]);
    assert!(!chip.ce);
}

#[test]
fn poll_send_reports_bus_failure() {
    let (chip, mut d) = setup();
    chip.borrow_mut().fail = true;
    assert!(matches!(d.poll_send(), Err(nb::Error::Other(Error::TransportFailure(_)))));
}

#[test]
fn wait_empty_step_flushes_on_max_retries() {
    let (chip, mut d) = setup();
    d.send(&[1]).unwrap();
    assert_eq!(d.wait_empty_step(), Ok(false));
    assert!(chip.borrow().ce);
    chip.borrow_mut().max_rt = true;
    assert_eq!(d.wait_empty_step(), Ok(false));
    assert_eq!(chip.borrow().count(0xE1), 1);
    assert_eq!(d.wait_empty_step(), Ok(true));
    assert!(!chip.borrow().ce);
}

#[test]
fn tx_fifo_queries() {
    let (chip, mut d) = setup();
    assert_eq!(d.tx_empty(), Ok(true));
    assert_eq!(d.can_send(), Ok(true));
    for _ in 0..3 {
        d.send(&[0]).unwrap();
    }
    assert_eq!(d.tx_full(), Ok(true));
    assert_eq!(d.can_send(), Ok(false));
    assert_eq!(d.tx_empty(), Ok(false));
    d.flush_tx().unwrap();
    assert_eq!(d.tx_empty(), Ok(true));
    chip.borrow_mut().rx.push_back((2, vec![5]));
    d.flush_rx().unwrap();
    assert_eq!(d.rx_queue_empty(), Ok(true));
}

#[test]
fn clear_tx_interrupts_and_ce_lowers_chip_enable() {
    let (chip, mut d) = setup();
    d.send(&[1]).unwrap();
    chip.borrow_mut().max_rt = true;
    assert!(d.clear_tx_interrupts_and_ce().is_ok());
    assert!(!chip.borrow().max_rt);
    assert!(!chip.borrow().ce);
}

#[test]
fn retransmit_setting_leaves_counters_alone() {
    let (chip, mut d) = setup();
    chip.borrow_mut().regs[0x08] = 0x21;
    d.set_retransmit_config(5, 3).unwrap();
    assert_eq!(d.get_retransmit_config(), RetransmitConfig { delay: 5, count: 3 });
    assert_eq!(d.get_config().retransmit_config, RetransmitConfig { delay: 5, count: 3 });
    assert_eq!(chip.borrow().regs[0x04], 0x53);
    let observed = d.observe().unwrap();
    assert_eq!(observed.plos_cnt(), 2);
    assert_eq!(observed.arc_cnt(), 1);
    assert_eq!(chip.borrow().regs[0x08], 0x21);
}

#[test]
fn setters_report_bus_failure() {
    let (chip, mut d) = setup();
    chip.borrow_mut().fail = true;
    assert_eq!(d.set_rf_channel(3), Err(Error::TransportFailure("bus down")));
    assert_eq!(d.get_rf_channel(), 0);
    assert_eq!(d.to_rx(), Err(Error::TransportFailure("bus down")));
    assert_eq!(d.set_crc_mode(CrcMode::TwoBytes), Err(Error::TransportFailure("bus down")));
    assert_eq!(d.get_crc_mode(), CrcMode::Disabled);
}

#[test]
fn mode_enum_is_comparable() {
    assert_eq!(Mode::Standby, Mode::Standby);
    assert_ne!(Mode::Rx, Mode::Tx);
}

#[test]
fn resynchronize_reads_back_what_was_set() {
    let (chip, mut d) = setup();
    let cfg = sample_config();
    d.set_nrf_configuration(cfg).unwrap();
    let n = chip.borrow().frames.len();
    d.resynchronize().unwrap();
    assert_eq!(chip.borrow().frames.len(), n + 14);
    assert_eq!(d.get_config(), cfg);
    // the control register shadow matches: a repeated setting writes nothing
    d.set_crc_mode(CrcMode::TwoBytes).unwrap();
    assert_eq!(chip.borrow().frames.len(), n + 14);
}

#[test]
fn resynchronize_after_a_chip_reset() {
    let (chip, mut d) = setup();
    d.set_nrf_configuration(sample_config()).unwrap();
    {
        let mut c = chip.borrow_mut();
        c.regs = [0u8; 32];
        c.regs[0x00] = 0x08;
        c.regs[0x01] = 0x3F;
        c.regs[0x02] = 0x03;
        c.regs[0x03] = 0x03;
        c.regs[0x04] = 0x03;
        c.regs[0x05] = 0x02;
        c.regs[0x06] = 0x0E;
    }
    d.resynchronize().unwrap();
    let cfg = d.get_config();
    assert_eq!(cfg.crc_mode, CrcMode::OneByte);
    assert_eq!(cfg.interrupt_mask, InterruptMask { data_ready_rx: false, data_sent_tx: false, max_retramsits_tx: false });
    assert_eq!(cfg.data_rate, DataRate::R2Mbps);
    assert_eq!(cfg.pa_level, PALevel::PA0dBm);
    assert_eq!(cfg.rf_channel, 2);
    assert_eq!(cfg.auto_ack_pipes, [true; 6]);
    assert_eq!(cfg.read_enabled_pipes, [true, true, false, false, false, false]);
    assert_eq!(cfg.retransmit_config, RetransmitConfig { delay: 0, count: 3 });
    assert_eq!(cfg.address_width, 5);
    assert_eq!(cfg.pipe_payload_lengths, [Some(0); 6]);
    assert_eq!(cfg.tx_addr, &TXA[..]);
    // powering up again is a real write: the shadow now says powered down
    d.to_power_down().unwrap();
    d.to_standby().unwrap();
    assert_eq!(chip.borrow().regs[0x00], 0x0A);
}

#[test]
fn mode_changes_needing_no_transfer_succeed_on_a_dead_bus() {
    let (chip, mut d) = setup();
    d.to_rx().unwrap();
    chip.borrow_mut().fail = true;
    let n = chip.borrow().frames.len();
    assert_eq!(d.to_rx(), Ok(()));
    assert_eq!(d.to_standby(), Ok(()));
    assert_eq!(d.to_standby(), Ok(()));
    assert_eq!(chip.borrow().frames.len(), n);
    assert!(!chip.borrow().ce);
    assert_eq!(d.update_config(0x02, 0x02), Ok(()));
    let cfg = d.get_config();
    assert_eq!(d.set_nrf_configuration(cfg), Ok(()));
}

#[test]
fn partial_configuration_failure_keeps_earlier_fields() {
    let (chip, mut d) = setup();
    // data rate, CRC and channel writes succeed; the power-level write fails
    chip.borrow_mut().fail_after = Some(3);
    let cfg = sample_config();
    assert_eq!(d.set_nrf_configuration(cfg), Err(Error::TransportFailure("bus down")));
    let got = d.get_config();
    assert_eq!(got.data_rate, cfg.data_rate);
    assert_eq!(got.crc_mode, cfg.crc_mode);
    assert_eq!(got.rf_channel, cfg.rf_channel);
    assert_eq!(got.pa_level, PALevel::PA18dBm);
    assert_eq!(got.address_width, 0);
    assert_eq!(chip.borrow().frames.len(), 2 + 3);
}

#[test]
fn probe_reports_an_implausible_width_without_powering_up() {
    let (chip, mut d) = setup();
    d.to_power_down().unwrap();
    chip.borrow_mut().regs[0x03] = 0x80;
    let n = chip.borrow().frames.len();
    assert_eq!(d.probe_and_power_up(), Err(Error::NotConnected));
    assert_eq!(chip.borrow().frames.len(), n + 1);
    assert_eq!(chip.borrow().regs[0x00], 0x08);
    chip.borrow_mut().regs[0x03] = 0x01;
    assert_eq!(d.probe_and_power_up(), Ok(()));
    assert_eq!(chip.borrow().regs[0x00], 0x0A);
}

#[test]
fn resynchronize_leaves_rx_mode_when_the_chip_was_reset() {
    let (chip, mut d) = setup();
    d.to_rx().unwrap();
    assert!(chip.borrow().ce);
    chip.borrow_mut().regs[0x00] = 0x08;
    d.resynchronize().unwrap();
    assert!(!chip.borrow().ce);
    let n = chip.borrow().frames.len();
    d.to_rx().unwrap();
    // power-down to standby, then the role bit: two control-register writes
    assert_eq!(chip.borrow().frames.len(), n + 2);
    assert_eq!(chip.borrow().regs[0x00], 0x0B);
    assert!(chip.borrow().ce);
}
