use rp2040_uart::config::{config_115200_8_n_1, config_9600_8_n_1};
use rp2040_uart::format::set_format;
use rp2040_uart::reader::{read_byte, read_raw};
use rp2040_uart::writer::{transmit_flushed, write_byte, write_raw};
use rp2040_uart::RxPath;
use rp2040_uart::registers::{CR_RESET, DR_BE, DR_FE, DR_OE, DR_PE};
use rp2040_uart::{
    calculate_baudrate_dividers, effective_baudrate, DataBits, Enabled, Error, NbError, Parity,
    ReadError, ReadErrorType, StopBits, UartConfig, UartDevice, UartPeripheral, UartPinout,
    WouldBlock, FIFO_DEPTH,
};

const REF_CLOCK: u32 = 125_000_000;

fn all_pins() -> UartPinout {
    UartPinout { tx: true, rx: true, cts: true, rts: true }
}

fn tx_rx_pins() -> UartPinout {
    UartPinout { tx: true, rx: true, cts: false, rts: false }
}

fn enabled(dev: UartDevice, config: UartConfig) -> UartPeripheral<Enabled> {
    UartPeripheral::new(dev, tx_rx_pins()).enable(config, REF_CLOCK).ok().unwrap()
}

#[test]
fn dividers_for_9600_at_125mhz() {
    assert_eq!(calculate_baudrate_dividers(9600, REF_CLOCK), Ok((813, 51)));
}

#[test]
fn dividers_are_reproducible() {
    let a = calculate_baudrate_dividers(9600, REF_CLOCK);
    let b = calculate_baudrate_dividers(9600, REF_CLOCK);
    assert_eq!(a, b);
    assert_eq!(a, Ok((813, 51)));
}

#[test]
fn dividers_for_115200_at_125mhz() {
    // 1e9 / 115200 = 8680; 8680 >> 7 = 67, (8680 & 127) = 104, (105) / 2 = 52.
    assert_eq!(calculate_baudrate_dividers(115200, REF_CLOCK), Ok((67, 52)));
}

#[test]
fn dividers_zero_rate_is_bad_argument() {
    assert_eq!(calculate_baudrate_dividers(0, REF_CLOCK), Err(Error::BadArgument));
}

#[test]
fn dividers_overflowing_frequency_is_bad_argument() {
    assert_eq!(calculate_baudrate_dividers(9600, 600_000_000), Err(Error::BadArgument));
    assert_eq!(calculate_baudrate_dividers(9600, u32::MAX / 8), Ok((3495, 16)));
}

#[test]
fn dividers_clamp_to_minimum() {
    assert_eq!(calculate_baudrate_dividers(1_000_000, 1000), Ok((1, 0)));
}

#[test]
fn dividers_clamp_to_maximum() {
    assert_eq!(calculate_baudrate_dividers(1, 500_000_000), Ok((65535, 0)));
}

#[test]
fn dividers_round_fraction_up_to_64() {
    // raw = 255: integer part 1, low bits 127 round up to a fraction of 64.
    assert_eq!(calculate_baudrate_dividers(8, 255), Ok((1, 64)));
}

#[test]
fn dividers_stay_in_range() {
    let rates = [300u32, 1200, 9600, 19200, 57600, 115200, 921600, 3_000_000];
    let clocks = [1_000_000u32, 12_000_000, 48_000_000, 125_000_000];
    for &f in clocks.iter() {
        for &r in rates.iter() {
            let (i, d) = calculate_baudrate_dividers(r, f).unwrap();
            let raw = f as u64 * 8 / r as u64;
            assert!(i >= 1);
            if raw % 128 == 127 && i < 65535 {
                assert_eq!(d, 64);
            } else {
                assert!(d <= 63);
            }
            if i == 65535 {
                assert_eq!(d, 0);
            }
        }
    }
}

#[test]
fn effective_rate_is_floor_of_quotient() {
    let cases = [(9600u32, 125_000_000u32), (115200, 125_000_000), (31250, 48_000_000)];
    for &(r, f) in cases.iter() {
        let (i, d) = calculate_baudrate_dividers(r, f).unwrap();
        let e = effective_baudrate(f, i, d) as u64;
        let div = 64 * i as u64 + d as u64;
        assert!(e * div <= 4 * f as u64);
        assert!(4 * (f as u64) < (e + 1) * div);
        let raw = (f as u64 * 8) / r as u64;
        assert!(raw <= 2 * div && 2 * div <= raw + 1);
    }
}

#[test]
fn effective_rate_9600() {
    assert_eq!(effective_baudrate(REF_CLOCK, 813, 51), 9600);
    assert_eq!(effective_baudrate(REF_CLOCK, 67, 52), 115207);
}

#[test]
fn format_encodings() {
    assert_eq!(set_format(&DataBits::Eight, &StopBits::One, &None), 0x60);
    assert_eq!(set_format(&DataBits::Five, &StopBits::Two, &Some(Parity::Odd)), 0x0a);
    assert_eq!(set_format(&DataBits::Seven, &StopBits::One, &Some(Parity::Even)), 0x46);
    assert_eq!(set_format(&DataBits::Six, &StopBits::One, &None), 0x20);
}

#[test]
fn new_resets_the_device() {
    let mut dev = UartDevice::new();
    dev.regs.cr = 0x1234;
    dev.regs.ibrd = 7;
    dev.tx.fifo.push(1);
    dev.rx.fifo.push(2);
    dev.rx.line.push(3);
    let p = UartPeripheral::new(dev, all_pins());
    let d = p.device();
    assert_eq!(d.regs.cr, CR_RESET);
    assert_eq!(d.regs.ibrd, 0);
    assert!(d.tx.fifo.is_empty());
    assert!(d.rx.fifo.is_empty());
    assert_eq!(d.rx.line, vec![3]);
    assert!(!d.in_reset);
    assert_eq!(p.effective_baudrate(), 0);
    assert_eq!(p.config(), config_9600_8_n_1());
    assert_eq!(p.pins(), all_pins());
}

#[test]
fn enable_8n1_9600() {
    let p = enabled(UartDevice::new(), config_9600_8_n_1());
    let r = p.device().regs;
    assert_eq!(r.ibrd, 813);
    assert_eq!(r.fbrd, 51);
    assert_eq!(r.latched_ibrd, 813);
    assert_eq!(r.latched_fbrd, 51);
    assert_eq!(r.lcr_h, 0x70);
    assert_eq!(r.cr, 0x301);
    assert_eq!(r.dmacr, 3);
    let e = p.effective_baudrate();
    assert!(e >= 9504 && e <= 9696);
    assert_eq!(e, 9600);
    assert_eq!(p.config(), config_9600_8_n_1());
}

#[test]
fn enable_sets_flow_control_bits_from_pins() {
    let p = UartPeripheral::new(UartDevice::new(), all_pins())
        .enable(config_115200_8_n_1(), REF_CLOCK)
        .ok()
        .unwrap();
    assert_eq!(p.device().regs.cr, 0xc301);
    let only_tx = UartPinout { tx: true, rx: false, cts: false, rts: false };
    let q = UartPeripheral::new(UartDevice::new(), only_tx)
        .enable(config_115200_8_n_1(), REF_CLOCK)
        .ok()
        .unwrap();
    assert_eq!(q.device().regs.cr, 0x101);
}

#[test]
fn enable_with_bad_rate_returns_the_peripheral() {
    let mut config = config_9600_8_n_1();
    config.baudrate = 0;
    let p = UartPeripheral::new(UartDevice::new(), tx_rx_pins());
    match p.enable(config, REF_CLOCK) {
        Ok(_) => panic!("a zero rate must be refused"),
        Err((e, back)) => {
            assert_eq!(e, Error::BadArgument);
            assert_eq!(back.device().regs.cr, CR_RESET);
            assert_eq!(back.device().regs.ibrd, 0);
            let again = back.enable(config_9600_8_n_1(), REF_CLOCK).ok().unwrap();
            assert_eq!(again.device().regs.ibrd, 813);
        },
    }
}

#[test]
fn disable_clears_control_bits() {
    let p = enabled(UartDevice::new(), config_9600_8_n_1());
    let d = p.disable();
    assert_eq!(d.device().regs.cr, 0);
    assert_eq!(d.device().regs.ibrd, 813);
    assert_eq!(d.effective_baudrate(), 9600);
}

#[test]
fn reenable_matches_fresh_enable() {
    let config = UartConfig {
        baudrate: 19200,
        data_bits: DataBits::Seven,
        stop_bits: StopBits::Two,
        parity: Some(Parity::Even),
    };
    let once = enabled(UartDevice::new(), config);
    let thrice = enabled(UartDevice::new(), config)
        .disable()
        .enable(config, REF_CLOCK)
        .ok()
        .unwrap();
    assert_eq!(once.device().regs, thrice.device().regs);
    let other_first = enabled(UartDevice::new(), config_115200_8_n_1())
        .disable()
        .enable(config, REF_CLOCK)
        .ok()
        .unwrap();
    assert_eq!(once.device().regs, other_first.device().regs);
}

#[test]
fn free_releases_device_and_pins() {
    let p = enabled(UartDevice::new(), config_9600_8_n_1());
    let (dev, pins) = p.free();
    assert_eq!(dev.regs.ibrd, 813);
    assert_eq!(pins, tx_rx_pins());
}

#[test]
fn write_raw_partial_progress() {
    let mut p = enabled(UartDevice::new(), config_9600_8_n_1());
    let filler = [0u8; FIFO_DEPTH - 2];
    assert!(p.write_raw(&filler).unwrap().is_empty());
    let data = [10u8, 11, 12, 13, 14];
    let rest = p.write_raw(&data).unwrap();
    assert_eq!(rest, &[12u8, 13, 14][..]);
    assert_eq!(p.device().tx.fifo.len(), FIFO_DEPTH);
    assert_eq!(&p.device().tx.fifo[FIFO_DEPTH - 2..], &[10u8, 11][..]);
    assert_eq!(p.write_raw(rest), Err(WouldBlock));
}

#[test]
fn write_raw_on_tx_path() {
    let mut tx = rp2040_uart::TxPath::new();
    for i in 0..(FIFO_DEPTH - 3) {
        tx.fifo.push(i as u8);
    }
    let data = [1u8, 2, 3, 4, 5, 6, 7];
    assert_eq!(write_raw(&mut tx, &data), Ok(&[4u8, 5, 6, 7][..]));
    assert_eq!(write_raw(&mut tx, &data), Err(WouldBlock));
    assert_eq!(write_byte(&mut tx, 9), Err(WouldBlock));
    tx.transmit_word();
    assert!(tx.line.is_empty());
    assert_eq!(tx.shifting, Some(0));
    assert_eq!(write_byte(&mut tx, 9), Ok(()));
    assert_eq!(tx.fifo[FIFO_DEPTH - 1], 9);
}

#[test]
fn write_raw_all_fits() {
    let mut p = enabled(UartDevice::new(), config_9600_8_n_1());
    let rest = p.write_raw(b"hello").unwrap();
    assert!(rest.is_empty());
    assert_eq!(p.device().tx.fifo, b"hello".to_vec());
}

#[test]
fn write_raw_empty_data_succeeds() {
    let mut p = enabled(UartDevice::new(), config_9600_8_n_1());
    assert_eq!(p.write_raw(&[]), Ok(&[][..]));
    assert!(p.device().tx.fifo.is_empty());
    let mut tx = rp2040_uart::TxPath::new();
    for _ in 0..FIFO_DEPTH {
        tx.fifo.push(0);
    }
    assert_eq!(write_raw(&mut tx, &[]), Ok(&[][..]));
    assert_eq!(tx.fifo.len(), FIFO_DEPTH);
}

#[test]
fn write_full_blocking_sends_everything() {
    let mut p = enabled(UartDevice::new(), config_9600_8_n_1());
    let data: Vec<u8> = (0..80u8).collect();
    p.write_full_blocking(&data);
    let d = p.device();
    let mut all = d.tx.line.clone();
    all.extend(d.tx.shifting);
    all.extend_from_slice(&d.tx.fifo);
    assert_eq!(all, data);
    assert!(d.tx.fifo.len() <= FIFO_DEPTH);
}

#[test]
fn flush_waits_for_transmitter() {
    let mut p = enabled(UartDevice::new(), config_9600_8_n_1());
    assert_eq!(p.flush(), Ok(()));
    assert_eq!(p.write(0x55), Ok(()));
    assert_eq!(p.flush(), Err(WouldBlock));
}

#[test]
fn flush_waits_for_last_byte_to_shift_out() {
    let mut tx = rp2040_uart::TxPath::new();
    assert_eq!(transmit_flushed(&tx), Ok(()));
    assert_eq!(write_byte(&mut tx, 0x55), Ok(()));
    assert_eq!(transmit_flushed(&tx), Err(WouldBlock));
    tx.transmit_word();
    assert!(tx.fifo.is_empty());
    assert_eq!(tx.shifting, Some(0x55));
    assert_eq!(transmit_flushed(&tx), Err(WouldBlock));
    tx.transmit_word();
    assert_eq!(tx.line, vec![0x55]);
    assert_eq!(tx.shifting, None);
    assert_eq!(transmit_flushed(&tx), Ok(()));
}

#[test]
fn read_full_blocking_short_stream_ending_in_error() {
    let mut dev = UartDevice::new();
    dev.rx.line.extend_from_slice(&[0x61, DR_OE | 0x62]);
    let mut p = enabled(dev, config_9600_8_n_1());
    let mut buf = [0u8; 8];
    assert_eq!(p.read_full_blocking(&mut buf), Err(ReadErrorType::Overrun));
    assert_eq!(buf[0], 0x61);
    assert_eq!(&buf[1..], &[0u8; 7]);
}

#[test]
fn write_single_byte_blocks_when_full() {
    let mut p = enabled(UartDevice::new(), config_9600_8_n_1());
    for _ in 0..FIFO_DEPTH {
        assert_eq!(p.write(0), Ok(()));
    }
    assert_eq!(p.write(1), Err(WouldBlock));
}

#[test]
fn write_str_sends_bytes() {
    let mut p = enabled(UartDevice::new(), config_9600_8_n_1());
    p.write_str("Hello World!\r\n");
    assert_eq!(p.device().tx.fifo, b"Hello World!\r\n".to_vec());
}

#[test]
fn read_raw_stops_at_first_error() {
    let mut rx = RxPath::new();
    rx.fifo.extend_from_slice(&[0x41, 0x42, DR_FE | 0x43, 0x44]);
    let mut buf = [0u8; 8];
    let r = read_raw(&mut rx, &mut buf);
    assert_eq!(
        r,
        Err(NbError::Other(ReadError { err_type: ReadErrorType::Framing, bytes_read: 2 }))
    );
    assert_eq!(&buf[..2], &[0x41, 0x42]);
    assert_eq!(&buf[2..], &[0u8; 6]);
    assert_eq!(rx.fifo, vec![0x44]);
    assert_eq!(read_raw(&mut rx, &mut buf), Ok(1));
    assert_eq!(buf[0], 0x44);
}

#[test]
fn read_raw_empty_fifo_would_block() {
    let mut p = enabled(UartDevice::new(), config_9600_8_n_1());
    let mut buf = [0u8; 4];
    assert_eq!(p.read_raw(&mut buf), Err(NbError::WouldBlock));
    assert_eq!(p.read(), Err(NbError::WouldBlock));
}

#[test]
fn read_raw_limited_by_buffer() {
    let mut rx = RxPath::new();
    rx.fifo.extend_from_slice(&[1, 2, 3, 4, 5]);
    let mut buf = [0u8; 3];
    assert_eq!(read_raw(&mut rx, &mut buf), Ok(3));
    assert_eq!(buf, [1, 2, 3]);
    assert_eq!(rx.fifo, vec![4, 5]);
    let mut none = [0u8; 0];
    assert_eq!(read_raw(&mut rx, &mut none), Ok(0));
}

#[test]
fn read_error_priority() {
    let mut rx = RxPath::new();
    rx.fifo.extend_from_slice(&[DR_PE | DR_OE | 7, DR_BE | DR_OE, DR_OE, DR_FE | DR_PE | DR_BE]);
    assert_eq!(read_byte(&mut rx), Err(NbError::Other(ReadErrorType::Parity)));
    assert_eq!(read_byte(&mut rx), Err(NbError::Other(ReadErrorType::Break)));
    assert_eq!(read_byte(&mut rx), Err(NbError::Other(ReadErrorType::Overrun)));
    assert_eq!(read_byte(&mut rx), Err(NbError::Other(ReadErrorType::Framing)));
    assert_eq!(read_byte(&mut rx), Err(NbError::WouldBlock));
}

#[test]
fn read_single_byte() {
    let mut rx = RxPath::new();
    rx.fifo.push(0x17a);
    assert_eq!(read_byte(&mut rx), Err(NbError::Other(ReadErrorType::Framing)));
    rx.fifo.push(0x7a);
    assert_eq!(read_byte(&mut rx), Ok(0x7a));
    assert!(rx.fifo.is_empty());
    rx.line.push(0x31);
    rx.receive_word();
    assert_eq!(read_byte(&mut rx), Ok(0x31));
}

#[test]
fn read_full_blocking_waits_for_line() {
    let mut dev = UartDevice::new();
    dev.rx.line.extend((0..50u16).map(|i| i + 100));
    let mut p = enabled(dev, config_9600_8_n_1());
    let mut buf = [0u8; 40];
    assert_eq!(p.read_full_blocking(&mut buf), Ok(()));
    let expected: Vec<u8> = (0..40u8).map(|i| i + 100).collect();
    assert_eq!(buf.to_vec(), expected);
    let d = p.device();
    let mut rest = d.rx.fifo.clone();
    rest.extend_from_slice(&d.rx.line);
    assert_eq!(rest, (40..50u16).map(|i| i + 100).collect::<Vec<u16>>());
}

#[test]
fn read_full_blocking_stops_on_error() {
    let mut dev = UartDevice::new();
    dev.rx.line.extend_from_slice(&[1, 2, 3, DR_BE, 5, 6]);
    let mut p = enabled(dev, config_9600_8_n_1());
    let mut buf = [0u8; 6];
    assert_eq!(p.read_full_blocking(&mut buf), Err(ReadErrorType::Break));
    assert_eq!(&buf[..3], &[1, 2, 3]);
}

#[test]
fn split_then_join_preserves_everything() {
    let mut dev = UartDevice::new();
    dev.rx.line.push(9);
    let p = UartPeripheral::new(dev, all_pins())
        .enable(config_115200_8_n_1(), REF_CLOCK)
        .ok()
        .unwrap();
    let regs = p.device().regs;
    let (mut reader, mut writer) = p.split();
    assert_eq!(reader.pins(), all_pins());
    assert_eq!(reader.config(), config_115200_8_n_1());
    assert_eq!(reader.effective_baudrate(), 115207);
    assert_eq!(writer.write_raw(b"ab").unwrap().len(), 0);
    assert_eq!(writer.flush(), Err(WouldBlock));
    assert_eq!(reader.read(), Err(NbError::WouldBlock));
    let mut one = [0u8; 1];
    assert_eq!(reader.read_full_blocking(&mut one), Ok(()));
    assert_eq!(one, [9]);
    let q = UartPeripheral::join(reader, writer);
    assert_eq!(q.pins(), all_pins());
    assert_eq!(q.config(), config_115200_8_n_1());
    assert_eq!(q.effective_baudrate(), 115207);
    assert_eq!(q.device().regs, regs);
    assert_eq!(q.device().tx.fifo, b"ab".to_vec());
    assert!(q.device().rx.fifo.is_empty());
}

#[test]
fn reader_and_writer_blocking_halves() {
    let mut dev = UartDevice::new();
    dev.rx.line.extend_from_slice(&[b'o' as u16, b'k' as u16]);
    let p = enabled(dev, config_9600_8_n_1());
    let (mut reader, mut writer) = p.split();
    let mut buf = [0u8; 2];
    assert_eq!(reader.read_full_blocking(&mut buf), Ok(()));
    assert_eq!(&buf, b"ok");
    writer.write_full_blocking(b"xyz");
    assert_eq!(writer.write(b'!'), Ok(()));
    let mut small = [0u8; 1];
    assert_eq!(reader.read_raw(&mut small), Err(NbError::WouldBlock));
    let q = UartPeripheral::join(reader, writer);
    assert_eq!(q.device().tx.fifo, b"xyz!".to_vec());
}
