use serial_port::{
    reported_count, reported_flow_code, signed_byte, unsigned_byte, vec_i8_into_u8, vec_u8_into_i8,
    written_count, CharSize, FlowMode, OpenError, ParityMode, PortConfig, SerialPort, StopBitCount,
};
use std::io::{Read, Write};
use std::time::{Duration, Instant};

const MISSING: &str = "/nonexistent/serial/ttyMISSING0";

fn missing_port() -> SerialPort {
    SerialPort::new(MISSING, 9600, 8, 0, 0, 1, 100)
}

fn pty_port(timeout: i32) -> (serialport::TTYPort, serialport::TTYPort, SerialPort) {
    let (master, slave) = serialport::TTYPort::pair().expect("pseudo terminal pair");
    let name = serialport::SerialPort::name(&slave).expect("slave name");
    let port = SerialPort::new(&name, 9600, 8, 0, 0, 1, timeout);
    (master, slave, port)
}

#[test]
fn recognised_codes_are_decoded() {
    let c = PortConfig::from_codes(115200, 7, 2, 1, 2, 250);
    assert_eq!(c.baud_rate, 115200);
    assert_eq!(c.data_bits, CharSize::Seven);
    assert_eq!(c.flow_control, FlowMode::Hardware);
    assert_eq!(c.parity, ParityMode::Odd);
    assert_eq!(c.stop_bits, StopBitCount::Two);
    assert_eq!(c.timeout_ms, 250);
    assert_eq!(CharSize::from_code(5), CharSize::Five);
    assert_eq!(CharSize::from_code(6), CharSize::Six);
    assert_eq!(FlowMode::from_code(1), FlowMode::Software);
    assert_eq!(ParityMode::from_code(2), ParityMode::Even);
    assert_eq!(StopBitCount::from_code(1), StopBitCount::One);
}

#[test]
fn unrecognised_codes_fall_back_to_defaults() {
    let c = PortConfig::from_codes(9600, 3, 99, 7, 0, 100);
    assert_eq!(c.data_bits, CharSize::Eight);
    assert_eq!(c.flow_control, FlowMode::Off);
    assert_eq!(c.parity, ParityMode::Off);
    assert_eq!(c.stop_bits, StopBitCount::One);
    let port = SerialPort::new(MISSING, 9600, 3, 99, -1, 5, 100);
    assert_eq!(port.config().data_bits, CharSize::Eight);
    assert_eq!(port.config().flow_control, FlowMode::Off);
}

#[test]
fn negative_codes_keep_their_bits() {
    let c = PortConfig::from_codes(-1, 8, 0, 0, 1, -1);
    assert_eq!(c.baud_rate, u32::MAX);
    assert_eq!(c.timeout_ms, u64::MAX);
}

#[test]
fn flow_codes_round_trip() {
    assert_eq!(FlowMode::Off.code(), 0);
    assert_eq!(FlowMode::Software.code(), 1);
    assert_eq!(FlowMode::Hardware.code(), 2);
}

#[test]
fn missing_path_never_opens() {
    for (d, f, p, s) in [(8, 0, 0, 1), (5, 1, 1, 2), (3, 99, 7, 0)] {
        let mut port = SerialPort::new(MISSING, 9600, d, f, p, s, 100);
        assert!(!port.open());
        assert!(!port.is_open());
        assert_eq!(port.try_open(), Err(OpenError::NoPath));
    }
}

#[test]
fn absent_presence_refuses_open() {
    let config = PortConfig::from_codes(9600, 8, 0, 0, 1, 100);
    let mut port = SerialPort::with_presence("/dev/null", false, config);
    assert_eq!(port.try_open(), Err(OpenError::NoPath));
    assert!(!port.open());
}

#[test]
fn vanished_path_is_not_found() {
    let config = PortConfig::from_codes(9600, 8, 0, 0, 1, 100);
    let mut port = SerialPort::with_presence(MISSING, true, config);
    assert_eq!(port.try_open(), Err(OpenError::NotFound));
    assert!(!port.is_open());
}

#[test]
fn driver_refusal_is_reported() {
    let mut port = SerialPort::new("/dev/null", 9600, 8, 0, 0, 1, 100);
    assert_eq!(port.try_open(), Err(OpenError::Driver));
    assert!(!port.open());
    assert!(!port.is_open());
}

#[test]
fn close_is_idempotent() {
    let mut port = missing_port();
    assert!(port.close());
    assert!(port.close());
    assert!(!port.is_open());
}

#[test]
fn read_on_closed_port_gives_zeros() {
    let mut port = missing_port();
    assert_eq!(port.read(0), Vec::<i8>::new());
    assert_eq!(port.read(7), vec![0i8; 7]);
    assert_eq!(port.read_exact(4), vec![0i8; 4]);
    assert_eq!(port.read_to_eol(), Vec::<i8>::new());
}

#[test]
fn write_on_closed_port_fails() {
    let mut port = missing_port();
    assert_eq!(port.write(Vec::new()), -1);
    assert_eq!(port.write(vec![1, 2, 3]), -1);
    assert_eq!(port.write(vec![-128, 0, 127]), -1);
}

#[test]
fn queries_on_closed_port_are_empty() {
    let mut port = missing_port();
    assert_eq!(port.bytes_to_read(), 0);
    assert_eq!(port.flow_control(), 0);
    assert!(!port.read_carrier_detect());
    assert!(!port.read_clear_to_send());
    assert!(!port.read_data_set_ready());
    assert!(!port.read_ring_indicator());
}

#[test]
fn byte_conversions() {
    assert_eq!(unsigned_byte(-1), 255);
    assert_eq!(unsigned_byte(-128), 128);
    assert_eq!(unsigned_byte(5), 5);
    assert_eq!(signed_byte(200), -56);
    assert_eq!(signed_byte(127), 127);
    assert_eq!(vec_i8_into_u8(vec![-1, 0, 1, -128]), vec![255u8, 0, 1, 128]);
    assert_eq!(vec_u8_into_i8(vec![255, 0, 1, 128]), vec![-1i8, 0, 1, -128]);
}

#[test]
fn reported_values() {
    assert_eq!(reported_count(Some(12)), 12);
    assert_eq!(reported_count(Some(i32::MAX as u32)), i32::MAX);
    assert_eq!(reported_count(Some(u32::MAX)), -1);
    assert_eq!(reported_count(Some(0x8000_0000)), i32::MIN);
    assert_eq!(reported_count(None), 0);
    assert_eq!(reported_flow_code(Some(serialport::FlowControl::Hardware)), 2);
    assert_eq!(reported_flow_code(Some(serialport::FlowControl::Software)), 1);
    assert_eq!(reported_flow_code(Some(serialport::FlowControl::None)), 0);
    assert_eq!(reported_flow_code(None), 0);
    assert_eq!(written_count(Some(5)), 5);
    assert_eq!(written_count(None), -1);
    assert_eq!(written_count(Some(0x8000_0000)), i32::MIN);
    assert_eq!(written_count(Some(0x1_0000_0005)), 5);
}

#[test]
fn open_twice_keeps_one_session() {
    let (_master, _slave, mut port) = pty_port(500);
    assert!(port.open());
    assert!(port.open());
    assert!(port.is_open());
    assert!(port.close());
    assert!(!port.is_open());
    assert!(port.close());
}

#[test]
fn write_then_read_exact_round_trip() {
    let (mut master, _slave, mut port) = pty_port(1000);
    assert!(port.open());
    master.write_all(&[1, 2, 3, 4, 5]).unwrap();
    assert_eq!(port.read_exact(5), vec![1i8, 2, 3, 4, 5]);
    assert_eq!(port.write(vec![6, 7, -1]), 3);
    let mut got = [0u8; 3];
    master.read_exact(&mut got).unwrap();
    assert_eq!(got, [6, 7, 255]);
}

#[test]
fn read_returns_requested_length() {
    let (mut master, _slave, mut port) = pty_port(1000);
    assert!(port.open());
    master.write_all(&[9, 8]).unwrap();
    let deadline = Instant::now() + Duration::from_secs(2);
    while port.bytes_to_read() < 2 && Instant::now() < deadline {}
    assert_eq!(port.bytes_to_read(), 2);
    let got = port.read(6);
    assert_eq!(got.len(), 6);
    assert_eq!(&got[..2], &[9i8, 8]);
    assert_eq!(&got[2..], &[0i8; 4]);
}

#[test]
fn read_exact_times_out() {
    let (_master, _slave, mut port) = pty_port(100);
    assert!(port.open());
    let start = Instant::now();
    let got = port.read_exact(4);
    let elapsed = start.elapsed();
    assert_eq!(got, vec![0i8; 4]);
    assert!(elapsed >= Duration::from_millis(90));
    assert!(elapsed < Duration::from_millis(1500));
}

#[test]
fn settings_map_to_driver_variants() {
    assert_eq!(CharSize::Five.to_driver(), serialport::DataBits::Five);
    assert_eq!(CharSize::Six.to_driver(), serialport::DataBits::Six);
    assert_eq!(CharSize::Seven.to_driver(), serialport::DataBits::Seven);
    assert_eq!(CharSize::Eight.to_driver(), serialport::DataBits::Eight);
    assert_eq!(FlowMode::Off.to_driver(), serialport::FlowControl::None);
    assert_eq!(FlowMode::Software.to_driver(), serialport::FlowControl::Software);
    assert_eq!(FlowMode::Hardware.to_driver(), serialport::FlowControl::Hardware);
    assert_eq!(FlowMode::from_driver(serialport::FlowControl::Hardware), FlowMode::Hardware);
    assert_eq!(ParityMode::Off.to_driver(), serialport::Parity::None);
    assert_eq!(ParityMode::Odd.to_driver(), serialport::Parity::Odd);
    assert_eq!(ParityMode::Even.to_driver(), serialport::Parity::Even);
    assert_eq!(StopBitCount::One.to_driver(), serialport::StopBits::One);
    assert_eq!(StopBitCount::Two.to_driver(), serialport::StopBits::Two);
}

#[test]
fn read_counted_reports_transfer() {
    let mut closed = missing_port();
    assert_eq!(closed.read_counted(3), (vec![0u8; 3], None));
    let (mut master, _slave, mut port) = pty_port(1000);
    assert!(port.open());
    master.write_all(&[4, 5, 6]).unwrap();
    let deadline = Instant::now() + Duration::from_secs(2);
    while port.bytes_to_read() < 3 && Instant::now() < deadline {}
    let (buf, count) = port.read_counted(8);
    assert_eq!(count, Some(3));
    assert_eq!(buf, vec![4u8, 5, 6, 0, 0, 0, 0, 0]);
}

#[test]
fn open_port_reports_flow_control() {
    let (_master, _slave, mut port) = pty_port(100);
    assert!(port.open());
    assert_eq!(port.flow_control(), 0);
    assert_eq!(port.config().flow_control, FlowMode::Off);
}
