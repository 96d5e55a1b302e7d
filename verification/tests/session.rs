use gdserial::config::{DataBits, FlowControl, Parity, StopBits};
use gdserial::errors::{GdError, IoErrorKind, PortErrorKind, Unavailable};
use gdserial::line::ByteEvent;
use gdserial::serial::{ClearTarget, GdSerial, PortProbe, Step};

fn opened() -> GdSerial {
    let mut s = GdSerial::new();
    s.set_port("/dev/ttyUSB0".to_string());
    assert!(matches!(s.open(), Step::Io(_)));
    assert_eq!(s.open_finish(true), GdError::NoError);
    s
}

#[test]
fn new_session_has_default_settings() {
    let s = GdSerial::new();
    let p = s.settings();
    assert_eq!(p.port_name, "");
    assert_eq!(p.baud_rate, 9600);
    assert_eq!(p.data_bits, DataBits::Eight);
    assert_eq!(p.stop_bits, StopBits::One);
    assert_eq!(p.parity, Parity::Off);
    assert_eq!(p.flow_control, FlowControl::Off);
    assert_eq!(p.timeout_ms, 1000);
    assert!(!s.is_connected());
}

#[test]
fn data_bits_codes() {
    let mut s = GdSerial::new();
    s.set_data_bits(6);
    assert_eq!(s.settings().data_bits, DataBits::Six);
    s.set_data_bits(7);
    assert_eq!(s.settings().data_bits, DataBits::Seven);
    s.set_data_bits(5);
    assert_eq!(s.settings().data_bits, DataBits::Seven);
    s.set_data_bits(9);
    assert_eq!(s.settings().data_bits, DataBits::Seven);
    s.set_data_bits(8);
    assert_eq!(s.settings().data_bits, DataBits::Eight);
}

#[test]
fn parity_codes() {
    let mut s = GdSerial::new();
    s.set_parity(1);
    assert_eq!(s.settings().parity, Parity::Odd);
    s.set_parity(2);
    assert_eq!(s.settings().parity, Parity::Even);
    s.set_parity(-4);
    assert_eq!(s.settings().parity, Parity::Off);
    s.set_parity(2);
    s.set_parity(3);
    assert_eq!(s.settings().parity, Parity::Off);
}

#[test]
fn stop_bits_codes() {
    let mut s = GdSerial::new();
    s.set_stop_bits(2);
    assert_eq!(s.settings().stop_bits, StopBits::Two);
    s.set_stop_bits(0);
    assert_eq!(s.settings().stop_bits, StopBits::Two);
    s.set_stop_bits(1);
    assert_eq!(s.settings().stop_bits, StopBits::One);
}

#[test]
fn flow_control_codes() {
    let mut s = GdSerial::new();
    s.set_flow_control(1);
    assert_eq!(s.settings().flow_control, FlowControl::Software);
    s.set_flow_control(2);
    assert_eq!(s.settings().flow_control, FlowControl::Hardware);
    s.set_flow_control(3);
    assert_eq!(s.settings().flow_control, FlowControl::Hardware);
    s.set_flow_control(0);
    assert_eq!(s.settings().flow_control, FlowControl::Off);
}

#[test]
fn baud_rate_and_timeout() {
    let mut s = GdSerial::new();
    s.set_baud_rate(115200);
    s.set_timeout(250);
    let p = s.settings();
    assert_eq!(p.baud_rate, 115200);
    assert_eq!(p.timeout_ms, 250);
}

#[test]
fn open_without_port_name_is_invalid() {
    let s = GdSerial::new();
    assert!(matches!(s.open(), Step::Done(GdError::InvalidParameter)));
}

#[test]
fn open_hands_over_the_settings() {
    let mut s = GdSerial::new();
    s.set_port("COM3".to_string());
    s.set_baud_rate(57600);
    s.set_parity(2);
    match s.open() {
        Step::Io(p) => {
            assert_eq!(p.port_name, "COM3");
            assert_eq!(p.baud_rate, 57600);
            assert_eq!(p.parity, Parity::Even);
        }
        Step::Done(_) => panic!("a port name was set"),
    }
}

#[test]
fn open_finish_records_the_outcome() {
    let mut s = GdSerial::new();
    s.set_port("/dev/ttyACM0".to_string());
    assert_eq!(s.open_finish(false), GdError::CantAcquireResource);
    assert!(!s.is_connected());
    assert_eq!(s.open_finish(true), GdError::NoError);
    assert!(s.is_connected());
}

#[test]
fn open_ex_applies_every_setting() {
    let mut s = GdSerial::new();
    let step = s.open_ex("/dev/ttyS1".to_string(), 19200, 50, 7, 1, 2);
    match step {
        Step::Io(p) => {
            assert_eq!(p.port_name, "/dev/ttyS1");
            assert_eq!(p.baud_rate, 19200);
            assert_eq!(p.timeout_ms, 50);
            assert_eq!(p.data_bits, DataBits::Seven);
            assert_eq!(p.parity, Parity::Odd);
            assert_eq!(p.flow_control, FlowControl::Hardware);
            assert_eq!(p.stop_bits, StopBits::One);
        }
        Step::Done(_) => panic!("a port name was given"),
    }
    let mut t = GdSerial::new();
    assert!(matches!(t.open_ex(String::new(), 9600, 10, 8, 0, 0), Step::Done(GdError::InvalidParameter)));
    assert_eq!(t.settings().timeout_ms, 10);
}

#[test]
fn test_connection_without_port_fails() {
    let mut s = GdSerial::new();
    assert!(!s.test_connection(PortProbe::Waiting(3)));
    assert!(!s.is_connected());
}

#[test]
fn test_connection_judges_the_probe() {
    let mut s = opened();
    assert!(s.test_connection(PortProbe::Waiting(0)));
    assert!(s.is_connected());
    assert!(!s.test_connection(PortProbe::Failed(PortErrorKind::Io(IoErrorKind::TimedOut))));
    assert!(!s.is_connected());
    let mut t = opened();
    assert!(!t.test_connection(PortProbe::Poisoned));
    assert!(!t.is_connected());
}

#[test]
fn close_marks_disconnected() {
    let mut s = opened();
    s.close();
    assert!(!s.is_connected());
    let mut t = GdSerial::new();
    t.close();
    assert!(!t.is_connected());
}

#[test]
fn is_open_probes_only_with_a_port() {
    let mut s = GdSerial::new();
    assert!(!s.is_open(PortProbe::Waiting(1)));
    let mut t = opened();
    t.close();
    assert!(t.is_open(PortProbe::Waiting(1)));
    assert!(!t.is_connected());
    assert!(!t.is_open(PortProbe::Failed(PortErrorKind::NoDevice)));
}

#[test]
fn write_flow() {
    let mut s = opened();
    match s.write(vec![1, 2, 3], PortProbe::Waiting(0)) {
        Step::Io(bytes) => assert_eq!(bytes, vec![1, 2, 3]),
        Step::Done(_) => panic!("probe succeeded"),
    }
    assert!(s.write_finish(Ok(Ok(()))));
    assert!(s.is_connected());
    assert!(!s.write_finish(Ok(Err(IoErrorKind::TimedOut))));
    assert!(s.is_connected());
    assert!(!s.write_finish(Ok(Err(IoErrorKind::BrokenPipe))));
    assert!(!s.is_connected());
}

#[test]
fn write_fails_when_probe_fails() {
    let mut s = opened();
    assert!(matches!(s.write(vec![9], PortProbe::Missing), Step::Done(false)));
    assert!(!s.is_connected());
}

#[test]
fn write_finish_poisoned_disconnects() {
    let mut s = opened();
    assert!(!s.write_finish(Err(Unavailable::Poisoned)));
    assert!(!s.is_connected());
    let mut t = opened();
    assert!(!t.write_finish(Err(Unavailable::Missing)));
    assert!(t.is_connected());
}

#[test]
fn write_string_sends_utf8() {
    let mut s = opened();
    match s.write_string("héllo".to_string(), PortProbe::Waiting(0)) {
        Step::Io(bytes) => assert_eq!(bytes, "héllo".as_bytes().to_vec()),
        Step::Done(_) => panic!("probe succeeded"),
    }
}

#[test]
fn writeline_appends_newline() {
    let mut s = opened();
    match s.writeline("AT".to_string(), PortProbe::Waiting(0)) {
        Step::Io(bytes) => assert_eq!(bytes, b"AT\n".to_vec()),
        Step::Done(_) => panic!("probe succeeded"),
    }
    let mut t = GdSerial::new();
    assert!(matches!(t.writeline("AT".to_string(), PortProbe::Waiting(0)), Step::Done(false)));
}

#[test]
fn read_flow_truncates() {
    let mut s = opened();
    match s.read(8, PortProbe::Waiting(3)) {
        Step::Io(buf) => {
            assert_eq!(buf, vec![0u8; 8]);
            let mut buf = buf;
            buf[0] = 7;
            buf[1] = 8;
            buf[2] = 9;
            assert_eq!(s.read_finish(Ok(Ok((buf, 3)))), vec![7, 8, 9]);
        }
        Step::Done(_) => panic!("probe succeeded"),
    }
}

#[test]
fn read_when_disconnected_is_empty() {
    let mut s = GdSerial::new();
    match s.read(8, PortProbe::Waiting(3)) {
        Step::Done(bytes) => assert!(bytes.is_empty()),
        Step::Io(_) => panic!("no port"),
    }
}

#[test]
fn read_errors() {
    let mut s = opened();
    assert!(s.read_finish(Ok(Err(IoErrorKind::WouldBlock))).is_empty());
    assert!(s.is_connected());
    assert!(s.read_finish(Ok(Err(IoErrorKind::Other))).is_empty());
    assert!(s.is_connected());
    assert!(s.read_finish(Ok(Err(IoErrorKind::UnexpectedEof))).is_empty());
    assert!(!s.is_connected());
}

#[test]
fn read_string_decodes_utf8() {
    let mut s = opened();
    assert!(matches!(s.read_string(4, PortProbe::Waiting(0)), Step::Io(_)));
    let data = "ok é".as_bytes().to_vec();
    let n = data.len();
    assert_eq!(s.read_string_finish(Ok(Ok((data, n)))), "ok é");
    assert_eq!(s.read_string_finish(Ok(Ok((vec![0xff, 0x41], 2)))), "");
    assert_eq!(s.read_string_finish(Ok(Ok((vec![0x41, 0xff], 1)))), "A");
    let mut t = GdSerial::new();
    assert!(matches!(t.read_string(4, PortProbe::Waiting(0)), Step::Done(ref x) if x.is_empty()));
}

fn feed(s: &mut GdSerial, events: Vec<ByteEvent>) -> Option<String> {
    let mut reader = match s.readline(PortProbe::Waiting(1)) {
        Step::Io(r) => r,
        Step::Done(line) => return Some(line),
    };
    for e in events {
        match s.readline_step(reader, e) {
            Step::Io(r) => reader = r,
            Step::Done(line) => return Some(line),
        }
    }
    None
}

#[test]
fn readline_stops_at_newline_and_skips_carriage_return() {
    let mut s = opened();
    let events = b"ab\rc\nxy".iter().map(|b| ByteEvent::Byte(*b)).collect();
    assert_eq!(feed(&mut s, events), Some("abc".to_string()));
}

#[test]
fn readline_reads_bytes_as_latin1() {
    let mut s = opened();
    let events = vec![ByteEvent::Byte(0xe9), ByteEvent::Byte(0x41), ByteEvent::NoData];
    assert_eq!(feed(&mut s, events), Some("éA".to_string()));
}

#[test]
fn readline_ends_on_timeout_and_failures() {
    let mut s = opened();
    let events = vec![ByteEvent::Byte(b'x'), ByteEvent::Failed(IoErrorKind::TimedOut)];
    assert_eq!(feed(&mut s, events), Some("x".to_string()));
    assert!(s.is_connected());
    let events = vec![ByteEvent::Byte(b'y'), ByteEvent::Failed(IoErrorKind::BrokenPipe)];
    assert_eq!(feed(&mut s, events), Some("y".to_string()));
    assert!(!s.is_connected());
}

#[test]
fn readline_without_connection_is_empty() {
    let mut s = GdSerial::new();
    assert_eq!(feed(&mut s, vec![ByteEvent::Byte(b'a')]), Some(String::new()));
    let mut t = opened();
    assert_eq!(feed(&mut t, vec![ByteEvent::Unavailable(Unavailable::Poisoned)]), Some(String::new()));
    assert!(!t.is_connected());
}

#[test]
fn bytes_available_flow() {
    let s = GdSerial::new();
    assert!(matches!(s.bytes_available(), Step::Done(0)));
    let mut t = opened();
    assert!(matches!(t.bytes_available(), Step::Io(())));
    assert_eq!(t.bytes_available_finish(PortProbe::Waiting(42)), 42);
    assert!(t.is_connected());
    assert_eq!(t.bytes_available_finish(PortProbe::Poisoned), 0);
    assert!(t.is_connected());
    assert_eq!(t.bytes_available_finish(PortProbe::Missing), 0);
    assert!(t.is_connected());
    assert_eq!(t.bytes_available_finish(PortProbe::Failed(PortErrorKind::Io(IoErrorKind::TimedOut))), 0);
    assert!(!t.is_connected());
    assert!(matches!(t.bytes_available(), Step::Done(0)));
}

#[test]
fn get_available_bytes_saturates_to_zero() {
    let mut t = opened();
    assert!(matches!(t.get_available_bytes(), Step::Io(())));
    assert_eq!(t.get_available_bytes_finish(PortProbe::Waiting(17)), 17);
    assert_eq!(t.get_available_bytes_finish(PortProbe::Waiting(i32::MAX as u32)), i32::MAX);
    assert_eq!(t.get_available_bytes_finish(PortProbe::Waiting(u32::MAX)), 0);
    assert!(t.is_connected());
    assert_eq!(t.get_available_bytes_finish(PortProbe::Failed(PortErrorKind::Unknown)), 0);
    assert!(!t.is_connected());
    let s = GdSerial::new();
    assert!(matches!(s.get_available_bytes(), Step::Done(0)));
}

#[test]
fn clear_buffer_flow() {
    let mut s = opened();
    assert!(matches!(s.clear_buffer(PortProbe::Waiting(0)), Step::Io(ClearTarget::All)));
    assert!(s.clear_buffer_finish(Ok(Ok(()))));
    assert!(!s.clear_buffer_finish(Ok(Err(PortErrorKind::InvalidInput))));
    assert!(s.is_connected());
    assert!(!s.clear_buffer_finish(Ok(Err(PortErrorKind::NoDevice))));
    assert!(!s.is_connected());
    assert!(matches!(s.clear_buffer(PortProbe::Missing), Step::Done(false)));
}

#[test]
fn stream_read_reports() {
    let mut s = opened();
    assert!(matches!(s.get_data(PortProbe::Waiting(2), 16), Step::Io(16)));
    assert_eq!(s.get_data_finish(16, Ok(Ok(5))), Ok(5));
    assert_eq!(s.get_data_finish(16, Ok(Err(IoErrorKind::TimedOut))), Err(GdError::FileCantRead));
    assert!(s.is_connected());
    assert_eq!(s.get_data_finish(16, Err(Unavailable::Missing)), Err(GdError::FileCantOpen));
    assert_eq!(s.get_partial_data_finish(16, Err(Unavailable::Poisoned)), Err(GdError::CantAcquireResource));
    assert!(!s.is_connected());
    assert!(matches!(s.get_partial_data(PortProbe::Poisoned, 4), Step::Done(GdError::ConnectionError)));
}

#[test]
fn stream_write_reports() {
    let mut s = opened();
    assert!(matches!(s.put_data(PortProbe::Waiting(0), 3), Step::Io(3)));
    assert_eq!(s.put_data_finish(3, Ok(Ok(3))), Ok(3));
    assert!(matches!(s.put_partial_data(PortProbe::Waiting(0), 3), Step::Io(3)));
    assert_eq!(s.put_partial_data_finish(3, Ok(Err(IoErrorKind::NotConnected))), Err(GdError::FileCantRead));
    assert!(!s.is_connected());
    assert!(matches!(s.put_data(PortProbe::Waiting(0), 3), Step::Io(3)));
    let mut t = GdSerial::new();
    assert!(matches!(t.put_data(PortProbe::Waiting(0), 3), Step::Done(GdError::ConnectionError)));
}

#[test]
fn handle_disconnection_helpers() {
    let mut s = opened();
    s.handle_potential_io_disconnection(IoErrorKind::Interrupted);
    assert!(s.is_connected());
    s.handle_potential_disconnection(PortErrorKind::Unknown);
    assert!(s.is_connected());
    s.handle_potential_disconnection(PortErrorKind::Io(IoErrorKind::PermissionDenied));
    assert!(!s.is_connected());
    let mut t = opened();
    t.handle_potential_io_disconnection(IoErrorKind::ConnectionAborted);
    assert!(!t.is_connected());
}

#[test]
fn probe_passes_leaves_session_alone() {
    let s = GdSerial::new();
    assert!(!s.probe_passes(&PortProbe::Waiting(0)));
    let t = opened();
    assert!(t.probe_passes(&PortProbe::Waiting(0)));
    assert!(!t.probe_passes(&PortProbe::Poisoned));
    assert!(t.is_connected());
}
