use gdserial::errors::{
    is_disconnection_error, is_io_disconnection_error, is_transient_io_error, IoErrorKind,
    PortErrorKind,
};

const ALL_IO: [IoErrorKind; 9] = [
    IoErrorKind::BrokenPipe,
    IoErrorKind::ConnectionAborted,
    IoErrorKind::NotConnected,
    IoErrorKind::UnexpectedEof,
    IoErrorKind::PermissionDenied,
    IoErrorKind::TimedOut,
    IoErrorKind::WouldBlock,
    IoErrorKind::Interrupted,
    IoErrorKind::Other,
];

#[test]
fn io_disconnection_kinds() {
    let expected = [true, true, true, true, true, false, false, false, false];
    for (k, e) in ALL_IO.iter().zip(expected.iter()) {
        assert_eq!(is_io_disconnection_error(*k), *e, "{:?}", k);
    }
}

#[test]
fn port_disconnection_kinds() {
    assert!(is_disconnection_error(PortErrorKind::NoDevice));
    assert!(!is_disconnection_error(PortErrorKind::InvalidInput));
    assert!(!is_disconnection_error(PortErrorKind::Unknown));
    assert!(is_disconnection_error(PortErrorKind::Io(IoErrorKind::BrokenPipe)));
    assert!(!is_disconnection_error(PortErrorKind::Io(IoErrorKind::TimedOut)));
}

#[test]
fn wrapped_io_kind_judged_alike() {
    for k in ALL_IO.iter() {
        assert_eq!(is_disconnection_error(PortErrorKind::Io(*k)), is_io_disconnection_error(*k));
    }
}

#[test]
fn transient_kinds_never_disconnect() {
    for k in ALL_IO.iter() {
        if is_transient_io_error(*k) {
            assert!(!is_io_disconnection_error(*k));
        }
    }
    assert!(is_transient_io_error(IoErrorKind::TimedOut));
    assert!(is_transient_io_error(IoErrorKind::WouldBlock));
    assert!(!is_transient_io_error(IoErrorKind::Interrupted));
}
