//! What each operation does, stated over its inputs and results directly:
//! the bytes a read returns, the settings each code selects, the count of
//! waiting bytes, the settings handed over for opening, and the readable
//! names of ports.

use vstd::prelude::*;
use crate::config::{
    data_bits_code, flow_control_code, parity_code, stop_bits_code, DataBits, FlowControl, Parity,
    StopBits,
};
use crate::errors::{
    io_kind_is_transient, io_kind_means_disconnect, port_kind_means_disconnect, GdError,
    IoErrorKind, PortErrorKind, Unavailable,
};
use crate::ports::{
    describes, device_name_text, opt_text, port_type_text, usb_device_name, PortInfo, PortKind,
    PortListing, UsbInfo,
};
use crate::serial::{
    after_count, after_io_error, after_port_error, after_probe, after_transfer, after_unavailable,
    configured, count_as_i32, delivered, get_data_report, get_data_request, initial_state,
    open_answer, probe_succeeds, put_data_report, put_data_request, read_buffer, waiting_count,
    with_data_bits, with_flow_control, with_parity, with_stop_bits, PortProbe, PortSettings,
    SerialState, Step,
};
use crate::text::{hex4, hex4_value, is_white_space, lemma_hex4_reads_back, trim_chars, trim_end_chars, trim_start_chars};

verus! {

// ---------------------------------------------------------------------------
// Reading
// ---------------------------------------------------------------------------

/// A read returns exactly the first `n` bytes of its buffer, `n` being the
/// count the port reported: the result has length `n` for every `n`, zero
/// included, and its `i`-th byte is the buffer's `i`-th byte.
pub proof fn lemma_read_returns_reported_bytes(buf: Vec<u8>, n: usize)
    requires
        n <= buf.len(),
    ensures
        delivered(Ok(Ok((buf, n)))).len() == n,
        forall|i: int| 0 <= i < n ==> #[trigger] delivered(Ok(Ok((buf, n))))[i] == buf@[i],
{
}

/// A read that fails, or that finds no port or a poisoned lock, returns no
/// bytes.
pub proof fn lemma_failed_read_returns_nothing(
    outcome: Result<Result<(Vec<u8>, usize), IoErrorKind>, Unavailable>,
)
    requires
        !(outcome matches Ok(Ok(_))),
    ensures
        delivered(outcome).len() == 0,
{
}

/// After a transfer, the session is unchanged when the transfer succeeded,
/// timed out, would have blocked or found no port; it keeps every setting
/// and marks the device disconnected when the transfer failed with a broken
/// pipe, an aborted or missing connection, an unexpected end of file or a
/// refused permission, or when the lock was poisoned.
pub proof fn lemma_transfer_changes_only_connection<T>(
    s: SerialState,
    outcome: Result<Result<T, IoErrorKind>, Unavailable>,
)
    ensures
        outcome matches Ok(Ok(_)) ==> after_transfer(s, outcome) == s,
        outcome matches Ok(Err(k)) && (k == IoErrorKind::TimedOut || k == IoErrorKind::WouldBlock
            || k == IoErrorKind::Interrupted || k == IoErrorKind::Other) ==> after_transfer(
            s,
            outcome,
        ) == s,
        outcome matches Ok(Err(k)) && (k == IoErrorKind::BrokenPipe || k
            == IoErrorKind::ConnectionAborted || k == IoErrorKind::NotConnected || k
            == IoErrorKind::UnexpectedEof || k == IoErrorKind::PermissionDenied) ==> after_transfer(
            s,
            outcome,
        ) == (SerialState { connected: false, ..s }),
        outcome == Err::<Result<T, IoErrorKind>, Unavailable>(Unavailable::Missing)
            ==> after_transfer(s, outcome) == s,
        outcome == Err::<Result<T, IoErrorKind>, Unavailable>(Unavailable::Poisoned)
            ==> after_transfer(s, outcome) == (SerialState { connected: false, ..s }),
{
}

// ---------------------------------------------------------------------------
// Setting codes
// ---------------------------------------------------------------------------

/// Only code 1 selects odd parity and only code 2 selects even parity; every
/// other code, 0 included, selects no parity.
pub proof fn lemma_parity_codes(code: i32)
    ensures
        (parity_code(code) == Parity::Odd) <==> code == 1,
        (parity_code(code) == Parity::Even) <==> code == 2,
        (parity_code(code) == Parity::Off) <==> (code != 1 && code != 2),
{
}

/// Setting the parity from a code changes the parity alone, to odd for 1,
/// even for 2 and none for every other code.
pub proof fn lemma_set_parity(s: SerialState, code: i32)
    ensures
        code == 1 ==> with_parity(s, code) == (SerialState { parity: Parity::Odd, ..s }),
        code == 2 ==> with_parity(s, code) == (SerialState { parity: Parity::Even, ..s }),
        code != 1 && code != 2 ==> with_parity(s, code) == (SerialState {
            parity: Parity::Off,
            ..s
        }),
{
}

/// Codes 6, 7 and 8 select six, seven and eight data bits; no other code
/// selects a width.
pub proof fn lemma_data_bits_codes(code: u8)
    ensures
        (data_bits_code(code) == Some(DataBits::Six)) <==> code == 6,
        (data_bits_code(code) == Some(DataBits::Seven)) <==> code == 7,
        (data_bits_code(code) == Some(DataBits::Eight)) <==> code == 8,
        (data_bits_code(code) is None) <==> (code < 6 || code > 8),
        data_bits_code(code) != Some(DataBits::Five),
{
}

/// Setting the data bits from a code changes the width alone; a code other
/// than 6, 7 or 8 changes nothing.
pub proof fn lemma_set_data_bits(s: SerialState, code: u8)
    ensures
        code == 6 ==> with_data_bits(s, code) == (SerialState { data_bits: DataBits::Six, ..s }),
        code == 7 ==> with_data_bits(s, code) == (SerialState {
            data_bits: DataBits::Seven,
            ..s
        }),
        code == 8 ==> with_data_bits(s, code) == (SerialState {
            data_bits: DataBits::Eight,
            ..s
        }),
        (code < 6 || code > 8) ==> with_data_bits(s, code) == s,
{
}

/// Codes 1 and 2 select one and two stop bits; no other code selects a
/// count.
pub proof fn lemma_stop_bits_codes(code: u8)
    ensures
        (stop_bits_code(code) == Some(StopBits::One)) <==> code == 1,
        (stop_bits_code(code) == Some(StopBits::Two)) <==> code == 2,
        (stop_bits_code(code) is None) <==> (code != 1 && code != 2),
{
}

/// Setting the stop bits from a code changes the count alone; a code other
/// than 1 or 2 changes nothing.
pub proof fn lemma_set_stop_bits(s: SerialState, code: u8)
    ensures
        code == 1 ==> with_stop_bits(s, code) == (SerialState { stop_bits: StopBits::One, ..s }),
        code == 2 ==> with_stop_bits(s, code) == (SerialState { stop_bits: StopBits::Two, ..s }),
        (code != 1 && code != 2) ==> with_stop_bits(s, code) == s,
{
}

/// Codes 0, 1 and 2 select no, software and hardware flow control; no other
/// code selects a mode.
pub proof fn lemma_flow_control_codes(code: u8)
    ensures
        (flow_control_code(code) == Some(FlowControl::Off)) <==> code == 0,
        (flow_control_code(code) == Some(FlowControl::Software)) <==> code == 1,
        (flow_control_code(code) == Some(FlowControl::Hardware)) <==> code == 2,
        (flow_control_code(code) is None) <==> code > 2,
{
}

/// Setting the flow control from a code changes the mode alone; a code
/// above 2 changes nothing.
pub proof fn lemma_set_flow_control(s: SerialState, code: u8)
    ensures
        code == 0 ==> with_flow_control(s, code) == (SerialState {
            flow_control: FlowControl::Off,
            ..s
        }),
        code == 1 ==> with_flow_control(s, code) == (SerialState {
            flow_control: FlowControl::Software,
            ..s
        }),
        code == 2 ==> with_flow_control(s, code) == (SerialState {
            flow_control: FlowControl::Hardware,
            ..s
        }),
        code > 2 ==> with_flow_control(s, code) == s,
{
}

// ---------------------------------------------------------------------------
// Counting waiting bytes
// ---------------------------------------------------------------------------

/// The count of waiting bytes is the count the port reported, for every
/// count; when the port did not answer with a count it is zero. As a signed
/// number it is the same count when it fits, and zero otherwise.
pub proof fn lemma_count_is_reported(n: u32, k: PortErrorKind)
    ensures
        waiting_count(PortProbe::Waiting(n)) == n,
        waiting_count(PortProbe::Failed(k)) == 0,
        waiting_count(PortProbe::Poisoned) == 0,
        waiting_count(PortProbe::Missing) == 0,
        n <= 0x7fff_ffff ==> count_as_i32(waiting_count(PortProbe::Waiting(n))) as int == n as int,
        n > 0x7fff_ffff ==> count_as_i32(waiting_count(PortProbe::Waiting(n))) == 0,
{
}

// ---------------------------------------------------------------------------
// Opening
// ---------------------------------------------------------------------------

/// Configuring a port in one call sets the port name, baud rate and
/// time-out as given, the data bits, parity and flow control as their codes
/// select, and leaves the stop bits, the port and the connection as they
/// were.
pub proof fn lemma_open_ex_configures(
    s: SerialState,
    port_name: Seq<char>,
    baud_rate: u32,
    timeout_ms: u32,
    data_bits: u8,
    parity: i32,
    flow_control: u8,
)
    ensures
        ({
            let t = configured(s, port_name, baud_rate, timeout_ms, data_bits, parity, flow_control);
            &&& t.port_name == port_name
            &&& t.baud_rate == baud_rate
            &&& t.timeout_ms as int == timeout_ms as int
            &&& t.stop_bits == s.stop_bits
            &&& t.has_port == s.has_port
            &&& t.connected == s.connected
            &&& t.data_bits == (if data_bits == 6 {
                DataBits::Six
            } else if data_bits == 7 {
                DataBits::Seven
            } else if data_bits == 8 {
                DataBits::Eight
            } else {
                s.data_bits
            })
            &&& t.parity == (if parity == 1 {
                Parity::Odd
            } else if parity == 2 {
                Parity::Even
            } else {
                Parity::Off
            })
            &&& t.flow_control == (if flow_control == 0 {
                FlowControl::Off
            } else if flow_control == 1 {
                FlowControl::Software
            } else if flow_control == 2 {
                FlowControl::Hardware
            } else {
                s.flow_control
            })
        }),
{
}

/// Opening hands over exactly the session's settings when a port name is
/// set, and refuses with an invalid-parameter status when none is.
pub proof fn lemma_open_hands_over_settings(s: SerialState, res: Step<crate::errors::GdError, PortSettings>)
    requires
        open_answer(s, res),
    ensures
        s.port_name.len() == 0 ==> res == Step::<crate::errors::GdError, PortSettings>::Done(
            crate::errors::GdError::InvalidParameter,
        ),
        s.port_name.len() > 0 ==> (res matches Step::Io(p) && p.port_name@ == s.port_name
            && p.baud_rate == s.baud_rate && p.data_bits == s.data_bits && p.parity == s.parity
            && p.stop_bits == s.stop_bits && p.flow_control == s.flow_control && p.timeout_ms
            == s.timeout_ms),
{
}

// ---------------------------------------------------------------------------
// Port names
// ---------------------------------------------------------------------------

/// When both descriptors are non-blank, the device name is the whole trimmed
/// manufacturer, one space, and the whole trimmed product.
pub proof fn lemma_usb_name_joins_descriptors(vid: u16, pid: u16, m: Seq<char>, p: Seq<char>)
    requires
        trim_chars(m).len() > 0,
        trim_chars(p).len() > 0,
    ensures
        ({
            let name = usb_device_name(vid, pid, Some(m), Some(p));
            let tm = trim_chars(m);
            let tp = trim_chars(p);
            &&& name.len() == tm.len() + 1 + tp.len()
            &&& name.subrange(0, tm.len() as int) == tm
            &&& name[tm.len() as int] == ' '
            &&& name.subrange(tm.len() as int + 1, name.len() as int) == tp
        }),
{
    let tm = trim_chars(m);
    let tp = trim_chars(p);
    let name = usb_device_name(vid, pid, Some(m), Some(p));
    assert(name =~= tm + seq![' '] + tp);
    assert(name.subrange(0, tm.len() as int) =~= tm);
    assert(name.subrange(tm.len() as int + 1, name.len() as int) =~= tp);
}

/// Whether a descriptor is absent or blank after trimming.
pub open spec fn blank(d: Option<Seq<char>>) -> bool {
    match d {
        Some(s) => trim_chars(s).len() == 0,
        None => true,
    }
}

/// When exactly one descriptor is non-blank, the device name is that
/// descriptor, trimmed.
pub proof fn lemma_usb_name_single_descriptor(
    vid: u16,
    pid: u16,
    m: Option<Seq<char>>,
    p: Option<Seq<char>>,
)
    ensures
        (!blank(m) && blank(p)) ==> usb_device_name(vid, pid, m, p) == trim_chars(m->0),
        (blank(m) && !blank(p)) ==> usb_device_name(vid, pid, m, p) == trim_chars(p->0),
{
}

/// When both descriptors are absent or blank, the device name is
/// `USB Serial (VID: 0x…, PID: 0x…)` with four hexadecimal digits for each
/// identifier, which read back as the vendor and product identifiers.
pub proof fn lemma_usb_name_falls_back_to_ids(
    vid: u16,
    pid: u16,
    m: Option<Seq<char>>,
    p: Option<Seq<char>>,
)
    requires
        blank(m),
        blank(p),
    ensures
        ({
            let name = usb_device_name(vid, pid, m, p);
            &&& name.len() == 37
            &&& name.subrange(0, 19) == "USB Serial (VID: 0x"@
            &&& hex4_value(name.subrange(19, 23)) == vid
            &&& name.subrange(23, 32) == ", PID: 0x"@
            &&& hex4_value(name.subrange(32, 36)) == pid
            &&& name[36] == ')'
        }),
{
    reveal_strlit("USB Serial (VID: 0x");
    reveal_strlit(", PID: 0x");
    reveal_strlit(")");
    lemma_hex4_reads_back(vid);
    lemma_hex4_reads_back(pid);
    let name = usb_device_name(vid, pid, m, p);
    let a = "USB Serial (VID: 0x"@;
    let b = ", PID: 0x"@;
    let c = ")"@;
    assert(name =~= a + hex4(vid) + b + hex4(pid) + c);
    assert(name.subrange(0, 19) =~= a);
    assert(name.subrange(19, 23) =~= hex4(vid));
    assert(name.subrange(23, 32) =~= b);
    assert(name.subrange(32, 36) =~= hex4(pid));
}

/// The connection type of a USB port is `USB - VID: …, PID: …` with four
/// hexadecimal digits for each identifier, which read back as the vendor and
/// product identifiers.
pub proof fn lemma_usb_port_type(usb: UsbInfo)
    ensures
        ({
            let t = port_type_text(PortKind::Usb(usb));
            &&& t.len() == 26
            &&& t.subrange(0, 11) == "USB - VID: "@
            &&& hex4_value(t.subrange(11, 15)) == usb.vid
            &&& t.subrange(15, 22) == ", PID: "@
            &&& hex4_value(t.subrange(22, 26)) == usb.pid
        }),
{
    reveal_strlit("USB - VID: ");
    reveal_strlit(", PID: ");
    lemma_hex4_reads_back(usb.vid);
    lemma_hex4_reads_back(usb.pid);
    let t = port_type_text(PortKind::Usb(usb));
    let a = "USB - VID: "@;
    let b = ", PID: "@;
    assert(t =~= a + hex4(usb.vid) + b + hex4(usb.pid));
    assert(t.subrange(0, 11) =~= a);
    assert(t.subrange(11, 15) =~= hex4(usb.vid));
    assert(t.subrange(15, 22) =~= b);
    assert(t.subrange(22, 26) =~= hex4(usb.pid));
}

// ---------------------------------------------------------------------------
// Connection state
// ---------------------------------------------------------------------------

/// A fresh session has no port name, 9600 baud, eight data bits, one stop
/// bit, no parity, no flow control, a one-second time-out, no port, and is
/// not connected.
pub proof fn lemma_initial_settings()
    ensures
        initial_state().port_name.len() == 0,
        initial_state().baud_rate == 9600,
        initial_state().data_bits == DataBits::Eight,
        initial_state().stop_bits == StopBits::One,
        initial_state().parity == Parity::Off,
        initial_state().flow_control == FlowControl::Off,
        initial_state().timeout_ms == 1000,
        !initial_state().connected,
        !initial_state().has_port,
{
}

/// A probe counts as live exactly when a port was opened and it answered
/// with a count. A live probe leaves the session as it was; any other keeps
/// every setting and marks the device disconnected.
pub proof fn lemma_probe_judgement(s: SerialState, probe: PortProbe)
    ensures
        probe_succeeds(s, probe) <==> (s.has_port && exists|n: u32| probe == PortProbe::Waiting(n)),
        (s.has_port && exists|n: u32| probe == PortProbe::Waiting(n)) ==> after_probe(s, probe)
            == s,
        !(s.has_port && exists|n: u32| probe == PortProbe::Waiting(n)) ==> after_probe(s, probe)
            == (SerialState { connected: false, ..s }),
{
    if let PortProbe::Waiting(n) = probe {
        assert(probe == PortProbe::Waiting(n));
    }
}

/// Exactly a broken pipe, an aborted connection, a missing connection, an
/// unexpected end of file and a refused permission mean that the device
/// went away; exactly a time-out and a would-block are transient. Of port
/// errors, a missing device and the I/O failures above mean it went away.
pub proof fn lemma_disconnection_kinds(k: IoErrorKind)
    ensures
        io_kind_means_disconnect(k) <==> (k == IoErrorKind::BrokenPipe || k
            == IoErrorKind::ConnectionAborted || k == IoErrorKind::NotConnected || k
            == IoErrorKind::UnexpectedEof || k == IoErrorKind::PermissionDenied),
        io_kind_is_transient(k) <==> (k == IoErrorKind::TimedOut || k == IoErrorKind::WouldBlock),
        port_kind_means_disconnect(PortErrorKind::NoDevice),
        !port_kind_means_disconnect(PortErrorKind::InvalidInput),
        !port_kind_means_disconnect(PortErrorKind::Unknown),
        port_kind_means_disconnect(PortErrorKind::Io(k)) <==> (k == IoErrorKind::BrokenPipe || k
            == IoErrorKind::ConnectionAborted || k == IoErrorKind::NotConnected || k
            == IoErrorKind::UnexpectedEof || k == IoErrorKind::PermissionDenied),
{
}

/// Handling an error changes at most the connection: an error that means the
/// device went away marks it disconnected, any other changes nothing; a
/// poisoned lock marks it disconnected, a missing port changes nothing; a
/// failed count of waiting bytes marks it disconnected, any other answer
/// changes nothing.
pub proof fn lemma_error_handling(s: SerialState, io: IoErrorKind, port: PortErrorKind, probe: PortProbe)
    ensures
        after_io_error(s, io) == (if io_kind_means_disconnect(io) {
            SerialState { connected: false, ..s }
        } else {
            s
        }),
        after_port_error(s, port) == (if port_kind_means_disconnect(port) {
            SerialState { connected: false, ..s }
        } else {
            s
        }),
        after_unavailable(s, Unavailable::Missing) == s,
        after_unavailable(s, Unavailable::Poisoned) == (SerialState { connected: false, ..s }),
        (exists|k: PortErrorKind| probe == PortProbe::Failed(k)) ==> after_count(s, probe)
            == (SerialState { connected: false, ..s }),
        !(exists|k: PortErrorKind| probe == PortProbe::Failed(k)) ==> after_count(s, probe) == s,
{
    if let PortProbe::Failed(k) = probe {
        assert(probe == PortProbe::Failed(k));
    }
}

/// A read asks for a zeroed buffer of exactly the requested size.
pub proof fn lemma_read_buffer(size: u32)
    ensures
        read_buffer(size).len() == size,
        forall|i: int| 0 <= i < size ==> #[trigger] read_buffer(size)[i] == 0,
{
}

// ---------------------------------------------------------------------------
// Stream transfers
// ---------------------------------------------------------------------------

/// A stream read or write asks for a transfer of exactly the given count when
/// a port was opened and answered, and reports a connection error otherwise.
pub proof fn lemma_stream_requests(s: SerialState, probe: PortProbe, count: i32)
    ensures
        (s.has_port && exists|n: u32| probe == PortProbe::Waiting(n)) ==> get_data_request(
            s,
            probe,
            count,
        ) == Step::<GdError, usize>::Io(count as usize) && put_data_request(s, probe, count)
            == Step::<GdError, usize>::Io(count as usize),
        !(s.has_port && exists|n: u32| probe == PortProbe::Waiting(n)) ==> get_data_request(
            s,
            probe,
            count,
        ) == Step::<GdError, usize>::Done(GdError::ConnectionError) && put_data_request(
            s,
            probe,
            count,
        ) == Step::<GdError, usize>::Done(GdError::ConnectionError),
{
    if let PortProbe::Waiting(n) = probe {
        assert(probe == PortProbe::Waiting(n));
    }
}

/// A stream transfer reports the count the port reported; a failed transfer
/// reports that the file cannot be read, a missing port that it cannot be
/// opened, and a poisoned lock that the resource cannot be acquired.
pub proof fn lemma_stream_reports(n: usize, k: IoErrorKind)
    requires
        n <= 0x7fff_ffff,
    ensures
        get_data_report(Ok(Ok(n))) == Ok::<i32, GdError>(n as i32) && (n as i32) as int == n as int,
        put_data_report(Ok(Ok(n))) == Ok::<i32, GdError>(n as i32),
        get_data_report(Ok(Err(k))) == Err::<i32, GdError>(GdError::FileCantRead),
        put_data_report(Ok(Err(k))) == Err::<i32, GdError>(GdError::FileCantRead),
        get_data_report(Err(Unavailable::Missing)) == Err::<i32, GdError>(GdError::FileCantOpen),
        put_data_report(Err(Unavailable::Missing)) == Err::<i32, GdError>(GdError::FileCantOpen),
        get_data_report(Err(Unavailable::Poisoned)) == Err::<i32, GdError>(
            GdError::CantAcquireResource,
        ),
        put_data_report(Err(Unavailable::Poisoned)) == Err::<i32, GdError>(
            GdError::CantAcquireResource,
        ),
{
}

// ---------------------------------------------------------------------------
// Other port descriptions
// ---------------------------------------------------------------------------

/// Ports attached over PCI or Bluetooth, or attached in an unknown way, are
/// described by fixed texts.
pub proof fn lemma_fixed_port_texts()
    ensures
        port_type_text(PortKind::Pci) == "PCI"@,
        device_name_text(PortKind::Pci) == "PCI Serial Port"@,
        port_type_text(PortKind::Bluetooth) == "Bluetooth"@,
        device_name_text(PortKind::Bluetooth) == "Bluetooth Serial Port"@,
        port_type_text(PortKind::Unknown) == "Unknown"@,
        device_name_text(PortKind::Unknown) == "Unknown Serial Device"@,
{
}

/// A listing reports a port when it carries the port's own name, the text of
/// its connection type and the text of its device name; a USB port's device
/// name is built from the text of its descriptor strings, absent ones
/// staying absent.
pub proof fn lemma_listing_reports_port(l: PortListing, info: PortInfo, o: Option<String>)
    ensures
        describes(l, info) <==> (l.port_name@ == info.port_name@ && l.port_type@ == port_type_text(
            info.kind,
        ) && l.device_name@ == device_name_text(info.kind)),
        o matches Some(t) ==> opt_text(o) == Some(t@),
        o is None ==> opt_text(o) is None,
        info.kind matches PortKind::Usb(usb) ==> device_name_text(info.kind) == usb_device_name(
            usb.vid,
            usb.pid,
            opt_text(usb.manufacturer),
            opt_text(usb.product),
        ),
{
}

// ---------------------------------------------------------------------------
// Trimming
// ---------------------------------------------------------------------------

/// Dropping leading white space keeps a suffix of the text: everything
/// dropped is white space, and what is kept does not start with white space.
pub proof fn lemma_trim_start(s: Seq<char>)
    ensures
        ({
            let t = trim_start_chars(s);
            let i = s.len() - t.len();
            &&& t.len() <= s.len()
            &&& t == s.subrange(i, s.len() as int)
            &&& forall|k: int| 0 <= k < i ==> is_white_space(#[trigger] s[k])
            &&& t.len() > 0 ==> !is_white_space(t[0])
        }),
    decreases s.len(),
{
    if s.len() > 0 && is_white_space(s[0]) {
        let r = s.drop_first();
        lemma_trim_start(r);
        let t = trim_start_chars(s);
        assert(t == trim_start_chars(r));
        let i = s.len() - t.len();
        assert(t =~= s.subrange(i, s.len() as int));
        assert forall|k: int| 0 <= k < i implies is_white_space(#[trigger] s[k]) by {
            if k > 0 {
                assert(s[k] == r[k - 1]);
            }
        }
    } else {
        assert(s.subrange(0, s.len() as int) =~= s);
    }
}

/// Dropping trailing white space keeps a prefix of the text: everything
/// dropped is white space, and what is kept does not end with white space.
pub proof fn lemma_trim_end(s: Seq<char>)
    ensures
        ({
            let t = trim_end_chars(s);
            &&& t.len() <= s.len()
            &&& t == s.subrange(0, t.len() as int)
            &&& forall|k: int| t.len() <= k < s.len() ==> is_white_space(#[trigger] s[k])
            &&& t.len() > 0 ==> !is_white_space(t[t.len() - 1])
        }),
    decreases s.len(),
{
    if s.len() > 0 && is_white_space(s.last()) {
        let r = s.drop_last();
        lemma_trim_end(r);
        let t = trim_end_chars(s);
        assert(t == trim_end_chars(r));
        assert(t =~= s.subrange(0, t.len() as int));
        assert forall|k: int| t.len() <= k < s.len() implies is_white_space(#[trigger] s[k]) by {
            if k < s.len() - 1 {
                assert(s[k] == r[k]);
            }
        }
    } else {
        assert(s.subrange(0, s.len() as int) =~= s);
    }
}

/// Trimming keeps one contiguous part of the text: everything before and
/// after it is white space, and the part neither starts nor ends with white
/// space.
pub proof fn lemma_trim(s: Seq<char>)
    ensures
        exists|i: int, j: int|
            0 <= i <= j <= s.len() && trim_chars(s) == s.subrange(i, j) && (forall|k: int|
                0 <= k < i ==> is_white_space(#[trigger] s[k])) && (forall|k: int|
                j <= k < s.len() ==> is_white_space(#[trigger] s[k])),
        trim_chars(s).len() > 0 ==> !is_white_space(trim_chars(s)[0]) && !is_white_space(
            trim_chars(s)[trim_chars(s).len() - 1],
        ),
{
    lemma_trim_start(s);
    let u = trim_start_chars(s);
    lemma_trim_end(u);
    let t = trim_end_chars(u);
    let i = s.len() - u.len();
    let j = i + t.len();
    assert(t =~= s.subrange(i, j));
    assert forall|k: int| j <= k < s.len() implies is_white_space(#[trigger] s[k]) by {
        assert(s[k] == u[k - i]);
    }
    if t.len() > 0 {
        assert(t[0] == u[0]);
    }
    assert(0 <= i <= j <= s.len() && trim_chars(s) == s.subrange(i, j));
}

} // verus!
