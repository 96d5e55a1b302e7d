//! The serial-port session: line settings, whether a port was opened,
//! whether it is believed connected, and the decision taken around each
//! exchange with the port.
//!
//! The port itself is driven by the caller. An operation that needs the port
//! answers with a [`Step`]: either its final result, or the transfer to
//! perform, whose outcome is then handed to the operation's `_finish`
//! function. Each operation first probes the port (how many bytes wait),
//! and the outcome of that probe is one of the operation's arguments.

use vstd::prelude::*;
use vstd::string::*;
use vstd::utf8::encode_utf8;
use crate::config::{
    data_bits_code, decode_data_bits, decode_flow_control, decode_parity, decode_stop_bits,
    flow_control_code, parity_code, stop_bits_code, DataBits, FlowControl, Parity, StopBits,
};
use crate::errors::{
    io_kind_means_disconnect, is_disconnection_error, is_io_disconnection_error,
    is_transient_io_error, port_kind_means_disconnect, GdError, IoErrorKind, PortErrorKind,
    Unavailable,
};
use crate::line::{line_text, ByteEvent, LineReader};
use crate::ports::{describe_ports, describes, PortInfo, PortListing};
use crate::text::{text_from_bytes, text_from_utf8};

verus! {

/// Either the final result of an operation, or the transfer with the port
/// that it needs first.
pub enum Step<T, R> {
    Done(T),
    Io(R),
}

/// What the port answered when asked how many bytes wait to be read.
#[derive(Clone, Copy, Debug, PartialEq, Eq, Structural)]
pub enum PortProbe {
    /// No port has been opened.
    Missing,
    /// The lock that guards the port was poisoned.
    Poisoned,
    /// The port reported an error.
    Failed(PortErrorKind),
    /// The port answered with the number of bytes waiting.
    Waiting(u32),
}

/// Which of the port's buffers to clear.
#[derive(Clone, Copy, Debug, PartialEq, Eq, Structural)]
pub enum ClearTarget {
    /// Data received but not yet read.
    Input,
    /// Data written but not yet transmitted.
    Output,
    /// Both.
    All,
}

/// The settings with which a port is to be opened.
pub struct PortSettings {
    pub port_name: String,
    pub baud_rate: u32,
    pub data_bits: DataBits,
    pub parity: Parity,
    pub stop_bits: StopBits,
    pub flow_control: FlowControl,
    pub timeout_ms: u64,
}

/// The abstract state of a session.
pub struct SerialState {
    pub port_name: Seq<char>,
    pub baud_rate: u32,
    pub data_bits: DataBits,
    pub stop_bits: StopBits,
    pub parity: Parity,
    pub flow_control: FlowControl,
    pub timeout_ms: u64,
    /// Whether the session believes the device connected.
    pub connected: bool,
    /// Whether a port has been opened in this session.
    pub has_port: bool,
}

/// A serial-port session.
pub struct GdSerial {
    port_name: String,
    baud_rate: u32,
    data_bits: DataBits,
    stop_bits: StopBits,
    parity: Parity,
    flow_control: FlowControl,
    timeout_ms: u64,
    connected: bool,
    has_port: bool,
}

impl GdSerial {
    /// A session never believes the device connected without an opened port.
    #[verifier::type_invariant]
    spec fn connected_has_port(self) -> bool {
        self.connected ==> self.has_port
    }
}

impl View for GdSerial {
    type V = SerialState;

    closed spec fn view(&self) -> SerialState {
        SerialState {
            port_name: self.port_name@,
            baud_rate: self.baud_rate,
            data_bits: self.data_bits,
            stop_bits: self.stop_bits,
            parity: self.parity,
            flow_control: self.flow_control,
            timeout_ms: self.timeout_ms,
            connected: self.connected,
            has_port: self.has_port,
        }
    }
}

/// A fresh session: no port name, 9600 baud, eight data bits, one stop bit,
/// no parity, no flow control, a one-second time-out, no port, not
/// connected.
pub open spec fn initial_state() -> SerialState {
    SerialState {
        port_name: Seq::empty(),
        baud_rate: 9600,
        data_bits: DataBits::Eight,
        stop_bits: StopBits::One,
        parity: Parity::Off,
        flow_control: FlowControl::Off,
        timeout_ms: 1000,
        connected: false,
        has_port: false,
    }
}

/// `s` with the device marked as disconnected.
pub open spec fn disconnected(s: SerialState) -> SerialState {
    SerialState { connected: false, ..s }
}

/// Whether a probe shows a live port: a port was opened and it answered.
pub open spec fn probe_succeeds(s: SerialState, probe: PortProbe) -> bool {
    s.has_port && probe is Waiting
}

/// The state after a probe: unchanged when it succeeds, disconnected when
/// it fails.
pub open spec fn after_probe(s: SerialState, probe: PortProbe) -> SerialState {
    if probe_succeeds(s, probe) {
        s
    } else {
        disconnected(s)
    }
}

/// The state after the port could not be used: a poisoned lock marks the
/// device disconnected; a missing port changes nothing.
pub open spec fn after_unavailable(s: SerialState, why: Unavailable) -> SerialState {
    match why {
        Unavailable::Missing => s,
        Unavailable::Poisoned => disconnected(s),
    }
}

/// The state after an I/O failure: disconnected when the failure means
/// the device went away.
pub open spec fn after_io_error(s: SerialState, kind: IoErrorKind) -> SerialState {
    if io_kind_means_disconnect(kind) {
        disconnected(s)
    } else {
        s
    }
}

/// The state after a port error: disconnected when the error means the
/// device went away.
pub open spec fn after_port_error(s: SerialState, kind: PortErrorKind) -> SerialState {
    if port_kind_means_disconnect(kind) {
        disconnected(s)
    } else {
        s
    }
}

/// Whether `p` holds the settings of `s`.
pub open spec fn settings_of(p: PortSettings, s: SerialState) -> bool {
    &&& p.port_name@ == s.port_name
    &&& p.baud_rate == s.baud_rate
    &&& p.data_bits == s.data_bits
    &&& p.parity == s.parity
    &&& p.stop_bits == s.stop_bits
    &&& p.flow_control == s.flow_control
    &&& p.timeout_ms == s.timeout_ms
}

/// The state after the data-bit code `code`: a valid code selects its
/// width, any other leaves the width as it was.
pub open spec fn with_data_bits(s: SerialState, code: u8) -> SerialState {
    match data_bits_code(code) {
        Some(d) => SerialState { data_bits: d, ..s },
        None => s,
    }
}

/// The state after the parity code `code`.
pub open spec fn with_parity(s: SerialState, code: i32) -> SerialState {
    SerialState { parity: parity_code(code), ..s }
}

/// The state after the stop-bit code `code`.
pub open spec fn with_stop_bits(s: SerialState, code: u8) -> SerialState {
    match stop_bits_code(code) {
        Some(b) => SerialState { stop_bits: b, ..s },
        None => s,
    }
}

/// The state after the flow-control code `code`.
pub open spec fn with_flow_control(s: SerialState, code: u8) -> SerialState {
    match flow_control_code(code) {
        Some(f) => SerialState { flow_control: f, ..s },
        None => s,
    }
}

/// The state after configuring a whole port in one call.
pub open spec fn configured(
    s: SerialState,
    port_name: Seq<char>,
    baud_rate: u32,
    timeout_ms: u32,
    data_bits: u8,
    parity: i32,
    flow_control: u8,
) -> SerialState {
    with_flow_control(
        with_parity(
            with_data_bits(
                SerialState {
                    port_name: port_name,
                    baud_rate: baud_rate,
                    timeout_ms: timeout_ms as u64,
                    ..s
                },
                data_bits,
            ),
            parity,
        ),
        flow_control,
    )
}

/// Whether `res` is what opening a port with the state `s` answers first:
/// a port name is required; with one, the port is to be opened with the
/// settings of `s`.
pub open spec fn open_answer(s: SerialState, res: Step<GdError, PortSettings>) -> bool {
    if s.port_name.len() == 0 {
        res == Step::<GdError, PortSettings>::Done(GdError::InvalidParameter)
    } else {
        res matches Step::Io(p) && settings_of(p, s)
    }
}

/// The number of waiting bytes that a probe shows, zero when it failed.
pub open spec fn waiting_count(probe: PortProbe) -> u32 {
    match probe {
        PortProbe::Waiting(n) => n,
        _ => 0,
    }
}

/// The state after asking the port for the number of waiting bytes: an
/// error from the port marks the device disconnected, whatever its kind.
pub open spec fn after_count(s: SerialState, probe: PortProbe) -> SerialState {
    if probe is Failed {
        disconnected(s)
    } else {
        s
    }
}

/// A count as a signed 32-bit number, zero when it does not fit.
pub open spec fn count_as_i32(n: u32) -> i32 {
    if n <= i32::MAX {
        n as i32
    } else {
        0
    }
}

/// The bytes a read delivered: the first `n` of the buffer.
pub open spec fn delivered(outcome: Result<Result<(Vec<u8>, usize), IoErrorKind>, Unavailable>) -> Seq<u8> {
    match outcome {
        Ok(Ok((buf, n))) => buf@.subrange(0, n as int),
        _ => Seq::empty(),
    }
}

/// The state after a read or write with the given outcome.
pub open spec fn after_transfer<T>(s: SerialState, outcome: Result<Result<T, IoErrorKind>, Unavailable>) -> SerialState {
    match outcome {
        Ok(Ok(_)) => s,
        Ok(Err(kind)) => after_io_error(s, kind),
        Err(why) => after_unavailable(s, why),
    }
}

/// What a stream read answers to a probe: a connection error when the probe
/// fails; otherwise one read of at most `r_bytes` bytes.
pub open spec fn get_data_request(s: SerialState, probe: PortProbe, r_bytes: i32) -> Step<GdError, usize> {
    if probe_succeeds(s, probe) {
        Step::Io(r_bytes as usize)
    } else {
        Step::Done(GdError::ConnectionError)
    }
}

/// What a partial stream read answers to a probe: a connection error when
/// the probe fails; otherwise one read of at most `r_bytes` bytes.
pub open spec fn get_partial_data_request(s: SerialState, probe: PortProbe, r_bytes: i32) -> Step<GdError, usize> {
    if s.has_port && probe is Waiting {
        Step::Io(r_bytes as usize)
    } else {
        Step::Done(GdError::ConnectionError)
    }
}

/// What a stream write answers to a probe: a connection error when the probe
/// fails; otherwise one write of the `p_bytes` bytes.
pub open spec fn put_data_request(s: SerialState, probe: PortProbe, p_bytes: i32) -> Step<GdError, usize> {
    if probe_succeeds(s, probe) {
        Step::Io(p_bytes as usize)
    } else {
        Step::Done(GdError::ConnectionError)
    }
}

/// What a partial stream write answers to a probe: a connection error when
/// the probe fails; otherwise one write of the `p_bytes` bytes.
pub open spec fn put_partial_data_request(s: SerialState, probe: PortProbe, p_bytes: i32) -> Step<GdError, usize> {
    if s.has_port && probe is Waiting {
        Step::Io(p_bytes as usize)
    } else {
        Step::Done(GdError::ConnectionError)
    }
}

/// What a stream read reports of its outcome: the count received; a failed
/// read, a missing port and a poisoned lock each with its status.
pub open spec fn get_data_report(outcome: Result<Result<usize, IoErrorKind>, Unavailable>) -> Result<i32, GdError> {
    match outcome {
        Ok(Ok(n)) => Ok(n as i32),
        Ok(Err(_)) => Err(GdError::FileCantRead),
        Err(Unavailable::Missing) => Err(GdError::FileCantOpen),
        Err(Unavailable::Poisoned) => Err(GdError::CantAcquireResource),
    }
}

/// What a partial stream read reports of its outcome.
pub open spec fn get_partial_data_report(outcome: Result<Result<usize, IoErrorKind>, Unavailable>) -> Result<i32, GdError> {
    match outcome {
        Ok(Ok(n)) => Ok(n as i32),
        Ok(Err(_)) => Err(GdError::FileCantRead),
        Err(Unavailable::Missing) => Err(GdError::FileCantOpen),
        Err(Unavailable::Poisoned) => Err(GdError::CantAcquireResource),
    }
}

/// What a stream write reports of its outcome: the count sent; a failed
/// write reports the read-failure status, as reads do.
pub open spec fn put_data_report(outcome: Result<Result<usize, IoErrorKind>, Unavailable>) -> Result<i32, GdError> {
    match outcome {
        Ok(Ok(n)) => Ok(n as i32),
        Ok(Err(_)) => Err(GdError::FileCantRead),
        Err(Unavailable::Missing) => Err(GdError::FileCantOpen),
        Err(Unavailable::Poisoned) => Err(GdError::CantAcquireResource),
    }
}

/// What a partial stream write reports of its outcome.
pub open spec fn put_partial_data_report(outcome: Result<Result<usize, IoErrorKind>, Unavailable>) -> Result<i32, GdError> {
    match outcome {
        Ok(Ok(n)) => Ok(n as i32),
        Ok(Err(_)) => Err(GdError::FileCantRead),
        Err(Unavailable::Missing) => Err(GdError::FileCantOpen),
        Err(Unavailable::Poisoned) => Err(GdError::CantAcquireResource),
    }
}

/// The zeroed buffer of `size` bytes that one read fills.
pub open spec fn read_buffer(size: u32) -> Seq<u8> {
    Seq::new(size as nat, |i: int| 0u8)
}

/// Whether a transfer outcome reports no more than `requested` bytes.
pub open spec fn within(requested: i32, outcome: Result<Result<usize, IoErrorKind>, Unavailable>) -> bool {
    outcome matches Ok(Ok(n)) ==> n <= requested
}

impl GdSerial {
    /// A fresh session with the default settings and no port.
    pub fn new() -> (res: GdSerial)
        ensures
            res@ == initial_state(),
    {
        GdSerial {
            port_name: String::new(),
            baud_rate: 9600,
            data_bits: DataBits::Eight,
            stop_bits: StopBits::One,
            parity: Parity::Off,
            flow_control: FlowControl::Off,
            timeout_ms: 1000,
            connected: false,
            has_port: false,
        }
    }

    /// The settings with which the port is to be opened.
    pub fn settings(&self) -> (res: PortSettings)
        ensures
            settings_of(res, self@),
    {
        PortSettings {
            port_name: self.port_name.clone(),
            baud_rate: self.baud_rate,
            data_bits: self.data_bits,
            parity: self.parity,
            stop_bits: self.stop_bits,
            flow_control: self.flow_control,
            timeout_ms: self.timeout_ms,
        }
    }

    /// Marks the device disconnected when a port error means it went away.
    pub fn handle_potential_disconnection(&mut self, kind: PortErrorKind)
        ensures
            final(self)@ == after_port_error(old(self)@, kind),
    {
        if is_disconnection_error(kind) {
            self.connected = false;
        }
    }

    /// Marks the device disconnected when an I/O failure means it went away.
    pub fn handle_potential_io_disconnection(&mut self, kind: IoErrorKind)
        ensures
            final(self)@ == after_io_error(old(self)@, kind),
    {
        if is_io_disconnection_error(kind) {
            self.connected = false;
        }
    }

    /// Records that the port could not be used.
    fn handle_unavailable(&mut self, why: Unavailable)
        ensures
            final(self)@ == after_unavailable(old(self)@, why),
    {
        match why {
            Unavailable::Missing => {},
            Unavailable::Poisoned => {
                self.connected = false;
            },
        }
    }

    /// Whether a probe shows a live port, without changing the session.
    pub fn probe_passes(&self, probe: &PortProbe) -> (res: bool)
        ensures
            res == probe_succeeds(self@, *probe),
    {
        self.has_port && match probe {
            PortProbe::Waiting(_) => true,
            _ => false,
        }
    }

    /// Judges a probe of the port: live only when a port was opened and it
    /// answered; any other outcome marks the device disconnected.
    pub fn test_connection(&mut self, probe: PortProbe) -> (res: bool)
        ensures
            res == probe_succeeds(old(self)@, probe),
            final(self)@ == after_probe(old(self)@, probe),
    {
        let connected = self.has_port && match probe {
            PortProbe::Waiting(_) => true,
            _ => false,
        };
        if !connected {
            self.connected = false;
        }
        connected
    }

    /// Describes the ports that the system reported.
    pub fn list_ports(&self, found: &Result<Vec<PortInfo>, PortErrorKind>) -> (res: Vec<PortListing>)
        ensures
            match found {
                Ok(ports) => res.len() == ports.len() && forall|i: int|
                    0 <= i < ports.len() ==> describes(#[trigger] res[i], ports[i]),
                Err(_) => res.len() == 0,
            },
    {
        describe_ports(found)
    }

    /// Sets the name of the port to open.
    pub fn set_port(&mut self, port_name: String)
        ensures
            final(self)@ == (SerialState { port_name: port_name@, ..old(self)@ }),
    {
        proof {
            use_type_invariant(&*self);
        }
        self.port_name = port_name;
    }

    /// Sets the baud rate.
    pub fn set_baud_rate(&mut self, baud_rate: u32)
        ensures
            final(self)@ == (SerialState { baud_rate: baud_rate, ..old(self)@ }),
    {
        proof {
            use_type_invariant(&*self);
        }
        self.baud_rate = baud_rate;
    }

    /// Sets the number of data bits from its code (6, 7 or 8); any other
    /// code is refused and changes nothing.
    pub fn set_data_bits(&mut self, data_bits: u8)
        ensures
            final(self)@ == with_data_bits(old(self)@, data_bits),
    {
        proof {
            use_type_invariant(&*self);
        }
        match decode_data_bits(data_bits) {
            Some(d) => {
                self.data_bits = d;
            },
            None => {},
        }
    }

    /// Sets the parity from its code: 1 odd, 2 even, anything else none.
    pub fn set_parity(&mut self, parity: i32)
        ensures
            final(self)@ == with_parity(old(self)@, parity),
    {
        proof {
            use_type_invariant(&*self);
        }
        self.parity = decode_parity(parity);
    }

    /// Sets the number of stop bits from its code (1 or 2); any other code is
    /// refused and changes nothing.
    pub fn set_stop_bits(&mut self, stop_bits: u8)
        ensures
            final(self)@ == with_stop_bits(old(self)@, stop_bits),
    {
        proof {
            use_type_invariant(&*self);
        }
        match decode_stop_bits(stop_bits) {
            Some(b) => {
                self.stop_bits = b;
            },
            None => {},
        }
    }

    /// Sets the flow control from its code: 0 none, 1 software, 2 hardware;
    /// any other code is refused and changes nothing.
    pub fn set_flow_control(&mut self, flow_control: u8)
        ensures
            final(self)@ == with_flow_control(old(self)@, flow_control),
    {
        proof {
            use_type_invariant(&*self);
        }
        match decode_flow_control(flow_control) {
            Some(f) => {
                self.flow_control = f;
            },
            None => {},
        }
    }

    /// Sets the read and write time-out in milliseconds.
    pub fn set_timeout(&mut self, timeout_ms: u32)
        ensures
            final(self)@ == (SerialState { timeout_ms: timeout_ms as u64, ..old(self)@ }),
    {
        proof {
            use_type_invariant(&*self);
        }
        self.timeout_ms = timeout_ms as u64;
    }

    /// Starts opening the port: without a port name the request is invalid;
    /// otherwise the port is to be opened with the current settings, and
    /// the outcome handed to [`GdSerial::open_finish`].
    pub fn open(&self) -> (res: Step<GdError, PortSettings>)
        ensures
            open_answer(self@, res),
    {
        if self.port_name.as_str().is_empty() {
            Step::Done(GdError::InvalidParameter)
        } else {
            Step::Io(self.settings())
        }
    }

    /// Records whether the port opened: on success the session holds a
    /// connected port; on failure the device is marked disconnected.
    pub fn open_finish(&mut self, opened: bool) -> (res: GdError)
        ensures
            opened ==> res == GdError::NoError && final(self)@ == (SerialState {
                has_port: true,
                connected: true,
                ..old(self)@
            }),
            !opened ==> res == GdError::CantAcquireResource && final(self)@ == disconnected(
                old(self)@,
            ),
    {
        if opened {
            self.has_port = true;
            self.connected = true;
            GdError::NoError
        } else {
            self.connected = false;
            GdError::CantAcquireResource
        }
    }

    /// Applies a port name, baud rate, time-out, data-bit, parity and
    /// flow-control code, then starts opening the port.
    pub fn open_ex(
        &mut self,
        port_name: String,
        baud_rate: u32,
        timeout_ms: u32,
        data_bits: u8,
        parity: i32,
        flow_control: u8,
    ) -> (res: Step<GdError, PortSettings>)
        ensures
            final(self)@ == configured(
                old(self)@,
                port_name@,
                baud_rate,
                timeout_ms,
                data_bits,
                parity,
                flow_control,
            ),
            open_answer(final(self)@, res),
    {
        self.set_port(port_name);
        self.set_baud_rate(baud_rate);
        self.set_timeout(timeout_ms);
        self.set_data_bits(data_bits);
        self.set_parity(parity);
        self.set_flow_control(flow_control);
        self.open()
    }

    /// Closes the session: when a port was opened, the device is marked
    /// disconnected.
    pub fn close(&mut self)
        ensures
            final(self)@ == (if old(self)@.has_port {
                disconnected(old(self)@)
            } else {
                old(self)@
            }),
    {
        if self.has_port {
            self.connected = false;
        }
    }

    /// Whether the port is open and answers: false without a port; with one,
    /// the judgement of the probe.
    pub fn is_open(&mut self, probe: PortProbe) -> (res: bool)
        ensures
            res == probe_succeeds(old(self)@, probe),
            final(self)@ == (if old(self)@.has_port {
                after_probe(old(self)@, probe)
            } else {
                old(self)@
            }),
    {
        if self.has_port {
            self.test_connection(probe)
        } else {
            false
        }
    }

    /// Starts writing `data`: when the probe fails, the write fails; otherwise
    /// the bytes are to be written and flushed, and the outcome handed to
    /// [`GdSerial::write_finish`].
    pub fn write(&mut self, data: Vec<u8>, probe: PortProbe) -> (res: Step<bool, Vec<u8>>)
        ensures
            final(self)@ == after_probe(old(self)@, probe),
            probe_succeeds(old(self)@, probe) ==> (res matches Step::Io(bytes) && bytes@ == data@),
            !probe_succeeds(old(self)@, probe) ==> (res matches Step::Done(ok) && !ok),
    {
        if !self.test_connection(probe) {
            return Step::Done(false);
        }
        Step::Io(data)
    }

    /// Judges the outcome of writing and flushing: true when both succeeded;
    /// a failure that means the device went away, or a poisoned lock, marks
    /// it disconnected.
    pub fn write_finish(&mut self, outcome: Result<Result<(), IoErrorKind>, Unavailable>) -> (res: bool)
        ensures
            res == (outcome matches Ok(Ok(_))),
            final(self)@ == after_transfer(old(self)@, outcome),
    {
        match outcome {
            Ok(Ok(())) => true,
            Ok(Err(kind)) => {
                self.handle_potential_io_disconnection(kind);
                false
            },
            Err(why) => {
                self.handle_unavailable(why);
                false
            },
        }
    }

    /// Starts writing the UTF-8 encoding of `data`.
    pub fn write_string(&mut self, data: String, probe: PortProbe) -> (res: Step<bool, Vec<u8>>)
        ensures
            final(self)@ == after_probe(old(self)@, probe),
            probe_succeeds(old(self)@, probe) ==> (res matches Step::Io(bytes) && bytes@
                == encode_utf8(data@)),
            !probe_succeeds(old(self)@, probe) ==> (res matches Step::Done(ok) && !ok),
    {
        let bytes = data.as_str().as_bytes_vec();
        self.write(bytes, probe)
    }

    /// Starts writing the UTF-8 encoding of `data` followed by a newline.
    pub fn writeline(&mut self, data: String, probe: PortProbe) -> (res: Step<bool, Vec<u8>>)
        ensures
            final(self)@ == after_probe(old(self)@, probe),
            probe_succeeds(old(self)@, probe) ==> (res matches Step::Io(bytes) && bytes@
                == encode_utf8(data@.push('\n'))),
            !probe_succeeds(old(self)@, probe) ==> (res matches Step::Done(ok) && !ok),
    {
        let with_newline = data.concat("\n");
        proof {
            reveal_strlit("\n");
            assert(with_newline@ =~= data@.push('\n'));
        }
        let bytes = with_newline.as_str().as_bytes_vec();
        self.write(bytes, probe)
    }

    /// Starts reading up to `size` bytes: when the probe fails, nothing is
    /// read; otherwise a zeroed buffer of `size` bytes is to be filled by one
    /// read, and the outcome handed to [`GdSerial::read_finish`].
    pub fn read(&mut self, size: u32, probe: PortProbe) -> (res: Step<Vec<u8>, Vec<u8>>)
        ensures
            final(self)@ == after_probe(old(self)@, probe),
            probe_succeeds(old(self)@, probe) ==> (res matches Step::Io(buf) && buf@ == read_buffer(size)),
            !probe_succeeds(old(self)@, probe) ==> (res matches Step::Done(bytes) && bytes@.len()
                == 0),
    {
        if !self.test_connection(probe) {
            return Step::Done(Vec::new());
        }
        let buffer: Vec<u8> = vec![0u8; size as usize];
        Step::Io(buffer)
    }

    /// The bytes that a read delivered; on a failure other than a time-out
    /// or would-block, the device is marked disconnected when the failure
    /// means it went away.
    pub fn read_finish(&mut self, outcome: Result<Result<(Vec<u8>, usize), IoErrorKind>, Unavailable>) -> (res: Vec<u8>)
        requires
            outcome matches Ok(Ok((buf, n))) ==> n <= buf.len(),
        ensures
            res@ == delivered(outcome),
            final(self)@ == after_transfer(old(self)@, outcome),
    {
        match outcome {
            Ok(Ok((buffer, n))) => {
                let mut buffer = buffer;
                buffer.truncate(n);
                buffer
            },
            Ok(Err(kind)) => {
                if !is_transient_io_error(kind) {
                    self.handle_potential_io_disconnection(kind);
                }
                Vec::new()
            },
            Err(why) => {
                self.handle_unavailable(why);
                Vec::new()
            },
        }
    }

    /// Starts reading up to `size` bytes as text; see [`GdSerial::read`].
    pub fn read_string(&mut self, size: u32, probe: PortProbe) -> (res: Step<String, Vec<u8>>)
        ensures
            final(self)@ == after_probe(old(self)@, probe),
            probe_succeeds(old(self)@, probe) ==> (res matches Step::Io(buf) && buf@ == read_buffer(size)),
            !probe_succeeds(old(self)@, probe) ==> (res matches Step::Done(text) && text@.len()
                == 0),
    {
        match self.read(size, probe) {
            Step::Done(_) => Step::Done(String::new()),
            Step::Io(buffer) => Step::Io(buffer),
        }
    }

    /// The text that a read delivered: its UTF-8 decoding, or the empty text
    /// when the bytes are not valid UTF-8.
    pub fn read_string_finish(&mut self, outcome: Result<Result<(Vec<u8>, usize), IoErrorKind>, Unavailable>) -> (res: String)
        requires
            outcome matches Ok(Ok((buf, n))) ==> n <= buf.len(),
        ensures
            res@ == text_from_bytes(delivered(outcome)),
            final(self)@ == after_transfer(old(self)@, outcome),
    {
        let bytes = self.read_finish(outcome);
        text_from_utf8(bytes)
    }

    /// Starts reading a line: when the probe fails the line is empty;
    /// otherwise bytes are to be read one at a time and each outcome handed
    /// to [`GdSerial::readline_step`].
    pub fn readline(&mut self, probe: PortProbe) -> (res: Step<String, LineReader>)
        ensures
            final(self)@ == after_probe(old(self)@, probe),
            probe_succeeds(old(self)@, probe) ==> (res matches Step::Io(r) && r.received()
                == Seq::<u8>::empty()),
            !probe_succeeds(old(self)@, probe) ==> (res matches Step::Done(line) && line@.len()
                == 0),
    {
        if !self.test_connection(probe) {
            return Step::Done(String::new());
        }
        Step::Io(LineReader::new())
    }

    /// Takes the outcome of reading one byte into the line. A newline, a
    /// read with no data, a time-out or any other failure ends the line with
    /// the text received so far; a failure that means the device went away
    /// marks it disconnected. Any other byte is taken into the line and
    /// reading goes on. When the port cannot be used the line is empty.
    pub fn readline_step(&mut self, reader: LineReader, event: ByteEvent) -> (res: Step<String, LineReader>)
        ensures
            match event {
                ByteEvent::Byte(b) => if b == 10 {
                    (res matches Step::Done(line) && line@ == line_text(reader.received())
                )} else {
                    (res matches Step::Io(r) && r.received() == reader.received().push(b)
                )},
                ByteEvent::Unavailable(_) => (res matches Step::Done(line) && line@.len() == 0),
                _ => (res matches Step::Done(line) && line@ == line_text(reader.received())),
            },
            final(self)@ == match event {
                ByteEvent::Unavailable(why) => after_unavailable(old(self)@, why),
                ByteEvent::Failed(kind) => after_io_error(old(self)@, kind),
                _ => old(self)@,
            },
    {
        match event {
            ByteEvent::Unavailable(why) => {
                self.handle_unavailable(why);
                Step::Done(String::new())
            },
            ByteEvent::NoData => Step::Done(reader.finish()),
            ByteEvent::Byte(b) => {
                if b == 10 {
                    Step::Done(reader.finish())
                } else {
                    Step::Io(reader.take(b))
                }
            },
            ByteEvent::Failed(kind) => {
                if is_io_disconnection_error(kind) {
                    self.handle_potential_io_disconnection(kind);
                }
                Step::Done(reader.finish())
            },
        }
    }

    /// Starts counting the bytes waiting: zero when the device is not
    /// believed connected or no port was opened; otherwise the port is to be
    /// probed and the outcome handed to
    /// [`GdSerial::bytes_available_finish`].
    pub fn bytes_available(&self) -> (res: Step<u32, ()>)
        ensures
            (self@.connected && self@.has_port) ==> res is Io,
            !(self@.connected && self@.has_port) ==> res == Step::<u32, ()>::Done(0),
    {
        if !self.connected || !self.has_port {
            return Step::Done(0);
        }
        Step::Io(())
    }

    /// The number of bytes waiting that a probe shows, zero when it failed.
    /// A port that answers the count with an error is marked disconnected,
    /// whatever the kind of the error; a poisoned lock or a missing port
    /// changes nothing.
    pub fn bytes_available_finish(&mut self, probe: PortProbe) -> (res: u32)
        ensures
            res == waiting_count(probe),
            final(self)@ == after_count(old(self)@, probe),
    {
        match probe {
            PortProbe::Waiting(n) => n,
            PortProbe::Failed(_) => {
                self.connected = false;
                0
            },
            _ => 0,
        }
    }

    /// Like [`GdSerial::bytes_available`], for the stream interface.
    pub fn get_available_bytes(&self) -> (res: Step<i32, ()>)
        ensures
            (self@.connected && self@.has_port) ==> res is Io,
            !(self@.connected && self@.has_port) ==> res == Step::<i32, ()>::Done(0),
    {
        match self.bytes_available() {
            Step::Done(n) => Step::Done(n as i32),
            Step::Io(()) => Step::Io(()),
        }
    }

    /// The number of bytes waiting as a signed number, zero when it does not
    /// fit; a port that answers the count with an error is marked
    /// disconnected, as in [`GdSerial::bytes_available_finish`].
    pub fn get_available_bytes_finish(&mut self, probe: PortProbe) -> (res: i32)
        ensures
            res == count_as_i32(waiting_count(probe)),
            final(self)@ == after_count(old(self)@, probe),
    {
        let n = self.bytes_available_finish(probe);
        if n <= i32::MAX as u32 {
            n as i32
        } else {
            0
        }
    }

    /// Starts clearing the port's buffers: when the probe fails nothing is
    /// cleared; otherwise both the input and the output buffer are to be
    /// cleared and
    /// the outcome handed to [`GdSerial::clear_buffer_finish`].
    pub fn clear_buffer(&mut self, probe: PortProbe) -> (res: Step<bool, ClearTarget>)
        ensures
            final(self)@ == after_probe(old(self)@, probe),
            probe_succeeds(old(self)@, probe) ==> res == Step::<bool, ClearTarget>::Io(
                ClearTarget::All,
            ),
            !probe_succeeds(old(self)@, probe) ==> res == Step::<bool, ClearTarget>::Done(false),
    {
        if !self.test_connection(probe) {
            return Step::Done(false);
        }
        Step::Io(ClearTarget::All)
    }

    /// Judges the outcome of clearing the buffers.
    pub fn clear_buffer_finish(&mut self, outcome: Result<Result<(), PortErrorKind>, Unavailable>) -> (res: bool)
        ensures
            res == (outcome matches Ok(Ok(_))),
            final(self)@ == match outcome {
                Ok(Ok(_)) => old(self)@,
                Ok(Err(kind)) => after_port_error(old(self)@, kind),
                Err(why) => after_unavailable(old(self)@, why),
            },
    {
        match outcome {
            Ok(Ok(())) => true,
            Ok(Err(kind)) => {
                self.handle_potential_disconnection(kind);
                false
            },
            Err(why) => {
                self.handle_unavailable(why);
                false
            },
        }
    }

    /// Whether the session believes the device connected.
    pub fn is_connected(&self) -> (res: bool)
        ensures
            res == self@.connected,
            res ==> self@.has_port,
    {
        proof {
            use_type_invariant(self);
        }
        self.connected
    }

    /// Starts a stream read of up to `r_bytes` bytes: a failed probe reports a
    /// connection error; otherwise one read of at most `r_bytes` bytes is to be
    /// made and its outcome handed to [`GdSerial::get_data_finish`].
    pub fn get_data(&mut self, probe: PortProbe, r_bytes: i32) -> (res: Step<GdError, usize>)
        requires
            probe_succeeds(old(self)@, probe) ==> r_bytes >= 0,
        ensures
            final(self)@ == after_probe(old(self)@, probe),
            res == get_data_request(old(self)@, probe, r_bytes),
    {
        if !self.test_connection(probe) {
            return Step::Done(GdError::ConnectionError);
        }
        Step::Io(r_bytes as usize)
    }

    /// Judges the outcome of a stream transfer: the count on success; a
    /// read failure, a missing port or a poisoned lock each with its status.
    fn finish_transfer(&mut self, requested: i32, outcome: Result<Result<usize, IoErrorKind>, Unavailable>) -> (res: Result<i32, GdError>)
        requires
            within(requested, outcome),
        ensures
            res == get_data_report(outcome),
            final(self)@ == after_transfer(old(self)@, outcome),
    {
        match outcome {
            Ok(Ok(n)) => Ok(n as i32),
            Ok(Err(kind)) => {
                if !is_transient_io_error(kind) {
                    self.handle_potential_io_disconnection(kind);
                }
                Err(GdError::FileCantRead)
            },
            Err(why) => {
                self.handle_unavailable(why);
                match why {
                    Unavailable::Missing => Err(GdError::FileCantOpen),
                    Unavailable::Poisoned => Err(GdError::CantAcquireResource),
                }
            },
        }
    }

    /// Judges the outcome of a stream read: the number of bytes received, or
    /// the status of the failure.
    pub fn get_data_finish(&mut self, requested: i32, outcome: Result<Result<usize, IoErrorKind>, Unavailable>) -> (res: Result<i32, GdError>)
        requires
            within(requested, outcome),
        ensures
            res == get_data_report(outcome),
            final(self)@ == after_transfer(old(self)@, outcome),
    {
        self.finish_transfer(requested, outcome)
    }

    /// The same as [`GdSerial::get_data`].
    pub fn get_partial_data(&mut self, probe: PortProbe, r_bytes: i32) -> (res: Step<GdError, usize>)
        requires
            probe_succeeds(old(self)@, probe) ==> r_bytes >= 0,
        ensures
            final(self)@ == after_probe(old(self)@, probe),
            res == get_partial_data_request(old(self)@, probe, r_bytes),
    {
        self.get_data(probe, r_bytes)
    }

    /// The same as [`GdSerial::get_data_finish`].
    pub fn get_partial_data_finish(&mut self, requested: i32, outcome: Result<Result<usize, IoErrorKind>, Unavailable>) -> (res: Result<i32, GdError>)
        requires
            within(requested, outcome),
        ensures
            res == get_partial_data_report(outcome),
            final(self)@ == after_transfer(old(self)@, outcome),
    {
        self.finish_transfer(requested, outcome)
    }

    /// Starts a stream write of `p_bytes` bytes: a failed probe reports a
    /// connection error; otherwise one write of the `p_bytes` bytes is to be
    /// made and its outcome handed to [`GdSerial::put_data_finish`].
    pub fn put_data(&mut self, probe: PortProbe, p_bytes: i32) -> (res: Step<GdError, usize>)
        requires
            probe_succeeds(old(self)@, probe) ==> p_bytes >= 0,
        ensures
            final(self)@ == after_probe(old(self)@, probe),
            res == put_data_request(old(self)@, probe, p_bytes),
    {
        if !self.test_connection(probe) {
            return Step::Done(GdError::ConnectionError);
        }
        Step::Io(p_bytes as usize)
    }

    /// Judges the outcome of a stream write: the number of bytes sent, or the
    /// status of the failure (a failed write reports the read-failure status,
    /// as reads do).
    pub fn put_data_finish(&mut self, requested: i32, outcome: Result<Result<usize, IoErrorKind>, Unavailable>) -> (res: Result<i32, GdError>)
        requires
            within(requested, outcome),
        ensures
            res == put_data_report(outcome),
            final(self)@ == after_transfer(old(self)@, outcome),
    {
        self.finish_transfer(requested, outcome)
    }

    /// The same as [`GdSerial::put_data`].
    pub fn put_partial_data(&mut self, probe: PortProbe, p_bytes: i32) -> (res: Step<GdError, usize>)
        requires
            probe_succeeds(old(self)@, probe) ==> p_bytes >= 0,
        ensures
            final(self)@ == after_probe(old(self)@, probe),
            res == put_partial_data_request(old(self)@, probe, p_bytes),
    {
        self.put_data(probe, p_bytes)
    }

    /// The same as [`GdSerial::put_data_finish`].
    pub fn put_partial_data_finish(&mut self, requested: i32, outcome: Result<Result<usize, IoErrorKind>, Unavailable>) -> (res: Result<i32, GdError>)
        requires
            within(requested, outcome),
        ensures
            res == put_partial_data_report(outcome),
            final(self)@ == after_transfer(old(self)@, outcome),
    {
        self.finish_transfer(requested, outcome)
    }
}

} // verus!
