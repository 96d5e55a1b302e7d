//! Error kinds reported by a serial port, the status codes handed back to
//! the engine, and the rule that tells a lost device from a passing fault.

use vstd::prelude::*;

verus! {

/// The kinds of I/O failure that the port logic tells apart.
///
/// Every other kind of I/O failure is `Other`.
#[derive(Clone, Copy, Debug, PartialEq, Eq, Structural)]
pub enum IoErrorKind {
    BrokenPipe,
    ConnectionAborted,
    NotConnected,
    UnexpectedEof,
    PermissionDenied,
    TimedOut,
    WouldBlock,
    Interrupted,
    Other,
}

/// The kind of a serial-port error: the device is gone, a parameter was
/// refused, an unknown fault, or an I/O failure of the given kind.
#[derive(Clone, Copy, Debug, PartialEq, Eq, Structural)]
pub enum PortErrorKind {
    NoDevice,
    InvalidInput,
    Unknown,
    Io(IoErrorKind),
}

/// Status codes returned to the engine by the stream operations.
#[derive(Clone, Copy, Debug, PartialEq, Eq, Structural)]
pub enum GdError {
    NoError,
    InvalidParameter,
    CantAcquireResource,
    ConnectionError,
    FileCantOpen,
    FileCantRead,
}

/// Why a port could not be used at all: no port was ever opened, or the
/// lock that guards the shared handle was poisoned.
#[derive(Clone, Copy, Debug, PartialEq, Eq, Structural)]
pub enum Unavailable {
    Missing,
    Poisoned,
}

/// I/O failures that mean the device went away.
pub open spec fn io_kind_means_disconnect(kind: IoErrorKind) -> bool {
    match kind {
        IoErrorKind::BrokenPipe => true,
        IoErrorKind::ConnectionAborted => true,
        IoErrorKind::NotConnected => true,
        IoErrorKind::UnexpectedEof => true,
        IoErrorKind::PermissionDenied => true,
        _ => false,
    }
}

/// Port errors that mean the device went away.
pub open spec fn port_kind_means_disconnect(kind: PortErrorKind) -> bool {
    match kind {
        PortErrorKind::NoDevice => true,
        PortErrorKind::Io(io) => io_kind_means_disconnect(io),
        _ => false,
    }
}

/// I/O failures that a read or write reports without any loss of the
/// device: the operation merely ran out of time or would have blocked.
pub open spec fn io_kind_is_transient(kind: IoErrorKind) -> bool {
    kind == IoErrorKind::TimedOut || kind == IoErrorKind::WouldBlock
}

/// Whether an I/O failure indicates that the device was disconnected.
pub fn is_io_disconnection_error(kind: IoErrorKind) -> (res: bool)
    ensures
        res == io_kind_means_disconnect(kind),
{
    match kind {
        IoErrorKind::BrokenPipe | IoErrorKind::ConnectionAborted | IoErrorKind::NotConnected
        | IoErrorKind::UnexpectedEof | IoErrorKind::PermissionDenied => true,
        _ => false,
    }
}

/// Whether a serial-port error indicates that the device was disconnected.
pub fn is_disconnection_error(kind: PortErrorKind) -> (res: bool)
    ensures
        res == port_kind_means_disconnect(kind),
{
    match kind {
        PortErrorKind::NoDevice => true,
        PortErrorKind::Io(io) => is_io_disconnection_error(io),
        _ => false,
    }
}

/// Whether an I/O failure is a time-out or a would-block.
pub fn is_transient_io_error(kind: IoErrorKind) -> (res: bool)
    ensures
        res == io_kind_is_transient(kind),
{
    match kind {
        IoErrorKind::TimedOut | IoErrorKind::WouldBlock => true,
        _ => false,
    }
}

/// A port error that wraps an I/O failure is judged exactly as that I/O
/// failure is judged on its own.
pub proof fn lemma_port_io_kind_judged_alike(kind: IoErrorKind)
    ensures
        port_kind_means_disconnect(PortErrorKind::Io(kind)) == io_kind_means_disconnect(kind),
{
}

/// A time-out or a would-block never counts as a disconnection.
pub proof fn lemma_transient_is_not_disconnect(kind: IoErrorKind)
    requires
        io_kind_is_transient(kind),
    ensures
        !io_kind_means_disconnect(kind),
{
}

} // verus!
