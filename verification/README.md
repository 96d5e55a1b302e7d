# gdserial

A serial-port session for a game engine's stream-peer interface, written in
Verus.

The library (`src/`) holds the session's state and every decision taken
around the port: line settings and the codes that select them, whether a
port was opened and whether the device is believed connected, how each
outcome of a transfer changes that belief, how a text line is assembled from
single bytes, how text is encoded and decoded, and how discovered ports are
described. Operations that need the port answer with a `Step`: either the
final result, or the transfer to perform, whose outcome the caller hands to
the matching `_finish` (or `readline_step`) function.

- `src/config.rs`: data bits, parity, stop bits, flow control and their codes.
- `src/errors.rs`: error kinds, status codes, the disconnection rule.
- `src/text.rs`: white space and trimming, UTF-8 decoding, hexadecimal digits.
- `src/ports.rs`: port descriptions and USB device names.
- `src/line.rs`: line assembly from bytes.
- `src/serial.rs`: the session (`GdSerial`) and its operations.
- `src/laws.rs`: properties that relate several operations.

`app/lib.rs` is the engine class: it owns the port handle, performs the
transfers with the `serialport` crate and converts between engine types and
the library's plain values.
