//! Line settings of a serial port and the integer codes that select them.

use vstd::prelude::*;

verus! {

/// Number of bits per character.
#[derive(Clone, Copy, Debug, PartialEq, Eq, Structural)]
pub enum DataBits {
    Five,
    Six,
    Seven,
    Eight,
}

/// Parity checking mode.
#[derive(Clone, Copy, Debug, PartialEq, Eq, Structural)]
pub enum Parity {
    Off,
    Odd,
    Even,
}

/// Number of stop bits.
#[derive(Clone, Copy, Debug, PartialEq, Eq, Structural)]
pub enum StopBits {
    One,
    Two,
}

/// Flow control mode.
#[derive(Clone, Copy, Debug, PartialEq, Eq, Structural)]
pub enum FlowControl {
    Off,
    Software,
    Hardware,
}

/// Data-bit codes 6, 7 and 8 select a width; every other code selects none.
pub open spec fn data_bits_code(code: u8) -> Option<DataBits> {
    if code == 6 {
        Some(DataBits::Six)
    } else if code == 7 {
        Some(DataBits::Seven)
    } else if code == 8 {
        Some(DataBits::Eight)
    } else {
        None
    }
}

/// Parity code 1 is odd, 2 is even, and every other code turns parity off.
pub open spec fn parity_code(code: i32) -> Parity {
    if code == 1 {
        Parity::Odd
    } else if code == 2 {
        Parity::Even
    } else {
        Parity::Off
    }
}

/// Stop-bit codes 1 and 2 select a count; every other code selects none.
pub open spec fn stop_bits_code(code: u8) -> Option<StopBits> {
    if code == 1 {
        Some(StopBits::One)
    } else if code == 2 {
        Some(StopBits::Two)
    } else {
        None
    }
}

/// Flow-control code 0 is off, 1 is software, 2 is hardware; every other
/// code selects none.
pub open spec fn flow_control_code(code: u8) -> Option<FlowControl> {
    if code == 0 {
        Some(FlowControl::Off)
    } else if code == 1 {
        Some(FlowControl::Software)
    } else if code == 2 {
        Some(FlowControl::Hardware)
    } else {
        None
    }
}

/// Decodes a data-bit code.
pub fn decode_data_bits(code: u8) -> (res: Option<DataBits>)
    ensures
        res == data_bits_code(code),
{
    match code {
        6 => Some(DataBits::Six),
        7 => Some(DataBits::Seven),
        8 => Some(DataBits::Eight),
        _ => None,
    }
}

/// Decodes a parity code.
pub fn decode_parity(code: i32) -> (res: Parity)
    ensures
        res == parity_code(code),
{
    match code {
        1 => Parity::Odd,
        2 => Parity::Even,
        _ => Parity::Off,
    }
}

/// Decodes a stop-bit code.
pub fn decode_stop_bits(code: u8) -> (res: Option<StopBits>)
    ensures
        res == stop_bits_code(code),
{
    match code {
        1 => Some(StopBits::One),
        2 => Some(StopBits::Two),
        _ => None,
    }
}

/// Decodes a flow-control code.
pub fn decode_flow_control(code: u8) -> (res: Option<FlowControl>)
    ensures
        res == flow_control_code(code),
{
    match code {
        0 => Some(FlowControl::Off),
        1 => Some(FlowControl::Software),
        2 => Some(FlowControl::Hardware),
        _ => None,
    }
}

} // verus!
