//! Descriptions of the serial ports found on the system: the connection
//! type and a readable device name for each.

use vstd::prelude::*;
use vstd::string::*;
use crate::errors::PortErrorKind;
use crate::text::{hex4, push_char, push_hex4, trim_chars, trim_str};

verus! {

/// The USB descriptor data of a port attached over USB.
pub struct UsbInfo {
    pub vid: u16,
    pub pid: u16,
    pub manufacturer: Option<String>,
    pub product: Option<String>,
}

/// How a port is attached.
pub enum PortKind {
    Usb(UsbInfo),
    Pci,
    Bluetooth,
    Unknown,
}

/// A port found on the system.
pub struct PortInfo {
    pub port_name: String,
    pub kind: PortKind,
}

/// What is reported of one port: its name, its connection type and a
/// readable device name.
pub struct PortListing {
    pub port_name: String,
    pub port_type: String,
    pub device_name: String,
}

/// The text of an optional string.
pub open spec fn opt_text(o: Option<String>) -> Option<Seq<char>> {
    match o {
        Some(s) => Some(s@),
        None => None,
    }
}

/// A descriptor string after trimming, when anything is left of it.
pub open spec fn nonblank(o: Option<Seq<char>>) -> Option<Seq<char>> {
    match o {
        Some(s) => if trim_chars(s).len() > 0 {
            Some(trim_chars(s))
        } else {
            None
        },
        None => None,
    }
}

/// The device name of a USB port: the trimmed manufacturer and product
/// strings joined by one space, those of them that are not blank; when both
/// are blank or absent, the vendor and product identifiers in hexadecimal.
pub open spec fn usb_device_name(
    vid: u16,
    pid: u16,
    manufacturer: Option<Seq<char>>,
    product: Option<Seq<char>>,
) -> Seq<char> {
    match (nonblank(manufacturer), nonblank(product)) {
        (Some(m), Some(p)) => m + seq![' '] + p,
        (Some(m), None) => m,
        (None, Some(p)) => p,
        (None, None) => "USB Serial (VID: 0x"@ + hex4(vid) + ", PID: 0x"@ + hex4(pid) + ")"@,
    }
}

/// The connection-type text of a port.
pub open spec fn port_type_text(kind: PortKind) -> Seq<char> {
    match kind {
        PortKind::Usb(usb) => "USB - VID: "@ + hex4(usb.vid) + ", PID: "@ + hex4(usb.pid),
        PortKind::Pci => "PCI"@,
        PortKind::Bluetooth => "Bluetooth"@,
        PortKind::Unknown => "Unknown"@,
    }
}

/// The device-name text of a port.
pub open spec fn device_name_text(kind: PortKind) -> Seq<char> {
    match kind {
        PortKind::Usb(usb) => usb_device_name(
            usb.vid,
            usb.pid,
            opt_text(usb.manufacturer),
            opt_text(usb.product),
        ),
        PortKind::Pci => "PCI Serial Port"@,
        PortKind::Bluetooth => "Bluetooth Serial Port"@,
        PortKind::Unknown => "Unknown Serial Device"@,
    }
}

/// Whether `listing` reports `info`.
pub open spec fn describes(listing: PortListing, info: PortInfo) -> bool {
    &&& listing.port_name@ == info.port_name@
    &&& listing.port_type@ == port_type_text(info.kind)
    &&& listing.device_name@ == device_name_text(info.kind)
}

/// A descriptor string after trimming, or `None` when it is absent or blank.
fn nonblank_trimmed(o: &Option<String>) -> (res: Option<String>)
    ensures
        opt_text(res) == nonblank(opt_text(*o)),
{
    match o {
        Some(s) => {
            let t = String::from_str(trim_str(s.as_str()));
            if t.as_str().is_empty() {
                None
            } else {
                Some(t)
            }
        },
        None => None,
    }
}

/// Builds a readable name for a USB device from its descriptor strings,
/// falling back to its vendor and product identifiers.
pub fn get_usb_device_name(
    vid: u16,
    pid: u16,
    manufacturer: &Option<String>,
    product: &Option<String>,
) -> (res: String)
    ensures
        res@ == usb_device_name(vid, pid, opt_text(*manufacturer), opt_text(*product)),
{
    let m = nonblank_trimmed(manufacturer);
    let p = nonblank_trimmed(product);
    match (m, p) {
        (Some(m), Some(p)) => {
            let mut name = m;
            push_char(&mut name, ' ');
            name.append(p.as_str());
            name
        },
        (Some(m), None) => m,
        (None, Some(p)) => p,
        (None, None) => {
            let mut name = String::from_str("USB Serial (VID: 0x");
            push_hex4(&mut name, vid);
            name.append(", PID: 0x");
            push_hex4(&mut name, pid);
            name.append(")");
            name
        },
    }
}

/// Describes one port: its name, connection type and device name.
pub fn describe_port(info: &PortInfo) -> (res: PortListing)
    ensures
        describes(res, *info),
{
    let port_name = info.port_name.clone();
    match &info.kind {
        PortKind::Usb(usb) => {
            let mut port_type = String::from_str("USB - VID: ");
            push_hex4(&mut port_type, usb.vid);
            port_type.append(", PID: ");
            push_hex4(&mut port_type, usb.pid);
            let device_name = get_usb_device_name(usb.vid, usb.pid, &usb.manufacturer, &usb.product);
            PortListing { port_name, port_type, device_name }
        },
        PortKind::Pci => PortListing {
            port_name,
            port_type: String::from_str("PCI"),
            device_name: String::from_str("PCI Serial Port"),
        },
        PortKind::Bluetooth => PortListing {
            port_name,
            port_type: String::from_str("Bluetooth"),
            device_name: String::from_str("Bluetooth Serial Port"),
        },
        PortKind::Unknown => PortListing {
            port_name,
            port_type: String::from_str("Unknown"),
            device_name: String::from_str("Unknown Serial Device"),
        },
    }
}

/// Describes every port that the system reported, in order; when listing
/// the ports failed, nothing.
pub fn describe_ports(found: &Result<Vec<PortInfo>, PortErrorKind>) -> (res: Vec<PortListing>)
    ensures
        match found {
            Ok(ports) => res.len() == ports.len() && forall|i: int|
                0 <= i < ports.len() ==> describes(#[trigger] res[i], ports[i]),
            Err(_) => res.len() == 0,
        },
{
    let mut listings: Vec<PortListing> = Vec::new();
    match found {
        Ok(ports) => {
            let mut i: usize = 0;
            while i < ports.len()
                invariant
                    i <= ports.len(),
                    listings.len() == i,
                    forall|j: int| 0 <= j < i ==> describes(#[trigger] listings[j], ports[j]),
                decreases ports.len() - i,
            {
                listings.push(describe_port(&ports[i]));
                i = i + 1;
            }
        },
        Err(_) => {},
    }
    listings
}

} // verus!
