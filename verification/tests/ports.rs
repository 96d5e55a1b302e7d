use gdserial::errors::PortErrorKind;
use gdserial::ports::{describe_port, get_usb_device_name, PortInfo, PortKind, UsbInfo};
use gdserial::serial::GdSerial;
use gdserial::text::{hex_digit_char, push_hex4, text_from_utf8};

#[test]
fn usb_name_from_both_descriptors() {
    let name = get_usb_device_name(
        0x0403,
        0x6001,
        &Some("  FTDI ".to_string()),
        &Some(" FT232R USB UART\n".to_string()),
    );
    assert_eq!(name, "FTDI FT232R USB UART");
}

#[test]
fn usb_name_from_one_descriptor() {
    assert_eq!(get_usb_device_name(1, 2, &None, &Some("CP2102".to_string())), "CP2102");
    assert_eq!(get_usb_device_name(1, 2, &Some("Arduino\t".to_string()), &Some("   ".to_string())), "Arduino");
    assert_eq!(get_usb_device_name(1, 2, &Some("\u{3000}Espressif\u{a0}".to_string()), &None), "Espressif");
}

#[test]
fn usb_name_falls_back_to_ids() {
    assert_eq!(
        get_usb_device_name(0x1a86, 0x7523, &None, &None),
        "USB Serial (VID: 0x1A86, PID: 0x7523)"
    );
    assert_eq!(
        get_usb_device_name(0x2e8a, 0x000a, &Some(" ".to_string()), &Some("\r\n".to_string())),
        "USB Serial (VID: 0x2E8A, PID: 0x000A)"
    );
    assert_eq!(get_usb_device_name(0, 0xffff, &None, &None), "USB Serial (VID: 0x0000, PID: 0xFFFF)");
}

#[test]
fn describe_usb_port() {
    let info = PortInfo {
        port_name: "/dev/ttyUSB0".to_string(),
        kind: PortKind::Usb(UsbInfo {
            vid: 0x10c4,
            pid: 0xea60,
            manufacturer: Some("Silicon Labs".to_string()),
            product: None,
        }),
    };
    let l = describe_port(&info);
    assert_eq!(l.port_name, "/dev/ttyUSB0");
    assert_eq!(l.port_type, "USB - VID: 10C4, PID: EA60");
    assert_eq!(l.device_name, "Silicon Labs");
}

#[test]
fn describe_other_ports() {
    let pci = describe_port(&PortInfo { port_name: "/dev/ttyS0".to_string(), kind: PortKind::Pci });
    assert_eq!(pci.port_type, "PCI");
    assert_eq!(pci.device_name, "PCI Serial Port");
    let bt = describe_port(&PortInfo { port_name: "rfcomm0".to_string(), kind: PortKind::Bluetooth });
    assert_eq!(bt.port_type, "Bluetooth");
    assert_eq!(bt.device_name, "Bluetooth Serial Port");
    let un = describe_port(&PortInfo { port_name: "x".to_string(), kind: PortKind::Unknown });
    assert_eq!(un.port_type, "Unknown");
    assert_eq!(un.device_name, "Unknown Serial Device");
}

#[test]
fn list_ports_keeps_order() {
    let s = GdSerial::new();
    let found = Ok(vec![
        PortInfo { port_name: "a".to_string(), kind: PortKind::Unknown },
        PortInfo { port_name: "b".to_string(), kind: PortKind::Pci },
    ]);
    let l = s.list_ports(&found);
    assert_eq!(l.len(), 2);
    assert_eq!(l[0].port_name, "a");
    assert_eq!(l[1].port_name, "b");
    assert_eq!(l[1].port_type, "PCI");
}

#[test]
fn list_ports_error_is_empty() {
    let s = GdSerial::new();
    assert!(s.list_ports(&Err(PortErrorKind::Unknown)).is_empty());
}

#[test]
fn hex_digits() {
    assert_eq!(hex_digit_char(0), '0');
    assert_eq!(hex_digit_char(9), '9');
    assert_eq!(hex_digit_char(10), 'A');
    assert_eq!(hex_digit_char(15), 'F');
    let mut s = "x".to_string();
    push_hex4(&mut s, 0xbeef);
    assert_eq!(s, "xBEEF");
}

#[test]
fn utf8_text() {
    assert_eq!(text_from_utf8("žluť".as_bytes().to_vec()), "žluť");
    assert_eq!(text_from_utf8(vec![0xc3]), "");
    assert_eq!(text_from_utf8(vec![0xed, 0xa0, 0x80]), "");
    assert_eq!(text_from_utf8(Vec::new()), "");
}
