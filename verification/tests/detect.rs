use meshbridge::detect::{
    classify_port, get_port_description, is_likely_meshtastic, is_possible_meshtastic,
    probe_order, probe_verifies, PortClass, PortDescriptor, UsbInfo,
};
use meshbridge::packet::RadioEvent;

fn usb_port(name: &str, vid: u16, pid: u16) -> PortDescriptor {
    PortDescriptor {
        name: name.to_string(),
        usb: Some(UsbInfo {
            vid,
            pid,
            manufacturer: None,
            product: None,
            serial_number: None,
        }),
    }
}

#[test]
fn known_board_id_is_likely() {
    let p = usb_port("/dev/ttyACM0", 0x239a, 0x4000);
    assert!(is_likely_meshtastic(&p));
    assert_eq!(classify_port(&p), PortClass::Likely);
}

#[test]
fn generic_bridge_chip_is_possible() {
    let p = usb_port("/dev/ttyUSB0", 0x1a86, 0x7523);
    assert!(!is_likely_meshtastic(&p));
    assert!(is_possible_meshtastic(&p));
    assert_eq!(classify_port(&p), PortClass::Possible);
}

#[test]
fn manufacturer_keyword_matches_case_insensitively() {
    let mut p = usb_port("/dev/ttyACM1", 0x1234, 0x5678);
    if let Some(u) = &mut p.usb {
        u.manufacturer = Some("RAK Wireless".to_string());
    }
    assert!(is_likely_meshtastic(&p));
}

#[test]
fn product_keyword_matches() {
    let mut p = usb_port("/dev/ttyACM1", 0x1234, 0x5678);
    if let Some(u) = &mut p.usb {
        u.product = Some("T-Beam Supreme".to_string());
    }
    assert!(is_likely_meshtastic(&p));
}

#[test]
fn serial_number_heuristics() {
    let mut p = usb_port("/dev/ttyACM1", 0x1234, 0x5678);
    if let Some(u) = &mut p.usb {
        u.serial_number = Some("M12345".to_string());
    }
    assert!(is_likely_meshtastic(&p));
    if let Some(u) = &mut p.usb {
        u.serial_number = Some("xx-mesh-01".to_string());
    }
    assert!(is_likely_meshtastic(&p));
    if let Some(u) = &mut p.usb {
        u.serial_number = Some("A12345".to_string());
    }
    assert!(!is_likely_meshtastic(&p));
}

#[test]
fn esp32_product_is_possible() {
    let mut p = usb_port("/dev/ttyACM1", 0x1234, 0x5678);
    if let Some(u) = &mut p.usb {
        u.product = Some("ESP32-C3 native USB".to_string());
    }
    assert!(is_possible_meshtastic(&p));
}

#[test]
fn bluetooth_endpoint_is_unrelated() {
    let p = usb_port("/dev/cu.Bluetooth-Incoming-Port", 0x239a, 0x4000);
    assert_eq!(classify_port(&p), PortClass::Unrelated);
}

#[test]
fn non_usb_endpoint_is_unrelated() {
    let p = PortDescriptor {
        name: "/dev/ttyS0".to_string(),
        usb: None,
    };
    assert_eq!(classify_port(&p), PortClass::Unrelated);
}

#[test]
fn likely_candidates_are_probed_first() {
    let ports = vec![
        usb_port("/dev/possible", 0x1a86, 0x7523),
        usb_port("/dev/likely", 0x303a, 0x1001),
        PortDescriptor {
            name: "/dev/unrelated".to_string(),
            usb: None,
        },
        usb_port("/dev/likely2", 0x239a, 0x8029),
    ];
    let order = probe_order(&ports);
    assert_eq!(
        order,
        vec![
            "/dev/likely".to_string(),
            "/dev/likely2".to_string(),
            "/dev/possible".to_string(),
        ]
    );
}

#[test]
fn node_identity_answer_verifies_candidate() {
    assert!(probe_verifies(&RadioEvent::NodeInfo {
        num: 1,
        short_name: Some("N1".to_string()),
    }));
    assert!(probe_verifies(&RadioEvent::MyInfo { node_num: 1 }));
    assert!(probe_verifies(&RadioEvent::DeviceConfig));
    assert!(!probe_verifies(&RadioEvent::Other));
}

#[test]
fn port_description_renders_ids_in_hex() {
    let mut p = usb_port("/dev/ttyACM0", 0x239a, 0x4000);
    if let Some(u) = &mut p.usb {
        u.manufacturer = Some("Adafruit".to_string());
        u.product = Some("RAK4631".to_string());
    }
    assert_eq!(
        get_port_description(&p),
        "Adafruit - RAK4631 (VID:239A PID:4000)".to_string()
    );
    let q = PortDescriptor {
        name: "/dev/ttyS0".to_string(),
        usb: None,
    };
    assert_eq!(get_port_description(&q), "Unknown device".to_string());
    let r = usb_port("/dev/ttyACM9", 0x0001, 0xbeef);
    assert_eq!(
        get_port_description(&r),
        "Unknown - Unknown (VID:0001 PID:BEEF)".to_string()
    );
}
