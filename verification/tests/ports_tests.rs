use comport::error::ComPortError;
use comport::ports::{describe_ports, DetectedPort, PortInfo, PortType};

fn detected(name: &str, port_type: PortType) -> DetectedPort {
    DetectedPort { port_name: name.to_string(), port_type }
}

#[test]
fn a_usb_port_shows_its_ids() {
    let info = PortInfo::describe(&detected("COM3", PortType::Usb { vid: 1027, pid: 24577 }));
    assert_eq!(
        info,
        PortInfo {
            name: "COM3".to_string(),
            description: Some("USB Serial Port (1027 24577)".to_string()),
            vid: Some(1027),
            pid: Some(24577),
        }
    );
}

#[test]
fn usb_ids_are_written_in_decimal() {
    let lowest = PortInfo::describe(&detected("a", PortType::Usb { vid: 0, pid: 0 }));
    assert_eq!(lowest.description, Some("USB Serial Port (0 0)".to_string()));
    assert_eq!(lowest.vid, Some(0));
    assert_eq!(lowest.pid, Some(0));
    let highest = PortInfo::describe(&detected("b", PortType::Usb { vid: 65535, pid: 9 }));
    assert_eq!(highest.description, Some("USB Serial Port (65535 9)".to_string()));
    assert_eq!(highest.vid, Some(65535));
    assert_eq!(highest.pid, Some(9));
}

#[test]
fn a_bluetooth_port_has_a_generic_description() {
    let info = PortInfo::describe(&detected("/dev/rfcomm0", PortType::Bluetooth));
    assert_eq!(
        info,
        PortInfo {
            name: "/dev/rfcomm0".to_string(),
            description: Some("Bluetooth Serial Port".to_string()),
            vid: None,
            pid: None,
        }
    );
}

#[test]
fn a_pci_port_has_a_generic_description() {
    let info = PortInfo::describe(&detected("/dev/ttyS0", PortType::Pci));
    assert_eq!(
        info,
        PortInfo {
            name: "/dev/ttyS0".to_string(),
            description: Some("PCI Serial Port".to_string()),
            vid: None,
            pid: None,
        }
    );
}

#[test]
fn an_unknown_port_has_no_description() {
    let info = PortInfo::describe(&detected("COM7", PortType::Unknown));
    assert_eq!(
        info,
        PortInfo { name: "COM7".to_string(), description: None, vid: None, pid: None }
    );
}

#[test]
fn ports_are_listed_in_the_order_detected() {
    let listing = describe_ports(Ok(vec![
        detected("COM3", PortType::Usb { vid: 9025, pid: 67 }),
        detected("COM1", PortType::Pci),
        detected("COM8", PortType::Unknown),
        detected("COM5", PortType::Bluetooth),
    ]))
    .unwrap();
    assert_eq!(listing.len(), 4);
    assert_eq!(listing[0].name, "COM3");
    assert_eq!(listing[0].description, Some("USB Serial Port (9025 67)".to_string()));
    assert_eq!(listing[0].vid, Some(9025));
    assert_eq!(listing[0].pid, Some(67));
    assert_eq!(listing[1].name, "COM1");
    assert_eq!(listing[1].description, Some("PCI Serial Port".to_string()));
    assert_eq!(listing[2].name, "COM8");
    assert_eq!(listing[2].description, None);
    assert_eq!(listing[3].name, "COM5");
    assert_eq!(listing[3].description, Some("Bluetooth Serial Port".to_string()));
}

#[test]
fn no_detected_port_gives_an_empty_list() {
    assert_eq!(describe_ports(Ok(Vec::new())), Ok(Vec::new()));
}

#[test]
fn a_failed_enumeration_is_an_io_error() {
    let listing = describe_ports(Err("permission denied".to_string()));
    assert_eq!(
        listing,
        Err(ComPortError::IoError("Failed to enumerate available serial ports".to_string()))
    );
    assert_eq!(
        listing.unwrap_err().to_string(),
        "IO error: Failed to enumerate available serial ports"
    );
}
