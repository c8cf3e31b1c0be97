use sslflash::scanner::{classify, scan, PortDescriptor, ScanFilter, TARGET_VENDOR_ID};
use sslflash::DeviceClass;

fn port(name: &str, vendor_id: u16, product_id: u16) -> PortDescriptor {
    PortDescriptor { name: name.to_string(), vendor_id, product_id }
}

#[test]
fn classify_is_total_over_identifiers() {
    // vendor != target: excluded from all classes
    assert_eq!(classify(TARGET_VENDOR_ID, 0x1111, 0), None);
    assert_eq!(classify(TARGET_VENDOR_ID, 0x1111, 42), None);
    // vendor == target, product == 0: bootloader only
    assert_eq!(classify(TARGET_VENDOR_ID, 0x3232, 0), Some(DeviceClass::Bootloader));
    // vendor == target, product > 0: node only
    assert_eq!(classify(TARGET_VENDOR_ID, 0x3232, 1), Some(DeviceClass::Node));
    assert_eq!(classify(TARGET_VENDOR_ID, 0x3232, 0xFFFF), Some(DeviceClass::Node));
}

#[test]
fn scan_bootloaders_only() {
    let ports = vec![
        port("ttyUSB0", 0x3232, 0),
        port("ttyUSB1", 0x3232, 5),
        port("ttyUSB2", 0x1111, 0),
        port("ttyUSB3", 0x3232, 0),
    ];
    let names = scan(&ports, TARGET_VENDOR_ID, ScanFilter::BootloadersOnly);
    assert_eq!(names, vec!["ttyUSB0".to_string(), "ttyUSB3".to_string()]);
}

#[test]
fn scan_nodes_only() {
    let ports = vec![
        port("ttyUSB0", 0x3232, 0),
        port("ttyUSB1", 0x3232, 5),
        port("ttyUSB2", 0x1111, 9),
        port("ttyUSB3", 0x3232, 2),
    ];
    let names = scan(&ports, TARGET_VENDOR_ID, ScanFilter::NodesOnly);
    assert_eq!(names, vec!["ttyUSB1".to_string(), "ttyUSB3".to_string()]);
}

#[test]
fn scan_either_keeps_enumeration_order() {
    let ports = vec![
        port("b", 0x3232, 1),
        port("a", 0x3232, 0),
        port("x", 0x0001, 0),
        port("c", 0x3232, 7),
    ];
    let names = scan(&ports, TARGET_VENDOR_ID, ScanFilter::Either);
    assert_eq!(names, vec!["b".to_string(), "a".to_string(), "c".to_string()]);
}

#[test]
fn scan_empty_enumeration_gives_empty_result() {
    let ports: Vec<PortDescriptor> = vec![];
    let names = scan(&ports, TARGET_VENDOR_ID, ScanFilter::Either);
    assert!(names.is_empty());
}
