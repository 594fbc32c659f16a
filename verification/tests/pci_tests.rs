use kernel_core::config::{make_address, ConfigPort, MemConfigPort};
use kernel_core::error::Code;
use kernel_core::pci::{
    is_single_function_device, read_bar, read_class_code, read_device_id, read_header_type,
    read_vendor_id, scan_all_bus, ClassCode, Device, DeviceTable, MAX_DEVICES,
};

/// Writes the identity registers of one function into a synthetic bus.
fn put_function(
    port: &mut MemConfigPort,
    bus: u8,
    device: u8,
    function: u8,
    vendor_id: u16,
    device_id: u16,
    header_type: u8,
    class: (u8, u8, u8),
) {
    let id = ((device_id as u32) << 16) | (vendor_id as u32);
    port.set_reg(bus, device, function, 0x00, id);
    port.set_reg(bus, device, function, 0x0c, (header_type as u32) << 16);
    let class_reg =
        ((class.0 as u32) << 24) | ((class.1 as u32) << 16) | ((class.2 as u32) << 8);
    port.set_reg(bus, device, function, 0x08, class_reg);
}

fn put_host_bridge(port: &mut MemConfigPort) {
    put_function(port, 0, 0, 0, 0x1022, 0x1480, 0x00, (0x06, 0x00, 0x00));
}

#[test]
fn make_address_packs_the_protocol_fields() {
    // bus 1, device 2, function 3, register 0x40:
    // bit 31 | 1 << 16 | 2 << 11 | 3 << 8 | 0x40
    assert_eq!(make_address(1, 2, 3, 0x40), 0x8001_1340);
    // the low two register bits are forced to zero
    assert_eq!(make_address(1, 2, 3, 0x43), 0x8001_1340);
    assert_eq!(make_address(0, 0, 0, 0), 0x8000_0000);
    assert_eq!(make_address(255, 31, 7, 0xfc), 0x80ff_fffc);
}

#[test]
fn make_address_round_trips_every_field() {
    for &(bus, device, function, reg) in
        &[(0u8, 0u8, 0u8, 0u8), (255, 31, 7, 255), (17, 5, 2, 0x34), (128, 16, 4, 0x81)]
    {
        let a = make_address(bus, device, function, reg);
        assert_eq!(((a >> 16) & 0xff) as u8, bus);
        assert_eq!(((a >> 11) & 0x1f) as u8, device);
        assert_eq!(((a >> 8) & 0x7) as u8, function);
        assert_eq!((a & 0xff) as u8, reg & 0xfc);
        assert_eq!(a >> 31, 1);
    }
}

#[test]
fn the_two_port_protocol_reads_what_was_latched() {
    let mut port = MemConfigPort::new();
    port.set_reg(3, 4, 5, 0x08, 0x1234_5678);
    // latch the address, then read the data port
    port.write_address(make_address(3, 4, 5, 0x08));
    assert_eq!(port.read_data(), 0x1234_5678);
    // writing the data port stores under the latched address
    port.write_address(make_address(3, 4, 5, 0x40));
    port.write_data(0xcafe_f00d);
    assert_eq!(port.read_data(), 0xcafe_f00d);
    // an unrelated register is untouched
    port.write_address(make_address(3, 4, 5, 0x08));
    assert_eq!(port.read_data(), 0x1234_5678);
}

#[test]
fn absent_registers_read_as_all_ones() {
    let mut port = MemConfigPort::new();
    assert_eq!(read_vendor_id(&mut port, 4, 9, 1), 0xffff);
    assert_eq!(read_header_type(&mut port, 4, 9, 1), 0xff);
}

#[test]
fn identity_readers_decompose_the_registers() {
    let mut port = MemConfigPort::new();
    put_function(&mut port, 2, 7, 1, 0x8086, 0x29c0, 0x80, (0x0c, 0x03, 0x30));
    assert_eq!(read_vendor_id(&mut port, 2, 7, 1), 0x8086);
    assert_eq!(read_device_id(&mut port, 2, 7, 1), 0x29c0);
    assert_eq!(read_header_type(&mut port, 2, 7, 1), 0x80);
    let cc = read_class_code(&mut port, 2, 7, 1);
    assert_eq!((cc.base, cc.sub, cc.interface), (0x0c, 0x03, 0x30));
}

#[test]
fn header_type_bit_7_means_multi_function() {
    assert!(is_single_function_device(0x00));
    assert!(is_single_function_device(0x7f));
    assert!(!is_single_function_device(0x80));
    assert!(!is_single_function_device(0xff));
}

#[test]
fn class_code_matchers_are_prefix_matches() {
    let cc = ClassCode::new(0x0c, 0x03, 0x30);
    assert!(cc.match_base(0x0c));
    assert!(!cc.match_base(0x06));
    assert!(cc.match_sub(0x0c, 0x03));
    assert!(!cc.match_sub(0x0c, 0x04));
    assert!(cc.match_interface(0x0c, 0x03, 0x30));
    assert!(!cc.match_interface(0x0c, 0x03, 0x20));
    assert_eq!(cc.packed(), 0x0c03_3000);
}

#[test]
fn scan_visits_depth_first_with_bridge_subtree_inline() {
    let mut port = MemConfigPort::new();
    // single-function host bridge at (0,0,0)
    put_host_bridge(&mut port);
    // an ordinary device before the bridge
    put_function(&mut port, 0, 2, 0, 0x10de, 1, 0x00, (0x03, 0x00, 0x00));
    // a PCI-PCI bridge at (0,3,0) forwarding to bus 5
    put_function(&mut port, 0, 3, 0, 0x8086, 2, 0x01, (0x06, 0x04, 0x00));
    port.set_reg(0, 3, 0, 0x18, 0x0000_0500); // secondary bus 5
    // a device behind the bridge
    put_function(&mut port, 5, 0, 0, 0x1b73, 3, 0x00, (0x0c, 0x03, 0x30));
    // a sibling device after the bridge at the parent level
    put_function(&mut port, 0, 4, 0, 0x1af4, 4, 0x00, (0x02, 0x00, 0x00));

    let mut table = DeviceTable::new();
    assert!(scan_all_bus(&mut port, &mut table).is_ok());

    let order: Vec<(u8, u8, u8)> = table
        .device()
        .iter()
        .map(|d| (d.bus, d.device, d.function))
        .collect();
    // bus ascending, device ascending, the bridge's subtree immediately
    // after the bridge itself, before its sibling (0,4,0)
    assert_eq!(order, vec![(0, 0, 0), (0, 2, 0), (0, 3, 0), (5, 0, 0), (0, 4, 0)]);
}

#[test]
fn scan_skips_functions_of_single_function_devices() {
    let mut port = MemConfigPort::new();
    put_host_bridge(&mut port);
    // function 0 says single-function, yet function 3 has registers:
    // the scan must not look at it
    put_function(&mut port, 0, 6, 0, 0xabcd, 5, 0x00, (0x01, 0x00, 0x00));
    put_function(&mut port, 0, 6, 3, 0xabcd, 6, 0x00, (0x01, 0x00, 0x00));
    // a multi-function device: functions 0, 2 present, 1 absent
    put_function(&mut port, 0, 7, 0, 0xabce, 7, 0x80, (0x01, 0x00, 0x00));
    put_function(&mut port, 0, 7, 2, 0xabce, 8, 0x00, (0x01, 0x00, 0x00));

    let mut table = DeviceTable::new();
    assert!(scan_all_bus(&mut port, &mut table).is_ok());
    let order: Vec<(u8, u8, u8)> = table
        .device()
        .iter()
        .map(|d| (d.bus, d.device, d.function))
        .collect();
    assert_eq!(order, vec![(0, 0, 0), (0, 6, 0), (0, 7, 0), (0, 7, 2)]);
}

#[test]
fn scan_reruns_reset_the_table() {
    let mut port = MemConfigPort::new();
    put_host_bridge(&mut port);
    let mut table = DeviceTable::new();
    assert!(scan_all_bus(&mut port, &mut table).is_ok());
    assert_eq!(table.num_device(), 1);
    assert!(scan_all_bus(&mut port, &mut table).is_ok());
    assert_eq!(table.num_device(), 1);
}

#[test]
fn scan_of_more_functions_than_capacity_fails_full_within_bounds() {
    let mut port = MemConfigPort::new();
    put_host_bridge(&mut port);
    // 33 present single-function slots: one more than the table holds
    for device in 1..32 {
        put_function(&mut port, 0, device, 0, 0x1000 + device as u16, 9, 0x00, (1, 0, 0));
    }
    // make the host bridge slot multi-function so functions 1 and 2 of
    // device 0 are visited too, pushing the count to 34
    put_function(&mut port, 0, 0, 0, 0x1022, 0x1480, 0x80, (0x06, 0x00, 0x00));
    put_function(&mut port, 0, 0, 1, 0x1022, 10, 0x00, (0x06, 0x00, 0x00));
    put_function(&mut port, 0, 0, 2, 0x1022, 11, 0x00, (0x06, 0x00, 0x00));

    let mut table = DeviceTable::new();
    let r = scan_all_bus(&mut port, &mut table);
    assert_eq!(r.unwrap_err().code(), Code::Full);
    // no entry beyond capacity
    assert_eq!(table.num_device(), MAX_DEVICES);
}

#[test]
fn a_scan_of_exactly_capacity_succeeds() {
    let mut port = MemConfigPort::new();
    put_host_bridge(&mut port);
    for device in 1..32 {
        put_function(&mut port, 0, device, 0, 0x2000 + device as u16, 12, 0x00, (1, 0, 0));
    }
    let mut table = DeviceTable::new();
    assert!(scan_all_bus(&mut port, &mut table).is_ok());
    assert_eq!(table.num_device(), MAX_DEVICES);
}

#[test]
fn a_full_table_inside_a_bridge_subtree_aborts_the_scan() {
    let mut port = MemConfigPort::new();
    put_host_bridge(&mut port);
    // a bridge to bus 1, which holds 31 devices: together with the host
    // bridge and the bridge itself that is one too many
    put_function(&mut port, 0, 1, 0, 0x8086, 13, 0x01, (0x06, 0x04, 0x00));
    port.set_reg(0, 1, 0, 0x18, 0x0000_0100);
    for device in 0..31 {
        put_function(&mut port, 1, device, 0, 0x3000 + device as u16, 14, 0x00, (1, 0, 0));
    }
    // a sibling after the bridge that the aborted scan never reaches
    put_function(&mut port, 0, 2, 0, 0x4000, 15, 0x00, (2, 0, 0));

    let mut table = DeviceTable::new();
    let r = scan_all_bus(&mut port, &mut table);
    assert_eq!(r.unwrap_err().code(), Code::Full);
    assert_eq!(table.num_device(), MAX_DEVICES);
    // the table ends inside the bridge's subtree
    assert_eq!(table.get_device(MAX_DEVICES - 1).bus, 1);
    assert!(table.device().iter().all(|d| !(d.bus == 0 && d.device == 2)));
}

#[test]
fn read_bar_reconstructs_and_bounds_the_index() {
    let mut port = MemConfigPort::new();
    put_function(&mut port, 0, 1, 0, 0x8086, 1, 0x00, (0x0c, 0x03, 0x30));
    let dev = Device::new(0, 1, 0, 0x00, ClassCode::new(0x0c, 0x03, 0x30));

    // 32-bit BAR: bit 2 clear; the upper register is ignored
    port.set_reg(0, 1, 0, 0x10, 0xfebd_0000);
    port.set_reg(0, 1, 0, 0x14, 0xdead_beef);
    assert_eq!(read_bar(&mut port, &dev, 0).unwrap(), 0xfebd_0000);

    // 64-bit BAR: bit 2 set; the next register is the upper half
    port.set_reg(0, 1, 0, 0x18, 0x8000_0004);
    port.set_reg(0, 1, 0, 0x1c, 0x0000_0012);
    assert_eq!(read_bar(&mut port, &dev, 2).unwrap(), 0x0000_0012_8000_0004);

    // index 6 is out of range outright
    assert_eq!(read_bar(&mut port, &dev, 6).unwrap_err().code(), Code::IndexOutOfRange);
    // a 64-bit BAR in the last slot has no room for its upper half
    port.set_reg(0, 1, 0, 0x24, 0x0000_0004);
    assert_eq!(read_bar(&mut port, &dev, 5).unwrap_err().code(), Code::IndexOutOfRange);
    // a 32-bit BAR in the last slot is fine
    port.set_reg(0, 1, 0, 0x24, 0x1234_0000);
    assert_eq!(read_bar(&mut port, &dev, 5).unwrap(), 0x1234_0000);
    // indices 0..=4 never fail on index grounds (absent registers read as
    // all ones, a 64-bit BAR whose upper half is all ones)
    for index in 0..5 {
        let mut empty = MemConfigPort::new();
        assert!(read_bar(&mut empty, &dev, index).is_ok());
    }
}

#[test]
fn device_table_reports_full_exactly_at_capacity() {
    let mut table = DeviceTable::new();
    for i in 0..MAX_DEVICES {
        let d = Device::new(0, (i % 32) as u8, 0, 0, ClassCode::new(0, 0, 0));
        assert!(table.add_device(d).is_ok());
    }
    assert_eq!(table.num_device(), MAX_DEVICES);
    let extra = Device::new(1, 0, 0, 0, ClassCode::new(0, 0, 0));
    assert_eq!(table.add_device(extra).unwrap_err().code(), Code::Full);
    assert_eq!(table.num_device(), MAX_DEVICES);
    assert_eq!(table.get_device(3).device, 3);
}
