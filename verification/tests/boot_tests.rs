use kernel_core::config::MemConfigPort;
use kernel_core::driver::LogLevel;
use kernel_core::error::{Code, Error};
use kernel_core::events::{next_event, EventQueue, Message, MessageType};
use kernel_core::graphics::Vector2D;
use kernel_core::logger::{Level, Logger};
use kernel_core::memory_map::{MemoryDescriptor, MemoryType};
use kernel_core::msi::{configure_msi_fixed_destination, MsiDeliveryMode, MsiTriggerMode};
use kernel_core::pci::{read_bar, read_conf_reg, read_vendor_id, scan_all_bus, DeviceTable};
use kernel_core::xhc::{find_xhc, mmio_base, switch_ehci_to_xhci};

fn put_function(
    port: &mut MemConfigPort,
    bus: u8,
    device: u8,
    function: u8,
    vendor_id: u16,
    header_type: u8,
    class: (u8, u8, u8),
) {
    port.set_reg(bus, device, function, 0x00, 0x0001_0000 | (vendor_id as u32));
    port.set_reg(bus, device, function, 0x0c, (header_type as u32) << 16);
    let class_reg =
        ((class.0 as u32) << 24) | ((class.1 as u32) << 16) | ((class.2 as u32) << 8);
    port.set_reg(bus, device, function, 0x08, class_reg);
}

/// The end-to-end boot path over a synthetic bus: one xHCI controller at
/// (0,0,0), vendor 0x8086, with a programmed BAR and an MSI capability.
#[test]
fn boot_sequence_over_a_single_xhci_function() {
    let mut port = MemConfigPort::new();
    put_function(&mut port, 0, 0, 0, 0x8086, 0x00, (0x0c, 0x03, 0x30));
    port.set_reg(0, 0, 0, 0x10, 0x8000_0000); // BAR0: 32-bit MMIO base
    port.set_reg(0, 0, 0, 0x34, 0x0000_0050);
    port.set_reg(0, 0, 0, 0x50, 0x0004_0005); // MSI capability

    let mut table = DeviceTable::new();
    assert!(scan_all_bus(&mut port, &mut table).is_ok());
    assert_eq!(table.num_device(), 1);
    let dev = *table.get_device(0);
    assert_eq!((dev.bus, dev.device, dev.function), (0, 0, 0));
    assert!(dev.class_code.match_interface(0x0c, 0x03, 0x30));

    let found = find_xhc(&mut port, &table).expect("an xHC must be found");
    assert_eq!(found, 0);
    assert_eq!(read_vendor_id(&mut port, 0, 0, 0), 0x8086);

    let bar = read_bar(&mut port, &dev, 0).unwrap();
    assert_eq!(bar, 0x8000_0000);
    assert_eq!(mmio_base(bar), 0x8000_0000);

    let apic_id = 5u8;
    assert!(configure_msi_fixed_destination(
        &mut port,
        &dev,
        apic_id,
        MsiTriggerMode::Level,
        MsiDeliveryMode::Fixed,
        0x40,
        0,
    )
    .is_ok());
    assert_eq!(read_conf_reg(&mut port, &dev, 0x54), 0xfee0_0000 | ((apic_id as u32) << 12));
    let data = read_conf_reg(&mut port, &dev, 0x58);
    assert_eq!(data & 0xff, 0x40);
}

#[test]
fn xhc_selection_prefers_intel() {
    let mut port = MemConfigPort::new();
    put_function(&mut port, 0, 0, 0, 0x1022, 0x00, (0x06, 0x00, 0x00));
    put_function(&mut port, 0, 1, 0, 0x1b73, 0x00, (0x0c, 0x03, 0x30));
    put_function(&mut port, 0, 2, 0, 0x8086, 0x00, (0x0c, 0x03, 0x30));
    put_function(&mut port, 0, 3, 0, 0x1033, 0x00, (0x0c, 0x03, 0x30));

    let mut table = DeviceTable::new();
    assert!(scan_all_bus(&mut port, &mut table).is_ok());
    let found = find_xhc(&mut port, &table).unwrap();
    assert_eq!(table.get_device(found).device, 2);
}

#[test]
fn xhc_selection_without_intel_takes_the_last_one() {
    let mut port = MemConfigPort::new();
    put_function(&mut port, 0, 0, 0, 0x1022, 0x00, (0x06, 0x00, 0x00));
    put_function(&mut port, 0, 1, 0, 0x1b73, 0x00, (0x0c, 0x03, 0x30));
    put_function(&mut port, 0, 3, 0, 0x1033, 0x00, (0x0c, 0x03, 0x30));
    put_function(&mut port, 0, 4, 0, 0x10de, 0x00, (0x03, 0x00, 0x00));

    let mut table = DeviceTable::new();
    assert!(scan_all_bus(&mut port, &mut table).is_ok());
    let found = find_xhc(&mut port, &table).unwrap();
    assert_eq!(table.get_device(found).device, 3);
}

#[test]
fn no_xhc_reports_none() {
    let mut port = MemConfigPort::new();
    put_function(&mut port, 0, 0, 0, 0x1022, 0x00, (0x06, 0x00, 0x00));
    let mut table = DeviceTable::new();
    assert!(scan_all_bus(&mut port, &mut table).is_ok());
    assert!(find_xhc(&mut port, &table).is_none());
}

#[test]
fn ehci_handover_copies_the_port_routing_masks() {
    let mut port = MemConfigPort::new();
    put_function(&mut port, 0, 0, 0, 0x1022, 0x00, (0x06, 0x00, 0x00));
    // an Intel EHCI controller somewhere on the bus
    put_function(&mut port, 0, 5, 0, 0x8086, 0x00, (0x0c, 0x03, 0x20));
    // the Intel xHC being brought up
    put_function(&mut port, 0, 7, 0, 0x8086, 0x00, (0x0c, 0x03, 0x30));
    port.set_reg(0, 7, 0, 0xdc, 0x0000_000f); // USB3PRM
    port.set_reg(0, 7, 0, 0xd4, 0x0000_0033); // XUSB2PRM

    let mut table = DeviceTable::new();
    assert!(scan_all_bus(&mut port, &mut table).is_ok());
    let idx = find_xhc(&mut port, &table).unwrap();
    let xhc = *table.get_device(idx);
    switch_ehci_to_xhci(&mut port, &table, &xhc);
    assert_eq!(read_conf_reg(&mut port, &xhc, 0xd8), 0x0000_000f); // USB3_PSSEN
    assert_eq!(read_conf_reg(&mut port, &xhc, 0xd0), 0x0000_0033); // XUSB2PR
}

#[test]
fn ehci_handover_without_intel_ehci_changes_nothing() {
    let mut port = MemConfigPort::new();
    put_function(&mut port, 0, 0, 0, 0x1022, 0x00, (0x06, 0x00, 0x00));
    put_function(&mut port, 0, 7, 0, 0x8086, 0x00, (0x0c, 0x03, 0x30));
    port.set_reg(0, 7, 0, 0xdc, 0x0000_000f);
    port.set_reg(0, 7, 0, 0xd4, 0x0000_0033);
    port.set_reg(0, 7, 0, 0xd8, 0);
    port.set_reg(0, 7, 0, 0xd0, 0);

    let mut table = DeviceTable::new();
    assert!(scan_all_bus(&mut port, &mut table).is_ok());
    let idx = find_xhc(&mut port, &table).unwrap();
    let xhc = *table.get_device(idx);
    switch_ehci_to_xhci(&mut port, &table, &xhc);
    assert_eq!(read_conf_reg(&mut port, &xhc, 0xd8), 0);
    assert_eq!(read_conf_reg(&mut port, &xhc, 0xd0), 0);
}

#[test]
fn mmio_base_masks_the_control_bits() {
    assert_eq!(mmio_base(0x0000_0012_8000_000f), 0x0000_0012_8000_0000);
    assert_eq!(mmio_base(0xfebd_0004), 0xfebd_0000);
}

#[test]
fn error_carries_its_code_and_location() {
    let e = Error::new(Code::NoPCIMSI, "boot", 42);
    assert_eq!(e.code(), Code::NoPCIMSI);
    assert_eq!(e.file(), "boot");
    assert_eq!(e.line(), 42);
}

#[test]
fn logger_filters_by_severity() {
    let logger = Logger::new(Level::Warn);
    assert!(logger.enabled(Level::Error));
    assert!(logger.enabled(Level::Warn));
    assert!(!logger.enabled(Level::Info));
    assert!(!logger.enabled(Level::Debug));
    assert!(!logger.enabled(Level::Trace));
}

#[test]
fn driver_log_levels_carry_their_codes() {
    assert_eq!(LogLevel::kError.value(), 3);
    assert_eq!(LogLevel::kWarn.value(), 4);
    assert_eq!(LogLevel::kInfo.value(), 6);
    assert_eq!(LogLevel::kDebug.value(), 7);
}

#[test]
fn memory_types_decode_and_classify() {
    assert_eq!(MemoryType::from_u32(3), Some(MemoryType::EfiBootServicesCode));
    assert_eq!(MemoryType::from_u32(7), Some(MemoryType::EfiConventionalMemory));
    assert_eq!(MemoryType::from_u32(16), None);
    assert!(MemoryType::EfiBootServicesData.is_available());
    assert!(!MemoryType::EfiReservedMemoryType.is_available());
    assert!(!MemoryType::EfiMemoryMappedIO.is_available());
    let desc = MemoryDescriptor {
        md_type: 7,
        physical_start: 0x100000,
        virtual_start: 0,
        number_of_pages: 16,
        attribute: 0xf,
    };
    assert!(MemoryType::from_u32(desc.md_type).unwrap().is_available());
}

#[test]
fn vectors_and_messages_fit_together() {
    let mut q = EventQueue::new();
    q.push(Message::new(MessageType::InterruptXHCI)).unwrap();
    let m = next_event(&mut q).unwrap();
    assert_eq!(m.msg_type(), MessageType::InterruptXHCI);
    let v = Vector2D::new(400, 300);
    let moved = v.plus(&Vector2D::new(-5, 9));
    assert_eq!((moved.x, moved.y), (395, 309));
}
