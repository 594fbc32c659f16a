use kernel_core::config::MemConfigPort;
use kernel_core::error::Code;
use kernel_core::msi::{
    configure_msi, configure_msi_fixed_destination, read_capability_header, read_msi_capability,
    write_msi_capability, MsiCapabilityHeader, MsiDeliveryMode, MsiTriggerMode, CAPABILITY_MSI,
    CAPABILITY_MSIX,
};
use kernel_core::pci::{read_conf_reg, ClassCode, Device};

fn xhci_device() -> Device {
    Device::new(0, 2, 0, 0x00, ClassCode::new(0x0c, 0x03, 0x30))
}

/// A port with one function at (0,2,0) whose capability list is just the
/// MSI capability at 0x50 with the given header register value.
fn port_with_msi_cap(header: u32) -> (MemConfigPort, Device) {
    let mut port = MemConfigPort::new();
    port.set_reg(0, 2, 0, 0x00, 0x0001_8086);
    port.set_reg(0, 2, 0, 0x34, 0x0000_0050);
    port.set_reg(0, 2, 0, 0x50, header);
    (port, xhci_device())
}

#[test]
fn header_codec_round_trips() {
    let v = 0x0186_0005u32;
    let h = MsiCapabilityHeader::from_u32(v);
    assert_eq!(h.cap_id, CAPABILITY_MSI);
    assert_eq!(h.next_ptr, 0);
    assert!(!h.msi_enable);
    assert_eq!(h.multi_msg_capable, 3);
    assert_eq!(h.multi_msg_enable, 0);
    assert!(h.addr_64_capable);
    assert!(h.per_vector_mask_capable);
    assert_eq!(h.to_u32(), v);

    // reserved bits survive the round trip
    let v2 = 0xfe04_0005u32;
    assert_eq!(MsiCapabilityHeader::from_u32(v2).to_u32(), v2);
}

#[test]
fn capability_header_reader_decomposes() {
    let (mut port, dev) = port_with_msi_cap(0x0004_0005 | (0x60 << 8));
    let h = read_capability_header(&mut port, &dev, 0x50);
    assert_eq!(h.cap_id, CAPABILITY_MSI);
    assert_eq!(h.next_ptr, 0x60);
    assert_eq!(h.cap, 0x0004);
}

#[test]
fn msi_fields_without_64bit_capability_are_never_touched() {
    // header: MSI, no next, multi-message capable 2, no 64-bit address,
    // no per-vector masking
    let (mut port, dev) = port_with_msi_cap(0x0004_0005);
    // sentinels where the upper-address/mask/pending fields would be
    port.set_reg(0, 2, 0, 0x5c, 0x5c5c_5c5c);
    port.set_reg(0, 2, 0, 0x60, 0x6060_6060);

    let cap = read_msi_capability(&mut port, &dev, 0x50);
    assert!(!cap.header.addr_64_capable);
    assert!(!cap.header.per_vector_mask_capable);
    // absent fields read back as zero, not as the sentinels
    assert_eq!(cap.msg_upper_addr, 0);
    assert_eq!(cap.mask_bits, 0);
    assert_eq!(cap.pending_bits, 0);

    assert!(configure_msi(&mut port, &dev, 0xfee0_3000, 0x4041, 0).is_ok());
    // header: enable set, multi-message enable = min(capable 2, asked 0) = 0
    assert_eq!(read_conf_reg(&mut port, &dev, 0x50), 0x0005_0005);
    // the 32-bit layout puts message data right after the address
    assert_eq!(read_conf_reg(&mut port, &dev, 0x54), 0xfee0_3000);
    assert_eq!(read_conf_reg(&mut port, &dev, 0x58), 0x4041);
    // the would-be mask/pending registers keep their sentinels
    assert_eq!(read_conf_reg(&mut port, &dev, 0x5c), 0x5c5c_5c5c);
    assert_eq!(read_conf_reg(&mut port, &dev, 0x60), 0x6060_6060);
}

#[test]
fn msi_64bit_masking_layout_uses_all_fields() {
    // MSI, multi-message capable 3, 64-bit capable, per-vector masking
    let (mut port, dev) = port_with_msi_cap(0x0186_0005);
    port.set_reg(0, 2, 0, 0x58, 0x0000_00ab); // upper address
    port.set_reg(0, 2, 0, 0x60, 0x0000_0003); // mask bits
    port.set_reg(0, 2, 0, 0x64, 0x0000_0001); // pending bits

    let cap = read_msi_capability(&mut port, &dev, 0x50);
    assert_eq!(cap.msg_upper_addr, 0xab);
    assert_eq!(cap.mask_bits, 3);
    assert_eq!(cap.pending_bits, 1);

    assert!(configure_msi(&mut port, &dev, 0xfee0_0000, 0x40, 5).is_ok());
    // multi-message enable = min(capable 3, asked 5) = 3; enable bit set
    assert_eq!(read_conf_reg(&mut port, &dev, 0x50), 0x01b7_0005);
    assert_eq!(read_conf_reg(&mut port, &dev, 0x54), 0xfee0_0000);
    // upper address written back unchanged; data lands after it
    assert_eq!(read_conf_reg(&mut port, &dev, 0x58), 0xab);
    assert_eq!(read_conf_reg(&mut port, &dev, 0x5c), 0x40);
    assert_eq!(read_conf_reg(&mut port, &dev, 0x60), 3);
    assert_eq!(read_conf_reg(&mut port, &dev, 0x64), 1);
}

#[test]
fn write_back_preserves_reserved_header_bits() {
    let (mut port, dev) = port_with_msi_cap(0xfe04_0005);
    let cap = read_msi_capability(&mut port, &dev, 0x50);
    write_msi_capability(&mut port, &dev, 0x50, &cap);
    assert_eq!(read_conf_reg(&mut port, &dev, 0x50), 0xfe04_0005);
}

#[test]
fn capability_list_is_followed_to_the_msi_entry() {
    let mut port = MemConfigPort::new();
    port.set_reg(0, 2, 0, 0x00, 0x0001_8086);
    port.set_reg(0, 2, 0, 0x34, 0x0000_0040);
    // power management capability at 0x40, pointing at 0x50
    port.set_reg(0, 2, 0, 0x40, 0x0000_5001);
    // MSI at 0x50, end of list
    port.set_reg(0, 2, 0, 0x50, 0x0004_0005);
    let dev = xhci_device();
    assert!(configure_msi(&mut port, &dev, 0xfee0_0000, 0x40, 0).is_ok());
    assert_eq!(read_conf_reg(&mut port, &dev, 0x54), 0xfee0_0000);
}

#[test]
fn msix_only_is_not_implemented() {
    let (mut port, dev) = port_with_msi_cap((CAPABILITY_MSIX as u32) | 0x0000_0000);
    let e = configure_msi(&mut port, &dev, 0xfee0_0000, 0x40, 0).unwrap_err();
    assert_eq!(e.code(), Code::NotImplemented);
}

#[test]
fn no_capability_list_means_no_pci_msi() {
    let mut port = MemConfigPort::new();
    port.set_reg(0, 2, 0, 0x00, 0x0001_8086);
    port.set_reg(0, 2, 0, 0x34, 0);
    let dev = xhci_device();
    let e = configure_msi(&mut port, &dev, 0xfee0_0000, 0x40, 0).unwrap_err();
    assert_eq!(e.code(), Code::NoPCIMSI);
}

#[test]
fn fixed_destination_builds_the_apic_encoding() {
    let (mut port, dev) = port_with_msi_cap(0x0004_0005);
    assert!(configure_msi_fixed_destination(
        &mut port,
        &dev,
        0x0b,
        MsiTriggerMode::Level,
        MsiDeliveryMode::Fixed,
        0x40,
        0,
    )
    .is_ok());
    // address: 0xfee00000 with the APIC ID in bits 19:12
    assert_eq!(read_conf_reg(&mut port, &dev, 0x54), 0xfee0_0000 | (0x0b << 12));
    // data: vector in bits 7:0, fixed delivery, level bits 14 and 15
    assert_eq!(read_conf_reg(&mut port, &dev, 0x58), 0xc040);
}

#[test]
fn edge_trigger_leaves_the_level_bits_clear() {
    let (mut port, dev) = port_with_msi_cap(0x0004_0005);
    assert!(configure_msi_fixed_destination(
        &mut port,
        &dev,
        0x0b,
        MsiTriggerMode::Edge,
        MsiDeliveryMode::LowestPriority,
        0x41,
        0,
    )
    .is_ok());
    assert_eq!(read_conf_reg(&mut port, &dev, 0x58), 0x0141);
}
