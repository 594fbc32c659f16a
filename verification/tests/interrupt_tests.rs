use kernel_core::interrupt::{
    make_idt_attr, set_idt_entry, DescriptorType, Idt, InterruptDescriptor, Number,
    DESCRIPTOR_BYTES, IDT_SIZE,
};

#[test]
fn attribute_word_packs_its_fields() {
    let attr = make_idt_attr(DescriptorType::InterruptGate, 0, true, 0);
    // type 14 in bits 11:8, present bit 15
    assert_eq!(attr.as_u16(), 0x8e00);
    let attr2 = make_idt_attr(DescriptorType::TrapGate, 3, false, 5);
    // ist 5 in bits 2:0, type 15 in bits 11:8, dpl 3 in bits 14:13
    assert_eq!(attr2.as_u16(), 0x0005 | 0x0f00 | 0x6000);
    assert_eq!(DescriptorType::InterruptGate.value(), 14);
}

#[test]
fn descriptor_splits_the_handler_address() {
    let mut desc = InterruptDescriptor::default();
    desc.reserved = 7;
    let attr = make_idt_attr(DescriptorType::InterruptGate, 0, true, 0);
    set_idt_entry(&mut desc, attr, 0x1122_3344_5566_7788, 0x28);
    assert_eq!(desc.offset_low, 0x7788);
    assert_eq!(desc.offset_middle, 0x5566);
    assert_eq!(desc.offset_high, 0x1122_3344);
    assert_eq!(desc.segment_selector, 0x28);
    assert_eq!(desc.attr, attr);
    // the reserved word is left alone
    assert_eq!(desc.reserved, 7);
    // the three pieces reassemble to the address
    let back = (desc.offset_low as u64)
        | ((desc.offset_middle as u64) << 16)
        | ((desc.offset_high as u64) << 32);
    assert_eq!(back, 0x1122_3344_5566_7788);
}

#[test]
fn table_starts_absent_and_takes_one_gate() {
    let mut idt = Idt::new();
    assert_eq!(idt.entry(0x40).offset_low, 0);
    assert!(!idt.entry(0x40).attr.present);

    let attr = make_idt_attr(DescriptorType::InterruptGate, 0, true, 0);
    let vector = Number::XHCI.value() as usize;
    assert_eq!(vector, 0x40);
    idt.set_handler(vector, attr, 0xffff_8000_0010_20f0, 0x08);

    let e = idt.entry(vector);
    assert_eq!(e.offset_low, 0x20f0);
    assert_eq!(e.offset_middle, 0x0010);
    assert_eq!(e.offset_high, 0xffff_8000);
    assert_eq!(e.segment_selector, 0x08);
    assert!(e.attr.present);
    // the neighbours stay absent
    assert!(!idt.entry(vector - 1).attr.present);
    assert!(!idt.entry(vector + 1).attr.present);
}

#[test]
fn table_limit_is_byte_length_minus_one() {
    let idt = Idt::new();
    assert_eq!(IDT_SIZE * DESCRIPTOR_BYTES - 1, 4095);
    assert_eq!(idt.limit(), 4095);
}
