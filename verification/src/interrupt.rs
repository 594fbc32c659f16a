//! The interrupt descriptor table: gate descriptors, their packed attribute
//! word, and the 256-entry table the CPU is pointed at once, at boot.

use vstd::prelude::*;

verus! {

/// Number of gate descriptors in the table, one per vector.
pub const IDT_SIZE: usize = 256;

/// Each gate descriptor occupies 16 bytes in the table the CPU reads.
pub const DESCRIPTOR_BYTES: usize = 16;

/// The system-segment and gate types of the descriptor's type field.
#[derive(Debug, Clone, Copy, PartialEq, Eq, Structural)]
pub enum DescriptorType {
    Upper8Bytes,
    Ldt,
    TSSAvailable,
    TSSBusy,
    CallGate,
    InterruptGate,
    TrapGate,
}

impl DescriptorType {
    /// The four-bit encoding of the type field.
    pub open spec fn spec_value(&self) -> u8 {
        match self {
            DescriptorType::Upper8Bytes => 0,
            DescriptorType::Ldt => 2,
            DescriptorType::TSSAvailable => 9,
            DescriptorType::TSSBusy => 11,
            DescriptorType::CallGate => 12,
            DescriptorType::InterruptGate => 14,
            DescriptorType::TrapGate => 15,
        }
    }

    /// The four-bit encoding of the type field.
    pub fn value(&self) -> (r: u8)
        ensures
            r == self.spec_value(),
    {
        match self {
            DescriptorType::Upper8Bytes => 0,
            DescriptorType::Ldt => 2,
            DescriptorType::TSSAvailable => 9,
            DescriptorType::TSSBusy => 11,
            DescriptorType::CallGate => 12,
            DescriptorType::InterruptGate => 14,
            DescriptorType::TrapGate => 15,
        }
    }
}

/// The attribute word of a gate descriptor, decoded: interrupt-stack-table
/// index in bits 2:0, descriptor type in bits 11:8, privilege level in bits
/// 14:13, present in bit 15.
#[derive(Debug, Clone, Copy, PartialEq, Eq, Structural)]
pub struct InterruptDescriptorAttribute {
    pub interrupt_stack_table: u8,
    pub descriptor_type: DescriptorType,
    pub descriptor_privilege_level: u8,
    pub present: bool,
}

impl InterruptDescriptorAttribute {
    /// The stack-table index fits three bits and the privilege level two.
    pub open spec fn wf(&self) -> bool {
        self.interrupt_stack_table < 8 && self.descriptor_privilege_level < 4
    }

    /// The packed on-wire attribute word.
    pub open spec fn spec_as_u16(&self) -> u16 {
        (self.interrupt_stack_table as u16) | ((self.descriptor_type.spec_value() as u16) << 8) | (
        (self.descriptor_privilege_level as u16) << 13) | (if self.present {
            0x8000u16
        } else {
            0u16
        })
    }

    /// Packs the attribute word as the descriptor holds it.
    pub fn as_u16(&self) -> (r: u16)
        requires
            self.wf(),
        ensures
            r == self.spec_as_u16(),
    {
        (self.interrupt_stack_table as u16) | ((self.descriptor_type.value() as u16) << 8) | ((
        self.descriptor_privilege_level as u16) << 13) | (if self.present {
            0x8000u16
        } else {
            0u16
        })
    }

    /// The attribute word of an absent descriptor: all fields zero.
    pub open spec fn spec_default() -> InterruptDescriptorAttribute {
        InterruptDescriptorAttribute {
            interrupt_stack_table: 0,
            descriptor_type: DescriptorType::Upper8Bytes,
            descriptor_privilege_level: 0,
            present: false,
        }
    }
}

impl Default for InterruptDescriptorAttribute {
    fn default() -> (r: InterruptDescriptorAttribute)
        ensures
            r == InterruptDescriptorAttribute::spec_default(),
    {
        InterruptDescriptorAttribute {
            interrupt_stack_table: 0,
            descriptor_type: DescriptorType::Upper8Bytes,
            descriptor_privilege_level: 0,
            present: false,
        }
    }
}

/// Builds a gate attribute word.
pub fn make_idt_attr(
    descriptor_type: DescriptorType,
    descriptor_privilege_level: u8,
    present: bool,
    interrupt_stack_table: u8,
) -> (r: InterruptDescriptorAttribute)
    requires
        descriptor_privilege_level < 4,
        interrupt_stack_table < 8,
    ensures
        r == (InterruptDescriptorAttribute {
            interrupt_stack_table,
            descriptor_type,
            descriptor_privilege_level,
            present,
        }),
        r.wf(),
{
    InterruptDescriptorAttribute {
        interrupt_stack_table,
        descriptor_type,
        descriptor_privilege_level,
        present,
    }
}

/// One gate descriptor: the 64-bit handler address split into three pieces,
/// the code segment selector, and the attribute word.
#[derive(Debug, Clone, Copy, PartialEq, Eq, Structural)]
pub struct InterruptDescriptor {
    pub offset_low: u16,
    pub segment_selector: u16,
    pub attr: InterruptDescriptorAttribute,
    pub offset_middle: u16,
    pub offset_high: u32,
    pub reserved: u32,
}

impl InterruptDescriptor {
    /// The all-zero descriptor every table slot starts as.
    pub open spec fn spec_default() -> InterruptDescriptor {
        InterruptDescriptor {
            offset_low: 0,
            segment_selector: 0,
            attr: InterruptDescriptorAttribute::spec_default(),
            offset_middle: 0,
            offset_high: 0,
            reserved: 0,
        }
    }
}

impl Default for InterruptDescriptor {
    fn default() -> (r: InterruptDescriptor)
        ensures
            r == InterruptDescriptor::spec_default(),
    {
        InterruptDescriptor {
            offset_low: 0,
            segment_selector: 0,
            attr: InterruptDescriptorAttribute::default(),
            offset_middle: 0,
            offset_high: 0,
            reserved: 0,
        }
    }
}

/// Points a gate descriptor at a handler: the 64-bit handler address goes in
/// as low 16, middle 16 and high 32 bits, alongside the code segment
/// selector and the attribute word. The reserved word is left alone.
pub fn set_idt_entry(
    desc: &mut InterruptDescriptor,
    attr: InterruptDescriptorAttribute,
    offset: u64,
    segment_selector: u16,
)
    ensures
        final(desc).attr == attr,
        final(desc).offset_low == (offset & 0xffff) as u16,
        final(desc).offset_middle == ((offset >> 16) & 0xffff) as u16,
        final(desc).offset_high == (offset >> 32) as u32,
        final(desc).segment_selector == segment_selector,
        final(desc).reserved == old(desc).reserved,
{
    desc.attr = attr;
    desc.offset_low = (offset & 0xffff) as u16;
    desc.offset_middle = ((offset >> 16) & 0xffff) as u16;
    desc.offset_high = (offset >> 32) as u32;
    desc.segment_selector = segment_selector;
}

/// The splitting in `set_idt_entry` loses nothing: the three pieces
/// reassemble to the handler address.
pub proof fn lemma_idt_offset_round_trip(offset: u64)
    ensures
        ((offset & 0xffff) as u16 as u64) | (((offset >> 16) & 0xffff) as u16 as u64) << 16 | ((
        offset >> 32) as u32 as u64) << 32 == offset,
{
    assert(((offset & 0xffff) as u16 as u64) | (((offset >> 16) & 0xffff) as u16 as u64) << 16 | ((
    offset >> 32) as u32 as u64) << 32 == offset) by (bit_vector);
}

/// The interrupt descriptor table: one gate per vector number, all absent at
/// boot. It is built once; the CPU is then pointed at it by a single
/// privileged load taking its byte length minus one and its base address.
pub struct Idt {
    descriptors: Vec<InterruptDescriptor>,
}

impl View for Idt {
    type V = Seq<InterruptDescriptor>;

    closed spec fn view(&self) -> Seq<InterruptDescriptor> {
        self.descriptors@
    }
}

impl Idt {
    /// A table of 256 absent descriptors.
    pub fn new() -> (r: Idt)
        ensures
            r@.len() == IDT_SIZE,
            forall|i: int| 0 <= i < IDT_SIZE ==> r@[i] == InterruptDescriptor::spec_default(),
    {
        let mut descriptors: Vec<InterruptDescriptor> = Vec::new();
        let mut i: usize = 0;
        while i < IDT_SIZE
            invariant
                i <= IDT_SIZE,
                descriptors@.len() == i,
                forall|j: int| 0 <= j < i ==> descriptors@[j] == InterruptDescriptor::spec_default(),
            decreases IDT_SIZE - i,
        {
            descriptors.push(InterruptDescriptor::default());
            i = i + 1;
        }
        Idt { descriptors }
    }

    /// The descriptor of one vector.
    pub fn entry(&self, vector: usize) -> (r: &InterruptDescriptor)
        requires
            vector < self@.len(),
        ensures
            *r == self@[vector as int],
    {
        &self.descriptors[vector]
    }

    /// Replaces the descriptor of one vector.
    pub fn set_entry(&mut self, vector: usize, desc: InterruptDescriptor)
        requires
            vector < old(self)@.len(),
        ensures
            final(self)@ == old(self)@.update(vector as int, desc),
    {
        self.descriptors.set(vector, desc);
    }

    /// Points one vector's gate at a handler, as `set_idt_entry` does,
    /// writing the result back into the table.
    pub fn set_handler(
        &mut self,
        vector: usize,
        attr: InterruptDescriptorAttribute,
        offset: u64,
        segment_selector: u16,
    )
        requires
            vector < old(self)@.len(),
        ensures
            final(self)@ == old(self)@.update(
                vector as int,
                InterruptDescriptor {
                    offset_low: (offset & 0xffff) as u16,
                    segment_selector,
                    attr,
                    offset_middle: ((offset >> 16) & 0xffff) as u16,
                    offset_high: (offset >> 32) as u32,
                    reserved: old(self)@[vector as int].reserved,
                },
            ),
    {
        let mut desc = *self.entry(vector);
        set_idt_entry(&mut desc, attr, offset, segment_selector);
        self.set_entry(vector, desc);
    }

    /// The limit value the descriptor-table-register load takes: the table's
    /// byte length minus one.
    pub fn limit(&self) -> (r: u16)
        requires
            self@.len() == IDT_SIZE,
        ensures
            r == IDT_SIZE * DESCRIPTOR_BYTES - 1,
    {
        4095
    }
}

/// The interrupt vectors this core assigns.
#[derive(Debug, Clone, Copy, PartialEq, Eq, Structural)]
pub enum Number {
    XHCI,
}

impl Number {
    /// The vector number.
    pub open spec fn spec_value(&self) -> u8 {
        match self {
            Number::XHCI => 0x40,
        }
    }

    /// The vector number.
    pub fn value(&self) -> (r: u8)
        ensures
            r == self.spec_value(),
    {
        match self {
            Number::XHCI => 0x40,
        }
    }
}

/// The stack frame the CPU hands an interrupt handler.
#[derive(Debug, Clone, Copy)]
pub struct InterruptFrame {
    pub rip: u64,
    pub cs: u64,
    pub rflags: u64,
    pub rsp: u64,
    pub ss: u64,
}

/// Physical address of the local-APIC end-of-interrupt register; the handler
/// acknowledges an interrupt by writing zero there. The write itself is a
/// volatile store the surrounding program makes.
pub const END_OF_INTERRUPT_ADDRESS: u64 = 0xfee0_00b0;

/// Physical address of the local-APIC ID register; bits 31:24 of its value
/// are the boot CPU's APIC ID.
pub const LOCAL_APIC_ID_ADDRESS: u64 = 0xfee0_0020;

} // verus!
