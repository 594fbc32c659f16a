//! The capability walker and MSI configurator: finding the MSI capability in
//! a device's capability list and programming it to route an interrupt
//! vector to a CPU.

use vstd::prelude::*;

use crate::config::{spec_conf_reg, spec_make_address, ConfigPort};
use crate::error::{Code, Error};
use crate::pci::{read_conf_reg, write_conf_reg, Device};

verus! {

/// Capability ID of the MSI capability.
pub const CAPABILITY_MSI: u8 = 0x05;

/// Capability ID of the MSI-X capability.
pub const CAPABILITY_MSIX: u8 = 0x11;

/// The largest capability offset at which the longest MSI capability variant
/// (64-bit address and per-vector masking, ending at offset + 20) still lies
/// inside the 256-byte configuration space.
pub const MAX_MSI_CAP_ADDR: u8 = 235;

/// The common header every capability structure starts with: the capability
/// ID in bits 7:0, the offset of the next capability in bits 15:8 (zero
/// terminates the list), and capability-specific bits above.
#[derive(Debug, Clone, Copy, PartialEq, Eq, Structural)]
pub struct CapabilityHeader {
    pub cap_id: u8,
    pub next_ptr: u8,
    pub cap: u16,
}

/// The capability header encoded in one 32-bit register.
pub open spec fn spec_capability_header_from_u32(v: u32) -> CapabilityHeader {
    CapabilityHeader { cap_id: (v & 0xff) as u8, next_ptr: ((v >> 8) & 0xff) as u8, cap: (v
        >> 16) as u16 }
}

/// The capability header of `*dev` at configuration-space offset `addr`.
pub open spec fn spec_capability_header_at(regs: Map<u32, u32>, dev: Device, addr: u8) -> CapabilityHeader {
    spec_capability_header_from_u32(spec_conf_reg(regs, dev.bus, dev.device, dev.function, addr))
}

/// Reads the capability header at a configuration-space offset.
pub fn read_capability_header<P: ConfigPort>(port: &mut P, dev: &Device, addr: u8) -> (r:
    CapabilityHeader)
    requires
        dev.wf(),
    ensures
        r == spec_capability_header_at(old(port).regs(), *dev, addr),
        final(port).regs() == old(port).regs(),
{
    let header_data = read_conf_reg(port, dev, addr);
    CapabilityHeader {
        cap_id: (header_data & 0xff) as u8,
        next_ptr: ((header_data >> 8) & 0xff) as u8,
        cap: (header_data >> 16) as u16,
    }
}

/// The MSI capability header, decoded: bits 7:0 the capability ID, bits 15:8
/// the next pointer, bit 16 enable, bits 19:17 multi-message capable, bits
/// 22:20 multi-message enable, bit 23 64-bit-address capable, bit 24
/// per-vector-mask capable, bits 31:25 reserved (held so that writing the
/// header back leaves them as the device exposed them).
#[derive(Debug, Clone, Copy, PartialEq, Eq, Structural)]
pub struct MsiCapabilityHeader {
    pub cap_id: u8,
    pub next_ptr: u8,
    pub msi_enable: bool,
    pub multi_msg_capable: u8,
    pub multi_msg_enable: u8,
    pub addr_64_capable: bool,
    pub per_vector_mask_capable: bool,
    pub reserved: u8,
}

impl MsiCapabilityHeader {
    /// The three-bit and seven-bit fields fit their on-wire slots.
    pub open spec fn wf(&self) -> bool {
        self.multi_msg_capable < 8 && self.multi_msg_enable < 8 && self.reserved < 128
    }

    /// Decoding of the header register.
    pub open spec fn spec_from_u32(v: u32) -> MsiCapabilityHeader {
        MsiCapabilityHeader {
            cap_id: (v & 0xff) as u8,
            next_ptr: ((v >> 8) & 0xff) as u8,
            msi_enable: (v >> 16) & 1 == 1,
            multi_msg_capable: ((v >> 17) & 0x7) as u8,
            multi_msg_enable: ((v >> 20) & 0x7) as u8,
            addr_64_capable: (v >> 23) & 1 == 1,
            per_vector_mask_capable: (v >> 24) & 1 == 1,
            reserved: (v >> 25) as u8,
        }
    }

    /// Encoding of the header register.
    pub open spec fn spec_to_u32(&self) -> u32 {
        (self.cap_id as u32) | ((self.next_ptr as u32) << 8) | (if self.msi_enable {
            0x10000u32
        } else {
            0u32
        }) | ((self.multi_msg_capable as u32) << 17) | ((self.multi_msg_enable as u32) << 20) | (
        if self.addr_64_capable {
            0x800000u32
        } else {
            0u32
        }) | (if self.per_vector_mask_capable {
            0x1000000u32
        } else {
            0u32
        }) | ((self.reserved as u32) << 25)
    }

    /// Decodes the header register.
    pub fn from_u32(v: u32) -> (r: MsiCapabilityHeader)
        ensures
            r == MsiCapabilityHeader::spec_from_u32(v),
            r.wf(),
    {
        proof {
            assert((v >> 17) & 0x7 < 8 && (v >> 20) & 0x7 < 8 && v >> 25 < 128) by (bit_vector);
        }
        MsiCapabilityHeader {
            cap_id: (v & 0xff) as u8,
            next_ptr: ((v >> 8) & 0xff) as u8,
            msi_enable: (v >> 16) & 1 == 1,
            multi_msg_capable: ((v >> 17) & 0x7) as u8,
            multi_msg_enable: ((v >> 20) & 0x7) as u8,
            addr_64_capable: (v >> 23) & 1 == 1,
            per_vector_mask_capable: (v >> 24) & 1 == 1,
            reserved: (v >> 25) as u8,
        }
    }

    /// Encodes the header register.
    pub fn to_u32(&self) -> (r: u32)
        requires
            self.wf(),
        ensures
            r == self.spec_to_u32(),
    {
        (self.cap_id as u32) | ((self.next_ptr as u32) << 8) | (if self.msi_enable {
            0x10000u32
        } else {
            0u32
        }) | ((self.multi_msg_capable as u32) << 17) | ((self.multi_msg_enable as u32) << 20) | (
        if self.addr_64_capable {
            0x800000u32
        } else {
            0u32
        }) | (if self.per_vector_mask_capable {
            0x1000000u32
        } else {
            0u32
        }) | ((self.reserved as u32) << 25)
    }
}

/// Decoding and re-encoding an MSI capability header gives back the register
/// value bit for bit, reserved bits included.
pub proof fn lemma_msi_header_round_trip(v: u32)
    ensures
        MsiCapabilityHeader::spec_from_u32(v).spec_to_u32() == v,
{
    assert((((v & 0xff) as u8) as u32) | (((((v >> 8) & 0xff) as u8) as u32) << 8) | (if ((v >> 16)
        & 1 == 1) {
        0x10000u32
    } else {
        0u32
    }) | (((((v >> 17) & 0x7) as u8) as u32) << 17) | (((((v >> 20) & 0x7) as u8) as u32) << 20) | (
    if ((v >> 23) & 1 == 1) {
        0x800000u32
    } else {
        0u32
    }) | (if ((v >> 24) & 1 == 1) {
        0x1000000u32
    } else {
        0u32
    }) | ((((v >> 25) as u8) as u32) << 25) == v) by (bit_vector);
}

/// An MSI capability structure, widest variant: header, message address,
/// upper message address (present on the wire only when 64-bit capable),
/// message data, and mask/pending words (present only with per-vector
/// masking). Absent trailing fields read as zero and are never written.
#[derive(Debug, Clone, Copy, PartialEq, Eq, Structural)]
pub struct MsiCapability {
    pub header: MsiCapabilityHeader,
    pub msg_addr: u32,
    pub msg_upper_addr: u32,
    pub msg_data: u32,
    pub mask_bits: u32,
    pub pending_bits: u32,
}

/// The MSI capability of `dev` at offset `cap_addr`, read field by field,
/// the optional trailing fields gated on the header's capability flags.
pub open spec fn spec_read_msi_capability(regs: Map<u32, u32>, dev: Device, cap_addr: u8) -> MsiCapability {
    let header = MsiCapabilityHeader::spec_from_u32(
        spec_conf_reg(regs, dev.bus, dev.device, dev.function, cap_addr),
    );
    let msg_addr = spec_conf_reg(regs, dev.bus, dev.device, dev.function, (cap_addr + 4) as u8);
    let msg_upper_addr = if header.addr_64_capable {
        spec_conf_reg(regs, dev.bus, dev.device, dev.function, (cap_addr + 8) as u8)
    } else {
        0u32
    };
    let msg_data_addr = if header.addr_64_capable {
        (cap_addr + 12) as u8
    } else {
        (cap_addr + 8) as u8
    };
    let msg_data = spec_conf_reg(regs, dev.bus, dev.device, dev.function, msg_data_addr);
    let mask_bits = if header.per_vector_mask_capable {
        spec_conf_reg(regs, dev.bus, dev.device, dev.function, (msg_data_addr + 4) as u8)
    } else {
        0u32
    };
    let pending_bits = if header.per_vector_mask_capable {
        spec_conf_reg(regs, dev.bus, dev.device, dev.function, (msg_data_addr + 8) as u8)
    } else {
        0u32
    };
    MsiCapability { header, msg_addr, msg_upper_addr, msg_data, mask_bits, pending_bits }
}

/// Reads the MSI capability structure of `dev` at offset `cap_addr`,
/// reading only the fields the header's capability flags say are present.
pub fn read_msi_capability<P: ConfigPort>(port: &mut P, dev: &Device, cap_addr: u8) -> (r:
    MsiCapability)
    requires
        dev.wf(),
        cap_addr <= MAX_MSI_CAP_ADDR,
    ensures
        r == spec_read_msi_capability(old(port).regs(), *dev, cap_addr),
        r.header.wf(),
        final(port).regs() == old(port).regs(),
{
    let header_data = read_conf_reg(port, dev, cap_addr);
    let header = MsiCapabilityHeader::from_u32(header_data);
    let msg_addr = read_conf_reg(port, dev, cap_addr + 4);

    let msg_upper_addr: u32;
    let msg_data_addr: u8;
    if header.addr_64_capable {
        msg_upper_addr = read_conf_reg(port, dev, cap_addr + 8);
        msg_data_addr = cap_addr + 12;
    } else {
        msg_upper_addr = 0;
        msg_data_addr = cap_addr + 8;
    }
    let msg_data = read_conf_reg(port, dev, msg_data_addr);

    let mask_bits: u32;
    let pending_bits: u32;
    if header.per_vector_mask_capable {
        mask_bits = read_conf_reg(port, dev, msg_data_addr + 4);
        pending_bits = read_conf_reg(port, dev, msg_data_addr + 8);
    } else {
        mask_bits = 0;
        pending_bits = 0;
    }

    MsiCapability { header, msg_addr, msg_upper_addr, msg_data, mask_bits, pending_bits }
}

/// The register file after the MSI capability at `cap_addr` of `dev` is
/// written back field by field: header and message address always; the upper
/// address only when 64-bit capable (the message data register moves up to
/// make room); mask and pending words only with per-vector masking. No other
/// register is touched.
pub open spec fn spec_write_msi_capability(
    regs: Map<u32, u32>,
    dev: Device,
    cap_addr: u8,
    msi_cap: MsiCapability,
) -> Map<u32, u32> {
    let r1 = regs.insert(
        spec_make_address(dev.bus, dev.device, dev.function, cap_addr),
        msi_cap.header.spec_to_u32(),
    ).insert(
        spec_make_address(dev.bus, dev.device, dev.function, (cap_addr + 4) as u8),
        msi_cap.msg_addr,
    );
    let r2 = if msi_cap.header.addr_64_capable {
        r1.insert(
            spec_make_address(dev.bus, dev.device, dev.function, (cap_addr + 8) as u8),
            msi_cap.msg_upper_addr,
        )
    } else {
        r1
    };
    let msg_data_addr = if msi_cap.header.addr_64_capable {
        (cap_addr + 12) as u8
    } else {
        (cap_addr + 8) as u8
    };
    let r3 = r2.insert(
        spec_make_address(dev.bus, dev.device, dev.function, msg_data_addr),
        msi_cap.msg_data,
    );
    if msi_cap.header.per_vector_mask_capable {
        r3.insert(
            spec_make_address(dev.bus, dev.device, dev.function, (msg_data_addr + 4) as u8),
            msi_cap.mask_bits,
        ).insert(
            spec_make_address(dev.bus, dev.device, dev.function, (msg_data_addr + 8) as u8),
            msi_cap.pending_bits,
        )
    } else {
        r3
    }
}

/// Writes the MSI capability structure back, writing only the fields the
/// header's capability flags say the device has: writing absent fields is
/// undefined behaviour on the device and must be avoided.
pub fn write_msi_capability<P: ConfigPort>(
    port: &mut P,
    dev: &Device,
    cap_addr: u8,
    msi_cap: &MsiCapability,
)
    requires
        dev.wf(),
        cap_addr <= MAX_MSI_CAP_ADDR,
        msi_cap.header.wf(),
    ensures
        final(port).regs() == spec_write_msi_capability(old(port).regs(), *dev, cap_addr, *msi_cap),
{
    write_conf_reg(port, dev, cap_addr, msi_cap.header.to_u32());
    write_conf_reg(port, dev, cap_addr + 4, msi_cap.msg_addr);

    let msg_data_addr: u8;
    if msi_cap.header.addr_64_capable {
        write_conf_reg(port, dev, cap_addr + 8, msi_cap.msg_upper_addr);
        msg_data_addr = cap_addr + 12;
    } else {
        msg_data_addr = cap_addr + 8;
    }

    write_conf_reg(port, dev, msg_data_addr, msi_cap.msg_data);

    if msi_cap.header.per_vector_mask_capable {
        write_conf_reg(port, dev, msg_data_addr + 4, msi_cap.mask_bits);
        write_conf_reg(port, dev, msg_data_addr + 8, msi_cap.pending_bits);
    }
}

/// Writing back a capability that is neither 64-bit capable nor per-vector
/// masking capable touches exactly the header, message-address and
/// message-data registers: every other register keeps its value.
pub proof fn lemma_msi_write_field_gating(
    regs: Map<u32, u32>,
    dev: Device,
    cap_addr: u8,
    msi_cap: MsiCapability,
)
    requires
        !msi_cap.header.addr_64_capable,
        !msi_cap.header.per_vector_mask_capable,
    ensures
        forall|a: u32|
            a != spec_make_address(dev.bus, dev.device, dev.function, cap_addr) && a
                != spec_make_address(dev.bus, dev.device, dev.function, (cap_addr + 4) as u8) && a
                != spec_make_address(dev.bus, dev.device, dev.function, (cap_addr + 8) as u8)
                ==> #[trigger] spec_write_msi_capability(regs, dev, cap_addr, msi_cap)[a] == regs[a],
{
}

/// Writing back a capability without per-vector masking leaves the mask and
/// pending registers (and everything else past the message data) untouched.
pub proof fn lemma_msi_write_mask_gating(
    regs: Map<u32, u32>,
    dev: Device,
    cap_addr: u8,
    msi_cap: MsiCapability,
)
    requires
        !msi_cap.header.per_vector_mask_capable,
    ensures
        forall|a: u32|
            a != spec_make_address(dev.bus, dev.device, dev.function, cap_addr) && a
                != spec_make_address(dev.bus, dev.device, dev.function, (cap_addr + 4) as u8) && a
                != spec_make_address(dev.bus, dev.device, dev.function, (cap_addr + 8) as u8) && a
                != spec_make_address(dev.bus, dev.device, dev.function, (cap_addr + 12) as u8)
                ==> #[trigger] spec_write_msi_capability(regs, dev, cap_addr, msi_cap)[a] == regs[a],
{
}

/// Reading a capability whose header has a capability flag clear never
/// depends on the absent fields: they come back as zero.
pub proof fn lemma_msi_read_field_gating(regs: Map<u32, u32>, dev: Device, cap_addr: u8)
    ensures
        !spec_read_msi_capability(regs, dev, cap_addr).header.addr_64_capable
            ==> spec_read_msi_capability(regs, dev, cap_addr).msg_upper_addr == 0,
        !spec_read_msi_capability(regs, dev, cap_addr).header.per_vector_mask_capable
            ==> spec_read_msi_capability(regs, dev, cap_addr).mask_bits == 0
            && spec_read_msi_capability(regs, dev, cap_addr).pending_bits == 0,
{
}

/// The capability with multi-message enable set to the smaller of what the
/// device can do and what was asked for, the enable bit set, and the
/// caller's message address and data in place.
pub open spec fn spec_configured_capability(
    msi_cap: MsiCapability,
    msg_addr: u32,
    msg_data: u32,
    num_vector_exponent: u32,
) -> MsiCapability {
    let enable = if msi_cap.header.multi_msg_capable <= num_vector_exponent as u8 {
        msi_cap.header.multi_msg_capable
    } else {
        num_vector_exponent as u8
    };
    MsiCapability {
        header: MsiCapabilityHeader {
            msi_enable: true,
            multi_msg_enable: enable,
            ..msi_cap.header
        },
        msg_addr,
        msg_data,
        ..msi_cap
    }
}

/// The register file after the MSI capability at `cap_addr` is configured:
/// read, updated, and written back.
pub open spec fn spec_configure_msi_register(
    regs: Map<u32, u32>,
    dev: Device,
    cap_addr: u8,
    msg_addr: u32,
    msg_data: u32,
    num_vector_exponent: u32,
) -> Map<u32, u32> {
    spec_write_msi_capability(
        regs,
        dev,
        cap_addr,
        spec_configured_capability(
            spec_read_msi_capability(regs, dev, cap_addr),
            msg_addr,
            msg_data,
            num_vector_exponent,
        ),
    )
}

/// Programs the MSI capability at `cap_addr`: multi-message enable becomes
/// the smaller of the device's capability and the request, the enable bit is
/// set, and the message address and data are overwritten.
pub fn configure_msi_register<P: ConfigPort>(
    port: &mut P,
    dev: &Device,
    cap_addr: u8,
    msg_addr: u32,
    msg_data: u32,
    num_vector_exponent: u32,
) -> (r: Result<(), Error>)
    requires
        dev.wf(),
        cap_addr <= MAX_MSI_CAP_ADDR,
    ensures
        final(port).regs() == spec_configure_msi_register(
            old(port).regs(),
            *dev,
            cap_addr,
            msg_addr,
            msg_data,
            num_vector_exponent,
        ),
        r is Ok,
{
    let mut msi_cap = read_msi_capability(port, dev, cap_addr);

    if msi_cap.header.multi_msg_capable <= num_vector_exponent as u8 {
        msi_cap.header.multi_msg_enable = msi_cap.header.multi_msg_capable;
    } else {
        msi_cap.header.multi_msg_enable = num_vector_exponent as u8;
    }

    msi_cap.header.msi_enable = true;
    msi_cap.msg_addr = msg_addr;
    msi_cap.msg_data = msg_data;
    write_msi_capability(port, dev, cap_addr, &msi_cap);
    Ok(())
}

/// MSI-X configuration is out of scope: always `NotImplemented`.
pub fn configure_msix_register(
    _dev: &Device,
    _cap_addr: u8,
    _msg_addr: u32,
    _msg_data: u32,
    _num_vector_exponent: u32,
) -> (r: Result<(), Error>)
    ensures
        r is Err,
        (r matches Err(e) ==> e.spec_code() == Code::NotImplemented),
{
    Err(Error::new(Code::NotImplemented, "pci", 0))
}

/// The offsets of the MSI and MSI-X capabilities (zero where absent), found
/// by following the capability list for at most `fuel` links; a list that
/// terminates does so within 256 links, and one that does not keeps the
/// hardware walking forever.
pub open spec fn spec_capability_walk(
    regs: Map<u32, u32>,
    dev: Device,
    cap_addr: u8,
    msi_cap_addr: u8,
    msix_cap_addr: u8,
    fuel: nat,
) -> (u8, u8)
    decreases fuel,
{
    if cap_addr == 0 || fuel == 0 {
        (msi_cap_addr, msix_cap_addr)
    } else {
        let header = spec_capability_header_at(regs, dev, cap_addr);
        let msi = if header.cap_id == CAPABILITY_MSI {
            cap_addr
        } else {
            msi_cap_addr
        };
        let msix = if header.cap_id == CAPABILITY_MSIX {
            cap_addr
        } else {
            msix_cap_addr
        };
        spec_capability_walk(regs, dev, header.next_ptr, msi, msix, (fuel - 1) as nat)
    }
}

/// The MSI and MSI-X capability offsets of `dev`: the walk starts at the
/// capabilities pointer (low byte of register 0x34).
pub open spec fn spec_find_capabilities(regs: Map<u32, u32>, dev: Device) -> (u8, u8) {
    spec_capability_walk(
        regs,
        dev,
        (spec_conf_reg(regs, dev.bus, dev.device, dev.function, 0x34) & 0xff) as u8,
        0,
        0,
        256,
    )
}

/// Configures MSI (or reports why it cannot): walks the capability list;
/// programs the MSI capability when there is one; fails with
/// `NotImplemented` when only MSI-X exists and with `NoPCIMSI` when neither
/// does.
pub fn configure_msi<P: ConfigPort>(
    port: &mut P,
    dev: &Device,
    msg_addr: u32,
    msg_data: u32,
    num_vector_exponent: u32,
) -> (r: Result<(), Error>)
    requires
        dev.wf(),
        spec_find_capabilities(old(port).regs(), *dev).0 <= MAX_MSI_CAP_ADDR,
    ensures
        ({
            let caps = spec_find_capabilities(old(port).regs(), *dev);
            &&& final(port).regs() == (if caps.0 != 0 {
                spec_configure_msi_register(
                    old(port).regs(),
                    *dev,
                    caps.0,
                    msg_addr,
                    msg_data,
                    num_vector_exponent,
                )
            } else {
                old(port).regs()
            })
            &&& match r {
                Ok(_) => caps.0 != 0,
                Err(e) => caps.0 == 0 && e.spec_code() == (if caps.1 != 0 {
                    Code::NotImplemented
                } else {
                    Code::NoPCIMSI
                }),
            }
        }),
{
    let first = read_conf_reg(port, dev, 0x34);
    let mut cap_addr = (first & 0xff) as u8;
    let mut msi_cap_addr: u8 = 0;
    let mut msix_cap_addr: u8 = 0;
    let mut fuel: u16 = 256;
    while cap_addr != 0 && fuel > 0
        invariant
            dev.wf(),
            fuel <= 256,
            port.regs() == old(port).regs(),
            spec_find_capabilities(old(port).regs(), *dev) == spec_capability_walk(
                old(port).regs(),
                *dev,
                cap_addr,
                msi_cap_addr,
                msix_cap_addr,
                fuel as nat,
            ),
        decreases fuel,
    {
        let header = read_capability_header(port, dev, cap_addr);
        if header.cap_id == CAPABILITY_MSI {
            msi_cap_addr = cap_addr;
        } else if header.cap_id == CAPABILITY_MSIX {
            msix_cap_addr = cap_addr;
        }
        cap_addr = header.next_ptr;
        fuel = fuel - 1;
    }

    if msi_cap_addr != 0 {
        configure_msi_register(port, dev, msi_cap_addr, msg_addr, msg_data, num_vector_exponent)
    } else if msix_cap_addr != 0 {
        configure_msix_register(dev, msi_cap_addr, msg_addr, msg_data, num_vector_exponent)
    } else {
        Err(Error::new(Code::NoPCIMSI, "pci", 0))
    }
}

/// How an MSI message is delivered.
#[derive(Debug, Clone, Copy, PartialEq, Eq, Structural)]
pub enum MsiTriggerMode {
    Edge,
    Level,
}

/// The delivery mode field of an MSI message.
#[derive(Debug, Clone, Copy, PartialEq, Eq, Structural)]
pub enum MsiDeliveryMode {
    Fixed,
    LowestPriority,
    Smi,
    Nmi,
    Init,
    ExtInt,
}

impl MsiDeliveryMode {
    /// The three-bit encoding of the delivery mode.
    pub open spec fn spec_value(&self) -> u32 {
        match self {
            MsiDeliveryMode::Fixed => 0,
            MsiDeliveryMode::LowestPriority => 1,
            MsiDeliveryMode::Smi => 2,
            MsiDeliveryMode::Nmi => 4,
            MsiDeliveryMode::Init => 5,
            MsiDeliveryMode::ExtInt => 7,
        }
    }

    /// The three-bit encoding of the delivery mode.
    pub fn value(&self) -> (r: u32)
        ensures
            r == self.spec_value(),
    {
        match self {
            MsiDeliveryMode::Fixed => 0,
            MsiDeliveryMode::LowestPriority => 1,
            MsiDeliveryMode::Smi => 2,
            MsiDeliveryMode::Nmi => 4,
            MsiDeliveryMode::Init => 5,
            MsiDeliveryMode::ExtInt => 7,
        }
    }
}

/// The fixed-destination MSI message address: `0xfee00000` with the
/// destination APIC ID in bits 19:12.
pub open spec fn spec_msi_message_address(apic_id: u8) -> u32 {
    0xfee00000u32 | ((apic_id as u32) << 12)
}

/// The fixed-destination MSI message data: the vector in bits 7:0, the
/// delivery mode in bits 10:8, and — for level trigger only — the
/// trigger-mode and level bits 14 and 15.
pub open spec fn spec_msi_message_data(
    vector: u8,
    delivery_mode: MsiDeliveryMode,
    trigger_mode: MsiTriggerMode,
) -> u32 {
    (vector as u32) | (delivery_mode.spec_value() << 8) | (if trigger_mode == MsiTriggerMode::Level {
        0xc000u32
    } else {
        0u32
    })
}

/// Configures MSI for fixed destination delivery: builds the standard APIC
/// message address for `apic_id` and the message data for `vector`, then
/// programs the device's MSI capability.
pub fn configure_msi_fixed_destination<P: ConfigPort>(
    port: &mut P,
    dev: &Device,
    apic_id: u8,
    trigger_mode: MsiTriggerMode,
    delivery_mode: MsiDeliveryMode,
    vector: u8,
    num_vector_exponent: u32,
) -> (r: Result<(), Error>)
    requires
        dev.wf(),
        spec_find_capabilities(old(port).regs(), *dev).0 <= MAX_MSI_CAP_ADDR,
    ensures
        ({
            let caps = spec_find_capabilities(old(port).regs(), *dev);
            let msg_addr = spec_msi_message_address(apic_id);
            let msg_data = spec_msi_message_data(vector, delivery_mode, trigger_mode);
            &&& final(port).regs() == (if caps.0 != 0 {
                spec_configure_msi_register(
                    old(port).regs(),
                    *dev,
                    caps.0,
                    msg_addr,
                    msg_data,
                    num_vector_exponent,
                )
            } else {
                old(port).regs()
            })
            &&& match r {
                Ok(_) => caps.0 != 0,
                Err(e) => caps.0 == 0 && e.spec_code() == (if caps.1 != 0 {
                    Code::NotImplemented
                } else {
                    Code::NoPCIMSI
                }),
            }
        }),
{
    let msg_addr: u32 = 0xfee00000u32 | ((apic_id as u32) << 12);

    let mut msg_data: u32 = (vector as u32) | (delivery_mode.value() << 8);
    if trigger_mode == MsiTriggerMode::Level {
        msg_data = msg_data | 0xc000;
    } else {
        proof {
            let d = delivery_mode.spec_value();
            assert(((vector as u32) | (d << 8)) | 0u32 == (vector as u32) | (d << 8))
                by (bit_vector);
        }
    }

    configure_msi(port, dev, msg_addr, msg_data, num_vector_exponent)
}

} // verus!
