//! Locating the USB host controller among the scanned devices and preparing
//! it: the Intel-first xHC selection, the EHCI-to-xHCI port handover on
//! Intel chipsets, and the MMIO base derived from a BAR.

use vstd::prelude::*;

use crate::config::{spec_conf_reg, spec_make_address, lemma_make_address_distinct_regs, ConfigPort};
use crate::pci::{
    read_conf_reg, read_vendor_id_from_dev, spec_vendor_id, write_conf_reg, ClassCode, Device,
    DeviceTable,
};

verus! {

/// Vendor ID of Intel devices, preferred when several host controllers exist.
pub const INTEL_VENDOR_ID: u16 = 0x8086;

/// An xHCI USB host controller: class (0x0c, 0x03, 0x30).
pub open spec fn spec_is_xhci(class_code: ClassCode) -> bool {
    class_code.spec_match_interface(0x0c, 0x03, 0x30)
}

/// An EHCI USB host controller: class (0x0c, 0x03, 0x20).
pub open spec fn spec_is_ehci(class_code: ClassCode) -> bool {
    class_code.spec_match_interface(0x0c, 0x03, 0x20)
}

/// The xHC the boot sequence picks, walking the table from position `i` with
/// `found` the latest candidate so far: the first Intel xHC wins outright;
/// failing one, the last xHC seen.
pub open spec fn spec_find_xhc_from(
    regs: Map<u32, u32>,
    devices: Seq<Device>,
    i: int,
    found: Option<int>,
) -> Option<int>
    decreases devices.len() - i,
{
    if i < 0 || i >= devices.len() {
        found
    } else if spec_is_xhci(devices[i].class_code) {
        if spec_vendor_id(regs, devices[i].bus, devices[i].device, devices[i].function)
            == INTEL_VENDOR_ID {
            Some(i)
        } else {
            spec_find_xhc_from(regs, devices, i + 1, Some(i))
        }
    } else {
        spec_find_xhc_from(regs, devices, i + 1, found)
    }
}

/// The position of the xHC the boot sequence picks, if the table holds one.
pub open spec fn spec_find_xhc(regs: Map<u32, u32>, devices: Seq<Device>) -> Option<int> {
    spec_find_xhc_from(regs, devices, 0, None)
}

/// Picks the xHC to drive: the first Intel one if any, else the last one
/// seen in scan order; `None` when the table holds no xHC.
pub fn find_xhc<P: ConfigPort>(port: &mut P, table: &DeviceTable) -> (r: Option<usize>)
    requires
        table.wf(),
    ensures
        final(port).regs() == old(port).regs(),
        match r {
            Some(i) => i < table@.len() && spec_find_xhc(old(port).regs(), table@) == Some(i as int),
            None => spec_find_xhc(old(port).regs(), table@) is None,
        },
{
    let ghost regs0 = old(port).regs();
    let mut found: Option<usize> = None;
    let n = table.num_device();
    let mut i: usize = 0;
    while i < n
        invariant
            regs0 == old(port).regs(),
            table.wf(),
            n == table@.len(),
            i <= n,
            port.regs() == regs0,
            spec_find_xhc(regs0, table@) == spec_find_xhc_from(
                regs0,
                table@,
                i as int,
                match found {
                    Some(j) => Some(j as int),
                    None => None,
                },
            ),
            match found {
                Some(j) => j < i,
                None => true,
            },
        decreases n - i,
    {
        let dev = table.get_device(i);
        if dev.class_code.match_interface(0x0c, 0x03, 0x30) {
            found = Some(i);
            if read_vendor_id_from_dev(port, dev) == INTEL_VENDOR_ID {
                return found;
            }
        }
        i = i + 1;
    }
    found
}

/// An Intel EHCI controller stands somewhere in the table.
pub open spec fn spec_intel_ehc_exists(regs: Map<u32, u32>, devices: Seq<Device>) -> bool {
    exists|i: int|
        0 <= i < devices.len() && spec_is_ehci(#[trigger] devices[i].class_code) && spec_vendor_id(
            regs,
            devices[i].bus,
            devices[i].device,
            devices[i].function,
        ) == INTEL_VENDOR_ID
}

/// The register file after the handover: USB3_PSSEN (0xd8) takes the value
/// of USB3PRM (0xdc), and XUSB2PR (0xd0) the value of XUSB2PRM (0xd4).
pub open spec fn spec_switch_ehci_to_xhci(regs: Map<u32, u32>, xhc_dev: Device) -> Map<u32, u32> {
    regs.insert(
        spec_make_address(xhc_dev.bus, xhc_dev.device, xhc_dev.function, 0xd8),
        spec_conf_reg(regs, xhc_dev.bus, xhc_dev.device, xhc_dev.function, 0xdc),
    ).insert(
        spec_make_address(xhc_dev.bus, xhc_dev.device, xhc_dev.function, 0xd0),
        spec_conf_reg(regs, xhc_dev.bus, xhc_dev.device, xhc_dev.function, 0xd4),
    )
}

/// On a chipset with an Intel EHCI controller, routes the superspeed and
/// USB2 ports over from EHCI to the xHC by copying the two port-routing
/// masks into their control registers; otherwise does nothing.
pub fn switch_ehci_to_xhci<P: ConfigPort>(port: &mut P, table: &DeviceTable, xhc_dev: &Device)
    requires
        table.wf(),
        xhc_dev.wf(),
    ensures
        final(port).regs() == (if spec_intel_ehc_exists(old(port).regs(), table@) {
            spec_switch_ehci_to_xhci(old(port).regs(), *xhc_dev)
        } else {
            old(port).regs()
        }),
{
    let ghost regs0 = old(port).regs();
    let mut intel_ehc_exist = false;
    let n = table.num_device();
    let mut i: usize = 0;
    while i < n && !intel_ehc_exist
        invariant
            regs0 == old(port).regs(),
            table.wf(),
            n == table@.len(),
            i <= n,
            port.regs() == regs0,
            intel_ehc_exist ==> spec_intel_ehc_exists(regs0, table@),
            !intel_ehc_exist ==> (forall|j: int|
                0 <= j < i ==> !(spec_is_ehci(#[trigger] table@[j].class_code) && spec_vendor_id(
                    regs0,
                    table@[j].bus,
                    table@[j].device,
                    table@[j].function,
                ) == INTEL_VENDOR_ID)),
        decreases n - i,
    {
        let dev = table.get_device(i);
        if dev.class_code.match_interface(0x0c, 0x03, 0x20) && read_vendor_id_from_dev(port, dev)
            == INTEL_VENDOR_ID {
            intel_ehc_exist = true;
        }
        i = i + 1;
    }

    if !intel_ehc_exist {
        return ;
    }

    let superspeed_ports = read_conf_reg(port, xhc_dev, 0xdc);  // USB3PRM
    write_conf_reg(port, xhc_dev, 0xd8, superspeed_ports);  // USB3_PSSEN
    let ehci_to_xhci_ports = read_conf_reg(port, xhc_dev, 0xd4);  // XUSB2PRM
    write_conf_reg(port, xhc_dev, 0xd0, ehci_to_xhci_ports);  // XUSB2PR
    proof {
        assert(0xd4u8 & 0xfc != 0xd8u8 & 0xfc) by (bit_vector);
        lemma_make_address_distinct_regs(xhc_dev.bus, xhc_dev.device, xhc_dev.function, 0xd4, 0xd8);
    }
}

/// The memory-mapped register base a BAR encodes: the BAR value with its low
/// four control bits masked out.
pub fn mmio_base(bar: u64) -> (r: u64)
    ensures
        r == bar & 0xffff_ffff_ffff_fff0u64,
{
    bar & 0xffff_ffff_ffff_fff0u64
}

} // verus!
