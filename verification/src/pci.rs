//! PCI bus control: device identity, the fixed-capacity device table, the
//! register accessors built on the configuration port, the recursive bus
//! scanner, and base-address-register reads.

use vstd::prelude::*;

use crate::config::{read_conf_reg_at, spec_conf_reg, spec_make_address, write_conf_reg_at, ConfigPort};
use crate::error::{Code, Error};

verus! {

/// Capacity of the device table: the scan fails with `Full` past this.
pub const MAX_DEVICES: usize = 32;

/// Vendor-ID value that means "no device at this address".
pub const INVALID_VENDOR_ID: u16 = 0xffff;

/// A PCI class code: base class, sub class, interface.
#[derive(Debug, Clone, Copy, PartialEq, Eq, Structural)]
pub struct ClassCode {
    pub base: u8,
    pub sub: u8,
    pub interface: u8,
}

impl ClassCode {
    pub fn new(base: u8, sub: u8, interface: u8) -> (r: ClassCode)
        ensures
            r == (ClassCode { base, sub, interface }),
    {
        ClassCode { base, sub, interface }
    }

    /// True when the base class is `b`.
    pub open spec fn spec_match_base(&self, b: u8) -> bool {
        self.base == b
    }

    /// True when the base class is `b`.
    pub fn match_base(&self, b: u8) -> (r: bool)
        ensures
            r == self.spec_match_base(b),
    {
        b == self.base
    }

    /// True when base and sub class are `b` and `s`.
    pub open spec fn spec_match_sub(&self, b: u8, s: u8) -> bool {
        self.base == b && self.sub == s
    }

    /// True when base and sub class are `b` and `s`.
    pub fn match_sub(&self, b: u8, s: u8) -> (r: bool)
        ensures
            r == self.spec_match_sub(b, s),
    {
        self.match_base(b) && s == self.sub
    }

    /// True when base, sub and interface are `b`, `s` and `i`.
    pub open spec fn spec_match_interface(&self, b: u8, s: u8, i: u8) -> bool {
        self.base == b && self.sub == s && self.interface == i
    }

    /// True when base, sub and interface are `b`, `s` and `i`.
    pub fn match_interface(&self, b: u8, s: u8, i: u8) -> (r: bool)
        ensures
            r == self.spec_match_interface(b, s, i),
    {
        self.match_sub(b, s) && i == self.interface
    }

    /// The class code packed the way the class-code register holds it:
    /// base in bits 31:24, sub in bits 23:16, interface in bits 15:8.
    pub open spec fn spec_packed(&self) -> u32 {
        ((self.base as u32) << 24) | ((self.sub as u32) << 16) | ((self.interface as u32) << 8)
    }

    /// The class code packed as the class-code register holds it.
    pub fn packed(&self) -> (r: u32)
        ensures
            r == self.spec_packed(),
    {
        ((self.base as u32) << 24) | ((self.sub as u32) << 16) | ((self.interface as u32) << 8)
    }
}

/// One discovered PCI function. The (bus, device, function) triple is its
/// identity and is what every later register access is addressed with.
#[derive(Debug, Clone, Copy, PartialEq, Eq, Structural)]
pub struct Device {
    pub bus: u8,
    pub device: u8,
    pub function: u8,
    pub header_type: u8,
    pub class_code: ClassCode,
}

impl Device {
    /// A device number fits in 5 bits and a function number in 3: every
    /// device a scan yields satisfies this, and register accessors need it.
    pub open spec fn wf(&self) -> bool {
        self.device < 32 && self.function < 8
    }

    pub fn new(bus: u8, device: u8, function: u8, header_type: u8, class_code: ClassCode) -> (r:
        Device)
        ensures
            r == (Device { bus, device, function, header_type, class_code }),
    {
        Device { bus, device, function, header_type, class_code }
    }
}

/// The table of devices a scan discovered: a fixed-capacity sequence in
/// depth-first scan order. Appending past the capacity fails explicitly.
pub struct DeviceTable {
    devices: Vec<Device>,
}

impl View for DeviceTable {
    type V = Seq<Device>;

    closed spec fn view(&self) -> Seq<Device> {
        self.devices@
    }
}

impl DeviceTable {
    /// The table never outgrows its capacity and holds only well-formed devices.
    pub open spec fn wf(&self) -> bool {
        self@.len() <= MAX_DEVICES && (forall|i: int| 0 <= i < self@.len() ==> self@[i].wf())
    }

    /// An empty table.
    pub fn new() -> (r: DeviceTable)
        ensures
            r@ == Seq::<Device>::empty(),
            r.wf(),
    {
        DeviceTable { devices: Vec::new() }
    }

    /// Empties the table; a fresh scan starts from this.
    pub fn clear(&mut self)
        ensures
            final(self)@ == Seq::<Device>::empty(),
            final(self).wf(),
    {
        self.devices.clear();
    }

    /// The number of discovered devices.
    pub fn num_device(&self) -> (r: usize)
        ensures
            r == self@.len(),
    {
        self.devices.len()
    }

    /// The device at a position, in scan order.
    pub fn get_device(&self, idx: usize) -> (r: &Device)
        requires
            idx < self@.len(),
        ensures
            *r == self@[idx as int],
    {
        &self.devices[idx]
    }

    /// All discovered devices, in scan order.
    pub fn device(&self) -> (r: &[Device])
        ensures
            r@ == self@,
    {
        self.devices.as_slice()
    }

    /// Appends one device; fails with `Full` at capacity, leaving the
    /// table as it was.
    pub fn add_device(&mut self, device: Device) -> (r: Result<(), Error>)
        requires
            old(self).wf(),
            device.wf(),
        ensures
            final(self).wf(),
            match r {
                Ok(()) => old(self)@.len() < MAX_DEVICES && final(self)@ == old(self)@.push(device),
                Err(e) => old(self)@.len() == MAX_DEVICES && final(self)@ == old(self)@
                    && e.spec_code() == Code::Full,
            },
    {
        if self.devices.len() == MAX_DEVICES {
            return Err(Error::new(Code::Full, "pci", 0));
        }
        self.devices.push(device);
        Ok(())
    }
}

/// The vendor ID of a function: bits 15:0 of register 0x00.
pub open spec fn spec_vendor_id(regs: Map<u32, u32>, bus: u8, device: u8, function: u8) -> u16 {
    (spec_conf_reg(regs, bus, device, function, 0x00) & 0xffff) as u16
}

/// The device ID of a function: bits 31:16 of register 0x00.
pub open spec fn spec_device_id(regs: Map<u32, u32>, bus: u8, device: u8, function: u8) -> u16 {
    (spec_conf_reg(regs, bus, device, function, 0x00) >> 16) as u16
}

/// The header type of a function: bits 23:16 of register 0x0c.
pub open spec fn spec_header_type(regs: Map<u32, u32>, bus: u8, device: u8, function: u8) -> u8 {
    ((spec_conf_reg(regs, bus, device, function, 0x0c) >> 16) & 0xff) as u8
}

/// The class code of a function: bits 31:8 of register 0x08.
pub open spec fn spec_class_code(regs: Map<u32, u32>, bus: u8, device: u8, function: u8) -> ClassCode {
    let reg = spec_conf_reg(regs, bus, device, function, 0x08);
    ClassCode {
        base: ((reg >> 24) & 0xff) as u8,
        sub: ((reg >> 16) & 0xff) as u8,
        interface: ((reg >> 8) & 0xff) as u8,
    }
}

/// True when a function exists at this address: the sole existence test is
/// that the vendor ID is not the all-ones sentinel.
pub open spec fn spec_function_present(regs: Map<u32, u32>, bus: u8, device: u8, function: u8) -> bool {
    spec_vendor_id(regs, bus, device, function) != INVALID_VENDOR_ID
}

/// A header type with bit 7 clear marks a single-function device.
pub open spec fn spec_is_single_function(header_type: u8) -> bool {
    header_type & 0x80 == 0
}

/// The secondary bus number a PCI-PCI bridge forwards to: bits 15:8 of
/// register 0x18.
pub open spec fn spec_secondary_bus(regs: Map<u32, u32>, bus: u8, device: u8, function: u8) -> u8 {
    ((spec_conf_reg(regs, bus, device, function, 0x18) >> 8) & 0xff) as u8
}

/// The device record a scan builds for a function.
pub open spec fn spec_device_at(regs: Map<u32, u32>, bus: u8, device: u8, function: u8) -> Device {
    Device {
        bus,
        device,
        function,
        header_type: spec_header_type(regs, bus, device, function),
        class_code: spec_class_code(regs, bus, device, function),
    }
}

/// A standard PCI-PCI bridge: base class 0x06, sub class 0x04.
pub open spec fn spec_is_pci_bridge(class_code: ClassCode) -> bool {
    class_code.spec_match_sub(0x06, 0x04)
}

/// Reads the vendor-ID register of a function.
pub fn read_vendor_id<P: ConfigPort>(port: &mut P, bus: u8, device: u8, function: u8) -> (r: u16)
    requires
        device < 32,
        function < 8,
    ensures
        r == spec_vendor_id(old(port).regs(), bus, device, function),
        final(port).regs() == old(port).regs(),
{
    let reg = read_conf_reg_at(port, bus, device, function, 0x00);
    (reg & 0xffff) as u16
}

/// Reads the vendor-ID register of a discovered device.
pub fn read_vendor_id_from_dev<P: ConfigPort>(port: &mut P, dev: &Device) -> (r: u16)
    requires
        dev.wf(),
    ensures
        r == spec_vendor_id(old(port).regs(), dev.bus, dev.device, dev.function),
        final(port).regs() == old(port).regs(),
{
    read_vendor_id(port, dev.bus, dev.device, dev.function)
}

/// Reads the device-ID register of a function.
pub fn read_device_id<P: ConfigPort>(port: &mut P, bus: u8, device: u8, function: u8) -> (r: u16)
    requires
        device < 32,
        function < 8,
    ensures
        r == spec_device_id(old(port).regs(), bus, device, function),
        final(port).regs() == old(port).regs(),
{
    let reg = read_conf_reg_at(port, bus, device, function, 0x00);
    (reg >> 16) as u16
}

/// Reads the header-type register of a function.
pub fn read_header_type<P: ConfigPort>(port: &mut P, bus: u8, device: u8, function: u8) -> (r: u8)
    requires
        device < 32,
        function < 8,
    ensures
        r == spec_header_type(old(port).regs(), bus, device, function),
        final(port).regs() == old(port).regs(),
{
    let reg = read_conf_reg_at(port, bus, device, function, 0x0c);
    ((reg >> 16) & 0xff) as u8
}

/// Reads the class-code register of a function and decomposes it.
pub fn read_class_code<P: ConfigPort>(port: &mut P, bus: u8, device: u8, function: u8) -> (r:
    ClassCode)
    requires
        device < 32,
        function < 8,
    ensures
        r == spec_class_code(old(port).regs(), bus, device, function),
        final(port).regs() == old(port).regs(),
{
    let reg = read_conf_reg_at(port, bus, device, function, 0x08);
    ClassCode::new(((reg >> 24) & 0xff) as u8, ((reg >> 16) & 0xff) as u8, ((reg >> 8) & 0xff) as u8)
}

/// Reads the bus-numbers register (header type 1 only): bits 23:16 the
/// subordinate bus, bits 15:8 the secondary bus, bits 7:0 the revision.
pub fn read_bus_numbers<P: ConfigPort>(port: &mut P, bus: u8, device: u8, function: u8) -> (r: u32)
    requires
        device < 32,
        function < 8,
    ensures
        r == spec_conf_reg(old(port).regs(), bus, device, function, 0x18),
        final(port).regs() == old(port).regs(),
{
    read_conf_reg_at(port, bus, device, function, 0x18)
}

/// True when the header type marks a single-function device.
pub fn is_single_function_device(header_type: u8) -> (r: bool)
    ensures
        r == spec_is_single_function(header_type),
{
    header_type & 0x80 == 0
}

/// Reads a 32-bit configuration register of a discovered device.
pub fn read_conf_reg<P: ConfigPort>(port: &mut P, dev: &Device, reg_addr: u8) -> (r: u32)
    requires
        dev.wf(),
    ensures
        r == spec_conf_reg(old(port).regs(), dev.bus, dev.device, dev.function, reg_addr),
        final(port).regs() == old(port).regs(),
{
    read_conf_reg_at(port, dev.bus, dev.device, dev.function, reg_addr)
}

/// The configuration-space offset of a base address register: 0x10, 0x14,
/// ..., 0x24.
pub fn calc_bar_address(bar_index: u32) -> (r: u8)
    requires
        bar_index < 6,
    ensures
        r == 0x10 + 4 * bar_index,
{
    0x10 + 4 * (bar_index as u8)
}

/// What a base-address-register read returns: nothing for an index out of
/// range (6 and up, or 5 when that BAR is the low half of a 64-bit BAR); the
/// zero-extended 32-bit value when bit 2 is clear; and the concatenation of
/// the next register (upper half, bits 63:32) with the raw low word — its
/// control bits left in place — when bit 2 is set.
pub open spec fn spec_read_bar(regs: Map<u32, u32>, dev: Device, bar_index: u32) -> Option<u64> {
    if bar_index >= 6 {
        None
    } else {
        let bar = spec_conf_reg(
            regs,
            dev.bus,
            dev.device,
            dev.function,
            (0x10 + 4 * bar_index) as u8,
        );
        if bar & 4 == 0 {
            Some(bar as u64)
        } else if bar_index >= 5 {
            None
        } else {
            let bar_upper = spec_conf_reg(
                regs,
                dev.bus,
                dev.device,
                dev.function,
                (0x14 + 4 * bar_index) as u8,
            );
            Some(((bar_upper as u64) << 32) | (bar as u64))
        }
    }
}

/// Reads a base address register, reconstructing a 64-bit BAR from its two
/// halves; fails with `IndexOutOfRange` exactly where the index leaves the
/// BAR window.
pub fn read_bar<P: ConfigPort>(port: &mut P, device: &Device, bar_index: u32) -> (r: Result<
    u64,
    Error,
>)
    requires
        device.wf(),
    ensures
        final(port).regs() == old(port).regs(),
        match r {
            Ok(v) => spec_read_bar(old(port).regs(), *device, bar_index) == Some(v),
            Err(e) => spec_read_bar(old(port).regs(), *device, bar_index) is None
                && e.spec_code() == Code::IndexOutOfRange,
        },
{
    if bar_index >= 6 {
        return Err(Error::new(Code::IndexOutOfRange, "pci", 0));
    }

    let addr = calc_bar_address(bar_index);
    let bar = read_conf_reg(port, device, addr);

    // 32-bit address
    if bar & 4 == 0 {
        return Ok(bar as u64);
    }

    // 64-bit address
    if bar_index >= 5 {
        return Err(Error::new(Code::IndexOutOfRange, "pci", 0));
    }

    let bar_upper = read_conf_reg(port, device, addr + 4);
    Ok(((bar_upper as u64) << 32) | (bar as u64))
}

/// What one stretch of a scan finds: the devices it appends, in visitation
/// order, and whether the table filled up under it (which aborts the whole
/// scan with `Full`).
pub struct ScanOutput {
    pub devices: Seq<Device>,
    pub full: bool,
}

/// Table room left after `used` more entries went in.
pub open spec fn spec_room_after(room: nat, used: nat) -> nat {
    if used <= room {
        (room - used) as nat
    } else {
        0
    }
}

/// One function is visited: its device record goes into the table (if there
/// is room), and a PCI-PCI bridge is followed onto its secondary bus.
pub open spec fn spec_scan_function(
    regs: Map<u32, u32>,
    bus: u8,
    device: u8,
    function: u8,
    room: nat,
) -> ScanOutput
    decreases room, 1nat, 0int,
{
    if room == 0 {
        ScanOutput { devices: Seq::empty(), full: true }
    } else {
        let dev = spec_device_at(regs, bus, device, function);
        if spec_is_pci_bridge(dev.class_code) {
            let sub = spec_scan_bus(
                regs,
                spec_secondary_bus(regs, bus, device, function),
                (room - 1) as nat,
            );
            ScanOutput { devices: seq![dev] + sub.devices, full: sub.full }
        } else {
            ScanOutput { devices: seq![dev], full: false }
        }
    }
}

/// Function 0 of a device is visited first; the others only when function 0
/// announces a multi-function device, and only where present.
pub open spec fn spec_scan_device(regs: Map<u32, u32>, bus: u8, device: u8, room: nat) -> ScanOutput
    decreases room, 2nat, 9int,
{
    let first = spec_scan_function(regs, bus, device, 0, room);
    if first.full {
        first
    } else if spec_is_single_function(spec_header_type(regs, bus, device, 0)) {
        first
    } else {
        let rest = spec_scan_device_functions(
            regs,
            bus,
            device,
            1,
            spec_room_after(room, first.devices.len()),
        );
        ScanOutput { devices: first.devices + rest.devices, full: rest.full }
    }
}

/// Functions `function`..8 of a multi-function device, present ones only.
pub open spec fn spec_scan_device_functions(
    regs: Map<u32, u32>,
    bus: u8,
    device: u8,
    function: int,
    room: nat,
) -> ScanOutput
    decreases room, 2nat, 8 - function,
{
    if function < 1 || function >= 8 {
        ScanOutput { devices: Seq::empty(), full: false }
    } else if !spec_function_present(regs, bus, device, function as u8) {
        spec_scan_device_functions(regs, bus, device, function + 1, room)
    } else {
        let first = spec_scan_function(regs, bus, device, function as u8, room);
        if first.full {
            first
        } else {
            let rest = spec_scan_device_functions(
                regs,
                bus,
                device,
                function + 1,
                spec_room_after(room, first.devices.len()),
            );
            ScanOutput { devices: first.devices + rest.devices, full: rest.full }
        }
    }
}

/// All 32 device slots of one bus, in ascending order; a slot is skipped
/// when function 0 is absent.
pub open spec fn spec_scan_bus(regs: Map<u32, u32>, bus: u8, room: nat) -> ScanOutput
    decreases room, 4nat, 0int,
{
    spec_scan_bus_devices(regs, bus, 0, room)
}

/// Device slots `device`..32 of one bus.
pub open spec fn spec_scan_bus_devices(
    regs: Map<u32, u32>,
    bus: u8,
    device: int,
    room: nat,
) -> ScanOutput
    decreases room, 3nat, 32 - device,
{
    if device < 0 || device >= 32 {
        ScanOutput { devices: Seq::empty(), full: false }
    } else if !spec_function_present(regs, bus, device as u8, 0) {
        spec_scan_bus_devices(regs, bus, device + 1, room)
    } else {
        let first = spec_scan_device(regs, bus, device as u8, room);
        if first.full {
            first
        } else {
            let rest = spec_scan_bus_devices(
                regs,
                bus,
                device + 1,
                spec_room_after(room, first.devices.len()),
            );
            ScanOutput { devices: first.devices + rest.devices, full: rest.full }
        }
    }
}

/// The whole scan: bus 0 alone when the host bridge at (0,0,0) is
/// single-function; otherwise one bus per present host-bridge function,
/// bus number = function number.
pub open spec fn spec_scan_all(regs: Map<u32, u32>, room: nat) -> ScanOutput
    decreases room, 6nat, 0int,
{
    if spec_is_single_function(spec_header_type(regs, 0, 0, 0)) {
        spec_scan_bus(regs, 0, room)
    } else {
        spec_scan_all_functions(regs, 0, room)
    }
}

/// Host-bridge functions `function`..8, present ones only, each giving a
/// root bus to scan.
pub open spec fn spec_scan_all_functions(regs: Map<u32, u32>, function: int, room: nat) -> ScanOutput
    decreases room, 5nat, 8 - function,
{
    if function < 0 || function >= 8 {
        ScanOutput { devices: Seq::empty(), full: false }
    } else if !spec_function_present(regs, 0, 0, function as u8) {
        spec_scan_all_functions(regs, function + 1, room)
    } else {
        let first = spec_scan_bus(regs, function as u8, room);
        if first.full {
            first
        } else {
            let rest = spec_scan_all_functions(
                regs,
                function + 1,
                spec_room_after(room, first.devices.len()),
            );
            ScanOutput { devices: first.devices + rest.devices, full: rest.full }
        }
    }
}

/// Visits one function: appends its device record to the table and, for a
/// PCI-PCI bridge, scans the secondary bus the bridge forwards to.
fn scan_function<P: ConfigPort>(
    port: &mut P,
    table: &mut DeviceTable,
    bus: u8,
    device: u8,
    function: u8,
    room: Ghost<nat>,
) -> (r: Result<(), Error>)
    requires
        old(table).wf(),
        device < 32,
        function < 8,
        room@ == MAX_DEVICES - old(table)@.len(),
    ensures
        final(port).regs() == old(port).regs(),
        final(table).wf(),
        ({
            let out = spec_scan_function(old(port).regs(), bus, device, function, room@);
            &&& final(table)@ == old(table)@ + out.devices
            &&& match r {
                Ok(_) => !out.full,
                Err(e) => out.full && e.spec_code() == Code::Full,
            }
        }),
    decreases room@, 1nat, 0int,
{
    let class_code = read_class_code(port, bus, device, function);
    let header_type = read_header_type(port, bus, device, function);
    let dev = Device::new(bus, device, function, header_type, class_code);
    match table.add_device(dev) {
        Err(e) => {
            proof {
                assert(old(table)@ + Seq::<Device>::empty() =~= old(table)@);
            }
            Err(e)
        },
        Ok(_) => {
            if class_code.match_sub(0x06, 0x04) {
                // standard PCI-PCI bridge
                let bus_numbers = read_bus_numbers(port, bus, device, function);
                let secondary_bus = ((bus_numbers >> 8) & 0xff) as u8;
                let r = scan_bus(port, table, secondary_bus, Ghost((room@ - 1) as nat));
                proof {
                    let sub = spec_scan_bus(
                        old(port).regs(),
                        spec_secondary_bus(old(port).regs(), bus, device, function),
                        (room@ - 1) as nat,
                    );
                    assert(old(table)@.push(dev) + sub.devices =~= old(table)@ + (seq![dev]
                        + sub.devices));
                }
                r
            } else {
                proof {
                    assert(old(table)@.push(dev) =~= old(table)@ + seq![dev]);
                }
                Ok(())
            }
        },
    }
}

/// Visits one device slot: function 0 first, then — for a multi-function
/// device — the present ones among functions 1..8.
fn scan_device<P: ConfigPort>(
    port: &mut P,
    table: &mut DeviceTable,
    bus: u8,
    device: u8,
    room: Ghost<nat>,
) -> (r: Result<(), Error>)
    requires
        old(table).wf(),
        device < 32,
        room@ == MAX_DEVICES - old(table)@.len(),
    ensures
        final(port).regs() == old(port).regs(),
        final(table).wf(),
        ({
            let out = spec_scan_device(old(port).regs(), bus, device, room@);
            &&& final(table)@ == old(table)@ + out.devices
            &&& match r {
                Ok(_) => !out.full,
                Err(e) => out.full && e.spec_code() == Code::Full,
            }
        }),
    decreases room@, 2nat, 9int,
{
    match scan_function(port, table, bus, device, 0, room) {
        Err(e) => Err(e),
        Ok(_) => {
            let header_type = read_header_type(port, bus, device, 0);
            if is_single_function_device(header_type) {
                return Ok(());
            }
            let first = Ghost(spec_scan_function(old(port).regs(), bus, device, 0, room@));
            let rest_room = Ghost((MAX_DEVICES - table@.len()) as nat);
            proof {
                assert(rest_room@ == spec_room_after(room@, first@.devices.len()));
            }
            let r = scan_device_functions(port, table, bus, device, 1, rest_room);
            proof {
                let rest = spec_scan_device_functions(
                    old(port).regs(),
                    bus,
                    device,
                    1,
                    rest_room@,
                );
                assert((old(table)@ + first@.devices) + rest.devices =~= old(table)@ + (
                first@.devices + rest.devices));
            }
            r
        },
    }
}

/// Visits the present ones among functions `function`..8 of a device.
fn scan_device_functions<P: ConfigPort>(
    port: &mut P,
    table: &mut DeviceTable,
    bus: u8,
    device: u8,
    function: u8,
    room: Ghost<nat>,
) -> (r: Result<(), Error>)
    requires
        old(table).wf(),
        device < 32,
        1 <= function <= 8,
        room@ == MAX_DEVICES - old(table)@.len(),
    ensures
        final(port).regs() == old(port).regs(),
        final(table).wf(),
        ({
            let out = spec_scan_device_functions(
                old(port).regs(),
                bus,
                device,
                function as int,
                room@,
            );
            &&& final(table)@ == old(table)@ + out.devices
            &&& match r {
                Ok(_) => !out.full,
                Err(e) => out.full && e.spec_code() == Code::Full,
            }
        }),
    decreases room@, 2nat, 8 - function as int,
{
    if function == 8 {
        proof {
            assert(old(table)@ + Seq::<Device>::empty() =~= old(table)@);
        }
        return Ok(());
    }
    let vendor_id = read_vendor_id(port, bus, device, function);
    if vendor_id == INVALID_VENDOR_ID {
        return scan_device_functions(port, table, bus, device, function + 1, room);
    }
    match scan_function(port, table, bus, device, function, room) {
        Err(e) => Err(e),
        Ok(_) => {
            let first = Ghost(spec_scan_function(old(port).regs(), bus, device, function, room@));
            let rest_room = Ghost((MAX_DEVICES - table@.len()) as nat);
            proof {
                assert(rest_room@ == spec_room_after(room@, first@.devices.len()));
            }
            let r = scan_device_functions(port, table, bus, device, function + 1, rest_room);
            proof {
                let rest = spec_scan_device_functions(
                    old(port).regs(),
                    bus,
                    device,
                    function as int + 1,
                    rest_room@,
                );
                assert((old(table)@ + first@.devices) + rest.devices =~= old(table)@ + (
                first@.devices + rest.devices));
            }
            r
        },
    }
}

/// Scans one bus: every present device slot, ascending.
fn scan_bus<P: ConfigPort>(port: &mut P, table: &mut DeviceTable, bus: u8, room: Ghost<nat>) -> (r:
    Result<(), Error>)
    requires
        old(table).wf(),
        room@ == MAX_DEVICES - old(table)@.len(),
    ensures
        final(port).regs() == old(port).regs(),
        final(table).wf(),
        ({
            let out = spec_scan_bus(old(port).regs(), bus, room@);
            &&& final(table)@ == old(table)@ + out.devices
            &&& match r {
                Ok(_) => !out.full,
                Err(e) => out.full && e.spec_code() == Code::Full,
            }
        }),
    decreases room@, 4nat, 0int,
{
    scan_bus_devices(port, table, bus, 0, room)
}

/// Scans the present ones among device slots `device`..32 of a bus.
fn scan_bus_devices<P: ConfigPort>(
    port: &mut P,
    table: &mut DeviceTable,
    bus: u8,
    device: u8,
    room: Ghost<nat>,
) -> (r: Result<(), Error>)
    requires
        old(table).wf(),
        device <= 32,
        room@ == MAX_DEVICES - old(table)@.len(),
    ensures
        final(port).regs() == old(port).regs(),
        final(table).wf(),
        ({
            let out = spec_scan_bus_devices(old(port).regs(), bus, device as int, room@);
            &&& final(table)@ == old(table)@ + out.devices
            &&& match r {
                Ok(_) => !out.full,
                Err(e) => out.full && e.spec_code() == Code::Full,
            }
        }),
    decreases room@, 3nat, 32 - device as int,
{
    if device == 32 {
        proof {
            assert(old(table)@ + Seq::<Device>::empty() =~= old(table)@);
        }
        return Ok(());
    }
    let vendor_id = read_vendor_id(port, bus, device, 0);
    if vendor_id == INVALID_VENDOR_ID {
        return scan_bus_devices(port, table, bus, device + 1, room);
    }
    match scan_device(port, table, bus, device, room) {
        Err(e) => Err(e),
        Ok(_) => {
            let first = Ghost(spec_scan_device(old(port).regs(), bus, device, room@));
            let rest_room = Ghost((MAX_DEVICES - table@.len()) as nat);
            proof {
                assert(rest_room@ == spec_room_after(room@, first@.devices.len()));
            }
            let r = scan_bus_devices(port, table, bus, device + 1, rest_room);
            proof {
                let rest = spec_scan_bus_devices(
                    old(port).regs(),
                    bus,
                    device as int + 1,
                    rest_room@,
                );
                assert((old(table)@ + first@.devices) + rest.devices =~= old(table)@ + (
                first@.devices + rest.devices));
            }
            r
        },
    }
}

/// Scans the present ones among host-bridge functions `function`..8, each
/// rooting the bus whose number is the function number.
fn scan_all_functions<P: ConfigPort>(
    port: &mut P,
    table: &mut DeviceTable,
    function: u8,
    room: Ghost<nat>,
) -> (r: Result<(), Error>)
    requires
        old(table).wf(),
        function <= 8,
        room@ == MAX_DEVICES - old(table)@.len(),
    ensures
        final(port).regs() == old(port).regs(),
        final(table).wf(),
        ({
            let out = spec_scan_all_functions(old(port).regs(), function as int, room@);
            &&& final(table)@ == old(table)@ + out.devices
            &&& match r {
                Ok(_) => !out.full,
                Err(e) => out.full && e.spec_code() == Code::Full,
            }
        }),
    decreases room@, 5nat, 8 - function as int,
{
    if function == 8 {
        proof {
            assert(old(table)@ + Seq::<Device>::empty() =~= old(table)@);
        }
        return Ok(());
    }
    let vendor_id = read_vendor_id(port, 0, 0, function);
    if vendor_id == INVALID_VENDOR_ID {
        return scan_all_functions(port, table, function + 1, room);
    }
    match scan_bus(port, table, function, room) {
        Err(e) => Err(e),
        Ok(_) => {
            let first = Ghost(spec_scan_bus(old(port).regs(), function, room@));
            let rest_room = Ghost((MAX_DEVICES - table@.len()) as nat);
            proof {
                assert(rest_room@ == spec_room_after(room@, first@.devices.len()));
            }
            let r = scan_all_functions(port, table, function + 1, rest_room);
            proof {
                let rest = spec_scan_all_functions(
                    old(port).regs(),
                    function as int + 1,
                    rest_room@,
                );
                assert((old(table)@ + first@.devices) + rest.devices =~= old(table)@ + (
                first@.devices + rest.devices));
            }
            r
        },
    }
}

/// Rebuilds the device table wholesale: empties it, then walks the bus tree
/// depth-first from the host bridge, recursing through PCI-PCI bridges. The
/// table ends up holding exactly the devices the register file describes, in
/// visitation order; a table that fills up aborts the scan with `Full`.
pub fn scan_all_bus<P: ConfigPort>(port: &mut P, table: &mut DeviceTable) -> (r: Result<(), Error>)
    ensures
        final(port).regs() == old(port).regs(),
        final(table).wf(),
        ({
            let out = spec_scan_all(old(port).regs(), MAX_DEVICES as nat);
            &&& final(table)@ == out.devices
            &&& match r {
                Ok(_) => !out.full,
                Err(e) => out.full && e.spec_code() == Code::Full,
            }
        }),
{
    table.clear();
    let header_type = read_header_type(port, 0, 0, 0);
    let r = if is_single_function_device(header_type) {
        scan_bus(port, table, 0, Ghost(MAX_DEVICES as nat))
    } else {
        scan_all_functions(port, table, 0, Ghost(MAX_DEVICES as nat))
    };
    proof {
        let out = spec_scan_all(old(port).regs(), MAX_DEVICES as nat);
        assert(Seq::<Device>::empty() + out.devices =~= out.devices);
    }
    r
}

/// Writes a 32-bit configuration register of a discovered device.
pub fn write_conf_reg<P: ConfigPort>(port: &mut P, dev: &Device, reg_addr: u8, value: u32)
    requires
        dev.wf(),
    ensures
        final(port).regs() == old(port).regs().insert(
            spec_make_address(dev.bus, dev.device, dev.function, reg_addr),
            value,
        ),
{
    write_conf_reg_at(port, dev.bus, dev.device, dev.function, reg_addr, value)
}

} // verus!
