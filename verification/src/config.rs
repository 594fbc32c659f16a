//! The PCI configuration-space access mechanism: packing of CONFIG_ADDRESS
//! values and the two-port address/data protocol, abstracted as a port
//! behind which a register file lives.

use vstd::prelude::*;

verus! {

/// The CONFIG_ADDRESS value selecting `reg_addr` of (`bus`, `device`,
/// `function`): bit 31 = enable, bits 23:16 = bus, bits 15:11 = device,
/// bits 10:8 = function, bits 7:0 = register with the low two bits forced
/// to zero (register accesses are always 4-byte aligned).
pub open spec fn spec_make_address(bus: u8, device: u8, function: u8, reg_addr: u8) -> u32 {
    0x8000_0000u32 | ((bus as u32) << 16) | ((device as u32) << 11) | ((function as u32) << 8)
        | ((reg_addr as u32) & 0xfc)
}

/// Builds the CONFIG_ADDRESS value for a register of a function.
pub fn make_address(bus: u8, device: u8, function: u8, reg_addr: u8) -> (r: u32)
    requires
        device < 32,
        function < 8,
    ensures
        r == spec_make_address(bus, device, function, reg_addr),
{
    0x8000_0000u32 | ((bus as u32) << 16) | ((device as u32) << 11) | ((function as u32) << 8)
        | ((reg_addr as u32) & 0xfc)
}

/// Unpacking a packed CONFIG_ADDRESS recovers the bus, device and function
/// numbers and the register offset with its low two bits cleared, and the
/// enable bit is always set.
pub proof fn lemma_make_address_round_trip(bus: u8, device: u8, function: u8, reg_addr: u8)
    requires
        device < 32,
        function < 8,
    ensures
        (spec_make_address(bus, device, function, reg_addr) >> 16) & 0xff == bus as u32,
        (spec_make_address(bus, device, function, reg_addr) >> 11) & 0x1f == device as u32,
        (spec_make_address(bus, device, function, reg_addr) >> 8) & 0x7 == function as u32,
        spec_make_address(bus, device, function, reg_addr) & 0xff == (reg_addr as u32) & 0xfc,
        spec_make_address(bus, device, function, reg_addr) >> 31 == 1u32,
{
    assert((spec_make_address(bus, device, function, reg_addr) >> 16) & 0xff == bus as u32
        && (spec_make_address(bus, device, function, reg_addr) >> 11) & 0x1f == device as u32
        && (spec_make_address(bus, device, function, reg_addr) >> 8) & 0x7 == function as u32
        && spec_make_address(bus, device, function, reg_addr) & 0xff == (reg_addr as u32) & 0xfc
        && spec_make_address(bus, device, function, reg_addr) >> 31 == 1u32) by (bit_vector)
        requires
            device < 32,
            function < 8,
    ;
}

/// Addresses of distinct (aligned) registers of one function are distinct.
pub proof fn lemma_make_address_distinct_regs(
    bus: u8,
    device: u8,
    function: u8,
    reg_a: u8,
    reg_b: u8,
)
    requires
        device < 32,
        function < 8,
        reg_a & 0xfc != reg_b & 0xfc,
    ensures
        spec_make_address(bus, device, function, reg_a) != spec_make_address(
            bus,
            device,
            function,
            reg_b,
        ),
{
    assert(spec_make_address(bus, device, function, reg_a) != spec_make_address(
        bus,
        device,
        function,
        reg_b,
    )) by (bit_vector)
        requires
            device < 32,
            function < 8,
            reg_a & 0xfc != reg_b & 0xfc,
    ;
}

/// The port pair through which PCI configuration space is reached: one port
/// latches a CONFIG_ADDRESS value, the other reads or writes the 32-bit
/// register the latched address selects. The abstract state is the latched
/// address and the register file keyed by CONFIG_ADDRESS value.
pub trait ConfigPort: Sized {
    /// The register file reached through the port, keyed by CONFIG_ADDRESS value.
    spec fn regs(&self) -> Map<u32, u32>;

    /// The CONFIG_ADDRESS value latched by the last address write.
    spec fn latched(&self) -> u32;

    /// Latches an address; the register file is untouched.
    fn write_address(&mut self, address: u32)
        ensures
            final(self).latched() == address,
            final(self).regs() == old(self).regs(),
    ;

    /// Reads the register the latched address selects.
    fn read_data(&self) -> (r: u32)
        ensures
            r == self.regs()[self.latched()],
    ;

    /// Writes the register the latched address selects.
    fn write_data(&mut self, value: u32)
        ensures
            final(self).latched() == old(self).latched(),
            final(self).regs() == old(self).regs().insert(old(self).latched(), value),
    ;
}

/// The register of (`bus`, `device`, `function`) at `reg_addr`, as the
/// two-port protocol reads it from register file `regs`.
pub open spec fn spec_conf_reg(
    regs: Map<u32, u32>,
    bus: u8,
    device: u8,
    function: u8,
    reg_addr: u8,
) -> u32 {
    regs[spec_make_address(bus, device, function, reg_addr)]
}

/// Reads one 32-bit configuration register: latch the address, read the data port.
pub fn read_conf_reg_at<P: ConfigPort>(
    port: &mut P,
    bus: u8,
    device: u8,
    function: u8,
    reg_addr: u8,
) -> (r: u32)
    requires
        device < 32,
        function < 8,
    ensures
        r == spec_conf_reg(old(port).regs(), bus, device, function, reg_addr),
        final(port).regs() == old(port).regs(),
{
    let address = make_address(bus, device, function, reg_addr);
    port.write_address(address);
    port.read_data()
}

/// Writes one 32-bit configuration register: latch the address, write the data port.
pub fn write_conf_reg_at<P: ConfigPort>(
    port: &mut P,
    bus: u8,
    device: u8,
    function: u8,
    reg_addr: u8,
    value: u32,
)
    requires
        device < 32,
        function < 8,
    ensures
        final(port).regs() == old(port).regs().insert(
            spec_make_address(bus, device, function, reg_addr),
            value,
        ),
{
    let address = make_address(bus, device, function, reg_addr);
    port.write_address(address);
    port.write_data(value);
}

/// The value a read of an absent register returns: all ones, which is also
/// the "no device here" vendor-ID sentinel.
pub const ABSENT_REGISTER: u32 = 0xffff_ffff;

/// First value bound to `address` in an association list of register
/// assignments; absent registers read as all ones.
pub open spec fn spec_assoc_lookup(entries: Seq<(u32, u32)>, address: u32) -> u32
    decreases entries.len(),
{
    if entries.len() == 0 {
        ABSENT_REGISTER
    } else if entries[0].0 == address {
        entries[0].1
    } else {
        spec_assoc_lookup(entries.drop_first(), address)
    }
}

/// A configuration port backed by ordinary memory: a register file held as an
/// association list, newest assignment first. Registers never assigned read
/// as all ones, the way probing an empty slot on real hardware does. This is
/// the port used to drive the scanner over a synthetic bus.
pub struct MemConfigPort {
    address: u32,
    entries: Vec<(u32, u32)>,
}

impl MemConfigPort {
    /// A port over an empty register file: every register reads as all ones.
    pub fn new() -> (r: MemConfigPort)
        ensures
            r.regs() == Map::<u32, u32>::new(|a: u32| true, |a: u32| ABSENT_REGISTER),
            r.latched() == 0u32,
    {
        let r = MemConfigPort { address: 0, entries: Vec::new() };
        proof {
            assert(r.regs() =~= Map::<u32, u32>::new(|a: u32| true, |a: u32| ABSENT_REGISTER));
        }
        r
    }

    /// Assigns a register of a function, as a synthetic bus is built up.
    pub fn set_reg(&mut self, bus: u8, device: u8, function: u8, reg_addr: u8, value: u32)
        requires
            device < 32,
            function < 8,
        ensures
            final(self).regs() == old(self).regs().insert(
                spec_make_address(bus, device, function, reg_addr),
                value,
            ),
            final(self).latched() == old(self).latched(),
    {
        let address = make_address(bus, device, function, reg_addr);
        self.entries.insert(0, (address, value));
        proof {
            assert(self.entries@[0] == (address, value));
            assert(self.entries@.drop_first() =~= old(self).entries@);
            assert(self.regs() =~= old(self).regs().insert(
                spec_make_address(bus, device, function, reg_addr),
                value,
            ));
        }
    }
}

impl ConfigPort for MemConfigPort {
    closed spec fn regs(&self) -> Map<u32, u32> {
        Map::new(|a: u32| true, |a: u32| spec_assoc_lookup(self.entries@, a))
    }

    closed spec fn latched(&self) -> u32 {
        self.address
    }

    fn write_address(&mut self, address: u32) {
        self.address = address;
        proof {
            assert(self.regs() =~= old(self).regs());
        }
    }

    fn read_data(&self) -> (r: u32) {
        let mut i: usize = 0;
        proof {
            assert(self.entries@.skip(0) =~= self.entries@);
        }
        while i < self.entries.len()
            invariant
                i <= self.entries@.len(),
                spec_assoc_lookup(self.entries@, self.address) == spec_assoc_lookup(
                    self.entries@.skip(i as int),
                    self.address,
                ),
            decreases self.entries@.len() - i,
        {
            let (a, v) = self.entries[i];
            proof {
                assert(self.entries@.skip(i as int).drop_first() =~= self.entries@.skip(
                    i as int + 1,
                ));
            }
            if a == self.address {
                assert(self.entries@.skip(i as int)[0] == self.entries@[i as int]);
                return v;
            }
            i = i + 1;
        }
        proof {
            assert(self.entries@.skip(i as int).len() == 0);
        }
        ABSENT_REGISTER
    }

    fn write_data(&mut self, value: u32) {
        let address = self.address;
        self.entries.insert(0, (address, value));
        proof {
            assert(self.entries@[0] == (address, value));
            assert(self.entries@.drop_first() =~= old(self).entries@);
            assert(self.regs() =~= old(self).regs().insert(old(self).latched(), value));
        }
    }
}

} // verus!
