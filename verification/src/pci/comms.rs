//! Configuration-space transport through the two legacy I/O ports.

use vstd::prelude::*;

verus! {

/// The port that takes the address of a configuration dword.
pub const CONFIG_ADDRESS: u16 = 0xCF8;

/// The port through which the addressed configuration dword is read or written.
pub const CONFIG_DATA: u16 = 0xCFC;

/// One access to an I/O port.
#[derive(Debug, Clone, Copy, PartialEq, Eq, Structural)]
pub enum PortOp {
    /// Read sixteen bits from the port.
    Read16 { port: u16 },
    /// Read thirty-two bits from the port.
    Read32 { port: u16 },
    /// Write thirty-two bits to the port.
    Write32 { port: u16, value: u32 },
}

/// The address dword that selects `offset` within the configuration space of
/// a function: the enable bit, then bus, device and function, then the offset
/// forced to a dword boundary.
pub open spec fn spec_address(bus: u8, device: u8, function: u8, offset: u8) -> u32 {
    0x8000_0000u32 | ((bus as u32) << 16) | ((device as u32) << 11) | ((function as u32) << 8) | ((offset & 0xFC) as u32)
}

/// Forms the address dword for a configuration access.
pub fn get_address(bus: u8, device: u8, function: u8, offset: u8) -> (address: u32)
    ensures
        address == spec_address(bus, device, function, offset),
{
    let offset = offset & 0xFC;
    0x8000_0000u32 | ((bus as u32) << 16) | ((device as u32) << 11) | ((function as u32) << 8) | (offset as u32)
}

/// The two port accesses that read one configuration dword: the address goes
/// to `CONFIG_ADDRESS`, the value comes from `CONFIG_DATA`.
pub fn config_read(bus: u8, device: u8, function: u8, offset: u8) -> (ops: [PortOp; 2])
    ensures
        ops@ == seq![
            PortOp::Write32 { port: CONFIG_ADDRESS, value: spec_address(bus, device, function, offset) },
            PortOp::Read32 { port: CONFIG_DATA },
        ],
{
    let address = get_address(bus, device, function, offset);
    [PortOp::Write32 { port: CONFIG_ADDRESS, value: address }, PortOp::Read32 { port: CONFIG_DATA }]
}

/// The two port accesses that write one configuration dword: the address goes
/// to `CONFIG_ADDRESS`, the value to `CONFIG_DATA`.
pub fn config_write(bus: u8, device: u8, function: u8, offset: u8, value: u32) -> (ops: [PortOp; 2])
    ensures
        ops@ == seq![
            PortOp::Write32 { port: CONFIG_ADDRESS, value: spec_address(bus, device, function, offset) },
            PortOp::Write32 { port: CONFIG_DATA, value: value },
        ],
{
    let address = get_address(bus, device, function, offset);
    [PortOp::Write32 { port: CONFIG_ADDRESS, value: address }, PortOp::Write32 { port: CONFIG_DATA, value }]
}

/// The address dword always carries the enable bit and a dword-aligned
/// offset, and holds bus, device, function and offset in separate bit fields
/// whenever device and function are in range.
pub proof fn lemma_address_fields(bus: u8, device: u8, function: u8, offset: u8)
    requires
        device < 32,
        function < 8,
    ensures
        spec_address(bus, device, function, offset) & 0x8000_0000 == 0x8000_0000,
        spec_address(bus, device, function, offset) & 0x3 == 0,
        (spec_address(bus, device, function, offset) >> 16) & 0xFF == bus,
        (spec_address(bus, device, function, offset) >> 11) & 0x1F == device,
        (spec_address(bus, device, function, offset) >> 8) & 0x7 == function,
        spec_address(bus, device, function, offset) & 0xFF == offset & 0xFC,
        spec_address(bus, device, function, offset) & 0x7F00_0000 == 0,
{
    let a = spec_address(bus, device, function, offset);
    assert(a == 0x8000_0000u32 | ((bus as u32) << 16) | ((device as u32) << 11) | ((function as u32) << 8) | ((offset & 0xFC) as u32));
    assert(device < 32 && function < 8 && a == 0x8000_0000u32 | ((bus as u32) << 16) | ((device as u32) << 11) | ((function as u32) << 8) | ((offset & 0xFC) as u32) ==> {
        &&& a & 0x8000_0000 == 0x8000_0000
        &&& a & 0x3 == 0
        &&& (a >> 16) & 0xFF == bus
        &&& (a >> 11) & 0x1F == device
        &&& (a >> 8) & 0x7 == function
        &&& a & 0xFF == offset & 0xFC
        &&& a & 0x7F00_0000 == 0
    }) by (bit_vector);
}

} // verus!
