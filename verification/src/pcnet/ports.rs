//! The card's I/O window: its direct ports and its indirect register files.

use vstd::prelude::*;
use crate::pci::comms::PortOp;

verus! {

/// The first four bytes of the address PROM.
pub const APROM0: u16 = 0x00;

/// The next four bytes of the address PROM.
pub const APROM4: u16 = 0x04;

/// The register data port, and the data window of the control and status
/// registers.
pub const RDP: u16 = 0x10;

/// The register address pointer, which selects the register that the data
/// windows show.
pub const RAP: u16 = 0x14;

/// The port whose sixteen-bit read resets the card.
pub const RESET16: u16 = 0x14;

/// The port whose thirty-two-bit read resets the card.
pub const RESET32: u16 = 0x18;

/// The data window of the bus control registers.
pub const BDP: u16 = 0x1c;

/// The base port that BAR0 names: its low sixteen bits without the lowest
/// two.
pub open spec fn spec_io_base(bar0: u32) -> u16 {
    (bar0 & 0xffff_fffc) as u16
}

/// The MAC address in the two address PROM dwords: the four bytes of the
/// first, lowest first, then the two low bytes of the second.
pub open spec fn spec_mac_address(low: u32, high: u32) -> Seq<u8> {
    seq![
        (low & 0xff) as u8,
        ((low >> 8) & 0xff) as u8,
        ((low >> 16) & 0xff) as u8,
        ((low >> 24) & 0xff) as u8,
        (high & 0xff) as u8,
        ((high >> 8) & 0xff) as u8,
    ]
}

/// The card's I/O window, by its base port. Every accessor gives the port
/// accesses to perform, in order; an access to an indirect register selects
/// the register first.
#[derive(Debug, Clone, Copy, PartialEq, Eq, Structural)]
pub struct IoPorts {
    pub io_base: u16,
}

impl IoPorts {
    /// The whole window lies within the port space.
    pub open spec fn wf(&self) -> bool {
        self.io_base <= u16::MAX - BDP
    }

    /// The window at `io_base`, or nothing where the window would run past
    /// the end of the port space.
    pub fn new(io_base: u16) -> (ports: Option<Self>)
        ensures
            ports is Some <==> io_base <= u16::MAX - BDP,
            ports is Some ==> ports->0.io_base == io_base && ports->0.wf(),
    {
        if io_base <= u16::MAX - BDP {
            Some(IoPorts { io_base })
        } else {
            None
        }
    }

    /// The base port that BAR0 names.
    pub fn base_of_bar0(bar0: u32) -> (io_base: u16)
        ensures
            io_base == spec_io_base(bar0),
    {
        (bar0 & 0xffff_fffc) as u16
    }

    /// Reads the first dword of the address PROM.
    pub fn read_aprom0(&self) -> (ops: [PortOp; 1])
        requires
            self.wf(),
        ensures
            ops@ == seq![PortOp::Read32 { port: (self.io_base + APROM0) as u16 }],
    {
        [PortOp::Read32 { port: self.io_base + APROM0 }]
    }

    /// Reads the second dword of the address PROM.
    pub fn read_aprom4(&self) -> (ops: [PortOp; 1])
        requires
            self.wf(),
        ensures
            ops@ == seq![PortOp::Read32 { port: (self.io_base + APROM4) as u16 }],
    {
        [PortOp::Read32 { port: self.io_base + APROM4 }]
    }

    /// Resets the card through the thirty-two-bit reset port.
    pub fn read_reset32(&self) -> (ops: [PortOp; 1])
        requires
            self.wf(),
        ensures
            ops@ == seq![PortOp::Read32 { port: (self.io_base + RESET32) as u16 }],
    {
        [PortOp::Read32 { port: self.io_base + RESET32 }]
    }

    /// Resets the card through the sixteen-bit reset port.
    pub fn read_reset16(&self) -> (ops: [PortOp; 1])
        requires
            self.wf(),
        ensures
            ops@ == seq![PortOp::Read16 { port: (self.io_base + RESET16) as u16 }],
    {
        [PortOp::Read16 { port: self.io_base + RESET16 }]
    }

    /// Selects the register that the data windows show.
    pub fn write_rap32(&self, value: u32) -> (ops: [PortOp; 1])
        requires
            self.wf(),
        ensures
            ops@ == seq![PortOp::Write32 { port: (self.io_base + RAP) as u16, value: value }],
    {
        [PortOp::Write32 { port: self.io_base + RAP, value }]
    }

    /// Writes the register data port.
    pub fn write_rdp32(&self, value: u32) -> (ops: [PortOp; 1])
        requires
            self.wf(),
        ensures
            ops@ == seq![PortOp::Write32 { port: (self.io_base + RDP) as u16, value: value }],
    {
        [PortOp::Write32 { port: self.io_base + RDP, value }]
    }

    /// Reads a control and status register.
    pub fn read_csr32(&self, csr_no: u32) -> (ops: [PortOp; 2])
        requires
            self.wf(),
        ensures
            ops@ == seq![
                PortOp::Write32 { port: (self.io_base + RAP) as u16, value: csr_no },
                PortOp::Read32 { port: (self.io_base + RDP) as u16 },
            ],
    {
        [PortOp::Write32 { port: self.io_base + RAP, value: csr_no }, PortOp::Read32 { port: self.io_base + RDP }]
    }

    /// Writes a control and status register.
    pub fn write_csr32(&self, csr_no: u32, value: u32) -> (ops: [PortOp; 2])
        requires
            self.wf(),
        ensures
            ops@ == seq![
                PortOp::Write32 { port: (self.io_base + RAP) as u16, value: csr_no },
                PortOp::Write32 { port: (self.io_base + RDP) as u16, value: value },
            ],
    {
        [
            PortOp::Write32 { port: self.io_base + RAP, value: csr_no },
            PortOp::Write32 { port: self.io_base + RDP, value },
        ]
    }

    /// Reads a bus control register.
    pub fn read_bcr32(&self, bcr_no: u32) -> (ops: [PortOp; 2])
        requires
            self.wf(),
        ensures
            ops@ == seq![
                PortOp::Write32 { port: (self.io_base + RAP) as u16, value: bcr_no },
                PortOp::Read32 { port: (self.io_base + BDP) as u16 },
            ],
    {
        [PortOp::Write32 { port: self.io_base + RAP, value: bcr_no }, PortOp::Read32 { port: self.io_base + BDP }]
    }

    /// Writes a bus control register.
    pub fn write_bcr32(&self, bcr_no: u32, value: u32) -> (ops: [PortOp; 2])
        requires
            self.wf(),
        ensures
            ops@ == seq![
                PortOp::Write32 { port: (self.io_base + RAP) as u16, value: bcr_no },
                PortOp::Write32 { port: (self.io_base + BDP) as u16, value: value },
            ],
    {
        [
            PortOp::Write32 { port: self.io_base + RAP, value: bcr_no },
            PortOp::Write32 { port: self.io_base + BDP, value },
        ]
    }

    /// The MAC address in the two address PROM dwords that `read_aprom0` and
    /// `read_aprom4` ask for.
    pub fn read_mac_address(aprom0: u32, aprom4: u32) -> (mac: [u8; 6])
        ensures
            mac@ == spec_mac_address(aprom0, aprom4),
    {
        [
            (aprom0 & 0xff) as u8,
            ((aprom0 >> 8) & 0xff) as u8,
            ((aprom0 >> 16) & 0xff) as u8,
            ((aprom0 >> 24) & 0xff) as u8,
            (aprom4 & 0xff) as u8,
            ((aprom4 >> 8) & 0xff) as u8,
        ]
    }
}

} // verus!
