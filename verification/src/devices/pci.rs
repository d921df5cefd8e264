//! The brief listing: of each function only the signature and the class,
//! with the best-known vendors and classes by name.

use vstd::prelude::*;
use vstd::string::StringExecFns;
use crate::pci::model::{spec_address_text, PciDeviceAddress};
use crate::shortcuts::{push_lower_hex, spec_lower_hex};

verus! {

/// The vendors that the brief listing names.
#[allow(non_camel_case_types)]
#[derive(Debug, Clone, Copy, PartialEq, Eq, Structural)]
pub enum PCI_VENDOR_ID {
    AdvancedMicroDevices,
    Intel,
    Realtek,
}

/// A vendor: one that the brief listing names, or its code.
#[derive(Debug, Clone, Copy, PartialEq, Eq, Structural)]
pub enum PciVendor {
    Known(PCI_VENDOR_ID),
    Unknown(u16),
}

/// The classes that the brief listing names.
#[allow(non_camel_case_types)]
#[derive(Debug, Clone, Copy, PartialEq, Eq, Structural)]
pub enum PCI_DEVICE_CLASS {
    Unclassified,
    MassStorageController,
    NetworkController,
    DisplayController,
    MultimediaController,
    MemoryController,
    Bridge,
}

/// A class: one that the brief listing names, or its code.
#[derive(Debug, Clone, Copy, PartialEq, Eq, Structural)]
pub enum PciDeviceClass {
    Known(PCI_DEVICE_CLASS),
    Unknown(u8),
}

/// The brief record of a function.
#[derive(Debug, Clone, Copy, PartialEq, Eq, Structural)]
pub struct PciDevice {
    pub vendor: u16,
    pub device: u16,
    pub class: u8,
}

impl PCI_VENDOR_ID {
    /// The vendor's code.
    pub open spec fn spec_code(self) -> u16 {
        match self {
            PCI_VENDOR_ID::AdvancedMicroDevices => 0x1022,
            PCI_VENDOR_ID::Intel => 0x8086,
            PCI_VENDOR_ID::Realtek => 0x10EC,
        }
    }

    /// The vendor's name as it is printed.
    pub open spec fn spec_name(self) -> Seq<char> {
        match self {
            PCI_VENDOR_ID::AdvancedMicroDevices => "AdvancedMicroDevices"@,
            PCI_VENDOR_ID::Intel => "Intel"@,
            PCI_VENDOR_ID::Realtek => "Realtek"@,
        }
    }

    /// The vendor's name as it is printed.
    pub fn name(self) -> (name: &'static str)
        ensures
            name@ == self.spec_name(),
    {
        match self {
            PCI_VENDOR_ID::AdvancedMicroDevices => "AdvancedMicroDevices",
            PCI_VENDOR_ID::Intel => "Intel",
            PCI_VENDOR_ID::Realtek => "Realtek",
        }
    }
}

impl PCI_DEVICE_CLASS {
    /// The class's code.
    pub open spec fn spec_code(self) -> u8 {
        match self {
            PCI_DEVICE_CLASS::Unclassified => 0x00,
            PCI_DEVICE_CLASS::MassStorageController => 0x01,
            PCI_DEVICE_CLASS::NetworkController => 0x02,
            PCI_DEVICE_CLASS::DisplayController => 0x03,
            PCI_DEVICE_CLASS::MultimediaController => 0x04,
            PCI_DEVICE_CLASS::MemoryController => 0x05,
            PCI_DEVICE_CLASS::Bridge => 0x06,
        }
    }

    /// The class's name as it is printed.
    pub open spec fn spec_name(self) -> Seq<char> {
        match self {
            PCI_DEVICE_CLASS::Unclassified => "Unclassified"@,
            PCI_DEVICE_CLASS::MassStorageController => "MassStorageController"@,
            PCI_DEVICE_CLASS::NetworkController => "NetworkController"@,
            PCI_DEVICE_CLASS::DisplayController => "DisplayController"@,
            PCI_DEVICE_CLASS::MultimediaController => "MultimediaController"@,
            PCI_DEVICE_CLASS::MemoryController => "MemoryController"@,
            PCI_DEVICE_CLASS::Bridge => "Bridge"@,
        }
    }

    /// The class's name as it is printed.
    pub fn name(self) -> (name: &'static str)
        ensures
            name@ == self.spec_name(),
    {
        match self {
            PCI_DEVICE_CLASS::Unclassified => "Unclassified",
            PCI_DEVICE_CLASS::MassStorageController => "MassStorageController",
            PCI_DEVICE_CLASS::NetworkController => "NetworkController",
            PCI_DEVICE_CLASS::DisplayController => "DisplayController",
            PCI_DEVICE_CLASS::MultimediaController => "MultimediaController",
            PCI_DEVICE_CLASS::MemoryController => "MemoryController",
            PCI_DEVICE_CLASS::Bridge => "Bridge",
        }
    }
}

/// The vendor that a code stands for.
pub open spec fn spec_vendor(code: u16) -> PciVendor {
    if code == 0x1022 {
        PciVendor::Known(PCI_VENDOR_ID::AdvancedMicroDevices)
    } else if code == 0x8086 {
        PciVendor::Known(PCI_VENDOR_ID::Intel)
    } else if code == 0x10EC {
        PciVendor::Known(PCI_VENDOR_ID::Realtek)
    } else {
        PciVendor::Unknown(code)
    }
}

/// The class that a code stands for.
pub open spec fn spec_class(code: u8) -> PciDeviceClass {
    if code == 0x00 {
        PciDeviceClass::Known(PCI_DEVICE_CLASS::Unclassified)
    } else if code == 0x01 {
        PciDeviceClass::Known(PCI_DEVICE_CLASS::MassStorageController)
    } else if code == 0x02 {
        PciDeviceClass::Known(PCI_DEVICE_CLASS::NetworkController)
    } else if code == 0x03 {
        PciDeviceClass::Known(PCI_DEVICE_CLASS::DisplayController)
    } else if code == 0x04 {
        PciDeviceClass::Known(PCI_DEVICE_CLASS::MultimediaController)
    } else if code == 0x05 {
        PciDeviceClass::Known(PCI_DEVICE_CLASS::MemoryController)
    } else if code == 0x06 {
        PciDeviceClass::Known(PCI_DEVICE_CLASS::Bridge)
    } else {
        PciDeviceClass::Unknown(code)
    }
}

/// A vendor as it is printed: a known one by name, an unknown one by its
/// code in hexadecimal.
pub open spec fn spec_vendor_text(vendor: PciVendor) -> Seq<char> {
    match vendor {
        PciVendor::Known(id) => "Known("@ + id.spec_name() + ")"@,
        PciVendor::Unknown(code) => "Unknown(0x"@ + spec_lower_hex(code as nat) + ")"@,
    }
}

/// A class as it is printed: a known one by name, an unknown one by its code
/// in hexadecimal.
pub open spec fn spec_class_text(class: PciDeviceClass) -> Seq<char> {
    match class {
        PciDeviceClass::Known(id) => "Known("@ + id.spec_name() + ")"@,
        PciDeviceClass::Unknown(code) => "Unknown(0x"@ + spec_lower_hex(code as nat) + ")"@,
    }
}

/// A brief record as it is printed.
pub open spec fn spec_device_text(device: PciDevice) -> Seq<char> {
    "PciDevice { vendor: "@ + spec_vendor_text(spec_vendor(device.vendor)) + ", device: 0x"@ + spec_lower_hex(
        device.device as nat,
    ) + ", class: "@ + spec_class_text(spec_class(device.class)) + " }"@
}

/// The brief record in a signature dword and a class dword: nothing where
/// the signature is all ones.
pub open spec fn spec_read_pci_device(signature: u32, class_dword: u32) -> Option<PciDevice> {
    if signature == 0xffff_ffff {
        None
    } else {
        Some(
            PciDevice {
                vendor: (signature & 0xffff) as u16,
                device: ((signature >> 16) & 0xffff) as u16,
                class: ((class_dword >> 24) & 0xff) as u8,
            },
        )
    }
}

/// One line of the brief listing: the address, a space, the record.
pub open spec fn spec_show_line(address: PciDeviceAddress, device: PciDevice) -> Seq<char> {
    spec_address_text(address) + " "@ + spec_device_text(device)
}

impl PciVendor {
    /// The vendor that a code stands for.
    pub fn of(code: u16) -> (vendor: Self)
        ensures
            vendor == spec_vendor(code),
    {
        if code == 0x1022 {
            PciVendor::Known(PCI_VENDOR_ID::AdvancedMicroDevices)
        } else if code == 0x8086 {
            PciVendor::Known(PCI_VENDOR_ID::Intel)
        } else if code == 0x10EC {
            PciVendor::Known(PCI_VENDOR_ID::Realtek)
        } else {
            PciVendor::Unknown(code)
        }
    }

    /// The vendor as it is printed.
    pub fn display(&self) -> (text: String)
        ensures
            text@ == spec_vendor_text(*self),
    {
        match self {
            PciVendor::Known(id) => {
                let mut text = String::from_str("Known(");
                text.append(id.name());
                text.append(")");
                text
            },
            PciVendor::Unknown(code) => {
                let mut text = String::from_str("Unknown(0x");
                push_lower_hex(&mut text, *code as u32);
                text.append(")");
                text
            },
        }
    }
}

impl PciDeviceClass {
    /// The class that a code stands for.
    pub fn of(code: u8) -> (class: Self)
        ensures
            class == spec_class(code),
    {
        if code == 0x00 {
            PciDeviceClass::Known(PCI_DEVICE_CLASS::Unclassified)
        } else if code == 0x01 {
            PciDeviceClass::Known(PCI_DEVICE_CLASS::MassStorageController)
        } else if code == 0x02 {
            PciDeviceClass::Known(PCI_DEVICE_CLASS::NetworkController)
        } else if code == 0x03 {
            PciDeviceClass::Known(PCI_DEVICE_CLASS::DisplayController)
        } else if code == 0x04 {
            PciDeviceClass::Known(PCI_DEVICE_CLASS::MultimediaController)
        } else if code == 0x05 {
            PciDeviceClass::Known(PCI_DEVICE_CLASS::MemoryController)
        } else if code == 0x06 {
            PciDeviceClass::Known(PCI_DEVICE_CLASS::Bridge)
        } else {
            PciDeviceClass::Unknown(code)
        }
    }

    /// The class as it is printed.
    pub fn display(&self) -> (text: String)
        ensures
            text@ == spec_class_text(*self),
    {
        match self {
            PciDeviceClass::Known(id) => {
                let mut text = String::from_str("Known(");
                text.append(id.name());
                text.append(")");
                text
            },
            PciDeviceClass::Unknown(code) => {
                let mut text = String::from_str("Unknown(0x");
                push_lower_hex(&mut text, *code as u32);
                text.append(")");
                text
            },
        }
    }
}

impl PciDevice {
    /// The record as it is printed.
    pub fn display(&self) -> (text: String)
        ensures
            text@ == spec_device_text(*self),
    {
        let vendor = PciVendor::of(self.vendor).display();
        let class = PciDeviceClass::of(self.class).display();
        let mut text = String::from_str("PciDevice { vendor: ");
        text.append(vendor.as_str());
        text.append(", device: 0x");
        push_lower_hex(&mut text, self.device as u32);
        text.append(", class: ");
        text.append(class.as_str());
        text.append(" }");
        text
    }
}

/// The brief record in the signature dword and the class dword of a
/// function. Where the signature is all ones the function is absent, and
/// the class dword is not looked at.
pub fn read_pci_device(signature: u32, class_dword: u32) -> (found: Option<PciDevice>)
    ensures
        found == spec_read_pci_device(signature, class_dword),
        found is None <==> signature == 0xffff_ffff,
{
    if signature == 0xffff_ffff {
        return None;
    }
    Some(
        PciDevice {
            vendor: (signature & 0xffff) as u16,
            device: ((signature >> 16) & 0xffff) as u16,
            class: ((class_dword >> 24) & 0xff) as u8,
        },
    )
}

/// The brief listing: one line for each function found, in the order given.
pub fn show(found: &Vec<(PciDeviceAddress, PciDevice)>) -> (lines: Vec<String>)
    ensures
        lines@.len() == found@.len(),
        forall|i: int| 0 <= i < found@.len() ==> (#[trigger] lines@[i])@ == spec_show_line(found@[i].0, found@[i].1),
{
    let mut lines: Vec<String> = Vec::new();
    let mut i: usize = 0;
    while i < found.len()
        invariant
            i <= found@.len(),
            lines@.len() == i,
            forall|k: int| 0 <= k < i ==> (#[trigger] lines@[k])@ == spec_show_line(found@[k].0, found@[k].1),
        decreases found@.len() - i,
    {
        let address: PciDeviceAddress = found[i].0;
        let device: PciDevice = found[i].1;
        let mut line = address.display();
        let text = device.display();
        line.append(" ");
        line.append(text.as_str());
        lines.push(line);
        i = i + 1;
    }
    lines
}

} // verus!
