//! Vendors.

use vstd::prelude::*;

verus! {

/// The vendors that the catalogue names.
#[allow(non_camel_case_types)]
#[derive(Debug, Clone, Copy, PartialEq, Eq, Structural)]
pub enum PCI_VENDOR_NAME {
    AMD,
    Broadcom,
    Dell,
    HP,
    Intel,
    IBM,
    Micron,
    Realtek,
    Ubiquitity,
    WesternDigital,
}

impl PCI_VENDOR_NAME {
    /// The vendor's name as it is printed.
    pub open spec fn spec_name(self) -> Seq<char> {
        match self {
            PCI_VENDOR_NAME::AMD => "AMD"@,
            PCI_VENDOR_NAME::Broadcom => "Broadcom"@,
            PCI_VENDOR_NAME::Dell => "Dell"@,
            PCI_VENDOR_NAME::HP => "HP"@,
            PCI_VENDOR_NAME::Intel => "Intel"@,
            PCI_VENDOR_NAME::IBM => "IBM"@,
            PCI_VENDOR_NAME::Micron => "Micron"@,
            PCI_VENDOR_NAME::Realtek => "Realtek"@,
            PCI_VENDOR_NAME::Ubiquitity => "Ubiquitity"@,
            PCI_VENDOR_NAME::WesternDigital => "WesternDigital"@,
        }
    }

    /// The vendor's name as it is printed.
    pub fn name(self) -> (name: &'static str)
        ensures
            name@ == self.spec_name(),
    {
        match self {
            PCI_VENDOR_NAME::AMD => "AMD",
            PCI_VENDOR_NAME::Broadcom => "Broadcom",
            PCI_VENDOR_NAME::Dell => "Dell",
            PCI_VENDOR_NAME::HP => "HP",
            PCI_VENDOR_NAME::Intel => "Intel",
            PCI_VENDOR_NAME::IBM => "IBM",
            PCI_VENDOR_NAME::Micron => "Micron",
            PCI_VENDOR_NAME::Realtek => "Realtek",
            PCI_VENDOR_NAME::Ubiquitity => "Ubiquitity",
            PCI_VENDOR_NAME::WesternDigital => "WesternDigital",
        }
    }

    /// The vendor that holds a vendor code, if the catalogue knows the code.
    /// A vendor may hold several codes.
    pub open spec fn spec_from_code(code: u16) -> Option<PCI_VENDOR_NAME> {
        if code == 0x0777 {
            Some(PCI_VENDOR_NAME::Ubiquitity)
        } else if code == 0x8086 {
            Some(PCI_VENDOR_NAME::Intel)
        } else if code == 0x1000 {
            Some(PCI_VENDOR_NAME::Broadcom)
        } else if code == 0x1002 {
            Some(PCI_VENDOR_NAME::AMD)
        } else if code == 0x1014 {
            Some(PCI_VENDOR_NAME::IBM)
        } else if code == 0x101C {
            Some(PCI_VENDOR_NAME::WesternDigital)
        } else if code == 0x1022 {
            Some(PCI_VENDOR_NAME::AMD)
        } else if code == 0x1028 {
            Some(PCI_VENDOR_NAME::Dell)
        } else if code == 0x103C {
            Some(PCI_VENDOR_NAME::HP)
        } else if code == 0x1042 {
            Some(PCI_VENDOR_NAME::Micron)
        } else if code == 0x10EC {
            Some(PCI_VENDOR_NAME::Realtek)
        } else if code == 0xFEDA {
            Some(PCI_VENDOR_NAME::Broadcom)
        } else {
            None
        }
    }

    /// The vendor that holds a vendor code, if the catalogue knows the code.
    pub fn from_code(code: u16) -> (vendor: Option<PCI_VENDOR_NAME>)
        ensures
            vendor == Self::spec_from_code(code),
    {
        if code == 0x0777 {
            Some(PCI_VENDOR_NAME::Ubiquitity)
        } else if code == 0x8086 {
            Some(PCI_VENDOR_NAME::Intel)
        } else if code == 0x1000 {
            Some(PCI_VENDOR_NAME::Broadcom)
        } else if code == 0x1002 {
            Some(PCI_VENDOR_NAME::AMD)
        } else if code == 0x1014 {
            Some(PCI_VENDOR_NAME::IBM)
        } else if code == 0x101C {
            Some(PCI_VENDOR_NAME::WesternDigital)
        } else if code == 0x1022 {
            Some(PCI_VENDOR_NAME::AMD)
        } else if code == 0x1028 {
            Some(PCI_VENDOR_NAME::Dell)
        } else if code == 0x103C {
            Some(PCI_VENDOR_NAME::HP)
        } else if code == 0x1042 {
            Some(PCI_VENDOR_NAME::Micron)
        } else if code == 0x10EC {
            Some(PCI_VENDOR_NAME::Realtek)
        } else if code == 0xFEDA {
            Some(PCI_VENDOR_NAME::Broadcom)
        } else {
            None
        }
    }
}

/// The name of the vendor that holds a code, where the catalogue knows it.
pub open spec fn spec_vendor_name(vendor_id: u16) -> Option<Seq<char>> {
    match PCI_VENDOR_NAME::spec_from_code(vendor_id) {
        Some(vendor) => Some(vendor.spec_name()),
        None => None,
    }
}

/// The name of the vendor that holds a code, or nothing where the catalogue
/// does not know the code.
pub fn get_vendor_name(vendor_id: u16) -> (name: Option<&'static str>)
    ensures
        name is Some <==> spec_vendor_name(vendor_id) is Some,
        name is Some ==> name->0@ == spec_vendor_name(vendor_id)->0,
{
    match PCI_VENDOR_NAME::from_code(vendor_id) {
        Some(vendor) => Some(vendor.name()),
        None => None,
    }
}

} // verus!
