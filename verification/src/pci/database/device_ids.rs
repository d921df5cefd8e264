//! Devices, keyed by vendor and device together.

use vstd::prelude::*;

verus! {

/// The name of a vendor's device, where the catalogue has one.
pub open spec fn spec_device_name(vendor_id: u16, device_id: u16) -> Option<Seq<char>> {
    if vendor_id == 0x10EC && device_id == 0x8139 {
        Some("RTL-8100/8101L/8139 PCI Fast Ethernet Adapter"@)
    } else if vendor_id == 0x1022 && device_id == 0x2000 {
        Some("79c970 [PCnet32 LANCE]"@)
    } else if vendor_id == 0x8086 && device_id == 0x1237 {
        Some("440FX - 82441FX PMC [Natoma]"@)
    } else if vendor_id == 0x8086 && device_id == 0x7000 {
        Some("82371SB PIIX3 ISA [Natoma/Triton II]"@)
    } else if vendor_id == 0x8086 && device_id == 0x7010 {
        Some("82371SB PIIX3 IDE [Natoma/Triton II]"@)
    } else if vendor_id == 0x8086 && device_id == 0x7113 {
        Some("82371AB/EB/MB PIIX4 ACPI"@)
    } else if vendor_id == 0x8086 && device_id == 0x100E {
        Some("82540EM Gigabit Ethernet Controller"@)
    } else {
        None
    }
}

/// The name of a vendor's device, or nothing where the catalogue has no
/// entry for the pair.
pub fn get_device_name(vendor_id: u16, device_id: u16) -> (name: Option<&'static str>)
    ensures
        name is Some <==> spec_device_name(vendor_id, device_id) is Some,
        name is Some ==> name->0@ == spec_device_name(vendor_id, device_id)->0,
{
    if vendor_id == 0x10EC && device_id == 0x8139 {
        Some("RTL-8100/8101L/8139 PCI Fast Ethernet Adapter")
    } else if vendor_id == 0x1022 && device_id == 0x2000 {
        Some("79c970 [PCnet32 LANCE]")
    } else if vendor_id == 0x8086 && device_id == 0x1237 {
        Some("440FX - 82441FX PMC [Natoma]")
    } else if vendor_id == 0x8086 && device_id == 0x7000 {
        Some("82371SB PIIX3 ISA [Natoma/Triton II]")
    } else if vendor_id == 0x8086 && device_id == 0x7010 {
        Some("82371SB PIIX3 IDE [Natoma/Triton II]")
    } else if vendor_id == 0x8086 && device_id == 0x7113 {
        Some("82371AB/EB/MB PIIX4 ACPI")
    } else if vendor_id == 0x8086 && device_id == 0x100E {
        Some("82540EM Gigabit Ethernet Controller")
    } else {
        None
    }
}

} // verus!
