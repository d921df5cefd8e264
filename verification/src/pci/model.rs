//! The records that the enumerator produces.

use vstd::prelude::*;
use vstd::string::StringExecFns;
use crate::pci::comms::{config_read, config_write, spec_address, PortOp, CONFIG_ADDRESS, CONFIG_DATA};
use crate::pci::database::class_ids::{get_class_name, spec_class_name};
use crate::pci::database::device_ids::{get_device_name, spec_device_name};
use crate::pci::database::prog_if_ids::{get_prog_if_name, spec_prog_if_name};
use crate::pci::database::subclass_ids::{get_subclass_name, spec_subclass_name};
use crate::pci::database::vendor_ids::{get_vendor_name, spec_vendor_name};
use crate::shortcuts::{push_lower_hex, push_lower_hex2, spec_lower_hex, spec_lower_hex2};

verus! {

/// What the configuration header of one function says of it.
#[derive(Debug, Clone, Copy, PartialEq, Eq, Structural)]
pub struct PciDevice {
    pub vendor: u16,
    pub device: u16,
    pub status: u16,
    pub command: u16,
    pub class: u8,
    pub subclass: u8,
    pub prog_if: u8,
    pub revision: u8,
    pub header_type: u8,
    pub bar0: u32,
    pub bar1: u32,
    pub bar2: u32,
    pub bar3: u32,
    pub bar4: u32,
    pub bar5: u32,
    pub interrupt_pin: u8,
    pub interrupt_line: u8,
}

/// Where a function sits: bus, device (below 32) and function (below 8).
#[derive(Debug, Clone, Copy, PartialEq, Eq, Structural)]
pub struct PciDeviceAddress {
    pub bus: u8,
    pub device: u8,
    pub function: u8,
}

/// A record together with the address it was found at.
#[derive(Debug, Clone, Copy, PartialEq, Eq, Structural)]
pub struct PciDeviceBinding {
    pub address: PciDeviceAddress,
    pub device: PciDevice,
}

/// A catalogue answer as text: the name's characters, or nothing.
pub open spec fn spec_text(name: Option<&'static str>) -> Option<Seq<char>> {
    match name {
        Some(name) => Some(name@),
        None => None,
    }
}

/// A catalogue name where there is one, else the number in hexadecimal
/// behind `0x`.
pub open spec fn spec_name_or_hex(name: Option<Seq<char>>, number: nat) -> Seq<char> {
    match name {
        Some(name) => name,
        None => "0x"@ + spec_lower_hex(number),
    }
}

/// An address as it is printed: bus and device in two hexadecimal digits
/// each, the function in one.
pub open spec fn spec_address_text(address: PciDeviceAddress) -> Seq<char> {
    spec_lower_hex2(address.bus) + ":"@ + spec_lower_hex2(address.device) + "."@ + spec_lower_hex(
        address.function as nat,
    )
}

/// The one-line rendering: address, class and device, each of the two by
/// name where the catalogue has one.
pub open spec fn spec_display_line(binding: PciDeviceBinding) -> Seq<char> {
    spec_address_text(binding.address) + " "@ + spec_name_or_hex(
        spec_class_name(binding.device.class),
        binding.device.class as nat,
    ) + ": "@ + spec_name_or_hex(
        spec_device_name(binding.device.vendor, binding.device.device),
        binding.device.device as nat,
    )
}

/// One line of the block rendering: the address, two spaces, the field's
/// label, a colon and a space, the value.
pub open spec fn spec_field_line(address: PciDeviceAddress, label: Seq<char>, value: Seq<char>) -> Seq<char> {
    spec_address_text(address) + "  "@ + label + ": "@ + value
}

/// The block rendering: one line for every field of the record, in a fixed
/// order, each behind the same address.
pub open spec fn spec_display_block(binding: PciDeviceBinding) -> Seq<Seq<char>> {
    let a = binding.address;
    let d = binding.device;
    seq![
        spec_field_line(a, "vendor"@, spec_name_or_hex(spec_vendor_name(d.vendor), d.vendor as nat)),
        spec_field_line(a, "device"@, spec_name_or_hex(spec_device_name(d.vendor, d.device), d.device as nat)),
        spec_field_line(
            a,
            "signature"@,
            spec_name_or_hex(None, d.vendor as nat) + " "@ + spec_name_or_hex(None, d.device as nat),
        ),
        spec_field_line(a, "class"@, spec_name_or_hex(spec_class_name(d.class), d.class as nat)),
        spec_field_line(a, "subclass"@, spec_name_or_hex(spec_subclass_name(d.class, d.subclass), d.subclass as nat)),
        spec_field_line(
            a,
            "prog_if"@,
            spec_name_or_hex(spec_prog_if_name(d.class, d.subclass, d.prog_if), d.prog_if as nat),
        ),
        spec_field_line(a, "revision"@, spec_name_or_hex(None, d.revision as nat)),
        spec_field_line(a, "header_type"@, spec_name_or_hex(None, d.header_type as nat)),
        spec_field_line(a, "status"@, spec_name_or_hex(None, d.status as nat)),
        spec_field_line(a, "command"@, spec_name_or_hex(None, d.command as nat)),
        spec_field_line(a, "bar0"@, spec_name_or_hex(None, d.bar0 as nat)),
        spec_field_line(a, "bar1"@, spec_name_or_hex(None, d.bar1 as nat)),
        spec_field_line(a, "bar2"@, spec_name_or_hex(None, d.bar2 as nat)),
        spec_field_line(a, "bar3"@, spec_name_or_hex(None, d.bar3 as nat)),
        spec_field_line(a, "bar4"@, spec_name_or_hex(None, d.bar4 as nat)),
        spec_field_line(a, "bar5"@, spec_name_or_hex(None, d.bar5 as nat)),
        spec_field_line(a, "interrupt_pin"@, spec_name_or_hex(None, d.interrupt_pin as nat)),
        spec_field_line(a, "interrupt_line"@, spec_name_or_hex(None, d.interrupt_line as nat)),
    ]
}

impl PciDeviceAddress {
    /// The address as it is printed.
    pub fn display(&self) -> (text: String)
        ensures
            text@ == spec_address_text(*self),
    {
        let mut text = String::new();
        push_lower_hex2(&mut text, self.bus);
        text.append(":");
        push_lower_hex2(&mut text, self.device);
        text.append(".");
        push_lower_hex(&mut text, self.function as u32);
        assert(text@ =~= spec_address_text(*self));
        text
    }
}

impl PciDevice {
    /// The vendor's name, where the catalogue has one.
    pub fn vendor_name(&self) -> (name: Option<&'static str>)
        ensures
            spec_text(name) == spec_vendor_name(self.vendor),
    {
        get_vendor_name(self.vendor)
    }

    /// The device's name, where the catalogue has one.
    pub fn device_name(&self) -> (name: Option<&'static str>)
        ensures
            spec_text(name) == spec_device_name(self.vendor, self.device),
    {
        get_device_name(self.vendor, self.device)
    }

    /// The class's name, where the catalogue has one.
    pub fn class_name(&self) -> (name: Option<&'static str>)
        ensures
            spec_text(name) == spec_class_name(self.class),
    {
        get_class_name(self.class)
    }

    /// The subclass's name, where the catalogue has one.
    pub fn subclass_name(&self) -> (name: Option<&'static str>)
        ensures
            spec_text(name) == spec_subclass_name(self.class, self.subclass),
    {
        get_subclass_name(self.class, self.subclass)
    }

    /// The programming interface's name, where the catalogue has one.
    pub fn prog_if_name(&self) -> (name: Option<&'static str>)
        ensures
            spec_text(name) == spec_prog_if_name(self.class, self.subclass, self.prog_if),
    {
        get_prog_if_name(self.class, self.subclass, self.prog_if)
    }
}

impl PciDeviceBinding {
    /// The port accesses that read the configuration dword at `offset` of
    /// this function.
    pub fn config_read(&self, offset: u8) -> (ops: [PortOp; 2])
        ensures
            ops@ == seq![
                PortOp::Write32 {
                    port: CONFIG_ADDRESS,
                    value: spec_address(self.address.bus, self.address.device, self.address.function, offset),
                },
                PortOp::Read32 { port: CONFIG_DATA },
            ],
    {
        config_read(self.address.bus, self.address.device, self.address.function, offset)
    }

    /// The port accesses that write `value` to the configuration dword at
    /// `offset` of this function.
    pub fn config_write(&self, offset: u8, value: u32) -> (ops: [PortOp; 2])
        ensures
            ops@ == seq![
                PortOp::Write32 {
                    port: CONFIG_ADDRESS,
                    value: spec_address(self.address.bus, self.address.device, self.address.function, offset),
                },
                PortOp::Write32 { port: CONFIG_DATA, value: value },
            ],
    {
        config_write(self.address.bus, self.address.device, self.address.function, offset, value)
    }

    /// The catalogue name where there is one, else the number in hexadecimal
    /// behind `0x`.
    pub fn name_or_hex(name: Option<&'static str>, number: u32) -> (text: String)
        ensures
            text@ == spec_name_or_hex(spec_text(name), number as nat),
    {
        match name {
            Some(name) => String::from_str(name),
            None => {
                let mut text = String::from_str("0x");
                push_lower_hex(&mut text, number);
                text
            },
        }
    }

    /// The address as it is printed.
    pub fn address_text(&self) -> (text: String)
        ensures
            text@ == spec_address_text(self.address),
    {
        self.address.display()
    }

    /// The one-line rendering of the device.
    pub fn display_line(&self) -> (line: String)
        ensures
            line@ == spec_display_line(*self),
    {
        let class = Self::name_or_hex(self.device.class_name(), self.device.class as u32);
        let device = Self::name_or_hex(self.device.device_name(), self.device.device as u32);
        let mut line = self.address_text();
        line.append(" ");
        line.append(class.as_str());
        line.append(": ");
        line.append(device.as_str());
        line
    }

    /// One line of the block rendering.
    fn field_line(&self, label: &str, value: &str) -> (line: String)
        ensures
            line@ == spec_field_line(self.address, label@, value@),
    {
        let mut line = self.address_text();
        line.append("  ");
        line.append(label);
        line.append(": ");
        line.append(value);
        line
    }

    /// One line of the block rendering for a field that is printed as a
    /// number.
    fn number_line(&self, label: &str, number: u32) -> (line: String)
        ensures
            line@ == spec_field_line(self.address, label@, spec_name_or_hex(None, number as nat)),
    {
        let value = Self::name_or_hex(None, number);
        self.field_line(label, value.as_str())
    }

    /// The block rendering of the device: one line for every field.
    pub fn display_block(&self) -> (lines: Vec<String>)
        ensures
            lines@.len() == 18,
            lines@.len() == spec_display_block(*self).len(),
            forall|i: int| 0 <= i < 18 ==> (#[trigger] lines@[i])@ == spec_display_block(*self)[i],
    {
        let mut lines: Vec<String> = Vec::new();
        let d = self.device;

        let vendor = Self::name_or_hex(d.vendor_name(), d.vendor as u32);
        lines.push(self.field_line("vendor", vendor.as_str()));

        let device = Self::name_or_hex(d.device_name(), d.device as u32);
        lines.push(self.field_line("device", device.as_str()));

        let mut signature = Self::name_or_hex(None, d.vendor as u32);
        let signature_device = Self::name_or_hex(None, d.device as u32);
        signature.append(" ");
        signature.append(signature_device.as_str());
        lines.push(self.field_line("signature", signature.as_str()));

        let class = Self::name_or_hex(d.class_name(), d.class as u32);
        lines.push(self.field_line("class", class.as_str()));

        let subclass = Self::name_or_hex(d.subclass_name(), d.subclass as u32);
        lines.push(self.field_line("subclass", subclass.as_str()));

        let prog_if = Self::name_or_hex(d.prog_if_name(), d.prog_if as u32);
        lines.push(self.field_line("prog_if", prog_if.as_str()));

        lines.push(self.number_line("revision", d.revision as u32));
        lines.push(self.number_line("header_type", d.header_type as u32));
        lines.push(self.number_line("status", d.status as u32));
        lines.push(self.number_line("command", d.command as u32));
        lines.push(self.number_line("bar0", d.bar0));
        lines.push(self.number_line("bar1", d.bar1));
        lines.push(self.number_line("bar2", d.bar2));
        lines.push(self.number_line("bar3", d.bar3));
        lines.push(self.number_line("bar4", d.bar4));
        lines.push(self.number_line("bar5", d.bar5));
        lines.push(self.number_line("interrupt_pin", d.interrupt_pin as u32));
        lines.push(self.number_line("interrupt_line", d.interrupt_line as u32));
        lines
    }
}

} // verus!
