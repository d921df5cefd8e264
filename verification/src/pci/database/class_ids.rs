//! Device classes.

use vstd::prelude::*;

verus! {

/// The device classes that the catalogue names.
#[allow(non_camel_case_types)]
#[derive(Debug, Clone, Copy, PartialEq, Eq, Structural)]
pub enum PCI_CLASS_ID {
    Unclassified,
    MassStorageController,
    NetworkController,
    DisplayController,
    MultimediaController,
    MemoryController,
    Bridge,
    SimpleCommunicationController,
    BaseSystemPeripheral,
    InputDeviceController,
    DockingStation,
    Processor,
    SerialBusController,
    WirelessController,
    IntelligentController,
    SatelliteCommunicationController,
    EncryptionController,
    SignalProcessingController,
    ProcessingAccelerator,
    NonEssentialInstrumentation,
    CoProcessor,
    Unassigned,
}

impl PCI_CLASS_ID {
    /// The code that stands for this entry in configuration space.
    pub open spec fn spec_code(self) -> u8 {
        match self {
            PCI_CLASS_ID::Unclassified => 0x00,
            PCI_CLASS_ID::MassStorageController => 0x01,
            PCI_CLASS_ID::NetworkController => 0x02,
            PCI_CLASS_ID::DisplayController => 0x03,
            PCI_CLASS_ID::MultimediaController => 0x04,
            PCI_CLASS_ID::MemoryController => 0x05,
            PCI_CLASS_ID::Bridge => 0x06,
            PCI_CLASS_ID::SimpleCommunicationController => 0x07,
            PCI_CLASS_ID::BaseSystemPeripheral => 0x08,
            PCI_CLASS_ID::InputDeviceController => 0x09,
            PCI_CLASS_ID::DockingStation => 0x0A,
            PCI_CLASS_ID::Processor => 0x0B,
            PCI_CLASS_ID::SerialBusController => 0x0C,
            PCI_CLASS_ID::WirelessController => 0x0D,
            PCI_CLASS_ID::IntelligentController => 0x0E,
            PCI_CLASS_ID::SatelliteCommunicationController => 0x0F,
            PCI_CLASS_ID::EncryptionController => 0x10,
            PCI_CLASS_ID::SignalProcessingController => 0x11,
            PCI_CLASS_ID::ProcessingAccelerator => 0x12,
            PCI_CLASS_ID::NonEssentialInstrumentation => 0x13,
            PCI_CLASS_ID::CoProcessor => 0x40,
            PCI_CLASS_ID::Unassigned => 0xFF,
        }
    }

    /// The code that stands for this entry in configuration space.
    pub fn code(self) -> (code: u8)
        ensures
            code == self.spec_code(),
    {
        match self {
            PCI_CLASS_ID::Unclassified => 0x00,
            PCI_CLASS_ID::MassStorageController => 0x01,
            PCI_CLASS_ID::NetworkController => 0x02,
            PCI_CLASS_ID::DisplayController => 0x03,
            PCI_CLASS_ID::MultimediaController => 0x04,
            PCI_CLASS_ID::MemoryController => 0x05,
            PCI_CLASS_ID::Bridge => 0x06,
            PCI_CLASS_ID::SimpleCommunicationController => 0x07,
            PCI_CLASS_ID::BaseSystemPeripheral => 0x08,
            PCI_CLASS_ID::InputDeviceController => 0x09,
            PCI_CLASS_ID::DockingStation => 0x0A,
            PCI_CLASS_ID::Processor => 0x0B,
            PCI_CLASS_ID::SerialBusController => 0x0C,
            PCI_CLASS_ID::WirelessController => 0x0D,
            PCI_CLASS_ID::IntelligentController => 0x0E,
            PCI_CLASS_ID::SatelliteCommunicationController => 0x0F,
            PCI_CLASS_ID::EncryptionController => 0x10,
            PCI_CLASS_ID::SignalProcessingController => 0x11,
            PCI_CLASS_ID::ProcessingAccelerator => 0x12,
            PCI_CLASS_ID::NonEssentialInstrumentation => 0x13,
            PCI_CLASS_ID::CoProcessor => 0x40,
            PCI_CLASS_ID::Unassigned => 0xFF,
        }
    }

    /// The entry's name as it is printed.
    pub open spec fn spec_name(self) -> Seq<char> {
        match self {
            PCI_CLASS_ID::Unclassified => "Unclassified"@,
            PCI_CLASS_ID::MassStorageController => "MassStorageController"@,
            PCI_CLASS_ID::NetworkController => "NetworkController"@,
            PCI_CLASS_ID::DisplayController => "DisplayController"@,
            PCI_CLASS_ID::MultimediaController => "MultimediaController"@,
            PCI_CLASS_ID::MemoryController => "MemoryController"@,
            PCI_CLASS_ID::Bridge => "Bridge"@,
            PCI_CLASS_ID::SimpleCommunicationController => "SimpleCommunicationController"@,
            PCI_CLASS_ID::BaseSystemPeripheral => "BaseSystemPeripheral"@,
            PCI_CLASS_ID::InputDeviceController => "InputDeviceController"@,
            PCI_CLASS_ID::DockingStation => "DockingStation"@,
            PCI_CLASS_ID::Processor => "Processor"@,
            PCI_CLASS_ID::SerialBusController => "SerialBusController"@,
            PCI_CLASS_ID::WirelessController => "WirelessController"@,
            PCI_CLASS_ID::IntelligentController => "IntelligentController"@,
            PCI_CLASS_ID::SatelliteCommunicationController => "SatelliteCommunicationController"@,
            PCI_CLASS_ID::EncryptionController => "EncryptionController"@,
            PCI_CLASS_ID::SignalProcessingController => "SignalProcessingController"@,
            PCI_CLASS_ID::ProcessingAccelerator => "ProcessingAccelerator"@,
            PCI_CLASS_ID::NonEssentialInstrumentation => "NonEssentialInstrumentation"@,
            PCI_CLASS_ID::CoProcessor => "CoProcessor"@,
            PCI_CLASS_ID::Unassigned => "Unassigned"@,
        }
    }

    /// The entry's name as it is printed.
    pub fn name(self) -> (name: &'static str)
        ensures
            name@ == self.spec_name(),
    {
        match self {
            PCI_CLASS_ID::Unclassified => "Unclassified",
            PCI_CLASS_ID::MassStorageController => "MassStorageController",
            PCI_CLASS_ID::NetworkController => "NetworkController",
            PCI_CLASS_ID::DisplayController => "DisplayController",
            PCI_CLASS_ID::MultimediaController => "MultimediaController",
            PCI_CLASS_ID::MemoryController => "MemoryController",
            PCI_CLASS_ID::Bridge => "Bridge",
            PCI_CLASS_ID::SimpleCommunicationController => "SimpleCommunicationController",
            PCI_CLASS_ID::BaseSystemPeripheral => "BaseSystemPeripheral",
            PCI_CLASS_ID::InputDeviceController => "InputDeviceController",
            PCI_CLASS_ID::DockingStation => "DockingStation",
            PCI_CLASS_ID::Processor => "Processor",
            PCI_CLASS_ID::SerialBusController => "SerialBusController",
            PCI_CLASS_ID::WirelessController => "WirelessController",
            PCI_CLASS_ID::IntelligentController => "IntelligentController",
            PCI_CLASS_ID::SatelliteCommunicationController => "SatelliteCommunicationController",
            PCI_CLASS_ID::EncryptionController => "EncryptionController",
            PCI_CLASS_ID::SignalProcessingController => "SignalProcessingController",
            PCI_CLASS_ID::ProcessingAccelerator => "ProcessingAccelerator",
            PCI_CLASS_ID::NonEssentialInstrumentation => "NonEssentialInstrumentation",
            PCI_CLASS_ID::CoProcessor => "CoProcessor",
            PCI_CLASS_ID::Unassigned => "Unassigned",
        }
    }

    /// The entry that a code stands for, if the catalogue has one.
    pub open spec fn spec_from_code(code: u8) -> Option<PCI_CLASS_ID> {
        if code == 0x00 {
            Some(PCI_CLASS_ID::Unclassified)
        } else if code == 0x01 {
            Some(PCI_CLASS_ID::MassStorageController)
        } else if code == 0x02 {
            Some(PCI_CLASS_ID::NetworkController)
        } else if code == 0x03 {
            Some(PCI_CLASS_ID::DisplayController)
        } else if code == 0x04 {
            Some(PCI_CLASS_ID::MultimediaController)
        } else if code == 0x05 {
            Some(PCI_CLASS_ID::MemoryController)
        } else if code == 0x06 {
            Some(PCI_CLASS_ID::Bridge)
        } else if code == 0x07 {
            Some(PCI_CLASS_ID::SimpleCommunicationController)
        } else if code == 0x08 {
            Some(PCI_CLASS_ID::BaseSystemPeripheral)
        } else if code == 0x09 {
            Some(PCI_CLASS_ID::InputDeviceController)
        } else if code == 0x0A {
            Some(PCI_CLASS_ID::DockingStation)
        } else if code == 0x0B {
            Some(PCI_CLASS_ID::Processor)
        } else if code == 0x0C {
            Some(PCI_CLASS_ID::SerialBusController)
        } else if code == 0x0D {
            Some(PCI_CLASS_ID::WirelessController)
        } else if code == 0x0E {
            Some(PCI_CLASS_ID::IntelligentController)
        } else if code == 0x0F {
            Some(PCI_CLASS_ID::SatelliteCommunicationController)
        } else if code == 0x10 {
            Some(PCI_CLASS_ID::EncryptionController)
        } else if code == 0x11 {
            Some(PCI_CLASS_ID::SignalProcessingController)
        } else if code == 0x12 {
            Some(PCI_CLASS_ID::ProcessingAccelerator)
        } else if code == 0x13 {
            Some(PCI_CLASS_ID::NonEssentialInstrumentation)
        } else if code == 0x40 {
            Some(PCI_CLASS_ID::CoProcessor)
        } else if code == 0xFF {
            Some(PCI_CLASS_ID::Unassigned)
        } else {
            None
        }
    }

    /// The entry that a code stands for, if the catalogue has one.
    pub fn from_code(code: u8) -> (entry: Option<PCI_CLASS_ID>)
        ensures
            entry == Self::spec_from_code(code),
            forall|other: PCI_CLASS_ID| other.spec_code() == code <==> entry == Some(other),
    {
        if code == 0x00 {
            Some(PCI_CLASS_ID::Unclassified)
        } else if code == 0x01 {
            Some(PCI_CLASS_ID::MassStorageController)
        } else if code == 0x02 {
            Some(PCI_CLASS_ID::NetworkController)
        } else if code == 0x03 {
            Some(PCI_CLASS_ID::DisplayController)
        } else if code == 0x04 {
            Some(PCI_CLASS_ID::MultimediaController)
        } else if code == 0x05 {
            Some(PCI_CLASS_ID::MemoryController)
        } else if code == 0x06 {
            Some(PCI_CLASS_ID::Bridge)
        } else if code == 0x07 {
            Some(PCI_CLASS_ID::SimpleCommunicationController)
        } else if code == 0x08 {
            Some(PCI_CLASS_ID::BaseSystemPeripheral)
        } else if code == 0x09 {
            Some(PCI_CLASS_ID::InputDeviceController)
        } else if code == 0x0A {
            Some(PCI_CLASS_ID::DockingStation)
        } else if code == 0x0B {
            Some(PCI_CLASS_ID::Processor)
        } else if code == 0x0C {
            Some(PCI_CLASS_ID::SerialBusController)
        } else if code == 0x0D {
            Some(PCI_CLASS_ID::WirelessController)
        } else if code == 0x0E {
            Some(PCI_CLASS_ID::IntelligentController)
        } else if code == 0x0F {
            Some(PCI_CLASS_ID::SatelliteCommunicationController)
        } else if code == 0x10 {
            Some(PCI_CLASS_ID::EncryptionController)
        } else if code == 0x11 {
            Some(PCI_CLASS_ID::SignalProcessingController)
        } else if code == 0x12 {
            Some(PCI_CLASS_ID::ProcessingAccelerator)
        } else if code == 0x13 {
            Some(PCI_CLASS_ID::NonEssentialInstrumentation)
        } else if code == 0x40 {
            Some(PCI_CLASS_ID::CoProcessor)
        } else if code == 0xFF {
            Some(PCI_CLASS_ID::Unassigned)
        } else {
            None
        }
    }
}

/// Every entry is found again under its own code: no two entries share one.
pub proof fn lemma_code_finds_entry(entry: PCI_CLASS_ID)
    ensures
        PCI_CLASS_ID::spec_from_code(entry.spec_code()) == Some(entry),
{
}

/// A code that no entry carries is unknown to the catalogue.
pub proof fn lemma_unknown_code(code: u8)
    requires
        forall|entry: PCI_CLASS_ID| entry.spec_code() != code,
    ensures
        PCI_CLASS_ID::spec_from_code(code) is None,
{
    if PCI_CLASS_ID::spec_from_code(code) is Some {
        let entry = PCI_CLASS_ID::spec_from_code(code)->0;
        assert(entry.spec_code() == code);
    }
}

/// The name of a device class, where the catalogue has one.
pub open spec fn spec_class_name(class_id: u8) -> Option<Seq<char>> {
    match PCI_CLASS_ID::spec_from_code(class_id) {
        Some(entry) => Some(entry.spec_name()),
        None => None,
    }
}

/// The name of a device class, or nothing where the catalogue has no entry
/// for the code.
pub fn get_class_name(class_id: u8) -> (name: Option<&'static str>)
    ensures
        name is Some <==> spec_class_name(class_id) is Some,
        name is Some ==> name->0@ == spec_class_name(class_id)->0,
{
    match PCI_CLASS_ID::from_code(class_id) {
        Some(entry) => Some(entry.name()),
        None => None,
    }
}

} // verus!
