//! Device subclasses, keyed by class and subclass together.

use vstd::prelude::*;

verus! {

/// The catalogue key of a subclass: the class in the high byte, the subclass
/// in the low byte.
pub open spec fn spec_subclass_key(class_id: u8, subclass_id: u8) -> u16 {
    (class_id as int * 256 + subclass_id as int) as u16
}

/// The catalogue key of a subclass.
pub fn subclass_key(class_id: u8, subclass_id: u8) -> (key: u16)
    ensures
        key == spec_subclass_key(class_id, subclass_id),
{
    let high: u16 = class_id as u16;
    let low: u16 = subclass_id as u16;
    high * 256 + low
}

/// The subclasses that the catalogue names. An entry's code holds the class
/// in its high byte and the subclass in its low byte.
#[allow(non_camel_case_types)]
#[derive(Debug, Clone, Copy, PartialEq, Eq, Structural)]
pub enum PCI_SUBCLASS_ID {
    VGACompatibleUnclassifiedDevice,
    NonVGACompatibleUnclassifiedDevice,
    SCSIBusController,
    IDEController,
    FloppyDiskController,
    IPIBusController,
    RADIController,
    ATAController,
    SerialATAController,
    SerialAttachedSCSIController,
    NonVolatileMemoryController,
    EthernetController,
    TokenRingController,
    FDDIController,
    ATMController,
    ISDNController,
    WorldFipController,
    PICMGController,
    InfinibandController,
    FabricController,
    VGACompatibleController,
    XGAController,
    ThreeDController,
}

impl PCI_SUBCLASS_ID {
    /// The code that stands for this entry in configuration space.
    pub open spec fn spec_code(self) -> u16 {
        match self {
            PCI_SUBCLASS_ID::VGACompatibleUnclassifiedDevice => 0x0000,
            PCI_SUBCLASS_ID::NonVGACompatibleUnclassifiedDevice => 0x0001,
            PCI_SUBCLASS_ID::SCSIBusController => 0x0100,
            PCI_SUBCLASS_ID::IDEController => 0x0101,
            PCI_SUBCLASS_ID::FloppyDiskController => 0x0102,
            PCI_SUBCLASS_ID::IPIBusController => 0x0103,
            PCI_SUBCLASS_ID::RADIController => 0x0104,
            PCI_SUBCLASS_ID::ATAController => 0x0105,
            PCI_SUBCLASS_ID::SerialATAController => 0x0106,
            PCI_SUBCLASS_ID::SerialAttachedSCSIController => 0x0107,
            PCI_SUBCLASS_ID::NonVolatileMemoryController => 0x0108,
            PCI_SUBCLASS_ID::EthernetController => 0x0200,
            PCI_SUBCLASS_ID::TokenRingController => 0x0201,
            PCI_SUBCLASS_ID::FDDIController => 0x0202,
            PCI_SUBCLASS_ID::ATMController => 0x0203,
            PCI_SUBCLASS_ID::ISDNController => 0x0204,
            PCI_SUBCLASS_ID::WorldFipController => 0x0205,
            PCI_SUBCLASS_ID::PICMGController => 0x0206,
            PCI_SUBCLASS_ID::InfinibandController => 0x0207,
            PCI_SUBCLASS_ID::FabricController => 0x0208,
            PCI_SUBCLASS_ID::VGACompatibleController => 0x0300,
            PCI_SUBCLASS_ID::XGAController => 0x0301,
            PCI_SUBCLASS_ID::ThreeDController => 0x0302,
        }
    }

    /// The code that stands for this entry in configuration space.
    pub fn code(self) -> (code: u16)
        ensures
            code == self.spec_code(),
    {
        match self {
            PCI_SUBCLASS_ID::VGACompatibleUnclassifiedDevice => 0x0000,
            PCI_SUBCLASS_ID::NonVGACompatibleUnclassifiedDevice => 0x0001,
            PCI_SUBCLASS_ID::SCSIBusController => 0x0100,
            PCI_SUBCLASS_ID::IDEController => 0x0101,
            PCI_SUBCLASS_ID::FloppyDiskController => 0x0102,
            PCI_SUBCLASS_ID::IPIBusController => 0x0103,
            PCI_SUBCLASS_ID::RADIController => 0x0104,
            PCI_SUBCLASS_ID::ATAController => 0x0105,
            PCI_SUBCLASS_ID::SerialATAController => 0x0106,
            PCI_SUBCLASS_ID::SerialAttachedSCSIController => 0x0107,
            PCI_SUBCLASS_ID::NonVolatileMemoryController => 0x0108,
            PCI_SUBCLASS_ID::EthernetController => 0x0200,
            PCI_SUBCLASS_ID::TokenRingController => 0x0201,
            PCI_SUBCLASS_ID::FDDIController => 0x0202,
            PCI_SUBCLASS_ID::ATMController => 0x0203,
            PCI_SUBCLASS_ID::ISDNController => 0x0204,
            PCI_SUBCLASS_ID::WorldFipController => 0x0205,
            PCI_SUBCLASS_ID::PICMGController => 0x0206,
            PCI_SUBCLASS_ID::InfinibandController => 0x0207,
            PCI_SUBCLASS_ID::FabricController => 0x0208,
            PCI_SUBCLASS_ID::VGACompatibleController => 0x0300,
            PCI_SUBCLASS_ID::XGAController => 0x0301,
            PCI_SUBCLASS_ID::ThreeDController => 0x0302,
        }
    }

    /// The entry's name as it is printed.
    pub open spec fn spec_name(self) -> Seq<char> {
        match self {
            PCI_SUBCLASS_ID::VGACompatibleUnclassifiedDevice => "VGACompatibleUnclassifiedDevice"@,
            PCI_SUBCLASS_ID::NonVGACompatibleUnclassifiedDevice => "NonVGACompatibleUnclassifiedDevice"@,
            PCI_SUBCLASS_ID::SCSIBusController => "SCSIBusController"@,
            PCI_SUBCLASS_ID::IDEController => "IDEController"@,
            PCI_SUBCLASS_ID::FloppyDiskController => "FloppyDiskController"@,
            PCI_SUBCLASS_ID::IPIBusController => "IPIBusController"@,
            PCI_SUBCLASS_ID::RADIController => "RADIController"@,
            PCI_SUBCLASS_ID::ATAController => "ATAController"@,
            PCI_SUBCLASS_ID::SerialATAController => "SerialATAController"@,
            PCI_SUBCLASS_ID::SerialAttachedSCSIController => "SerialAttachedSCSIController"@,
            PCI_SUBCLASS_ID::NonVolatileMemoryController => "NonVolatileMemoryController"@,
            PCI_SUBCLASS_ID::EthernetController => "EthernetController"@,
            PCI_SUBCLASS_ID::TokenRingController => "TokenRingController"@,
            PCI_SUBCLASS_ID::FDDIController => "FDDIController"@,
            PCI_SUBCLASS_ID::ATMController => "ATMController"@,
            PCI_SUBCLASS_ID::ISDNController => "ISDNController"@,
            PCI_SUBCLASS_ID::WorldFipController => "WorldFipController"@,
            PCI_SUBCLASS_ID::PICMGController => "PICMGController"@,
            PCI_SUBCLASS_ID::InfinibandController => "InfinibandController"@,
            PCI_SUBCLASS_ID::FabricController => "FabricController"@,
            PCI_SUBCLASS_ID::VGACompatibleController => "VGACompatibleController"@,
            PCI_SUBCLASS_ID::XGAController => "XGAController"@,
            PCI_SUBCLASS_ID::ThreeDController => "ThreeDController"@,
        }
    }

    /// The entry's name as it is printed.
    pub fn name(self) -> (name: &'static str)
        ensures
            name@ == self.spec_name(),
    {
        match self {
            PCI_SUBCLASS_ID::VGACompatibleUnclassifiedDevice => "VGACompatibleUnclassifiedDevice",
            PCI_SUBCLASS_ID::NonVGACompatibleUnclassifiedDevice => "NonVGACompatibleUnclassifiedDevice",
            PCI_SUBCLASS_ID::SCSIBusController => "SCSIBusController",
            PCI_SUBCLASS_ID::IDEController => "IDEController",
            PCI_SUBCLASS_ID::FloppyDiskController => "FloppyDiskController",
            PCI_SUBCLASS_ID::IPIBusController => "IPIBusController",
            PCI_SUBCLASS_ID::RADIController => "RADIController",
            PCI_SUBCLASS_ID::ATAController => "ATAController",
            PCI_SUBCLASS_ID::SerialATAController => "SerialATAController",
            PCI_SUBCLASS_ID::SerialAttachedSCSIController => "SerialAttachedSCSIController",
            PCI_SUBCLASS_ID::NonVolatileMemoryController => "NonVolatileMemoryController",
            PCI_SUBCLASS_ID::EthernetController => "EthernetController",
            PCI_SUBCLASS_ID::TokenRingController => "TokenRingController",
            PCI_SUBCLASS_ID::FDDIController => "FDDIController",
            PCI_SUBCLASS_ID::ATMController => "ATMController",
            PCI_SUBCLASS_ID::ISDNController => "ISDNController",
            PCI_SUBCLASS_ID::WorldFipController => "WorldFipController",
            PCI_SUBCLASS_ID::PICMGController => "PICMGController",
            PCI_SUBCLASS_ID::InfinibandController => "InfinibandController",
            PCI_SUBCLASS_ID::FabricController => "FabricController",
            PCI_SUBCLASS_ID::VGACompatibleController => "VGACompatibleController",
            PCI_SUBCLASS_ID::XGAController => "XGAController",
            PCI_SUBCLASS_ID::ThreeDController => "ThreeDController",
        }
    }

    /// The entry that a code stands for, if the catalogue has one.
    pub open spec fn spec_from_code(code: u16) -> Option<PCI_SUBCLASS_ID> {
        if code == 0x0000 {
            Some(PCI_SUBCLASS_ID::VGACompatibleUnclassifiedDevice)
        } else if code == 0x0001 {
            Some(PCI_SUBCLASS_ID::NonVGACompatibleUnclassifiedDevice)
        } else if code == 0x0100 {
            Some(PCI_SUBCLASS_ID::SCSIBusController)
        } else if code == 0x0101 {
            Some(PCI_SUBCLASS_ID::IDEController)
        } else if code == 0x0102 {
            Some(PCI_SUBCLASS_ID::FloppyDiskController)
        } else if code == 0x0103 {
            Some(PCI_SUBCLASS_ID::IPIBusController)
        } else if code == 0x0104 {
            Some(PCI_SUBCLASS_ID::RADIController)
        } else if code == 0x0105 {
            Some(PCI_SUBCLASS_ID::ATAController)
        } else if code == 0x0106 {
            Some(PCI_SUBCLASS_ID::SerialATAController)
        } else if code == 0x0107 {
            Some(PCI_SUBCLASS_ID::SerialAttachedSCSIController)
        } else if code == 0x0108 {
            Some(PCI_SUBCLASS_ID::NonVolatileMemoryController)
        } else if code == 0x0200 {
            Some(PCI_SUBCLASS_ID::EthernetController)
        } else if code == 0x0201 {
            Some(PCI_SUBCLASS_ID::TokenRingController)
        } else if code == 0x0202 {
            Some(PCI_SUBCLASS_ID::FDDIController)
        } else if code == 0x0203 {
            Some(PCI_SUBCLASS_ID::ATMController)
        } else if code == 0x0204 {
            Some(PCI_SUBCLASS_ID::ISDNController)
        } else if code == 0x0205 {
            Some(PCI_SUBCLASS_ID::WorldFipController)
        } else if code == 0x0206 {
            Some(PCI_SUBCLASS_ID::PICMGController)
        } else if code == 0x0207 {
            Some(PCI_SUBCLASS_ID::InfinibandController)
        } else if code == 0x0208 {
            Some(PCI_SUBCLASS_ID::FabricController)
        } else if code == 0x0300 {
            Some(PCI_SUBCLASS_ID::VGACompatibleController)
        } else if code == 0x0301 {
            Some(PCI_SUBCLASS_ID::XGAController)
        } else if code == 0x0302 {
            Some(PCI_SUBCLASS_ID::ThreeDController)
        } else {
            None
        }
    }

    /// The entry that a code stands for, if the catalogue has one.
    pub fn from_code(code: u16) -> (entry: Option<PCI_SUBCLASS_ID>)
        ensures
            entry == Self::spec_from_code(code),
            forall|other: PCI_SUBCLASS_ID| other.spec_code() == code <==> entry == Some(other),
    {
        if code == 0x0000 {
            Some(PCI_SUBCLASS_ID::VGACompatibleUnclassifiedDevice)
        } else if code == 0x0001 {
            Some(PCI_SUBCLASS_ID::NonVGACompatibleUnclassifiedDevice)
        } else if code == 0x0100 {
            Some(PCI_SUBCLASS_ID::SCSIBusController)
        } else if code == 0x0101 {
            Some(PCI_SUBCLASS_ID::IDEController)
        } else if code == 0x0102 {
            Some(PCI_SUBCLASS_ID::FloppyDiskController)
        } else if code == 0x0103 {
            Some(PCI_SUBCLASS_ID::IPIBusController)
        } else if code == 0x0104 {
            Some(PCI_SUBCLASS_ID::RADIController)
        } else if code == 0x0105 {
            Some(PCI_SUBCLASS_ID::ATAController)
        } else if code == 0x0106 {
            Some(PCI_SUBCLASS_ID::SerialATAController)
        } else if code == 0x0107 {
            Some(PCI_SUBCLASS_ID::SerialAttachedSCSIController)
        } else if code == 0x0108 {
            Some(PCI_SUBCLASS_ID::NonVolatileMemoryController)
        } else if code == 0x0200 {
            Some(PCI_SUBCLASS_ID::EthernetController)
        } else if code == 0x0201 {
            Some(PCI_SUBCLASS_ID::TokenRingController)
        } else if code == 0x0202 {
            Some(PCI_SUBCLASS_ID::FDDIController)
        } else if code == 0x0203 {
            Some(PCI_SUBCLASS_ID::ATMController)
        } else if code == 0x0204 {
            Some(PCI_SUBCLASS_ID::ISDNController)
        } else if code == 0x0205 {
            Some(PCI_SUBCLASS_ID::WorldFipController)
        } else if code == 0x0206 {
            Some(PCI_SUBCLASS_ID::PICMGController)
        } else if code == 0x0207 {
            Some(PCI_SUBCLASS_ID::InfinibandController)
        } else if code == 0x0208 {
            Some(PCI_SUBCLASS_ID::FabricController)
        } else if code == 0x0300 {
            Some(PCI_SUBCLASS_ID::VGACompatibleController)
        } else if code == 0x0301 {
            Some(PCI_SUBCLASS_ID::XGAController)
        } else if code == 0x0302 {
            Some(PCI_SUBCLASS_ID::ThreeDController)
        } else {
            None
        }
    }
}

/// Every entry is found again under its own code: no two entries share one.
pub proof fn lemma_code_finds_entry(entry: PCI_SUBCLASS_ID)
    ensures
        PCI_SUBCLASS_ID::spec_from_code(entry.spec_code()) == Some(entry),
{
}

/// A code that no entry carries is unknown to the catalogue.
pub proof fn lemma_unknown_code(code: u16)
    requires
        forall|entry: PCI_SUBCLASS_ID| entry.spec_code() != code,
    ensures
        PCI_SUBCLASS_ID::spec_from_code(code) is None,
{
    if PCI_SUBCLASS_ID::spec_from_code(code) is Some {
        let entry = PCI_SUBCLASS_ID::spec_from_code(code)->0;
        assert(entry.spec_code() == code);
    }
}

/// The name of a subclass within its class, where the catalogue has one.
pub open spec fn spec_subclass_name(class_id: u8, subclass_id: u8) -> Option<Seq<char>> {
    match PCI_SUBCLASS_ID::spec_from_code(spec_subclass_key(class_id, subclass_id)) {
        Some(entry) => Some(entry.spec_name()),
        None => None,
    }
}

/// The name of a subclass within its class, or nothing where the catalogue
/// has no entry for the pair.
pub fn get_subclass_name(class_id: u8, subclass_id: u8) -> (name: Option<&'static str>)
    ensures
        name is Some <==> spec_subclass_name(class_id, subclass_id) is Some,
        name is Some ==> name->0@ == spec_subclass_name(class_id, subclass_id)->0,
{
    match PCI_SUBCLASS_ID::from_code(subclass_key(class_id, subclass_id)) {
        Some(entry) => Some(entry.name()),
        None => None,
    }
}

} // verus!
