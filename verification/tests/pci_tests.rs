use pcnet_pci::devices::pci::{read_pci_device, show, PciDeviceClass, PciVendor, PCI_DEVICE_CLASS, PCI_VENDOR_ID};
use pcnet_pci::pci::comms::{config_read, config_write, get_address, PortOp, CONFIG_ADDRESS, CONFIG_DATA};
use pcnet_pci::pci::database::class_ids::{get_class_name, PCI_CLASS_ID};
use pcnet_pci::pci::database::device_ids::get_device_name;
use pcnet_pci::pci::database::prog_if_ids::get_prog_if_name;
use pcnet_pci::pci::database::subclass_ids::{get_subclass_name, subclass_key, PCI_SUBCLASS_ID};
use pcnet_pci::pci::database::vendor_ids::{get_vendor_name, PCI_VENDOR_NAME};
use pcnet_pci::pci::detect::{detect_all_devices, detect_device, register_offset, slot_address, Scanner};
use pcnet_pci::pci::model::{PciDevice, PciDeviceAddress, PciDeviceBinding};
use pcnet_pci::shortcuts::format_mac_address;
use pcnet_pci::startup::{init_pci_devices, mac_line, select_pcnet_card};

fn blank_device() -> PciDevice {
    PciDevice {
        vendor: 0,
        device: 0,
        status: 0,
        command: 0,
        class: 0,
        subclass: 0,
        prog_if: 0,
        revision: 0,
        header_type: 0,
        bar0: 0,
        bar1: 0,
        bar2: 0,
        bar3: 0,
        bar4: 0,
        bar5: 0,
        interrupt_pin: 0,
        interrupt_line: 0,
    }
}

fn at(bus: u8, device: u8, function: u8) -> PciDeviceAddress {
    PciDeviceAddress { bus, device, function }
}

/// The configuration space of a small machine: what a dword read returns.
fn machine(address: PciDeviceAddress, offset: u8) -> u32 {
    let signature: u32 = match (address.bus, address.device, address.function) {
        (0, 0, 0) => 0x1237_8086,
        (0, 1, 0) => 0x7000_8086,
        (0, 1, 1) => 0x7010_8086,
        (0, 1, 3) => 0x7113_8086,
        (0, 2, 0) => 0x1111_1234,
        (0, 3, 0) => 0x100E_8086,
        (0, 4, 0) => 0x2000_1022,
        _ => return 0xFFFF_FFFF,
    };
    match offset {
        0 => signature,
        4 => 0x0280_0103,
        8 => match signature {
            0x1237_8086 => 0x0600_0002,
            0x7000_8086 => 0x0601_0000,
            0x7010_8086 => 0x0101_8000,
            0x7113_8086 => 0x0680_0003,
            0x1111_1234 => 0x0300_0002,
            0x100E_8086 => 0x0200_0003,
            _ => 0x0200_0010,
        },
        12 => 0x0080_0000,
        16 => 0x0000_C001 + ((address.device as u32) << 8),
        60 => 0x0000_010B,
        _ => 0,
    }
}

fn scan_machine() -> Vec<PciDeviceBinding> {
    let mut scanner: Scanner = detect_all_devices();
    let mut reads: u64 = 0;
    while let Some((address, offset)) = scanner.pending() {
        scanner.supply(machine(address, offset));
        reads += 1;
        assert!(reads <= 65536 * 11);
    }
    assert!(scanner.finished());
    assert_eq!(reads, 65536 - 7 + 7 * 11);
    scanner.into_bindings()
}

#[test]
fn address_of_given_triple() {
    assert_eq!(get_address(0x10, 0x1F, 7, 0x3E), 0x8010_FF3C);
}

#[test]
fn address_follows_formula() {
    for bus in [0u8, 1, 0x10, 0x7F, 0xFF] {
        for device in [0u8, 1, 0x0A, 0x1F] {
            for function in 0u8..8 {
                for offset in [0u8, 1, 2, 3, 4, 0x3C, 0x3E, 0xFC, 0xFF] {
                    let expected: u32 = 0x8000_0000
                        | ((bus as u32) << 16)
                        | ((device as u32) << 11)
                        | ((function as u32) << 8)
                        | ((offset as u32) & 0xFC);
                    assert_eq!(get_address(bus, device, function, offset), expected);
                }
            }
        }
    }
    assert_eq!(get_address(0, 0, 0, 0), 0x8000_0000);
    assert_eq!(get_address(0, 4, 0, 16), 0x8000_2010);
}

#[test]
fn config_read_goes_through_both_ports() {
    assert_eq!(CONFIG_ADDRESS, 0xCF8);
    assert_eq!(CONFIG_DATA, 0xCFC);
    assert_eq!(
        config_read(0, 4, 0, 4),
        [PortOp::Write32 { port: 0xCF8, value: 0x8000_2004 }, PortOp::Read32 { port: 0xCFC }]
    );
}

#[test]
fn config_write_goes_through_both_ports() {
    assert_eq!(
        config_write(0, 4, 0, 5, 0x0280_0005),
        [
            PortOp::Write32 { port: 0xCF8, value: 0x8000_2004 },
            PortOp::Write32 { port: 0xCFC, value: 0x0280_0005 }
        ]
    );
}

#[test]
fn binding_config_access_uses_its_address() {
    let binding = PciDeviceBinding { address: at(0x10, 0x1F, 7), device: blank_device() };
    assert_eq!(
        binding.config_read(0x3E),
        [PortOp::Write32 { port: 0xCF8, value: 0x8010_FF3C }, PortOp::Read32 { port: 0xCFC }]
    );
    assert_eq!(
        binding.config_write(4, 7),
        [PortOp::Write32 { port: 0xCF8, value: 0x8010_FF04 }, PortOp::Write32 { port: 0xCFC, value: 7 }]
    );
}

#[test]
fn absent_signature_gives_no_record() {
    let mut registers = [0x1234_5678u32; 11];
    registers[0] = 0xFFFF_FFFF;
    assert_eq!(detect_device(&registers), None);
}

#[test]
fn header_is_decoded_field_by_field() {
    let registers: [u32; 11] = [
        0x2000_1022,
        0x0280_0103,
        0x0200_0010,
        0x0080_0000,
        0x0000_C001,
        0xFEBF_0000,
        2,
        3,
        4,
        5,
        0xAABB_010B,
    ];
    let expected = PciDevice {
        vendor: 0x1022,
        device: 0x2000,
        status: 0x0280,
        command: 0x0103,
        class: 0x02,
        subclass: 0x00,
        prog_if: 0x00,
        revision: 0x10,
        header_type: 0x80,
        bar0: 0x0000_C001,
        bar1: 0xFEBF_0000,
        bar2: 2,
        bar3: 3,
        bar4: 4,
        bar5: 5,
        interrupt_pin: 0xBB,
        interrupt_line: 0xAA,
    };
    assert_eq!(detect_device(&registers), Some(expected));
}

#[test]
fn record_with_vendor_of_all_ones_is_still_emitted() {
    let mut registers = [0u32; 11];
    registers[0] = 0x1234_FFFF;
    let found = detect_device(&registers).unwrap();
    assert_eq!(found.vendor, 0xFFFF);
    assert_eq!(found.device, 0x1234);
    registers[0] = 0xFFFF_0001;
    let found = detect_device(&registers).unwrap();
    assert_eq!(found.vendor, 0x0001);
    assert_eq!(found.device, 0xFFFF);
}

#[test]
fn register_offsets_in_reading_order() {
    let offsets: Vec<u8> = (0..11).map(register_offset).collect();
    assert_eq!(offsets, vec![0, 4, 8, 12, 16, 20, 24, 28, 32, 36, 60]);
}

#[test]
fn slots_are_visited_bus_then_device_then_function() {
    assert_eq!(slot_address(0), at(0, 0, 0));
    assert_eq!(slot_address(7), at(0, 0, 7));
    assert_eq!(slot_address(8), at(0, 1, 0));
    assert_eq!(slot_address(255), at(0, 31, 7));
    assert_eq!(slot_address(256), at(1, 0, 0));
    assert_eq!(slot_address(65535), at(255, 31, 7));
}

#[test]
fn scan_skips_absent_slot_after_one_read() {
    let mut scanner = detect_all_devices();
    assert_eq!(scanner.pending(), Some((at(0, 0, 0), 0)));
    scanner.supply(0xFFFF_FFFF);
    assert_eq!(scanner.pending(), Some((at(0, 0, 1), 0)));
    assert!(scanner.bindings().is_empty());
    assert!(!scanner.finished());
}

#[test]
fn scan_reads_eleven_dwords_of_present_slot() {
    let mut scanner = detect_all_devices();
    let mut offsets = Vec::new();
    for value in [0x1237_8086u32, 0x0280_0103, 0x0600_0002, 0, 1, 2, 3, 4, 5, 6, 0x0000_010B] {
        let (address, offset) = scanner.pending().unwrap();
        assert_eq!(address, at(0, 0, 0));
        offsets.push(offset);
        scanner.supply(value);
    }
    assert_eq!(offsets, vec![0, 4, 8, 12, 16, 20, 24, 28, 32, 36, 60]);
    assert_eq!(scanner.pending(), Some((at(0, 0, 1), 0)));
    let found = scanner.bindings();
    assert_eq!(found.len(), 1);
    assert_eq!(found[0].address, at(0, 0, 0));
    assert_eq!(found[0].device.vendor, 0x8086);
    assert_eq!(found[0].device.device, 0x1237);
    assert_eq!(found[0].device.class, 0x06);
    assert_eq!(found[0].device.bar0, 1);
    assert_eq!(found[0].device.bar5, 6);
    assert_eq!(found[0].device.interrupt_line, 0);
    assert_eq!(found[0].device.interrupt_pin, 0);
    assert_eq!(found[0].device.revision, 2);
}

#[test]
fn scan_pending_ops_address_the_slot() {
    let mut scanner = detect_all_devices();
    for _ in 0..8 {
        scanner.supply(0xFFFF_FFFF);
    }
    scanner.supply(0x7000_8086);
    assert_eq!(
        scanner.pending_ops(),
        Some([PortOp::Write32 { port: 0xCF8, value: 0x8000_0804 }, PortOp::Read32 { port: 0xCFC }])
    );
}

#[test]
fn scan_of_small_machine() {
    let found = scan_machine();
    let signatures: Vec<(u16, u16)> = found.iter().map(|b| (b.device.vendor, b.device.device)).collect();
    assert_eq!(
        signatures,
        vec![
            (0x8086, 0x1237),
            (0x8086, 0x7000),
            (0x8086, 0x7010),
            (0x8086, 0x7113),
            (0x1234, 0x1111),
            (0x8086, 0x100E),
            (0x1022, 0x2000)
        ]
    );
    assert_eq!(found[0].address, at(0, 0, 0));
    assert_eq!(found[2].address, at(0, 1, 1));
    assert_eq!(found[6].address, at(0, 4, 0));
    assert_eq!(found[6].device.bar0, 0x0000_C401);
    assert_eq!(found[6].device.header_type, 0x80);
    assert_eq!(found[6].device.interrupt_line, 0x00);
    assert_eq!(found[6].device.interrupt_pin, 0x00);
    assert!(found.iter().all(|b| !(b.device.vendor == 0xFFFF && b.device.device == 0xFFFF)));
    assert_eq!(select_pcnet_card(&found), Some(6));
    assert_eq!(found[0].display_line(), "00:00.0 Bridge: 440FX - 82441FX PMC [Natoma]");
    assert_eq!(found[6].display_line(), "00:04.0 NetworkController: 79c970 [PCnet32 LANCE]");
}

#[test]
fn finished_scan_ignores_further_values() {
    let mut scanner = detect_all_devices();
    for _ in 0..65536 {
        scanner.supply(0xFFFF_FFFF);
    }
    assert!(scanner.finished());
    assert_eq!(scanner.pending(), None);
    assert_eq!(scanner.pending_ops(), None);
    scanner.supply(0x2000_1022);
    assert!(scanner.finished());
    assert!(scanner.into_bindings().is_empty());
}

#[test]
fn formatter_falls_back_to_hex() {
    let mut device = blank_device();
    device.vendor = 0xDEAD;
    device.device = 0xBEEF;
    device.class = 0x06;
    let binding = PciDeviceBinding { address: at(0, 0, 0), device };
    assert_eq!(binding.display_line(), "00:00.0 Bridge: 0xbeef");
    let block = binding.display_block();
    assert_eq!(block[0], "00:00.0  vendor: 0xdead");
    assert_eq!(block[1], "00:00.0  device: 0xbeef");
    assert_eq!(block[2], "00:00.0  signature: 0xdead 0xbeef");
    assert_eq!(block[3], "00:00.0  class: Bridge");
}

#[test]
fn block_rendering_has_every_field() {
    let device = PciDevice {
        vendor: 0x8086,
        device: 0x7010,
        status: 0x0280,
        command: 0x0007,
        class: 0x01,
        subclass: 0x01,
        prog_if: 0x80,
        revision: 0,
        header_type: 0x80,
        bar0: 0,
        bar1: 0x10,
        bar2: 0x1F0,
        bar3: 0xFFFF_FFFF,
        bar4: 0xC0A1,
        bar5: 0x1234_5678,
        interrupt_pin: 1,
        interrupt_line: 0x0B,
    };
    let binding = PciDeviceBinding { address: at(0xAB, 0x1F, 7), device };
    let expected = vec![
        "ab:1f.7  vendor: Intel",
        "ab:1f.7  device: 82371SB PIIX3 IDE [Natoma/Triton II]",
        "ab:1f.7  signature: 0x8086 0x7010",
        "ab:1f.7  class: MassStorageController",
        "ab:1f.7  subclass: IDEController",
        "ab:1f.7  prog_if: ISA Compatibility mode-only controller, supports bus mastering",
        "ab:1f.7  revision: 0x0",
        "ab:1f.7  header_type: 0x80",
        "ab:1f.7  status: 0x280",
        "ab:1f.7  command: 0x7",
        "ab:1f.7  bar0: 0x0",
        "ab:1f.7  bar1: 0x10",
        "ab:1f.7  bar2: 0x1f0",
        "ab:1f.7  bar3: 0xffffffff",
        "ab:1f.7  bar4: 0xc0a1",
        "ab:1f.7  bar5: 0x12345678",
        "ab:1f.7  interrupt_pin: 0x1",
        "ab:1f.7  interrupt_line: 0xb",
    ];
    assert_eq!(binding.display_block(), expected);
    assert_eq!(binding.display_line(), "ab:1f.7 MassStorageController: 82371SB PIIX3 IDE [Natoma/Triton II]");
    assert_eq!(binding.address_text(), "ab:1f.7");
}

#[test]
fn name_or_hex_prefers_the_name() {
    assert_eq!(PciDeviceBinding::name_or_hex(Some("Bridge"), 6), "Bridge");
    assert_eq!(PciDeviceBinding::name_or_hex(None, 6), "0x6");
    assert_eq!(PciDeviceBinding::name_or_hex(None, 0), "0x0");
    assert_eq!(PciDeviceBinding::name_or_hex(None, 0x10), "0x10");
    assert_eq!(PciDeviceBinding::name_or_hex(None, 0xABCDEF01), "0xabcdef01");
    for number in [1u32, 9, 10, 15, 16, 255, 256, 4095, 65535, 65536, 0x7FFF_FFFF, u32::MAX] {
        assert_eq!(PciDeviceBinding::name_or_hex(None, number), format!("0x{:x}", number));
    }
}

#[test]
fn device_names_come_from_the_catalogue() {
    let mut device = blank_device();
    device.vendor = 0x1022;
    device.device = 0x2000;
    device.class = 0x02;
    device.subclass = 0x00;
    assert_eq!(device.vendor_name(), Some("AMD"));
    assert_eq!(device.device_name(), Some("79c970 [PCnet32 LANCE]"));
    assert_eq!(device.class_name(), Some("NetworkController"));
    assert_eq!(device.subclass_name(), Some("EthernetController"));
    assert_eq!(device.prog_if_name(), None);
    device.class = 0x03;
    assert_eq!(device.prog_if_name(), Some("VGA Controller"));
    assert_eq!(device.subclass_name(), Some("VGACompatibleController"));
}

#[test]
fn class_catalogue() {
    assert_eq!(get_class_name(0x00), Some("Unclassified"));
    assert_eq!(get_class_name(0x06), Some("Bridge"));
    assert_eq!(get_class_name(0x13), Some("NonEssentialInstrumentation"));
    assert_eq!(get_class_name(0x40), Some("CoProcessor"));
    assert_eq!(get_class_name(0xFF), Some("Unassigned"));
    assert_eq!(get_class_name(0x14), None);
    assert_eq!(get_class_name(0x41), None);
    assert_eq!(PCI_CLASS_ID::Bridge.code(), 0x06);
    assert_eq!(PCI_CLASS_ID::from_code(0x0A), Some(PCI_CLASS_ID::DockingStation));
    assert_eq!(PCI_CLASS_ID::Processor.name(), "Processor");
    let mut known = 0;
    for code in 0u8..=255 {
        if let Some(entry) = PCI_CLASS_ID::from_code(code) {
            assert_eq!(entry.code(), code);
            assert_eq!(get_class_name(code), Some(entry.name()));
            assert_eq!(format!("{:?}", entry), entry.name());
            known += 1;
        } else {
            assert_eq!(get_class_name(code), None);
        }
    }
    assert_eq!(known, 22);
}

#[test]
fn subclass_catalogue() {
    assert_eq!(get_subclass_name(0x00, 0x00), Some("VGACompatibleUnclassifiedDevice"));
    assert_eq!(get_subclass_name(0x01, 0x08), Some("NonVolatileMemoryController"));
    assert_eq!(get_subclass_name(0x02, 0x00), Some("EthernetController"));
    assert_eq!(get_subclass_name(0x03, 0x02), Some("ThreeDController"));
    assert_eq!(get_subclass_name(0x01, 0x80), None);
    assert_eq!(get_subclass_name(0x06, 0x00), None);
    assert_eq!(subclass_key(0x02, 0x07), 0x0207);
    assert_eq!(PCI_SUBCLASS_ID::InfinibandController.code(), 0x0207);
    let mut known = 0;
    for class in 0u8..=255 {
        for subclass in 0u8..=255 {
            if let Some(entry) = PCI_SUBCLASS_ID::from_code(subclass_key(class, subclass)) {
                assert_eq!(entry.code(), ((class as u16) << 8) | subclass as u16);
                assert_eq!(get_subclass_name(class, subclass), Some(entry.name()));
                assert_eq!(format!("{:?}", entry), entry.name());
                known += 1;
            }
        }
    }
    assert_eq!(known, 23);
}

#[test]
fn vendor_catalogue() {
    assert_eq!(get_vendor_name(0x8086), Some("Intel"));
    assert_eq!(get_vendor_name(0x1022), Some("AMD"));
    assert_eq!(get_vendor_name(0x1002), Some("AMD"));
    assert_eq!(get_vendor_name(0x0777), Some("Ubiquitity"));
    assert_eq!(get_vendor_name(0x1000), Some("Broadcom"));
    assert_eq!(get_vendor_name(0xFEDA), Some("Broadcom"));
    assert_eq!(get_vendor_name(0x1014), Some("IBM"));
    assert_eq!(get_vendor_name(0x101C), Some("WesternDigital"));
    assert_eq!(get_vendor_name(0x1028), Some("Dell"));
    assert_eq!(get_vendor_name(0x103C), Some("HP"));
    assert_eq!(get_vendor_name(0x1042), Some("Micron"));
    assert_eq!(get_vendor_name(0x10EC), Some("Realtek"));
    assert_eq!(get_vendor_name(0xDEAD), None);
    assert_eq!(get_vendor_name(0xFFFF), None);
    assert_eq!(PCI_VENDOR_NAME::from_code(0x10EC), Some(PCI_VENDOR_NAME::Realtek));
    assert_eq!(format!("{:?}", PCI_VENDOR_NAME::WesternDigital), PCI_VENDOR_NAME::WesternDigital.name());
}

#[test]
fn device_catalogue() {
    assert_eq!(get_device_name(0x10EC, 0x8139), Some("RTL-8100/8101L/8139 PCI Fast Ethernet Adapter"));
    assert_eq!(get_device_name(0x1022, 0x2000), Some("79c970 [PCnet32 LANCE]"));
    assert_eq!(get_device_name(0x8086, 0x1237), Some("440FX - 82441FX PMC [Natoma]"));
    assert_eq!(get_device_name(0x8086, 0x7000), Some("82371SB PIIX3 ISA [Natoma/Triton II]"));
    assert_eq!(get_device_name(0x8086, 0x7010), Some("82371SB PIIX3 IDE [Natoma/Triton II]"));
    assert_eq!(get_device_name(0x8086, 0x7113), Some("82371AB/EB/MB PIIX4 ACPI"));
    assert_eq!(get_device_name(0x8086, 0x100E), Some("82540EM Gigabit Ethernet Controller"));
    assert_eq!(get_device_name(0x1022, 0x1237), None);
    assert_eq!(get_device_name(0xDEAD, 0xBEEF), None);
}

#[test]
fn prog_if_catalogue() {
    assert_eq!(
        get_prog_if_name(0x01, 0x01, 0x80),
        Some("ISA Compatibility mode-only controller, supports bus mastering")
    );
    assert_eq!(get_prog_if_name(0x03, 0x00, 0x00), Some("VGA Controller"));
    assert_eq!(get_prog_if_name(0x03, 0x00, 0x01), None);
    assert_eq!(get_prog_if_name(0x00, 0x00, 0x00), None);
}

#[test]
fn mac_address_is_printed_in_upper_case() {
    assert_eq!(format_mac_address([0x52, 0x54, 0x00, 0x12, 0x34, 0x56]), "52:54:00:12:34:56");
    assert_eq!(format_mac_address([0xde, 0xad, 0xbe, 0xef, 0x0a, 0xf0]), "DE:AD:BE:EF:0A:F0");
    assert_eq!(format_mac_address([0; 6]), "00:00:00:00:00:00");
    assert_eq!(mac_line([0x52, 0x54, 0x00, 0x12, 0x34, 0x56]), "pcnet32: Using mac address: 52:54:00:12:34:56");
}

#[test]
fn card_is_chosen_by_signature() {
    let mut pcnet = blank_device();
    pcnet.vendor = 0x1022;
    pcnet.device = 0x2000;
    let mut other = blank_device();
    other.vendor = 0x8086;
    other.device = 0x100E;
    let a = PciDeviceBinding { address: at(0, 3, 0), device: other };
    let b = PciDeviceBinding { address: at(0, 4, 0), device: pcnet };
    let c = PciDeviceBinding { address: at(0, 5, 0), device: pcnet };
    assert_eq!(select_pcnet_card(&vec![]), None);
    assert_eq!(select_pcnet_card(&vec![a]), None);
    assert_eq!(select_pcnet_card(&vec![a, b]), Some(1));
    assert_eq!(select_pcnet_card(&vec![b, a]), Some(0));
    assert_eq!(select_pcnet_card(&vec![b, a, c, a]), Some(2));
}

#[test]
fn report_lists_every_device_line_by_line() {
    let mut pcnet = blank_device();
    pcnet.vendor = 0x1022;
    pcnet.device = 0x2000;
    pcnet.class = 0x02;
    let mut bridge = blank_device();
    bridge.vendor = 0xDEAD;
    bridge.device = 0xBEEF;
    bridge.class = 0x06;
    let devices = vec![
        PciDeviceBinding { address: at(0, 0, 0), device: bridge },
        PciDeviceBinding { address: at(0, 4, 0), device: pcnet },
    ];
    let lines = init_pci_devices(&devices);
    assert_eq!(lines.len(), 2 * 19);
    assert_eq!(lines[0], "pci: 00:00.0 Bridge: 0xbeef");
    assert_eq!(lines[1], "pci: 00:00.0  vendor: 0xdead");
    assert_eq!(lines[18], "pci: 00:00.0  interrupt_line: 0x0");
    assert_eq!(lines[19], "pci: 00:04.0 NetworkController: 79c970 [PCnet32 LANCE]");
    assert_eq!(lines[20], "pci: 00:04.0  vendor: AMD");
    assert_eq!(lines[37], "pci: 00:04.0  interrupt_line: 0x0");
    assert!(init_pci_devices(&vec![]).is_empty());
}

#[test]
fn brief_record_is_read_from_two_dwords() {
    assert_eq!(read_pci_device(0xFFFF_FFFF, 0x0600_0002), None);
    assert_eq!(
        read_pci_device(0x1237_8086, 0x0600_0002),
        Some(pcnet_pci::devices::pci::PciDevice { vendor: 0x8086, device: 0x1237, class: 0x06 })
    );
    assert_eq!(
        read_pci_device(0x2000_1022, 0x0200_0010),
        Some(pcnet_pci::devices::pci::PciDevice { vendor: 0x1022, device: 0x2000, class: 0x02 })
    );
}

#[test]
fn brief_listing_names_known_vendors_and_classes() {
    assert_eq!(PciVendor::of(0x8086), PciVendor::Known(PCI_VENDOR_ID::Intel));
    assert_eq!(PciVendor::of(0x1022), PciVendor::Known(PCI_VENDOR_ID::AdvancedMicroDevices));
    assert_eq!(PciVendor::of(0x10EC), PciVendor::Known(PCI_VENDOR_ID::Realtek));
    assert_eq!(PciVendor::of(0x1234), PciVendor::Unknown(0x1234));
    assert_eq!(PciDeviceClass::of(6), PciDeviceClass::Known(PCI_DEVICE_CLASS::Bridge));
    assert_eq!(PciDeviceClass::of(7), PciDeviceClass::Unknown(7));
    assert_eq!(PciVendor::of(0x8086).display(), "Known(Intel)");
    assert_eq!(PciVendor::of(0x8086).display(), format!("{:?}", PciVendor::of(0x8086)));
    assert_eq!(PciVendor::of(0x1234).display(), "Unknown(0x1234)");
    assert_eq!(PciDeviceClass::of(2).display(), "Known(NetworkController)");
    assert_eq!(PciDeviceClass::of(0xFF).display(), "Unknown(0xff)");
    let bridge = pcnet_pci::devices::pci::PciDevice { vendor: 0x8086, device: 0x1237, class: 0x06 };
    assert_eq!(bridge.display(), "PciDevice { vendor: Known(Intel), device: 0x1237, class: Known(Bridge) }");
    let odd = pcnet_pci::devices::pci::PciDevice { vendor: 0xDEAD, device: 0xBEEF, class: 0x40 };
    assert_eq!(odd.display(), "PciDevice { vendor: Unknown(0xdead), device: 0xbeef, class: Unknown(0x40) }");
    let lines = show(&vec![(at(0, 0, 0), bridge), (at(1, 0x1F, 7), odd)]);
    assert_eq!(
        lines,
        vec![
            "00:00.0 PciDevice { vendor: Known(Intel), device: 0x1237, class: Known(Bridge) }",
            "01:1f.7 PciDevice { vendor: Unknown(0xdead), device: 0xbeef, class: Unknown(0x40) }"
        ]
    );
}
