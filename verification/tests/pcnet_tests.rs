use pcnet_pci::pci::comms::PortOp;
use pcnet_pci::pci::model::{PciDevice, PciDeviceAddress, PciDeviceBinding};
use pcnet_pci::pcnet::buffers::{
    decode_size, encode_size, length_code, BufferManager, DescriptorEntry, DescriptorRingBuffer, DmaRegions,
    InitBlock, PacketBuffer, PacketRingBuffer, BUFFER_SIZE, NUM_RECEIVE_BUFFERS, NUM_TRANSMIT_BUFFERS,
};
use pcnet_pci::pcnet::device::{Action, DriverState, PcNet, PcNetError, Step};
use pcnet_pci::pcnet::layout::{u32_from_le, u32_le};
use pcnet_pci::pcnet::ports::IoPorts;
use pcnet_pci::pcnet::support::{AddrError, AddrTranslator};
use pcnet_pci::startup::{init_pcnet_card, PHYS_MEMORY_OFFSET};

const OFFSET: u64 = 0x4444_441C_0000;

fn regions_at(base: u64) -> DmaRegions {
    DmaRegions {
        receive_buffers: base + 0x10_0000,
        transmit_buffers: base + 0x20_0000,
        receive_descriptors: base + 0x30_0000,
        transmit_descriptors: base + 0x30_1000,
        init_block: base + 0x30_2000,
    }
}

fn card_binding(bar0: u32) -> PciDeviceBinding {
    PciDeviceBinding {
        address: PciDeviceAddress { bus: 0, device: 4, function: 0 },
        device: PciDevice {
            vendor: 0x1022,
            device: 0x2000,
            status: 0x0280,
            command: 0x0103,
            class: 0x02,
            subclass: 0,
            prog_if: 0,
            revision: 0x10,
            header_type: 0,
            bar0,
            bar1: 0,
            bar2: 0,
            bar3: 0,
            bar4: 0,
            bar5: 0,
            interrupt_pin: 1,
            interrupt_line: 11,
        },
    }
}

/// A card that answers the bring-up: the registers it keeps and the
/// operations it saw.
struct FakeCard {
    command: u32,
    csr: Vec<u32>,
    bcr: Vec<u32>,
    polls_until_done: u32,
    log: Vec<Action>,
    ports: Vec<PortOp>,
}

fn fake_card(polls_until_done: u32) -> FakeCard {
    let mut csr = vec![0u32; 128];
    csr[0] = 0x0004;
    csr[58] = 0xABCD_1234;
    let mut bcr = vec![0u32; 64];
    bcr[2] = 0x0000_1000;
    FakeCard { command: 0x0280_0103, csr, bcr, polls_until_done, log: Vec::new(), ports: Vec::new() }
}

fn answer(card: &mut FakeCard, action: Action) -> u32 {
    card.log.push(action);
    match action {
        Action::ConfigRead { .. } => card.command,
        Action::ConfigWrite { value, .. } => {
            card.command = value;
            0
        }
        Action::ReadReset32 | Action::ReadReset16 | Action::Delay | Action::PublishRings | Action::Idle => 0,
        Action::WriteRdp { .. } => 0,
        Action::ReadCsr { number } => {
            if number == 0 && card.csr[0] & 1 != 0 {
                if card.polls_until_done == 0 {
                    card.csr[0] |= 0x100;
                } else {
                    card.polls_until_done -= 1;
                }
            }
            card.csr[number as usize]
        }
        Action::WriteCsr { number, value } => {
            card.csr[number as usize] = value;
            0
        }
        Action::ReadBcr { number } => card.bcr[number as usize],
        Action::WriteBcr { number, value } => {
            card.bcr[number as usize] = value;
            0
        }
        Action::ReadAprom0 => 0x1200_5452,
        Action::ReadAprom4 => 0xFFFF_5634,
    }
}

fn bring_up(driver: &mut PcNet, card: &mut FakeCard) {
    let mut steps = 0;
    loop {
        let action = driver.pending();
        if action == Action::Idle {
            break;
        }
        card.ports.extend(driver.pending_ops());
        let reply = answer(card, action);
        driver.advance(reply);
        steps += 1;
        assert!(steps < 1000);
    }
}

fn running_driver() -> PcNet {
    let mut driver = PcNet::initialize(card_binding(0xC001), OFFSET, regions_at(OFFSET)).unwrap();
    let mut card = fake_card(0);
    bring_up(&mut driver, &mut card);
    assert_eq!(driver.state(), DriverState::Running);
    driver
}

#[test]
fn translate_is_distance_from_offset() {
    let translator = AddrTranslator::new(OFFSET);
    assert_eq!(translator.translate(OFFSET), Ok(0));
    assert_eq!(translator.translate(OFFSET + 0x1234), Ok(0x1234));
    assert_eq!(translator.translate(OFFSET + 0x7FFF_FFFF), Ok(0x7FFF_FFFF));
    assert_eq!(AddrTranslator::new(0).translate(0x10_0000), Ok(0x10_0000));
}

#[test]
fn translate_fails_outside_the_window() {
    let translator = AddrTranslator::new(OFFSET);
    assert_eq!(translator.translate(OFFSET - 1), Err(AddrError::BelowOffset));
    assert_eq!(translator.translate(0), Err(AddrError::BelowOffset));
    assert_eq!(translator.translate(OFFSET + (1 << 31)), Err(AddrError::BeyondLimit));
    assert_eq!(translator.translate(u64::MAX), Err(AddrError::BeyondLimit));
    assert_eq!(PHYS_MEMORY_OFFSET, 0x4444_441C_0000);
}

#[test]
fn size_field_round_trip() {
    for n in [1usize, 64, 1500, 1520, 4096] {
        let field = encode_size(n);
        assert_eq!(field >> 12, 0b1111);
        assert_eq!(decode_size(field), n);
    }
    for n in 1usize..=4096 {
        assert_eq!(decode_size(encode_size(n)), n);
        assert_eq!(encode_size(n) & 0xF000, 0xF000);
        assert_eq!(encode_size(n) & 0x0FFF, (n as u16).wrapping_neg() & 0x0FFF);
    }
}

#[test]
fn size_field_values() {
    assert_eq!(encode_size(1520), 0xFA10);
    assert_eq!(encode_size(1), 0xFFFF);
    assert_eq!(encode_size(64), 0xFFC0);
    assert_eq!(encode_size(1500), 0xFA24);
    assert_eq!(encode_size(4096), 0xF000);
    assert_eq!(encode_size(0), 0xF000);
    assert_eq!(decode_size(0xFA10), 1520);
    assert_eq!(decode_size(0xF000), 4096);
    assert_eq!(decode_size(0x0A10), 1520);
}

#[test]
fn descriptor_ownership() {
    let mut entry = DescriptorEntry::new();
    assert!(entry.driver_has_ownership());
    entry.set_card_ownership();
    assert_eq!(entry.ownership, 0x80);
    assert!(!entry.driver_has_ownership());
    entry.ownership = 0x7F;
    assert!(entry.driver_has_ownership());
    entry.ownership = 0xFF;
    assert!(!entry.driver_has_ownership());
    entry.buffer_address = 0x1234;
    entry.unused1 = 9;
    entry.set_size(1520);
    entry.set_card_ownership();
    assert_eq!(
        entry,
        DescriptorEntry {
            buffer_address: 0x1234,
            size: 0xFA10,
            unused1: 9,
            ownership: 0x80,
            unused2: 0,
            unused3: 0
        }
    );
}

#[test]
fn rings_have_fixed_lengths() {
    let descriptors: DescriptorRingBuffer<32> = DescriptorRingBuffer::new();
    assert_eq!(descriptors.len(), 32);
    assert!(descriptors.entries.iter().all(|e| *e == DescriptorEntry::new()));
    let descriptors: DescriptorRingBuffer<8> = DescriptorRingBuffer::new();
    assert_eq!(descriptors.len(), 8);
    let packets: PacketRingBuffer<8> = PacketRingBuffer::new();
    assert_eq!(packets.len(), 8);
    assert!(packets.buffers.iter().all(|p| p.buffer.iter().all(|b| *b == 0)));
    assert_eq!(PacketBuffer::new().buffer.len(), 1520);
    assert_eq!(NUM_RECEIVE_BUFFERS, 32);
    assert_eq!(NUM_TRANSMIT_BUFFERS, 8);
    assert_eq!(BUFFER_SIZE, 1520);
}

#[test]
fn ring_length_codes() {
    assert_eq!(length_code(32), 0x50);
    assert_eq!(length_code(8), 0x30);
    assert_eq!(length_code(1), 0x00);
    assert_eq!(length_code(512), 0x90);
    let mut block = InitBlock::new();
    block.set_rlen(32);
    block.set_tlen(8);
    assert_eq!(block.rlen, 0x50);
    assert_eq!(block.tlen, 0x30);
    block.set_rlen(4);
    assert_eq!(block.rlen, 0x20);
    assert_eq!(block.tlen, 0x30);
}

#[test]
fn manager_hands_out_physical_addresses() {
    let manager = BufferManager::new(OFFSET, regions_at(OFFSET)).unwrap();
    assert_eq!(manager.address_of_rx_buffer(0), 0x10_0000);
    assert_eq!(manager.address_of_rx_buffer(1), 0x10_0000 + 1520);
    assert_eq!(manager.address_of_rx_buffer(31), 0x10_0000 + 31 * 1520);
    assert_eq!(manager.address_of_tx_buffer(0), 0x20_0000);
    assert_eq!(manager.address_of_tx_buffer(7), 0x20_0000 + 7 * 1520);
    assert_eq!(manager.address_of_rx_descriptor(0), 0x30_0000);
    assert_eq!(manager.address_of_rx_descriptor(31), 0x30_0000 + 31 * 16);
    assert_eq!(manager.address_of_tx_descriptor(0), 0x30_1000);
    assert_eq!(manager.address_of_tx_descriptor(7), 0x30_1000 + 7 * 16);
    assert_eq!(manager.address_of_init_block(), 0x30_2000);
    let translator = AddrTranslator::new(OFFSET);
    for i in 0..32 {
        let virt = regions_at(OFFSET).receive_buffers + (i as u64) * 1520;
        assert_eq!(translator.translate(virt), Ok(manager.address_of_rx_buffer(i)));
        assert_eq!(manager.address_of_rx_buffer(i) as u64, virt - OFFSET);
    }
}

#[test]
fn manager_refuses_structures_outside_the_window() {
    let good = regions_at(OFFSET);
    let mut below = good;
    below.transmit_descriptors = OFFSET - 16;
    assert_eq!(BufferManager::new(OFFSET, below).err(), Some(AddrError::BelowOffset));
    let mut beyond = good;
    beyond.init_block = OFFSET + (1 << 31);
    assert_eq!(BufferManager::new(OFFSET, beyond).err(), Some(AddrError::BeyondLimit));
    let mut straddling = good;
    straddling.receive_buffers = OFFSET + (1 << 31) - 31 * 1520;
    assert_eq!(BufferManager::new(OFFSET, straddling).err(), Some(AddrError::BeyondLimit));
    straddling.receive_buffers = OFFSET + (1 << 31) - 31 * 1520 - 1;
    assert!(BufferManager::new(OFFSET, straddling).is_ok());
    let mut both = good;
    both.receive_buffers = OFFSET + (1 << 31);
    both.transmit_buffers = 0;
    assert_eq!(BufferManager::new(OFFSET, both).err(), Some(AddrError::BeyondLimit));
    let mut wrapping = good;
    wrapping.receive_descriptors = u64::MAX - 10;
    assert_eq!(BufferManager::new(u64::MAX - 20, wrapping).err(), Some(AddrError::BelowOffset));
    let all_high = DmaRegions {
        receive_buffers: u64::MAX - 10,
        transmit_buffers: u64::MAX - 10,
        receive_descriptors: u64::MAX - 10,
        transmit_descriptors: u64::MAX - 10,
        init_block: u64::MAX - 10,
    };
    assert_eq!(BufferManager::new(u64::MAX - 20, all_high).err(), Some(AddrError::BeyondLimit));
}

#[test]
fn initialize_prepares_rings_and_block() {
    let mut manager = BufferManager::new(OFFSET, regions_at(OFFSET)).unwrap();
    manager.init_block.reserved = 0x55AA;
    manager.transmit_descriptors.entries[3].ownership = 0x80;
    manager.receive_descriptors.entries[5].unused2 = 77;
    manager.initialize([0x52, 0x54, 0x00, 0x12, 0x34, 0x56]);
    for i in 0..32 {
        let entry = manager.receive_descriptors.entries[i];
        assert_eq!(entry.ownership & 0x80, 0x80);
        assert!(!entry.driver_has_ownership());
        assert_eq!(entry.buffer_address, manager.address_of_rx_buffer(i));
        assert_eq!(entry.buffer_address, 0x10_0000 + (i as u32) * 1520);
        assert_eq!(entry.size, 0xFA10);
    }
    assert_eq!(manager.receive_descriptors.entries[5].unused2, 77);
    for j in 0..8 {
        let entry = manager.transmit_descriptors.entries[j];
        assert_eq!(entry.ownership & 0x80, 0);
        assert!(entry.driver_has_ownership());
        assert_eq!(entry.buffer_address, 0x20_0000 + (j as u32) * 1520);
        assert_eq!(entry.size, 0xFA10);
    }
    assert_eq!(
        manager.init_block,
        InitBlock {
            mode: 0,
            rlen: 0x50,
            tlen: 0x30,
            mac0: 0x52,
            mac1: 0x54,
            mac2: 0x00,
            mac3: 0x12,
            mac4: 0x34,
            mac5: 0x56,
            reserved: 0x55AA,
            unused: 0,
            rx_desc_phys_addr: 0x30_0000,
            tx_desc_phys_addr: 0x30_1000,
        }
    );
}

#[test]
fn descriptor_layout_is_packed_little_endian() {
    let entry = DescriptorEntry {
        buffer_address: 0x1122_3344,
        size: 0xFA10,
        unused1: 0x5A,
        ownership: 0x80,
        unused2: 0xA1B2_C3D4,
        unused3: 0x0102_0304,
    };
    let bytes = entry.to_bytes();
    assert_eq!(
        bytes,
        [0x44, 0x33, 0x22, 0x11, 0x10, 0xFA, 0x5A, 0x80, 0xD4, 0xC3, 0xB2, 0xA1, 0x04, 0x03, 0x02, 0x01]
    );
    assert_eq!(DescriptorEntry::from_bytes(&bytes), entry);
    assert_eq!(u32_le(0x1122_3344), [0x44, 0x33, 0x22, 0x11]);
    assert_eq!(u32_from_le(0x44, 0x33, 0x22, 0x11), 0x1122_3344);
    assert_eq!(u32_from_le(0xFF, 0xFF, 0xFF, 0xFF), u32::MAX);
}

#[test]
fn init_block_layout_is_packed_little_endian() {
    let block = InitBlock {
        mode: 0x0201,
        rlen: 0x50,
        tlen: 0x30,
        mac0: 0x52,
        mac1: 0x54,
        mac2: 0x00,
        mac3: 0x12,
        mac4: 0x34,
        mac5: 0x56,
        reserved: 0x0B0A,
        unused: 0x1817_1615_1413_1211,
        rx_desc_phys_addr: 0x0030_0000,
        tx_desc_phys_addr: 0x0030_1000,
    };
    assert_eq!(
        block.to_bytes(),
        [
            0x01, 0x02, 0x50, 0x30, 0x52, 0x54, 0x00, 0x12, 0x34, 0x56, 0x0A, 0x0B, 0x11, 0x12, 0x13, 0x14, 0x15,
            0x16, 0x17, 0x18, 0x00, 0x00, 0x30, 0x00, 0x00, 0x10, 0x30, 0x00
        ]
    );
}

#[test]
fn io_window_accessors() {
    assert_eq!(IoPorts::base_of_bar0(0x0000_C001), 0xC000);
    assert_eq!(IoPorts::base_of_bar0(0x0000_C003), 0xC000);
    assert_eq!(IoPorts::base_of_bar0(0x0001_C105), 0xC104);
    assert_eq!(IoPorts::new(0xFFE4), None);
    assert!(IoPorts::new(0xFFE3).is_some());
    let ports = IoPorts::new(0xC000).unwrap();
    assert_eq!(ports.read_aprom0(), [PortOp::Read32 { port: 0xC000 }]);
    assert_eq!(ports.read_aprom4(), [PortOp::Read32 { port: 0xC004 }]);
    assert_eq!(ports.read_reset32(), [PortOp::Read32 { port: 0xC018 }]);
    assert_eq!(ports.read_reset16(), [PortOp::Read16 { port: 0xC014 }]);
    assert_eq!(ports.write_rap32(58), [PortOp::Write32 { port: 0xC014, value: 58 }]);
    assert_eq!(ports.write_rdp32(0), [PortOp::Write32 { port: 0xC010, value: 0 }]);
    assert_eq!(
        ports.read_csr32(58),
        [PortOp::Write32 { port: 0xC014, value: 58 }, PortOp::Read32 { port: 0xC010 }]
    );
    assert_eq!(
        ports.write_csr32(1, 0x2000),
        [PortOp::Write32 { port: 0xC014, value: 1 }, PortOp::Write32 { port: 0xC010, value: 0x2000 }]
    );
    assert_eq!(ports.read_bcr32(2), [PortOp::Write32 { port: 0xC014, value: 2 }, PortOp::Read32 { port: 0xC01C }]);
    assert_eq!(
        ports.write_bcr32(2, 0x1002),
        [PortOp::Write32 { port: 0xC014, value: 2 }, PortOp::Write32 { port: 0xC01C, value: 0x1002 }]
    );
}

#[test]
fn mac_is_taken_from_the_address_prom() {
    assert_eq!(IoPorts::read_mac_address(0x1200_5452, 0xFFFF_5634), [0x52, 0x54, 0x00, 0x12, 0x34, 0x56]);
    assert_eq!(IoPorts::read_mac_address(0x0403_0201, 0x0000_0605), [1, 2, 3, 4, 5, 6]);
}

#[test]
fn driver_is_refused_without_addresses_or_window() {
    let mut bad = regions_at(OFFSET);
    bad.init_block = OFFSET - 1;
    assert_eq!(
        PcNet::initialize(card_binding(0xC001), OFFSET, bad).err(),
        Some(PcNetError::Address(AddrError::BelowOffset))
    );
    assert_eq!(
        PcNet::initialize(card_binding(0xFFE5), OFFSET, regions_at(OFFSET)).err(),
        Some(PcNetError::IoBase)
    );
    assert_eq!(
        PcNet::initialize(card_binding(0xFFE5), OFFSET, bad).err(),
        Some(PcNetError::Address(AddrError::BelowOffset))
    );
    let driver = init_pcnet_card(card_binding(0xC001), regions_at(PHYS_MEMORY_OFFSET)).unwrap();
    assert_eq!(driver.state(), DriverState::Uninitialized);
    assert_eq!(driver.step, Step::ReadCommand);
    assert_eq!(driver.io_ports.io_base, 0xC000);
    assert_eq!(driver.read_mac_address(), None);
    assert_eq!(driver.buffer_manager.translator.physical_memory_offset, 0x4444_441C_0000);
    assert_eq!(
        init_pcnet_card(card_binding(0xC001), regions_at(0x1000)).err(),
        Some(PcNetError::Address(AddrError::BelowOffset))
    );
}

#[test]
fn bring_up_sequence() {
    let mut driver = PcNet::initialize(card_binding(0xC001), OFFSET, regions_at(OFFSET)).unwrap();
    let mut card = fake_card(2);
    bring_up(&mut driver, &mut card);
    let init_phys: u32 = 0x30_2000;
    let expected = vec![
        Action::ConfigRead { offset: 4 },
        Action::ConfigWrite { offset: 4, value: 0x0280_0005 },
        Action::ReadReset32,
        Action::ReadReset16,
        Action::Delay,
        Action::WriteRdp { value: 0 },
        Action::ReadCsr { number: 58 },
        Action::WriteCsr { number: 58, value: (0xABCD_1234 & 0xFF00) | 2 },
        Action::ReadBcr { number: 2 },
        Action::WriteBcr { number: 2, value: 0x1000 | 0x2 },
        Action::ReadAprom0,
        Action::ReadAprom4,
        Action::PublishRings,
        Action::WriteCsr { number: 1, value: init_phys & 0xFFFF },
        Action::WriteCsr { number: 2, value: (init_phys >> 16) & 0xFFFF },
        Action::ReadCsr { number: 0 },
        Action::WriteCsr { number: 0, value: 0x0005 },
        Action::ReadCsr { number: 0 },
        Action::ReadCsr { number: 0 },
        Action::ReadCsr { number: 0 },
        Action::ReadCsr { number: 0 },
        Action::WriteCsr { number: 0, value: 0x0102 },
    ];
    assert_eq!(card.log, expected);
    assert_eq!(driver.state(), DriverState::Running);
    assert_eq!(driver.failure, None);
    assert_eq!(driver.read_mac_address(), Some([0x52, 0x54, 0x00, 0x12, 0x34, 0x56]));
    assert_eq!(card.command, 0x0280_0005);
    assert_eq!(card.csr[58], 0x1202);
    assert_eq!(card.bcr[2], 0x1002);
    assert_eq!(card.csr[1], 0x2000);
    assert_eq!(card.csr[2], 0x0030);
    assert_eq!(card.csr[0] & 0x7, 0x2);
    assert_eq!(driver.buffer_manager.init_block.rx_desc_phys_addr, 0x30_0000);
    assert_eq!(driver.buffer_manager.init_block.mac5, 0x56);
    assert!(driver.buffer_manager.receive_descriptors.entries.iter().all(|e| e.ownership == 0x80));
    assert!(driver.buffer_manager.transmit_descriptors.entries.iter().all(|e| e.ownership == 0));
}

#[test]
fn bring_up_port_accesses() {
    let mut driver = PcNet::initialize(card_binding(0xC001), OFFSET, regions_at(OFFSET)).unwrap();
    let mut card = fake_card(0);
    bring_up(&mut driver, &mut card);
    let head = vec![
        PortOp::Write32 { port: 0xCF8, value: 0x8000_2004 },
        PortOp::Read32 { port: 0xCFC },
        PortOp::Write32 { port: 0xCF8, value: 0x8000_2004 },
        PortOp::Write32 { port: 0xCFC, value: 0x0280_0005 },
        PortOp::Read32 { port: 0xC018 },
        PortOp::Read16 { port: 0xC014 },
        PortOp::Write32 { port: 0xC010, value: 0 },
        PortOp::Write32 { port: 0xC014, value: 58 },
        PortOp::Read32 { port: 0xC010 },
        PortOp::Write32 { port: 0xC014, value: 58 },
        PortOp::Write32 { port: 0xC010, value: 0x1202 },
        PortOp::Write32 { port: 0xC014, value: 2 },
        PortOp::Read32 { port: 0xC01C },
        PortOp::Write32 { port: 0xC014, value: 2 },
        PortOp::Write32 { port: 0xC01C, value: 0x1002 },
        PortOp::Read32 { port: 0xC000 },
        PortOp::Read32 { port: 0xC004 },
        PortOp::Write32 { port: 0xC014, value: 1 },
        PortOp::Write32 { port: 0xC010, value: 0x2000 },
    ];
    assert_eq!(&card.ports[..head.len()], &head[..]);
    assert_eq!(driver.pending_ops(), vec![]);
}

#[test]
fn bring_up_states() {
    let mut driver = PcNet::initialize(card_binding(0xC001), OFFSET, regions_at(OFFSET)).unwrap();
    let mut card = fake_card(0);
    let mut states = Vec::new();
    while driver.pending() != Action::Idle {
        states.push(driver.state());
        let reply = answer(&mut card, driver.pending());
        driver.advance(reply);
    }
    states.push(driver.state());
    let mut expected = vec![DriverState::Uninitialized; 2];
    expected.extend(vec![DriverState::Resetting; 4]);
    expected.extend(vec![DriverState::Configured; 14]);
    expected.push(DriverState::Running);
    assert_eq!(states, expected);
    driver.advance(0xFFFF_FFFF);
    assert_eq!(driver.state(), DriverState::Running);
    assert_eq!(driver.failure, None);
    driver.stop();
    assert_eq!(driver.state(), DriverState::Stopped);
    assert_eq!(driver.pending(), Action::Idle);
    driver.advance(0);
    assert_eq!(driver.state(), DriverState::Stopped);
}

#[test]
fn vanished_card_stops_the_bring_up() {
    let mut driver = PcNet::initialize(card_binding(0xC001), OFFSET, regions_at(OFFSET)).unwrap();
    driver.advance(0xFFFF_FFFF);
    assert_eq!(driver.state(), DriverState::Stopped);
    assert_eq!(driver.failure, Some(PcNetError::CardVanished));
    assert_eq!(driver.pending(), Action::Idle);

    let mut driver = PcNet::initialize(card_binding(0xC001), OFFSET, regions_at(OFFSET)).unwrap();
    let mut card = fake_card(0);
    for _ in 0..6 {
        let reply = answer(&mut card, driver.pending());
        driver.advance(reply);
    }
    assert_eq!(driver.pending(), Action::ReadCsr { number: 58 });
    driver.advance(0xFFFF_FFFF);
    assert_eq!(driver.state(), DriverState::Stopped);
    assert_eq!(driver.failure, Some(PcNetError::CardVanished));

    let mut driver = PcNet::initialize(card_binding(0xC001), OFFSET, regions_at(OFFSET)).unwrap();
    driver.advance(0x0280_0103);
    assert_eq!(driver.pending(), Action::ConfigWrite { offset: 4, value: 0x0280_0005 });
    driver.advance(0xFFFF_FFFF);
    assert_eq!(driver.pending(), Action::ReadReset32);
    assert_eq!(driver.failure, None);
}

#[test]
fn receive_slot_is_claimed_and_rearmed() {
    let mut driver = running_driver();
    let address = driver.buffer_manager.receive_descriptors.entries[0].buffer_address;
    assert_eq!(driver.buffer_manager.receive_descriptors.entries[0].ownership & 0x80, 0x80);
    // the card has left a frame in slot 0: its descriptor's owner bit reads 0
    assert_eq!(driver.poll_recv_packets(0x00), Some(0));
    assert_eq!(driver.buffer_manager.receive_descriptors.entries[0].ownership & 0x80, 0x80);
    assert_eq!(driver.buffer_manager.receive_descriptors.entries[0].buffer_address, address);
    assert_eq!(address, driver.buffer_manager.address_of_rx_buffer(0));
    assert_eq!(driver.rx_index, 1);
    // slot 1 is still the card's
    assert_eq!(driver.poll_recv_packets(0x80), None);
    assert_eq!(driver.rx_index, 2);
    assert_eq!(driver.poll_recv_packets(0x03), Some(2));
    assert_eq!(driver.buffer_manager.receive_descriptors.entries[2].ownership, 0x80);
}

#[test]
fn receive_cursor_walks_the_ring() {
    let mut driver = running_driver();
    let mut seen = Vec::new();
    for round in 0..70 {
        let status = if round % 3 == 0 { 0x00 } else { 0x80 };
        let before = driver.rx_index;
        assert_eq!(before, round % 32);
        if let Some(slot) = driver.poll_recv_packets(status) {
            assert_eq!(slot, before);
            seen.push(slot);
        }
    }
    assert_eq!(driver.rx_index, 70 % 32);
    assert_eq!(seen.len(), 24);
    assert_eq!(&seen[..4], &[0, 3, 6, 9]);
    let mut idle = PcNet::initialize(card_binding(0xC001), OFFSET, regions_at(OFFSET)).unwrap();
    assert_eq!(idle.poll_recv_packets(0x00), None);
    assert_eq!(idle.rx_index, 0);
}

#[test]
fn transmit_takes_the_first_free_slot() {
    let mut driver = running_driver();
    let frame: Vec<u8> = (0..64u8).collect();
    assert_eq!(driver.transmit(&frame), Ok(0));
    let entry = driver.buffer_manager.transmit_descriptors.entries[0];
    assert_eq!(entry.ownership, 0x80);
    assert_eq!(entry.size, 0xFFC0);
    assert_eq!(entry.buffer_address, 0x20_0000);
    assert_eq!(&driver.buffer_manager.transmit_buffers.buffers[0].buffer[..64], &frame[..]);
    assert!(driver.buffer_manager.transmit_buffers.buffers[0].buffer[64..].iter().all(|b| *b == 0));
    assert_eq!(driver.transmit(&[0xAA; 1520]), Ok(1));
    assert_eq!(driver.buffer_manager.transmit_descriptors.entries[1].size, 0xFA10);
    assert!(driver.buffer_manager.transmit_buffers.buffers[1].buffer.iter().all(|b| *b == 0xAA));
    assert_eq!(driver.free_transmit_slot(), Some(2));
    assert_eq!(
        driver.transmit_demand(),
        [PortOp::Write32 { port: 0xC014, value: 0 }, PortOp::Write32 { port: 0xC010, value: 0x8 }]
    );
    driver.complete_transmit(0, 0x03);
    assert_eq!(driver.buffer_manager.transmit_descriptors.entries[0].ownership, 0x03);
    assert_eq!(driver.transmit(&[1, 2, 3]), Ok(0));
    assert_eq!(&driver.buffer_manager.transmit_buffers.buffers[0].buffer[..5], &[1, 2, 3, 3, 4]);
}

#[test]
fn transmit_failures() {
    let mut driver = PcNet::initialize(card_binding(0xC001), OFFSET, regions_at(OFFSET)).unwrap();
    assert_eq!(driver.transmit(&[1, 2, 3]), Err(PcNetError::NotRunning));
    assert_eq!(driver.transmit(&[]), Err(PcNetError::NotRunning));
    let mut driver = running_driver();
    assert_eq!(driver.transmit(&[]), Err(PcNetError::FrameLength));
    assert_eq!(driver.transmit(&[0; 1521]), Err(PcNetError::FrameLength));
    for slot in 0..8 {
        assert_eq!(driver.transmit(&[slot as u8; 10]), Ok(slot));
    }
    let before = driver.buffer_manager;
    assert_eq!(driver.transmit(&[9; 10]), Err(PcNetError::Backpressure));
    assert_eq!(driver.free_transmit_slot(), None);
    assert!(driver.buffer_manager == before);
    assert_eq!(driver.transmit(&[0; 1521]), Err(PcNetError::FrameLength));
    driver.complete_transmit(5, 0x00);
    assert_eq!(driver.transmit(&[9; 10]), Ok(5));
    driver.stop();
    assert_eq!(driver.transmit(&[9; 10]), Err(PcNetError::NotRunning));
}

#[test]
fn physical_addresses_are_reported() {
    let driver = running_driver();
    assert_eq!(
        driver.dump_phys_addresses(),
        vec![
            "rx_bufs[31]: 0x10b810",
            "tx_bufs[7]: 0x202990",
            "rx_desc[0]: 0x300000",
            "tx_desc[0]: 0x301000",
            "init_struct: 0x302000"
        ]
    );
}

#[test]
fn bounded_wait_for_initialization() {
    let mut driver = PcNet::initialize(card_binding(0xC001), OFFSET, regions_at(OFFSET)).unwrap();
    assert_eq!(driver.poll_budget, None);
    driver.limit_polls(Some(2));
    let mut card = fake_card(2);
    bring_up(&mut driver, &mut card);
    assert_eq!(driver.state(), DriverState::Running);
    assert_eq!(driver.failure, None);
    assert_eq!(driver.poll_budget, Some(0));

    let mut driver = PcNet::initialize(card_binding(0xC001), OFFSET, regions_at(OFFSET)).unwrap();
    driver.limit_polls(Some(2));
    let mut card = fake_card(3);
    bring_up(&mut driver, &mut card);
    assert_eq!(driver.state(), DriverState::Stopped);
    assert_eq!(driver.failure, Some(PcNetError::InitTimeout));
    let polls = card.log.iter().filter(|a| **a == Action::ReadCsr { number: 0 }).count();
    assert_eq!(polls, 1 + 3);

    let mut driver = PcNet::initialize(card_binding(0xC001), OFFSET, regions_at(OFFSET)).unwrap();
    driver.limit_polls(Some(0));
    let mut card = fake_card(1);
    bring_up(&mut driver, &mut card);
    assert_eq!(driver.failure, Some(PcNetError::InitTimeout));

    let mut driver = PcNet::initialize(card_binding(0xC001), OFFSET, regions_at(OFFSET)).unwrap();
    let mut card = fake_card(500);
    bring_up(&mut driver, &mut card);
    assert_eq!(driver.state(), DriverState::Running);
    assert_eq!(driver.failure, None);
}
