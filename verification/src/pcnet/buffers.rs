//! The card-visible structures and their manager: descriptor rings, packet
//! rings and the initialization block.
//!
//! The manager holds an image of every structure as plain values and knows
//! the kernel-virtual address at which the card-visible copy of each lies.
//! Its caller keeps the copies in step with the images.

use vstd::prelude::*;
use crate::pcnet::support::{spec_translate, AddrError, AddrTranslator, PHYS_LIMIT};

verus! {

/// How many receive descriptors and receive buffers there are.
pub const NUM_RECEIVE_BUFFERS: usize = 32;

/// How many transmit descriptors and transmit buffers there are.
pub const NUM_TRANSMIT_BUFFERS: usize = 8;

/// The size of one packet buffer in bytes.
pub const BUFFER_SIZE: usize = 1520;

/// The size of one descriptor in card-visible memory.
pub const DESCRIPTOR_SIZE: usize = 16;

/// The size of the initialization block in card-visible memory.
pub const INIT_BLOCK_SIZE: usize = 28;

/// The longest buffer that a descriptor's size field can describe.
pub const MAX_BUFFER_LENGTH: usize = 4096;

/// The bit of a descriptor's high status byte that names the owner.
pub const OWN: u8 = 0x80;

/// The size field for a buffer of `length` bytes: the two's complement of
/// the length in the low twelve bits, ones in the top four.
pub open spec fn spec_encode_size(length: int) -> u16
    recommends
        0 <= length <= MAX_BUFFER_LENGTH,
{
    (0xF000 + (4096 - length) % 4096) as u16
}

/// The buffer length that a size field describes, between 1 and 4096.
pub open spec fn spec_decode_size(field: u16) -> int {
    4096 - (field as int % 4096)
}

/// The size field for a buffer of `length` bytes.
pub fn encode_size(length: usize) -> (field: u16)
    requires
        length <= MAX_BUFFER_LENGTH,
    ensures
        field == spec_encode_size(length as int),
        field >= 0xF000,
{
    let low: usize = (4096 - length) % 4096;
    (0xF000 + low) as u16
}

/// The buffer length that a size field describes.
pub fn decode_size(field: u16) -> (length: usize)
    ensures
        length == spec_decode_size(field),
        1 <= length <= MAX_BUFFER_LENGTH,
{
    let low: usize = (field % 4096) as usize;
    4096 - low
}

/// Every length from 1 to 4096 is read back from its size field, and the top
/// four bits of the field are ones.
pub proof fn lemma_size_round_trip(length: int)
    requires
        1 <= length <= MAX_BUFFER_LENGTH,
    ensures
        spec_decode_size(spec_encode_size(length)) == length,
        spec_encode_size(length) as int / 4096 == 15,
        spec_encode_size(length) as int % 4096 == (4096 - length) % 4096,
{
}

/// The top four bits of a size field are ones whatever the length, and its
/// low twelve bits are those of the negated length.
pub proof fn lemma_size_bits(length: u16)
    requires
        length <= MAX_BUFFER_LENGTH,
    ensures
        spec_encode_size(length as int) & 0xF000 == 0xF000,
        spec_encode_size(length as int) & 0x0FFF == (0u16.wrapping_sub(length)) & 0x0FFF,
{
    let field = spec_encode_size(length as int);
    let low: u16 = ((4096 - length) % 4096) as u16;
    assert(field == 0xF000 + low);
    assert(low < 4096 && field == 0xF000 + low ==> field & 0xF000 == 0xF000 && field & 0x0FFF == low) by (bit_vector);
    let negated: u16 = 0u16.wrapping_sub(length);
    assert(negated == if length == 0 { 0u16 } else { (65536 - length) as u16 });
    assert(length <= 4096 && negated == (if length == 0 { 0u16 } else { (65536 - length) as u16 }) && low == (4096
        - length) as u16 % 4096 ==> negated & 0x0FFF == low) by (bit_vector);
}

/// One entry of a descriptor ring, in the layout that the card reads: the
/// buffer's bus-physical address, the size field, two status bytes of which
/// the high one holds the owner bit, a dword of message length and flags,
/// and a reserved dword.
#[derive(Debug, Clone, Copy, PartialEq, Eq, Structural)]
pub struct DescriptorEntry {
    /// The bus-physical address of the buffer.
    pub buffer_address: u32,
    /// The size field: see `spec_encode_size`.
    pub size: u16,
    /// The low status byte.
    pub unused1: u8,
    /// The high status byte; its highest bit names the owner.
    pub ownership: u8,
    /// Message length and flags.
    pub unused2: u32,
    /// Reserved.
    pub unused3: u32,
}

impl DescriptorEntry {
    /// An entry of zeros: owned by the driver, describing no buffer.
    pub fn new() -> (entry: Self)
        ensures
            entry == (DescriptorEntry { buffer_address: 0, size: 0, unused1: 0, ownership: 0, unused2: 0, unused3: 0 }),
    {
        DescriptorEntry { buffer_address: 0, size: 0, unused1: 0, ownership: 0, unused2: 0, unused3: 0 }
    }

    /// Whether the card owns the entry: the owner bit, the highest of the
    /// status byte, is set.
    pub open spec fn card_owned(&self) -> bool {
        self.ownership >= OWN
    }

    /// Writes the size field for a buffer of `size` bytes.
    pub fn set_size(&mut self, size: usize)
        requires
            size <= MAX_BUFFER_LENGTH,
        ensures
            *final(self) == (DescriptorEntry { size: spec_encode_size(size as int), ..*old(self) }),
    {
        self.size = encode_size(size);
    }

    /// Whether the driver owns the entry: the owner bit is clear.
    pub fn driver_has_ownership(&self) -> (owned: bool)
        ensures
            owned == !self.card_owned(),
            owned == (self.ownership & OWN == 0),
    {
        let status: u8 = self.ownership;
        assert((status & 0x80 == 0) == (status < 0x80)) by (bit_vector);
        status & OWN == 0
    }

    /// Hands the entry to the card: the high status byte becomes the owner
    /// bit alone, and nothing else changes.
    pub fn set_card_ownership(&mut self)
        ensures
            *final(self) == (DescriptorEntry { ownership: OWN, ..*old(self) }),
            final(self).card_owned(),
    {
        self.ownership = OWN;
    }
}

/// A fixed-length circular array of descriptors.
#[derive(Debug, Clone, Copy, PartialEq, Eq)]
pub struct DescriptorRingBuffer<const S: usize> {
    pub entries: [DescriptorEntry; S],
}

impl<const S: usize> DescriptorRingBuffer<S> {
    /// A ring of zeroed entries.
    pub fn new() -> (ring: Self)
        ensures
            forall|i: int| 0 <= i < S ==> #[trigger] ring.entries@[i] == (DescriptorEntry {
                buffer_address: 0,
                size: 0,
                unused1: 0,
                ownership: 0,
                unused2: 0,
                unused3: 0,
            }),
    {
        Self { entries: [DescriptorEntry::new();S] }
    }

    /// The number of entries.
    pub fn len(&self) -> (length: usize)
        ensures
            length == S,
            length == self.entries@.len(),
    {
        S
    }
}

/// One packet buffer: room for one Ethernet frame.
#[derive(Debug, Clone, Copy, PartialEq, Eq)]
pub struct PacketBuffer {
    pub buffer: [u8; BUFFER_SIZE],
}

impl PacketBuffer {
    /// A buffer of zeros.
    pub fn new() -> (packet: Self)
        ensures
            forall|i: int| 0 <= i < BUFFER_SIZE ==> #[trigger] packet.buffer@[i] == 0,
    {
        PacketBuffer { buffer: [0u8;BUFFER_SIZE] }
    }
}

/// A fixed-length circular array of packet buffers, parallel to a descriptor
/// ring.
#[derive(Debug, Clone, Copy, PartialEq, Eq)]
pub struct PacketRingBuffer<const S: usize> {
    pub buffers: [PacketBuffer; S],
}

impl<const S: usize> PacketRingBuffer<S> {
    /// A ring of zeroed buffers.
    pub fn new() -> (ring: Self)
        ensures
            forall|i: int, j: int|
                0 <= i < S && 0 <= j < BUFFER_SIZE ==> #[trigger] ring.buffers@[i].buffer@[j] == 0,
    {
        Self { buffers: [PacketBuffer::new();S] }
    }

    /// The number of buffers.
    pub fn len(&self) -> (length: usize)
        ensures
            length == S,
            length == self.buffers@.len(),
    {
        S
    }
}

/// Whether a ring of `count` descriptors can be announced to the card: the
/// count is a power of two up to 512.
pub open spec fn spec_is_ring_length(count: int) -> bool {
    count == 1 || count == 2 || count == 4 || count == 8 || count == 16 || count == 32 || count == 64 || count
        == 128 || count == 256 || count == 512
}

/// The binary logarithm of a ring length.
pub open spec fn spec_log2(count: int) -> int
    decreases count,
{
    if count <= 1 {
        0
    } else {
        1 + spec_log2(count / 2)
    }
}

/// The binary logarithm of a ring length lies between 0 and 9, and halving
/// a length above 1 takes one from it.
pub proof fn lemma_log2_of_ring_length(count: int)
    ensures
        count <= 1 ==> spec_log2(count) == 0,
        spec_is_ring_length(count) ==> 0 <= spec_log2(count) <= 9,
        spec_is_ring_length(count) && count > 1 ==> spec_is_ring_length(count / 2) && spec_log2(count) == 1
            + spec_log2(count / 2),
        spec_log2(8) == 3,
        spec_log2(32) == 5,
{
    reveal_with_fuel(spec_log2, 11);
}

/// The length byte of the initialization block for a ring of `count`
/// descriptors: the binary logarithm of the count in the high four bits.
pub open spec fn spec_length_code(count: int) -> u8 {
    (spec_log2(count) * 16) as u8
}

/// The length byte of the initialization block for a ring of `count`
/// descriptors.
pub fn length_code(count: u16) -> (code: u8)
    requires
        spec_is_ring_length(count as int),
    ensures
        code == spec_length_code(count as int),
        code as int % 16 == 0,
        code <= 0x90,
{
    let mut rest: u16 = count;
    let mut log: u8 = 0;
    proof {
        lemma_log2_of_ring_length(count as int);
    }
    while rest > 1
        invariant
            1 <= rest <= 512,
            spec_is_ring_length(rest as int),
            spec_log2(count as int) == log + spec_log2(rest as int),
            spec_log2(count as int) <= 9,
        decreases rest,
    {
        proof {
            lemma_log2_of_ring_length(rest as int);
            lemma_log2_of_ring_length(rest as int / 2);
        }
        rest = rest / 2;
        log = log + 1;
    }
    proof {
        lemma_log2_of_ring_length(rest as int);
    }
    log * 16
}

/// The image of the initialization block, in the layout that the card
/// reads: mode, the two ring lengths, the MAC address, a reserved word, the
/// logical address filter, and the bus-physical addresses of the two
/// descriptor rings.
#[derive(Debug, Clone, Copy, PartialEq, Eq, Structural)]
pub struct InitBlock {
    pub mode: u16,
    pub rlen: u8,
    pub tlen: u8,
    pub mac0: u8,
    pub mac1: u8,
    pub mac2: u8,
    pub mac3: u8,
    pub mac4: u8,
    pub mac5: u8,
    pub reserved: u16,
    pub unused: u64,
    pub rx_desc_phys_addr: u32,
    pub tx_desc_phys_addr: u32,
}

impl InitBlock {
    /// A block of zeros.
    pub fn new() -> (block: Self)
        ensures
            block == (InitBlock {
                mode: 0,
                rlen: 0,
                tlen: 0,
                mac0: 0,
                mac1: 0,
                mac2: 0,
                mac3: 0,
                mac4: 0,
                mac5: 0,
                reserved: 0,
                unused: 0,
                rx_desc_phys_addr: 0,
                tx_desc_phys_addr: 0,
            }),
    {
        InitBlock {
            mode: 0,
            rlen: 0,
            tlen: 0,
            mac0: 0,
            mac1: 0,
            mac2: 0,
            mac3: 0,
            mac4: 0,
            mac5: 0,
            reserved: 0,
            unused: 0,
            rx_desc_phys_addr: 0,
            tx_desc_phys_addr: 0,
        }
    }

    /// Announces a receive ring of `rlen` descriptors.
    pub fn set_rlen(&mut self, rlen: u16)
        requires
            spec_is_ring_length(rlen as int),
        ensures
            *final(self) == (InitBlock { rlen: spec_length_code(rlen as int), ..*old(self) }),
    {
        self.rlen = length_code(rlen);
    }

    /// Announces a transmit ring of `tlen` descriptors.
    pub fn set_tlen(&mut self, tlen: u16)
        requires
            spec_is_ring_length(tlen as int),
        ensures
            *final(self) == (InitBlock { tlen: spec_length_code(tlen as int), ..*old(self) }),
    {
        self.tlen = length_code(tlen);
    }
}

/// The kernel-virtual addresses at which the card-visible structures lie.
#[derive(Debug, Clone, Copy, PartialEq, Eq, Structural)]
pub struct DmaRegions {
    pub receive_buffers: u64,
    pub transmit_buffers: u64,
    pub receive_descriptors: u64,
    pub transmit_descriptors: u64,
    pub init_block: u64,
}

/// Why a structure that starts at `base` and whose last entry starts `span`
/// bytes later cannot be given to the card, if it cannot: an entry's address
/// does not exist, or the first or the last entry has no bus-physical
/// address.
pub open spec fn spec_region_error(physical_memory_offset: u64, base: u64, span: int) -> Option<AddrError> {
    if base + span > u64::MAX {
        Some(AddrError::BeyondLimit)
    } else {
        match spec_translate(physical_memory_offset, base) {
            Err(error) => Some(error),
            Ok(_) => match spec_translate(physical_memory_offset, (base + span) as u64) {
                Err(error) => Some(error),
                Ok(_) => None,
            },
        }
    }
}

/// The distance from the first to the last receive or transmit buffer.
pub open spec fn spec_buffers_span(count: int) -> int {
    (count - 1) * BUFFER_SIZE
}

/// The distance from the first to the last descriptor of a ring.
pub open spec fn spec_descriptors_span(count: int) -> int {
    (count - 1) * DESCRIPTOR_SIZE
}

/// The first reason, in the order of the fields of `DmaRegions`, why one of
/// the structures cannot be given to the card, if there is one.
pub open spec fn spec_regions_error(physical_memory_offset: u64, regions: DmaRegions) -> Option<AddrError> {
    let o = physical_memory_offset;
    if spec_region_error(o, regions.receive_buffers, spec_buffers_span(NUM_RECEIVE_BUFFERS as int)) is Some {
        spec_region_error(o, regions.receive_buffers, spec_buffers_span(NUM_RECEIVE_BUFFERS as int))
    } else if spec_region_error(o, regions.transmit_buffers, spec_buffers_span(NUM_TRANSMIT_BUFFERS as int))
        is Some {
        spec_region_error(o, regions.transmit_buffers, spec_buffers_span(NUM_TRANSMIT_BUFFERS as int))
    } else if spec_region_error(o, regions.receive_descriptors, spec_descriptors_span(NUM_RECEIVE_BUFFERS as int))
        is Some {
        spec_region_error(o, regions.receive_descriptors, spec_descriptors_span(NUM_RECEIVE_BUFFERS as int))
    } else if spec_region_error(o, regions.transmit_descriptors, spec_descriptors_span(NUM_TRANSMIT_BUFFERS as int))
        is Some {
        spec_region_error(o, regions.transmit_descriptors, spec_descriptors_span(NUM_TRANSMIT_BUFFERS as int))
    } else {
        spec_region_error(o, regions.init_block, 0)
    }
}

/// Checks one structure: see `spec_region_error`.
pub fn region_error(translator: &AddrTranslator, base: u64, span: u64) -> (error: Option<AddrError>)
    ensures
        error == spec_region_error(translator.physical_memory_offset, base, span as int),
{
    if base > u64::MAX - span {
        return Some(AddrError::BeyondLimit);
    }
    match translator.translate(base) {
        Err(error) => Some(error),
        Ok(_) => match translator.translate(base + span) {
            Err(error) => Some(error),
            Ok(_) => None,
        },
    }
}

/// Owns the images of the card-visible structures and hands out their
/// bus-physical addresses.
#[derive(Debug, Clone, Copy, PartialEq, Eq)]
pub struct BufferManager {
    /// Translates the addresses of the structures.
    pub translator: AddrTranslator,
    /// Where the card-visible copies lie.
    pub regions: DmaRegions,
    pub receive_buffers: PacketRingBuffer<32>,
    pub transmit_buffers: PacketRingBuffer<8>,
    pub receive_descriptors: DescriptorRingBuffer<32>,
    pub transmit_descriptors: DescriptorRingBuffer<8>,
    pub init_block: InitBlock,
}

impl BufferManager {
    /// Every structure, from its first entry to its last, has a bus-physical
    /// address.
    pub open spec fn wf(&self) -> bool {
        spec_regions_error(self.translator.physical_memory_offset, self.regions) is None
    }

    /// The bus-physical address of the `idx`-th receive descriptor.
    pub open spec fn spec_rx_descriptor(&self, idx: int) -> int {
        self.regions.receive_descriptors + idx * DESCRIPTOR_SIZE - self.translator.physical_memory_offset
    }

    /// The bus-physical address of the `idx`-th transmit descriptor.
    pub open spec fn spec_tx_descriptor(&self, idx: int) -> int {
        self.regions.transmit_descriptors + idx * DESCRIPTOR_SIZE - self.translator.physical_memory_offset
    }

    /// The bus-physical address of the `idx`-th receive buffer.
    pub open spec fn spec_rx_buffer(&self, idx: int) -> int {
        self.regions.receive_buffers + idx * BUFFER_SIZE - self.translator.physical_memory_offset
    }

    /// The bus-physical address of the `idx`-th transmit buffer.
    pub open spec fn spec_tx_buffer(&self, idx: int) -> int {
        self.regions.transmit_buffers + idx * BUFFER_SIZE - self.translator.physical_memory_offset
    }

    /// The bus-physical address of the initialization block.
    pub open spec fn spec_init_block(&self) -> int {
        self.regions.init_block - self.translator.physical_memory_offset
    }

    /// Whether every image is zero: all descriptors, all packet buffers and
    /// the initialization block.
    pub open spec fn blank(&self) -> bool {
        &&& forall|i: int|
            0 <= i < NUM_RECEIVE_BUFFERS ==> #[trigger] self.receive_descriptors.entries@[i] == (DescriptorEntry {
                buffer_address: 0,
                size: 0,
                unused1: 0,
                ownership: 0,
                unused2: 0,
                unused3: 0,
            })
        &&& forall|i: int|
            0 <= i < NUM_TRANSMIT_BUFFERS ==> #[trigger] self.transmit_descriptors.entries@[i] == (DescriptorEntry {
                buffer_address: 0,
                size: 0,
                unused1: 0,
                ownership: 0,
                unused2: 0,
                unused3: 0,
            })
        &&& forall|i: int, k: int|
            0 <= i < NUM_RECEIVE_BUFFERS && 0 <= k < BUFFER_SIZE ==> #[trigger] self.receive_buffers.buffers@[i].buffer@[k]
                == 0
        &&& forall|i: int, k: int|
            0 <= i < NUM_TRANSMIT_BUFFERS && 0 <= k < BUFFER_SIZE
                ==> #[trigger] self.transmit_buffers.buffers@[i].buffer@[k] == 0
        &&& self.init_block == (InitBlock {
            mode: 0,
            rlen: 0,
            tlen: 0,
            mac0: 0,
            mac1: 0,
            mac2: 0,
            mac3: 0,
            mac4: 0,
            mac5: 0,
            reserved: 0,
            unused: 0,
            rx_desc_phys_addr: 0,
            tx_desc_phys_addr: 0,
        })
    }

    /// A manager for structures that lie at the given kernel-virtual
    /// addresses, with zeroed images, or the reason why one of the
    /// structures cannot be given to the card.
    pub fn new(physical_memory_offset: u64, regions: DmaRegions) -> (manager: Result<Self, AddrError>)
        ensures
            spec_regions_error(physical_memory_offset, regions) is Some ==> manager == Err::<Self, AddrError>(
                spec_regions_error(physical_memory_offset, regions)->0,
            ),
            spec_regions_error(physical_memory_offset, regions) is None ==> {
                &&& manager is Ok
                &&& manager->Ok_0.wf()
                &&& manager->Ok_0.translator.physical_memory_offset == physical_memory_offset
                &&& manager->Ok_0.regions == regions
                &&& manager->Ok_0.blank()
            },
    {
        let translator = AddrTranslator::new(physical_memory_offset);
        let buffer_size: u64 = BUFFER_SIZE as u64;
        let descriptor_size: u64 = DESCRIPTOR_SIZE as u64;
        let rx_count: u64 = NUM_RECEIVE_BUFFERS as u64;
        let tx_count: u64 = NUM_TRANSMIT_BUFFERS as u64;
        if let Some(error) = region_error(&translator, regions.receive_buffers, (rx_count - 1) * buffer_size) {
            return Err(error);
        }
        if let Some(error) = region_error(&translator, regions.transmit_buffers, (tx_count - 1) * buffer_size) {
            return Err(error);
        }
        if let Some(error) = region_error(&translator, regions.receive_descriptors, (rx_count - 1) * descriptor_size) {
            return Err(error);
        }
        if let Some(error) = region_error(&translator, regions.transmit_descriptors, (tx_count - 1) * descriptor_size) {
            return Err(error);
        }
        if let Some(error) = region_error(&translator, regions.init_block, 0) {
            return Err(error);
        }
        Ok(
            Self {
                translator,
                regions,
                receive_buffers: PacketRingBuffer::new(),
                transmit_buffers: PacketRingBuffer::new(),
                receive_descriptors: DescriptorRingBuffer::new(),
                transmit_descriptors: DescriptorRingBuffer::new(),
                init_block: InitBlock::new(),
            },
        )
    }

    /// The bus-physical address of the `idx`-th receive descriptor.
    pub fn address_of_rx_descriptor(&self, idx: usize) -> (phys: u32)
        requires
            self.wf(),
            idx < NUM_RECEIVE_BUFFERS,
        ensures
            phys == self.spec_rx_descriptor(idx as int),
            spec_translate(
                self.translator.physical_memory_offset,
                (self.regions.receive_descriptors + idx * DESCRIPTOR_SIZE) as u64,
            ) == Ok::<u32, AddrError>(phys),
    {
        let addr: u64 = self.regions.receive_descriptors + (idx * DESCRIPTOR_SIZE) as u64;
        let translated = self.translator.translate(addr);
        match translated {
            Ok(phys) => phys,
            Err(_) => {
                proof {
                    assert(false);
                }
                0
            },
        }
    }

    /// The bus-physical address of the `idx`-th transmit descriptor.
    pub fn address_of_tx_descriptor(&self, idx: usize) -> (phys: u32)
        requires
            self.wf(),
            idx < NUM_TRANSMIT_BUFFERS,
        ensures
            phys == self.spec_tx_descriptor(idx as int),
            spec_translate(
                self.translator.physical_memory_offset,
                (self.regions.transmit_descriptors + idx * DESCRIPTOR_SIZE) as u64,
            ) == Ok::<u32, AddrError>(phys),
    {
        let addr: u64 = self.regions.transmit_descriptors + (idx * DESCRIPTOR_SIZE) as u64;
        let translated = self.translator.translate(addr);
        match translated {
            Ok(phys) => phys,
            Err(_) => {
                proof {
                    assert(false);
                }
                0
            },
        }
    }

    /// The bus-physical address of the `idx`-th receive buffer.
    pub fn address_of_rx_buffer(&self, idx: usize) -> (phys: u32)
        requires
            self.wf(),
            idx < NUM_RECEIVE_BUFFERS,
        ensures
            phys == self.spec_rx_buffer(idx as int),
            spec_translate(
                self.translator.physical_memory_offset,
                (self.regions.receive_buffers + idx * BUFFER_SIZE) as u64,
            ) == Ok::<u32, AddrError>(phys),
    {
        let addr: u64 = self.regions.receive_buffers + (idx * BUFFER_SIZE) as u64;
        let translated = self.translator.translate(addr);
        match translated {
            Ok(phys) => phys,
            Err(_) => {
                proof {
                    assert(false);
                }
                0
            },
        }
    }

    /// The bus-physical address of the `idx`-th transmit buffer.
    pub fn address_of_tx_buffer(&self, idx: usize) -> (phys: u32)
        requires
            self.wf(),
            idx < NUM_TRANSMIT_BUFFERS,
        ensures
            phys == self.spec_tx_buffer(idx as int),
            spec_translate(
                self.translator.physical_memory_offset,
                (self.regions.transmit_buffers + idx * BUFFER_SIZE) as u64,
            ) == Ok::<u32, AddrError>(phys),
    {
        let addr: u64 = self.regions.transmit_buffers + (idx * BUFFER_SIZE) as u64;
        let translated = self.translator.translate(addr);
        match translated {
            Ok(phys) => phys,
            Err(_) => {
                proof {
                    assert(false);
                }
                0
            },
        }
    }

    /// The bus-physical address of the initialization block.
    pub fn address_of_init_block(&self) -> (phys: u32)
        requires
            self.wf(),
        ensures
            phys == self.spec_init_block(),
            spec_translate(self.translator.physical_memory_offset, self.regions.init_block) == Ok::<u32, AddrError>(
                phys,
            ),
    {
        let translated = self.translator.translate(self.regions.init_block);
        match translated {
            Ok(phys) => phys,
            Err(_) => {
                proof {
                    assert(false);
                }
                0
            },
        }
    }

    /// Whether the images are those of freshly prepared rings for the card
    /// with the given MAC address: every receive descriptor is owned by the
    /// card, every transmit descriptor by the driver, each descriptor names
    /// its parallel buffer and the full buffer size, and the initialization
    /// block names the MAC address, the ring lengths and the ring bases.
    pub open spec fn prepared(&self, mac: Seq<u8>) -> bool {
        &&& forall|i: int|
            0 <= i < NUM_RECEIVE_BUFFERS ==> {
                &&& (#[trigger] self.receive_descriptors.entries@[i]).card_owned()
                &&& self.receive_descriptors.entries@[i].ownership == OWN
                &&& self.receive_descriptors.entries@[i].buffer_address == self.spec_rx_buffer(i)
                &&& self.receive_descriptors.entries@[i].size == spec_encode_size(BUFFER_SIZE as int)
            }
        &&& forall|j: int|
            0 <= j < NUM_TRANSMIT_BUFFERS ==> {
                &&& !(#[trigger] self.transmit_descriptors.entries@[j]).card_owned()
                &&& self.transmit_descriptors.entries@[j].ownership == 0
                &&& self.transmit_descriptors.entries@[j].buffer_address == self.spec_tx_buffer(j)
                &&& self.transmit_descriptors.entries@[j].size == spec_encode_size(BUFFER_SIZE as int)
            }
        &&& self.init_block.mode == 0
        &&& self.init_block.rlen == 0x50
        &&& self.init_block.tlen == 0x30
        &&& self.init_block.mac0 == mac[0]
        &&& self.init_block.mac1 == mac[1]
        &&& self.init_block.mac2 == mac[2]
        &&& self.init_block.mac3 == mac[3]
        &&& self.init_block.mac4 == mac[4]
        &&& self.init_block.mac5 == mac[5]
        &&& self.init_block.rx_desc_phys_addr == self.spec_rx_descriptor(0)
        &&& self.init_block.tx_desc_phys_addr == self.spec_tx_descriptor(0)
    }

    /// Whether the rings are as the card needs them throughout its run: the
    /// card owns every receive descriptor of the image, and every descriptor
    /// names its parallel buffer.
    pub open spec fn rings_bound(&self) -> bool {
        &&& forall|i: int|
            0 <= i < NUM_RECEIVE_BUFFERS ==> {
                &&& (#[trigger] self.receive_descriptors.entries@[i]).card_owned()
                &&& self.receive_descriptors.entries@[i].buffer_address == self.spec_rx_buffer(i)
            }
        &&& forall|j: int|
            0 <= j < NUM_TRANSMIT_BUFFERS ==> (#[trigger] self.transmit_descriptors.entries@[j]).buffer_address
                == self.spec_tx_buffer(j)
    }

    /// Whether the images are those of `before` after the rings and the
    /// initialization block were prepared for the card with the given MAC
    /// address: of each descriptor the buffer address, the size field and the
    /// owner byte are written, of the block everything but the reserved word
    /// and the address filter; addresses and packet buffers are those of
    /// `before`.
    pub open spec fn prepared_from(&self, before: BufferManager, mac: Seq<u8>) -> bool {
        &&& self.translator == before.translator
        &&& self.regions == before.regions
        &&& self.receive_buffers == before.receive_buffers
        &&& self.transmit_buffers == before.transmit_buffers
        &&& forall|i: int|
            0 <= i < NUM_RECEIVE_BUFFERS ==> #[trigger] self.receive_descriptors.entries@[i] == (DescriptorEntry {
                buffer_address: before.spec_rx_buffer(i) as u32,
                size: spec_encode_size(BUFFER_SIZE as int),
                ownership: OWN,
                ..before.receive_descriptors.entries@[i]
            })
        &&& forall|j: int|
            0 <= j < NUM_TRANSMIT_BUFFERS ==> #[trigger] self.transmit_descriptors.entries@[j] == (DescriptorEntry {
                buffer_address: before.spec_tx_buffer(j) as u32,
                size: spec_encode_size(BUFFER_SIZE as int),
                ownership: 0,
                ..before.transmit_descriptors.entries@[j]
            })
        &&& self.init_block == (InitBlock {
            mode: 0,
            rlen: 0x50,
            tlen: 0x30,
            mac0: mac[0],
            mac1: mac[1],
            mac2: mac[2],
            mac3: mac[3],
            mac4: mac[4],
            mac5: mac[5],
            rx_desc_phys_addr: before.spec_rx_descriptor(0) as u32,
            tx_desc_phys_addr: before.spec_tx_descriptor(0) as u32,
            ..before.init_block
        })
    }

    /// Prepares the rings and the initialization block for the card with
    /// the given MAC address. Each descriptor is written in place; of a
    /// descriptor only the buffer address, the size field and the owner byte
    /// change, of the block neither the reserved word nor the address
    /// filter. Addresses and packet buffers stay as they are.
    pub fn initialize(&mut self, mac: [u8; 6])
        requires
            old(self).wf(),
        ensures
            final(self).wf(),
            final(self).prepared(mac@),
            final(self).prepared_from(*old(self), mac@),
    {
        let mut idx: usize = 0;
        while idx < NUM_RECEIVE_BUFFERS
            invariant
                idx <= NUM_RECEIVE_BUFFERS,
                self.wf(),
                self.translator == old(self).translator,
                self.regions == old(self).regions,
                self.receive_buffers == old(self).receive_buffers,
                self.transmit_buffers == old(self).transmit_buffers,
                self.transmit_descriptors == old(self).transmit_descriptors,
                self.init_block == old(self).init_block,
                forall|i: int|
                    0 <= i < idx ==> (#[trigger] self.receive_descriptors.entries@[i]) == (DescriptorEntry {
                        buffer_address: self.spec_rx_buffer(i) as u32,
                        size: spec_encode_size(BUFFER_SIZE as int),
                        ownership: OWN,
                        ..old(self).receive_descriptors.entries@[i]
                    }),
                forall|i: int|
                    idx <= i < NUM_RECEIVE_BUFFERS ==> (#[trigger] self.receive_descriptors.entries@[i]) == old(self).receive_descriptors.entries@[i],
            decreases NUM_RECEIVE_BUFFERS - idx,
        {
            let mut desc: DescriptorEntry = self.receive_descriptors.entries[idx];
            let buf_addr: u32 = self.address_of_rx_buffer(idx);
            desc.buffer_address = buf_addr;
            desc.set_size(BUFFER_SIZE);
            desc.set_card_ownership();
            self.receive_descriptors.entries[idx] = desc;
            idx = idx + 1;
        }
        let mut idx: usize = 0;
        while idx < NUM_TRANSMIT_BUFFERS
            invariant
                idx <= NUM_TRANSMIT_BUFFERS,
                self.wf(),
                self.translator == old(self).translator,
                self.regions == old(self).regions,
                self.receive_buffers == old(self).receive_buffers,
                self.transmit_buffers == old(self).transmit_buffers,
                self.init_block == old(self).init_block,
                forall|i: int|
                    0 <= i < NUM_RECEIVE_BUFFERS ==> (#[trigger] self.receive_descriptors.entries@[i]) == (
                    DescriptorEntry {
                        buffer_address: self.spec_rx_buffer(i) as u32,
                        size: spec_encode_size(BUFFER_SIZE as int),
                        ownership: OWN,
                        ..old(self).receive_descriptors.entries@[i]
                    }),
                forall|j: int|
                    0 <= j < idx ==> (#[trigger] self.transmit_descriptors.entries@[j]) == (DescriptorEntry {
                        buffer_address: self.spec_tx_buffer(j) as u32,
                        size: spec_encode_size(BUFFER_SIZE as int),
                        ownership: 0,
                        ..old(self).transmit_descriptors.entries@[j]
                    }),
                forall|j: int|
                    idx <= j < NUM_TRANSMIT_BUFFERS ==> (#[trigger] self.transmit_descriptors.entries@[j]) == old(self).transmit_descriptors.entries@[j],
            decreases NUM_TRANSMIT_BUFFERS - idx,
        {
            let mut desc: DescriptorEntry = self.transmit_descriptors.entries[idx];
            let buf_addr: u32 = self.address_of_tx_buffer(idx);
            desc.buffer_address = buf_addr;
            desc.set_size(BUFFER_SIZE);
            desc.ownership = 0;
            self.transmit_descriptors.entries[idx] = desc;
            idx = idx + 1;
        }
        self.init_block.mode = 0x0;
        self.init_block.set_rlen(NUM_RECEIVE_BUFFERS as u16);
        self.init_block.set_tlen(NUM_TRANSMIT_BUFFERS as u16);
        self.init_block.mac0 = mac[0];
        self.init_block.mac1 = mac[1];
        self.init_block.mac2 = mac[2];
        self.init_block.mac3 = mac[3];
        self.init_block.mac4 = mac[4];
        self.init_block.mac5 = mac[5];
        self.init_block.rx_desc_phys_addr = self.address_of_rx_descriptor(0);
        self.init_block.tx_desc_phys_addr = self.address_of_tx_descriptor(0);
        proof {
            lemma_log2_of_ring_length(32);
        }
    }
}

/// Every structure of a manager has a bus-physical address: the address of
/// each buffer, of each descriptor and of the initialization block
/// translates, to its distance from the mapping offset, which lies below
/// `PHYS_LIMIT` and so fits in thirty-two bits.
pub proof fn lemma_structures_translate(manager: BufferManager, rx: int, tx: int)
    requires
        manager.wf(),
        0 <= rx < NUM_RECEIVE_BUFFERS,
        0 <= tx < NUM_TRANSMIT_BUFFERS,
    ensures
        spec_translate(
            manager.translator.physical_memory_offset,
            (manager.regions.receive_buffers + rx * BUFFER_SIZE) as u64,
        ) == Ok::<u32, AddrError>(manager.spec_rx_buffer(rx) as u32),
        spec_translate(
            manager.translator.physical_memory_offset,
            (manager.regions.transmit_buffers + tx * BUFFER_SIZE) as u64,
        ) == Ok::<u32, AddrError>(manager.spec_tx_buffer(tx) as u32),
        spec_translate(
            manager.translator.physical_memory_offset,
            (manager.regions.receive_descriptors + rx * DESCRIPTOR_SIZE) as u64,
        ) == Ok::<u32, AddrError>(manager.spec_rx_descriptor(rx) as u32),
        spec_translate(
            manager.translator.physical_memory_offset,
            (manager.regions.transmit_descriptors + tx * DESCRIPTOR_SIZE) as u64,
        ) == Ok::<u32, AddrError>(manager.spec_tx_descriptor(tx) as u32),
        spec_translate(manager.translator.physical_memory_offset, manager.regions.init_block) == Ok::<
            u32,
            AddrError,
        >(manager.spec_init_block() as u32),
        0 <= manager.spec_rx_buffer(rx) < PHYS_LIMIT,
        0 <= manager.spec_tx_buffer(tx) < PHYS_LIMIT,
        0 <= manager.spec_rx_descriptor(rx) < PHYS_LIMIT,
        0 <= manager.spec_tx_descriptor(tx) < PHYS_LIMIT,
        0 <= manager.spec_init_block() < PHYS_LIMIT,
{
}

/// Servicing a receive slot leaves its descriptor with the card and keeps
/// the buffer address: after the rings were prepared, a descriptor that is
/// handed back to the card is again what the preparation made of it.
pub proof fn lemma_rearmed_descriptor(manager: BufferManager, mac: Seq<u8>, slot: int)
    requires
        manager.prepared(mac),
        0 <= slot < NUM_RECEIVE_BUFFERS,
    ensures
        (DescriptorEntry { ownership: OWN, ..manager.receive_descriptors.entries@[slot] })
            == manager.receive_descriptors.entries@[slot],
        (DescriptorEntry { ownership: OWN, ..manager.receive_descriptors.entries@[slot] }).card_owned(),
        (DescriptorEntry { ownership: OWN, ..manager.receive_descriptors.entries@[slot] }).buffer_address
            == manager.spec_rx_buffer(slot),
{
}

} // verus!
