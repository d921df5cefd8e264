//! The card-visible byte layouts of a descriptor and of the initialization
//! block: tightly packed, every field little-endian.

use vstd::prelude::*;
use crate::pcnet::buffers::{DescriptorEntry, InitBlock};

verus! {

/// The two bytes of a word, low byte first.
pub open spec fn spec_u16_le(value: u16) -> Seq<u8> {
    seq![(value % 256) as u8, (value / 256) as u8]
}

/// The four bytes of a dword, lowest byte first.
pub open spec fn spec_u32_le(value: u32) -> Seq<u8> {
    seq![
        (value % 256) as u8,
        (value / 256 % 256) as u8,
        (value / 65536 % 256) as u8,
        (value / 16777216) as u8,
    ]
}

/// The eight bytes of a quadword, lowest byte first.
pub open spec fn spec_u64_le(value: u64) -> Seq<u8> {
    spec_u32_le((value % 0x1_0000_0000) as u32) + spec_u32_le((value / 0x1_0000_0000) as u32)
}

/// The sixteen bytes of a descriptor: the buffer address at offset 0, the
/// size field at 4, the two status bytes at 6 and 7, the message dword at 8,
/// the reserved dword at 12.
pub open spec fn spec_descriptor_bytes(entry: DescriptorEntry) -> Seq<u8> {
    spec_u32_le(entry.buffer_address) + spec_u16_le(entry.size) + seq![entry.unused1, entry.ownership]
        + spec_u32_le(entry.unused2) + spec_u32_le(entry.unused3)
}

/// The twenty-eight bytes of the initialization block: the mode at offset
/// 0, the ring lengths at 2 and 3, the MAC address at 4, the reserved word at
/// 10, the address filter at 12, the receive ring's address at 20, the
/// transmit ring's at 24.
pub open spec fn spec_init_block_bytes(block: InitBlock) -> Seq<u8> {
    spec_u16_le(block.mode) + seq![block.rlen, block.tlen] + seq![
        block.mac0,
        block.mac1,
        block.mac2,
        block.mac3,
        block.mac4,
        block.mac5,
    ] + spec_u16_le(block.reserved) + spec_u64_le(block.unused) + spec_u32_le(block.rx_desc_phys_addr)
        + spec_u32_le(block.tx_desc_phys_addr)
}

/// The four bytes of a dword, lowest byte first.
pub fn u32_le(value: u32) -> (bytes: [u8; 4])
    ensures
        bytes@ == spec_u32_le(value),
{
    let bytes: [u8; 4] = [
        (value % 256) as u8,
        (value / 256 % 256) as u8,
        (value / 65536 % 256) as u8,
        (value / 16777216) as u8,
    ];
    assert(bytes@ =~= spec_u32_le(value));
    bytes
}

/// The dword whose bytes, lowest first, are the given four.
pub fn u32_from_le(b0: u8, b1: u8, b2: u8, b3: u8) -> (value: u32)
    ensures
        spec_u32_le(value) == seq![b0, b1, b2, b3],
        value == b0 + b1 * 256 + b2 * 65536 + b3 * 16777216,
{
    let value: u32 = (b0 as u32) + (b1 as u32) * 256 + (b2 as u32) * 65536 + (b3 as u32) * 16777216;
    assert(value % 256 == b0 as u32 && value / 256 % 256 == b1 as u32 && value / 65536 % 256 == b2 as u32 && value
        / 16777216 == b3 as u32) by (bit_vector)
        requires
            value == (b0 as u32) + (b1 as u32) * 256 + (b2 as u32) * 65536 + (b3 as u32) * 16777216,
    ;
    assert(spec_u32_le(value) =~= seq![b0, b1, b2, b3]);
    value
}

impl DescriptorEntry {
    /// The card-visible bytes of the entry.
    pub fn to_bytes(&self) -> (bytes: [u8; 16])
        ensures
            bytes@ == spec_descriptor_bytes(*self),
    {
        let address = u32_le(self.buffer_address);
        let message = u32_le(self.unused2);
        let reserved = u32_le(self.unused3);
        let size: u16 = self.size;
        let bytes: [u8; 16] = [
            address[0],
            address[1],
            address[2],
            address[3],
            (size % 256) as u8,
            (size / 256) as u8,
            self.unused1,
            self.ownership,
            message[0],
            message[1],
            message[2],
            message[3],
            reserved[0],
            reserved[1],
            reserved[2],
            reserved[3],
        ];
        assert(bytes@ =~= spec_descriptor_bytes(*self));
        bytes
    }

    /// The entry that sixteen card-visible bytes hold.
    pub fn from_bytes(bytes: &[u8; 16]) -> (entry: Self)
        ensures
            spec_descriptor_bytes(entry) == bytes@,
    {
        let size: u16 = (bytes[4] as u16) + (bytes[5] as u16) * 256;
        let entry = DescriptorEntry {
            buffer_address: u32_from_le(bytes[0], bytes[1], bytes[2], bytes[3]),
            size,
            unused1: bytes[6],
            ownership: bytes[7],
            unused2: u32_from_le(bytes[8], bytes[9], bytes[10], bytes[11]),
            unused3: u32_from_le(bytes[12], bytes[13], bytes[14], bytes[15]),
        };
        assert(spec_u16_le(size) =~= seq![bytes@[4], bytes@[5]]);
        assert(spec_descriptor_bytes(entry) =~= bytes@);
        entry
    }
}

impl InitBlock {
    /// The card-visible bytes of the block.
    pub fn to_bytes(&self) -> (bytes: [u8; 28])
        ensures
            bytes@ == spec_init_block_bytes(*self),
    {
        let mode: u16 = self.mode;
        let reserved: u16 = self.reserved;
        let filter_low = u32_le((self.unused % 0x1_0000_0000) as u32);
        let filter_high = u32_le((self.unused / 0x1_0000_0000) as u32);
        let receive = u32_le(self.rx_desc_phys_addr);
        let transmit = u32_le(self.tx_desc_phys_addr);
        let bytes: [u8; 28] = [
            (mode % 256) as u8,
            (mode / 256) as u8,
            self.rlen,
            self.tlen,
            self.mac0,
            self.mac1,
            self.mac2,
            self.mac3,
            self.mac4,
            self.mac5,
            (reserved % 256) as u8,
            (reserved / 256) as u8,
            filter_low[0],
            filter_low[1],
            filter_low[2],
            filter_low[3],
            filter_high[0],
            filter_high[1],
            filter_high[2],
            filter_high[3],
            receive[0],
            receive[1],
            receive[2],
            receive[3],
            transmit[0],
            transmit[1],
            transmit[2],
            transmit[3],
        ];
        assert(bytes@ =~= spec_init_block_bytes(*self));
        bytes
    }
}

/// A dword is determined by its four bytes.
pub proof fn lemma_u32_le_injective(a: u32, b: u32)
    requires
        spec_u32_le(a) == spec_u32_le(b),
    ensures
        a == b,
{
    assert(spec_u32_le(a)[0] == spec_u32_le(b)[0]);
    assert(spec_u32_le(a)[1] == spec_u32_le(b)[1]);
    assert(spec_u32_le(a)[2] == spec_u32_le(b)[2]);
    assert(spec_u32_le(a)[3] == spec_u32_le(b)[3]);
}

/// The layout of a descriptor has sixteen bytes and loses nothing: two
/// entries with the same bytes are the same entry, and the owner bit is the
/// highest bit of the byte at offset 7.
pub proof fn lemma_descriptor_layout(a: DescriptorEntry, b: DescriptorEntry)
    ensures
        spec_descriptor_bytes(a).len() == 16,
        spec_descriptor_bytes(a)[7] == a.ownership,
        a.card_owned() <==> spec_descriptor_bytes(a)[7] >= 0x80,
        spec_descriptor_bytes(a) == spec_descriptor_bytes(b) ==> a == b,
{
    let x = spec_descriptor_bytes(a);
    let y = spec_descriptor_bytes(b);
    if x == y {
        assert(spec_u32_le(a.buffer_address) =~= x.subrange(0, 4));
        assert(spec_u32_le(b.buffer_address) =~= y.subrange(0, 4));
        lemma_u32_le_injective(a.buffer_address, b.buffer_address);
        assert(spec_u32_le(a.unused2) =~= x.subrange(8, 12));
        assert(spec_u32_le(b.unused2) =~= y.subrange(8, 12));
        lemma_u32_le_injective(a.unused2, b.unused2);
        assert(spec_u32_le(a.unused3) =~= x.subrange(12, 16));
        assert(spec_u32_le(b.unused3) =~= y.subrange(12, 16));
        lemma_u32_le_injective(a.unused3, b.unused3);
        assert(x[4] == y[4] && x[5] == y[5] && x[6] == y[6] && x[7] == y[7]);
        assert(x[4] == (a.size % 256) as u8 && x[5] == (a.size / 256) as u8);
        assert(y[4] == (b.size % 256) as u8 && y[5] == (b.size / 256) as u8);
    }
}

/// The layout of the initialization block has twenty-eight bytes, with the
/// ring lengths at offsets 2 and 3 and the MAC address from offset 4 on.
pub proof fn lemma_init_block_layout(block: InitBlock)
    ensures
        spec_init_block_bytes(block).len() == 28,
        spec_init_block_bytes(block)[2] == block.rlen,
        spec_init_block_bytes(block)[3] == block.tlen,
        spec_init_block_bytes(block).subrange(4, 10) == seq![
            block.mac0,
            block.mac1,
            block.mac2,
            block.mac3,
            block.mac4,
            block.mac5,
        ],
        spec_init_block_bytes(block).subrange(20, 24) == spec_u32_le(block.rx_desc_phys_addr),
        spec_init_block_bytes(block).subrange(24, 28) == spec_u32_le(block.tx_desc_phys_addr),
{
    let bytes = spec_init_block_bytes(block);
    assert(bytes.subrange(4, 10) =~= seq![block.mac0, block.mac1, block.mac2, block.mac3, block.mac4, block.mac5]);
    assert(bytes.subrange(20, 24) =~= spec_u32_le(block.rx_desc_phys_addr));
    assert(bytes.subrange(24, 28) =~= spec_u32_le(block.tx_desc_phys_addr));
}

} // verus!
