//! Discovery: decoding one configuration header, and the scan over every
//! bus, device and function.

use vstd::prelude::*;
use crate::pci::comms::{config_read, PortOp, spec_address, CONFIG_ADDRESS, CONFIG_DATA};
use crate::pci::model::{PciDevice, PciDeviceAddress, PciDeviceBinding};

verus! {

/// The signature dword of a slot that holds no function.
pub const ABSENT: u32 = 0xFFFF_FFFF;

/// How many configuration dwords make up a record.
pub const HEADER_DWORDS: usize = 11;

/// How many (bus, device, function) triples the scan visits.
pub const SCAN_SPACE: u32 = 65536;

/// The configuration offset of the `index`-th dword of a record: dwords 0 to 9
/// in order, then dword 15.
pub open spec fn spec_register_offset(index: int) -> u8 {
    if index < 10 {
        (4 * index) as u8
    } else {
        60
    }
}

/// The configuration offset of the `index`-th dword of a record.
pub fn register_offset(index: usize) -> (offset: u8)
    requires
        index < HEADER_DWORDS,
    ensures
        offset == spec_register_offset(index as int),
{
    if index < 10 {
        (4 * index) as u8
    } else {
        60
    }
}

/// The record that eleven header dwords describe.
pub open spec fn spec_decode(registers: Seq<u32>) -> PciDevice
    recommends
        registers.len() == HEADER_DWORDS,
{
    PciDevice {
        vendor: (registers[0] & 0xffff) as u16,
        device: ((registers[0] >> 16) & 0xffff) as u16,
        command: (registers[1] & 0xffff) as u16,
        status: ((registers[1] >> 16) & 0xffff) as u16,
        class: ((registers[2] >> 24) & 0xff) as u8,
        subclass: ((registers[2] >> 16) & 0xff) as u8,
        prog_if: ((registers[2] >> 8) & 0xff) as u8,
        revision: (registers[2] & 0xff) as u8,
        header_type: ((registers[3] >> 16) & 0xff) as u8,
        bar0: registers[4],
        bar1: registers[5],
        bar2: registers[6],
        bar3: registers[7],
        bar4: registers[8],
        bar5: registers[9],
        interrupt_pin: ((registers[10] >> 16) & 0xff) as u8,
        interrupt_line: ((registers[10] >> 24) & 0xff) as u8,
    }
}

/// What the header dwords of a slot amount to: nothing where the signature is
/// all ones, else the decoded record.
pub open spec fn spec_detect(registers: Seq<u32>) -> Option<PciDevice> {
    if registers[0] == ABSENT {
        None
    } else {
        Some(spec_decode(registers))
    }
}

/// Decodes the header dwords of one function, given in the order of
/// `register_offset`. A slot whose signature dword is all ones holds nothing;
/// the other ten dwords are then not looked at.
pub fn detect_device(registers: &[u32; 11]) -> (found: Option<PciDevice>)
    ensures
        found == spec_detect(registers@),
        found is None <==> registers@[0] == ABSENT,
        found is Some ==> !(found->0.vendor == 0xFFFF && found->0.device == 0xFFFF),
{
    let register_0: u32 = registers[0];
    if register_0 == 0xffff_ffff {
        return None;
    }
    let register_1: u32 = registers[1];
    let register_2: u32 = registers[2];
    let register_3: u32 = registers[3];
    let register_15: u32 = registers[10];
    proof {
        lemma_signature_of_present(register_0);
    }
    Some(
        PciDevice {
            vendor: (register_0 & 0xffff) as u16,
            device: ((register_0 >> 16) & 0xffff) as u16,
            command: (register_1 & 0xffff) as u16,
            status: ((register_1 >> 16) & 0xffff) as u16,
            class: ((register_2 >> 24) & 0xff) as u8,
            subclass: ((register_2 >> 16) & 0xff) as u8,
            prog_if: ((register_2 >> 8) & 0xff) as u8,
            revision: (register_2 & 0xff) as u8,
            header_type: ((register_3 >> 16) & 0xff) as u8,
            bar0: registers[4],
            bar1: registers[5],
            bar2: registers[6],
            bar3: registers[7],
            bar4: registers[8],
            bar5: registers[9],
            interrupt_pin: ((register_15 >> 16) & 0xff) as u8,
            interrupt_line: ((register_15 >> 24) & 0xff) as u8,
        },
    )
}

/// The fields of a record are the bytes and words of its dwords: each dword
/// is made up again of the fields taken from it, the lower field in the
/// lower bits. Of the fourth dword only the header type is kept, of the last
/// only the interrupt pin and line.
pub proof fn lemma_decode_fields(registers: Seq<u32>)
    requires
        registers.len() == HEADER_DWORDS,
    ensures
        registers[0] == spec_decode(registers).device * 0x1_0000 + spec_decode(registers).vendor,
        registers[1] == spec_decode(registers).status * 0x1_0000 + spec_decode(registers).command,
        registers[2] == spec_decode(registers).class * 0x100_0000 + spec_decode(registers).subclass * 0x1_0000
            + spec_decode(registers).prog_if * 0x100 + spec_decode(registers).revision,
        spec_decode(registers).header_type == registers[3] / 0x1_0000 % 0x100,
        spec_decode(registers).interrupt_pin == registers[10] / 0x1_0000 % 0x100,
        spec_decode(registers).interrupt_line == registers[10] / 0x100_0000,
{
    let r0 = registers[0];
    let r1 = registers[1];
    let r2 = registers[2];
    let r3 = registers[3];
    let r15 = registers[10];
    assert(r0 == (((r0 >> 16) & 0xffff) as u16) as u32 * 0x1_0000 + ((r0 & 0xffff) as u16) as u32) by (bit_vector);
    assert(r1 == (((r1 >> 16) & 0xffff) as u16) as u32 * 0x1_0000 + ((r1 & 0xffff) as u16) as u32) by (bit_vector);
    assert(r2 == (((r2 >> 24) & 0xff) as u8) as u32 * 0x100_0000 + (((r2 >> 16) & 0xff) as u8) as u32 * 0x1_0000 + (((r2
        >> 8) & 0xff) as u8) as u32 * 0x100 + ((r2 & 0xff) as u8) as u32) by (bit_vector);
    assert((((r3 >> 16) & 0xff) as u8) as u32 == r3 / 0x1_0000 % 0x100) by (bit_vector);
    assert((((r15 >> 16) & 0xff) as u8) as u32 == r15 / 0x1_0000 % 0x100) by (bit_vector);
    assert((((r15 >> 24) & 0xff) as u8) as u32 == r15 / 0x100_0000) by (bit_vector);
}

/// A signature dword that is not all ones has a vendor half or a device half
/// that is not all ones.
pub proof fn lemma_signature_of_present(signature: u32)
    requires
        signature != ABSENT,
    ensures
        !((signature & 0xffff) as u16 == 0xFFFF && ((signature >> 16) & 0xffff) as u16 == 0xFFFF),
{
    assert(signature != 0xFFFF_FFFFu32 ==> !((signature & 0xffff) as u16 == 0xFFFFu16 && ((signature >> 16) & 0xffff) as u16 == 0xFFFFu16)) by (bit_vector);
}

/// Every record that the decoder gives has a vendor other than `0xFFFF`,
/// unless the signature dword has a vendor half of all ones beside a device
/// half that is not.
pub proof fn lemma_emitted_vendor(registers: Seq<u32>)
    requires
        registers.len() == HEADER_DWORDS,
        (registers[0] & 0xffff) == 0xffff ==> ((registers[0] >> 16) & 0xffff) == 0xffff,
    ensures
        spec_detect(registers) is Some ==> spec_detect(registers)->0.vendor != 0xFFFF,
{
    let signature = registers[0];
    assert((signature & 0xffff) as u16 == 0xFFFFu16 && ((signature >> 16) & 0xffff) == 0xffff ==> signature == 0xFFFF_FFFFu32) by (bit_vector);
    assert((signature & 0xffff) as u16 == 0xFFFFu16 ==> (signature & 0xffff) == 0xffff) by (bit_vector);
}

/// The address of the slot that the scan visits in `position`-th place:
/// buses in order, within a bus the devices, within a device the functions.
pub open spec fn spec_slot_address(position: int) -> PciDeviceAddress {
    PciDeviceAddress {
        bus: (position / 256) as u8,
        device: ((position / 8) % 32) as u8,
        function: (position % 8) as u8,
    }
}

/// The place in scan order of the slot at `address`.
pub open spec fn spec_slot_position(address: PciDeviceAddress) -> int {
    address.bus as int * 256 + address.device as int * 8 + address.function as int
}

/// The address of the slot that the scan visits in `position`-th place.
pub fn slot_address(position: u32) -> (address: PciDeviceAddress)
    requires
        position < SCAN_SPACE,
    ensures
        address == spec_slot_address(position as int),
        address.device < 32,
        address.function < 8,
        spec_slot_position(address) == position,
{
    PciDeviceAddress {
        bus: (position / 256) as u8,
        device: ((position / 8) % 32) as u8,
        function: (position % 8) as u8,
    }
}

/// The state of a scan as plain values.
pub ghost struct ScanState {
    /// How many slots have been dealt with.
    pub position: int,
    /// The dwords read so far of the slot under examination.
    pub gathered: Seq<u32>,
    /// The records found, in scan order.
    pub bindings: Seq<PciDeviceBinding>,
}

/// The state after `reply` arrived for the pending read. An absent signature
/// moves the scan to the next slot and emits nothing; the eleventh dword of a
/// slot completes its record; any other dword is kept.
pub open spec fn spec_supply(state: ScanState, reply: u32) -> ScanState {
    if state.gathered.len() == 0 && reply == ABSENT {
        ScanState { position: state.position + 1, gathered: Seq::empty(), bindings: state.bindings }
    } else if state.gathered.len() + 1 < HEADER_DWORDS {
        ScanState { position: state.position, gathered: state.gathered.push(reply), bindings: state.bindings }
    } else {
        ScanState {
            position: state.position + 1,
            gathered: Seq::empty(),
            bindings: state.bindings.push(
                PciDeviceBinding {
                    address: spec_slot_address(state.position),
                    device: spec_decode(state.gathered.push(reply)),
                },
            ),
        }
    }
}

/// The enumeration in progress. The scan asks for one configuration dword at
/// a time through `pending` and takes its value through `supply`; the caller
/// performs the port accesses in between.
pub struct Scanner {
    position: u32,
    gathered: Vec<u32>,
    bindings: Vec<PciDeviceBinding>,
}

impl View for Scanner {
    type V = ScanState;

    closed spec fn view(&self) -> ScanState {
        ScanState { position: self.position as int, gathered: self.gathered@, bindings: self.bindings@ }
    }
}

/// What holds of a scan at every moment: the cursor is within the scan space,
/// a slot under examination has a signature other than all ones, and the
/// records found so far are those of present slots already passed, in scan
/// order.
pub open spec fn scan_invariant(state: ScanState) -> bool {
    &&& 0 <= state.position <= SCAN_SPACE
    &&& state.gathered.len() < HEADER_DWORDS
    &&& state.position == SCAN_SPACE ==> state.gathered.len() == 0
    &&& state.gathered.len() > 0 ==> state.gathered[0] != ABSENT
    &&& state.bindings.len() <= state.position
    &&& forall|i: int|
        0 <= i < state.bindings.len() ==> {
            &&& !((#[trigger] state.bindings[i]).device.vendor == 0xFFFF && state.bindings[i].device.device == 0xFFFF)
            &&& state.bindings[i].address.device < 32
            &&& state.bindings[i].address.function < 8
            &&& i <= spec_slot_position(state.bindings[i].address) < state.position
        }
    &&& forall|i: int, j: int|
        0 <= i < j < state.bindings.len() ==> spec_slot_position((#[trigger] state.bindings[i]).address)
            < spec_slot_position((#[trigger] state.bindings[j]).address)
}

/// Begins the enumeration of every (bus, device, function) triple.
pub fn detect_all_devices() -> (scanner: Scanner)
    ensures
        scanner.wf(),
        scanner@ == (ScanState { position: 0, gathered: Seq::empty(), bindings: Seq::empty() }),
{
    Scanner { position: 0, gathered: Vec::new(), bindings: Vec::new() }
}

impl Scanner {
    /// The scan's invariant.
    pub open spec fn wf(&self) -> bool {
        scan_invariant(self@)
    }

    /// Whether every slot has been dealt with.
    pub fn finished(&self) -> (done: bool)
        requires
            self.wf(),
        ensures
            done == (self@.position == SCAN_SPACE),
    {
        self.position == SCAN_SPACE
    }

    /// The slot under examination and the configuration offset to read next,
    /// or nothing once the scan is finished.
    pub fn pending(&self) -> (request: Option<(PciDeviceAddress, u8)>)
        requires
            self.wf(),
        ensures
            self@.position == SCAN_SPACE ==> request is None,
            self@.position < SCAN_SPACE ==> request == Some(
                (spec_slot_address(self@.position), spec_register_offset(self@.gathered.len() as int)),
            ),
    {
        if self.position == SCAN_SPACE {
            None
        } else {
            Some((slot_address(self.position), register_offset(self.gathered.len())))
        }
    }

    /// The port accesses that carry out the pending read, or none once the
    /// scan is finished.
    pub fn pending_ops(&self) -> (ops: Option<[PortOp; 2]>)
        requires
            self.wf(),
        ensures
            self@.position == SCAN_SPACE ==> ops is None,
            self@.position < SCAN_SPACE ==> ops is Some && ops->0@ == seq![
                PortOp::Write32 {
                    port: CONFIG_ADDRESS,
                    value: spec_address(
                        spec_slot_address(self@.position).bus,
                        spec_slot_address(self@.position).device,
                        spec_slot_address(self@.position).function,
                        spec_register_offset(self@.gathered.len() as int),
                    ),
                },
                PortOp::Read32 { port: CONFIG_DATA },
            ],
    {
        match self.pending() {
            None => None,
            Some((address, offset)) => Some(config_read(address.bus, address.device, address.function, offset)),
        }
    }

    /// Takes the value of the pending read. Once the scan is finished a value
    /// changes nothing.
    pub fn supply(&mut self, reply: u32)
        requires
            old(self).wf(),
        ensures
            final(self).wf(),
            old(self)@.position < SCAN_SPACE ==> final(self)@ == spec_supply(old(self)@, reply),
            old(self)@.position == SCAN_SPACE ==> final(self)@ == old(self)@,
    {
        if self.position == SCAN_SPACE {
            return ;
        }
        if self.gathered.len() == 0 && reply == ABSENT {
            self.position = self.position + 1;
            assert(self.gathered@ =~= Seq::empty());
            return ;
        }
        self.gathered.push(reply);
        if self.gathered.len() < HEADER_DWORDS {
            return ;
        }
        let registers: [u32; 11] = [
            self.gathered[0],
            self.gathered[1],
            self.gathered[2],
            self.gathered[3],
            self.gathered[4],
            self.gathered[5],
            self.gathered[6],
            self.gathered[7],
            self.gathered[8],
            self.gathered[9],
            self.gathered[10],
        ];
        assert(registers@ =~= self.gathered@);
        let address = slot_address(self.position);
        match detect_device(&registers) {
            Some(device) => {
                self.bindings.push(PciDeviceBinding { address, device });
            },
            None => {},
        }
        self.gathered.clear();
        self.position = self.position + 1;
    }

    /// The records found so far, in scan order.
    pub fn bindings(&self) -> (found: &Vec<PciDeviceBinding>)
        ensures
            found@ == self@.bindings,
    {
        &self.bindings
    }

    /// Ends the scan and hands out the records found, in scan order.
    pub fn into_bindings(self) -> (found: Vec<PciDeviceBinding>)
        ensures
            found@ == self@.bindings,
    {
        self.bindings
    }
}

/// A slot whose signature reads all ones emits no record: the records stay
/// as they were and the scan moves on to the next slot.
pub proof fn lemma_absent_emits_nothing(state: ScanState)
    requires
        scan_invariant(state),
        state.position < SCAN_SPACE,
        state.gathered.len() == 0,
    ensures
        spec_supply(state, ABSENT).bindings == state.bindings,
        spec_supply(state, ABSENT).position == state.position + 1,
        spec_supply(state, ABSENT).gathered.len() == 0,
{
}

/// No step of the scan emits a record whose signature is all ones, and every
/// step keeps the invariant.
pub proof fn lemma_supply_keeps_invariant(state: ScanState, reply: u32)
    requires
        scan_invariant(state),
        state.position < SCAN_SPACE,
    ensures
        scan_invariant(spec_supply(state, reply)),
{
    let next = spec_supply(state, reply);
    if !(state.gathered.len() == 0 && reply == ABSENT) && state.gathered.len() + 1 == HEADER_DWORDS {
        let registers = state.gathered.push(reply);
        assert(registers[0] != ABSENT);
        lemma_signature_of_present(registers[0]);
        let p = state.position;
        assert(spec_slot_position(spec_slot_address(p)) == p);
        assert forall|i: int| 0 <= i < next.bindings.len() implies {
            &&& !((#[trigger] next.bindings[i]).device.vendor == 0xFFFF && next.bindings[i].device.device == 0xFFFF)
            &&& next.bindings[i].address.device < 32
            &&& next.bindings[i].address.function < 8
            &&& i <= spec_slot_position(next.bindings[i].address) < next.position
        } by {
            if i < state.bindings.len() {
                assert(next.bindings[i] == state.bindings[i]);
            }
        }
        assert forall|i: int, j: int| 0 <= i < j < next.bindings.len() implies spec_slot_position(
            (#[trigger] next.bindings[i]).address,
        ) < spec_slot_position((#[trigger] next.bindings[j]).address) by {
            assert(next.bindings[i] == state.bindings[i]);
            if j < state.bindings.len() {
                assert(next.bindings[j] == state.bindings[j]);
            }
        }
    }
}

/// The header dwords of the slot in `position`-th place, as a configuration
/// space holds them. A configuration space gives a dword for every address
/// and offset.
pub open spec fn spec_header(space: spec_fn(PciDeviceAddress, u8) -> u32, position: int) -> Seq<u32> {
    Seq::new(HEADER_DWORDS as nat, |i: int| space(spec_slot_address(position), spec_register_offset(i)))
}

/// The records of the first `count` slots of a configuration space, in scan
/// order: one for each slot whose signature is not all ones.
pub open spec fn spec_scan(space: spec_fn(PciDeviceAddress, u8) -> u32, count: int) -> Seq<PciDeviceBinding>
    decreases count,
{
    if count <= 0 {
        Seq::empty()
    } else {
        match spec_detect(spec_header(space, count - 1)) {
            None => spec_scan(space, count - 1),
            Some(device) => spec_scan(space, count - 1).push(
                PciDeviceBinding { address: spec_slot_address(count - 1), device },
            ),
        }
    }
}

/// Whether a scan has so far seen what a configuration space holds: its
/// records are those of the slots passed, and the dwords gathered are the
/// first of the slot under examination.
pub open spec fn spec_agrees(state: ScanState, space: spec_fn(PciDeviceAddress, u8) -> u32) -> bool {
    &&& state.bindings == spec_scan(space, state.position)
    &&& state.gathered == spec_header(space, state.position).take(state.gathered.len() as int)
}

/// The value that a configuration space holds for the pending read of a
/// scan.
pub open spec fn spec_reply(state: ScanState, space: spec_fn(PciDeviceAddress, u8) -> u32) -> u32 {
    space(spec_slot_address(state.position), spec_register_offset(state.gathered.len() as int))
}

/// A scan that is answered from a configuration space goes on seeing what
/// the space holds. A scan starts in agreement with every space, so a
/// finished scan that was answered from a space throughout has found
/// `spec_scan` of all its slots.
pub proof fn lemma_supply_agrees(state: ScanState, space: spec_fn(PciDeviceAddress, u8) -> u32)
    requires
        scan_invariant(state),
        state.position < SCAN_SPACE,
        spec_agrees(state, space),
    ensures
        spec_agrees(spec_supply(state, spec_reply(state, space)), space),
        spec_agrees(ScanState { position: 0, gathered: Seq::empty(), bindings: Seq::empty() }, space),
{
    let reply = spec_reply(state, space);
    let next = spec_supply(state, reply);
    let header = spec_header(space, state.position);
    let length = state.gathered.len() as int;
    assert(header[length] == reply);
    assert(spec_scan(space, 0) =~= Seq::empty());
    assert(spec_header(space, 0).take(0) =~= Seq::empty());
    if length == 0 && reply == ABSENT {
        assert(spec_detect(header) is None);
        assert(spec_scan(space, state.position + 1) == spec_scan(space, state.position));
        assert(next.gathered =~= spec_header(space, next.position).take(0));
    } else if length + 1 < HEADER_DWORDS {
        assert(next.gathered =~= header.take(length + 1));
    } else {
        assert(state.gathered.push(reply) =~= header);
        if length > 0 {
            assert(header.take(length)[0] == header[0]);
        }
        assert(header[0] != ABSENT);
        assert(spec_detect(header) == Some(spec_decode(header)));
        assert(spec_scan(space, state.position + 1) == spec_scan(space, state.position).push(
            PciDeviceBinding { address: spec_slot_address(state.position), device: spec_decode(header) },
        ));
        assert(next.gathered =~= spec_header(space, next.position).take(0));
    }
}

/// Of the records of a configuration space: none stands for a slot whose
/// signature dword is all ones, and each holds the address and the decoded
/// header of a slot within the part scanned.
pub proof fn lemma_scan_emits_present_slots(space: spec_fn(PciDeviceAddress, u8) -> u32, count: int, i: int)
    requires
        0 <= count <= SCAN_SPACE,
        0 <= i < spec_scan(space, count).len(),
    ensures
        0 <= spec_slot_position(spec_scan(space, count)[i].address) < count,
        space(spec_scan(space, count)[i].address, 0) != ABSENT,
        spec_scan(space, count)[i].address == spec_slot_address(
            spec_slot_position(spec_scan(space, count)[i].address),
        ),
        spec_scan(space, count)[i].device == spec_decode(
            spec_header(space, spec_slot_position(spec_scan(space, count)[i].address)),
        ),
        !(spec_scan(space, count)[i].device.vendor == 0xFFFF && spec_scan(space, count)[i].device.device == 0xFFFF),
    decreases count,
{
    if count > 0 {
        let header = spec_header(space, count - 1);
        let before = spec_scan(space, count - 1);
        assert(header[0] == space(spec_slot_address(count - 1), 0));
        if i < before.len() {
            lemma_scan_emits_present_slots(space, count - 1, i);
            if spec_detect(header) is Some {
                assert(spec_scan(space, count)[i] == before[i]);
            }
        } else {
            assert(spec_detect(header) is Some);
            assert(spec_scan(space, count)[i].address == spec_slot_address(count - 1));
            assert(spec_slot_position(spec_slot_address(count - 1)) == count - 1);
            lemma_signature_of_present(header[0]);
        }
    }
}

/// Every slot of the part scanned whose signature dword is not all ones has
/// its record among the records of the configuration space.
pub proof fn lemma_scan_emits_every_present_slot(space: spec_fn(PciDeviceAddress, u8) -> u32, count: int, position: int)
    requires
        0 <= position < count <= SCAN_SPACE,
        space(spec_slot_address(position), 0) != ABSENT,
    ensures
        exists|i: int|
            0 <= i < spec_scan(space, count).len() && #[trigger] spec_scan(space, count)[i] == (PciDeviceBinding {
                address: spec_slot_address(position),
                device: spec_decode(spec_header(space, position)),
            }),
    decreases count,
{
    let header = spec_header(space, count - 1);
    let before = spec_scan(space, count - 1);
    let wanted = PciDeviceBinding {
        address: spec_slot_address(position),
        device: spec_decode(spec_header(space, position)),
    };
    if position == count - 1 {
        assert(header[0] == space(spec_slot_address(position), 0));
        assert(spec_scan(space, count) == before.push(wanted));
        assert(spec_scan(space, count)[before.len() as int] == wanted);
    } else {
        lemma_scan_emits_every_present_slot(space, count - 1, position);
        let i = choose|i: int| 0 <= i < before.len() && #[trigger] before[i] == wanted;
        if spec_detect(header) is Some {
            assert(spec_scan(space, count)[i] == before[i]);
        } else {
            assert(spec_scan(space, count)[i] == wanted);
        }
    }
}

} // verus!
