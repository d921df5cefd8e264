//! The driver: bring-up of the card and the servicing of its rings.
//!
//! The driver performs no port access itself. It says which access is due
//! (`pending`), takes the outcome (`advance`) and decides what follows.

use vstd::prelude::*;
use vstd::string::StringExecFns;
use crate::pci::comms::{spec_address, PortOp, CONFIG_ADDRESS, CONFIG_DATA};
use crate::pci::model::PciDeviceBinding;
use crate::pcnet::buffers::{
    spec_encode_size, spec_regions_error, BufferManager, DescriptorEntry, DmaRegions, PacketBuffer, BUFFER_SIZE,
    NUM_RECEIVE_BUFFERS, NUM_TRANSMIT_BUFFERS, OWN,
};
use crate::pcnet::ports::{spec_io_base, spec_mac_address, IoPorts, APROM0, APROM4, BDP, RAP, RDP, RESET16, RESET32};
use crate::pcnet::support::AddrError;
use crate::shortcuts::{push_lower_hex, spec_lower_hex};

verus! {

/// The configuration offset of the command and status dword.
pub const COMMAND_OFFSET: u8 = 4;

/// The command bits that enable I/O space and bus mastering.
pub const COMMAND_ENABLE: u32 = 0x5;

/// The value of a dword read from a card that is no longer there.
pub const VANISHED: u32 = 0xFFFF_FFFF;

/// The software style that selects thirty-two-bit descriptors.
pub const SWSTYLE: u32 = 2;

/// The automatic media selection bit of bus control register 2.
pub const ASEL: u32 = 0x2;

/// Control and status register 0: asks the card to read the initialization
/// block.
pub const CSR0_INIT: u32 = 0x1;

/// Control and status register 0: starts the card.
pub const CSR0_STRT: u32 = 0x2;

/// Control and status register 0: asks the card to look at the transmit
/// ring now.
pub const CSR0_TDMD: u32 = 0x8;

/// Control and status register 0: the card has read the initialization
/// block.
pub const CSR0_IDON: u32 = 0x100;

/// The stages of the driver's life. Only a running driver moves traffic.
#[derive(Debug, Clone, Copy, PartialEq, Eq, Structural)]
pub enum DriverState {
    /// The card's bus access has not been enabled yet.
    Uninitialized,
    /// The card is being reset and switched to thirty-two-bit mode.
    Resetting,
    /// The card has been reset; its registers and rings are being set up,
    /// and it has not been started yet.
    Configured,
    /// The card has been started.
    Running,
    /// The driver has been stopped, by its user or by a failure.
    Stopped,
}

/// Why the driver refuses or gives up.
#[derive(Debug, Clone, Copy, PartialEq, Eq, Structural)]
pub enum PcNetError {
    /// A card-visible structure has no bus-physical address.
    Address(AddrError),
    /// The I/O window that BAR0 names runs past the end of the port space.
    IoBase,
    /// A dword read during bring-up returned all ones.
    CardVanished,
    /// The card did not report its initialization done within the polls
    /// allowed.
    InitTimeout,
    /// The driver is not running.
    NotRunning,
    /// The frame is empty or longer than a packet buffer.
    FrameLength,
    /// The card owns every transmit descriptor.
    Backpressure,
}

/// The steps of the bring-up, in order, then the two states of rest.
#[derive(Debug, Clone, Copy, PartialEq, Eq, Structural)]
pub enum Step {
    /// Read the command and status dword of the card's function.
    ReadCommand,
    /// Write it back with I/O space and bus mastering enabled.
    WriteCommand,
    /// Reset the card through the thirty-two-bit reset port.
    Reset32,
    /// Reset the card through the sixteen-bit reset port.
    Reset16,
    /// Let the reset settle.
    Settle,
    /// Switch the card to thirty-two-bit mode.
    SelectDwordMode,
    /// Read control and status register 58.
    ReadStyle,
    /// Write it back with the software style for thirty-two-bit descriptors.
    WriteStyle,
    /// Read bus control register 2.
    ReadMedia,
    /// Write it back with automatic media selection.
    WriteMedia,
    /// Read the first dword of the address PROM.
    ReadApromLow,
    /// Read the second dword of the address PROM; the rings are prepared
    /// once it is known.
    ReadApromHigh,
    /// Make the prepared rings and the initialization block visible to the
    /// card.
    PublishRings,
    /// Write the low half of the initialization block's address.
    WriteInitLow,
    /// Write the high half of the initialization block's address.
    WriteInitHigh,
    /// Read control and status register 0.
    ReadInit,
    /// Write it back with the initialization bit.
    WriteInit,
    /// Poll control and status register 0 for the end of the initialization.
    AwaitDone,
    /// Read control and status register 0 once more.
    ReadStart,
    /// Write it back with the start bit, and without the initialization and
    /// stop bits.
    WriteStart,
    /// The card runs.
    Running,
    /// The driver has stopped.
    Stopped,
}

/// What the driver asks of its user next.
#[derive(Debug, Clone, Copy, PartialEq, Eq, Structural)]
pub enum Action {
    /// Read a configuration dword of the card's function.
    ConfigRead { offset: u8 },
    /// Write a configuration dword of the card's function.
    ConfigWrite { offset: u8, value: u32 },
    /// Read the thirty-two-bit reset port.
    ReadReset32,
    /// Read the sixteen-bit reset port.
    ReadReset16,
    /// Wait for at least a microsecond.
    Delay,
    /// Write the register data port.
    WriteRdp { value: u32 },
    /// Read a control and status register.
    ReadCsr { number: u32 },
    /// Write a control and status register.
    WriteCsr { number: u32, value: u32 },
    /// Read a bus control register.
    ReadBcr { number: u32 },
    /// Write a bus control register.
    WriteBcr { number: u32, value: u32 },
    /// Read the first dword of the address PROM.
    ReadAprom0,
    /// Read the second dword of the address PROM.
    ReadAprom4,
    /// Copy the images of the rings and of the initialization block to the
    /// card-visible memory.
    PublishRings,
    /// Nothing: the bring-up is over.
    Idle,
}

/// The stage of the driver's life that a step belongs to.
pub open spec fn spec_state(step: Step) -> DriverState {
    match step {
        Step::ReadCommand | Step::WriteCommand => DriverState::Uninitialized,
        Step::Reset32 | Step::Reset16 | Step::Settle | Step::SelectDwordMode => DriverState::Resetting,
        Step::Running => DriverState::Running,
        Step::Stopped => DriverState::Stopped,
        _ => DriverState::Configured,
    }
}

/// Whether the outcome of a step is a dword read from the card.
pub open spec fn spec_reads_dword(step: Step) -> bool {
    match step {
        Step::ReadCommand
        | Step::Reset32
        | Step::ReadStyle
        | Step::ReadMedia
        | Step::ReadApromLow
        | Step::ReadApromHigh
        | Step::ReadInit
        | Step::AwaitDone
        | Step::ReadStart => true,
        _ => false,
    }
}

/// What a step asks for. `latch` is the dword that the step before read,
/// `init_block` the bus-physical address of the initialization block.
pub open spec fn spec_pending(step: Step, latch: u32, init_block: u32) -> Action {
    match step {
        Step::ReadCommand => Action::ConfigRead { offset: COMMAND_OFFSET },
        Step::WriteCommand => Action::ConfigWrite {
            offset: COMMAND_OFFSET,
            value: (latch & 0xffff_0000) | COMMAND_ENABLE,
        },
        Step::Reset32 => Action::ReadReset32,
        Step::Reset16 => Action::ReadReset16,
        Step::Settle => Action::Delay,
        Step::SelectDwordMode => Action::WriteRdp { value: 0 },
        Step::ReadStyle => Action::ReadCsr { number: 58 },
        Step::WriteStyle => Action::WriteCsr { number: 58, value: (latch & 0xff00) | SWSTYLE },
        Step::ReadMedia => Action::ReadBcr { number: 2 },
        Step::WriteMedia => Action::WriteBcr { number: 2, value: latch | ASEL },
        Step::ReadApromLow => Action::ReadAprom0,
        Step::ReadApromHigh => Action::ReadAprom4,
        Step::PublishRings => Action::PublishRings,
        Step::WriteInitLow => Action::WriteCsr { number: 1, value: init_block & 0xffff },
        Step::WriteInitHigh => Action::WriteCsr { number: 2, value: (init_block >> 16) & 0xffff },
        Step::ReadInit => Action::ReadCsr { number: 0 },
        Step::WriteInit => Action::WriteCsr { number: 0, value: latch | CSR0_INIT },
        Step::AwaitDone => Action::ReadCsr { number: 0 },
        Step::ReadStart => Action::ReadCsr { number: 0 },
        Step::WriteStart => Action::WriteCsr { number: 0, value: (latch & 0xffff_fffa) | CSR0_STRT },
        Step::Running => Action::Idle,
        Step::Stopped => Action::Idle,
    }
}

/// Whether a reply to the wait for the card's initialization is a poll in
/// vain: the card is there and has not reported its initialization done.
pub open spec fn spec_poll_in_vain(step: Step, reply: u32) -> bool {
    step == Step::AwaitDone && reply != VANISHED && reply & CSR0_IDON == 0
}

/// Why the driver gives up on the outcome of a step, if it does: a reading
/// step got a dword of all ones, or a poll was in vain with no poll in vain
/// left. `budget` is the number of polls in vain that are still allowed, or
/// nothing where the wait is not bounded.
pub open spec fn spec_failure(step: Step, reply: u32, budget: Option<u32>) -> Option<PcNetError> {
    if spec_reads_dword(step) && reply == VANISHED {
        Some(PcNetError::CardVanished)
    } else if spec_poll_in_vain(step, reply) && budget == Some(0u32) {
        Some(PcNetError::InitTimeout)
    } else {
        None
    }
}

/// The polls in vain that are still allowed once the outcome of a step is
/// known: one fewer after a poll in vain.
pub open spec fn spec_next_budget(step: Step, reply: u32, budget: Option<u32>) -> Option<u32> {
    match budget {
        Some(left) => if spec_poll_in_vain(step, reply) && left > 0 {
            Some((left - 1) as u32)
        } else {
            budget
        },
        None => None,
    }
}

/// The step that follows once the outcome of a step is known. A failure
/// stops the driver; the wait for the card's initialization lasts until the
/// card reports it done.
pub open spec fn spec_next_step(step: Step, reply: u32, budget: Option<u32>) -> Step {
    if spec_failure(step, reply, budget) is Some {
        Step::Stopped
    } else {
        match step {
            Step::ReadCommand => Step::WriteCommand,
            Step::WriteCommand => Step::Reset32,
            Step::Reset32 => Step::Reset16,
            Step::Reset16 => Step::Settle,
            Step::Settle => Step::SelectDwordMode,
            Step::SelectDwordMode => Step::ReadStyle,
            Step::ReadStyle => Step::WriteStyle,
            Step::WriteStyle => Step::ReadMedia,
            Step::ReadMedia => Step::WriteMedia,
            Step::WriteMedia => Step::ReadApromLow,
            Step::ReadApromLow => Step::ReadApromHigh,
            Step::ReadApromHigh => Step::PublishRings,
            Step::PublishRings => Step::WriteInitLow,
            Step::WriteInitLow => Step::WriteInitHigh,
            Step::WriteInitHigh => Step::ReadInit,
            Step::ReadInit => Step::WriteInit,
            Step::WriteInit => Step::AwaitDone,
            Step::AwaitDone => if reply & CSR0_IDON != 0 {
                Step::ReadStart
            } else {
                Step::AwaitDone
            },
            Step::ReadStart => Step::WriteStart,
            Step::WriteStart => Step::Running,
            Step::Running => Step::Running,
            Step::Stopped => Step::Stopped,
        }
    }
}

/// Whether the MAC address has been read once a step is due: from the
/// publication of the rings on, while the driver has not stopped.
pub open spec fn spec_mac_known(step: Step) -> bool {
    match step {
        Step::PublishRings
        | Step::WriteInitLow
        | Step::WriteInitHigh
        | Step::ReadInit
        | Step::WriteInit
        | Step::AwaitDone
        | Step::ReadStart
        | Step::WriteStart
        | Step::Running => true,
        _ => false,
    }
}

/// The port accesses that carry out an action, in order. An access to an
/// indirect register selects the register through the register address
/// pointer first; waiting and publishing take no port access.
pub open spec fn spec_action_ops(binding: PciDeviceBinding, io_base: u16, action: Action) -> Seq<PortOp> {
    match action {
        Action::ConfigRead { offset } => seq![
            PortOp::Write32 {
                port: CONFIG_ADDRESS,
                value: spec_address(binding.address.bus, binding.address.device, binding.address.function, offset),
            },
            PortOp::Read32 { port: CONFIG_DATA },
        ],
        Action::ConfigWrite { offset, value } => seq![
            PortOp::Write32 {
                port: CONFIG_ADDRESS,
                value: spec_address(binding.address.bus, binding.address.device, binding.address.function, offset),
            },
            PortOp::Write32 { port: CONFIG_DATA, value: value },
        ],
        Action::ReadReset32 => seq![PortOp::Read32 { port: (io_base + RESET32) as u16 }],
        Action::ReadReset16 => seq![PortOp::Read16 { port: (io_base + RESET16) as u16 }],
        Action::Delay => Seq::empty(),
        Action::WriteRdp { value } => seq![PortOp::Write32 { port: (io_base + RDP) as u16, value: value }],
        Action::ReadCsr { number } => seq![
            PortOp::Write32 { port: (io_base + RAP) as u16, value: number },
            PortOp::Read32 { port: (io_base + RDP) as u16 },
        ],
        Action::WriteCsr { number, value } => seq![
            PortOp::Write32 { port: (io_base + RAP) as u16, value: number },
            PortOp::Write32 { port: (io_base + RDP) as u16, value: value },
        ],
        Action::ReadBcr { number } => seq![
            PortOp::Write32 { port: (io_base + RAP) as u16, value: number },
            PortOp::Read32 { port: (io_base + BDP) as u16 },
        ],
        Action::WriteBcr { number, value } => seq![
            PortOp::Write32 { port: (io_base + RAP) as u16, value: number },
            PortOp::Write32 { port: (io_base + BDP) as u16, value: value },
        ],
        Action::ReadAprom0 => seq![PortOp::Read32 { port: (io_base + APROM0) as u16 }],
        Action::ReadAprom4 => seq![PortOp::Read32 { port: (io_base + APROM4) as u16 }],
        Action::PublishRings => Seq::empty(),
        Action::Idle => Seq::empty(),
    }
}

/// The port accesses that carry out an action, in order.
pub fn action_ops(binding: &PciDeviceBinding, io_ports: &IoPorts, action: Action) -> (ops: Vec<PortOp>)
    requires
        io_ports.wf(),
    ensures
        ops@ == spec_action_ops(*binding, io_ports.io_base, action),
{
    let mut ops: Vec<PortOp> = Vec::new();
    match action {
        Action::ConfigRead { offset } => {
            let pair = binding.config_read(offset);
            ops.push(pair[0]);
            ops.push(pair[1]);
        },
        Action::ConfigWrite { offset, value } => {
            let pair = binding.config_write(offset, value);
            ops.push(pair[0]);
            ops.push(pair[1]);
        },
        Action::ReadReset32 => {
            let one = io_ports.read_reset32();
            ops.push(one[0]);
        },
        Action::ReadReset16 => {
            let one = io_ports.read_reset16();
            ops.push(one[0]);
        },
        Action::Delay => {},
        Action::WriteRdp { value } => {
            let one = io_ports.write_rdp32(value);
            ops.push(one[0]);
        },
        Action::ReadCsr { number } => {
            let pair = io_ports.read_csr32(number);
            ops.push(pair[0]);
            ops.push(pair[1]);
        },
        Action::WriteCsr { number, value } => {
            let pair = io_ports.write_csr32(number, value);
            ops.push(pair[0]);
            ops.push(pair[1]);
        },
        Action::ReadBcr { number } => {
            let pair = io_ports.read_bcr32(number);
            ops.push(pair[0]);
            ops.push(pair[1]);
        },
        Action::WriteBcr { number, value } => {
            let pair = io_ports.write_bcr32(number, value);
            ops.push(pair[0]);
            ops.push(pair[1]);
        },
        Action::ReadAprom0 => {
            let one = io_ports.read_aprom0();
            ops.push(one[0]);
        },
        Action::ReadAprom4 => {
            let one = io_ports.read_aprom4();
            ops.push(one[0]);
        },
        Action::PublishRings => {},
        Action::Idle => {},
    }
    assert(ops@ =~= spec_action_ops(*binding, io_ports.io_base, action));
    ops
}

/// The lines that report where the card finds the structures: the
/// bus-physical addresses of the last receive buffer, the last transmit
/// buffer, the two descriptor rings and the initialization block, each in
/// hexadecimal behind its label.
pub open spec fn spec_dump(manager: BufferManager) -> Seq<Seq<char>> {
    seq![
        "rx_bufs[31]: 0x"@ + spec_lower_hex(manager.spec_rx_buffer(31) as nat),
        "tx_bufs[7]: 0x"@ + spec_lower_hex(manager.spec_tx_buffer(7) as nat),
        "rx_desc[0]: 0x"@ + spec_lower_hex(manager.spec_rx_descriptor(0) as nat),
        "tx_desc[0]: 0x"@ + spec_lower_hex(manager.spec_tx_descriptor(0) as nat),
        "init_struct: 0x"@ + spec_lower_hex(manager.spec_init_block() as nat),
    ]
}

/// A number in hexadecimal behind a label.
fn labelled_hex(label: &str, number: u32) -> (line: String)
    ensures
        line@ == label@ + spec_lower_hex(number as nat),
{
    let mut line = String::from_str(label);
    push_lower_hex(&mut line, number);
    line
}

/// Whether a step reads a dword from the card.
pub fn reads_dword(step: Step) -> (reads: bool)
    ensures
        reads == spec_reads_dword(step),
{
    match step {
        Step::ReadCommand
        | Step::Reset32
        | Step::ReadStyle
        | Step::ReadMedia
        | Step::ReadApromLow
        | Step::ReadApromHigh
        | Step::ReadInit
        | Step::AwaitDone
        | Step::ReadStart => true,
        _ => false,
    }
}

/// Why the driver gives up on the outcome of a step, if it does.
pub fn failure_of(step: Step, reply: u32, budget: Option<u32>) -> (failure: Option<PcNetError>)
    ensures
        failure == spec_failure(step, reply, budget),
{
    if reads_dword(step) && reply == VANISHED {
        return Some(PcNetError::CardVanished);
    }
    match (step, budget) {
        (Step::AwaitDone, Some(left)) => if left == 0 && reply & CSR0_IDON == 0 {
            Some(PcNetError::InitTimeout)
        } else {
            None
        },
        _ => None,
    }
}

/// The polls in vain that are still allowed once the outcome of a step is
/// known.
pub fn next_budget(step: Step, reply: u32, budget: Option<u32>) -> (next: Option<u32>)
    ensures
        next == spec_next_budget(step, reply, budget),
{
    match (step, budget) {
        (Step::AwaitDone, Some(left)) => if left > 0 && reply != VANISHED && reply & CSR0_IDON == 0 {
            Some(left - 1)
        } else {
            budget
        },
        _ => budget,
    }
}

/// The step that follows once the outcome of a step is known.
pub fn next_step(step: Step, reply: u32, budget: Option<u32>) -> (next: Step)
    ensures
        next == spec_next_step(step, reply, budget),
{
    if failure_of(step, reply, budget).is_some() {
        return Step::Stopped;
    }
    match step {
        Step::ReadCommand => Step::WriteCommand,
        Step::WriteCommand => Step::Reset32,
        Step::Reset32 => Step::Reset16,
        Step::Reset16 => Step::Settle,
        Step::Settle => Step::SelectDwordMode,
        Step::SelectDwordMode => Step::ReadStyle,
        Step::ReadStyle => Step::WriteStyle,
        Step::WriteStyle => Step::ReadMedia,
        Step::ReadMedia => Step::WriteMedia,
        Step::WriteMedia => Step::ReadApromLow,
        Step::ReadApromLow => Step::ReadApromHigh,
        Step::ReadApromHigh => Step::PublishRings,
        Step::PublishRings => Step::WriteInitLow,
        Step::WriteInitLow => Step::WriteInitHigh,
        Step::WriteInitHigh => Step::ReadInit,
        Step::ReadInit => Step::WriteInit,
        Step::WriteInit => Step::AwaitDone,
        Step::AwaitDone => if reply & CSR0_IDON != 0 {
            Step::ReadStart
        } else {
            Step::AwaitDone
        },
        Step::ReadStart => Step::WriteStart,
        Step::WriteStart => Step::Running,
        Step::Running => Step::Running,
        Step::Stopped => Step::Stopped,
    }
}

/// One driver instance for one card.
pub struct PcNet {
    /// The card's function and its record.
    pub binding: PciDeviceBinding,
    /// The card's I/O window.
    pub io_ports: IoPorts,
    /// The images of the card-visible structures.
    pub buffer_manager: BufferManager,
    /// The step whose action is due.
    pub step: Step,
    /// The dword that the last reading step read.
    pub latch: u32,
    /// The card's MAC address, once it has been read.
    pub mac: Option<[u8; 6]>,
    /// The receive slot that is serviced next.
    pub rx_index: usize,
    /// Why the driver stopped, if a failure stopped it.
    pub failure: Option<PcNetError>,
    /// How many polls in vain the wait for the card's initialization may
    /// still take, or nothing where the wait is not bounded.
    pub poll_budget: Option<u32>,
}

impl PcNet {
    /// The driver's invariant: its structures have bus-physical addresses,
    /// its I/O window lies within the port space and the receive cursor
    /// within the ring; and from the preparation of the rings on, while the
    /// driver has not stopped, the MAC address is known, the card owns every
    /// receive descriptor of the image, and every descriptor names its
    /// parallel buffer.
    pub open spec fn wf(&self) -> bool {
        &&& self.buffer_manager.wf()
        &&& self.io_ports.wf()
        &&& self.rx_index < NUM_RECEIVE_BUFFERS
        &&& spec_mac_known(self.step) ==> self.mac is Some && self.buffer_manager.rings_bound()
    }

    /// The stage of the driver's life.
    pub open spec fn spec_state(&self) -> DriverState {
        spec_state(self.step)
    }

    /// A driver for the card at `binding`, with nothing done yet. The
    /// card-visible structures lie at `regions`; physical memory is mapped
    /// at `physical_memory_offset`. Fails where a structure has no
    /// bus-physical address, or else where the I/O window does not fit. The
    /// wait for the card's initialization is not bounded until `limit_polls`
    /// bounds it.
    pub fn initialize(binding: PciDeviceBinding, physical_memory_offset: u64, regions: DmaRegions) -> (driver: Result<
        Self,
        PcNetError,
    >)
        ensures
            spec_regions_error(physical_memory_offset, regions) is Some ==> driver is Err && driver->Err_0
                == PcNetError::Address(spec_regions_error(physical_memory_offset, regions)->0),
            spec_regions_error(physical_memory_offset, regions) is None && spec_io_base(binding.device.bar0)
                > u16::MAX - BDP ==> driver is Err && driver->Err_0 == PcNetError::IoBase,
            spec_regions_error(physical_memory_offset, regions) is None && spec_io_base(binding.device.bar0)
                <= u16::MAX - BDP ==> {
                &&& driver is Ok
                &&& driver->Ok_0.wf()
                &&& driver->Ok_0.binding == binding
                &&& driver->Ok_0.io_ports.io_base == spec_io_base(binding.device.bar0)
                &&& driver->Ok_0.buffer_manager.regions == regions
                &&& driver->Ok_0.buffer_manager.translator.physical_memory_offset == physical_memory_offset
                &&& driver->Ok_0.buffer_manager.blank()
                &&& driver->Ok_0.step == Step::ReadCommand
                &&& driver->Ok_0.latch == 0
                &&& driver->Ok_0.mac is None
                &&& driver->Ok_0.rx_index == 0
                &&& driver->Ok_0.failure is None
                &&& driver->Ok_0.poll_budget is None
            },
    {
        let buffer_manager = match BufferManager::new(physical_memory_offset, regions) {
            Ok(manager) => manager,
            Err(error) => {
                return Err(PcNetError::Address(error));
            },
        };
        let io_ports = match IoPorts::new(IoPorts::base_of_bar0(binding.device.bar0)) {
            Some(ports) => ports,
            None => {
                return Err(PcNetError::IoBase);
            },
        };
        Ok(
            PcNet {
                binding,
                io_ports,
                buffer_manager,
                step: Step::ReadCommand,
                latch: 0,
                mac: None,
                rx_index: 0,
                failure: None,
                poll_budget: None,
            },
        )
    }

    /// The stage of the driver's life.
    pub fn state(&self) -> (state: DriverState)
        ensures
            state == self.spec_state(),
    {
        match self.step {
            Step::ReadCommand | Step::WriteCommand => DriverState::Uninitialized,
            Step::Reset32 | Step::Reset16 | Step::Settle | Step::SelectDwordMode => DriverState::Resetting,
            Step::Running => DriverState::Running,
            Step::Stopped => DriverState::Stopped,
            _ => DriverState::Configured,
        }
    }

    /// What the driver asks of its user next.
    pub fn pending(&self) -> (action: Action)
        requires
            self.wf(),
        ensures
            action == spec_pending(self.step, self.latch, self.buffer_manager.spec_init_block() as u32),
    {
        let latch: u32 = self.latch;
        match self.step {
            Step::ReadCommand => Action::ConfigRead { offset: COMMAND_OFFSET },
            Step::WriteCommand => Action::ConfigWrite {
                offset: COMMAND_OFFSET,
                value: (latch & 0xffff_0000) | COMMAND_ENABLE,
            },
            Step::Reset32 => Action::ReadReset32,
            Step::Reset16 => Action::ReadReset16,
            Step::Settle => Action::Delay,
            Step::SelectDwordMode => Action::WriteRdp { value: 0 },
            Step::ReadStyle => Action::ReadCsr { number: 58 },
            Step::WriteStyle => Action::WriteCsr { number: 58, value: (latch & 0xff00) | SWSTYLE },
            Step::ReadMedia => Action::ReadBcr { number: 2 },
            Step::WriteMedia => Action::WriteBcr { number: 2, value: latch | ASEL },
            Step::ReadApromLow => Action::ReadAprom0,
            Step::ReadApromHigh => Action::ReadAprom4,
            Step::PublishRings => Action::PublishRings,
            Step::WriteInitLow => {
                let init_block: u32 = self.buffer_manager.address_of_init_block();
                Action::WriteCsr { number: 1, value: init_block & 0xffff }
            },
            Step::WriteInitHigh => {
                let init_block: u32 = self.buffer_manager.address_of_init_block();
                Action::WriteCsr { number: 2, value: (init_block >> 16) & 0xffff }
            },
            Step::ReadInit => Action::ReadCsr { number: 0 },
            Step::WriteInit => Action::WriteCsr { number: 0, value: latch | CSR0_INIT },
            Step::AwaitDone => Action::ReadCsr { number: 0 },
            Step::ReadStart => Action::ReadCsr { number: 0 },
            Step::WriteStart => Action::WriteCsr { number: 0, value: (latch & 0xffff_fffa) | CSR0_STRT },
            Step::Running => Action::Idle,
            Step::Stopped => Action::Idle,
        }
    }

    /// The port accesses that carry out the pending action, in order.
    pub fn pending_ops(&self) -> (ops: Vec<PortOp>)
        requires
            self.wf(),
        ensures
            ops@ == spec_action_ops(
                self.binding,
                self.io_ports.io_base,
                spec_pending(self.step, self.latch, self.buffer_manager.spec_init_block() as u32),
            ),
    {
        action_ops(&self.binding, &self.io_ports, self.pending())
    }

    /// Bounds the wait for the card's initialization to `limit` polls in
    /// vain, or lifts the bound.
    pub fn limit_polls(&mut self, limit: Option<u32>)
        ensures
            *final(self) == (PcNet { poll_budget: limit, ..*old(self) }),
            old(self).wf() ==> final(self).wf(),
    {
        self.poll_budget = limit;
    }

    /// Takes the outcome of the pending action: the value read, or anything
    /// where the action reads nothing. A dword of all ones stops the driver
    /// with `CardVanished`, a poll in vain beyond the polls allowed with
    /// `InitTimeout`. Once both address PROM dwords are known, the MAC
    /// address is kept and the rings and the initialization block are
    /// prepared; no other step touches them.
    pub fn advance(&mut self, reply: u32)
        requires
            old(self).wf(),
        ensures
            final(self).wf(),
            final(self).step == spec_next_step(old(self).step, reply, old(self).poll_budget),
            final(self).poll_budget == spec_next_budget(old(self).step, reply, old(self).poll_budget),
            final(self).latch == (if spec_reads_dword(old(self).step) {
                reply
            } else {
                old(self).latch
            }),
            final(self).failure == (if spec_failure(old(self).step, reply, old(self).poll_budget) is Some {
                spec_failure(old(self).step, reply, old(self).poll_budget)
            } else {
                old(self).failure
            }),
            final(self).binding == old(self).binding,
            final(self).io_ports == old(self).io_ports,
            final(self).rx_index == old(self).rx_index,
            final(self).buffer_manager.regions == old(self).buffer_manager.regions,
            final(self).buffer_manager.translator == old(self).buffer_manager.translator,
            old(self).step == Step::ReadApromHigh && reply != VANISHED ==> {
                &&& final(self).mac is Some
                &&& final(self).mac->0@ == spec_mac_address(old(self).latch, reply)
                &&& final(self).buffer_manager.prepared(spec_mac_address(old(self).latch, reply))
                &&& final(self).buffer_manager.prepared_from(
                    old(self).buffer_manager,
                    spec_mac_address(old(self).latch, reply),
                )
            },
            !(old(self).step == Step::ReadApromHigh && reply != VANISHED) ==> {
                &&& final(self).mac == old(self).mac
                &&& final(self).buffer_manager == old(self).buffer_manager
            },
    {
        let step: Step = self.step;
        let budget: Option<u32> = self.poll_budget;
        match failure_of(step, reply, budget) {
            Some(failure) => {
                self.failure = Some(failure);
            },
            None => {},
        }
        match step {
            Step::ReadApromHigh => {
                if reply != VANISHED {
                    let mac: [u8; 6] = IoPorts::read_mac_address(self.latch, reply);
                    self.buffer_manager.initialize(mac);
                    self.mac = Some(mac);
                }
            },
            _ => {},
        }
        if reads_dword(step) {
            self.latch = reply;
        }
        self.poll_budget = next_budget(step, reply, budget);
        self.step = next_step(step, reply, budget);
    }

    /// Stops the driver. A stopped driver stays stopped.
    pub fn stop(&mut self)
        requires
            old(self).wf(),
        ensures
            final(self).wf(),
            final(self).step == Step::Stopped,
            final(self).spec_state() == DriverState::Stopped,
            final(self).binding == old(self).binding,
            final(self).io_ports == old(self).io_ports,
            final(self).buffer_manager == old(self).buffer_manager,
            final(self).latch == old(self).latch,
            final(self).mac == old(self).mac,
            final(self).rx_index == old(self).rx_index,
            final(self).failure == old(self).failure,
            final(self).poll_budget == old(self).poll_budget,
    {
        self.step = Step::Stopped;
    }

    /// The lines that report where the card finds the structures.
    pub fn dump_phys_addresses(&self) -> (lines: Vec<String>)
        requires
            self.wf(),
        ensures
            lines@.len() == 5,
            forall|i: int| 0 <= i < 5 ==> (#[trigger] lines@[i])@ == spec_dump(self.buffer_manager)[i],
    {
        let manager = &self.buffer_manager;
        let mut lines: Vec<String> = Vec::new();
        lines.push(labelled_hex("rx_bufs[31]: 0x", manager.address_of_rx_buffer(31)));
        lines.push(labelled_hex("tx_bufs[7]: 0x", manager.address_of_tx_buffer(7)));
        lines.push(labelled_hex("rx_desc[0]: 0x", manager.address_of_rx_descriptor(0)));
        lines.push(labelled_hex("tx_desc[0]: 0x", manager.address_of_tx_descriptor(0)));
        lines.push(labelled_hex("init_struct: 0x", manager.address_of_init_block()));
        lines
    }

    /// The card's MAC address, once the bring-up has read it.
    pub fn read_mac_address(&self) -> (mac: Option<[u8; 6]>)
        ensures
            mac == self.mac,
    {
        self.mac
    }

    /// Services the receive slot under the cursor. `status` is the high
    /// status byte of that slot's descriptor, as read from the card-visible
    /// memory just now. Where the driver owns the descriptor, the card has
    /// left a frame: the result is the slot, whose buffer is to be handed
    /// on, and the image of the descriptor is given back to the card, which
    /// the caller then does to the card-visible descriptor too. Where the
    /// card owns it, nothing is done. Either way the cursor moves to the
    /// next slot, after the last to the first. A driver that is not running
    /// does nothing.
    pub fn poll_recv_packets(&mut self, status: u8) -> (slot: Option<usize>)
        requires
            old(self).wf(),
        ensures
            final(self).wf(),
            final(self).binding == old(self).binding,
            final(self).io_ports == old(self).io_ports,
            final(self).step == old(self).step,
            final(self).latch == old(self).latch,
            final(self).mac == old(self).mac,
            final(self).failure == old(self).failure,
            final(self).poll_budget == old(self).poll_budget,
            final(self).buffer_manager.translator == old(self).buffer_manager.translator,
            final(self).buffer_manager.regions == old(self).buffer_manager.regions,
            final(self).buffer_manager.receive_buffers == old(self).buffer_manager.receive_buffers,
            final(self).buffer_manager.transmit_buffers == old(self).buffer_manager.transmit_buffers,
            final(self).buffer_manager.transmit_descriptors == old(self).buffer_manager.transmit_descriptors,
            final(self).buffer_manager.init_block == old(self).buffer_manager.init_block,
            slot is Some <==> old(self).step == Step::Running && status & OWN == 0,
            slot is Some ==> slot->0 == old(self).rx_index,
            old(self).step == Step::Running ==> final(self).rx_index == (old(self).rx_index + 1)
                % NUM_RECEIVE_BUFFERS as int,
            old(self).step != Step::Running ==> final(self).rx_index == old(self).rx_index,
            forall|i: int|
                0 <= i < NUM_RECEIVE_BUFFERS && !(slot is Some && i == old(self).rx_index) ==> (
                #[trigger] final(self).buffer_manager.receive_descriptors.entries@[i]) == old(self).buffer_manager.receive_descriptors.entries@[i],
            slot is Some ==> final(self).buffer_manager.receive_descriptors.entries@[old(self).rx_index as int] == (
            DescriptorEntry {
                ownership: OWN,
                ..old(self).buffer_manager.receive_descriptors.entries@[old(self).rx_index as int]
            }),
    {
        match self.step {
            Step::Running => {},
            _ => {
                return None;
            },
        }
        let idx: usize = self.rx_index;
        let mut desc: DescriptorEntry = self.buffer_manager.receive_descriptors.entries[idx];
        desc.ownership = status;
        let claimed: bool = desc.driver_has_ownership();
        if claimed {
            desc = self.buffer_manager.receive_descriptors.entries[idx];
            desc.set_card_ownership();
            self.buffer_manager.receive_descriptors.entries[idx] = desc;
        }
        self.rx_index = (idx + 1) % NUM_RECEIVE_BUFFERS;
        if claimed {
            Some(idx)
        } else {
            None
        }
    }

    /// The first transmit slot whose descriptor the driver owns, if there
    /// is one.
    pub fn free_transmit_slot(&self) -> (free: Option<usize>)
        ensures
            free is None <==> forall|j: int|
                0 <= j < NUM_TRANSMIT_BUFFERS ==> (#[trigger] self.buffer_manager.transmit_descriptors.entries@[j]).card_owned(),
            free is Some ==> {
                &&& free->0 < NUM_TRANSMIT_BUFFERS
                &&& !self.buffer_manager.transmit_descriptors.entries@[free->0 as int].card_owned()
                &&& forall|j: int|
                    0 <= j < free->0 ==> (#[trigger] self.buffer_manager.transmit_descriptors.entries@[j]).card_owned()
            },
    {
        let mut slot: usize = 0;
        while slot < NUM_TRANSMIT_BUFFERS
            invariant
                slot <= NUM_TRANSMIT_BUFFERS,
                forall|j: int|
                    0 <= j < slot ==> (#[trigger] self.buffer_manager.transmit_descriptors.entries@[j]).card_owned(),
            decreases NUM_TRANSMIT_BUFFERS - slot,
        {
            let candidate: DescriptorEntry = self.buffer_manager.transmit_descriptors.entries[slot];
            if candidate.driver_has_ownership() {
                return Some(slot);
            }
            slot = slot + 1;
        }
        None
    }

    /// Queues a frame for transmission: takes the first transmit slot whose
    /// descriptor the driver owns, copies the frame to the front of the
    /// slot's buffer, writes the frame's length into the descriptor and
    /// gives the descriptor to the card. The result is the slot; the caller
    /// copies the slot's buffer and descriptor to the card-visible memory,
    /// the owner byte last, and carries out `transmit_demand`.
    ///
    /// Fails with `NotRunning` unless the driver runs, else with
    /// `FrameLength` where the frame is empty or longer than a buffer, else
    /// with `Backpressure` where the card owns every transmit descriptor. A
    /// failure changes nothing.
    pub fn transmit(&mut self, payload: &[u8]) -> (queued: Result<usize, PcNetError>)
        requires
            old(self).wf(),
        ensures
            final(self).wf(),
            final(self).binding == old(self).binding,
            final(self).io_ports == old(self).io_ports,
            final(self).step == old(self).step,
            final(self).latch == old(self).latch,
            final(self).mac == old(self).mac,
            final(self).failure == old(self).failure,
            final(self).poll_budget == old(self).poll_budget,
            final(self).rx_index == old(self).rx_index,
            final(self).buffer_manager.translator == old(self).buffer_manager.translator,
            final(self).buffer_manager.regions == old(self).buffer_manager.regions,
            final(self).buffer_manager.receive_buffers == old(self).buffer_manager.receive_buffers,
            final(self).buffer_manager.receive_descriptors == old(self).buffer_manager.receive_descriptors,
            final(self).buffer_manager.init_block == old(self).buffer_manager.init_block,
            queued is Err ==> final(self).buffer_manager == old(self).buffer_manager,
            old(self).step != Step::Running ==> queued == Err::<usize, PcNetError>(PcNetError::NotRunning),
            old(self).step == Step::Running && (payload@.len() == 0 || payload@.len() > BUFFER_SIZE) ==> queued
                == Err::<usize, PcNetError>(PcNetError::FrameLength),
            old(self).step == Step::Running && 0 < payload@.len() <= BUFFER_SIZE && (forall|j: int|
                0 <= j < NUM_TRANSMIT_BUFFERS ==> (#[trigger] old(self).buffer_manager.transmit_descriptors.entries@[j]).card_owned()) ==> queued == Err::<
                usize,
                PcNetError,
            >(PcNetError::Backpressure),
            old(self).step == Step::Running && 0 < payload@.len() <= BUFFER_SIZE && (exists|j: int|
                0 <= j < NUM_TRANSMIT_BUFFERS && !(#[trigger] old(self).buffer_manager.transmit_descriptors.entries@[j]).card_owned()) ==> queued is Ok,
            queued is Ok ==> {
                let slot = queued->Ok_0 as int;
                &&& 0 <= slot < NUM_TRANSMIT_BUFFERS
                &&& !old(self).buffer_manager.transmit_descriptors.entries@[slot].card_owned()
                &&& forall|j: int|
                    0 <= j < slot ==> (#[trigger] old(self).buffer_manager.transmit_descriptors.entries@[j]).card_owned()
                &&& final(self).buffer_manager.transmit_descriptors.entries@[slot] == (DescriptorEntry {
                    size: spec_encode_size(payload@.len() as int),
                    ownership: OWN,
                    ..old(self).buffer_manager.transmit_descriptors.entries@[slot]
                })
                &&& forall|j: int|
                    0 <= j < NUM_TRANSMIT_BUFFERS && j != slot ==> {
                        &&& (#[trigger] final(self).buffer_manager.transmit_descriptors.entries@[j]) == old(self).buffer_manager.transmit_descriptors.entries@[j]
                        &&& final(self).buffer_manager.transmit_buffers.buffers@[j] == old(self).buffer_manager.transmit_buffers.buffers@[j]
                    }
                &&& forall|k: int|
                    0 <= k < payload@.len() ==> #[trigger] final(self).buffer_manager.transmit_buffers.buffers@[slot].buffer@[k] == payload@[k]
                &&& forall|k: int|
                    payload@.len() <= k < BUFFER_SIZE ==> #[trigger] final(self).buffer_manager.transmit_buffers.buffers@[slot].buffer@[k] == old(self).buffer_manager.transmit_buffers.buffers@[slot].buffer@[k]
            },
    {
        match self.step {
            Step::Running => {},
            _ => {
                return Err(PcNetError::NotRunning);
            },
        }
        let length: usize = payload.len();
        if length == 0 || length > BUFFER_SIZE {
            return Err(PcNetError::FrameLength);
        }
        let slot: usize = match self.free_transmit_slot() {
            Some(slot) => slot,
            None => {
                return Err(PcNetError::Backpressure);
            },
        };
        let mut packet: PacketBuffer = self.buffer_manager.transmit_buffers.buffers[slot];
        let mut k: usize = 0;
        while k < length
            invariant
                k <= length <= BUFFER_SIZE,
                length == payload@.len(),
                slot < NUM_TRANSMIT_BUFFERS,
                *self == *old(self),
                forall|i: int| 0 <= i < k ==> #[trigger] packet.buffer@[i] == payload@[i],
                forall|i: int|
                    k <= i < BUFFER_SIZE ==> #[trigger] packet.buffer@[i] == old(self).buffer_manager.transmit_buffers.buffers@[slot as int].buffer@[i],
            decreases length - k,
        {
            packet.buffer[k] = payload[k];
            k = k + 1;
        }
        self.buffer_manager.transmit_buffers.buffers[slot] = packet;
        let mut desc: DescriptorEntry = self.buffer_manager.transmit_descriptors.entries[slot];
        desc.set_size(length);
        desc.set_card_ownership();
        self.buffer_manager.transmit_descriptors.entries[slot] = desc;
        Ok(slot)
    }

    /// The port accesses that ask the card to look at the transmit ring
    /// now: control and status register 0 is written with the transmit
    /// demand bit.
    pub fn transmit_demand(&self) -> (ops: [PortOp; 2])
        requires
            self.wf(),
        ensures
            ops@ == seq![
                PortOp::Write32 { port: (self.io_ports.io_base + RAP) as u16, value: 0 },
                PortOp::Write32 { port: (self.io_ports.io_base + RDP) as u16, value: CSR0_TDMD },
            ],
    {
        self.io_ports.write_csr32(0, CSR0_TDMD)
    }

    /// Records the high status byte that the card has left in the
    /// descriptor of a transmit slot: once the card has cleared the owner
    /// bit, the slot can be taken again.
    pub fn complete_transmit(&mut self, slot: usize, status: u8)
        requires
            old(self).wf(),
            slot < NUM_TRANSMIT_BUFFERS,
        ensures
            final(self).wf(),
            final(self).binding == old(self).binding,
            final(self).io_ports == old(self).io_ports,
            final(self).step == old(self).step,
            final(self).latch == old(self).latch,
            final(self).mac == old(self).mac,
            final(self).failure == old(self).failure,
            final(self).poll_budget == old(self).poll_budget,
            final(self).rx_index == old(self).rx_index,
            final(self).buffer_manager.translator == old(self).buffer_manager.translator,
            final(self).buffer_manager.regions == old(self).buffer_manager.regions,
            final(self).buffer_manager.receive_buffers == old(self).buffer_manager.receive_buffers,
            final(self).buffer_manager.transmit_buffers == old(self).buffer_manager.transmit_buffers,
            final(self).buffer_manager.receive_descriptors == old(self).buffer_manager.receive_descriptors,
            final(self).buffer_manager.init_block == old(self).buffer_manager.init_block,
            final(self).buffer_manager.transmit_descriptors.entries@ == old(self).buffer_manager.transmit_descriptors.entries@.update(
                slot as int,
                DescriptorEntry {
                    ownership: status,
                    ..old(self).buffer_manager.transmit_descriptors.entries@[slot as int]
                },
            ),
    {
        let mut desc: DescriptorEntry = self.buffer_manager.transmit_descriptors.entries[slot];
        desc.ownership = status;
        self.buffer_manager.transmit_descriptors.entries[slot] = desc;
    }
}

/// What the values written during the bring-up keep and what they change,
/// for every value `latch` that the read before may have returned: the
/// command write keeps the status half and leaves of the command half only
/// the bits for I/O space and bus mastering; the style write selects style 2,
/// keeps the second byte and clears the rest; the media write sets automatic
/// selection and the initialization write sets its bit, each keeping all
/// other bits; the start write clears the initialization and stop bits, sets
/// the start bit and keeps all other bits; and the two halves written for the
/// initialization block make up its address.
pub proof fn lemma_written_values(latch: u32, init_block: u32)
    ensures
        spec_pending(Step::WriteCommand, latch, init_block) == (Action::ConfigWrite {
            offset: 4,
            value: (latch & 0xffff_0000) | 0x5,
        }),
        ((latch & 0xffff_0000) | 0x5) >> 16 == latch >> 16,
        ((latch & 0xffff_0000) | 0x5) & 0xffff == 0x5,
        spec_pending(Step::WriteStyle, latch, init_block) == (Action::WriteCsr {
            number: 58,
            value: (latch & 0xff00) | 2,
        }),
        ((latch & 0xff00) | 2) & 0xff == 2,
        ((latch & 0xff00) | 2) & 0xffff_ff00 == latch & 0xff00,
        spec_pending(Step::WriteMedia, latch, init_block) == (Action::WriteBcr { number: 2, value: latch | 0x2 }),
        (latch | 0x2) & 0x2 == 0x2,
        (latch | 0x2) & 0xffff_fffd == latch & 0xffff_fffd,
        spec_pending(Step::WriteInit, latch, init_block) == (Action::WriteCsr { number: 0, value: latch | 0x1 }),
        (latch | 0x1) & 0x1 == 0x1,
        (latch | 0x1) & 0xffff_fffe == latch & 0xffff_fffe,
        spec_pending(Step::WriteStart, latch, init_block) == (Action::WriteCsr {
            number: 0,
            value: (latch & 0xffff_fffa) | 0x2,
        }),
        ((latch & 0xffff_fffa) | 0x2) & 0x7 == 0x2,
        ((latch & 0xffff_fffa) | 0x2) & 0xffff_fff8 == latch & 0xffff_fff8,
        spec_pending(Step::WriteInitLow, latch, init_block) == (Action::WriteCsr {
            number: 1,
            value: init_block & 0xffff,
        }),
        spec_pending(Step::WriteInitHigh, latch, init_block) == (Action::WriteCsr {
            number: 2,
            value: (init_block >> 16) & 0xffff,
        }),
        (((init_block >> 16) & 0xffff) << 16) | (init_block & 0xffff) == init_block,
{
    assert({
        &&& ((latch & 0xffff_0000) | 0x5) >> 16 == latch >> 16
        &&& ((latch & 0xffff_0000) | 0x5) & 0xffff == 0x5
        &&& ((latch & 0xff00) | 2) & 0xff == 2
        &&& ((latch & 0xff00) | 2) & 0xffff_ff00 == latch & 0xff00
        &&& (latch | 0x2) & 0x2 == 0x2
        &&& (latch | 0x2) & 0xffff_fffd == latch & 0xffff_fffd
        &&& (latch | 0x1) & 0x1 == 0x1
        &&& (latch | 0x1) & 0xffff_fffe == latch & 0xffff_fffe
        &&& ((latch & 0xffff_fffa) | 0x2) & 0x7 == 0x2
        &&& ((latch & 0xffff_fffa) | 0x2) & 0xffff_fff8 == latch & 0xffff_fff8
        &&& (((init_block >> 16) & 0xffff) << 16) | (init_block & 0xffff) == init_block
    }) by (bit_vector);
}

/// The bring-up takes its steps in order. A reading step that gets a dword
/// of all ones stops the driver; otherwise each step leads to the next,
/// except that the wait for the card's initialization repeats until the
/// reply has the done bit, or stops the driver where no poll in vain is left.
/// The driver runs only after the start write, and neither a running nor a
/// stopped driver is moved by a reply.
pub proof fn lemma_bring_up_order(step: Step, reply: u32, budget: Option<u32>)
    ensures
        spec_reads_dword(step) && reply == VANISHED ==> spec_next_step(step, reply, budget) == Step::Stopped,
        spec_next_step(step, reply, budget) == Step::Running <==> step == Step::WriteStart || step == Step::Running,
        step == Step::Stopped ==> spec_next_step(step, reply, budget) == Step::Stopped,
        step == Step::AwaitDone && reply != VANISHED ==> spec_next_step(step, reply, budget) == (if reply & 0x100
            != 0 {
            Step::ReadStart
        } else if budget == Some(0u32) {
            Step::Stopped
        } else {
            Step::AwaitDone
        }),
        budget is None && !(spec_reads_dword(step) && reply == VANISHED) ==> spec_failure(step, reply, budget)
            is None,
        spec_state(spec_next_step(step, reply, budget)) == DriverState::Running ==> spec_state(step)
            == DriverState::Running || step == Step::WriteStart,
        spec_state(step) == DriverState::Resetting ==> spec_state(spec_next_step(step, reply, budget))
            != DriverState::Uninitialized,
        spec_state(step) == DriverState::Configured ==> spec_state(spec_next_step(step, reply, budget))
            != DriverState::Uninitialized && spec_state(spec_next_step(step, reply, budget))
            != DriverState::Resetting,
{
}

} // verus!
