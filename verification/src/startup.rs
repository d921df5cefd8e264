//! What the kernel does with the two subsystems at start-up: the report of
//! the enumeration, the choice of the card, and the driver for it.

use vstd::prelude::*;
use vstd::string::StringExecFns;
use crate::pci::model::{spec_display_block, spec_display_line, PciDeviceBinding};
use crate::pcnet::buffers::{spec_regions_error, DmaRegions};
use crate::pcnet::device::{PcNet, PcNetError, Step};
use crate::pcnet::ports::{spec_io_base, BDP};
use crate::shortcuts::{format_mac_address, spec_mac_address};

verus! {

/// The kernel-virtual address at which all physical memory is mapped.
pub const PHYS_MEMORY_OFFSET: u64 = 0x4444_441c_0000;

/// The vendor half of the PCnet-II's signature.
pub const PCNET_VENDOR: u16 = 0x1022;

/// The device half of the PCnet-II's signature.
pub const PCNET_DEVICE: u16 = 0x2000;

/// Whether a record is that of a PCnet-II.
pub open spec fn spec_is_pcnet(binding: PciDeviceBinding) -> bool {
    binding.device.vendor == PCNET_VENDOR && binding.device.device == PCNET_DEVICE
}

/// The place of the card to drive among the devices found: the last
/// PCnet-II in scan order, or nothing where there is none.
pub fn select_pcnet_card(devices: &Vec<PciDeviceBinding>) -> (chosen: Option<usize>)
    ensures
        chosen is None <==> forall|i: int| 0 <= i < devices@.len() ==> !spec_is_pcnet(#[trigger] devices@[i]),
        chosen is Some ==> {
            &&& chosen->0 < devices@.len()
            &&& spec_is_pcnet(devices@[chosen->0 as int])
            &&& forall|i: int| chosen->0 < i < devices@.len() ==> !spec_is_pcnet(#[trigger] devices@[i])
        },
{
    let mut rest: usize = devices.len();
    while rest > 0
        invariant
            rest <= devices@.len(),
            forall|i: int| rest <= i < devices@.len() ==> !spec_is_pcnet(#[trigger] devices@[i]),
        decreases rest,
    {
        rest = rest - 1;
        let binding: PciDeviceBinding = devices[rest];
        if binding.device.vendor == PCNET_VENDOR && binding.device.device == PCNET_DEVICE {
            return Some(rest);
        }
    }
    None
}

/// A driver for the card at `binding`, with physical memory mapped at
/// `PHYS_MEMORY_OFFSET` and the card-visible structures at `regions`. The
/// bring-up is still to be carried out.
pub fn init_pcnet_card(binding: PciDeviceBinding, regions: DmaRegions) -> (driver: Result<PcNet, PcNetError>)
    ensures
        spec_regions_error(PHYS_MEMORY_OFFSET, regions) is Some ==> driver is Err && driver->Err_0
            == PcNetError::Address(spec_regions_error(PHYS_MEMORY_OFFSET, regions)->0),
        spec_regions_error(PHYS_MEMORY_OFFSET, regions) is None && spec_io_base(binding.device.bar0) > u16::MAX
            - BDP ==> driver is Err && driver->Err_0 == PcNetError::IoBase,
        spec_regions_error(PHYS_MEMORY_OFFSET, regions) is None && spec_io_base(binding.device.bar0) <= u16::MAX
            - BDP ==> {
            &&& driver is Ok
            &&& driver->Ok_0.wf()
            &&& driver->Ok_0.binding == binding
            &&& driver->Ok_0.io_ports.io_base == spec_io_base(binding.device.bar0)
            &&& driver->Ok_0.buffer_manager.regions == regions
            &&& driver->Ok_0.buffer_manager.translator.physical_memory_offset == PHYS_MEMORY_OFFSET
            &&& driver->Ok_0.buffer_manager.blank()
            &&& driver->Ok_0.step == Step::ReadCommand
            &&& driver->Ok_0.latch == 0
            &&& driver->Ok_0.mac is None
            &&& driver->Ok_0.rx_index == 0
            &&& driver->Ok_0.failure is None
            &&& driver->Ok_0.poll_budget is None
        },
{
    PcNet::initialize(binding, PHYS_MEMORY_OFFSET, regions)
}

/// The line that announces the MAC address in use.
pub open spec fn spec_mac_line(mac: Seq<u8>) -> Seq<char> {
    "pcnet32: Using mac address: "@ + spec_mac_address(mac)
}

/// The line that announces the MAC address in use.
pub fn mac_line(mac: [u8; 6]) -> (line: String)
    ensures
        line@ == spec_mac_line(mac@),
{
    let mut line = String::from_str("pcnet32: Using mac address: ");
    let text = format_mac_address(mac);
    line.append(text.as_str());
    line
}

/// The lines that report one device: the one-line rendering, then every
/// line of the block rendering, each behind `pci: `.
pub open spec fn spec_device_report(binding: PciDeviceBinding) -> Seq<Seq<char>> {
    seq!["pci: "@ + spec_display_line(binding)] + Seq::new(
        spec_display_block(binding).len(),
        |k: int| "pci: "@ + spec_display_block(binding)[k],
    )
}

/// The lines that report the devices found, in scan order.
pub open spec fn spec_report(devices: Seq<PciDeviceBinding>) -> Seq<Seq<char>>
    decreases devices.len(),
{
    if devices.len() == 0 {
        Seq::empty()
    } else {
        spec_report(devices.drop_last()) + spec_device_report(devices.last())
    }
}

/// The characters of each of a list of lines.
pub open spec fn spec_lines(lines: Seq<String>) -> Seq<Seq<char>> {
    Seq::new(lines.len(), |k: int| lines[k]@)
}

/// `line` behind `pci: `.
fn tagged(line: &str) -> (text: String)
    ensures
        text@ == "pci: "@ + line@,
{
    let mut text = String::from_str("pci: ");
    text.append(line);
    text
}

/// The lines that report the devices found, in scan order: for each device
/// its one-line rendering and its block rendering.
pub fn init_pci_devices(devices: &Vec<PciDeviceBinding>) -> (lines: Vec<String>)
    ensures
        spec_lines(lines@) == spec_report(devices@),
{
    let mut lines: Vec<String> = Vec::new();
    let mut i: usize = 0;
    assert(spec_lines(lines@) =~= spec_report(devices@.take(0)));
    while i < devices.len()
        invariant
            i <= devices@.len(),
            spec_lines(lines@) == spec_report(devices@.take(i as int)),
        decreases devices@.len() - i,
    {
        let binding: PciDeviceBinding = devices[i];
        let ghost before = lines@;
        let line = binding.display_line();
        lines.push(tagged(line.as_str()));
        let block = binding.display_block();
        let mut k: usize = 0;
        while k < block.len()
            invariant
                k <= block@.len(),
                block@.len() == 18,
                block@.len() == spec_display_block(binding).len(),
                forall|j: int| 0 <= j < 18 ==> (#[trigger] block@[j])@ == spec_display_block(binding)[j],
                lines@.len() == before.len() + 1 + k,
                forall|j: int| 0 <= j < before.len() ==> #[trigger] lines@[j] == before[j],
                lines@[before.len() as int]@ == "pci: "@ + spec_display_line(binding),
                forall|j: int|
                    0 <= j < k ==> (#[trigger] lines@[before.len() + 1 + j])@ == "pci: "@ + spec_display_block(
                        binding,
                    )[j],
            decreases block@.len() - k,
        {
            lines.push(tagged(block[k].as_str()));
            k = k + 1;
        }
        proof {
            let upto = devices@.take(i as int + 1);
            assert(upto.drop_last() =~= devices@.take(i as int));
            assert(upto.last() == binding);
            let now = spec_lines(lines@);
            let report = spec_device_report(binding);
            let want = spec_lines(before) + report;
            assert(report.len() == 19);
            assert(now.len() == want.len());
            assert forall|j: int| 0 <= j < now.len() implies now[j] == want[j] by {
                if j < before.len() {
                    assert(lines@[j] == before[j]);
                } else if j > before.len() {
                    let m = j - before.len() - 1;
                    assert(lines@[before.len() + 1 + m]@ == "pci: "@ + spec_display_block(binding)[m]);
                    assert(report[m + 1] == "pci: "@ + spec_display_block(binding)[m]);
                } else {
                    assert(report[0] == "pci: "@ + spec_display_line(binding));
                }
            }
            assert(now =~= want);
        }
        i = i + 1;
    }
    assert(devices@.take(i as int) =~= devices@);
    lines
}

} // verus!
