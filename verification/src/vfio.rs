//! VFIO PCI passthrough: the emulated side of a host device.
//!
//! The host device itself — its file descriptor, ioctls, region reads and
//! writes, eventfds and KVM routing calls — lives outside this crate.  What
//! stands here is everything the VMM decides and stores: the emulated config
//! image and its masks, the parse of the MSI-X capability, the BAR
//! classification, the carve of the MSI-X table out of the mappable region
//! list, the interception of guest config writes, and the GSI route table
//! keyed by MSI-X vector.

use vstd::prelude::*;

use crate::error::VfioPciError;
use crate::guest_mem::{spec_le16, spec_le32};
use crate::pci::{
    le_read_u16, le_read_u32, le_write_u16, le_write_u32, spec_masked_write_byte, PciConfig,
    BAR_0, BAR_5, BAR_IO_SPACE, BAR_MEM_64BIT, COMMAND, COMMAND_BUS_MASTER,
    COMMAND_INTERRUPT_DISABLE, COMMAND_IO_SPACE, COMMAND_MEMORY_SPACE, HEADER_TYPE,
    INTERRUPT_PIN, IO_BASE_ADDR_MASK, MEM_BASE_ADDR_MASK, MSIX_CAP_CONTROL, MSIX_CAP_ID,
    MSIX_CAP_SIZE, MSIX_CAP_TABLE, MSIX_ENABLE_BIT, MSIX_TABLE_BIR, MSIX_TABLE_ENTRY_SIZE,
    MSIX_TABLE_OFFSET_MASK, MSIX_TABLE_SIZE_MAX, PCIE_CONFIG_SPACE_SIZE, PCI_NUM_BARS, REG_SIZE,
};

verus! {

/// How a BAR decodes: I/O ports, 32-bit memory, or 64-bit memory.
#[derive(Clone, Copy, Debug, PartialEq, Eq, Structural)]
pub enum RegionType {
    Io,
    Mem32Bit,
    Mem64Bit,
}

/// One host-mappable sub-range of a device region, as an offset and size
/// within the region.
#[derive(Clone, Copy, Debug, PartialEq, Eq, Structural)]
pub struct MmapInfo {
    pub offset: u64,
    pub size: u64,
}

/// A device region as the host reports it: its size, its offset within the
/// device descriptor, and the sub-ranges the host allows to be mapped.
#[derive(Clone, Debug)]
pub struct VfioRegion {
    /// Size of the region in bytes.
    pub size: u64,
    /// Offset of the region within the host device descriptor.
    pub fd_offset: u64,
    /// Mappable sub-ranges of the region.
    pub mmaps: Vec<MmapInfo>,
}

/// One BAR of the passthrough device.
#[derive(Clone, Debug)]
pub struct VfioBar {
    /// The host region backing the BAR.
    pub vfio_region: VfioRegion,
    /// How the BAR decodes.
    pub region_type: RegionType,
    /// Size of the BAR in bytes.
    pub size: u64,
}

/// Placement of the MSI-X table: the BAR holding it, the byte offset within
/// that BAR, and the table's byte size.
#[derive(Clone, Copy, Debug, PartialEq, Eq, Structural)]
pub struct MsixTable {
    pub table_bar: u8,
    pub table_offset: u64,
    pub table_size: u64,
}

/// The parse of the device's MSI-X capability.
#[derive(Clone, Copy, Debug, PartialEq, Eq, Structural)]
pub struct VfioMsixInfo {
    /// Offset of the capability within config space.
    pub cap_offset: usize,
    /// Placement of the vector table.
    pub table: MsixTable,
    /// Number of vectors the table holds.
    pub entries: u16,
}

impl VfioMsixInfo {
    /// Bounds that every parse of a well-formed capability satisfies.
    pub open spec fn wf(self, config_len: int) -> bool {
        &&& self.cap_offset + MSIX_CAP_SIZE <= config_len
        &&& self.table.table_offset <= 0xFFFF_FFFF
        &&& self.table.table_size <= 0x10000
        &&& 1 <= self.entries <= 2048
    }
}

/// One live GSI route: an MSI-X vector wired to a global system interrupt.
/// The eventfd that fires it is owned outside the crate, keyed by `vector`.
#[derive(Clone, Copy, Debug, PartialEq, Eq, Structural)]
pub struct GsiMsiRoute {
    pub vector: u16,
    pub gsi: u32,
}

/// What a guest config-space write obliges the host side to do next.
#[derive(Clone, Copy, Debug, PartialEq, Eq, Structural)]
pub enum VfioWriteAction {
    /// The write was out of range and was dropped.
    Rejected,
    /// Nothing beyond the emulated store.
    Stored,
    /// COMMAND.MSE came on or a BAR was reassigned: remap the BARs.
    UpdateBarMapping,
    /// MSI-X switched off to on: register an irqfd per live route.
    MsixEnabled,
    /// MSI-X switched on to off: tear every irqfd down.
    MsixDisabled,
}

/// How a guest config-space read is served.
pub enum VfioReadRoute {
    /// The read was out of range and is dropped.
    Rejected,
    /// The bytes come from the emulated image.
    Emulated(Vec<u8>),
    /// The bytes come from the host device; mask them with
    /// `mask_host_config_read` before handing them to the guest.
    FromHost,
}

/// The BAR decode type a raw BAR dword announces.
pub open spec fn spec_region_type(dword: u32) -> RegionType {
    if dword & BAR_IO_SPACE != 0 {
        RegionType::Io
    } else if dword & BAR_MEM_64BIT != 0 {
        RegionType::Mem64Bit
    } else {
        RegionType::Mem32Bit
    }
}

/// The GSI routes MSI-X enable installs: one per vector, the GSI being the
/// hypervisor's base for this device plus the vector index.
pub open spec fn spec_msix_routes(entries: u16, gsi_base: u32) -> Seq<GsiMsiRoute> {
    Seq::new(entries as nat, |v: int| GsiMsiRoute { vector: v as u16, gsi: (gsi_base + v) as u32 })
}

/// The mappable sub-ranges left of a region of `region_size` bytes after
/// carving out the page-aligned hole `[start, end)`.
pub open spec fn spec_carved_mmaps(region_size: u64, start: u64, end: u64) -> Seq<MmapInfo> {
    if start == 0 {
        if end >= region_size {
            Seq::empty()
        } else {
            seq![MmapInfo { offset: end, size: (region_size - end) as u64 }]
        }
    } else if end >= region_size {
        seq![MmapInfo { offset: 0, size: start }]
    } else {
        seq![
            MmapInfo { offset: 0, size: start },
            MmapInfo { offset: end, size: (region_size - end) as u64 },
        ]
    }
}

/// Whether `[a1, a2)` and `[b1, b2)` overlap.
pub open spec fn spec_ranges_overlap(a1: int, a2: int, b1: int, b2: int) -> bool {
    a1 < b2 && b1 < a2
}

/// Whether `[offset, end)` and `[start, start + 4)` overlap.
fn ranges_overlap(offset: usize, end: usize, start: usize, stop: usize) -> (r: bool)
    ensures
        r == spec_ranges_overlap(offset as int, end as int, start as int, stop as int),
{
    offset < stop && start < end
}

/// Whether device-function number `devfn` is already taken on the bus.
pub open spec fn spec_bus_has(occupied: Seq<u8>, devfn: u8) -> bool {
    exists|i: int| 0 <= i < occupied.len() && occupied[i] == devfn
}

/// The bus's device registry: which device-function numbers are occupied.
/// The devices themselves live with their owners; a device holds its own
/// `devfn` and looks the bus up by it.
pub struct PciBus {
    /// The occupied device-function numbers.
    pub occupied: Vec<u8>,
}

impl PciBus {
    /// An empty bus.
    pub fn new() -> (r: PciBus)
        ensures
            r.occupied@ == Seq::<u8>::empty(),
    {
        PciBus { occupied: Vec::new() }
    }

    /// Claim a device-function number; refused when it is already taken.
    pub fn claim_devfn(&mut self, devfn: u8) -> (r: Result<(), VfioPciError>)
        ensures
            spec_bus_has(old(self).occupied@, devfn) ==> (r == Err::<(), VfioPciError>(
                VfioPciError::DevfnUsed(devfn),
            ) && final(self).occupied@ == old(self).occupied@),
            !spec_bus_has(old(self).occupied@, devfn) ==> (r is Ok && final(self).occupied@ == old(
                self,
            ).occupied@.push(devfn)),
    {
        let n = self.occupied.len();
        let mut i: usize = 0;
        while i < n
            invariant
                i <= n,
                n == self.occupied@.len(),
                forall|k: int| 0 <= k < i ==> self.occupied@[k] != devfn,
            decreases n - i,
        {
            if self.occupied[i] == devfn {
                return Err(VfioPciError::DevfnUsed(devfn));
            }
            i = i + 1;
        }
        self.occupied.push(devfn);
        Ok(())
    }
}

/// A passthrough PCI device: the emulated config space, the MSI-X parse,
/// the BAR list with its carved mmap ranges, and the live GSI routes.
pub struct VfioPciDevice {
    /// The emulated configuration space.
    pub pci_config: PciConfig,
    /// Size of the host device's config region in bytes.
    pub config_size: u64,
    /// Offset of the config region within the host device descriptor.
    pub config_offset: u64,
    /// The MSI-X capability parse, once `realize` ran.
    pub msix_info: Option<VfioMsixInfo>,
    /// The six BARs, once `realize` ran.
    pub vfio_bars: Vec<VfioBar>,
    /// Live GSI routes, one per MSI-X vector while MSI-X is enabled.
    pub gsi_msi_routes: Vec<GsiMsiRoute>,
    /// First GSI number the hypervisor reserved for this device's vectors.
    pub gsi_base: u32,
    /// Device-function number on the bus.
    pub devfn: u8,
    /// Transport identifier used in MSI messages.
    pub dev_id: u16,
    /// Name of the device.
    pub name: String,
}

impl VfioPciDevice {
    /// The invariants every operation preserves.
    pub open spec fn wf(self) -> bool {
        &&& self.pci_config.wf()
        &&& self.pci_config.config@.len() >= 64
        &&& self.config_size <= self.pci_config.config@.len()
        &&& self.gsi_base <= 0xFFFF_0000
        &&& match self.msix_info {
            Some(mi) => mi.wf(self.pci_config.config@.len() as int),
            None => true,
        }
    }

    /// A fresh passthrough device with an empty PCIe-sized config image.
    /// The host's config region is not yet known, so `config_size` stays 0
    /// and every config access is refused until `realize` installs it.
    /// `gsi_base` is the first of the GSI numbers the hypervisor set aside
    /// for this device's MSI-X vectors.
    pub fn new(devfn: u8, name: String, gsi_base: u32) -> (r: VfioPciDevice)
        requires
            gsi_base <= 0xFFFF_0000,
        ensures
            r.wf(),
            r.devfn == devfn,
            r.name@ == name@,
            r.gsi_base == gsi_base,
            r.pci_config.config@.len() == PCIE_CONFIG_SPACE_SIZE,
            r.config_size == 0,
            r.config_offset == 0,
            r.dev_id == 0,
            r.msix_info is None,
            r.gsi_msi_routes@ == Seq::<GsiMsiRoute>::empty(),
            r.vfio_bars@ == Seq::<VfioBar>::empty(),
    {
        VfioPciDevice {
            pci_config: PciConfig::new(PCIE_CONFIG_SPACE_SIZE),
            config_size: 0,
            config_offset: 0,
            msix_info: None,
            vfio_bars: Vec::new(),
            gsi_msi_routes: Vec::new(),
            gsi_base,
            devfn,
            dev_id: 0,
            name,
        }
    }

    /// The device's name.
    pub fn name(&self) -> (r: String)
        ensures
            r@ == self.name@,
    {
        self.name.clone()
    }

    /// Install the config-space bytes read from the host device region at
    /// `config_offset`, and reset both masks to match.
    pub fn install_pci_config(&mut self, config_offset: u64, config_data: Vec<u8>)
        requires
            config_data@.len() >= 64,
        ensures
            final(self).pci_config.config@ == config_data@,
            final(self).config_offset == config_offset,
            final(self).config_size == config_data@.len(),
            final(self).pci_config.wf(),
            final(self).pci_config.write_mask@ == Seq::new(
                config_data@.len(),
                |i: int| 0u8,
            ),
            final(self).pci_config.write_clear_mask@ == Seq::new(
                config_data@.len(),
                |i: int| 0u8,
            ),
            final(self).msix_info == old(self).msix_info,
            final(self).vfio_bars@ == old(self).vfio_bars@,
            final(self).gsi_msi_routes@ == old(self).gsi_msi_routes@,
            final(self).gsi_base == old(self).gsi_base,
            final(self).devfn == old(self).devfn,
            final(self).dev_id == old(self).dev_id,
            final(self).name@ == old(self).name@,
    {
        let n = config_data.len();
        self.config_size = n as u64;
        self.config_offset = config_offset;
        let mut fresh = PciConfig::new(n);
        fresh.config = config_data;
        self.pci_config = fresh;
    }

    /// Clear I/O, memory, bus-master and INTx-disable decoding in the
    /// emulated COMMAND register and zero the base-address bits of all six
    /// BAR slots, preserving each slot's type bits.  Returns the new COMMAND
    /// value, which the caller must also write to the host device.
    pub fn pci_config_reset(&mut self) -> (cmd: u16)
        requires
            old(self).wf(),
        ensures
            final(self).wf(),
            cmd == spec_le16(old(self).pci_config.config@, COMMAND as int) & !(COMMAND_IO_SPACE
                | COMMAND_MEMORY_SPACE | COMMAND_BUS_MASTER | COMMAND_INTERRUPT_DISABLE),
            spec_le16(final(self).pci_config.config@, COMMAND as int) == cmd,
            forall|i: int|
                0 <= i < PCI_NUM_BARS ==> #[trigger] spec_le32(
                    final(self).pci_config.config@,
                    BAR_0 + REG_SIZE * i,
                ) == {
                    let v = spec_le32(old(self).pci_config.config@, BAR_0 + REG_SIZE * i);
                    if v & BAR_IO_SPACE != 0 {
                        v & !IO_BASE_ADDR_MASK
                    } else {
                        v & !MEM_BASE_ADDR_MASK
                    }
                },
            final(self).pci_config.config@.len() == old(self).pci_config.config@.len(),
            forall|i: int|
                0 <= i < old(self).pci_config.config@.len() && !(COMMAND <= i < COMMAND + 2) && !(
                BAR_0 <= i < BAR_0 + REG_SIZE * PCI_NUM_BARS) ==> final(self).pci_config.config@[i]
                    == old(self).pci_config.config@[i],
            final(self).pci_config.write_mask@ == old(self).pci_config.write_mask@,
            final(self).pci_config.write_clear_mask@ == old(self).pci_config.write_clear_mask@,
            final(self).msix_info == old(self).msix_info,
            final(self).vfio_bars@ == old(self).vfio_bars@,
            final(self).gsi_msi_routes@ == old(self).gsi_msi_routes@,
            final(self).gsi_base == old(self).gsi_base,
            final(self).config_size == old(self).config_size,
            final(self).config_offset == old(self).config_offset,
            final(self).devfn == old(self).devfn,
            final(self).dev_id == old(self).dev_id,
            final(self).name@ == old(self).name@,
    {
        let mut cmd = le_read_u16(&self.pci_config.config, COMMAND);
        cmd = cmd & !(COMMAND_IO_SPACE | COMMAND_MEMORY_SPACE | COMMAND_BUS_MASTER
            | COMMAND_INTERRUPT_DISABLE);
        le_write_u16(&mut self.pci_config.config, COMMAND, cmd);

        let mut i: usize = 0;
        while i < PCI_NUM_BARS
            invariant
                i <= PCI_NUM_BARS,
                self.pci_config.config@.len() == old(self).pci_config.config@.len(),
                self.pci_config.config@.len() >= 64,
                self.pci_config.write_mask@ == old(self).pci_config.write_mask@,
                self.pci_config.write_clear_mask@ == old(self).pci_config.write_clear_mask@,
                self.pci_config.wf(),
                self.msix_info == old(self).msix_info,
                self.vfio_bars@ == old(self).vfio_bars@,
                self.gsi_msi_routes@ == old(self).gsi_msi_routes@,
                self.gsi_base == old(self).gsi_base,
                self.config_size == old(self).config_size,
                self.config_offset == old(self).config_offset,
                self.devfn == old(self).devfn,
                self.dev_id == old(self).dev_id,
                self.name@ == old(self).name@,
                spec_le16(self.pci_config.config@, COMMAND as int) == cmd,
                forall|j: int|
                    0 <= j < i ==> #[trigger] spec_le32(self.pci_config.config@, BAR_0 + REG_SIZE * j) == {
                        let v = spec_le32(old(self).pci_config.config@, BAR_0 + REG_SIZE * j);
                        if v & BAR_IO_SPACE != 0 {
                            v & !IO_BASE_ADDR_MASK
                        } else {
                            v & !MEM_BASE_ADDR_MASK
                        }
                    },
                forall|j: int|
                    i <= j < PCI_NUM_BARS ==> #[trigger] spec_le32(
                        self.pci_config.config@,
                        BAR_0 + REG_SIZE * j,
                    ) == spec_le32(old(self).pci_config.config@, BAR_0 + REG_SIZE * j),
                forall|j: int|
                    0 <= j < old(self).pci_config.config@.len() && !(COMMAND <= j < COMMAND + 2)
                        && !(BAR_0 <= j < BAR_0 + REG_SIZE * PCI_NUM_BARS)
                        ==> self.pci_config.config@[j] == old(self).pci_config.config@[j],
            decreases PCI_NUM_BARS - i,
        {
            let offset = BAR_0 + REG_SIZE * i;
            let ghost pre_cfg = self.pci_config.config@;
            let v = le_read_u32(&self.pci_config.config, offset);
            if v & BAR_IO_SPACE != 0 {
                le_write_u32(&mut self.pci_config.config, offset, v & !IO_BASE_ADDR_MASK);
            } else {
                le_write_u32(&mut self.pci_config.config, offset, v & !MEM_BASE_ADDR_MASK);
            }
            proof {
                assert forall|j: int|
                    0 <= j < PCI_NUM_BARS && j != i implies #[trigger] spec_le32(
                    self.pci_config.config@,
                    BAR_0 + REG_SIZE * j,
                ) == spec_le32(pre_cfg, BAR_0 + REG_SIZE * j) by {
                    let a = BAR_0 + REG_SIZE * j;
                    assert(self.pci_config.config@[a] == pre_cfg[a]);
                    assert(self.pci_config.config@[a + 1] == pre_cfg[a + 1]);
                    assert(self.pci_config.config@[a + 2] == pre_cfg[a + 2]);
                    assert(self.pci_config.config@[a + 3] == pre_cfg[a + 3]);
                }
            }
            i = i + 1;
        }
        cmd
    }

    /// Parse the MSI-X capability out of the emulated config image: the
    /// capability offset, the table placement, and the vector count.
    pub fn get_msix_info(&self) -> (r: Result<VfioMsixInfo, VfioPciError>)
        requires
            self.wf(),
        ensures
            match r {
                Ok(mi) => {
                    &&& mi.wf(self.pci_config.config@.len() as int)
                    &&& Some(mi.cap_offset) == crate::pci::spec_find_cap(
                        self.pci_config.config@,
                        self.pci_config.config@[crate::pci::CAP_POINTER as int],
                        MSIX_CAP_ID,
                        crate::pci::CAP_WALK_LIMIT as nat,
                    )
                    &&& mi.entries == (spec_le16(
                        self.pci_config.config@,
                        mi.cap_offset + MSIX_CAP_CONTROL,
                    ) & MSIX_TABLE_SIZE_MAX) + 1
                    &&& mi.table.table_bar == (spec_le32(
                        self.pci_config.config@,
                        mi.cap_offset + MSIX_CAP_TABLE,
                    ) & MSIX_TABLE_BIR) as u8
                    &&& mi.table.table_offset == (spec_le32(
                        self.pci_config.config@,
                        mi.cap_offset + MSIX_CAP_TABLE,
                    ) & MSIX_TABLE_OFFSET_MASK) as u64
                    &&& mi.table.table_size == mi.entries * MSIX_TABLE_ENTRY_SIZE
                },
                Err(e) => {
                    let found = crate::pci::spec_find_cap(
                        self.pci_config.config@,
                        self.pci_config.config@[crate::pci::CAP_POINTER as int],
                        MSIX_CAP_ID,
                        crate::pci::CAP_WALK_LIMIT as nat,
                    );
                    &&& (e == VfioPciError::NoMsixCap ==> found is None)
                    &&& (e == VfioPciError::MsixCapTruncated ==> (found matches Some(o) && o
                        + MSIX_CAP_SIZE > self.pci_config.config@.len()))
                    &&& (e == VfioPciError::NoMsixCap || e == VfioPciError::MsixCapTruncated)
                },
            },
    {
        let cap_offset = match self.pci_config.find_pci_cap(MSIX_CAP_ID) {
            Some(c) => c,
            None => {
                return Err(VfioPciError::NoMsixCap);
            },
        };
        let n = self.pci_config.config.len();
        proof {
            lemma_find_cap_in_range(
                self.pci_config.config@,
                self.pci_config.config@[crate::pci::CAP_POINTER as int],
                MSIX_CAP_ID,
                crate::pci::CAP_WALK_LIMIT as nat,
            );
        }
        if cap_offset + MSIX_CAP_SIZE > n {
            return Err(VfioPciError::MsixCapTruncated);
        }
        let table = le_read_u32(&self.pci_config.config, cap_offset + MSIX_CAP_TABLE);
        let ctrl = le_read_u16(&self.pci_config.config, cap_offset + MSIX_CAP_CONTROL);
        proof {
            assert(ctrl & MSIX_TABLE_SIZE_MAX <= MSIX_TABLE_SIZE_MAX) by (bit_vector);
            assert((table & MSIX_TABLE_BIR) <= MSIX_TABLE_BIR) by (bit_vector);
            assert((table & MSIX_TABLE_OFFSET_MASK) <= 0xFFFF_FFFF) by (bit_vector);
        }
        let entries: u16 = (ctrl & MSIX_TABLE_SIZE_MAX) + 1;
        Ok(
            VfioMsixInfo {
                cap_offset,
                table: MsixTable {
                    table_bar: (table & MSIX_TABLE_BIR) as u8,
                    table_offset: (table & MSIX_TABLE_OFFSET_MASK) as u64,
                    table_size: (entries as u64) * 16,
                },
                entries,
            },
        )
    }

    /// Classify the six BARs: the decode type from the emulated BAR dword's
    /// type bits, the size and mappable ranges from the host's region report.
    pub fn bar_region_info(&self, regions: Vec<VfioRegion>) -> (r: Vec<VfioBar>)
        requires
            self.wf(),
            regions@.len() == PCI_NUM_BARS,
        ensures
            r@.len() == PCI_NUM_BARS,
            forall|i: int|
                0 <= i < PCI_NUM_BARS ==> {
                    &&& (#[trigger] r@[i]).region_type == spec_region_type(
                        spec_le32(self.pci_config.config@, BAR_0 + REG_SIZE * i),
                    )
                    &&& r@[i].size == regions@[i].size
                    &&& r@[i].vfio_region.size == regions@[i].size
                    &&& r@[i].vfio_region.fd_offset == regions@[i].fd_offset
                    &&& r@[i].vfio_region.mmaps@ == regions@[i].mmaps@
                },
    {
        let ghost regs = regions@;
        let mut bars: Vec<VfioBar> = Vec::new();
        let mut i: usize = 0;
        let mut rest = regions;
        while i < PCI_NUM_BARS
            invariant
                i <= PCI_NUM_BARS,
                self.wf(),
                regs.len() == PCI_NUM_BARS,
                rest@.len() == PCI_NUM_BARS - i,
                bars@.len() == i,
                forall|j: int| 0 <= j < rest@.len() ==> rest@[j] == regs[j + i],
                forall|j: int|
                    0 <= j < i ==> {
                        &&& (#[trigger] bars@[j]).region_type == spec_region_type(
                            spec_le32(self.pci_config.config@, BAR_0 + REG_SIZE * j),
                        )
                        &&& bars@[j].size == regs[j].size
                        &&& bars@[j].vfio_region.size == regs[j].size
                        &&& bars@[j].vfio_region.fd_offset == regs[j].fd_offset
                        &&& bars@[j].vfio_region.mmaps@ == regs[j].mmaps@
                    },
            decreases PCI_NUM_BARS - i,
        {
            let pci_bar = le_read_u32(&self.pci_config.config, BAR_0 + REG_SIZE * i);
            let region_type = if pci_bar & BAR_IO_SPACE != 0 {
                RegionType::Io
            } else if pci_bar & BAR_MEM_64BIT != 0 {
                RegionType::Mem64Bit
            } else {
                RegionType::Mem32Bit
            };
            let vfio_region = rest.remove(0);
            let size = vfio_region.size;
            bars.push(VfioBar { vfio_region, region_type, size });
            i = i + 1;
        }
        bars
    }

    /// Carve the MSI-X table out of the mappable ranges of the BAR that
    /// hosts it, so that the guest can map the rest of the BAR while every
    /// access to the table stays trapped.
    ///
    /// The carve applies only when the host reported the whole BAR as one
    /// mappable range; any other shape is left untouched.  The hole is the
    /// table rounded out to `page_size` boundaries.
    pub fn fixup_msix_region(&self, vfio_bars: &mut Vec<VfioBar>, page_size: u64) -> (r: Result<
        (),
        VfioPciError,
    >)
        requires
            self.wf(),
            0 < page_size <= 0x1_0000_0000,
        ensures
            match (r, self.msix_info) {
                (Ok(_), Some(mi)) => {
                    let tb = mi.table.table_bar as int;
                    let region = old(vfio_bars)@[tb].vfio_region;
                    let start = (mi.table.table_offset - mi.table.table_offset % page_size) as u64;
                    let end = (((mi.table.table_offset + mi.table.table_size + page_size - 1) as int
                        / page_size as int) * page_size as int) as u64;
                    &&& tb < old(vfio_bars)@.len()
                    &&& if region.mmaps@.len() == 1 && region.mmaps@[0].offset == 0
                        && region.size == region.mmaps@[0].size {
                        &&& final(vfio_bars)@.len() == old(vfio_bars)@.len()
                        &&& final(vfio_bars)@[tb].vfio_region.mmaps@ == spec_carved_mmaps(
                            region.size,
                            start,
                            end,
                        )
                        &&& final(vfio_bars)@[tb].vfio_region.size == region.size
                        &&& final(vfio_bars)@[tb].vfio_region.fd_offset == region.fd_offset
                        &&& final(vfio_bars)@[tb].region_type == old(vfio_bars)@[tb].region_type
                        &&& final(vfio_bars)@[tb].size == old(vfio_bars)@[tb].size
                        &&& forall|i: int|
                            0 <= i < old(vfio_bars)@.len() && i != tb ==> final(vfio_bars)@[i]
                                == old(vfio_bars)@[i]
                    } else {
                        final(vfio_bars)@ == old(vfio_bars)@
                    }
                },
                (Err(e), Some(mi)) => {
                    &&& e == VfioPciError::BarIndex(mi.table.table_bar)
                    &&& mi.table.table_bar >= old(vfio_bars)@.len()
                    &&& final(vfio_bars)@ == old(vfio_bars)@
                },
                (Err(e), None) => {
                    &&& e == VfioPciError::MsixNotSetup
                    &&& final(vfio_bars)@ == old(vfio_bars)@
                },
                (Ok(_), None) => false,
            },
    {
        let msix_info = match &self.msix_info {
            Some(mi) => mi,
            None => {
                return Err(VfioPciError::MsixNotSetup);
            },
        };
        let tb = msix_info.table.table_bar as usize;
        if tb >= vfio_bars.len() {
            return Err(VfioPciError::BarIndex(msix_info.table.table_bar));
        }
        let region_size = vfio_bars[tb].vfio_region.size;
        let region_fd_offset = vfio_bars[tb].vfio_region.fd_offset;
        let one_mmap = vfio_bars[tb].vfio_region.mmaps.len() == 1;
        let applies = one_mmap && vfio_bars[tb].vfio_region.mmaps[0].offset == 0 && region_size
            == vfio_bars[tb].vfio_region.mmaps[0].size;
        if !applies {
            return Ok(());
        }
        // Align the table start down and its end up to page boundaries.
        let to = msix_info.table.table_offset;
        let ts = msix_info.table.table_size;
        proof {
            assert(to <= 0xFFFF_FFFF && ts <= 0x10000);
            assert(to % page_size <= to) by (nonlinear_arith)
                requires
                    page_size > 0,
            ;
        }
        let start: u64 = to - to % page_size;
        let sum: u64 = to + ts + page_size - 1;
        proof {
            assert((sum / page_size) * page_size <= sum) by (nonlinear_arith)
                requires
                    page_size > 0,
            ;
        }
        let end: u64 = (sum / page_size) * page_size;
        let mut mmaps: Vec<MmapInfo> = Vec::new();
        if start == 0 {
            if end < region_size {
                mmaps.push(MmapInfo { offset: end, size: region_size - end });
            }
        } else if end >= region_size {
            mmaps.push(MmapInfo { offset: 0, size: start });
        } else {
            mmaps.push(MmapInfo { offset: 0, size: start });
            mmaps.push(MmapInfo { offset: end, size: region_size - end });
        }
        proof {
            assert(mmaps@ =~= spec_carved_mmaps(region_size, start, end));
        }
        let region_type = vfio_bars[tb].region_type;
        let bar_size = vfio_bars[tb].size;
        let new_bar = VfioBar {
            vfio_region: VfioRegion { size: region_size, fd_offset: region_fd_offset, mmaps },
            region_type,
            size: bar_size,
        };
        vfio_bars.set(tb, new_bar);
        Ok(())
    }

    /// Install one GSI route per MSI-X vector: vector `v` is wired to GSI
    /// `gsi_base + v`.  The caller registers one irqfd per route with the
    /// hypervisor.
    pub fn vfio_enable_msix(&mut self) -> (r: Result<(), VfioPciError>)
        requires
            old(self).wf(),
        ensures
            final(self).wf(),
            same_but_routes(*final(self), *old(self)),
            match (r, old(self).msix_info) {
                (Ok(_), Some(mi)) => final(self).gsi_msi_routes@ == spec_msix_routes(
                    mi.entries,
                    old(self).gsi_base,
                ),
                (Err(e), None) => e == VfioPciError::MsixNotSetup && final(self).gsi_msi_routes@
                    == old(self).gsi_msi_routes@,
                _ => false,
            },
    {
        let entries = match &self.msix_info {
            Some(mi) => mi.entries,
            None => {
                return Err(VfioPciError::MsixNotSetup);
            },
        };
        let mut routes: Vec<GsiMsiRoute> = Vec::new();
        let mut v: u16 = 0;
        while v < entries
            invariant
                v <= entries,
                entries <= 2048,
                self.gsi_base <= 0xFFFF_0000,
                routes@ == spec_msix_routes(entries, self.gsi_base).take(v as int),
            decreases entries - v,
        {
            routes.push(GsiMsiRoute { vector: v, gsi: self.gsi_base + v as u32 });
            proof {
                assert(routes@ =~= spec_msix_routes(entries, self.gsi_base).take(v + 1));
            }
            v = v + 1;
        }
        proof {
            assert(routes@ =~= spec_msix_routes(entries, self.gsi_base));
        }
        self.gsi_msi_routes = routes;
        Ok(())
    }

    /// Tear down every GSI route.  The caller unregisters the irqfds.
    pub fn vfio_disable_msix(&mut self)
        requires
            old(self).wf(),
        ensures
            final(self).wf(),
            same_but_routes(*final(self), *old(self)),
            final(self).gsi_msi_routes@ == Seq::<GsiMsiRoute>::empty(),
    {
        self.gsi_msi_routes = Vec::new();
    }

    /// The action a guest config write at `offset` obliges, judged against
    /// this device's state before the write.
    pub open spec fn spec_write_action(self, offset: int, data: Seq<u8>) -> VfioWriteAction {
        let end = offset + data.len();
        let new_cfg = crate::pci::spec_masked_store(
            self.pci_config.config@,
            self.pci_config.write_mask@,
            self.pci_config.write_clear_mask@,
            offset,
            data,
        );
        if end > self.config_size || data.len() > 4 {
            VfioWriteAction::Rejected
        } else if spec_ranges_overlap(offset, end, COMMAND as int, COMMAND + 4) {
            if spec_le32(new_cfg, offset) & (COMMAND_MEMORY_SPACE as u32) != 0 {
                VfioWriteAction::UpdateBarMapping
            } else {
                VfioWriteAction::Stored
            }
        } else if spec_ranges_overlap(offset, end, BAR_0 as int, BAR_5 + REG_SIZE) {
            if data.len() == 4 && spec_le32(data, 0) != 0xFFFF_FFFF {
                VfioWriteAction::UpdateBarMapping
            } else {
                VfioWriteAction::Stored
            }
        } else {
            match self.msix_info {
                Some(mi) => {
                    if spec_ranges_overlap(
                        offset,
                        end,
                        mi.cap_offset as int,
                        mi.cap_offset + MSIX_CAP_SIZE,
                    ) {
                        let was_on = spec_le16(self.pci_config.config@, mi.cap_offset
                            + MSIX_CAP_CONTROL) & MSIX_ENABLE_BIT != 0;
                        let is_on = spec_le16(new_cfg, mi.cap_offset + MSIX_CAP_CONTROL)
                            & MSIX_ENABLE_BIT != 0;
                        if !was_on && is_on {
                            VfioWriteAction::MsixEnabled
                        } else if was_on && !is_on {
                            VfioWriteAction::MsixDisabled
                        } else {
                            VfioWriteAction::Stored
                        }
                    } else {
                        VfioWriteAction::Stored
                    }
                },
                None => VfioWriteAction::Stored,
            }
        }
    }

    /// Intercept a guest config-space write.
    ///
    /// The caller forwards the write to the host device first; this function
    /// applies it to the emulated image under the masks, detects COMMAND.MSE
    /// and BAR reassignments, switches the GSI route table on MSI-X
    /// enable/disable transitions, and tells the caller what host work is
    /// owed.  An out-of-range write is dropped whole.
    pub fn write_config(&mut self, offset: usize, data: &[u8]) -> (r: VfioWriteAction)
        requires
            old(self).wf(),
        ensures
            final(self).wf(),
            r == old(self).spec_write_action(offset as int, data@),
            final(self).msix_info == old(self).msix_info,
            final(self).vfio_bars@ == old(self).vfio_bars@,
            final(self).gsi_base == old(self).gsi_base,
            final(self).config_size == old(self).config_size,
            final(self).config_offset == old(self).config_offset,
            final(self).devfn == old(self).devfn,
            final(self).dev_id == old(self).dev_id,
            final(self).name@ == old(self).name@,
            final(self).pci_config.write_mask@ == old(self).pci_config.write_mask@,
            final(self).pci_config.write_clear_mask@ == old(self).pci_config.write_clear_mask@,
            r == VfioWriteAction::Rejected ==> final(self).pci_config.config@ == old(
                self,
            ).pci_config.config@ && final(self).gsi_msi_routes@ == old(self).gsi_msi_routes@,
            r != VfioWriteAction::Rejected ==> final(self).pci_config.config@
                == crate::pci::spec_masked_store(
                old(self).pci_config.config@,
                old(self).pci_config.write_mask@,
                old(self).pci_config.write_clear_mask@,
                offset as int,
                data@,
            ),
            r == VfioWriteAction::MsixEnabled ==> final(self).gsi_msi_routes@ == spec_msix_routes(
                old(self).msix_info->Some_0.entries,
                old(self).gsi_base,
            ),
            r == VfioWriteAction::MsixDisabled ==> final(self).gsi_msi_routes@ == Seq::<
                GsiMsiRoute,
            >::empty(),
            (r == VfioWriteAction::Stored || r == VfioWriteAction::UpdateBarMapping) ==> {
                final(self).gsi_msi_routes@ == old(self).gsi_msi_routes@
            },
    {
        let size = data.len();
        let n = self.pci_config.config.len();
        let limit = self.config_size;
        if size > 4 || offset as u64 > limit || size as u64 > limit - offset as u64 {
            return VfioWriteAction::Rejected;
        }
        proof {
            assert(offset + size <= n);
        }
        let end = offset + size;

        if ranges_overlap(offset, end, COMMAND, COMMAND + 4) {
            self.pci_config.write(offset, data);
            if le_read_u32(&self.pci_config.config, offset) & (COMMAND_MEMORY_SPACE as u32) != 0 {
                VfioWriteAction::UpdateBarMapping
            } else {
                VfioWriteAction::Stored
            }
        } else if ranges_overlap(offset, end, BAR_0, BAR_5 + REG_SIZE) {
            self.pci_config.write(offset, data);
            let mut probe = false;
            if size == 4 {
                let dword: u32 = (data[0] as u32) + (data[1] as u32) * 0x100 + (data[2] as u32)
                    * 0x1_0000 + (data[3] as u32) * 0x100_0000;
                probe = dword == 0xFFFF_FFFF;
            }
            if size == 4 && !probe {
                VfioWriteAction::UpdateBarMapping
            } else {
                VfioWriteAction::Stored
            }
        } else {
            let mut in_msix_cap = false;
            let mut cap_offset: usize = 0;
            match &self.msix_info {
                Some(mi) => {
                    cap_offset = mi.cap_offset;
                    in_msix_cap = ranges_overlap(offset, end, cap_offset, cap_offset
                        + MSIX_CAP_SIZE);
                },
                None => {},
            }
            if in_msix_cap {
                let was_enable = self.pci_config.is_msix_enabled(cap_offset);
                self.pci_config.write(offset, data);
                let is_enable = self.pci_config.is_msix_enabled(cap_offset);
                if !was_enable && is_enable {
                    let _enable_res = self.vfio_enable_msix();
                    proof {
                        assert(_enable_res is Ok);
                    }
                    VfioWriteAction::MsixEnabled
                } else if was_enable && !is_enable {
                    self.vfio_disable_msix();
                    VfioWriteAction::MsixDisabled
                } else {
                    VfioWriteAction::Stored
                }
            } else {
                self.pci_config.write(offset, data);
                VfioWriteAction::Stored
            }
        }
    }

    /// Route a guest config-space read: out-of-range reads are dropped, BAR
    /// registers are served from the emulated image, everything else from
    /// the host device (masked by `mask_host_config_read`).
    pub fn read_config(&self, offset: usize, len: usize) -> (r: VfioReadRoute)
        requires
            self.wf(),
        ensures
            offset + len > self.config_size || len > 4 ==> r is Rejected,
            offset + len <= self.config_size && len <= 4 && BAR_0 <= offset < BAR_5 + REG_SIZE
                ==> (r matches VfioReadRoute::Emulated(b) && b@ == self.pci_config.config@.subrange(
                offset as int,
                offset + len,
            )),
            offset + len <= self.config_size && len <= 4 && !(BAR_0 <= offset < BAR_5 + REG_SIZE)
                ==> r is FromHost,
    {
        let n = self.pci_config.config.len();
        let limit = self.config_size;
        if len > 4 || offset as u64 > limit || len as u64 > limit - offset as u64 {
            return VfioReadRoute::Rejected;
        }
        proof {
            assert(offset + len <= n);
        }
        if offset >= BAR_0 && offset < BAR_5 + REG_SIZE {
            return VfioReadRoute::Emulated(self.pci_config.read(offset, len));
        }
        VfioReadRoute::FromHost
    }

    /// Bring the device up from what the host reported: install the config
    /// image read from the host's config region at `config_offset`, set the
    /// common masks, reset the decode bits, parse the MSI-X capability,
    /// classify the six BARs from `regions`, carve the MSI-X table out of
    /// its BAR's mappable ranges, and claim the device's slot on `bus`.
    ///
    /// Returns the reset COMMAND value, which the caller must write back to
    /// the host device before mapping anything.
    pub fn realize(
        &mut self,
        bus: &mut PciBus,
        config_offset: u64,
        config_data: Vec<u8>,
        regions: Vec<VfioRegion>,
        page_size: u64,
    ) -> (r: Result<u16, VfioPciError>)
        requires
            old(self).wf(),
            config_data@.len() >= 64,
            regions@.len() == PCI_NUM_BARS,
            0 < page_size <= 0x1_0000_0000,
        ensures
            final(self).wf(),
            final(self).config_offset == config_offset,
            final(self).config_size == config_data@.len(),
            final(self).gsi_base == old(self).gsi_base,
            final(self).devfn == old(self).devfn,
            final(self).name@ == old(self).name@,
            final(self).gsi_msi_routes@ == old(self).gsi_msi_routes@,
            // The emulated image is the host's, with the decode bits cleared
            // out of COMMAND, the BAR base bits zeroed, and every other byte
            // kept.
            final(self).pci_config.config@.len() == config_data@.len(),
            spec_le16(final(self).pci_config.config@, COMMAND as int) == spec_le16(
                config_data@,
                COMMAND as int,
            ) & !(COMMAND_IO_SPACE | COMMAND_MEMORY_SPACE | COMMAND_BUS_MASTER
                | COMMAND_INTERRUPT_DISABLE),
            forall|i: int|
                0 <= i < PCI_NUM_BARS ==> #[trigger] spec_le32(
                    final(self).pci_config.config@,
                    BAR_0 + REG_SIZE * i,
                ) == {
                    let v = spec_le32(config_data@, BAR_0 + REG_SIZE * i);
                    if v & BAR_IO_SPACE != 0 {
                        v & !IO_BASE_ADDR_MASK
                    } else {
                        v & !MEM_BASE_ADDR_MASK
                    }
                },
            forall|i: int|
                0 <= i < config_data@.len() && !(COMMAND <= i < COMMAND + 2) && !(BAR_0 <= i < BAR_0
                    + REG_SIZE * PCI_NUM_BARS) ==> final(self).pci_config.config@[i]
                    == config_data@[i],
            r matches Ok(cmd) ==> cmd == spec_le16(config_data@, COMMAND as int) & !(
            COMMAND_IO_SPACE | COMMAND_MEMORY_SPACE | COMMAND_BUS_MASTER
                | COMMAND_INTERRUPT_DISABLE),
            // Success and each failure, tied to its cause.
            ({
                let cfg1 = final(self).pci_config.config@;
                let found = crate::pci::spec_find_cap(
                    cfg1,
                    cfg1[crate::pci::CAP_POINTER as int],
                    MSIX_CAP_ID,
                    crate::pci::CAP_WALK_LIMIT as nat,
                );
                &&& (found is None <==> r == Err::<u16, VfioPciError>(VfioPciError::NoMsixCap))
                &&& ((found matches Some(o) && o + MSIX_CAP_SIZE > cfg1.len()) <==> r == Err::<
                    u16,
                    VfioPciError,
                >(VfioPciError::MsixCapTruncated))
                &&& (found matches Some(o) ==> (o + MSIX_CAP_SIZE <= cfg1.len() ==> ({
                    let table_dword = spec_le32(cfg1, o + MSIX_CAP_TABLE);
                    let ctrl = spec_le16(cfg1, o + MSIX_CAP_CONTROL);
                    let entries = ((ctrl & MSIX_TABLE_SIZE_MAX) + 1) as u16;
                    let tb = (table_dword & MSIX_TABLE_BIR) as u8;
                    &&& (tb >= PCI_NUM_BARS ==> r == Err::<u16, VfioPciError>(
                        VfioPciError::BarIndex(tb),
                    ))
                    &&& (tb < PCI_NUM_BARS && spec_bus_has(old(bus).occupied@, old(self).devfn)
                        ==> r == Err::<u16, VfioPciError>(
                        VfioPciError::DevfnUsed(old(self).devfn),
                    ))
                    &&& (tb < PCI_NUM_BARS && !spec_bus_has(old(bus).occupied@, old(self).devfn)
                        ==> r is Ok)
                    &&& (tb < PCI_NUM_BARS ==> final(self).msix_info == Some(
                        VfioMsixInfo {
                            cap_offset: o,
                            table: MsixTable {
                                table_bar: tb,
                                table_offset: (table_dword & MSIX_TABLE_OFFSET_MASK) as u64,
                                table_size: ((entries as int) * (
                                MSIX_TABLE_ENTRY_SIZE as int)) as u64,
                            },
                            entries,
                        },
                    ))
                })))
            }),
            // The slot is claimed exactly on success.
            r is Ok ==> final(bus).occupied@ == old(bus).occupied@.push(old(self).devfn),
            r is Err ==> final(bus).occupied@ == old(bus).occupied@,
            // On success the six BARs are classified from the type bits and
            // sized by the host's report, and the MSI-X table's BAR has the
            // table carved out of its mappable ranges.
            r is Ok ==> ({
                let mi = final(self).msix_info->Some_0;
                let tb = mi.table.table_bar as int;
                let region = regions@[tb];
                let start = (mi.table.table_offset - mi.table.table_offset % page_size) as u64;
                let end = (((mi.table.table_offset + mi.table.table_size + page_size - 1) as int
                    / page_size as int) * page_size as int) as u64;
                &&& final(self).msix_info is Some
                &&& final(self).vfio_bars@.len() == PCI_NUM_BARS
                &&& (forall|i: int|
                    0 <= i < PCI_NUM_BARS ==> (#[trigger] final(self).vfio_bars@[i]).size
                        == regions@[i].size && final(self).vfio_bars@[i].region_type
                        == spec_region_type(
                        spec_le32(final(self).pci_config.config@, BAR_0 + REG_SIZE * i),
                    ))
                &&& (forall|i: int|
                    0 <= i < PCI_NUM_BARS && i != tb ==> (#[trigger] final(self).vfio_bars@[i]).vfio_region.mmaps@ == regions@[i].mmaps@)
                &&& if region.mmaps@.len() == 1 && region.mmaps@[0].offset == 0 && region.size
                    == region.mmaps@[0].size {
                    final(self).vfio_bars@[tb].vfio_region.mmaps@ == spec_carved_mmaps(
                        region.size,
                        start,
                        end,
                    )
                } else {
                    final(self).vfio_bars@[tb].vfio_region.mmaps@ == region.mmaps@
                }
            }),
    {
        self.install_pci_config(config_offset, config_data);
        self.msix_info = None;
        self.pci_config.init_common_write_mask();
        self.pci_config.init_common_write_clear_mask();
        let cmd = self.pci_config_reset();
        let mi = match self.get_msix_info() {
            Ok(mi) => mi,
            Err(e) => {
                return Err(e);
            },
        };
        self.msix_info = Some(mi);
        let mut bars = self.bar_region_info(regions);
        match self.fixup_msix_region(&mut bars, page_size) {
            Ok(_) => {},
            Err(e) => {
                return Err(e);
            },
        }
        self.vfio_bars = bars;
        match bus.claim_devfn(self.devfn) {
            Ok(_) => {},
            Err(e) => {
                return Err(e);
            },
        }
        Ok(cmd)
    }
}

/// Mask the bytes a host config-space read returned before handing them to
/// the guest: the INTx pin register reads as zero (the VMM routes no legacy
/// interrupt) and the multi-function bit of the header type reads as off
/// (the VMM presents one function per slot).
pub fn mask_host_config_read(offset: usize, data: Vec<u8>) -> (r: Vec<u8>)
    requires
        offset + data@.len() <= usize::MAX,
    ensures
        r@.len() == data@.len(),
        forall|i: int|
            0 <= i < data@.len() ==> r@[i] == {
                if i + offset == INTERRUPT_PIN {
                    0u8
                } else if i + offset == HEADER_TYPE {
                    (data@[i] & 0x7F) as u8
                } else {
                    data@[i]
                }
            },
{
    let mut r = data;
    let n = r.len();
    let mut i: usize = 0;
    while i < n
        invariant
            i <= n,
            n == r@.len(),
            offset + n <= usize::MAX,
            r@.len() == data@.len(),
            forall|j: int|
                0 <= j < i ==> r@[j] == {
                    if j + offset == INTERRUPT_PIN {
                        0u8
                    } else if j + offset == HEADER_TYPE {
                        (data@[j] & 0x7F) as u8
                    } else {
                        data@[j]
                    }
                },
            forall|j: int| i <= j < n ==> r@[j] == data@[j],
        decreases n - i,
    {
        if i + offset == INTERRUPT_PIN {
            r[i] = 0;
        } else if i + offset == HEADER_TYPE {
            let b = r[i];
            r[i] = b & 0x7F;
        }
        i = i + 1;
    }
    r
}

/// Everything of a passthrough device except its GSI route table is equal.
pub open spec fn same_but_routes(a: VfioPciDevice, b: VfioPciDevice) -> bool {
    &&& a.pci_config.config@ == b.pci_config.config@
    &&& a.pci_config.write_mask@ == b.pci_config.write_mask@
    &&& a.pci_config.write_clear_mask@ == b.pci_config.write_clear_mask@
    &&& a.config_size == b.config_size
    &&& a.config_offset == b.config_offset
    &&& a.msix_info == b.msix_info
    &&& a.vfio_bars@ == b.vfio_bars@
    &&& a.gsi_base == b.gsi_base
    &&& a.devfn == b.devfn
    &&& a.dev_id == b.dev_id
    &&& a.name@ == b.name@
}

/// Law: enabling MSI-X, disabling it, and enabling it again leaves exactly
/// the GSI routes of the first enable — vector allocation is keyed by the
/// vector index alone, so a full cycle is idempotent.
///
/// `r1`, `r2` and `r3` are the route tables after the first enable, the
/// disable, and the second enable, each as the contracts of
/// `vfio_enable_msix` and `vfio_disable_msix` describe them.
pub proof fn lemma_msix_reenable_idempotent(
    entries: u16,
    gsi_base: u32,
    r1: Seq<GsiMsiRoute>,
    r2: Seq<GsiMsiRoute>,
    r3: Seq<GsiMsiRoute>,
)
    requires
        r1 == spec_msix_routes(entries, gsi_base),
        r2 == Seq::<GsiMsiRoute>::empty(),
        r3 == spec_msix_routes(entries, gsi_base),
    ensures
        r3 == r1,
        r3.to_set() == r1.to_set(),
{
}

/// A found capability offset admits reading the capability header.
proof fn lemma_find_cap_in_range(cfg: Seq<u8>, ptr: u8, id: u8, fuel: nat)
    ensures
        match crate::pci::spec_find_cap(cfg, ptr, id, fuel) {
            Some(o) => o + 2 <= cfg.len() && o <= 255,
            None => true,
        },
    decreases fuel,
{
    if fuel > 0 && ptr != 0 && ptr + 2 <= cfg.len() && cfg[ptr as int] != id {
        lemma_find_cap_in_range(cfg, cfg[ptr as int + 1], id, (fuel - 1) as nat);
    }
}

} // verus!
