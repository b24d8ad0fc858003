//! PCI configuration-space emulation.
//!
//! A device's config space is a byte image with two companion masks: the
//! write-mask names the bits a guest may set, the write-clear-mask the bits a
//! guest clears by writing one.  On top of the masked byte store sit the
//! capability-list walker and the BAR sizing protocol: a register whose
//! write-mask is `!(size-1)` answers an all-ones probe with
//! `!(size-1) | type_bits` on the next read.

use vstd::prelude::*;

use crate::guest_mem::{spec_le16, spec_le32};

verus! {

/// Size of a legacy PCI configuration space.
pub const PCI_CONFIG_SPACE_SIZE: usize = 256;
/// Size of a PCIe configuration space.
pub const PCIE_CONFIG_SPACE_SIZE: usize = 4096;
/// Number of BAR registers of a type-0 header.
pub const PCI_NUM_BARS: usize = 6;
/// Bytes per configuration register.
pub const REG_SIZE: usize = 4;

/// Offset of the COMMAND register.
pub const COMMAND: usize = 0x04;
/// Offset of the STATUS register.
pub const STATUS: usize = 0x06;
/// Offset of the cache-line-size register.
pub const CACHE_LINE_SIZE: usize = 0x0C;
/// Offset of the header-type register.
pub const HEADER_TYPE: usize = 0x0E;
/// Offset of the first BAR register.
pub const BAR_0: usize = 0x10;
/// Offset of the last BAR register.
pub const BAR_5: usize = 0x24;
/// Offset of the capability-list head pointer.
pub const CAP_POINTER: usize = 0x34;
/// Offset of the interrupt-line register.
pub const INTERRUPT_LINE: usize = 0x3C;
/// Offset of the interrupt-pin register.
pub const INTERRUPT_PIN: usize = 0x3D;

/// COMMAND bit: decode I/O space accesses.
pub const COMMAND_IO_SPACE: u16 = 0x0001;
/// COMMAND bit: decode memory space accesses.
pub const COMMAND_MEMORY_SPACE: u16 = 0x0002;
/// COMMAND bit: act as bus master.
pub const COMMAND_BUS_MASTER: u16 = 0x0004;
/// COMMAND bit: respond to parity errors.
pub const COMMAND_PARITY_ERR_RESPONSE: u16 = 0x0040;
/// COMMAND bit: enable SERR# reporting.
pub const COMMAND_SERR_ENABLE: u16 = 0x0100;
/// COMMAND bit: disable legacy INTx assertion.
pub const COMMAND_INTERRUPT_DISABLE: u16 = 0x0400;

/// STATUS bits a guest clears by writing one.
pub const STATUS_WRITE_CLEAR_BITS: u16 = 0xF900;

/// BAR dword bit: the BAR maps I/O ports.
pub const BAR_IO_SPACE: u32 = 0x1;
/// BAR dword bit: the BAR is the low half of a 64-bit memory BAR.
pub const BAR_MEM_64BIT: u32 = 0x4;
/// Address bits of an I/O BAR.
pub const IO_BASE_ADDR_MASK: u32 = 0xFFFF_FFFC;
/// Address bits of a memory BAR.
pub const MEM_BASE_ADDR_MASK: u32 = 0xFFFF_FFF0;

/// Capability ID of MSI-X.
pub const MSIX_CAP_ID: u8 = 0x11;
/// Offset of the message-control word within the MSI-X capability.
pub const MSIX_CAP_CONTROL: usize = 0x02;
/// Offset of the table dword within the MSI-X capability.
pub const MSIX_CAP_TABLE: usize = 0x04;
/// Byte size of the MSI-X capability structure.
pub const MSIX_CAP_SIZE: usize = 12;
/// Largest table-size field value (entries - 1).
pub const MSIX_TABLE_SIZE_MAX: u16 = 0x07FF;
/// Control-word bit enabling MSI-X.
pub const MSIX_ENABLE_BIT: u16 = 0x8000;
/// BIR bits of the table dword.
pub const MSIX_TABLE_BIR: u32 = 0x7;
/// Offset bits of the table dword.
pub const MSIX_TABLE_OFFSET_MASK: u32 = 0xFFFF_FFF8;
/// Bytes per MSI-X table entry.
pub const MSIX_TABLE_ENTRY_SIZE: u32 = 16;
/// How many capability links the walker follows before calling the list
/// cyclic.
pub const CAP_WALK_LIMIT: usize = 48;

/// Read the little-endian 16-bit register at `offset` of `buf`.
pub fn le_read_u16(buf: &Vec<u8>, offset: usize) -> (r: u16)
    requires
        offset + 2 <= buf@.len(),
    ensures
        r == spec_le16(buf@, offset as int),
{
    let _n = buf.len();
    let b0 = buf[offset];
    let b1 = buf[offset + 1];
    (b0 as u16) + (b1 as u16) * 0x100
}

/// Read the little-endian 32-bit register at `offset` of `buf`.
pub fn le_read_u32(buf: &Vec<u8>, offset: usize) -> (r: u32)
    requires
        offset + 4 <= buf@.len(),
    ensures
        r == spec_le32(buf@, offset as int),
{
    let _n = buf.len();
    let b0 = buf[offset];
    let b1 = buf[offset + 1];
    let b2 = buf[offset + 2];
    let b3 = buf[offset + 3];
    (b0 as u32) + (b1 as u32) * 0x100 + (b2 as u32) * 0x1_0000 + (b3 as u32) * 0x100_0000
}

/// Store `v` as two little-endian bytes at `offset` of `buf`.
pub fn le_write_u16(buf: &mut Vec<u8>, offset: usize, v: u16)
    requires
        offset + 2 <= old(buf)@.len(),
    ensures
        final(buf)@.len() == old(buf)@.len(),
        spec_le16(final(buf)@, offset as int) == v,
        forall|i: int|
            0 <= i < old(buf)@.len() && !(offset <= i < offset + 2) ==> final(buf)@[i] == old(
                buf,
            )@[i],
{
    let _n = buf.len();
    let lo: u8 = (v % 0x100) as u8;
    let hi: u8 = (v / 0x100) as u8;
    buf[offset] = lo;
    buf[offset + 1] = hi;
    proof {
        assert(lo + hi * 0x100 == v) by (nonlinear_arith)
            requires
                lo == v % 0x100,
                hi == v / 0x100,
                v < 0x1_0000,
        ;
    }
}

/// Store `v` as four little-endian bytes at `offset` of `buf`.
pub fn le_write_u32(buf: &mut Vec<u8>, offset: usize, v: u32)
    requires
        offset + 4 <= old(buf)@.len(),
    ensures
        final(buf)@.len() == old(buf)@.len(),
        spec_le32(final(buf)@, offset as int) == v,
        forall|i: int|
            0 <= i < old(buf)@.len() && !(offset <= i < offset + 4) ==> final(buf)@[i] == old(
                buf,
            )@[i],
{
    let _n = buf.len();
    let b0: u8 = (v % 0x100) as u8;
    let b1: u8 = ((v / 0x100) % 0x100) as u8;
    let b2: u8 = ((v / 0x1_0000) % 0x100) as u8;
    let b3: u8 = (v / 0x100_0000) as u8;
    buf[offset] = b0;
    buf[offset + 1] = b1;
    buf[offset + 2] = b2;
    buf[offset + 3] = b3;
    proof {
        assert(b0 + b1 * 0x100 + b2 * 0x1_0000 + b3 * 0x100_0000 == v) by (nonlinear_arith)
            requires
                b0 == v % 0x100,
                b1 == (v / 0x100) % 0x100,
                b2 == (v / 0x1_0000) % 0x100,
                b3 == v / 0x100_0000,
                v < 0x1_0000_0000,
        ;
    }
}

/// The byte stored by one masked config-space write: guest-settable bits
/// come from the incoming byte, the rest keep their old value, and a one
/// written to a write-clear bit clears it.
pub open spec fn spec_masked_write_byte(old_b: u8, inc: u8, mask: u8, wcm: u8) -> u8 {
    (((old_b & !mask) | (inc & mask)) & !(inc & wcm)) as u8
}

/// The config image after one masked write of `data` at `offset`: each
/// covered byte through `spec_masked_write_byte`, the rest unchanged.
pub open spec fn spec_masked_store(
    cfg: Seq<u8>,
    mask: Seq<u8>,
    wcm: Seq<u8>,
    offset: int,
    data: Seq<u8>,
) -> Seq<u8> {
    Seq::new(
        cfg.len(),
        |i: int|
            if offset <= i < offset + data.len() {
                spec_masked_write_byte(cfg[i], data[i - offset], mask[i], wcm[i])
            } else {
                cfg[i]
            },
    )
}

/// An emulated PCI configuration space: the byte image and its two masks.
pub struct PciConfig {
    /// The configuration bytes the guest reads.
    pub config: Vec<u8>,
    /// Guest-settable bits.
    pub write_mask: Vec<u8>,
    /// Bits the guest clears by writing one.
    pub write_clear_mask: Vec<u8>,
}

impl PciConfig {
    /// The three images cover the same registers.
    pub open spec fn wf(self) -> bool {
        &&& self.config@.len() == self.write_mask@.len()
        &&& self.config@.len() == self.write_clear_mask@.len()
    }

    /// A zeroed configuration space of `config_size` bytes.
    pub fn new(config_size: usize) -> (r: PciConfig)
        ensures
            r.wf(),
            r.config@ == Seq::new(config_size as nat, |i: int| 0u8),
            r.write_mask@ == Seq::new(config_size as nat, |i: int| 0u8),
            r.write_clear_mask@ == Seq::new(config_size as nat, |i: int| 0u8),
    {
        PciConfig {
            config: zeroed_vec(config_size),
            write_mask: zeroed_vec(config_size),
            write_clear_mask: zeroed_vec(config_size),
        }
    }

    /// Copy `len` config bytes starting at `offset` out to the guest.
    pub fn read(&self, offset: usize, len: usize) -> (r: Vec<u8>)
        requires
            offset + len <= self.config@.len(),
        ensures
            r@ == self.config@.subrange(offset as int, offset as int + len as int),
    {
        let cfg_len = self.config.len();
        let mut r: Vec<u8> = Vec::new();
        let mut i: usize = 0;
        while i < len
            invariant
                i <= len,
                offset + len <= cfg_len,
                cfg_len == self.config@.len(),
                r@ == self.config@.subrange(offset as int, offset as int + i as int),
            decreases len - i,
        {
            r.push(self.config[offset + i]);
            proof {
                assert(r@ =~= self.config@.subrange(offset as int, offset as int + i + 1));
            }
            i = i + 1;
        }
        r
    }

    /// Apply a guest write of `data` at `offset`, byte by byte, under the
    /// write-mask and write-clear-mask.
    #[verifier::loop_isolation(false)]
    pub fn write(&mut self, offset: usize, data: &[u8])
        requires
            old(self).wf(),
            offset + data@.len() <= old(self).config@.len(),
        ensures
            final(self).wf(),
            final(self).config@.len() == old(self).config@.len(),
            final(self).write_mask@ == old(self).write_mask@,
            final(self).write_clear_mask@ == old(self).write_clear_mask@,
            forall|i: int|
                offset <= i < offset + data@.len() ==> final(self).config@[i]
                    == spec_masked_write_byte(
                    old(self).config@[i],
                    data@[i - offset],
                    old(self).write_mask@[i],
                    old(self).write_clear_mask@[i],
                ),
            forall|i: int|
                0 <= i < old(self).config@.len() && !(offset <= i < offset + data@.len())
                    ==> final(self).config@[i] == old(self).config@[i],
            final(self).config@ == spec_masked_store(
                old(self).config@,
                old(self).write_mask@,
                old(self).write_clear_mask@,
                offset as int,
                data@,
            ),
    {
        let n = data.len();
        let cfg_len = self.config.len();
        let mut i: usize = 0;
        while i < n
            invariant
                i <= n,
                offset + n <= cfg_len,
                cfg_len == self.config@.len(),
                self.wf(),
                self.config@.len() == old(self).config@.len(),
                self.write_mask@ == old(self).write_mask@,
                self.write_clear_mask@ == old(self).write_clear_mask@,
                forall|j: int|
                    offset <= j < offset + i ==> self.config@[j] == spec_masked_write_byte(
                        old(self).config@[j],
                        data@[j - offset],
                        old(self).write_mask@[j],
                        old(self).write_clear_mask@[j],
                    ),
                forall|j: int|
                    0 <= j < old(self).config@.len() && !(offset <= j < offset + i)
                        ==> self.config@[j] == old(self).config@[j],
            decreases n - i,
        {
            let old_b = self.config[offset + i];
            let inc = data[i];
            let mask = self.write_mask[offset + i];
            let wcm = self.write_clear_mask[offset + i];
            let new_b: u8 = (((old_b & !mask) | (inc & mask)) & !(inc & wcm));
            self.config[offset + i] = new_b;
            i = i + 1;
        }
        proof {
            assert(self.config@ =~= spec_masked_store(
                old(self).config@,
                old(self).write_mask@,
                old(self).write_clear_mask@,
                offset as int,
                data@,
            ));
        }
    }

    /// Set the write-mask bits every type-0 header shares: the writable
    /// COMMAND bits, the cache-line-size register and the interrupt line.
    pub fn init_common_write_mask(&mut self)
        requires
            old(self).wf(),
            old(self).config@.len() >= 64,
        ensures
            final(self).wf(),
            final(self).config@ == old(self).config@,
            final(self).write_clear_mask@ == old(self).write_clear_mask@,
            final(self).write_mask@.len() == old(self).write_mask@.len(),
            spec_le16(final(self).write_mask@, COMMAND as int) == COMMAND_IO_SPACE
                | COMMAND_MEMORY_SPACE | COMMAND_BUS_MASTER | COMMAND_PARITY_ERR_RESPONSE
                | COMMAND_SERR_ENABLE | COMMAND_INTERRUPT_DISABLE,
            final(self).write_mask@[CACHE_LINE_SIZE as int] == 0xFFu8,
            final(self).write_mask@[INTERRUPT_LINE as int] == 0xFFu8,
            forall|i: int|
                0 <= i < old(self).write_mask@.len() && !(COMMAND <= i < COMMAND + 2) && i
                    != CACHE_LINE_SIZE && i != INTERRUPT_LINE ==> final(self).write_mask@[i]
                    == old(self).write_mask@[i],
    {
        let cmd_mask: u16 = COMMAND_IO_SPACE | COMMAND_MEMORY_SPACE | COMMAND_BUS_MASTER
            | COMMAND_PARITY_ERR_RESPONSE | COMMAND_SERR_ENABLE | COMMAND_INTERRUPT_DISABLE;
        le_write_u16(&mut self.write_mask, COMMAND, cmd_mask);
        let _n = self.write_mask.len();
        self.write_mask[CACHE_LINE_SIZE] = 0xFF;
        self.write_mask[INTERRUPT_LINE] = 0xFF;
    }

    /// Set the write-clear-mask bits every type-0 header shares: the
    /// write-one-to-clear STATUS bits.
    pub fn init_common_write_clear_mask(&mut self)
        requires
            old(self).wf(),
            old(self).config@.len() >= 64,
        ensures
            final(self).wf(),
            final(self).config@ == old(self).config@,
            final(self).write_mask@ == old(self).write_mask@,
            final(self).write_clear_mask@.len() == old(self).write_clear_mask@.len(),
            spec_le16(final(self).write_clear_mask@, STATUS as int) == STATUS_WRITE_CLEAR_BITS,
            forall|i: int|
                0 <= i < old(self).write_clear_mask@.len() && !(STATUS <= i < STATUS + 2)
                    ==> final(self).write_clear_mask@[i] == old(self).write_clear_mask@[i],
    {
        le_write_u16(&mut self.write_clear_mask, STATUS, STATUS_WRITE_CLEAR_BITS);
    }

    /// Install the sizing write-mask of BAR `index`: the guest may set
    /// exactly the address bits `!(size-1)`, so an all-ones sizing probe
    /// reads back as `!(size-1) | type_bits` (the law
    /// `lemma_bar_sizing_readback`).  A 64-bit BAR spreads the mask over its
    /// two consecutive slots.  `size` must be a power of two of at least 16
    /// bytes, so that the mask spares the type bits.
    pub fn set_bar_sizing_mask(&mut self, index: usize, size: u64, is_64bit: bool)
        requires
            old(self).wf(),
            old(self).config@.len() >= 64,
            index < PCI_NUM_BARS,
            is_64bit ==> index + 1 < PCI_NUM_BARS,
            16 <= size,
            !is_64bit ==> size <= 0x1_0000_0000,
            (size & (size - 1) as u64) == 0,
        ensures
            final(self).wf(),
            final(self).config@ == old(self).config@,
            final(self).write_clear_mask@ == old(self).write_clear_mask@,
            final(self).write_mask@.len() == old(self).write_mask@.len(),
            !is_64bit ==> spec_le32(final(self).write_mask@, BAR_0 + REG_SIZE * index) == !((size
                - 1) as u32),
            is_64bit ==> spec_le32(final(self).write_mask@, BAR_0 + REG_SIZE * index) == (!((size
                - 1) as u64) & 0xFFFF_FFFF) as u32,
            is_64bit ==> spec_le32(final(self).write_mask@, BAR_0 + REG_SIZE * (index + 1)) == (!((
            size - 1) as u64) >> 32) as u32,
            forall|i: int|
                0 <= i < old(self).write_mask@.len() && !(BAR_0 + REG_SIZE * index <= i < BAR_0
                    + REG_SIZE * index + (if is_64bit {
                    8int
                } else {
                    4int
                })) ==> final(self).write_mask@[i] == old(self).write_mask@[i],
    {
        let mask: u64 = !(size - 1);
        let offset = BAR_0 + REG_SIZE * index;
        if is_64bit {
            le_write_u32(&mut self.write_mask, offset, (mask & 0xFFFF_FFFF) as u32);
            le_write_u32(&mut self.write_mask, offset + REG_SIZE, (mask >> 32) as u32);
        } else {
            proof {
                assert((!(((size - 1) as u64)) & 0xFFFF_FFFF) as u32 == !((size - 1) as u32))
                    by (bit_vector)
                    requires
                        16 <= size <= 0x1_0000_0000,
                ;
            }
            le_write_u32(&mut self.write_mask, offset, (mask & 0xFFFF_FFFF) as u32);
        }
    }

    /// Whether MSI-X is enabled in the capability at `cap_offset`.
    pub fn is_msix_enabled(&self, cap_offset: usize) -> (r: bool)
        requires
            cap_offset + 4 <= self.config@.len(),
        ensures
            r == (spec_le16(self.config@, cap_offset + MSIX_CAP_CONTROL) & MSIX_ENABLE_BIT != 0),
    {
        let _n = self.config.len();
        le_read_u16(&self.config, cap_offset + MSIX_CAP_CONTROL) & MSIX_ENABLE_BIT != 0
    }

    /// Find the capability with ID `cap_id` by walking the list from the
    /// head pointer, giving up after `CAP_WALK_LIMIT` links.
    #[verifier::loop_isolation(false)]
    pub fn find_pci_cap(&self, cap_id: u8) -> (r: Option<usize>)
        requires
            self.config@.len() >= 64,
        ensures
            r == spec_find_cap(
                self.config@,
                self.config@[CAP_POINTER as int],
                cap_id,
                CAP_WALK_LIMIT as nat,
            ),
    {
        let mut ptr: u8 = self.config[CAP_POINTER];
        let mut steps: usize = 0;
        let n = self.config.len();
        while steps < CAP_WALK_LIMIT
            invariant
                steps <= CAP_WALK_LIMIT,
                spec_find_cap(self.config@, self.config@[CAP_POINTER as int], cap_id,
                    CAP_WALK_LIMIT as nat) == spec_find_cap(
                    self.config@,
                    ptr,
                    cap_id,
                    (CAP_WALK_LIMIT - steps) as nat,
                ),
            decreases CAP_WALK_LIMIT - steps,
        {
            if ptr == 0 {
                return None;
            }
            if ptr as usize + 2 > n {
                return None;
            }
            if self.config[ptr as usize] == cap_id {
                return Some(ptr as usize);
            }
            ptr = self.config[ptr as usize + 1];
            steps = steps + 1;
        }
        None
    }
}

/// The capability-list walk: the offset of the capability with ID `id`, or
/// `None` if the chain ends, leaves the space, or runs longer than `fuel`.
pub open spec fn spec_find_cap(cfg: Seq<u8>, ptr: u8, id: u8, fuel: nat) -> Option<usize>
    decreases fuel,
{
    if fuel == 0 {
        None
    } else if ptr == 0 {
        None
    } else if ptr + 2 > cfg.len() {
        None
    } else if cfg[ptr as int] == id {
        Some(ptr as usize)
    } else {
        spec_find_cap(cfg, cfg[ptr as int + 1], id, (fuel - 1) as nat)
    }
}

/// A vector of `n` zero bytes.
pub fn zeroed_vec(n: usize) -> (r: Vec<u8>)
    ensures
        r@ == Seq::new(n as nat, |i: int| 0u8),
{
    let mut v: Vec<u8> = Vec::new();
    let mut i: usize = 0;
    while i < n
        invariant
            i <= n,
            v@ == Seq::new(i as nat, |j: int| 0u8),
        decreases n - i,
    {
        v.push(0);
        proof {
            assert(v@ =~= Seq::new((i + 1) as nat, |j: int| 0u8));
        }
        i = i + 1;
    }
    v
}

/// Composing four bytes little-endian turns per-byte OR into 32-bit OR.
proof fn lemma_le32_or(a0: u8, a1: u8, a2: u8, a3: u8, b0: u8, b1: u8, b2: u8, b3: u8)
    ensures
        ((a0 | b0) + (a1 | b1) * 0x100 + (a2 | b2) * 0x1_0000 + (a3 | b3) * 0x100_0000) as u32 == (
        (a0 + a1 * 0x100 + a2 * 0x1_0000 + a3 * 0x100_0000) as u32) | ((b0 + b1 * 0x100 + b2
            * 0x1_0000 + b3 * 0x100_0000) as u32),
{
    assert((((a0 | b0) + (a1 | b1) * 0x100 + (a2 | b2) * 0x1_0000 + (a3 | b3) * 0x100_0000) as u32)
        == (((a0 + a1 * 0x100 + a2 * 0x1_0000 + a3 * 0x100_0000) as u32) | ((b0 + b1 * 0x100 + b2
        * 0x1_0000 + b3 * 0x100_0000) as u32))) by (bit_vector);
}

/// An all-ones write under the masks turns each byte into `old | mask` when
/// the write-clear-mask is clear there.
proof fn lemma_masked_write_allones_byte(old_b: u8, mask: u8)
    ensures
        spec_masked_write_byte(old_b, 0xFF, mask, 0) == (old_b | mask),
{
    assert((((old_b & !mask) | (0xFF & mask)) & !(0xFFu8 & 0u8)) == (old_b | mask)) by (bit_vector);
}

/// Law: after the guest writes all-ones over a BAR register whose
/// write-mask is `!(size-1)`, whose stored dword is the type bits, and whose
/// write-clear-mask is clear, the next read returns `!(size-1) | type_bits`.
///
/// `cfg` and `r` are the config image before and after the write; the write
/// itself is characterised by `spec_masked_write_byte`, exactly as
/// `PciConfig::write` publishes it.
pub proof fn lemma_bar_sizing_readback(
    cfg: Seq<u8>,
    mask: Seq<u8>,
    wcm: Seq<u8>,
    r: Seq<u8>,
    o: int,
    size: u32,
    type_bits: u32,
)
    requires
        0 <= o,
        o + 4 <= cfg.len(),
        o + 4 <= mask.len(),
        o + 4 <= wcm.len(),
        o + 4 <= r.len(),
        size >= 1,
        spec_le32(cfg, o) == type_bits,
        spec_le32(mask, o) == !((size - 1) as u32),
        forall|i: int| o <= i < o + 4 ==> wcm[i] == 0,
        forall|i: int|
            o <= i < o + 4 ==> r[i] == spec_masked_write_byte(cfg[i], 0xFF, mask[i], wcm[i]),
    ensures
        spec_le32(r, o) == !((size - 1) as u32) | type_bits,
{
    lemma_masked_write_allones_byte(cfg[o], mask[o]);
    lemma_masked_write_allones_byte(cfg[o + 1], mask[o + 1]);
    lemma_masked_write_allones_byte(cfg[o + 2], mask[o + 2]);
    lemma_masked_write_allones_byte(cfg[o + 3], mask[o + 3]);
    lemma_le32_or(
        cfg[o],
        cfg[o + 1],
        cfg[o + 2],
        cfg[o + 3],
        mask[o],
        mask[o + 1],
        mask[o + 2],
        mask[o + 3],
    );
    assert(spec_le32(r, o) == type_bits | !((size - 1) as u32));
    assert(type_bits | !((size - 1) as u32) == !((size - 1) as u32) | type_bits) by (bit_vector);
}

/// One masked write keeps every payload bit that the write-mask admits and
/// the write-clear-mask spares.
proof fn lemma_masked_write_roundtrip_byte(old_b: u8, inc: u8, mask: u8, wcm: u8)
    ensures
        spec_masked_write_byte(old_b, inc, mask, wcm) & mask & !wcm == inc & mask & !wcm,
{
    assert(((((old_b & !mask) | (inc & mask)) & !(inc & wcm)) & mask & !wcm) == (inc & mask & !wcm))
        by (bit_vector);
}

/// Law: write any payload to config space and read it back at the same
/// offset — the bytes match on every bit the write-mask admits and the
/// write-clear-mask spares.
///
/// `cfg` and `r` are the config image before and after the write.
pub proof fn lemma_config_write_read_roundtrip(
    cfg: Seq<u8>,
    mask: Seq<u8>,
    wcm: Seq<u8>,
    r: Seq<u8>,
    o: int,
    data: Seq<u8>,
)
    requires
        0 <= o,
        o + data.len() <= cfg.len(),
        forall|i: int|
            o <= i < o + data.len() ==> r[i] == spec_masked_write_byte(
                cfg[i],
                data[i - o],
                mask[i],
                wcm[i],
            ),
    ensures
        forall|i: int|
            o <= i < o + data.len() ==> #[trigger] (r[i] & mask[i] & !wcm[i]) == data[i - o]
                & mask[i] & !wcm[i],
{
    assert forall|i: int|
        o <= i < o + data.len() implies #[trigger] (r[i] & mask[i] & !wcm[i]) == data[i - o]
        & mask[i] & !wcm[i] by {
        lemma_masked_write_roundtrip_byte(cfg[i], data[i - o], mask[i], wcm[i]);
    }
}

} // verus!
