//! A flat image of guest physical memory.
//!
//! The virtqueue engine and the device backends read and write guest memory
//! through this type.  Guest addresses index the image directly; every access
//! is bounds-checked once, by `check_range`, before the typed accessors run.
//! Multi-byte values are little-endian, as the virtio and PCI wire formats
//! demand.

use vstd::prelude::*;

verus! {

/// Little-endian value of the two bytes of `s` at `a`.
pub open spec fn spec_le16(s: Seq<u8>, a: int) -> u16 {
    (s[a] + s[a + 1] * 0x100) as u16
}

/// Little-endian value of the four bytes of `s` at `a`.
pub open spec fn spec_le32(s: Seq<u8>, a: int) -> u32 {
    (s[a] + s[a + 1] * 0x100 + s[a + 2] * 0x1_0000 + s[a + 3] * 0x100_0000) as u32
}

/// Little-endian value of the eight bytes of `s` at `a`.
pub open spec fn spec_le64(s: Seq<u8>, a: int) -> u64 {
    (s[a] + s[a + 1] * 0x100 + s[a + 2] * 0x1_0000 + s[a + 3] * 0x100_0000 + s[a + 4]
        * 0x1_0000_0000 + s[a + 5] * 0x100_0000_0000 + s[a + 6] * 0x1_0000_0000_0000 + s[a + 7]
        * 0x100_0000_0000_0000) as u64
}

/// Guest physical memory as one contiguous byte image starting at address 0.
pub struct GuestMem {
    bytes: Vec<u8>,
}

impl View for GuestMem {
    type V = Seq<u8>;

    closed spec fn view(&self) -> Seq<u8> {
        self.bytes@
    }
}

impl GuestMem {
    /// Whether the `len`-byte range at `addr` lies inside guest memory.
    pub open spec fn valid_range(self, addr: int, len: int) -> bool {
        0 <= addr && 0 <= len && addr + len <= self@.len()
    }

    /// A fresh image of `size` zero bytes.
    pub fn new(size: usize) -> (r: GuestMem)
        ensures
            r@ == Seq::new(size as nat, |i: int| 0u8),
    {
        let mut bytes: Vec<u8> = Vec::new();
        let mut i: usize = 0;
        while i < size
            invariant
                i <= size,
                bytes@ == Seq::new(i as nat, |j: int| 0u8),
            decreases size - i,
        {
            bytes.push(0);
            proof {
                assert(bytes@ =~= Seq::new((i + 1) as nat, |j: int| 0u8));
            }
            i = i + 1;
        }
        GuestMem { bytes }
    }

    /// An image holding exactly the given bytes.
    pub fn from_bytes(bytes: Vec<u8>) -> (r: GuestMem)
        ensures
            r@ == bytes@,
    {
        GuestMem { bytes }
    }

    /// The size of guest memory in bytes.
    pub fn len(&self) -> (r: usize)
        ensures
            r == self@.len(),
    {
        self.bytes.len()
    }

    /// Bounds-check the `len`-byte range at `addr`.
    pub fn check_range(&self, addr: u64, len: u64) -> (r: bool)
        ensures
            r == self.valid_range(addr as int, len as int),
    {
        let n = self.bytes.len();
        match addr.checked_add(len) {
            Some(end) => end <= n as u64,
            None => false,
        }
    }

    /// The byte image is a `Vec`, so its length fits in `usize`.
    pub proof fn lemma_len_fits(&self)
        ensures
            self@.len() <= usize::MAX,
    {
        vstd::std_specs::vec::axiom_spec_len(&self.bytes);
    }

    /// Turn a guest address known to lie inside memory into a `Vec` index.
    fn idx(&self, addr: u64) -> (r: usize)
        requires
            addr < self@.len(),
        ensures
            r == addr,
    {
        let n = self.bytes.len();
        proof {
            assert(addr < n);
        }
        addr as usize
    }

    /// Read the byte at `addr`.
    pub fn read_u8(&self, addr: u64) -> (r: u8)
        requires
            self.valid_range(addr as int, 1),
        ensures
            r == self@[addr as int],
    {
        let i = self.idx(addr);
        self.bytes[i]
    }

    /// Write the byte at `addr`.
    pub fn write_u8(&mut self, addr: u64, v: u8)
        requires
            old(self).valid_range(addr as int, 1),
        ensures
            final(self)@ == old(self)@.update(addr as int, v),
    {
        let i = self.idx(addr);
        self.bytes[i] = v;
    }

    /// Read the little-endian 16-bit value at `addr`.
    pub fn read_u16(&self, addr: u64) -> (r: u16)
        requires
            self.valid_range(addr as int, 2),
        ensures
            r == spec_le16(self@, addr as int),
    {
        proof {
            self.lemma_len_fits();
        }
        let i = self.idx(addr);
        let b0 = self.bytes[i];
        let b1 = self.bytes[i + 1];
        (b0 as u16) + (b1 as u16) * 0x100
    }

    /// Write `v` as two little-endian bytes at `addr`.
    pub fn write_u16(&mut self, addr: u64, v: u16)
        requires
            old(self).valid_range(addr as int, 2),
        ensures
            final(self)@.len() == old(self)@.len(),
            spec_le16(final(self)@, addr as int) == v,
            forall|i: int|
                0 <= i < old(self)@.len() && !(addr <= i < addr + 2) ==> final(self)@[i] == old(
                    self,
                )@[i],
    {
        proof {
            self.lemma_len_fits();
        }
        let i = self.idx(addr);
        let lo: u8 = (v % 0x100) as u8;
        let hi: u8 = (v / 0x100) as u8;
        self.bytes[i] = lo;
        self.bytes[i + 1] = hi;
        proof {
            assert(lo + hi * 0x100 == v) by (nonlinear_arith)
                requires
                    lo == v % 0x100,
                    hi == v / 0x100,
                    v < 0x1_0000,
            ;
        }
    }

    /// Read the little-endian 32-bit value at `addr`.
    pub fn read_u32(&self, addr: u64) -> (r: u32)
        requires
            self.valid_range(addr as int, 4),
        ensures
            r == spec_le32(self@, addr as int),
    {
        proof {
            self.lemma_len_fits();
        }
        let i = self.idx(addr);
        let b0 = self.bytes[i];
        let b1 = self.bytes[i + 1];
        let b2 = self.bytes[i + 2];
        let b3 = self.bytes[i + 3];
        (b0 as u32) + (b1 as u32) * 0x100 + (b2 as u32) * 0x1_0000 + (b3 as u32) * 0x100_0000
    }

    /// Write `v` as four little-endian bytes at `addr`.
    pub fn write_u32(&mut self, addr: u64, v: u32)
        requires
            old(self).valid_range(addr as int, 4),
        ensures
            final(self)@.len() == old(self)@.len(),
            spec_le32(final(self)@, addr as int) == v,
            forall|i: int|
                0 <= i < old(self)@.len() && !(addr <= i < addr + 4) ==> final(self)@[i] == old(
                    self,
                )@[i],
    {
        proof {
            self.lemma_len_fits();
        }
        let b0: u8 = (v % 0x100) as u8;
        let b1: u8 = ((v / 0x100) % 0x100) as u8;
        let b2: u8 = ((v / 0x1_0000) % 0x100) as u8;
        let b3: u8 = (v / 0x100_0000) as u8;
        let i = self.idx(addr);
        self.bytes[i] = b0;
        self.bytes[i + 1] = b1;
        self.bytes[i + 2] = b2;
        self.bytes[i + 3] = b3;
        proof {
            assert(b0 + b1 * 0x100 + b2 * 0x1_0000 + b3 * 0x100_0000 == v) by (nonlinear_arith)
                requires
                    b0 == v % 0x100,
                    b1 == (v / 0x100) % 0x100,
                    b2 == (v / 0x1_0000) % 0x100,
                    b3 == v / 0x100_0000,
                    v < 0x1_0000_0000,
            ;
        }
    }

    /// Read the little-endian 64-bit value at `addr`.
    pub fn read_u64(&self, addr: u64) -> (r: u64)
        requires
            self.valid_range(addr as int, 8),
        ensures
            r == spec_le64(self@, addr as int),
    {
        proof {
            self.lemma_len_fits();
        }
        let lo = self.read_u32(addr);
        let hi = self.read_u32(addr + 4);
        (lo as u64) + (hi as u64) * 0x1_0000_0000
    }

    /// Write `v` as eight little-endian bytes at `addr`.
    pub fn write_u64(&mut self, addr: u64, v: u64)
        requires
            old(self).valid_range(addr as int, 8),
        ensures
            final(self)@.len() == old(self)@.len(),
            spec_le64(final(self)@, addr as int) == v,
            forall|i: int|
                0 <= i < old(self)@.len() && !(addr <= i < addr + 8) ==> final(self)@[i] == old(
                    self,
                )@[i],
    {
        proof {
            self.lemma_len_fits();
        }
        let lo: u32 = (v % 0x1_0000_0000) as u32;
        let hi: u32 = (v / 0x1_0000_0000) as u32;
        self.write_u32(addr, lo);
        self.write_u32(addr + 4, hi);
        proof {
            assert(lo + hi * 0x1_0000_0000 == v) by (nonlinear_arith)
                requires
                    lo == v % 0x1_0000_0000,
                    hi == v / 0x1_0000_0000,
            ;
        }
    }

    /// Copy `len` bytes starting at `addr` out of guest memory.
    pub fn read_bytes(&self, addr: u64, len: u64) -> (r: Vec<u8>)
        requires
            self.valid_range(addr as int, len as int),
        ensures
            r@ == self@.subrange(addr as int, addr as int + len as int),
    {
        proof {
            self.lemma_len_fits();
        }
        let mut r: Vec<u8> = Vec::new();
        let mut i: u64 = 0;
        while i < len
            invariant
                i <= len,
                self.valid_range(addr as int, len as int),
                self@.len() <= usize::MAX,
                r@ == self@.subrange(addr as int, addr as int + i as int),
            decreases len - i,
        {
            let j = self.idx(addr + i);
            r.push(self.bytes[j]);
            proof {
                assert(r@ =~= self@.subrange(addr as int, addr as int + (i + 1) as int));
            }
            i = i + 1;
        }
        r
    }

    /// Copy `data` into guest memory at `addr`.
    pub fn write_bytes(&mut self, addr: u64, data: &[u8])
        requires
            old(self).valid_range(addr as int, data@.len() as int),
        ensures
            final(self)@.len() == old(self)@.len(),
            forall|i: int|
                addr <= i < addr + data@.len() ==> final(self)@[i] == data@[i - addr],
            forall|i: int|
                0 <= i < old(self)@.len() && !(addr <= i < addr + data@.len()) ==> final(self)@[i]
                    == old(self)@[i],
    {
        proof {
            self.lemma_len_fits();
        }
        let n = data.len();
        let mut i: usize = 0;
        while i < n
            invariant
                i <= n,
                n == data@.len(),
                self@.len() == old(self)@.len(),
                self@.len() <= usize::MAX,
                addr + n <= self@.len(),
                forall|j: int| addr <= j < addr + i ==> self@[j] == data@[j - addr],
                forall|j: int|
                    0 <= j < old(self)@.len() && !(addr <= j < addr + i) ==> self@[j] == old(
                        self,
                    )@[j],
            decreases n - i,
        {
            let b = data[i];
            let j = self.idx(addr + i as u64);
            self.bytes[j] = b;
            i = i + 1;
        }
    }
}

} // verus!
