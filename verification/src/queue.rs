//! The split-ring virtqueue engine.
//!
//! A split ring consists of a descriptor table, an available ring the driver
//! fills, and a used ring the device fills, all in guest memory.  The device
//! pops descriptor chains from the available ring, validates every buffer
//! before touching it, and publishes completions on the used ring.  A queue
//! whose guest-provided structures turn out malformed is marked broken and
//! served no further.

use vstd::prelude::*;

use crate::error::VirtioError;
use crate::features::{spec_has_feature, virtio_has_feature, VIRTIO_F_RING_EVENT_IDX};
use crate::guest_mem::{spec_le16, spec_le32, spec_le64, GuestMem};

verus! {

/// Descriptor flag: the chain continues at `next`.
pub const VIRTQ_DESC_F_NEXT: u16 = 1;
/// Descriptor flag: the buffer is device-writable (guest receives into it).
pub const VIRTQ_DESC_F_WRITE: u16 = 2;
/// Available-ring flag: the driver asks for no interrupt.
pub const VRING_AVAIL_F_NO_INTERRUPT: u16 = 1;

/// Largest queue size the transport permits.
pub const MAX_QUEUE_SIZE: u16 = 32768;

/// One descriptor-table entry, as the virtio 1.0 layout defines it.
#[derive(Clone, Copy, Debug, PartialEq, Eq, Structural)]
pub struct VringDesc {
    /// Guest-physical address of the buffer.
    pub addr: u64,
    /// Length of the buffer in bytes.
    pub len: u32,
    /// `VIRTQ_DESC_F_*` flags.
    pub flags: u16,
    /// Index of the next descriptor, meaningful when `NEXT` is set.
    pub next: u16,
}

/// One guest buffer of a popped element.
#[derive(Clone, Copy, Debug, PartialEq, Eq, Structural)]
pub struct ElemIovec {
    /// Guest-physical address of the buffer.
    pub addr: u64,
    /// Length of the buffer in bytes.
    pub len: u32,
}

/// A parsed available-ring entry: the head index and the chain's buffers
/// split by direction.
pub struct Element {
    /// Head descriptor index, to be handed back through `add_used`.
    pub index: u16,
    /// Number of descriptors in the chain; 0 means the ring was empty.
    pub desc_num: u16,
    /// Guest-to-device buffers, in chain order.
    pub out_iovec: Vec<ElemIovec>,
    /// Device-to-guest buffers, in chain order.
    pub in_iovec: Vec<ElemIovec>,
}

impl Element {
    /// The element returned when the available ring holds nothing.
    pub fn empty() -> (r: Element)
        ensures
            r.desc_num == 0,
            r.index == 0,
            r.out_iovec@ == Seq::<ElemIovec>::empty(),
            r.in_iovec@ == Seq::<ElemIovec>::empty(),
    {
        Element { index: 0, desc_num: 0, out_iovec: Vec::new(), in_iovec: Vec::new() }
    }
}

/// Sum of the descriptor lengths of a chain.
pub open spec fn sum_desc_lens(c: Seq<VringDesc>) -> int
    decreases c.len(),
{
    if c.len() == 0 {
        0
    } else {
        sum_desc_lens(c.drop_last()) + c.last().len
    }
}

/// Sum of the buffer lengths of an iovec list.
pub open spec fn sum_iov_lens(s: Seq<ElemIovec>) -> int
    decreases s.len(),
{
    if s.len() == 0 {
        0
    } else {
        sum_iov_lens(s.drop_last()) + s.last().len
    }
}

/// Whether a descriptor is device-writable.
pub open spec fn is_write_desc(d: VringDesc) -> bool {
    d.flags & VIRTQ_DESC_F_WRITE != 0
}

/// The device-writable buffers of a chain, in order.
pub open spec fn in_iovs(c: Seq<VringDesc>) -> Seq<ElemIovec>
    decreases c.len(),
{
    if c.len() == 0 {
        Seq::empty()
    } else if is_write_desc(c.last()) {
        in_iovs(c.drop_last()).push(ElemIovec { addr: c.last().addr, len: c.last().len })
    } else {
        in_iovs(c.drop_last())
    }
}

/// The guest-readable buffers of a chain, in order.
pub open spec fn out_iovs(c: Seq<VringDesc>) -> Seq<ElemIovec>
    decreases c.len(),
{
    if c.len() == 0 {
        Seq::empty()
    } else if !is_write_desc(c.last()) {
        out_iovs(c.drop_last()).push(ElemIovec { addr: c.last().addr, len: c.last().len })
    } else {
        out_iovs(c.drop_last())
    }
}

/// Law: splitting a chain by direction loses no bytes — the in and out
/// buffer lists together carry exactly the chain's total length.
pub proof fn lemma_chain_len_partition(c: Seq<VringDesc>)
    ensures
        sum_iov_lens(in_iovs(c)) + sum_iov_lens(out_iovs(c)) == sum_desc_lens(c),
    decreases c.len(),
{
    if c.len() > 0 {
        lemma_chain_len_partition(c.drop_last());
        if is_write_desc(c.last()) {
            assert(in_iovs(c).drop_last() =~= in_iovs(c.drop_last()));
        } else {
            assert(out_iovs(c).drop_last() =~= out_iovs(c.drop_last()));
        }
    }
}

/// The buffer lengths of an iovec list are never negative.
pub proof fn lemma_iov_sum_nonneg(s: Seq<ElemIovec>)
    ensures
        sum_iov_lens(s) >= 0,
    decreases s.len(),
{
    if s.len() > 0 {
        lemma_iov_sum_nonneg(s.drop_last());
    }
}

/// A prefix of an iovec list sums to no more than the whole list.
pub proof fn lemma_iov_prefix_sum(s: Seq<ElemIovec>, k: int)
    requires
        0 <= k <= s.len(),
    ensures
        sum_iov_lens(s.take(k)) <= sum_iov_lens(s),
    decreases s.len(),
{
    if s.len() == 0 {
    } else if k == s.len() {
        assert(s.take(k) =~= s);
    } else {
        lemma_iov_prefix_sum(s.drop_last(), k);
        assert(s.take(k) =~= s.drop_last().take(k));
        lemma_iov_sum_nonneg(s.drop_last());
    }
}

/// Any prefixes of a chain's two buffer lists together sum within the
/// chain's total length.
pub proof fn lemma_iov_prefix_sums_bounded(c: Seq<VringDesc>, j: int, k: int)
    requires
        0 <= j <= out_iovs(c).len(),
        0 <= k <= in_iovs(c).len(),
    ensures
        0 <= sum_iov_lens(out_iovs(c).take(j)) + sum_iov_lens(in_iovs(c).take(k)) <= sum_desc_lens(
            c,
        ),
{
    lemma_chain_len_partition(c);
    lemma_iov_prefix_sum(out_iovs(c), j);
    lemma_iov_prefix_sum(in_iovs(c), k);
    lemma_iov_sum_nonneg(out_iovs(c).take(j));
    lemma_iov_sum_nonneg(in_iovs(c).take(k));
    lemma_iov_sum_nonneg(out_iovs(c));
    lemma_iov_sum_nonneg(in_iovs(c));
}

/// The first `k` buffers of an iovec list sum as their elements do.
pub proof fn lemma_iov_take_unfold(s: Seq<ElemIovec>, k: int)
    requires
        0 < k <= s.len(),
    ensures
        sum_iov_lens(s.take(k)) == sum_iov_lens(s.take(k - 1)) + s[k - 1].len,
{
    assert(s.take(k).drop_last() =~= s.take(k - 1));
    assert(s.take(k).last() == s[k - 1]);
}

/// The descriptor stored at slot `i` of the table at `table`.
pub open spec fn spec_desc_at(mem: Seq<u8>, table: u64, i: int) -> VringDesc {
    VringDesc {
        addr: spec_le64(mem, table + 16 * i),
        len: spec_le32(mem, table + 16 * i + 8),
        flags: spec_le16(mem, table + 16 * i + 12),
        next: spec_le16(mem, table + 16 * i + 14),
    }
}

/// The descriptor chain starting at slot `idx`, following `next` links,
/// or `None` if a link leaves the table or the chain exceeds `fuel` entries
/// (which, with `fuel` = queue size, catches every cycle).
pub open spec fn spec_chain_rec(
    mem: Seq<u8>,
    table: u64,
    size: u16,
    idx: u16,
    fuel: nat,
) -> Option<Seq<VringDesc>>
    decreases fuel,
{
    if fuel == 0 {
        None
    } else {
        let d = spec_desc_at(mem, table, idx as int);
        if d.flags & VIRTQ_DESC_F_NEXT == 0 {
            Some(seq![d])
        } else if d.next >= size {
            None
        } else {
            match spec_chain_rec(mem, table, size, d.next, (fuel - 1) as nat) {
                Some(rest) => Some(seq![d] + rest),
                None => None,
            }
        }
    }
}

/// Prepend a walked prefix to the rest of a chain computation: `None`
/// stays `None`.
pub open spec fn chain_append(
    prefix: Seq<VringDesc>,
    rest: Option<Seq<VringDesc>>,
) -> Option<Seq<VringDesc>> {
    match rest {
        Some(r) => Some(prefix + r),
        None => None,
    }
}

/// Whether every buffer of the chain lies inside guest memory.
pub open spec fn chain_ranges_valid(mem: Seq<u8>, c: Seq<VringDesc>) -> bool {
    forall|i: int|
        0 <= i < c.len() ==> c[i].addr + c[i].len <= mem.len()
}

/// A split virtqueue: the guest-physical addresses of its three rings and
/// the device-side cursor state.
#[derive(Clone, Copy, Debug, PartialEq, Eq, Structural)]
pub struct SplitVring {
    /// Guest-physical address of the descriptor table.
    pub desc_table: u64,
    /// Guest-physical address of the available ring.
    pub avail_ring: u64,
    /// Guest-physical address of the used ring.
    pub used_ring: u64,
    /// Queue size: a power of two, at most `MAX_QUEUE_SIZE`.
    pub size: u16,
    /// The next available-ring slot the device will read.
    pub last_avail_idx: u16,
    /// The next used-ring slot the device will fill (the published
    /// `used_idx` once written).
    pub next_used_idx: u16,
    /// `next_used_idx` as of the last notification decision.
    pub last_signal_used: u16,
    /// Set when guest-provided ring data failed validation; a broken queue
    /// is served no further until reactivation.
    pub broken: bool,
}

impl SplitVring {
    /// Structural well-formedness: the size is a nonzero power of two within
    /// the transport's limit.
    pub open spec fn wf(self) -> bool {
        &&& 0 < self.size <= MAX_QUEUE_SIZE
        &&& (self.size & (self.size - 1) as u16) == 0
    }

    /// Whether the three rings lie inside guest memory of length `mlen`.
    pub open spec fn rings_valid(self, mem: Seq<u8>) -> bool {
        &&& self.desc_table + 16 * self.size <= mem.len()
        &&& self.avail_ring + 6 + 2 * self.size <= mem.len()
        &&& self.used_ring + 6 + 8 * self.size <= mem.len()
    }

    /// A fresh queue over rings at the given guest addresses, or `None` if
    /// `size` is not a nonzero power of two within the transport's limit.
    pub fn new(desc_table: u64, avail_ring: u64, used_ring: u64, size: u16) -> (r: Option<
        SplitVring,
    >)
        ensures
            match r {
                Some(q) => {
                    &&& q.wf()
                    &&& q.desc_table == desc_table
                    &&& q.avail_ring == avail_ring
                    &&& q.used_ring == used_ring
                    &&& q.size == size
                    &&& q.last_avail_idx == 0
                    &&& q.next_used_idx == 0
                    &&& q.last_signal_used == 0
                    &&& !q.broken
                },
                None => !(0 < size <= MAX_QUEUE_SIZE && (size & (size - 1) as u16) == 0),
            },
    {
        if size == 0 || size > MAX_QUEUE_SIZE || (size & (size - 1)) != 0 {
            return None;
        }
        Some(
            SplitVring {
                desc_table,
                avail_ring,
                used_ring,
                size,
                last_avail_idx: 0,
                next_used_idx: 0,
                last_signal_used: 0,
                broken: false,
            },
        )
    }

    /// Check structural well-formedness at run time, for callers outside
    /// the verified crate that must test it before driving the queue.
    pub fn check_wf(&self) -> (r: bool)
        ensures
            r == self.wf(),
    {
        self.size > 0 && self.size <= MAX_QUEUE_SIZE && (self.size & (self.size - 1)) == 0
    }

    /// Bounds-check the three rings against guest memory.
    pub fn check_layout(&self, mem: &GuestMem) -> (r: bool)
        requires
            self.wf(),
        ensures
            r == self.rings_valid(mem@),
    {
        proof {
            mem.lemma_len_fits();
        }
        let sz = self.size as u64;
        mem.check_range(self.desc_table, 16 * sz) && mem.check_range(self.avail_ring, 6 + 2 * sz)
            && mem.check_range(self.used_ring, 6 + 8 * sz)
    }

    /// The driver's published available index.
    pub open spec fn spec_avail_idx(self, mem: Seq<u8>) -> u16 {
        spec_le16(mem, self.avail_ring + 2)
    }

    /// How many available entries the device has not yet popped.
    pub open spec fn spec_avail_len(self, mem: Seq<u8>) -> int {
        (self.spec_avail_idx(mem) - self.last_avail_idx) % 0x10000
    }

    /// The available-ring entry the device reads for cursor position `i`.
    pub open spec fn spec_avail_slot(self, mem: Seq<u8>, i: u16) -> u16 {
        spec_le16(mem, self.avail_ring + 4 + 2 * ((i as int) % (self.size as int)))
    }

    /// The head descriptor index of the next chain to pop.
    pub open spec fn spec_head(self, mem: Seq<u8>) -> u16 {
        self.spec_avail_slot(mem, self.last_avail_idx)
    }

    /// The next chain to pop, or `None` if its structure is invalid.
    pub open spec fn spec_chain(self, mem: Seq<u8>) -> Option<Seq<VringDesc>> {
        if self.spec_head(mem) < self.size {
            spec_chain_rec(mem, self.desc_table, self.size, self.spec_head(mem), self.size as nat)
        } else {
            None
        }
    }

    /// Whether the next chain to pop is fully valid: structurally sound,
    /// every buffer inside guest memory, total length a driver may use.
    pub open spec fn spec_pop_valid(self, mem: Seq<u8>) -> bool {
        match self.spec_chain(mem) {
            Some(c) => chain_ranges_valid(mem, c) && sum_desc_lens(c) <= 0xFFFF_FFFF,
            None => false,
        }
    }

    /// The driver's `used_event` threshold (meaningful under event-index).
    pub open spec fn spec_used_event(self, mem: Seq<u8>) -> u16 {
        spec_le16(mem, self.avail_ring + 4 + 2 * (self.size as int))
    }

    /// The device configuration and used-side cursors of `self` equal those
    /// of `m` (everything but `last_avail_idx` and `broken`).
    pub open spec fn same_but_avail(self, m: SplitVring) -> bool {
        &&& self.desc_table == m.desc_table
        &&& self.avail_ring == m.avail_ring
        &&& self.used_ring == m.used_ring
        &&& self.size == m.size
        &&& self.next_used_idx == m.next_used_idx
        &&& self.last_signal_used == m.last_signal_used
    }

    /// How many available entries the device has not yet popped.
    pub fn avail_ring_len(&self, mem: &GuestMem) -> (r: u16)
        requires
            self.wf(),
            self.rings_valid(mem@),
        ensures
            r == self.spec_avail_len(mem@),
    {
        proof {
            mem.lemma_len_fits();
        }
        let avail_idx = mem.read_u16(self.avail_ring + 2);
        avail_idx.wrapping_sub(self.last_avail_idx)
    }

    /// Rewind the available cursor by one entry: the device hands back a
    /// chain it popped but could not serve.
    pub fn push_back(&mut self)
        ensures
            final(self).last_avail_idx == (old(self).last_avail_idx - 1) % 0x10000,
            final(self).same_but_avail(*old(self)),
            final(self).broken == old(self).broken,
    {
        self.last_avail_idx = self.last_avail_idx.wrapping_sub(1);
    }

    /// Read descriptor `i` of the table.
    fn read_desc(&self, mem: &GuestMem, i: u16) -> (r: VringDesc)
        requires
            self.wf(),
            self.rings_valid(mem@),
            i < self.size,
        ensures
            r == spec_desc_at(mem@, self.desc_table, i as int),
    {
        proof {
            mem.lemma_len_fits();
        }
        let base = self.desc_table + 16 * (i as u64);
        VringDesc {
            addr: mem.read_u64(base),
            len: mem.read_u32(base + 8),
            flags: mem.read_u16(base + 12),
            next: mem.read_u16(base + 14),
        }
    }

    /// Pop the next available descriptor chain.
    ///
    /// Returns an element with `desc_num == 0` when the ring is empty; a
    /// fully parsed element, advancing the available cursor, when the chain
    /// is valid; and an error, marking the queue broken, when the guest's
    /// ring data fails validation.
    #[verifier::loop_isolation(false)]
    pub fn pop_avail(&mut self, mem: &GuestMem, features: u64) -> (r: Result<Element, VirtioError>)
        requires
            old(self).wf(),
            old(self).rings_valid(mem@),
        ensures
            final(self).same_but_avail(*old(self)),
            old(self).spec_avail_len(mem@) == 0 ==> {
                &&& r is Ok
                &&& r->Ok_0.desc_num == 0
                &&& *final(self) == *old(self)
            },
            old(self).spec_avail_len(mem@) != 0 && old(self).spec_pop_valid(mem@) ==> {
                let c = old(self).spec_chain(mem@)->Some_0;
                &&& r is Ok
                &&& r->Ok_0.index == old(self).spec_head(mem@)
                &&& r->Ok_0.desc_num == c.len()
                &&& r->Ok_0.in_iovec@ == in_iovs(c)
                &&& r->Ok_0.out_iovec@ == out_iovs(c)
                &&& final(self).last_avail_idx == (old(self).last_avail_idx + 1) % 0x10000
                &&& final(self).broken == old(self).broken
            },
            old(self).spec_avail_len(mem@) != 0 && !old(self).spec_pop_valid(mem@) ==> {
                &&& r is Err
                &&& final(self).broken
                &&& final(self).last_avail_idx == old(self).last_avail_idx
            },
    {
        proof {
            mem.lemma_len_fits();
        }
        let avail_len = self.avail_ring_len(mem);
        if avail_len == 0 {
            return Ok(Element::empty());
        }
        let slot = self.last_avail_idx % self.size;
        let head = mem.read_u16(self.avail_ring + 4 + 2 * (slot as u64));
        if head >= self.size {
            self.broken = true;
            return Err(VirtioError::QueueIndex(head, self.size));
        }
        let ghost full = spec_chain_rec(
            mem@,
            self.desc_table,
            self.size,
            head,
            self.size as nat,
        );

        let mut chain: Vec<VringDesc> = Vec::new();
        let mut cur: u16 = head;
        let mut done = false;
        let mut failed = false;
        while !done && !failed
            invariant
                self.wf(),
                self.rings_valid(mem@),
                full == spec_chain_rec(mem@, self.desc_table, self.size, head, self.size as nat),
                cur < self.size,
                chain@.len() <= self.size,
                !done || !failed,
                (!done && !failed) ==> chain@.len() < self.size,
                (!done && !failed) ==> full == chain_append(
                    chain@,
                    spec_chain_rec(
                        mem@,
                        self.desc_table,
                        self.size,
                        cur,
                        (self.size - chain@.len()) as nat,
                    ),
                ),
                done ==> full == Some(chain@),
                failed ==> full is None,
            decreases self.size - chain@.len(),
        {
            let ghost fuel = (self.size - chain@.len()) as nat;
            let ghost prefix = chain@;
            let d = self.read_desc(mem, cur);
            chain.push(d);
            proof {
                assert(fuel > 0);
                assert(full == chain_append(
                    prefix,
                    spec_chain_rec(mem@, self.desc_table, self.size, cur, fuel),
                ));
            }
            if d.flags & VIRTQ_DESC_F_NEXT == 0 {
                proof {
                    assert(spec_chain_rec(mem@, self.desc_table, self.size, cur, fuel) == Some(
                        seq![d],
                    ));
                    assert(prefix + seq![d] =~= chain@);
                    assert(full == Some(chain@));
                }
                done = true;
            } else if d.next >= self.size {
                proof {
                    assert(spec_chain_rec(mem@, self.desc_table, self.size, cur, fuel) is None);
                    assert(full is None);
                }
                failed = true;
            } else if chain.len() == self.size as usize {
                proof {
                    assert(spec_chain_rec(
                        mem@,
                        self.desc_table,
                        self.size,
                        d.next,
                        (fuel - 1) as nat,
                    ) is None);
                    assert(spec_chain_rec(mem@, self.desc_table, self.size, cur, fuel) is None);
                    assert(full is None);
                }
                failed = true;
            } else {
                proof {
                    let sub = spec_chain_rec(
                        mem@,
                        self.desc_table,
                        self.size,
                        d.next,
                        (fuel - 1) as nat,
                    );
                    if sub is Some {
                        let rest2 = sub->Some_0;
                        assert(spec_chain_rec(mem@, self.desc_table, self.size, cur, fuel) == Some(
                            seq![d] + rest2,
                        ));
                        assert(prefix + (seq![d] + rest2) =~= chain@ + rest2);
                        assert(full == chain_append(chain@, sub));
                    } else {
                        assert(spec_chain_rec(mem@, self.desc_table, self.size, cur, fuel)
                            is None);
                        assert(full is None);
                        assert(full == chain_append(chain@, sub));
                    }
                }
                cur = d.next;
            }
        }
        if failed {
            self.broken = true;
            return Err(VirtioError::QueueDesc);
        }
        // The chain's structure is sound; now validate its buffers and
        // classify them by direction.
        let ghost c = chain@;
        let mut in_iovec: Vec<ElemIovec> = Vec::new();
        let mut out_iovec: Vec<ElemIovec> = Vec::new();
        let mut total: u64 = 0;
        let mut k: usize = 0;
        let n = chain.len();
        while k < n
            invariant
                n == c.len(),
                chain@ == c,
                *self == *old(self),
                k <= n,
                n <= self.size <= MAX_QUEUE_SIZE,
                self.rings_valid(mem@),
                chain_ranges_valid(mem@, c.take(k as int)),
                total == sum_desc_lens(c.take(k as int)),
                in_iovec@ == in_iovs(c.take(k as int)),
                out_iovec@ == out_iovs(c.take(k as int)),
                total <= k * 0xFFFF_FFFF,
            decreases n - k,
        {
            let d = chain[k];
            proof {
                assert(c.take(k + 1).drop_last() =~= c.take(k as int));
                assert(c.take(k + 1).last() == d);
                assert((k + 1) * 0xFFFF_FFFF == k * 0xFFFF_FFFF + 0xFFFF_FFFF) by (nonlinear_arith);
                assert(self.size * 0xFFFF_FFFF <= 32768 * 0xFFFF_FFFF) by (nonlinear_arith)
                    requires
                        self.size <= 32768,
                ;
                mem.lemma_len_fits();
            }
            if !mem.check_range(d.addr, d.len as u64) {
                self.broken = true;
                return Err(VirtioError::QueueDesc);
            }
            total = total + d.len as u64;
            if d.flags & VIRTQ_DESC_F_WRITE != 0 {
                in_iovec.push(ElemIovec { addr: d.addr, len: d.len });
            } else {
                out_iovec.push(ElemIovec { addr: d.addr, len: d.len });
            }
            k = k + 1;
        }
        proof {
            assert(c.take(n as int) =~= c);
        }
        if total > 0xFFFF_FFFF {
            self.broken = true;
            return Err(VirtioError::ChainOverflow);
        }
        self.last_avail_idx = self.last_avail_idx.wrapping_add(1);
        Ok(Element { index: head, desc_num: n as u16, out_iovec, in_iovec })
    }

    /// Publish a completed chain on the used ring: write the element and the
    /// new used index, advancing the device's used cursor by one (mod 2^16).
    pub fn add_used(&mut self, mem: &mut GuestMem, index: u16, len: u32) -> (r: Result<
        (),
        VirtioError,
    >)
        requires
            old(self).wf(),
            old(self).rings_valid(old(mem)@),
        ensures
            final(self).same_but_avail_used(*old(self)),
            index >= old(self).size ==> {
                &&& r is Err
                &&& *final(self) == *old(self)
                &&& final(mem)@ == old(mem)@
            },
            index < old(self).size ==> {
                let entry = old(self).used_ring + 4 + 8 * ((old(self).next_used_idx as int) % (
                old(self).size as int));
                &&& r is Ok
                &&& final(self).next_used_idx == (old(self).next_used_idx + 1) % 0x10000
                &&& final(self).broken == old(self).broken
                &&& final(self).last_avail_idx == old(self).last_avail_idx
                &&& final(self).last_signal_used == old(self).last_signal_used
                &&& final(mem)@.len() == old(mem)@.len()
                &&& spec_le32(final(mem)@, entry) == index
                &&& spec_le32(final(mem)@, entry + 4) == len
                &&& spec_le16(final(mem)@, old(self).used_ring + 2) == final(self).next_used_idx
                &&& (forall|i: int|
                    0 <= i < old(mem)@.len() && !(entry <= i < entry + 8) && !(old(self).used_ring
                        + 2 <= i < old(self).used_ring + 4) ==> final(mem)@[i] == old(mem)@[i])
            },
    {
        proof {
            old(mem).lemma_len_fits();
        }
        if index >= self.size {
            return Err(VirtioError::QueueIndex(index, self.size));
        }
        let slot = self.next_used_idx % self.size;
        let entry = self.used_ring + 4 + 8 * (slot as u64);
        mem.write_u32(entry, index as u32);
        mem.write_u32(entry + 4, len);
        let new_idx = self.next_used_idx.wrapping_add(1);
        mem.write_u16(self.used_ring + 2, new_idx);
        self.next_used_idx = new_idx;
        Ok(())
    }

    /// The configuration and available-side cursor of `self` equal those of
    /// `m` (everything but `next_used_idx`, `last_signal_used`, `broken`).
    pub open spec fn same_but_avail_used(self, m: SplitVring) -> bool {
        &&& self.desc_table == m.desc_table
        &&& self.avail_ring == m.avail_ring
        &&& self.used_ring == m.used_ring
        &&& self.size == m.size
    }

    /// Whether publishing at `new_idx` must interrupt a driver whose
    /// `used_event` threshold is `event`, given the previous notification
    /// position `old_idx`: true iff `event` lies in the half-open modular
    /// interval `(old_idx, new_idx]`.
    pub open spec fn spec_need_event(event: u16, new_idx: u16, old_idx: u16) -> bool {
        (new_idx - event - 1) % 0x10000 < (new_idx - old_idx) % 0x10000
    }

    /// Decide whether to raise a vring interrupt after publishing used
    /// entries, and remember the position of this decision.
    ///
    /// Without event-index the driver's `NO_INTERRUPT` flag alone gates the
    /// interrupt; with event-index the driver's `used_event` threshold must
    /// lie in the window of entries published since the last decision.
    pub fn should_notify(&mut self, mem: &GuestMem, features: u64) -> (r: bool)
        requires
            old(self).wf(),
            old(self).rings_valid(mem@),
        ensures
            final(self).same_but_avail_used(*old(self)),
            final(self).last_avail_idx == old(self).last_avail_idx,
            final(self).next_used_idx == old(self).next_used_idx,
            final(self).broken == old(self).broken,
            spec_has_feature(features, VIRTIO_F_RING_EVENT_IDX) ==> {
                &&& r == SplitVring::spec_need_event(
                    old(self).spec_used_event(mem@),
                    old(self).next_used_idx,
                    old(self).last_signal_used,
                )
                &&& final(self).last_signal_used == old(self).next_used_idx
            },
            !spec_has_feature(features, VIRTIO_F_RING_EVENT_IDX) ==> {
                &&& r == (spec_le16(mem@, old(self).avail_ring as int)
                    & VRING_AVAIL_F_NO_INTERRUPT == 0)
                &&& final(self).last_signal_used == old(self).last_signal_used
            },
    {
        proof {
            mem.lemma_len_fits();
        }
        if virtio_has_feature(features, VIRTIO_F_RING_EVENT_IDX) {
            let event = mem.read_u16(self.avail_ring + 4 + 2 * (self.size as u64));
            let new_idx = self.next_used_idx;
            let old_idx = self.last_signal_used;
            self.last_signal_used = new_idx;
            new_idx.wrapping_sub(event).wrapping_sub(1) < new_idx.wrapping_sub(old_idx)
        } else {
            let flags = mem.read_u16(self.avail_ring);
            flags & VRING_AVAIL_F_NO_INTERRUPT == 0
        }
    }
}

/// One used-ring publication of `(index, len)` followed by the notify
/// decision of section 4.2: `q0`/`m0` are the queue and guest memory before
/// `add_used` runs, `q1`/`m1` after `should_notify` ran, and `notify` its
/// answer.  This pins the entry bytes, the published index, the frame on
/// every other byte, and the interrupt decision.
pub open spec fn spec_publish_and_notify(
    q0: SplitVring,
    m0: Seq<u8>,
    q1: SplitVring,
    m1: Seq<u8>,
    index: u16,
    len: u32,
    features: u64,
    notify: bool,
) -> bool {
    let entry = q0.used_ring + 4 + 8 * ((q0.next_used_idx as int) % (q0.size as int));
    &&& q1.same_but_avail_used(q0)
    &&& q1.last_avail_idx == q0.last_avail_idx
    &&& q1.broken == q0.broken
    &&& q1.next_used_idx == (q0.next_used_idx + 1) % 0x10000
    &&& m1.len() == m0.len()
    &&& spec_le32(m1, entry) == index
    &&& spec_le32(m1, entry + 4) == len
    &&& spec_le16(m1, q0.used_ring + 2) == q1.next_used_idx
    &&& (forall|i: int|
        0 <= i < m0.len() && !(entry <= i < entry + 8) && !(q0.used_ring + 2 <= i < q0.used_ring
            + 4) ==> m1[i] == m0[i])
    &&& (spec_has_feature(features, VIRTIO_F_RING_EVENT_IDX) ==> {
        &&& notify == SplitVring::spec_need_event(
            spec_le16(m1, q0.avail_ring + 4 + 2 * (q0.size as int)),
            q1.next_used_idx,
            q0.last_signal_used,
        )
        &&& q1.last_signal_used == q1.next_used_idx
    })
    &&& (!spec_has_feature(features, VIRTIO_F_RING_EVENT_IDX) ==> {
        &&& notify == (spec_le16(m1, q0.avail_ring as int) & VRING_AVAIL_F_NO_INTERRUPT == 0)
        &&& q1.last_signal_used == q0.last_signal_used
    })
}

/// Law: over any run of used-ring publications, the used index advances by
/// exactly the number of calls, modulo 2^16.  `idxs` is the trace of
/// `next_used_idx` values, one per state, each step being one `add_used`.
pub proof fn lemma_used_idx_advances(idxs: Seq<u16>)
    requires
        idxs.len() >= 1,
        forall|i: int| 0 <= i < idxs.len() - 1 ==> idxs[i + 1] == (#[trigger] idxs[i] + 1) % 0x10000,
    ensures
        idxs.last() == (idxs[0] + idxs.len() - 1) % 0x10000,
    decreases idxs.len(),
{
    if idxs.len() == 1 {
        assert(idxs.last() == idxs[0]);
        assert((idxs[0] + 0) % 0x10000 == idxs[0]);
    } else {
        let prefix = idxs.drop_last();
        let n = idxs.len() as int;
        assert forall|i: int|
            0 <= i < prefix.len() - 1 implies prefix[i + 1] == (#[trigger] prefix[i] + 1)
            % 0x10000 by {
            assert(prefix[i] == idxs[i]);
            assert(prefix[i + 1] == idxs[i + 1]);
            assert(idxs[i + 1] == (idxs[i] + 1) % 0x10000);
        }
        lemma_used_idx_advances(prefix);
        assert(prefix.last() == idxs[n - 2]);
        assert(idxs[n - 2] == (idxs[0] + n - 2) % 0x10000);
        assert(idxs[n - 1] == (idxs[n - 2] + 1) % 0x10000);
        vstd::arithmetic::div_mod::lemma_add_mod_noop(idxs[0] + n - 2, 1, 0x10000);
        assert(1int % 0x10000 == 1);
        assert(((idxs[0] + n - 2) % 0x10000 + 1) % 0x10000 == (idxs[0] + n - 1) % 0x10000);
        assert((idxs[n - 2] + 1) % 0x10000 == ((idxs[0] + n - 2) % 0x10000 + 1) % 0x10000);
    }
}

} // verus!
