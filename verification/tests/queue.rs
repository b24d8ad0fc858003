use vmm_core::guest_mem::GuestMem;
use vmm_core::queue::{SplitVring, VIRTQ_DESC_F_NEXT, VIRTQ_DESC_F_WRITE};

const DESC_TABLE: u64 = 0x100;
const AVAIL_RING: u64 = 0x300;
const USED_RING: u64 = 0x400;
const QUEUE_SIZE: u16 = 4;

fn ring(mem_size: usize) -> (GuestMem, SplitVring) {
    let mem = GuestMem::new(mem_size);
    let q = SplitVring::new(DESC_TABLE, AVAIL_RING, USED_RING, QUEUE_SIZE).unwrap();
    assert!(q.check_layout(&mem));
    (mem, q)
}

fn write_desc(mem: &mut GuestMem, i: u16, addr: u64, len: u32, flags: u16, next: u16) {
    let base = DESC_TABLE + 16 * (i as u64);
    mem.write_u64(base, addr);
    mem.write_u32(base + 8, len);
    mem.write_u16(base + 12, flags);
    mem.write_u16(base + 14, next);
}

fn publish_avail(mem: &mut GuestMem, slot: u16, head: u16, new_idx: u16) {
    mem.write_u16(AVAIL_RING + 4 + 2 * ((slot % QUEUE_SIZE) as u64), head);
    mem.write_u16(AVAIL_RING + 2, new_idx);
}

#[test]
fn pop_avail_splits_chain_by_direction() {
    let (mut mem, mut q) = ring(0x1000);
    // A chain of two guest-readable buffers and one device-writable buffer.
    write_desc(&mut mem, 0, 0x800, 10, VIRTQ_DESC_F_NEXT, 1);
    write_desc(&mut mem, 1, 0x900, 20, VIRTQ_DESC_F_NEXT, 2);
    write_desc(&mut mem, 2, 0xa00, 30, VIRTQ_DESC_F_WRITE, 0);
    publish_avail(&mut mem, 0, 0, 1);

    let elem = q.pop_avail(&mem, 0).unwrap();
    assert_eq!(elem.index, 0);
    assert_eq!(elem.desc_num, 3);
    assert_eq!(elem.out_iovec.len(), 2);
    assert_eq!(elem.in_iovec.len(), 1);
    assert_eq!(elem.out_iovec[0].addr, 0x800);
    assert_eq!(elem.out_iovec[0].len, 10);
    assert_eq!(elem.out_iovec[1].addr, 0x900);
    assert_eq!(elem.out_iovec[1].len, 20);
    assert_eq!(elem.in_iovec[0].addr, 0xa00);
    assert_eq!(elem.in_iovec[0].len, 30);
    // The two directions together carry the chain's total length.
    let total: u32 = 10 + 20 + 30;
    let split: u32 = elem.out_iovec.iter().map(|io| io.len).sum::<u32>()
        + elem.in_iovec.iter().map(|io| io.len).sum::<u32>();
    assert_eq!(split, total);
    assert_eq!(q.last_avail_idx, 1);
    assert!(!q.broken);
}

#[test]
fn pop_avail_empty_ring_returns_no_descriptors() {
    let (mem, mut q) = ring(0x1000);
    let elem = q.pop_avail(&mem, 0).unwrap();
    assert_eq!(elem.desc_num, 0);
    assert_eq!(q.last_avail_idx, 0);
}

#[test]
fn pop_avail_marks_queue_broken_on_bad_link() {
    let (mut mem, mut q) = ring(0x1000);
    // The chain names a next descriptor outside the table.
    write_desc(&mut mem, 0, 0x800, 10, VIRTQ_DESC_F_NEXT, 9);
    publish_avail(&mut mem, 0, 0, 1);
    assert!(q.pop_avail(&mem, 0).is_err());
    assert!(q.broken);
}

#[test]
fn pop_avail_marks_queue_broken_on_cycle() {
    let (mut mem, mut q) = ring(0x1000);
    // Descriptors 0 and 1 link to each other forever.
    write_desc(&mut mem, 0, 0x800, 10, VIRTQ_DESC_F_NEXT, 1);
    write_desc(&mut mem, 1, 0x900, 10, VIRTQ_DESC_F_NEXT, 0);
    publish_avail(&mut mem, 0, 0, 1);
    assert!(q.pop_avail(&mem, 0).is_err());
    assert!(q.broken);
}

#[test]
fn pop_avail_marks_queue_broken_on_out_of_bounds_buffer() {
    let (mut mem, mut q) = ring(0x1000);
    write_desc(&mut mem, 0, 0xff0, 0x100, 0, 0);
    publish_avail(&mut mem, 0, 0, 1);
    assert!(q.pop_avail(&mem, 0).is_err());
    assert!(q.broken);
}

#[test]
fn add_used_publishes_entry_and_advances_index() {
    let (mut mem, mut q) = ring(0x1000);
    assert_eq!(q.next_used_idx, 0);
    q.add_used(&mut mem, 2, 123).unwrap();
    assert_eq!(q.next_used_idx, 1);
    // Entry 0 of the used ring holds (id 2, len 123); the index is 1.
    assert_eq!(mem.read_u32(USED_RING + 4), 2);
    assert_eq!(mem.read_u32(USED_RING + 8), 123);
    assert_eq!(mem.read_u16(USED_RING + 2), 1);

    q.add_used(&mut mem, 3, 7).unwrap();
    assert_eq!(q.next_used_idx, 2);
    assert_eq!(mem.read_u16(USED_RING + 2), 2);
}

#[test]
fn add_used_rejects_out_of_table_index() {
    let (mut mem, mut q) = ring(0x1000);
    assert!(q.add_used(&mut mem, QUEUE_SIZE, 0).is_err());
    assert_eq!(q.next_used_idx, 0);
}

#[test]
fn used_idx_advances_by_call_count_modulo() {
    let (mut mem, mut q) = ring(0x1000);
    for i in 0..10 {
        q.add_used(&mut mem, (i % 4) as u16, i as u32).unwrap();
    }
    assert_eq!(q.next_used_idx, 10);
    assert_eq!(mem.read_u16(USED_RING + 2), 10);
}

#[test]
fn should_notify_follows_driver_flag_without_event_idx() {
    let (mut mem, mut q) = ring(0x1000);
    // Flags word 0: interrupts wanted.
    mem.write_u16(AVAIL_RING, 0);
    assert!(q.should_notify(&mem, 0));
    // NO_INTERRUPT set: stay silent.
    mem.write_u16(AVAIL_RING, 1);
    assert!(!q.should_notify(&mem, 0));
}

#[test]
fn should_notify_honours_used_event_threshold() {
    let (mut mem, mut q) = ring(0x1000);
    let features: u64 = 1 << 29;
    // used_event sits past the avail ring entries.
    let used_event_addr = AVAIL_RING + 4 + 2 * (QUEUE_SIZE as u64);

    // One publication; the driver asked to be told at position 0.
    q.add_used(&mut mem, 0, 1).unwrap();
    mem.write_u16(used_event_addr, 0);
    assert!(q.should_notify(&mem, features));

    // Nothing new since the last decision: no interrupt.
    assert!(!q.should_notify(&mem, features));

    // Two more publications, threshold far ahead: no interrupt.
    q.add_used(&mut mem, 1, 1).unwrap();
    q.add_used(&mut mem, 2, 1).unwrap();
    mem.write_u16(used_event_addr, 100);
    assert!(!q.should_notify(&mem, features));
}

#[test]
fn push_back_rewinds_the_available_cursor() {
    let (mut mem, mut q) = ring(0x1000);
    write_desc(&mut mem, 0, 0x800, 10, 0, 0);
    publish_avail(&mut mem, 0, 0, 1);
    let elem = q.pop_avail(&mem, 0).unwrap();
    assert_eq!(elem.desc_num, 1);
    assert_eq!(q.last_avail_idx, 1);
    q.push_back();
    assert_eq!(q.last_avail_idx, 0);
    // The same chain can be popped again.
    let elem2 = q.pop_avail(&mem, 0).unwrap();
    assert_eq!(elem2.index, 0);
    assert_eq!(elem2.desc_num, 1);
}

#[test]
fn avail_ring_len_counts_pending_entries() {
    let (mut mem, q) = ring(0x1000);
    assert_eq!(q.avail_ring_len(&mem), 0);
    publish_avail(&mut mem, 0, 0, 3);
    assert_eq!(q.avail_ring_len(&mem), 3);
}

#[test]
fn vring_new_rejects_bad_sizes() {
    assert!(SplitVring::new(0, 0, 0, 0).is_none());
    assert!(SplitVring::new(0, 0, 0, 3).is_none());
    assert!(SplitVring::new(0, 0, 0, 32769).is_none());
    assert!(SplitVring::new(0, 0, 0, 32768).is_some());
    assert!(SplitVring::new(0, 0, 0, 256).is_some());
}
