use vmm_core::features::{
    virtio_has_feature, TUN_F_CSUM, TUN_F_TSO4, TUN_F_TSO6, TUN_F_TSO_ECN, TUN_F_UFO,
    VIRTIO_NET_F_CTRL_VQ, VIRTIO_NET_F_MAC, VIRTIO_NET_F_MQ,
};
use vmm_core::guest_mem::GuestMem;
use vmm_core::net::{
    build_device_config_space, check_mq, create_tap, get_tap_offload_flags, parse_tun_flags,
    DeviceState, Net, NetCtrlHandler, NetworkInterfaceConfig, RxIoResult, RxStep, VirtioNetConfig,
};
use vmm_core::notifier::{HandlerKind, NotifierOperation};
use vmm_core::queue::{SplitVring, VIRTQ_DESC_F_NEXT, VIRTQ_DESC_F_WRITE};

#[test]
fn test_net_init() {
    // Fresh device: nothing negotiated, nothing planned.
    let mut net = Net::default();
    assert_eq!(net.state.device_features, 0);
    assert_eq!(net.state.driver_features, 0);

    assert_eq!(net.taps.is_none(), true);
    assert_eq!(net.net_cfg.mac.is_none(), true);
    assert_eq!(net.net_cfg.tap_fds.is_none(), true);
    assert_eq!(net.net_cfg.vhost_type.is_none(), true);
    assert_eq!(net.net_cfg.vhost_fds.is_none(), true);

    // Realize and read the device identity.
    net.realize().unwrap();
    assert_eq!(net.device_type(), 1);
    assert_eq!(net.queue_num(), 2);
    assert_eq!(net.queue_size(), 256);

    // Config space: a write that is not a full MAC store changes nothing.
    let write_data: Vec<u8> = vec![7; 4];
    let mut random_data: Vec<u8> = vec![0; 4];
    let mut origin_data: Vec<u8> = vec![0; 4];
    origin_data.copy_from_slice(&net.read_config(0x00, 4).unwrap());

    net.write_config(0x00, &write_data).unwrap();
    random_data.copy_from_slice(&net.read_config(0x00, 4).unwrap());
    assert_ne!(random_data, write_data);

    net.write_config(0x00, &origin_data).unwrap();

    // Boundary conditions of offset and length.
    let len = net.state.config_space.to_bytes().len() as u64;

    let offset: u64 = len + 1;
    assert_eq!(net.read_config(offset, 10).is_ok(), false);

    let offset: u64 = len;
    assert_eq!(net.read_config(offset, 10).is_ok(), false);

    let offset: u64 = 0;
    assert_eq!(net.read_config(offset, 10).is_ok(), true);

    let offset: u64 = len;
    let data: Vec<u8> = vec![0; 1];
    assert_eq!(net.write_config(offset, &data).is_ok(), true);

    let offset: u64 = len - 1;
    let data: Vec<u8> = vec![0; 1];
    assert_eq!(net.write_config(offset, &data).is_ok(), true);

    let offset: u64 = 0;
    let data: Vec<u8> = vec![0; len as usize];
    assert_eq!(net.write_config(offset, &data).is_ok(), true);
}

#[test]
fn realize_with_multiqueue_offers_mq_features() {
    let mut cfg = NetworkInterfaceConfig::new();
    cfg.queues = 8;
    cfg.mq = true;
    let mut net = Net::new(cfg);
    net.realize().unwrap();
    assert!(virtio_has_feature(net.state.device_features, VIRTIO_NET_F_MQ));
    assert!(virtio_has_feature(
        net.state.device_features,
        VIRTIO_NET_F_CTRL_VQ
    ));
    assert_eq!(net.state.config_space.max_virtqueue_pairs, 4);
    assert_eq!(net.queue_num(), 9);
}

#[test]
fn build_config_space_reads_the_mac() {
    let mut cfg = VirtioNetConfig::new();
    let features = build_device_config_space(&mut cfg, "52:54:00:12:34:56");
    assert_eq!(features, 1u64 << VIRTIO_NET_F_MAC);
    assert_eq!(cfg.mac, [0x52, 0x54, 0x00, 0x12, 0x34, 0x56]);

    // Fewer than six tokens are zero-padded, as a driver writing a short
    // address expects.
    let mut cfg2 = VirtioNetConfig::new();
    assert_eq!(
        build_device_config_space(&mut cfg2, "52:54:1"),
        1u64 << VIRTIO_NET_F_MAC
    );
    assert_eq!(cfg2.mac, [0x52, 0x54, 0x01, 0, 0, 0]);

    // A malformed address earns nothing and changes nothing.
    let mut cfg3 = VirtioNetConfig::new();
    assert_eq!(build_device_config_space(&mut cfg3, "xx:54:00:12:34:56"), 0);
    assert_eq!(build_device_config_space(&mut cfg3, "1:2:3:4:5:6:7"), 0);
    assert_eq!(cfg3.mac, [0, 0, 0, 0, 0, 0]);
}

#[test]
fn offload_flags_follow_negotiated_features() {
    // GUEST_CSUM (bit 1) and GUEST_TSO4 (bit 7).
    let features: u64 = (1 << 1) | (1 << 7);
    assert_eq!(get_tap_offload_flags(features), TUN_F_CSUM | TUN_F_TSO4);
    // Everything on.
    let features: u64 = (1 << 1) | (1 << 7) | (1 << 8) | (1 << 9) | (1 << 10);
    assert_eq!(
        get_tap_offload_flags(features),
        TUN_F_CSUM | TUN_F_TSO4 | TUN_F_TSO6 | TUN_F_TSO_ECN | TUN_F_UFO
    );
    assert_eq!(get_tap_offload_flags(0), 0);
}

#[test]
fn check_mq_matches_tap_capability_to_queue_pairs() {
    // Multiqueue tap with several pairs: fine.
    assert!(check_mq(0x0100, 4).is_ok());
    // Single-queue tap with one pair: fine.
    assert!(check_mq(0x0000, 1).is_ok());
    // Mismatches are refused, naming the tap's capability and the count.
    assert_eq!(
        check_mq(0x0100, 1).unwrap_err(),
        vmm_core::error::NetError::TapMqConflict(true, 1)
    );
    assert_eq!(
        check_mq(0x0000, 4).unwrap_err(),
        vmm_core::error::NetError::TapMqConflict(false, 4)
    );
}

#[test]
fn tun_flags_text_parses_with_prefix_and_whitespace() {
    assert_eq!(parse_tun_flags("0x5102\n"), Some(0x5102));
    assert_eq!(parse_tun_flags("  0x100 "), Some(0x100));
    assert_eq!(parse_tun_flags("1002"), Some(0x1002));
    assert_eq!(parse_tun_flags("zz"), None);
}

#[test]
fn create_tap_plans_one_tap_per_pair() {
    assert!(create_tap(None, None, 4).unwrap().is_none());

    let fds = vec![10, 11, 12, 13];
    let taps = create_tap(Some(&fds), None, 4).unwrap().unwrap();
    assert_eq!(taps.len(), 4);
    for (i, tap) in taps.iter().enumerate() {
        assert_eq!(tap.fd, fds[i]);
    }

    // Too few descriptors for the pairs.
    assert!(create_tap(Some(&fds), None, 5).is_err());

    let by_name = create_tap(None, Some("tap0"), 2).unwrap().unwrap();
    assert_eq!(by_name.len(), 2);
    assert!(by_name.iter().all(|t| t.fd == -1));
}

#[test]
fn lifecycle_transitions_are_enforced() {
    let mut net = Net::default();
    assert_eq!(net.dev_state, DeviceState::Uninit);
    // Activation before realize is refused.
    assert!(net.activate(Vec::new(), Vec::new()).is_err());
    net.realize().unwrap();
    assert_eq!(net.dev_state, DeviceState::Created);
    assert!(net.deactivate().is_err());
    net.activate(Vec::new(), Vec::new()).unwrap();
    assert_eq!(net.dev_state, DeviceState::Activated);
    // Unrealize of an activated device is refused.
    assert!(net.unrealize().is_err());
    net.deactivate().unwrap();
    assert_eq!(net.dev_state, DeviceState::Deactivated);
    net.activate(Vec::new(), Vec::new()).unwrap();
    net.deactivate().unwrap();
    net.unrealize().unwrap();
    assert_eq!(net.dev_state, DeviceState::Uninit);
}

const DESC_TABLE: u64 = 0x100;
const AVAIL_RING: u64 = 0x300;
const USED_RING: u64 = 0x400;
const QUEUE_SIZE: u16 = 4;

fn test_ring(mem: &GuestMem) -> SplitVring {
    let q = SplitVring::new(DESC_TABLE, AVAIL_RING, USED_RING, QUEUE_SIZE).unwrap();
    assert!(q.check_layout(mem));
    q
}

fn write_desc(mem: &mut GuestMem, i: u16, addr: u64, len: u32, flags: u16, next: u16) {
    let base = DESC_TABLE + 16 * (i as u64);
    mem.write_u64(base, addr);
    mem.write_u32(base + 8, len);
    mem.write_u16(base + 12, flags);
    mem.write_u16(base + 14, next);
}

fn publish_avail(mem: &mut GuestMem, slot: u16, head: u16, new_idx: u16) {
    mem.write_u16(AVAIL_RING + 4 + 2 * ((slot % QUEUE_SIZE) as u64), head);
    mem.write_u16(AVAIL_RING + 2, new_idx);
}

/// Write a multiqueue control request into guest memory: a class/command
/// header, a queue-pair count, and a status buffer, chained in that order.
fn publish_ctrl_request(mem: &mut GuestMem, class: u8, cmd: u8, pairs: u16, avail_idx: u16) {
    mem.write_u8(0x800, class);
    mem.write_u8(0x801, cmd);
    mem.write_u16(0x900, pairs);
    mem.write_u8(0xa00, 0xEE); // stale status byte, must be overwritten
    write_desc(mem, 0, 0x800, 2, VIRTQ_DESC_F_NEXT, 1);
    write_desc(mem, 1, 0x900, 2, VIRTQ_DESC_F_NEXT, 2);
    write_desc(mem, 2, 0xa00, 1, VIRTQ_DESC_F_WRITE, 0);
    publish_avail(mem, avail_idx.wrapping_sub(1), 0, avail_idx);
}

#[test]
fn ctrl_queue_accepts_a_valid_mq_request() {
    let mut mem = GuestMem::new(0x1000);
    let queue = test_ring(&mem);
    let mut handler = NetCtrlHandler {
        ctrl: vmm_core::net::CtrlVirtio::new(queue, 5),
        driver_features: 0,
        deactivate_evt: 6,
    };
    // class 4 (MQ), command 0 (set pairs), payload 2: accepted with OK.
    publish_ctrl_request(&mut mem, 4, 0, 2, 1);
    let res = handler.handle_ctrl(&mut mem);
    assert!(res.is_ok());
    // The status byte was answered with OK (0).
    assert_eq!(mem.read_u8(0xa00), 0);
    // The chain was published on the used ring with its total length.
    assert_eq!(handler.ctrl.queue.next_used_idx, 1);
    assert_eq!(mem.read_u32(USED_RING + 4), 0);
    assert_eq!(mem.read_u32(USED_RING + 8), 5);
}

#[test]
fn ctrl_queue_rejects_zero_queue_pairs() {
    let mut mem = GuestMem::new(0x1000);
    let queue = test_ring(&mem);
    let mut handler = NetCtrlHandler {
        ctrl: vmm_core::net::CtrlVirtio::new(queue, 5),
        driver_features: 0,
        deactivate_evt: 6,
    };
    publish_ctrl_request(&mut mem, 4, 0, 0, 1);
    let err = handler.handle_ctrl(&mut mem).unwrap_err();
    assert_eq!(err, vmm_core::error::VirtioError::CtrlQueuePairs(0));
    // Nothing was published.
    assert_eq!(handler.ctrl.queue.next_used_idx, 0);
}

#[test]
fn ctrl_queue_rejects_unknown_class_and_command() {
    let mut mem = GuestMem::new(0x1000);
    let queue = test_ring(&mem);
    let mut handler = NetCtrlHandler {
        ctrl: vmm_core::net::CtrlVirtio::new(queue, 5),
        driver_features: 0,
        deactivate_evt: 6,
    };
    publish_ctrl_request(&mut mem, 3, 0, 2, 1);
    assert_eq!(
        handler.handle_ctrl(&mut mem).unwrap_err(),
        vmm_core::error::VirtioError::CtrlClass(3)
    );
    publish_ctrl_request(&mut mem, 4, 9, 2, 2);
    assert_eq!(
        handler.handle_ctrl(&mut mem).unwrap_err(),
        vmm_core::error::VirtioError::CtrlCmd(9)
    );
}

fn rx_handler(mem: &GuestMem, tap_fd: i32) -> vmm_core::net::NetIoHandler {
    vmm_core::net::NetIoHandler {
        rx: vmm_core::net::RxVirtio::new(test_ring(mem), 7),
        tx: vmm_core::net::TxVirtio::new(
            SplitVring::new(0x500, 0x600, 0x700, QUEUE_SIZE).unwrap(),
            8,
        ),
        tap_fd,
        driver_features: 0,
        update_evt: 9,
        deactivate_evt: 10,
        is_listening: true,
    }
}

#[test]
fn rx_backpressure_parks_and_resumes_the_tap() {
    let mut mem = GuestMem::new(0x2000);
    let mut handler = rx_handler(&mem, 42);

    // The guest provides 4 receive descriptors.
    for i in 0..4u16 {
        write_desc(
            &mut mem,
            i,
            0x1000 + 0x100 * (i as u64),
            0x100,
            VIRTQ_DESC_F_WRITE,
            0,
        );
        publish_avail(&mut mem, i, i, i + 1);
    }

    // The tap holds many packets; exactly 4 are delivered, in order.
    let mut delivered: u32 = 0;
    let mut parked = false;
    for packet in 0..1000u32 {
        match handler.rx_prepare(&mem).unwrap() {
            RxStep::Descriptor(index, iovecs) => {
                assert_eq!(index as u32, packet);
                assert_eq!(iovecs.len(), 1);
                // The packet's bytes land in the chain's buffer.
                mem.write_bytes(iovecs[0].addr, &[packet as u8; 4]);
                handler
                    .rx_complete(&mut mem, index, RxIoResult::Received(4))
                    .unwrap();
                delivered += 1;
            }
            RxStep::QueueEmpty => {
                // Out of descriptors: the tap is parked.
                assert!(handler.rx.queue_full);
                let park = handler.rx_backpressure_check().unwrap();
                assert_eq!(park.op, NotifierOperation::Park);
                assert_eq!(park.fd, 42);
                assert!(!handler.is_listening);
                parked = true;
                break;
            }
        }
    }
    assert!(parked);
    assert_eq!(delivered, 4);
    assert_eq!(handler.rx.queue.next_used_idx, 4);
    // Used entries carry the heads in pop order.
    for i in 0..4u64 {
        assert_eq!(mem.read_u32(USED_RING + 4 + 8 * i), i as u32);
    }

    // The guest posts 2 more descriptors and kicks the queue: resume.
    publish_avail(&mut mem, 4, 0, 5);
    publish_avail(&mut mem, 5, 1, 6);
    let resume = handler.rx_queue_evt_handler().unwrap();
    assert_eq!(resume.op, NotifierOperation::Resume);
    assert_eq!(resume.fd, 42);
    assert!(handler.is_listening);

    // The remaining packets keep arriving in order.
    for packet in 4..6u32 {
        match handler.rx_prepare(&mem).unwrap() {
            RxStep::Descriptor(index, _) => {
                handler
                    .rx_complete(&mut mem, index, RxIoResult::Received(4))
                    .unwrap();
                assert_eq!(index as u32, packet - 4);
            }
            RxStep::QueueEmpty => panic!("descriptors were posted"),
        }
    }
    assert_eq!(handler.rx.queue.next_used_idx, 6);
}

#[test]
fn rx_complete_answers_the_notify_decision() {
    let mut mem = GuestMem::new(0x2000);
    let mut handler = rx_handler(&mem, 42);
    write_desc(&mut mem, 0, 0x1000, 0x100, VIRTQ_DESC_F_WRITE, 0);
    write_desc(&mut mem, 1, 0x1100, 0x100, VIRTQ_DESC_F_WRITE, 0);
    publish_avail(&mut mem, 0, 0, 1);
    publish_avail(&mut mem, 1, 1, 2);

    // Interrupts wanted: the publication asks for one.
    mem.write_u16(AVAIL_RING, 0);
    let step = handler.rx_prepare(&mem).unwrap();
    let index = match step {
        RxStep::Descriptor(i, _) => i,
        RxStep::QueueEmpty => panic!("a descriptor is available"),
    };
    let notify = handler
        .rx_complete(&mut mem, index, RxIoResult::Received(4))
        .unwrap();
    assert!(notify);
    // The used entry carries the head and the byte count.
    assert_eq!(mem.read_u32(USED_RING + 4), 0);
    assert_eq!(mem.read_u32(USED_RING + 8), 4);

    // NO_INTERRUPT set: the next publication stays silent.
    mem.write_u16(AVAIL_RING, 1);
    let step = handler.rx_prepare(&mem).unwrap();
    let index = match step {
        RxStep::Descriptor(i, _) => i,
        RxStep::QueueEmpty => panic!("a descriptor is available"),
    };
    let notify = handler
        .rx_complete(&mut mem, index, RxIoResult::Received(7))
        .unwrap();
    assert!(!notify);
}

#[test]
fn update_config_adopts_the_default_or_rejects_short_fd_lists() {
    let mut net = Net::default();
    net.realize().unwrap();

    // A new configuration with too few tap descriptors for its pairs.
    let mut bad = NetworkInterfaceConfig::new();
    bad.queues = 8;
    bad.mq = true;
    bad.tap_fds = Some(vec![30]);
    assert!(net.update_config(Some(bad)).is_err());

    // None adopts the default configuration.
    net.update_config(None).unwrap();
    assert_eq!(net.net_cfg.queues, 2);
    assert!(!net.net_cfg.mq);
    assert!(net.net_cfg.tap_fds.is_none());
    assert!(net.taps.is_none());
}

#[test]
fn rx_would_block_hands_the_chain_back() {
    let mut mem = GuestMem::new(0x2000);
    let mut handler = rx_handler(&mem, 42);
    write_desc(&mut mem, 0, 0x1000, 0x100, VIRTQ_DESC_F_WRITE, 0);
    publish_avail(&mut mem, 0, 0, 1);

    let step = handler.rx_prepare(&mem).unwrap();
    let index = match step {
        RxStep::Descriptor(i, _) => i,
        RxStep::QueueEmpty => panic!("a descriptor is available"),
    };
    handler
        .rx_complete(&mut mem, index, RxIoResult::WouldBlock)
        .unwrap();
    // No used entry; the same chain is available again.
    assert_eq!(handler.rx.queue.next_used_idx, 0);
    match handler.rx_prepare(&mem).unwrap() {
        RxStep::Descriptor(i, _) => assert_eq!(i, 0),
        RxStep::QueueEmpty => panic!("the chain was handed back"),
    }
}

#[test]
fn tx_drains_chains_and_publishes_zero_length() {
    let mut mem = GuestMem::new(0x2000);
    let mut handler = vmm_core::net::NetIoHandler {
        rx: vmm_core::net::RxVirtio::new(
            SplitVring::new(0x500, 0x600, 0x700, QUEUE_SIZE).unwrap(),
            7,
        ),
        tx: vmm_core::net::TxVirtio::new(test_ring(&mem), 8),
        tap_fd: 42,
        driver_features: 0,
        update_evt: 9,
        deactivate_evt: 10,
        is_listening: true,
    };
    write_desc(&mut mem, 0, 0x1000, 0x40, 0, 0);
    publish_avail(&mut mem, 0, 0, 1);

    let (index, iovecs) = handler.tx_prepare(&mem).unwrap().unwrap();
    assert_eq!(index, 0);
    assert_eq!(iovecs.len(), 1);
    assert_eq!(iovecs[0].addr, 0x1000);
    handler.tx_complete(&mut mem, index).unwrap();
    assert_eq!(handler.tx.queue.next_used_idx, 1);
    assert_eq!(mem.read_u32(USED_RING + 8), 0);

    // Ring drained.
    assert!(handler.tx_prepare(&mem).unwrap().is_none());
}

#[test]
fn handler_notifiers_cover_every_descriptor() {
    let mem = GuestMem::new(0x2000);
    let mut handler = rx_handler(&mem, 42);
    let notifiers = handler.internal_notifiers();
    assert_eq!(notifiers.len(), 5);
    assert_eq!(notifiers[0].fd, 9);
    assert_eq!(notifiers[0].handler, HandlerKind::UpdateEvt);
    assert_eq!(notifiers[1].fd, 10);
    assert_eq!(notifiers[1].handler, HandlerKind::DeactivateEvt);
    assert_eq!(notifiers[2].fd, 7);
    assert_eq!(notifiers[3].fd, 8);
    assert_eq!(notifiers[4].fd, 42);
    assert_eq!(notifiers[4].handler, HandlerKind::Tap);

    // Deactivation deletes them all and unbinds the tap.
    let deletes = handler.deactivate_evt_handler();
    assert_eq!(deletes.len(), 5);
    assert!(deletes
        .iter()
        .all(|n| n.op == NotifierOperation::Delete));
    assert_eq!(handler.tap_fd, -1);

    // A tap replacement deletes and re-registers around the new descriptor.
    let mut handler2 = rx_handler(&mem, 42);
    let batch = handler2.update_evt_handler(50);
    assert_eq!(handler2.tap_fd, 50);
    assert_eq!(batch.len(), 4 + 5);
    assert_eq!(batch[3].fd, 42);
    assert_eq!(batch[8].fd, 50);
    assert_eq!(batch[8].op, NotifierOperation::AddShared);
}

#[test]
fn activation_plan_pairs_queues_and_binds_taps() {
    let mut cfg = NetworkInterfaceConfig::new();
    cfg.queues = 4;
    cfg.mq = true;
    cfg.tap_fds = Some(vec![31, 32]);
    let mut net = Net::new(cfg);
    net.update_evt = 20;
    net.deactivate_evt = 21;
    net.realize().unwrap();
    // The driver acknowledged CTRL_VQ (bit 17, page 0).
    net.set_driver_features(0, 1 << 17);

    let mut queues = Vec::new();
    let mut evts = Vec::new();
    for i in 0..5u64 {
        queues.push(SplitVring::new(0x1000 * i, 0x1000 * i + 0x500, 0x1000 * i + 0x600, 4).unwrap());
        evts.push(100 + i as i32);
    }
    let plan = net.activate(queues, evts).unwrap();
    let ctrl = plan.ctrl.expect("control queue present");
    assert_eq!(ctrl.ctrl.queue_evt, 104);
    assert_eq!(plan.io_handlers.len(), 2);
    assert_eq!(plan.io_handlers[0].rx.queue_evt, 100);
    assert_eq!(plan.io_handlers[0].tx.queue_evt, 101);
    assert_eq!(plan.io_handlers[0].tap_fd, 31);
    assert_eq!(plan.io_handlers[1].rx.queue_evt, 102);
    assert_eq!(plan.io_handlers[1].tx.queue_evt, 103);
    assert_eq!(plan.io_handlers[1].tap_fd, 32);
    assert!(plan.io_handlers.iter().all(|h| h.is_listening));
    assert_eq!(net.dev_state, DeviceState::Activated);
}
