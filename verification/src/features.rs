//! Virtio feature bits and the feature-negotiation arithmetic.
//!
//! A device advertises a 64-bit feature bitmap; the guest driver acknowledges
//! features 32 bits at a time (a "page").  The device must mask every
//! acknowledgement by its own bitmap so that the driver can never switch on a
//! feature the device did not offer.

use vstd::prelude::*;

verus! {

/// Virtio 1.0 ring layout and transport feature bits.
pub const VIRTIO_F_RING_EVENT_IDX: u32 = 29;
pub const VIRTIO_F_VERSION_1: u32 = 32;

/// Virtio-net feature bits.
pub const VIRTIO_NET_F_CSUM: u32 = 0;
pub const VIRTIO_NET_F_GUEST_CSUM: u32 = 1;
pub const VIRTIO_NET_F_MAC: u32 = 5;
pub const VIRTIO_NET_F_GUEST_TSO4: u32 = 7;
pub const VIRTIO_NET_F_GUEST_TSO6: u32 = 8;
pub const VIRTIO_NET_F_GUEST_ECN: u32 = 9;
pub const VIRTIO_NET_F_GUEST_UFO: u32 = 10;
pub const VIRTIO_NET_F_HOST_TSO4: u32 = 11;
pub const VIRTIO_NET_F_HOST_TSO6: u32 = 12;
pub const VIRTIO_NET_F_HOST_UFO: u32 = 14;
pub const VIRTIO_NET_F_CTRL_VQ: u32 = 17;
pub const VIRTIO_NET_F_MQ: u32 = 22;
pub const VIRTIO_NET_F_CTRL_MAC_ADDR: u32 = 23;

/// Device type tag of a virtio-net device.
pub const VIRTIO_TYPE_NET: u32 = 1;

/// Control-queue command class for multiqueue control.
pub const VIRTIO_NET_CTRL_MQ: u16 = 4;
/// Command of class `VIRTIO_NET_CTRL_MQ` setting the active queue-pair count.
pub const VIRTIO_NET_CTRL_MQ_VQ_PAIRS_SET: u16 = 0;
/// Smallest queue-pair count a driver may request.
pub const VIRTIO_NET_CTRL_MQ_VQ_PAIRS_MIN: u16 = 1;
/// Largest queue-pair count a driver may request.
pub const VIRTIO_NET_CTRL_MQ_VQ_PAIRS_MAX: u16 = 0x8000;

/// Status byte written back on the control queue: success.
pub const VIRTIO_NET_OK: u8 = 0;
/// Status byte written back on the control queue: failure.
pub const VIRTIO_NET_ERR: u8 = 1;

/// Tap offload request bits, as the host tun driver defines them.
pub const TUN_F_CSUM: u32 = 1;
pub const TUN_F_TSO4: u32 = 2;
pub const TUN_F_TSO6: u32 = 4;
pub const TUN_F_TSO_ECN: u32 = 8;
pub const TUN_F_UFO: u32 = 16;

/// Tun interface flag: the tap was created multiqueue-capable.
pub const IFF_MULTI_QUEUE: u16 = 0x0100;

/// Whether bit `fbit` is set in the feature bitmap `features`.
pub open spec fn spec_has_feature(features: u64, fbit: u32) -> bool {
    features & (1u64 << fbit) != 0
}

/// Whether bit `fbit` is set in the feature bitmap `features`.
pub fn virtio_has_feature(features: u64, fbit: u32) -> (r: bool)
    requires
        fbit < 64,
    ensures
        r == spec_has_feature(features, fbit),
{
    features & (1u64 << fbit) != 0
}

/// The 32-bit page `page` of the 64-bit value `v`: page 0 is the low half,
/// page 1 the high half, any other page is empty.
pub open spec fn spec_u64_page(v: u64, page: u32) -> u32 {
    if page == 0 {
        (v & 0xFFFF_FFFF) as u32
    } else if page == 1 {
        (v >> 32) as u32
    } else {
        0
    }
}

/// Extract the 32-bit page `page` of `v`.
pub fn read_u32(v: u64, page: u32) -> (r: u32)
    ensures
        r == spec_u64_page(v, page),
{
    if page == 0 {
        (v & 0xFFFF_FFFF) as u32
    } else if page == 1 {
        (v >> 32) as u32
    } else {
        0
    }
}

/// The driver-feature bitmap after the guest acknowledges `value` on page
/// `page`: the acknowledged page is masked by the device page, the other page
/// keeps its previous driver bits.
pub open spec fn spec_checked_driver_features(
    device_features: u64,
    driver_features: u64,
    page: u32,
    value: u32,
) -> u64 {
    if page == 0 {
        (driver_features & 0xFFFF_FFFF_0000_0000) | ((value & spec_u64_page(
            device_features,
            0,
        )) as u64)
    } else if page == 1 {
        (((value & spec_u64_page(device_features, 1)) as u64) << 32) | (driver_features
            & 0xFFFF_FFFF)
    } else {
        driver_features
    }
}

/// Combine a 32-bit driver acknowledgement into the 64-bit driver bitmap,
/// masking it by the device bitmap so no unoffered bit can be switched on.
pub fn checked_driver_features(
    device_features: u64,
    driver_features: u64,
    page: u32,
    value: u32,
) -> (r: u64)
    ensures
        r == spec_checked_driver_features(device_features, driver_features, page, value),
        driver_features & !device_features == 0 ==> r & !device_features == 0,
{
    let masked: u32 = value & read_u32(device_features, page);
    let r: u64 = if page == 0 {
        (driver_features & 0xFFFF_FFFF_0000_0000) | (masked as u64)
    } else if page == 1 {
        ((masked as u64) << 32) | (driver_features & 0xFFFF_FFFF)
    } else {
        driver_features
    };
    proof {
        if driver_features & !device_features == 0 {
            lemma_checked_driver_features_masked(device_features, driver_features, page, value);
        }
    }
    r
}

/// Masking an acknowledged page by the device bitmap keeps the negotiated
/// subset inside the device bitmap: no driver bit survives outside it.
pub proof fn lemma_checked_driver_features_masked(
    device_features: u64,
    driver_features: u64,
    page: u32,
    value: u32,
)
    requires
        driver_features & !device_features == 0,
    ensures
        spec_checked_driver_features(device_features, driver_features, page, value)
            & !device_features == 0,
{
    if page == 0 {
        let masked = (value & ((device_features & 0xFFFF_FFFF) as u32)) as u64;
        assert(((driver_features & 0xFFFF_FFFF_0000_0000) | ((value & ((device_features
            & 0xFFFF_FFFF) as u32)) as u64)) & !device_features == 0) by (bit_vector)
            requires
                driver_features & !device_features == 0,
        ;
    } else if page == 1 {
        assert(((((value & ((device_features >> 32) as u32)) as u64) << 32) | (driver_features
            & 0xFFFF_FFFF)) & !device_features == 0) by (bit_vector)
            requires
                driver_features & !device_features == 0,
        ;
    }
}

} // verus!
