//! The virtio-net backend.
//!
//! The device negotiates features, serves its config space, parses control
//! requests, and moves packets between the guest's split rings and a host
//! tap.  Everything that touches a file descriptor — opening taps, readv and
//! writev, event and deactivate fds, the event loop — stays outside; the
//! functions here decide what those calls must do and account for every
//! outcome they can return.

use vstd::prelude::*;

use crate::cmdline::{parse_u16_hex, spec_parse_u16_hex, spec_split, split_on};
use crate::error::{NetError, VirtioError};
use crate::features::{
    checked_driver_features, read_u32, spec_checked_driver_features, spec_has_feature,
    spec_u64_page, virtio_has_feature, IFF_MULTI_QUEUE, TUN_F_CSUM, TUN_F_TSO4, TUN_F_TSO6,
    TUN_F_TSO_ECN, TUN_F_UFO, VIRTIO_F_RING_EVENT_IDX, VIRTIO_F_VERSION_1, VIRTIO_NET_CTRL_MQ,
    VIRTIO_NET_CTRL_MQ_VQ_PAIRS_MAX, VIRTIO_NET_CTRL_MQ_VQ_PAIRS_MIN,
    VIRTIO_NET_CTRL_MQ_VQ_PAIRS_SET, VIRTIO_NET_F_CSUM, VIRTIO_NET_F_CTRL_MAC_ADDR,
    VIRTIO_NET_F_CTRL_VQ, VIRTIO_NET_F_GUEST_CSUM, VIRTIO_NET_F_GUEST_ECN,
    VIRTIO_NET_F_GUEST_TSO4, VIRTIO_NET_F_GUEST_TSO6, VIRTIO_NET_F_GUEST_UFO,
    VIRTIO_NET_F_HOST_TSO4, VIRTIO_NET_F_HOST_TSO6, VIRTIO_NET_F_HOST_UFO, VIRTIO_NET_F_MAC,
    VIRTIO_NET_F_MQ, VIRTIO_NET_OK, VIRTIO_TYPE_NET,
};
use crate::guest_mem::{spec_le16, GuestMem};
use crate::notifier::{EventNotifier, HandlerKind, NotifierOperation, EVENT_EDGE, EVENT_IN};
use crate::queue::{
    in_iovs, lemma_iov_prefix_sums_bounded, lemma_iov_take_unfold, out_iovs,
    spec_publish_and_notify, sum_iov_lens, ElemIovec, SplitVring,
};

verus! {

/// Number of virtqueues of a single-queue net device.
pub const QUEUE_NUM_NET: usize = 2;
/// Size of each net virtqueue.
pub const QUEUE_SIZE_NET: u16 = 256;
/// Length of a MAC address in bytes.
pub const MAC_ADDR_LEN: usize = 6;
/// Bytes of the virtio-net header that precedes each packet on the tap.
pub const VNET_HDR_SIZE: u32 = 12;

/// The guest-visible configuration of a net device.
#[derive(Clone, Copy, Debug, PartialEq, Eq)]
pub struct VirtioNetConfig {
    /// MAC address.
    pub mac: [u8; 6],
    /// Link status bits.
    pub status: u16,
    /// Largest number of transmit/receive queue pairs.
    pub max_virtqueue_pairs: u16,
    /// Maximum transmission unit.
    pub mtu: u16,
    /// Link speed in Mb.
    pub speed: u32,
    /// 0 for half duplex, 1 for full duplex.
    pub duplex: u8,
}

impl VirtioNetConfig {
    /// An all-zero configuration.
    pub fn new() -> (r: VirtioNetConfig)
        ensures
            r == VirtioNetConfig::spec_default(),
    {
        VirtioNetConfig {
            mac: [0, 0, 0, 0, 0, 0],
            status: 0,
            max_virtqueue_pairs: 0,
            mtu: 0,
            speed: 0,
            duplex: 0,
        }
    }

    /// The all-zero configuration.
    pub open spec fn spec_default() -> VirtioNetConfig {
        VirtioNetConfig {
            mac: [0, 0, 0, 0, 0, 0],
            status: 0,
            max_virtqueue_pairs: 0,
            mtu: 0,
            speed: 0,
            duplex: 0,
        }
    }

    /// The wire image of the configuration: the MAC, then the 16- and
    /// 32-bit fields little-endian, then the duplex byte.
    pub open spec fn spec_bytes(self) -> Seq<u8> {
        seq![
            self.mac[0],
            self.mac[1],
            self.mac[2],
            self.mac[3],
            self.mac[4],
            self.mac[5],
            (self.status % 0x100) as u8,
            (self.status / 0x100) as u8,
            (self.max_virtqueue_pairs % 0x100) as u8,
            (self.max_virtqueue_pairs / 0x100) as u8,
            (self.mtu % 0x100) as u8,
            (self.mtu / 0x100) as u8,
            (self.speed % 0x100) as u8,
            ((self.speed / 0x100) % 0x100) as u8,
            ((self.speed / 0x1_0000) % 0x100) as u8,
            (self.speed / 0x100_0000) as u8,
            self.duplex,
        ]
    }

    /// Serialize the configuration to its wire image.
    pub fn to_bytes(&self) -> (r: Vec<u8>)
        ensures
            r@ == self.spec_bytes(),
    {
        let mut r: Vec<u8> = Vec::new();
        r.push(self.mac[0]);
        r.push(self.mac[1]);
        r.push(self.mac[2]);
        r.push(self.mac[3]);
        r.push(self.mac[4]);
        r.push(self.mac[5]);
        r.push((self.status % 0x100) as u8);
        r.push((self.status / 0x100) as u8);
        r.push((self.max_virtqueue_pairs % 0x100) as u8);
        r.push((self.max_virtqueue_pairs / 0x100) as u8);
        r.push((self.mtu % 0x100) as u8);
        r.push((self.mtu / 0x100) as u8);
        r.push((self.speed % 0x100) as u8);
        r.push(((self.speed / 0x100) % 0x100) as u8);
        r.push(((self.speed / 0x1_0000) % 0x100) as u8);
        r.push((self.speed / 0x100_0000) as u8);
        r.push(self.duplex);
        proof {
            assert(r@ =~= self.spec_bytes());
        }
        r
    }

    /// How many bytes the wire image holds.
    pub fn len_bytes() -> (r: usize)
        ensures
            r == VirtioNetConfig::spec_default().spec_bytes().len(),
    {
        proof {
            assert(VirtioNetConfig::spec_default().spec_bytes().len() == 17);
        }
        17
    }
}

/// The negotiated state of a net device: what it offers, what the driver
/// acknowledged, and the config space.
#[derive(Clone, Copy, Debug, PartialEq, Eq)]
pub struct VirtioNetState {
    /// Feature bitmap the device offers.
    pub device_features: u64,
    /// Feature bitmap the driver acknowledged (always a subset).
    pub driver_features: u64,
    /// The guest-visible configuration.
    pub config_space: VirtioNetConfig,
}

impl VirtioNetState {
    /// A fresh state: nothing offered, nothing acknowledged, zero config.
    pub fn new() -> (r: VirtioNetState)
        ensures
            r.device_features == 0,
            r.driver_features == 0,
            r.config_space == VirtioNetConfig::spec_default(),
    {
        VirtioNetState {
            device_features: 0,
            driver_features: 0,
            config_space: VirtioNetConfig::new(),
        }
    }
}

/// The lifecycle of a virtio device.
#[derive(Clone, Copy, Debug, PartialEq, Eq, Structural)]
pub enum DeviceState {
    /// Not yet realized.
    Uninit,
    /// Realized, not yet driven.
    Created,
    /// Queues live, handlers running.
    Activated,
    /// Stopped; may be activated again.
    Deactivated,
}

/// The host-side source of one queue pair's tap: a descriptor handed in by
/// the user, or the configured host device name, to be opened outside.
#[derive(Clone, Copy, Debug, PartialEq, Eq, Structural)]
pub struct TapConfig {
    /// The tap descriptor to adopt, or -1 to open the host device by name.
    pub fd: i32,
}

/// Configuration of a net device, as the config parser hands it over.
#[derive(Clone, Debug)]
pub struct NetworkInterfaceConfig {
    /// Identifier of the device.
    pub id: String,
    /// Host tap device name; empty when descriptors are handed in.
    pub host_dev_name: String,
    /// MAC address text, if configured.
    pub mac: Option<String>,
    /// Tap descriptors handed in by the user, one per queue pair.
    pub tap_fds: Option<Vec<i32>>,
    /// Vhost backend type, if any.
    pub vhost_type: Option<String>,
    /// Vhost descriptors, if any.
    pub vhost_fds: Option<Vec<i32>>,
    /// Name of the I/O thread to run on, if any.
    pub iothread: Option<String>,
    /// Number of virtqueues.
    pub queues: u16,
    /// Whether multiqueue was asked for.
    pub mq: bool,
}

impl NetworkInterfaceConfig {
    /// The default configuration: one queue pair, no taps, no MAC.
    pub fn new() -> (r: NetworkInterfaceConfig)
        ensures
            r.id@ == Seq::<char>::empty(),
            r.host_dev_name@ == Seq::<char>::empty(),
            r.mac is None,
            r.tap_fds is None,
            r.vhost_type is None,
            r.vhost_fds is None,
            r.iothread is None,
            r.queues == 2,
            !r.mq,
    {
        NetworkInterfaceConfig {
            id: String::new(),
            host_dev_name: String::new(),
            mac: None,
            tap_fds: None,
            vhost_type: None,
            vhost_fds: None,
            iothread: None,
            queues: 2,
            mq: false,
        }
    }
}

/// What one colon-separated MAC token denotes: a hexadecimal byte.
pub open spec fn spec_mac_token(t: Seq<char>) -> Option<u8> {
    match spec_parse_u16_hex(t) {
        Some(v) => if v <= 0xFF {
            Some(v as u8)
        } else {
            None
        },
        None => None,
    }
}

/// What a MAC text denotes: at most six colon-separated hexadecimal bytes,
/// zero-padded up to the six bytes of an address.  More than six tokens is
/// refused rather than read past the address.
pub open spec fn spec_mac_bytes(s: Seq<char>) -> Option<Seq<u8>> {
    let parts = spec_split(s, ':');
    if parts.len() <= 6 && (forall|i: int|
        0 <= i < parts.len() ==> spec_mac_token(#[trigger] parts[i]) is Some) {
        Some(
            Seq::new(
                6,
                |i: int|
                    if i < parts.len() {
                        spec_mac_token(parts[i])->Some_0
                    } else {
                        0u8
                    },
            ),
        )
    } else {
        None
    }
}

/// Read `mac` into the device configuration and return the feature bits the
/// parse earns: the MAC feature bit when the text is at most six
/// colon-separated hexadecimal bytes (shorter texts are zero-padded),
/// nothing otherwise.
#[verifier::loop_isolation(false)]
pub fn build_device_config_space(device_config: &mut VirtioNetConfig, mac: &str) -> (r: u64)
    ensures
        match spec_mac_bytes(mac@) {
            Some(bytes) => {
                &&& r == (1u64 << VIRTIO_NET_F_MAC)
                &&& final(device_config).mac@ == bytes
                &&& final(device_config).status == old(device_config).status
                &&& final(device_config).max_virtqueue_pairs == old(
                    device_config,
                ).max_virtqueue_pairs
                &&& final(device_config).mtu == old(device_config).mtu
                &&& final(device_config).speed == old(device_config).speed
                &&& final(device_config).duplex == old(device_config).duplex
            },
            None => {
                &&& r == 0
                &&& *final(device_config) == *old(device_config)
            },
        },
{
    let parts = split_on(mac, ':');
    proof {
        assert(views_of_parts(parts@).len() == parts@.len());
        assert forall|k: int| 0 <= k < parts@.len() implies #[trigger] parts@[k]@ == spec_split(
            mac@,
            ':',
        )[k] by {
            assert(views_of_parts(parts@)[k] == parts@[k]@);
        }
    }
    let n = parts.len();
    if n > 6 {
        return 0;
    }
    let b0 = if n > 0 {
        match mac_byte(&parts, 0) {
            Some(b) => b,
            None => {
                return 0;
            },
        }
    } else {
        0
    };
    let b1 = if n > 1 {
        match mac_byte(&parts, 1) {
            Some(b) => b,
            None => {
                return 0;
            },
        }
    } else {
        0
    };
    let b2 = if n > 2 {
        match mac_byte(&parts, 2) {
            Some(b) => b,
            None => {
                return 0;
            },
        }
    } else {
        0
    };
    let b3 = if n > 3 {
        match mac_byte(&parts, 3) {
            Some(b) => b,
            None => {
                return 0;
            },
        }
    } else {
        0
    };
    let b4 = if n > 4 {
        match mac_byte(&parts, 4) {
            Some(b) => b,
            None => {
                return 0;
            },
        }
    } else {
        0
    };
    let b5 = if n > 5 {
        match mac_byte(&parts, 5) {
            Some(b) => b,
            None => {
                return 0;
            },
        }
    } else {
        0
    };
    device_config.mac = [b0, b1, b2, b3, b4, b5];
    proof {
        assert(spec_mac_bytes(mac@) is Some);
        assert(device_config.mac@ =~= spec_mac_bytes(mac@)->Some_0);
    }
    1u64 << VIRTIO_NET_F_MAC
}

/// One byte of a MAC address: the token at `i` read as a hexadecimal byte.
fn mac_byte(parts: &Vec<String>, i: usize) -> (r: Option<u8>)
    requires
        i < parts@.len(),
    ensures
        r == spec_mac_token(parts@[i as int]@),
{
    match parse_u16_hex(parts[i].as_str()) {
        Some(v) => {
            if v <= 0xFF {
                Some(v as u8)
            } else {
                None
            }
        },
        None => None,
    }
}

/// The views of the split tokens (alias used by `build_device_config_space`).
pub open spec fn views_of_parts(ts: Seq<String>) -> Seq<Seq<char>> {
    crate::cmdline::views_of(ts)
}

/// The tap offload request that a negotiated driver-feature bitmap earns:
/// checksum and each segmentation-offload kind exactly when the guest
/// acknowledged the matching feature.
pub open spec fn spec_tap_offload_flags(features: u64) -> u32 {
    let f0: u32 = if spec_has_feature(features, VIRTIO_NET_F_GUEST_CSUM) {
        TUN_F_CSUM
    } else {
        0
    };
    let f1: u32 = if spec_has_feature(features, VIRTIO_NET_F_GUEST_TSO4) {
        f0 | TUN_F_TSO4
    } else {
        f0
    };
    let f2: u32 = if spec_has_feature(features, VIRTIO_NET_F_GUEST_TSO6) {
        f1 | TUN_F_TSO6
    } else {
        f1
    };
    let f3: u32 = if spec_has_feature(features, VIRTIO_NET_F_GUEST_ECN) {
        f2 | TUN_F_TSO_ECN
    } else {
        f2
    };
    if spec_has_feature(features, VIRTIO_NET_F_GUEST_UFO) {
        f3 | TUN_F_UFO
    } else {
        f3
    }
}

/// Compute the tap offload request from the negotiated driver features.
pub fn get_tap_offload_flags(features: u64) -> (r: u32)
    ensures
        r == spec_tap_offload_flags(features),
{
    let f0: u32 = if virtio_has_feature(features, VIRTIO_NET_F_GUEST_CSUM) {
        TUN_F_CSUM
    } else {
        0
    };
    let f1: u32 = if virtio_has_feature(features, VIRTIO_NET_F_GUEST_TSO4) {
        f0 | TUN_F_TSO4
    } else {
        f0
    };
    let f2: u32 = if virtio_has_feature(features, VIRTIO_NET_F_GUEST_TSO6) {
        f1 | TUN_F_TSO6
    } else {
        f1
    };
    let f3: u32 = if virtio_has_feature(features, VIRTIO_NET_F_GUEST_ECN) {
        f2 | TUN_F_TSO_ECN
    } else {
        f2
    };
    if virtio_has_feature(features, VIRTIO_NET_F_GUEST_UFO) {
        f3 | TUN_F_UFO
    } else {
        f3
    }
}

/// Judge the tap's multiqueue flags against the configured queue-pair
/// count: a multiqueue tap demands more than one pair, a single-queue tap
/// exactly one.  The caller reads `tun_flags` from the host.
pub fn check_mq(tun_flags: u16, queue_pair: u16) -> (r: Result<(), NetError>)
    ensures
        ({
            let tap_mq = tun_flags & IFF_MULTI_QUEUE != 0;
            let is_mq = queue_pair > 1;
            if tap_mq == is_mq {
                r is Ok
            } else {
                r == Err::<(), NetError>(NetError::TapMqConflict(tap_mq, queue_pair))
            }
        }),
{
    let tap_mq = tun_flags & IFF_MULTI_QUEUE != 0;
    let is_mq = queue_pair > 1;
    if tap_mq != is_mq {
        return Err(NetError::TapMqConflict(tap_mq, queue_pair));
    }
    Ok(())
}

/// Read the tun-flags text the host exposes for a tap device: optional
/// surrounding whitespace, an optional `0x` prefix, hexadecimal digits.
pub fn parse_tun_flags(s: &str) -> (r: Option<u16>)
    ensures
        r == spec_parse_u16_hex(spec_trimmed_hex(s@)),
{
    let trimmed = trim_ascii(s);
    let n = trimmed.as_str().unicode_len();
    let has_prefix = n >= 2 && trimmed.as_str().get_char(0) == '0' && trimmed.as_str().get_char(1)
        == 'x';
    let body = if has_prefix {
        String::from_str(trimmed.as_str().substring_char(2, n))
    } else {
        trimmed
    };
    proof {
        assert(body@ =~= spec_trimmed_hex(s@));
    }
    parse_u16_hex(body.as_str())
}

/// The hexadecimal body of a tun-flags text: whitespace trimmed, a `0x`
/// prefix dropped.
pub open spec fn spec_trimmed_hex(s: Seq<char>) -> Seq<char> {
    let t = spec_trim(s);
    if t.len() >= 2 && t[0] == '0' && t[1] == 'x' {
        t.subrange(2, t.len() as int)
    } else {
        t
    }
}

/// Whether a character counts as trimmable whitespace.
pub open spec fn is_space(c: char) -> bool {
    c == ' ' || c == '\n' || c == '\t' || c == '\r'
}

/// `s` with leading and trailing whitespace removed.
pub open spec fn spec_trim(s: Seq<char>) -> Seq<char> {
    let a = spec_trim_start(s);
    spec_trim_end(a)
}

/// `s` with leading whitespace removed.
pub open spec fn spec_trim_start(s: Seq<char>) -> Seq<char>
    decreases s.len(),
{
    if s.len() > 0 && is_space(s[0]) {
        spec_trim_start(s.subrange(1, s.len() as int))
    } else {
        s
    }
}

/// `s` with trailing whitespace removed.
pub open spec fn spec_trim_end(s: Seq<char>) -> Seq<char>
    decreases s.len(),
{
    if s.len() > 0 && is_space(s.last()) {
        spec_trim_end(s.drop_last())
    } else {
        s
    }
}

/// Remove leading and trailing whitespace.
#[verifier::loop_isolation(false)]
pub fn trim_ascii(s: &str) -> (r: String)
    ensures
        r@ == spec_trim(s@),
{
    let n = s.unicode_len();
    proof {
        assert(s@.subrange(0, n as int) =~= s@);
    }
    let mut a: usize = 0;
    while a < n && is_space_exec(s.get_char(a))
        invariant
            a <= n,
            spec_trim_start(s@) == spec_trim_start(s@.subrange(a as int, n as int)),
        decreases n - a,
    {
        proof {
            assert(s@.subrange(a as int, n as int).subrange(
                1,
                s@.subrange(a as int, n as int).len() as int,
            ) =~= s@.subrange(a + 1, n as int));
        }
        a = a + 1;
    }
    let mut b: usize = n;
    proof {
        assert(s@.subrange(a as int, n as int) =~= spec_trim_start(s@));
        assert(spec_trim_end(s@.subrange(a as int, b as int)) == spec_trim_end(
            spec_trim_start(s@),
        ));
    }
    while b > a && is_space_exec(s.get_char(b - 1))
        invariant
            a <= b <= n,
            spec_trim_end(s@.subrange(a as int, b as int)) == spec_trim(s@),
        decreases b,
    {
        proof {
            assert(s@.subrange(a as int, b as int).drop_last() =~= s@.subrange(a as int, b - 1));
        }
        b = b - 1;
    }
    let r = String::from_str(s.substring_char(a, b));
    proof {
        assert(spec_trim_end(s@.subrange(a as int, b as int)) == s@.subrange(a as int, b as int));
        assert(r@ =~= spec_trim(s@));
    }
    r
}

/// Whether a character counts as trimmable whitespace.
fn is_space_exec(c: char) -> (r: bool)
    ensures
        r == is_space(c),
{
    c == ' ' || c == '\n' || c == '\t' || c == '\r'
}

/// Plan the taps of a net device: one per queue pair, adopting the caller's
/// descriptors when a list was handed in, else to be opened by host device
/// name.  With neither source there is no tap.  The caller opens or adopts
/// each tap, checks its multiqueue flags with `check_mq`, and sets the
/// virtio-net header size.
pub fn create_tap(net_fds: Option<&Vec<i32>>, host_dev_name: Option<&str>, queue_pairs: u16) -> (r:
    Result<Option<Vec<TapConfig>>, NetError>)
    ensures
        net_fds is None && host_dev_name is None ==> (r matches Ok(o) && o is None),
        match (net_fds, r) {
            (Some(fds), Ok(o)) => {
                &&& fds@.len() >= queue_pairs
                &&& (o matches Some(taps) && taps@.len() == queue_pairs)
                &&& (forall|i: int|
                    0 <= i < queue_pairs ==> (#[trigger] (o->Some_0)@[i]).fd == fds@[i])
            },
            (Some(fds), Err(e)) => {
                &&& fds@.len() < queue_pairs
                &&& e == NetError::TapFdMissing(fds@.len() as u16)
            },
            (None, _) => true,
        },
        net_fds is None && host_dev_name is Some ==> (r matches Ok(o) && o matches Some(taps)
            && taps@.len() == queue_pairs && (forall|i: int|
            0 <= i < queue_pairs ==> (#[trigger] taps@[i]).fd == -1)),
{
    if net_fds.is_none() && host_dev_name.is_none() {
        return Ok(None);
    }
    let mut taps: Vec<TapConfig> = Vec::new();
    let mut index: u16 = 0;
    match net_fds {
        Some(fds) => {
            if fds.len() < queue_pairs as usize {
                return Err(NetError::TapFdMissing(fds.len() as u16));
            }
            while index < queue_pairs
                invariant
                    index <= queue_pairs,
                    fds@.len() >= queue_pairs,
                    taps@.len() == index,
                    forall|i: int| 0 <= i < index ==> (#[trigger] taps@[i]).fd == fds@[i],
                decreases queue_pairs - index,
            {
                taps.push(TapConfig { fd: fds[index as usize] });
                index = index + 1;
            }
        },
        None => {
            while index < queue_pairs
                invariant
                    index <= queue_pairs,
                    taps@.len() == index,
                    forall|i: int| 0 <= i < index ==> (#[trigger] taps@[i]).fd == -1,
                decreases queue_pairs - index,
            {
                taps.push(TapConfig { fd: -1 });
                index = index + 1;
            }
        },
    }
    Ok(Some(taps))
}

/// The feature bitmap every net device offers before multiqueue and MAC
/// are considered: virtio 1.0, checksum offload, segmentation offload in
/// both directions, and the event-index ring feature.
pub const NET_BASE_FEATURES: u64 = (1u64 << VIRTIO_F_VERSION_1) | (1u64 << VIRTIO_NET_F_CSUM) | (
    1u64 << VIRTIO_NET_F_GUEST_CSUM) | (1u64 << VIRTIO_NET_F_GUEST_TSO4) | (1u64
    << VIRTIO_NET_F_GUEST_TSO6) | (1u64 << VIRTIO_NET_F_GUEST_UFO) | (1u64
    << VIRTIO_NET_F_HOST_TSO4) | (1u64 << VIRTIO_NET_F_HOST_TSO6) | (1u64
    << VIRTIO_NET_F_HOST_UFO) | (1u64 << VIRTIO_F_RING_EVENT_IDX);

/// The feature bitmap `realize` computes from a configuration: the base
/// set, the multiqueue and control-queue bits when more than one queue pair
/// is configured, and the MAC bit when a well-formed MAC is configured.
pub open spec fn spec_realized_features(cfg: NetworkInterfaceConfig) -> u64 {
    let pairs = cfg.queues / 2;
    let with_mq = if cfg.mq && VIRTIO_NET_CTRL_MQ_VQ_PAIRS_MIN <= pairs
        && pairs <= VIRTIO_NET_CTRL_MQ_VQ_PAIRS_MAX {
        NET_BASE_FEATURES | (1u64 << VIRTIO_NET_F_MQ) | (1u64 << VIRTIO_NET_F_CTRL_VQ)
    } else {
        NET_BASE_FEATURES
    };
    match cfg.mac {
        Some(m) => if spec_mac_bytes(m@) is Some {
            with_mq | (1u64 << VIRTIO_NET_F_MAC)
        } else {
            with_mq
        },
        None => with_mq,
    }
}

/// The control-queue front half of an activated net device.
pub struct CtrlVirtio {
    /// The control ring.
    pub queue: SplitVring,
    /// The eventfd the guest kicks for this ring.
    pub queue_evt: i32,
}

impl CtrlVirtio {
    /// Bind a control ring to its kick descriptor.
    pub fn new(queue: SplitVring, queue_evt: i32) -> (r: CtrlVirtio)
        ensures
            r.queue == queue,
            r.queue_evt == queue_evt,
    {
        CtrlVirtio { queue, queue_evt }
    }
}

/// The receive half of one queue pair.
pub struct RxVirtio {
    /// Set when the guest ran out of receive descriptors; the tap is parked
    /// until the guest posts more.
    pub queue_full: bool,
    /// The receive ring.
    pub queue: SplitVring,
    /// The eventfd the guest kicks for this ring.
    pub queue_evt: i32,
}

impl RxVirtio {
    /// Bind a receive ring to its kick descriptor.
    pub fn new(queue: SplitVring, queue_evt: i32) -> (r: RxVirtio)
        ensures
            !r.queue_full,
            r.queue == queue,
            r.queue_evt == queue_evt,
    {
        RxVirtio { queue_full: false, queue, queue_evt }
    }
}

/// The transmit half of one queue pair.
pub struct TxVirtio {
    /// The transmit ring.
    pub queue: SplitVring,
    /// The eventfd the guest kicks for this ring.
    pub queue_evt: i32,
}

impl TxVirtio {
    /// Bind a transmit ring to its kick descriptor.
    pub fn new(queue: SplitVring, queue_evt: i32) -> (r: TxVirtio)
        ensures
            r.queue == queue,
            r.queue_evt == queue_evt,
    {
        TxVirtio { queue, queue_evt }
    }
}

/// The handler of the net control queue.
pub struct NetCtrlHandler {
    /// The control queue and its kick descriptor.
    pub ctrl: CtrlVirtio,
    /// The negotiated driver features.
    pub driver_features: u64,
    /// The device's deactivate eventfd.
    pub deactivate_evt: i32,
}

/// The handler of one receive/transmit queue pair.
pub struct NetIoHandler {
    /// The receive half.
    pub rx: RxVirtio,
    /// The transmit half.
    pub tx: TxVirtio,
    /// The tap descriptor packets move through, or -1 when none is bound.
    pub tap_fd: i32,
    /// The negotiated driver features.
    pub driver_features: u64,
    /// The eventfd signalling a tap replacement.
    pub update_evt: i32,
    /// The device's deactivate eventfd.
    pub deactivate_evt: i32,
    /// Whether the tap is currently armed in the event loop.
    pub is_listening: bool,
}

/// Everything `activate` sets up: the optional control-queue handler, one
/// I/O handler per queue pair, and the offload request for the taps.
pub struct NetActivationPlan {
    /// The control-queue handler, present when the driver negotiated the
    /// control queue and an odd queue was handed over for it.
    pub ctrl: Option<NetCtrlHandler>,
    /// One handler per receive/transmit queue pair.
    pub io_handlers: Vec<NetIoHandler>,
    /// The offload bits the caller writes to every tap.
    pub tap_offload_flags: u32,
}

/// The virtio-net device.
pub struct Net {
    /// Its configuration record.
    pub net_cfg: NetworkInterfaceConfig,
    /// The planned tap per queue pair, once realized.
    pub taps: Option<Vec<TapConfig>>,
    /// The negotiated state.
    pub state: VirtioNetState,
    /// Where the device stands in its lifecycle.
    pub dev_state: DeviceState,
    /// The eventfd signalling a tap replacement; -1 until the host side
    /// assigns one.
    pub update_evt: i32,
    /// The eventfd signalling deactivation; -1 until the host side assigns
    /// one.
    pub deactivate_evt: i32,
}

impl Default for Net {
    /// A net device with the default configuration, nothing negotiated.
    fn default() -> (r: Net)
        ensures
            r.net_cfg.queues == 2,
            !r.net_cfg.mq,
            r.net_cfg.mac is None,
            r.net_cfg.tap_fds is None,
            r.net_cfg.vhost_type is None,
            r.net_cfg.vhost_fds is None,
            r.net_cfg.host_dev_name@ == Seq::<char>::empty(),
            r.taps is None,
            r.state.device_features == 0,
            r.state.driver_features == 0,
            r.state.config_space == VirtioNetConfig::spec_default(),
            r.dev_state == DeviceState::Uninit,
            r.update_evt == -1,
            r.deactivate_evt == -1,
    {
        Net {
            net_cfg: NetworkInterfaceConfig::new(),
            taps: None,
            state: VirtioNetState::new(),
            dev_state: DeviceState::Uninit,
            update_evt: -1,
            deactivate_evt: -1,
        }
    }
}

impl Net {
    /// A net device over the given configuration, nothing negotiated.
    pub fn new(net_cfg: NetworkInterfaceConfig) -> (r: Net)
        ensures
            r.net_cfg == net_cfg,
            r.taps is None,
            r.state.device_features == 0,
            r.state.driver_features == 0,
            r.state.config_space == VirtioNetConfig::spec_default(),
            r.dev_state == DeviceState::Uninit,
            r.update_evt == -1,
            r.deactivate_evt == -1,
    {
        Net {
            net_cfg,
            taps: None,
            state: VirtioNetState::new(),
            dev_state: DeviceState::Uninit,
            update_evt: -1,
            deactivate_evt: -1,
        }
    }

    /// Compute the offered features from the configuration, plan the taps,
    /// and read the configured MAC into config space.
    ///
    /// The caller must have confirmed the configured I/O thread exists
    /// before calling, opens the planned taps afterwards, and sets the
    /// virtio-net header size on each.
    pub fn realize(&mut self) -> (r: Result<(), NetError>)
        ensures
            final(self).net_cfg == old(self).net_cfg,
            final(self).state.driver_features == old(self).state.driver_features,
            final(self).dev_state == if old(self).dev_state == DeviceState::Uninit {
                DeviceState::Created
            } else {
                old(self).dev_state
            },
            final(self).update_evt == old(self).update_evt,
            final(self).deactivate_evt == old(self).deactivate_evt,
            r is Ok ==> final(self).state.device_features == spec_realized_features(
                old(self).net_cfg,
            ),
            r is Ok ==> final(self).state.config_space.max_virtqueue_pairs == {
                let pairs = old(self).net_cfg.queues / 2;
                if old(self).net_cfg.mq && VIRTIO_NET_CTRL_MQ_VQ_PAIRS_MIN <= pairs && pairs
                    <= VIRTIO_NET_CTRL_MQ_VQ_PAIRS_MAX {
                    pairs
                } else {
                    old(self).state.config_space.max_virtqueue_pairs
                }
            },
            r is Ok && old(self).net_cfg.host_dev_name@.len() > 0 ==> (final(self).taps matches
                Some(taps) && taps@.len() == old(self).net_cfg.queues / 2 && (forall|i: int|
                0 <= i < taps@.len() ==> (#[trigger] taps@[i]).fd == -1)),
            (r is Ok && old(self).net_cfg.host_dev_name@.len() == 0 && (old(self).net_cfg.tap_fds matches Some(fds))) ==> (old(self).net_cfg.tap_fds matches Some(fds)
                && final(self).taps matches Some(taps) && taps@.len() == old(self).net_cfg.queues
                / 2 && (forall|i: int| 0 <= i < taps@.len() ==> (#[trigger] taps@[i]).fd == fds@[i])),
            old(self).net_cfg.host_dev_name@.len() == 0 && old(self).net_cfg.tap_fds is None ==> (
            r is Ok && final(self).taps is None),
            r matches Err(e) ==> ((e matches NetError::TapFdMissing(_)) && old(self).net_cfg.host_dev_name@.len() == 0 && (old(self).net_cfg.tap_fds matches Some(fds)
                && fds@.len() < old(self).net_cfg.queues / 2)),
            (old(self).net_cfg.host_dev_name@.len() == 0 && (old(self).net_cfg.tap_fds matches
                Some(fds) && fds@.len() < old(self).net_cfg.queues / 2)) ==> r is Err,
            old(self).net_cfg.host_dev_name@.len() > 0 ==> r is Ok,
            r is Ok ==> ({
                let cs0 = old(self).state.config_space;
                let cs1 = final(self).state.config_space;
                &&& cs1.status == cs0.status
                &&& cs1.mtu == cs0.mtu
                &&& cs1.speed == cs0.speed
                &&& cs1.duplex == cs0.duplex
                &&& (match old(self).net_cfg.mac {
                    Some(m) => (match spec_mac_bytes(m@) {
                        Some(bytes) => cs1.mac@ == bytes,
                        None => cs1.mac@ == cs0.mac@,
                    }),
                    None => cs1.mac@ == cs0.mac@,
                })
            }),
    {
        if self.dev_state == DeviceState::Uninit {
            self.dev_state = DeviceState::Created;
        }
        let mut features: u64 = NET_BASE_FEATURES;
        let queue_pairs: u16 = self.net_cfg.queues / 2;
        if self.net_cfg.mq && queue_pairs >= VIRTIO_NET_CTRL_MQ_VQ_PAIRS_MIN && queue_pairs
            <= VIRTIO_NET_CTRL_MQ_VQ_PAIRS_MAX {
            features = NET_BASE_FEATURES | (1u64 << VIRTIO_NET_F_MQ) | (1u64
                << VIRTIO_NET_F_CTRL_VQ);
            self.state.config_space.max_virtqueue_pairs = queue_pairs;
        }

        if self.net_cfg.host_dev_name.as_str().unicode_len() > 0 {
            self.taps = match create_tap(None, Some(self.net_cfg.host_dev_name.as_str()),
                queue_pairs) {
                Ok(t) => t,
                Err(e) => {
                    return Err(e);
                },
            };
        } else {
            match &self.net_cfg.tap_fds {
                Some(fds) => {
                    let plan = match create_tap(Some(fds), None, queue_pairs) {
                        Ok(t) => t,
                        Err(e) => {
                            return Err(e);
                        },
                    };
                    self.taps = plan;
                },
                None => {
                    self.taps = None;
                },
            }
        }

        self.state.device_features = match &self.net_cfg.mac {
            Some(mac) => features | build_device_config_space(
                &mut self.state.config_space,
                mac.as_str(),
            ),
            None => features,
        };
        proof {
            assert(features | 0u64 == features) by (bit_vector);
        }
        Ok(())
    }

    /// Forget the device: allowed in every state but `Activated`.
    pub fn unrealize(&mut self) -> (r: Result<(), VirtioError>)
        ensures
            old(self).dev_state == DeviceState::Activated ==> (r == Err::<(), VirtioError>(
                VirtioError::Lifecycle,
            ) && *final(self) == *old(self)),
            old(self).dev_state != DeviceState::Activated ==> (r is Ok && final(self).dev_state
                == DeviceState::Uninit && final(self).state == old(self).state && final(self).net_cfg == old(self).net_cfg),
    {
        if self.dev_state == DeviceState::Activated {
            return Err(VirtioError::Lifecycle);
        }
        self.dev_state = DeviceState::Uninit;
        Ok(())
    }

    /// The virtio device type tag.
    pub fn device_type(&self) -> (r: u32)
        ensures
            r == VIRTIO_TYPE_NET,
    {
        VIRTIO_TYPE_NET
    }

    /// How many virtqueues the device uses: a pair per queue pair, plus the
    /// control queue under multiqueue.
    pub fn queue_num(&self) -> (r: usize)
        ensures
            r == if self.net_cfg.mq {
                self.net_cfg.queues + 1
            } else {
                QUEUE_NUM_NET as int
            },
    {
        if self.net_cfg.mq {
            (self.net_cfg.queues as usize) + 1
        } else {
            QUEUE_NUM_NET
        }
    }

    /// The size of each virtqueue.
    pub fn queue_size(&self) -> (r: u16)
        ensures
            r == QUEUE_SIZE_NET,
    {
        QUEUE_SIZE_NET
    }

    /// The 32-bit page `features_select` of the offered features.
    pub fn get_device_features(&self, features_select: u32) -> (r: u32)
        ensures
            r == spec_u64_page(self.state.device_features, features_select),
    {
        read_u32(self.state.device_features, features_select)
    }

    /// Acknowledge driver features: the page is masked by the offered
    /// features, so no unoffered bit can come on.
    pub fn set_driver_features(&mut self, page: u32, value: u32)
        ensures
            final(self).state.driver_features == spec_checked_driver_features(
                old(self).state.device_features,
                old(self).state.driver_features,
                page,
                value,
            ),
            old(self).state.driver_features & !old(self).state.device_features == 0 ==> final(self).state.driver_features & !final(self).state.device_features == 0,
            final(self).state.device_features == old(self).state.device_features,
            final(self).state.config_space == old(self).state.config_space,
            final(self).net_cfg == old(self).net_cfg,
            final(self).dev_state == old(self).dev_state,
            final(self).taps == old(self).taps,
    {
        self.state.driver_features = checked_driver_features(
            self.state.device_features,
            self.state.driver_features,
            page,
            value,
        );
    }

    /// The 32-bit page `features_select` of the acknowledged features.
    pub fn get_driver_features(&self, features_select: u32) -> (r: u32)
        ensures
            r == spec_u64_page(self.state.driver_features, features_select),
    {
        read_u32(self.state.driver_features, features_select)
    }

    /// Read config-space bytes at `offset`: the bytes from `offset` to the
    /// end of the window of `len` bytes, clipped to the config length.  An
    /// offset at or past the end is refused.
    pub fn read_config(&self, offset: u64, len: usize) -> (r: Result<Vec<u8>, VirtioError>)
        ensures
            ({
                let cfg = self.state.config_space.spec_bytes();
                if offset >= cfg.len() {
                    r == Err::<Vec<u8>, VirtioError>(
                        VirtioError::DevConfigOverflow(offset, cfg.len() as u64),
                    )
                } else {
                    r matches Ok(b) && b@ == cfg.subrange(
                        offset as int,
                        if offset + len <= cfg.len() {
                            offset + len
                        } else {
                            cfg.len() as int
                        },
                    )
                }
            }),
    {
        let bytes = self.state.config_space.to_bytes();
        let cfg_len = bytes.len();
        if offset >= cfg_len as u64 {
            return Err(VirtioError::DevConfigOverflow(offset, cfg_len as u64));
        }
        let start = offset as usize;
        let end = if len <= cfg_len - start {
            start + len
        } else {
            cfg_len
        };
        let mut out: Vec<u8> = Vec::new();
        let mut i: usize = start;
        while i < end
            invariant
                start <= i <= end <= bytes@.len(),
                out@ == bytes@.subrange(start as int, i as int),
            decreases end - i,
        {
            out.push(bytes[i]);
            proof {
                assert(out@ =~= bytes@.subrange(start as int, i + 1));
            }
            i = i + 1;
        }
        Ok(out)
    }

    /// Write config-space bytes from the guest: only a full MAC write at
    /// offset 0 is honoured, and only for a driver that negotiated neither
    /// VERSION_1 nor CTRL_MAC_ADDR and writes a different address.
    pub fn write_config(&mut self, offset: u64, data: &[u8]) -> (r: Result<(), VirtioError>)
        ensures
            r is Ok,
            ({
                let accept = !spec_has_feature(
                    old(self).state.driver_features,
                    VIRTIO_NET_F_CTRL_MAC_ADDR,
                ) && !spec_has_feature(old(self).state.driver_features, VIRTIO_F_VERSION_1)
                    && offset == 0 && data@.len() == MAC_ADDR_LEN && data@
                    != old(self).state.config_space.mac@;
                if accept {
                    let ns = final(self).state;
                    let os = old(self).state;
                    &&& ns.config_space.mac@ == data@
                    &&& ns.config_space.status == os.config_space.status
                    &&& ns.config_space.max_virtqueue_pairs == os.config_space.max_virtqueue_pairs
                    &&& ns.config_space.mtu == os.config_space.mtu
                    &&& ns.config_space.speed == os.config_space.speed
                    &&& ns.config_space.duplex == os.config_space.duplex
                    &&& ns.device_features == os.device_features
                    &&& ns.driver_features == os.driver_features
                } else {
                    *final(self) == *old(self)
                }
            }),
    {
        let has_ctrl_mac = virtio_has_feature(
            self.state.driver_features,
            VIRTIO_NET_F_CTRL_MAC_ADDR,
        );
        let has_v1 = virtio_has_feature(self.state.driver_features, VIRTIO_F_VERSION_1);
        if !has_ctrl_mac && !has_v1 && offset == 0 && data.len() == MAC_ADDR_LEN {
            let same = data[0] == self.state.config_space.mac[0] && data[1]
                == self.state.config_space.mac[1] && data[2] == self.state.config_space.mac[2]
                && data[3] == self.state.config_space.mac[3] && data[4]
                == self.state.config_space.mac[4] && data[5] == self.state.config_space.mac[5];
            proof {
                if same {
                    assert(data@ =~= self.state.config_space.mac@);
                }
            }
            if !same {
                self.state.config_space.mac = [data[0], data[1], data[2], data[3], data[4], data[5]];
                proof {
                    assert(self.state.config_space.mac@ =~= data@);
                }
            }
        }
        Ok(())
    }

    /// Build the handlers of an activated device: the control-queue handler
    /// when the driver negotiated the control queue and an odd ring was
    /// handed over, and one I/O handler per queue pair, each bound to its
    /// planned tap.  The caller registers each handler's notifiers with the
    /// event loop and performs the tap offload write.
    #[verifier::loop_isolation(false)]
    pub fn activate(&mut self, queues: Vec<SplitVring>, queue_evts: Vec<i32>) -> (r: Result<
        NetActivationPlan,
        VirtioError,
    >)
        requires
            queues@.len() == queue_evts@.len(),
        ensures
            final(self).net_cfg == old(self).net_cfg,
            final(self).state == old(self).state,
            final(self).taps == old(self).taps,
            !(old(self).dev_state == DeviceState::Created || old(self).dev_state
                == DeviceState::Deactivated) ==> (r == Err::<NetActivationPlan, VirtioError>(
                VirtioError::Lifecycle,
            ) && final(self).dev_state == old(self).dev_state),
            (old(self).dev_state == DeviceState::Created || old(self).dev_state
                == DeviceState::Deactivated) ==> {
                let has_ctrl = spec_has_feature(
                    old(self).state.driver_features,
                    VIRTIO_NET_F_CTRL_VQ,
                ) && queues@.len() % 2 == 1;
                let pairs = queues@.len() as int / 2;
                &&& r is Ok
                &&& final(self).dev_state == DeviceState::Activated
                &&& ({
                    let plan = r->Ok_0;
                    &&& plan.tap_offload_flags == spec_tap_offload_flags(
                        spec_u64_page(old(self).state.driver_features, 0) as u64,
                    )
                    &&& if has_ctrl {
                        plan.ctrl matches Some(c) && c.ctrl.queue == queues@.last()
                            && c.ctrl.queue_evt == queue_evts@.last() && c.driver_features == old(self).state.driver_features && c.deactivate_evt == old(self).deactivate_evt
                    } else {
                        plan.ctrl is None
                    }
                    &&& plan.io_handlers@.len() == pairs
                    &&& (forall|i: int|
                        0 <= i < pairs ==> {
                            let h = #[trigger] plan.io_handlers@[i];
                            &&& h.rx.queue == queues@[2 * i]
                            &&& h.rx.queue_evt == queue_evts@[2 * i]
                            &&& !h.rx.queue_full
                            &&& h.tx.queue == queues@[2 * i + 1]
                            &&& h.tx.queue_evt == queue_evts@[2 * i + 1]
                            &&& h.driver_features == old(self).state.driver_features
                            &&& h.update_evt == old(self).update_evt
                            &&& h.deactivate_evt == old(self).deactivate_evt
                            &&& h.is_listening
                            &&& h.tap_fd == (match old(self).taps {
                                Some(taps) => if i < taps@.len() {
                                    taps@[i].fd as int
                                } else {
                                    -1
                                },
                                None => -1,
                            })
                        })
                })
            },
    {
        if !(self.dev_state == DeviceState::Created || self.dev_state == DeviceState::Deactivated) {
            return Err(VirtioError::Lifecycle);
        }
        let queue_num = queues.len();
        let has_ctrl = virtio_has_feature(self.state.driver_features, VIRTIO_NET_F_CTRL_VQ)
            && queue_num % 2 == 1;
        let ctrl = if has_ctrl {
            let cq = queues[queue_num - 1].clone();
            let cevt = queue_evts[queue_num - 1];
            Some(
                NetCtrlHandler {
                    ctrl: CtrlVirtio::new(cq, cevt),
                    driver_features: self.state.driver_features,
                    deactivate_evt: self.deactivate_evt,
                },
            )
        } else {
            None
        };

        let flags = get_tap_offload_flags(self.get_driver_features(0) as u64);

        let pairs = queue_num / 2;
        let mut io_handlers: Vec<NetIoHandler> = Vec::new();
        let mut index: usize = 0;
        while index < pairs
            invariant
                index <= pairs,
                pairs == queues@.len() as int / 2,
                queues@.len() == queue_evts@.len(),
                io_handlers@.len() == index,
                forall|i: int|
                    0 <= i < index ==> {
                        let h = #[trigger] io_handlers@[i];
                        &&& h.rx.queue == queues@[2 * i]
                        &&& h.rx.queue_evt == queue_evts@[2 * i]
                        &&& !h.rx.queue_full
                        &&& h.tx.queue == queues@[2 * i + 1]
                        &&& h.tx.queue_evt == queue_evts@[2 * i + 1]
                        &&& h.driver_features == self.state.driver_features
                        &&& h.update_evt == self.update_evt
                        &&& h.deactivate_evt == self.deactivate_evt
                        &&& h.is_listening
                        &&& h.tap_fd == (match self.taps {
                            Some(taps) => if i < taps@.len() {
                                taps@[i].fd as int
                            } else {
                                -1
                            },
                            None => -1,
                        })
                    },
            decreases pairs - index,
        {
            let rx_queue = queues[index * 2].clone();
            let rx_evt = queue_evts[index * 2];
            let tx_queue = queues[index * 2 + 1].clone();
            let tx_evt = queue_evts[index * 2 + 1];
            let tap_fd: i32 = match &self.taps {
                Some(taps) => {
                    if index < taps.len() {
                        taps[index].fd
                    } else {
                        -1
                    }
                },
                None => -1,
            };
            io_handlers.push(
                NetIoHandler {
                    rx: RxVirtio::new(rx_queue, rx_evt),
                    tx: TxVirtio::new(tx_queue, tx_evt),
                    tap_fd,
                    driver_features: self.state.driver_features,
                    update_evt: self.update_evt,
                    deactivate_evt: self.deactivate_evt,
                    is_listening: true,
                },
            );
            index = index + 1;
        }

        self.dev_state = DeviceState::Activated;
        Ok(NetActivationPlan { ctrl, io_handlers, tap_offload_flags: flags })
    }

    /// Leave the activated state.  The caller signals the deactivate
    /// eventfd so the handlers withdraw their notifiers.
    pub fn deactivate(&mut self) -> (r: Result<(), VirtioError>)
        ensures
            old(self).dev_state == DeviceState::Activated ==> (r is Ok && final(self).dev_state
                == DeviceState::Deactivated && final(self).state == old(self).state && final(self).net_cfg == old(self).net_cfg),
            old(self).dev_state != DeviceState::Activated ==> (r == Err::<(), VirtioError>(
                VirtioError::Lifecycle,
            ) && *final(self) == *old(self)),
    {
        if self.dev_state != DeviceState::Activated {
            return Err(VirtioError::Lifecycle);
        }
        self.dev_state = DeviceState::Deactivated;
        Ok(())
    }

    /// Adopt a new configuration (or the default), recompute features and
    /// the tap plan, and return the offload bits for the replacement taps.
    /// The caller opens the new taps, hands one to each queue-pair handler,
    /// and signals the update eventfd.
    pub fn update_config(&mut self, dev_config: Option<NetworkInterfaceConfig>) -> (r: Result<
        u32,
        NetError,
    >)
        ensures
            final(self).state.driver_features == old(self).state.driver_features,
            final(self).update_evt == old(self).update_evt,
            final(self).deactivate_evt == old(self).deactivate_evt,
            final(self).dev_state == if old(self).dev_state == DeviceState::Uninit {
                DeviceState::Created
            } else {
                old(self).dev_state
            },
            dev_config matches Some(c) ==> final(self).net_cfg == c,
            dev_config is None ==> ({
                let cfg = final(self).net_cfg;
                &&& cfg.id@ == Seq::<char>::empty()
                &&& cfg.host_dev_name@ == Seq::<char>::empty()
                &&& cfg.mac is None
                &&& cfg.tap_fds is None
                &&& cfg.vhost_type is None
                &&& cfg.vhost_fds is None
                &&& cfg.iothread is None
                &&& cfg.queues == 2
                &&& !cfg.mq
                &&& r is Ok
            }),
            dev_config matches Some(c) ==> (r is Err <==> (c.host_dev_name@.len() == 0 && (
            c.tap_fds matches Some(fds) && fds@.len() < c.queues / 2))),
            r matches Err(e) ==> (e matches NetError::TapFdMissing(_)),
            r matches Ok(flags) ==> flags == spec_tap_offload_flags(
                spec_u64_page(old(self).state.driver_features, 0) as u64,
            ),
            r is Ok ==> final(self).state.device_features == spec_realized_features(
                final(self).net_cfg,
            ),
            r is Ok ==> final(self).state.config_space.max_virtqueue_pairs == ({
                let cfg = final(self).net_cfg;
                let pairs = cfg.queues / 2;
                if cfg.mq && VIRTIO_NET_CTRL_MQ_VQ_PAIRS_MIN <= pairs && pairs
                    <= VIRTIO_NET_CTRL_MQ_VQ_PAIRS_MAX {
                    pairs
                } else {
                    old(self).state.config_space.max_virtqueue_pairs
                }
            }),
            r is Ok && final(self).net_cfg.host_dev_name@.len() > 0 ==> (final(self).taps matches
                Some(taps) && taps@.len() == final(self).net_cfg.queues / 2 && (forall|i: int|
                0 <= i < taps@.len() ==> (#[trigger] taps@[i]).fd == -1)),
            (r is Ok && final(self).net_cfg.host_dev_name@.len() == 0 && (
            final(self).net_cfg.tap_fds matches Some(fds))) ==> (final(self).net_cfg.tap_fds
                matches Some(fds) && final(self).taps matches Some(taps) && taps@.len() == final(self).net_cfg.queues / 2 && (forall|i: int|
                0 <= i < taps@.len() ==> (#[trigger] taps@[i]).fd == fds@[i])),
            (r is Ok && final(self).net_cfg.host_dev_name@.len() == 0 && final(self).net_cfg.tap_fds is None) ==> final(self).taps is None,
    {
        match dev_config {
            Some(c) => {
                self.net_cfg = c;
            },
            None => {
                self.net_cfg = NetworkInterfaceConfig::new();
            },
        }
        let flags = get_tap_offload_flags(self.get_driver_features(0) as u64);
        match self.realize() {
            Ok(_) => {},
            Err(e) => {
                return Err(e);
            },
        }
        Ok(flags)
    }
}


/// The verdict on one control-queue request, judged over the chain's
/// guest-readable buffers `outs` and device-writable buffers `ins` in the
/// memory image `mem`: the only class served is multiqueue, its only
/// command is setting the queue-pair count, and the count must lie in the
/// permitted interval.  A header, count or status buffer outside guest
/// memory is a protocol fault.
pub open spec fn spec_ctrl_verdict(
    mem: Seq<u8>,
    outs: Seq<ElemIovec>,
    ins: Seq<ElemIovec>,
) -> Result<(), VirtioError> {
    let head_ok = if outs.len() == 0 {
        Ok(())
    } else if !(outs[0].addr + 2 <= mem.len()) {
        Err(VirtioError::QueueDesc)
    } else {
        let class = mem[outs[0].addr as int] as u16;
        let cmd = mem[outs[0].addr + 1] as u16;
        if class != VIRTIO_NET_CTRL_MQ {
            Err(VirtioError::CtrlClass(class))
        } else if cmd != VIRTIO_NET_CTRL_MQ_VQ_PAIRS_SET {
            Err(VirtioError::CtrlCmd(cmd))
        } else if outs.len() >= 2 {
            if !(outs[1].addr + 2 <= mem.len()) {
                Err(VirtioError::QueueDesc)
            } else {
                let pairs = spec_le16(mem, outs[1].addr as int);
                if VIRTIO_NET_CTRL_MQ_VQ_PAIRS_MIN <= pairs <= VIRTIO_NET_CTRL_MQ_VQ_PAIRS_MAX {
                    Ok(())
                } else {
                    Err(VirtioError::CtrlQueuePairs(pairs))
                }
            }
        } else {
            Ok(())
        }
    };
    if head_ok is Err {
        head_ok
    } else if ins.len() > 0 && !(ins[0].addr + 1 <= mem.len()) {
        Err(VirtioError::QueueDesc)
    } else {
        Ok(())
    }
}

/// The used-ring length one control request consumes: the header buffer,
/// the queue-pair buffer when present, and the status buffer when present —
/// exactly the buffers the handler touches.
pub open spec fn spec_ctrl_used_len(outs: Seq<ElemIovec>, ins: Seq<ElemIovec>) -> int {
    let o = if outs.len() >= 2 {
        sum_iov_lens(outs.take(2))
    } else {
        sum_iov_lens(outs)
    };
    let i = if ins.len() >= 1 {
        ins[0].len as int
    } else {
        0
    };
    o + i
}

impl NetCtrlHandler {
    /// Serve one control-queue kick: pop the request, judge it, write the
    /// status byte into the request's device-writable buffer, publish the
    /// chain on the used ring, and say whether to interrupt the driver.
    pub fn handle_ctrl(&mut self, mem: &mut GuestMem) -> (r: Result<bool, VirtioError>)
        requires
            old(self).ctrl.queue.wf(),
            old(self).ctrl.queue.rings_valid(old(mem)@),
        ensures
            final(self).ctrl.queue.wf(),
            final(self).ctrl.queue.same_but_avail_used(old(self).ctrl.queue),
            final(self).ctrl.queue_evt == old(self).ctrl.queue_evt,
            final(self).driver_features == old(self).driver_features,
            final(self).deactivate_evt == old(self).deactivate_evt,
            final(mem)@.len() == old(mem)@.len(),
            old(self).ctrl.queue.spec_avail_len(old(mem)@) == 0 ==> {
                &&& r == Ok::<bool, VirtioError>(false)
                &&& final(mem)@ == old(mem)@
                &&& final(self).ctrl.queue == old(self).ctrl.queue
            },
            old(self).ctrl.queue.spec_avail_len(old(mem)@) != 0 && !old(
                self,
            ).ctrl.queue.spec_pop_valid(old(mem)@) ==> {
                &&& r is Err
                &&& final(self).ctrl.queue.broken
                &&& final(mem)@ == old(mem)@
            },
            old(self).ctrl.queue.spec_avail_len(old(mem)@) != 0 && old(
                self,
            ).ctrl.queue.spec_pop_valid(old(mem)@) ==> {
                let c = old(self).ctrl.queue.spec_chain(old(mem)@)->Some_0;
                let verdict = spec_ctrl_verdict(old(mem)@, out_iovs(c), in_iovs(c));
                &&& final(self).ctrl.queue.last_avail_idx == (old(
                    self,
                ).ctrl.queue.last_avail_idx + 1) % 0x10000
                &&& final(self).ctrl.queue.broken == old(self).ctrl.queue.broken
                &&& (verdict matches Err(e) ==> r == Err::<bool, VirtioError>(e) && final(mem)@
                    == old(mem)@ && final(self).ctrl.queue.next_used_idx == old(
                    self,
                ).ctrl.queue.next_used_idx)
                &&& (verdict is Ok ==> {
                    let q0 = old(self).ctrl.queue;
                    let q_pop = (SplitVring {
                        last_avail_idx: ((q0.last_avail_idx + 1) % 0x10000) as u16,
                        ..q0
                    });
                    let m_status = if in_iovs(c).len() > 0 {
                        old(mem)@.update(in_iovs(c)[0].addr as int, VIRTIO_NET_OK)
                    } else {
                        old(mem)@
                    };
                    &&& r is Ok
                    &&& spec_publish_and_notify(
                        q_pop,
                        m_status,
                        final(self).ctrl.queue,
                        final(mem)@,
                        q0.spec_head(old(mem)@),
                        spec_ctrl_used_len(out_iovs(c), in_iovs(c)) as u32,
                        old(self).driver_features,
                        r->Ok_0,
                    )
                })
            },
    {
        let ghost m0 = mem@;
        let ghost q0 = self.ctrl.queue;
        let elem = match self.ctrl.queue.pop_avail(mem, self.driver_features) {
            Ok(e) => e,
            Err(e) => {
                return Err(e);
            },
        };
        if elem.desc_num == 0 {
            return Ok(false);
        }
        proof {
            assert(q0.spec_avail_len(m0) != 0);
            assert(q0.spec_pop_valid(m0));
        }
        let ghost c = q0.spec_chain(m0)->Some_0;
        let ghost outs = out_iovs(c);
        let ghost ins = in_iovs(c);

        let mut used_len: u32 = 0;
        let ghost j: int = 0;
        let ghost k: int = 0;
        if elem.out_iovec.len() > 0 {
            let ctrl_desc = elem.out_iovec[0];
            proof {
                lemma_iov_take_unfold(outs, 1);
                assert(outs.take(0) =~= Seq::<ElemIovec>::empty());
                lemma_iov_prefix_sums_bounded(c, 1, 0);
                assert(ins.take(0) =~= Seq::<ElemIovec>::empty());
            }
            used_len = used_len + ctrl_desc.len;
            if !mem.check_range(ctrl_desc.addr, 2) {
                return Err(VirtioError::QueueDesc);
            }
            proof {
                mem.lemma_len_fits();
            }
            let class = mem.read_u8(ctrl_desc.addr) as u16;
            let cmd = mem.read_u8(ctrl_desc.addr + 1) as u16;
            proof {
                assert(spec_le16(m0, ctrl_desc.addr as int) ==
                    m0[ctrl_desc.addr as int] + m0[ctrl_desc.addr + 1] * 0x100);
            }
            if class != VIRTIO_NET_CTRL_MQ {
                return Err(VirtioError::CtrlClass(class));
            }
            if cmd != VIRTIO_NET_CTRL_MQ_VQ_PAIRS_SET {
                return Err(VirtioError::CtrlCmd(cmd));
            }
            if elem.out_iovec.len() > 1 {
                let mq_desc = elem.out_iovec[1];
                proof {
                    lemma_iov_take_unfold(outs, 2);
                    lemma_iov_prefix_sums_bounded(c, 2, 0);
                }
                used_len = used_len + mq_desc.len;
                proof {
                    j = 2;
                }
                if !mem.check_range(mq_desc.addr, 2) {
                    return Err(VirtioError::QueueDesc);
                }
                let queue_pairs = mem.read_u16(mq_desc.addr);
                if queue_pairs < VIRTIO_NET_CTRL_MQ_VQ_PAIRS_MIN || queue_pairs
                    > VIRTIO_NET_CTRL_MQ_VQ_PAIRS_MAX {
                    return Err(VirtioError::CtrlQueuePairs(queue_pairs));
                }
            } else {
                proof {
                    j = 1;
                }
            }
        }
        if elem.in_iovec.len() > 0 {
            let status = elem.in_iovec[0];
            proof {
                lemma_iov_take_unfold(ins, 1);
                assert(ins.take(0) =~= Seq::<ElemIovec>::empty());
                lemma_iov_prefix_sums_bounded(c, j, 1);
                assert(used_len == sum_iov_lens(outs.take(j)));
            }
            used_len = used_len + status.len;
            if !mem.check_range(status.addr, 1) {
                return Err(VirtioError::QueueDesc);
            }
            mem.write_u8(status.addr, VIRTIO_NET_OK);
        }

        proof {
            if outs.len() >= 1 {
                lemma_iov_take_unfold(outs, 1);
                assert(outs.take(0) =~= Seq::<ElemIovec>::empty());
                if outs.len() >= 2 {
                    lemma_iov_take_unfold(outs, 2);
                } else {
                    assert(outs.take(1) =~= outs);
                }
            }
            assert(used_len as int == spec_ctrl_used_len(outs, ins));
        }
        match self.ctrl.queue.add_used(mem, elem.index, used_len) {
            Ok(_) => {},
            Err(e) => {
                return Err(e);
            },
        }
        let notify = self.ctrl.queue.should_notify(mem, self.driver_features);
        Ok(notify)
    }

    /// The notifiers this handler registers: its queue kick and the
    /// device's deactivate event, both shared level-triggered reads.
    pub fn internal_notifiers(&self) -> (r: Vec<EventNotifier>)
        ensures
            r@ == seq![
                EventNotifier {
                    op: NotifierOperation::AddShared,
                    fd: self.ctrl.queue_evt,
                    events: EVENT_IN,
                    handler: HandlerKind::CtrlQueue,
                },
                EventNotifier {
                    op: NotifierOperation::AddShared,
                    fd: self.deactivate_evt,
                    events: EVENT_IN,
                    handler: HandlerKind::DeactivateEvt,
                },
            ],
    {
        let mut r: Vec<EventNotifier> = Vec::new();
        r.push(
            EventNotifier::new(
                NotifierOperation::AddShared,
                self.ctrl.queue_evt,
                EVENT_IN,
                HandlerKind::CtrlQueue,
            ),
        );
        r.push(
            EventNotifier::new(
                NotifierOperation::AddShared,
                self.deactivate_evt,
                EVENT_IN,
                HandlerKind::DeactivateEvt,
            ),
        );
        proof {
            assert(r@ =~= seq![
                EventNotifier {
                    op: NotifierOperation::AddShared,
                    fd: self.ctrl.queue_evt,
                    events: EVENT_IN,
                    handler: HandlerKind::CtrlQueue,
                },
                EventNotifier {
                    op: NotifierOperation::AddShared,
                    fd: self.deactivate_evt,
                    events: EVENT_IN,
                    handler: HandlerKind::DeactivateEvt,
                },
            ]);
        }
        r
    }

    /// The batch withdrawing this handler from the event loop: deletes of
    /// its queue kick and the deactivate event.
    pub fn deactivate_evt_handler(&self) -> (r: Vec<EventNotifier>)
        ensures
            r@ == seq![
                EventNotifier {
                    op: NotifierOperation::Delete,
                    fd: self.ctrl.queue_evt,
                    events: EVENT_IN,
                    handler: HandlerKind::NoCallback,
                },
                EventNotifier {
                    op: NotifierOperation::Delete,
                    fd: self.deactivate_evt,
                    events: EVENT_IN,
                    handler: HandlerKind::NoCallback,
                },
            ],
    {
        let mut r: Vec<EventNotifier> = Vec::new();
        r.push(EventNotifier::delete(self.ctrl.queue_evt));
        r.push(EventNotifier::delete(self.deactivate_evt));
        proof {
            assert(r@ =~= seq![
                EventNotifier {
                    op: NotifierOperation::Delete,
                    fd: self.ctrl.queue_evt,
                    events: EVENT_IN,
                    handler: HandlerKind::NoCallback,
                },
                EventNotifier {
                    op: NotifierOperation::Delete,
                    fd: self.deactivate_evt,
                    events: EVENT_IN,
                    handler: HandlerKind::NoCallback,
                },
            ]);
        }
        r
    }
}

/// One step of the receive path: either the guest has no buffer (the device
/// goes into backpressure), or a chain was popped whose device-writable
/// buffers await a packet.
pub enum RxStep {
    /// No available entry: `queue_full` is set and the tap will be parked.
    QueueEmpty,
    /// A chain was popped: its head index and its device-writable buffers,
    /// into which the caller reads one packet.
    Descriptor(u16, Vec<ElemIovec>),
}

/// What the host read into the popped buffers.
#[derive(Clone, Copy, Debug, PartialEq, Eq, Structural)]
pub enum RxIoResult {
    /// A packet of this many bytes arrived.
    Received(u32),
    /// Nothing to read yet: the chain is handed back to the ring.
    WouldBlock,
    /// The read failed: the chain is handed back and the caller drains the
    /// tap once.
    Failed,
}

impl NetIoHandler {
    /// Pop the next receive chain, or report the ring empty and enter
    /// backpressure.
    pub fn rx_prepare(&mut self, mem: &GuestMem) -> (r: Result<RxStep, VirtioError>)
        requires
            old(self).rx.queue.wf(),
            old(self).rx.queue.rings_valid(mem@),
        ensures
            final(self).rx.queue.wf(),
            final(self).rx.queue.same_but_avail(old(self).rx.queue),
            final(self).tx == old(self).tx,
            final(self).tap_fd == old(self).tap_fd,
            final(self).is_listening == old(self).is_listening,
            final(self).driver_features == old(self).driver_features,
            final(self).rx.queue_evt == old(self).rx.queue_evt,
            old(self).rx.queue.spec_avail_len(mem@) == 0 ==> {
                &&& r matches Ok(RxStep::QueueEmpty)
                &&& final(self).rx.queue_full
                &&& final(self).rx.queue == old(self).rx.queue
            },
            old(self).rx.queue.spec_avail_len(mem@) != 0 && old(self).rx.queue.spec_pop_valid(mem@)
                ==> {
                let c = old(self).rx.queue.spec_chain(mem@)->Some_0;
                &&& (r matches Ok(RxStep::Descriptor(idx, iovs)) && idx == old(
                    self,
                ).rx.queue.spec_head(mem@) && iovs@ == in_iovs(c))
                &&& final(self).rx.queue.last_avail_idx == (old(self).rx.queue.last_avail_idx + 1)
                    % 0x10000
                &&& final(self).rx.queue_full == old(self).rx.queue_full
                &&& final(self).rx.queue.broken == old(self).rx.queue.broken
            },
            old(self).rx.queue.spec_avail_len(mem@) != 0 && !old(self).rx.queue.spec_pop_valid(
                mem@,
            ) ==> {
                &&& r is Err
                &&& final(self).rx.queue.broken
            },
    {
        if self.rx.queue.avail_ring_len(mem) == 0 {
            self.rx.queue_full = true;
            return Ok(RxStep::QueueEmpty);
        }
        let elem = match self.rx.queue.pop_avail(mem, self.driver_features) {
            Ok(e) => e,
            Err(e) => {
                return Err(e);
            },
        };
        Ok(RxStep::Descriptor(elem.index, elem.in_iovec))
    }

    /// Account for the host's read into a popped receive chain: a received
    /// packet is published on the used ring (the result says whether to
    /// interrupt); a failed or would-block read hands the chain back.
    pub fn rx_complete(&mut self, mem: &mut GuestMem, index: u16, result: RxIoResult) -> (r: Result<
        bool,
        VirtioError,
    >)
        requires
            old(self).rx.queue.wf(),
            old(self).rx.queue.rings_valid(old(mem)@),
        ensures
            final(self).rx.queue.wf(),
            final(self).tx == old(self).tx,
            final(self).rx.queue.same_but_avail_used(old(self).rx.queue),
            final(self).rx.queue_full == old(self).rx.queue_full,
            final(mem)@.len() == old(mem)@.len(),
            result == RxIoResult::WouldBlock || result == RxIoResult::Failed ==> {
                &&& r == Ok::<bool, VirtioError>(false)
                &&& final(mem)@ == old(mem)@
                &&& final(self).rx.queue.last_avail_idx == (old(self).rx.queue.last_avail_idx - 1)
                    % 0x10000
                &&& final(self).rx.queue.next_used_idx == old(self).rx.queue.next_used_idx
            },
            result matches RxIoResult::Received(n) ==> (index < old(self).rx.queue.size ==> {
                &&& r is Ok
                &&& spec_publish_and_notify(
                    old(self).rx.queue,
                    old(mem)@,
                    final(self).rx.queue,
                    final(mem)@,
                    index,
                    n,
                    old(self).driver_features,
                    r->Ok_0,
                )
            }),
            (result matches RxIoResult::Received(_)) && index >= old(self).rx.queue.size ==> {
                &&& r is Err
                &&& final(mem)@ == old(mem)@
                &&& final(self).rx.queue == old(self).rx.queue
            },
    {
        match result {
            RxIoResult::Received(n) => {
                match self.rx.queue.add_used(mem, index, n) {
                    Ok(_) => {},
                    Err(e) => {
                        return Err(e);
                    },
                }
                let notify = self.rx.queue.should_notify(mem, self.driver_features);
                Ok(notify)
            },
            RxIoResult::WouldBlock => {
                self.rx.queue.push_back();
                Ok(false)
            },
            RxIoResult::Failed => {
                self.rx.queue.push_back();
                Ok(false)
            },
        }
    }

    /// Pop the next transmit chain, whose guest-readable buffers the caller
    /// writes to the tap; `None` when the ring is empty.
    pub fn tx_prepare(&mut self, mem: &GuestMem) -> (r: Result<
        Option<(u16, Vec<ElemIovec>)>,
        VirtioError,
    >)
        requires
            old(self).tx.queue.wf(),
            old(self).tx.queue.rings_valid(mem@),
        ensures
            final(self).tx.queue.wf(),
            final(self).rx == old(self).rx,
            final(self).tx.queue.same_but_avail(old(self).tx.queue),
            final(self).tx.queue_evt == old(self).tx.queue_evt,
            old(self).tx.queue.spec_avail_len(mem@) == 0 ==> {
                &&& r matches Ok(o) && o is None
                &&& final(self).tx.queue == old(self).tx.queue
            },
            old(self).tx.queue.spec_avail_len(mem@) != 0 && old(self).tx.queue.spec_pop_valid(mem@)
                ==> {
                let c = old(self).tx.queue.spec_chain(mem@)->Some_0;
                &&& (r matches Ok(o) && o matches Some((idx, iovs)) && idx == old(
                    self,
                ).tx.queue.spec_head(mem@) && iovs@ == out_iovs(c))
                &&& final(self).tx.queue.last_avail_idx == (old(self).tx.queue.last_avail_idx + 1)
                    % 0x10000
                &&& final(self).tx.queue.broken == old(self).tx.queue.broken
            },
            old(self).tx.queue.spec_avail_len(mem@) != 0 && !old(self).tx.queue.spec_pop_valid(
                mem@,
            ) ==> {
                &&& r is Err
                &&& final(self).tx.queue.broken
            },
    {
        let elem = match self.tx.queue.pop_avail(mem, self.driver_features) {
            Ok(e) => e,
            Err(e) => {
                return Err(e);
            },
        };
        if elem.desc_num == 0 {
            return Ok(None);
        }
        Ok(Some((elem.index, elem.out_iovec)))
    }

    /// Publish a transmitted chain on the used ring with length 0, as the
    /// transmit path does, and say whether to interrupt the driver.
    pub fn tx_complete(&mut self, mem: &mut GuestMem, index: u16) -> (r: Result<
        bool,
        VirtioError,
    >)
        requires
            old(self).tx.queue.wf(),
            old(self).tx.queue.rings_valid(old(mem)@),
        ensures
            final(self).tx.queue.wf(),
            final(self).rx == old(self).rx,
            final(self).tx.queue.same_but_avail_used(old(self).tx.queue),
            final(mem)@.len() == old(mem)@.len(),
            index < old(self).tx.queue.size ==> {
                &&& r is Ok
                &&& spec_publish_and_notify(
                    old(self).tx.queue,
                    old(mem)@,
                    final(self).tx.queue,
                    final(mem)@,
                    index,
                    0,
                    old(self).driver_features,
                    r->Ok_0,
                )
            },
            index >= old(self).tx.queue.size ==> {
                &&& r is Err
                &&& final(mem)@ == old(mem)@
                &&& final(self).tx.queue == old(self).tx.queue
            },
    {
        match self.tx.queue.add_used(mem, index, 0) {
            Ok(_) => {},
            Err(e) => {
                return Err(e);
            },
        }
        let notify = self.tx.queue.should_notify(mem, self.driver_features);
        Ok(notify)
    }

    /// The notifiers this handler registers: the update and deactivate
    /// events and both queue kicks, plus the tap (edge-triggered) when one
    /// is bound.
    pub fn internal_notifiers(&self) -> (r: Vec<EventNotifier>)
        ensures
            ({
                let base = seq![
                    EventNotifier {
                        op: NotifierOperation::AddShared,
                        fd: self.update_evt,
                        events: EVENT_IN,
                        handler: HandlerKind::UpdateEvt,
                    },
                    EventNotifier {
                        op: NotifierOperation::AddShared,
                        fd: self.deactivate_evt,
                        events: EVENT_IN,
                        handler: HandlerKind::DeactivateEvt,
                    },
                    EventNotifier {
                        op: NotifierOperation::AddShared,
                        fd: self.rx.queue_evt,
                        events: EVENT_IN,
                        handler: HandlerKind::RxQueue,
                    },
                    EventNotifier {
                        op: NotifierOperation::AddShared,
                        fd: self.tx.queue_evt,
                        events: EVENT_IN,
                        handler: HandlerKind::TxQueue,
                    },
                ];
                if self.tap_fd != -1 {
                    r@ == base.push(
                        EventNotifier {
                            op: NotifierOperation::AddShared,
                            fd: self.tap_fd,
                            events: EVENT_IN | EVENT_EDGE,
                            handler: HandlerKind::Tap,
                        },
                    )
                } else {
                    r@ == base
                }
            }),
    {
        let mut r: Vec<EventNotifier> = Vec::new();
        r.push(
            EventNotifier::new(
                NotifierOperation::AddShared,
                self.update_evt,
                EVENT_IN,
                HandlerKind::UpdateEvt,
            ),
        );
        r.push(
            EventNotifier::new(
                NotifierOperation::AddShared,
                self.deactivate_evt,
                EVENT_IN,
                HandlerKind::DeactivateEvt,
            ),
        );
        r.push(
            EventNotifier::new(
                NotifierOperation::AddShared,
                self.rx.queue_evt,
                EVENT_IN,
                HandlerKind::RxQueue,
            ),
        );
        r.push(
            EventNotifier::new(
                NotifierOperation::AddShared,
                self.tx.queue_evt,
                EVENT_IN,
                HandlerKind::TxQueue,
            ),
        );
        if self.tap_fd != -1 {
            r.push(
                EventNotifier::new(
                    NotifierOperation::AddShared,
                    self.tap_fd,
                    EVENT_IN | EVENT_EDGE,
                    HandlerKind::Tap,
                ),
            );
        }
        proof {
            if self.tap_fd != -1 {
                assert(r@ =~= seq![
                    EventNotifier {
                        op: NotifierOperation::AddShared,
                        fd: self.update_evt,
                        events: EVENT_IN,
                        handler: HandlerKind::UpdateEvt,
                    },
                    EventNotifier {
                        op: NotifierOperation::AddShared,
                        fd: self.deactivate_evt,
                        events: EVENT_IN,
                        handler: HandlerKind::DeactivateEvt,
                    },
                    EventNotifier {
                        op: NotifierOperation::AddShared,
                        fd: self.rx.queue_evt,
                        events: EVENT_IN,
                        handler: HandlerKind::RxQueue,
                    },
                    EventNotifier {
                        op: NotifierOperation::AddShared,
                        fd: self.tx.queue_evt,
                        events: EVENT_IN,
                        handler: HandlerKind::TxQueue,
                    },
                ].push(
                    EventNotifier {
                        op: NotifierOperation::AddShared,
                        fd: self.tap_fd,
                        events: EVENT_IN | EVENT_EDGE,
                        handler: HandlerKind::Tap,
                    },
                ));
            } else {
                assert(r@ =~= seq![
                    EventNotifier {
                        op: NotifierOperation::AddShared,
                        fd: self.update_evt,
                        events: EVENT_IN,
                        handler: HandlerKind::UpdateEvt,
                    },
                    EventNotifier {
                        op: NotifierOperation::AddShared,
                        fd: self.deactivate_evt,
                        events: EVENT_IN,
                        handler: HandlerKind::DeactivateEvt,
                    },
                    EventNotifier {
                        op: NotifierOperation::AddShared,
                        fd: self.rx.queue_evt,
                        events: EVENT_IN,
                        handler: HandlerKind::RxQueue,
                    },
                    EventNotifier {
                        op: NotifierOperation::AddShared,
                        fd: self.tx.queue_evt,
                        events: EVENT_IN,
                        handler: HandlerKind::TxQueue,
                    },
                ]);
            }
        }
        r
    }

    /// The batch withdrawing this handler: deletes of the update and
    /// deactivate events, both queue kicks, and the bound tap, which is
    /// unbound in passing.
    pub fn deactivate_evt_handler(&mut self) -> (r: Vec<EventNotifier>)
        ensures
            final(self).tap_fd == -1,
            final(self).rx == old(self).rx,
            final(self).tx == old(self).tx,
            final(self).is_listening == old(self).is_listening,
            final(self).driver_features == old(self).driver_features,
            final(self).update_evt == old(self).update_evt,
            final(self).deactivate_evt == old(self).deactivate_evt,
            ({
                let base = seq![
                    EventNotifier {
                        op: NotifierOperation::Delete,
                        fd: old(self).update_evt,
                        events: EVENT_IN,
                        handler: HandlerKind::NoCallback,
                    },
                    EventNotifier {
                        op: NotifierOperation::Delete,
                        fd: old(self).deactivate_evt,
                        events: EVENT_IN,
                        handler: HandlerKind::NoCallback,
                    },
                    EventNotifier {
                        op: NotifierOperation::Delete,
                        fd: old(self).rx.queue_evt,
                        events: EVENT_IN,
                        handler: HandlerKind::NoCallback,
                    },
                    EventNotifier {
                        op: NotifierOperation::Delete,
                        fd: old(self).tx.queue_evt,
                        events: EVENT_IN,
                        handler: HandlerKind::NoCallback,
                    },
                ];
                if old(self).tap_fd != -1 {
                    r@ == base.push(
                        EventNotifier {
                            op: NotifierOperation::Delete,
                            fd: old(self).tap_fd,
                            events: EVENT_IN,
                            handler: HandlerKind::NoCallback,
                        },
                    )
                } else {
                    r@ == base
                }
            }),
    {
        let mut r: Vec<EventNotifier> = Vec::new();
        r.push(EventNotifier::delete(self.update_evt));
        r.push(EventNotifier::delete(self.deactivate_evt));
        r.push(EventNotifier::delete(self.rx.queue_evt));
        r.push(EventNotifier::delete(self.tx.queue_evt));
        let ghost base = r@;
        if self.tap_fd != -1 {
            r.push(EventNotifier::delete(self.tap_fd));
            self.tap_fd = -1;
        }
        proof {
            assert(base =~= seq![
                EventNotifier {
                    op: NotifierOperation::Delete,
                    fd: old(self).update_evt,
                    events: EVENT_IN,
                    handler: HandlerKind::NoCallback,
                },
                EventNotifier {
                    op: NotifierOperation::Delete,
                    fd: old(self).deactivate_evt,
                    events: EVENT_IN,
                    handler: HandlerKind::NoCallback,
                },
                EventNotifier {
                    op: NotifierOperation::Delete,
                    fd: old(self).rx.queue_evt,
                    events: EVENT_IN,
                    handler: HandlerKind::NoCallback,
                },
                EventNotifier {
                    op: NotifierOperation::Delete,
                    fd: old(self).tx.queue_evt,
                    events: EVENT_IN,
                    handler: HandlerKind::NoCallback,
                },
            ]);
        }
        r
    }

    /// Replace the bound tap after a reconfiguration: unregister the update
    /// event, both queue kicks and the old tap, then re-register the
    /// handler's notifiers around the new descriptor (-1 for none).
    pub fn update_evt_handler(&mut self, new_tap_fd: i32) -> (r: Vec<EventNotifier>)
        ensures
            final(self).tap_fd == new_tap_fd,
            final(self).rx == old(self).rx,
            final(self).tx == old(self).tx,
            final(self).is_listening == old(self).is_listening,
            final(self).driver_features == old(self).driver_features,
            final(self).update_evt == old(self).update_evt,
            final(self).deactivate_evt == old(self).deactivate_evt,
            ({
                let deletes_base = seq![
                    EventNotifier {
                        op: NotifierOperation::Delete,
                        fd: old(self).update_evt,
                        events: EVENT_IN,
                        handler: HandlerKind::NoCallback,
                    },
                    EventNotifier {
                        op: NotifierOperation::Delete,
                        fd: old(self).rx.queue_evt,
                        events: EVENT_IN,
                        handler: HandlerKind::NoCallback,
                    },
                    EventNotifier {
                        op: NotifierOperation::Delete,
                        fd: old(self).tx.queue_evt,
                        events: EVENT_IN,
                        handler: HandlerKind::NoCallback,
                    },
                ];
                let deletes = if old(self).tap_fd != -1 {
                    deletes_base.push(
                        EventNotifier {
                            op: NotifierOperation::Delete,
                            fd: old(self).tap_fd,
                            events: EVENT_IN,
                            handler: HandlerKind::NoCallback,
                        },
                    )
                } else {
                    deletes_base
                };
                let adds_base = seq![
                    EventNotifier {
                        op: NotifierOperation::AddShared,
                        fd: old(self).update_evt,
                        events: EVENT_IN,
                        handler: HandlerKind::UpdateEvt,
                    },
                    EventNotifier {
                        op: NotifierOperation::AddShared,
                        fd: old(self).deactivate_evt,
                        events: EVENT_IN,
                        handler: HandlerKind::DeactivateEvt,
                    },
                    EventNotifier {
                        op: NotifierOperation::AddShared,
                        fd: old(self).rx.queue_evt,
                        events: EVENT_IN,
                        handler: HandlerKind::RxQueue,
                    },
                    EventNotifier {
                        op: NotifierOperation::AddShared,
                        fd: old(self).tx.queue_evt,
                        events: EVENT_IN,
                        handler: HandlerKind::TxQueue,
                    },
                ];
                let adds = if new_tap_fd != -1 {
                    adds_base.push(
                        EventNotifier {
                            op: NotifierOperation::AddShared,
                            fd: new_tap_fd,
                            events: EVENT_IN | EVENT_EDGE,
                            handler: HandlerKind::Tap,
                        },
                    )
                } else {
                    adds_base
                };
                r@ == deletes + adds
            }),
    {
        let old_tap_fd = self.tap_fd;
        self.tap_fd = new_tap_fd;
        let mut r: Vec<EventNotifier> = Vec::new();
        r.push(EventNotifier::delete(self.update_evt));
        r.push(EventNotifier::delete(self.rx.queue_evt));
        r.push(EventNotifier::delete(self.tx.queue_evt));
        if old_tap_fd != -1 {
            r.push(EventNotifier::delete(old_tap_fd));
        }
        let mut fresh = self.internal_notifiers();
        let ghost deletes = r@;
        let ghost fresh_view = fresh@;
        r.append(&mut fresh);
        proof {
            assert(r@ == deletes + fresh_view);
        }
        r
    }

    /// The guest kicked the receive queue: if the tap was parked for
    /// backpressure, resume it.
    pub fn rx_queue_evt_handler(&mut self) -> (r: Option<EventNotifier>)
        ensures
            final(self).rx == old(self).rx,
            final(self).tx == old(self).tx,
            final(self).tap_fd == old(self).tap_fd,
            old(self).tap_fd != -1 && !old(self).is_listening ==> {
                &&& final(self).is_listening
                &&& r == Some(
                    EventNotifier {
                        op: NotifierOperation::Resume,
                        fd: old(self).tap_fd,
                        events: EVENT_IN,
                        handler: HandlerKind::NoCallback,
                    },
                )
            },
            !(old(self).tap_fd != -1 && !old(self).is_listening) ==> {
                &&& final(self).is_listening == old(self).is_listening
                &&& r is None
            },
    {
        if self.tap_fd != -1 && !self.is_listening {
            self.is_listening = true;
            return Some(
                EventNotifier::new(
                    NotifierOperation::Resume,
                    self.tap_fd,
                    EVENT_IN,
                    HandlerKind::NoCallback,
                ),
            );
        }
        None
    }

    /// The tap handler finished a burst: if the guest ran out of receive
    /// buffers meanwhile, park the tap until the next receive-queue kick.
    pub fn rx_backpressure_check(&mut self) -> (r: Option<EventNotifier>)
        ensures
            final(self).rx.queue == old(self).rx.queue,
            final(self).tx == old(self).tx,
            final(self).tap_fd == old(self).tap_fd,
            old(self).tap_fd != -1 && old(self).rx.queue_full ==> {
                &&& !final(self).is_listening
                &&& !final(self).rx.queue_full
                &&& r == Some(
                    EventNotifier {
                        op: NotifierOperation::Park,
                        fd: old(self).tap_fd,
                        events: EVENT_IN | EVENT_EDGE,
                        handler: HandlerKind::NoCallback,
                    },
                )
            },
            !(old(self).tap_fd != -1 && old(self).rx.queue_full) ==> {
                &&& final(self).is_listening == old(self).is_listening
                &&& final(self).rx.queue_full == old(self).rx.queue_full
                &&& r is None
            },
    {
        if self.tap_fd != -1 && self.rx.queue_full {
            self.is_listening = false;
            self.rx.queue_full = false;
            return Some(
                EventNotifier::new(
                    NotifierOperation::Park,
                    self.tap_fd,
                    EVENT_IN | EVENT_EDGE,
                    HandlerKind::NoCallback,
                ),
            );
        }
        None
    }
}

} // verus!
