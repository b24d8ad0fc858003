//! The balloon device's configuration: its record, its validity rules, and
//! the command-line grammar that produces it.
//!
//! A balloon command line is the device type followed by comma-separated
//! `key=value` items.  The grammar accepts exactly the balloon's own options
//! plus the PCI placement arguments, which the memory-mapped flavour of the
//! device refuses; a VM carries at most one balloon.  Faults are judged in a
//! fixed order: item shape, key validity and uniqueness, and each value's
//! form as the items are read; then the PCI-argument rule against the device
//! type; then the identifier's length and the automatic policy's ranges.

use vstd::prelude::*;

use crate::cmdline::{
    parse_u32_dec, spec_parse_u32, spec_split, split_on, str_ends_with, str_eq, views_of,
};
use crate::error::ConfigError;

verus! {

/// Smallest permitted memory-buffer percentage.
pub const MEM_BUFFER_PERCENT_MIN: u32 = 20;
/// Largest permitted memory-buffer percentage.
pub const MEM_BUFFER_PERCENT_MAX: u32 = 80;
/// Memory-buffer percentage used when none is given.
pub const MEM_BUFFER_PERCENT_DEFAULT: u32 = 50;
/// Smallest permitted monitor interval, in seconds.
pub const MONITOR_INTERVAL_SECOND_MIN: u32 = 5;
/// Largest permitted monitor interval, in seconds.
pub const MONITOR_INTERVAL_SECOND_MAX: u32 = 300;
/// Monitor interval used when none is given.
pub const MONITOR_INTERVAL_SECOND_DEFAULT: u32 = 10;
/// Longest permitted string argument.
pub const MAX_STRING_LENGTH: usize = 255;

/// Configuration of a balloon device.
#[derive(Clone, Debug, PartialEq, Eq)]
pub struct BalloonConfig {
    /// Identifier of the device.
    pub id: String,
    /// Whether the balloon deflates itself when the guest runs out of
    /// memory.
    pub deflate_on_oom: bool,
    /// Whether the guest reports free pages for reclaim in place.
    pub free_page_reporting: bool,
    /// Whether the monitor resizes the balloon automatically.
    pub auto_balloon: bool,
    /// Share of memory kept as buffer by the automatic policy, in percent.
    pub membuf_percent: u32,
    /// Period of the automatic policy's monitor, in seconds.
    pub monitor_interval: u32,
}

impl Default for BalloonConfig {
    /// An unnamed balloon with every option off and zero policy values.
    fn default() -> (r: BalloonConfig)
        ensures
            r.id@ == Seq::<char>::empty(),
            !r.deflate_on_oom,
            !r.free_page_reporting,
            !r.auto_balloon,
            r.membuf_percent == 0,
            r.monitor_interval == 0,
    {
        BalloonConfig {
            id: String::new(),
            deflate_on_oom: false,
            free_page_reporting: false,
            auto_balloon: false,
            membuf_percent: 0,
            monitor_interval: 0,
        }
    }
}

impl BalloonConfig {
    /// Validate the record: the identifier must fit the string limit, and
    /// when the automatic policy is on, its two values must lie in their
    /// permitted intervals.
    pub fn check(&self) -> (r: Result<(), ConfigError>)
        ensures
            self.id@.len() > MAX_STRING_LENGTH ==> (r matches Err(e) && (e matches
                ConfigError::StringTooLong(_))),
            self.id@.len() <= MAX_STRING_LENGTH && !self.auto_balloon ==> r is Ok,
            self.id@.len() <= MAX_STRING_LENGTH && self.auto_balloon && !(MEM_BUFFER_PERCENT_MIN
                <= self.membuf_percent <= MEM_BUFFER_PERCENT_MAX) ==> (r matches Err(e) && (e
                matches ConfigError::IllegalValue(name, lo, loe, hi, hie) && name@
                == "balloon membuf-percent"@ && lo == MEM_BUFFER_PERCENT_MIN && !loe && hi
                == MEM_BUFFER_PERCENT_MAX && !hie)),
            self.id@.len() <= MAX_STRING_LENGTH && self.auto_balloon && MEM_BUFFER_PERCENT_MIN
                <= self.membuf_percent <= MEM_BUFFER_PERCENT_MAX && !(MONITOR_INTERVAL_SECOND_MIN
                <= self.monitor_interval <= MONITOR_INTERVAL_SECOND_MAX) ==> (r matches Err(e) && (
            e matches ConfigError::IllegalValue(name, lo, loe, hi, hie) && name@
                == "balloon monitor-interval"@ && lo == MONITOR_INTERVAL_SECOND_MIN && !loe && hi
                == MONITOR_INTERVAL_SECOND_MAX && !hie)),
            self.id@.len() <= MAX_STRING_LENGTH && self.auto_balloon && MEM_BUFFER_PERCENT_MIN
                <= self.membuf_percent <= MEM_BUFFER_PERCENT_MAX && MONITOR_INTERVAL_SECOND_MIN
                <= self.monitor_interval <= MONITOR_INTERVAL_SECOND_MAX ==> r is Ok,
    {
        if self.id.as_str().unicode_len() > MAX_STRING_LENGTH {
            return Err(ConfigError::StringTooLong(String::from_str("balloon id")));
        }
        if !self.auto_balloon {
            return Ok(());
        }
        if self.membuf_percent > MEM_BUFFER_PERCENT_MAX || self.membuf_percent
            < MEM_BUFFER_PERCENT_MIN {
            return Err(
                ConfigError::IllegalValue(
                    String::from_str("balloon membuf-percent"),
                    MEM_BUFFER_PERCENT_MIN as u64,
                    false,
                    MEM_BUFFER_PERCENT_MAX as u64,
                    false,
                ),
            );
        }
        if self.monitor_interval > MONITOR_INTERVAL_SECOND_MAX || self.monitor_interval
            < MONITOR_INTERVAL_SECOND_MIN {
            return Err(
                ConfigError::IllegalValue(
                    String::from_str("balloon monitor-interval"),
                    MONITOR_INTERVAL_SECOND_MIN as u64,
                    false,
                    MONITOR_INTERVAL_SECOND_MAX as u64,
                    false,
                ),
            );
        }
        Ok(())
    }
}

/// The VM-wide configuration state the parsers consult: which device names
/// are already taken.
pub struct VmConfig {
    /// Names of the devices configured so far.
    pub dev_names: Vec<String>,
}

/// Whether a device of name `n` is already configured.
pub open spec fn spec_has_dev(names: Seq<String>, n: Seq<char>) -> bool {
    exists|i: int| 0 <= i < names.len() && names[i]@ == n
}

impl Default for VmConfig {
    /// A VM with no devices configured.
    fn default() -> (r: VmConfig)
        ensures
            r.dev_names@ == Seq::<String>::empty(),
    {
        VmConfig { dev_names: Vec::new() }
    }
}

impl VmConfig {
    /// Whether a device of name `name` is already configured.
    pub fn has_dev(&self, name: &str) -> (r: bool)
        ensures
            r == spec_has_dev(self.dev_names@, name@),
    {
        let n = self.dev_names.len();
        let mut i: usize = 0;
        while i < n
            invariant
                i <= n,
                n == self.dev_names@.len(),
                forall|k: int| 0 <= k < i ==> self.dev_names@[k]@ != name@,
            decreases n - i,
        {
            if str_eq(self.dev_names[i].as_str(), name) {
                return true;
            }
            i = i + 1;
        }
        false
    }

    /// Record that a device of name `name` is configured.
    pub fn add_dev(&mut self, name: String)
        ensures
            final(self).dev_names@ == old(self).dev_names@.push(name),
    {
        self.dev_names.push(name);
    }
}

/// How a rejected configuration failed, with the payloads of the concrete
/// error abstracted away.
#[derive(PartialEq, Eq, Structural, Copy, Clone, Debug)]
pub enum ConfigFaultKind {
    /// A second balloon for the same VM.
    OnlyOne,
    /// An item without the `key=value` shape.
    Malformed,
    /// A key the device does not know.
    UnknownKey,
    /// A key given twice.
    DuplicateKey,
    /// A value that does not parse in its expected form.
    BadValue,
    /// A PCI argument given to the memory-mapped device.
    PciArg,
    /// A string argument over the length limit.
    TooLong,
    /// The memory-buffer percentage outside its permitted interval.
    MembufRange,
    /// The monitor interval outside its permitted interval.
    MonitorRange,
}

/// Whether the concrete configuration error `e` is the one fault kind `k`
/// names.  For the two range kinds the whole error is pinned, interval
/// bounds included.
pub open spec fn fault_matches(e: ConfigError, k: ConfigFaultKind) -> bool {
    match k {
        ConfigFaultKind::OnlyOne => e == ConfigError::OnlyOneBalloon,
        ConfigFaultKind::Malformed => e == ConfigError::MalformedItem,
        ConfigFaultKind::UnknownKey => e matches ConfigError::InvalidParam(_),
        ConfigFaultKind::DuplicateKey => e matches ConfigError::DuplicateParam(_),
        ConfigFaultKind::BadValue => e matches ConfigError::InvalidValue(_, _),
        ConfigFaultKind::PciArg => e matches ConfigError::PciArgForbidden(_),
        ConfigFaultKind::TooLong => e matches ConfigError::StringTooLong(_),
        ConfigFaultKind::MembufRange => e matches ConfigError::IllegalValue(
            name,
            lo,
            loe,
            hi,
            hie,
        ) && name@ == "balloon membuf-percent"@ && lo == MEM_BUFFER_PERCENT_MIN && !loe && hi
            == MEM_BUFFER_PERCENT_MAX && !hie,
        ConfigFaultKind::MonitorRange => e matches ConfigError::IllegalValue(
            name,
            lo,
            loe,
            hi,
            hie,
        ) && name@ == "balloon monitor-interval"@ && lo == MONITOR_INTERVAL_SECOND_MIN && !loe
            && hi == MONITOR_INTERVAL_SECOND_MAX && !hie,
    }
}

/// What a boolean option value denotes: `true`/`on`/`yes` or
/// `false`/`off`/`no`.
pub open spec fn spec_exbool(v: Seq<char>) -> Option<bool> {
    if v == "true"@ || v == "on"@ || v == "yes"@ {
        Some(true)
    } else if v == "false"@ || v == "off"@ || v == "no"@ {
        Some(false)
    } else {
        None
    }
}

/// Read a boolean option value.
pub fn parse_exbool(v: &str) -> (r: Option<bool>)
    ensures
        r == spec_exbool(v@),
{
    if str_eq(v, "true") || str_eq(v, "on") || str_eq(v, "yes") {
        Some(true)
    } else if str_eq(v, "false") || str_eq(v, "off") || str_eq(v, "no") {
        Some(false)
    } else {
        None
    }
}

/// The balloon parser's running state: the values read so far and which
/// keys have appeared.
pub struct BalloonParse {
    pub seen_bus: bool,
    pub seen_addr: bool,
    pub seen_multifunction: bool,
    pub seen_id: bool,
    pub seen_deflate: bool,
    pub seen_fpr: bool,
    pub seen_auto: bool,
    pub seen_membuf: bool,
    pub seen_monitor: bool,
    pub id: String,
    pub deflate_on_oom: bool,
    pub free_page_reporting: bool,
    pub auto_balloon: bool,
    pub membuf_percent: u32,
    pub monitor_interval: u32,
}

/// The spec-level mirror of the parser state: the identifier as its
/// character sequence.
pub struct BalloonParseV {
    pub seen_bus: bool,
    pub seen_addr: bool,
    pub seen_multifunction: bool,
    pub seen_id: bool,
    pub seen_deflate: bool,
    pub seen_fpr: bool,
    pub seen_auto: bool,
    pub seen_membuf: bool,
    pub seen_monitor: bool,
    pub id: Seq<char>,
    pub deflate_on_oom: bool,
    pub free_page_reporting: bool,
    pub auto_balloon: bool,
    pub membuf_percent: u32,
    pub monitor_interval: u32,
}

impl View for BalloonParse {
    type V = BalloonParseV;

    open spec fn view(&self) -> BalloonParseV {
        BalloonParseV {
            seen_bus: self.seen_bus,
            seen_addr: self.seen_addr,
            seen_multifunction: self.seen_multifunction,
            seen_id: self.seen_id,
            seen_deflate: self.seen_deflate,
            seen_fpr: self.seen_fpr,
            seen_auto: self.seen_auto,
            seen_membuf: self.seen_membuf,
            seen_monitor: self.seen_monitor,
            id: self.id@,
            deflate_on_oom: self.deflate_on_oom,
            free_page_reporting: self.free_page_reporting,
            auto_balloon: self.auto_balloon,
            membuf_percent: self.membuf_percent,
            monitor_interval: self.monitor_interval,
        }
    }
}

/// The parser state before any item was read: defaults in place, no key
/// seen.
pub open spec fn spec_balloon_init() -> BalloonParseV {
    BalloonParseV {
        seen_bus: false,
        seen_addr: false,
        seen_multifunction: false,
        seen_id: false,
        seen_deflate: false,
        seen_fpr: false,
        seen_auto: false,
        seen_membuf: false,
        seen_monitor: false,
        id: Seq::empty(),
        deflate_on_oom: false,
        free_page_reporting: false,
        auto_balloon: false,
        membuf_percent: MEM_BUFFER_PERCENT_DEFAULT,
        monitor_interval: MONITOR_INTERVAL_SECOND_DEFAULT,
    }
}

/// Read one `key=value` item into the parser state.
pub open spec fn spec_apply_item(st: BalloonParseV, item: Seq<char>) -> Result<
    BalloonParseV,
    ConfigFaultKind,
> {
    let kv = spec_split(item, '=');
    if kv.len() != 2 {
        Err(ConfigFaultKind::Malformed)
    } else {
        let key = kv[0];
        let v = kv[1];
        if key == "bus"@ {
            if st.seen_bus {
                Err(ConfigFaultKind::DuplicateKey)
            } else {
                Ok(BalloonParseV { seen_bus: true, ..st })
            }
        } else if key == "addr"@ {
            if st.seen_addr {
                Err(ConfigFaultKind::DuplicateKey)
            } else {
                Ok(BalloonParseV { seen_addr: true, ..st })
            }
        } else if key == "multifunction"@ {
            if st.seen_multifunction {
                Err(ConfigFaultKind::DuplicateKey)
            } else {
                match spec_exbool(v) {
                    Some(_) => Ok(BalloonParseV { seen_multifunction: true, ..st }),
                    None => Err(ConfigFaultKind::BadValue),
                }
            }
        } else if key == "id"@ {
            if st.seen_id {
                Err(ConfigFaultKind::DuplicateKey)
            } else {
                Ok(BalloonParseV { seen_id: true, id: v, ..st })
            }
        } else if key == "deflate-on-oom"@ {
            if st.seen_deflate {
                Err(ConfigFaultKind::DuplicateKey)
            } else {
                match spec_exbool(v) {
                    Some(b) => Ok(BalloonParseV { seen_deflate: true, deflate_on_oom: b, ..st }),
                    None => Err(ConfigFaultKind::BadValue),
                }
            }
        } else if key == "free-page-reporting"@ {
            if st.seen_fpr {
                Err(ConfigFaultKind::DuplicateKey)
            } else {
                match spec_exbool(v) {
                    Some(b) => Ok(
                        BalloonParseV { seen_fpr: true, free_page_reporting: b, ..st },
                    ),
                    None => Err(ConfigFaultKind::BadValue),
                }
            }
        } else if key == "auto-balloon"@ {
            if st.seen_auto {
                Err(ConfigFaultKind::DuplicateKey)
            } else {
                match spec_exbool(v) {
                    Some(b) => Ok(BalloonParseV { seen_auto: true, auto_balloon: b, ..st }),
                    None => Err(ConfigFaultKind::BadValue),
                }
            }
        } else if key == "membuf-percent"@ {
            if st.seen_membuf {
                Err(ConfigFaultKind::DuplicateKey)
            } else {
                match spec_parse_u32(v) {
                    Some(n) => Ok(BalloonParseV { seen_membuf: true, membuf_percent: n, ..st }),
                    None => Err(ConfigFaultKind::BadValue),
                }
            }
        } else if key == "monitor-interval"@ {
            if st.seen_monitor {
                Err(ConfigFaultKind::DuplicateKey)
            } else {
                match spec_parse_u32(v) {
                    Some(n) => Ok(
                        BalloonParseV { seen_monitor: true, monitor_interval: n, ..st },
                    ),
                    None => Err(ConfigFaultKind::BadValue),
                }
            }
        } else {
            Err(ConfigFaultKind::UnknownKey)
        }
    }
}

/// Read the items from index `i` on into the parser state.
pub open spec fn spec_fold_items(items: Seq<Seq<char>>, i: int, st: BalloonParseV) -> Result<
    BalloonParseV,
    ConfigFaultKind,
>
    decreases items.len() - i,
{
    if i < 0 || i >= items.len() {
        Ok(st)
    } else {
        match spec_apply_item(st, items[i]) {
            Ok(st2) => spec_fold_items(items, i + 1, st2),
            Err(e) => Err(e),
        }
    }
}

/// What parsing a balloon command line yields: the final parser state, or
/// the kind of fault that rejects it.  `had_balloon` says whether the VM
/// already carries a balloon.
pub open spec fn spec_parse_balloon(had_balloon: bool, s: Seq<char>) -> Result<
    BalloonParseV,
    ConfigFaultKind,
> {
    if had_balloon {
        Err(ConfigFaultKind::OnlyOne)
    } else {
        let items = spec_split(s, ',');
        if spec_split(items[0], '=').len() != 1 {
            Err(ConfigFaultKind::Malformed)
        } else {
            match spec_fold_items(items, 1, spec_balloon_init()) {
                Err(e) => Err(e),
                Ok(st) => {
                    let dev = items[0];
                    let is_mmio = dev.len() >= "-device"@.len() && dev.subrange(
                        dev.len() - "-device"@.len(),
                        dev.len() as int,
                    ) == "-device"@;
                    if is_mmio && (st.seen_bus || st.seen_addr || st.seen_multifunction) {
                        Err(ConfigFaultKind::PciArg)
                    } else if st.id.len() > MAX_STRING_LENGTH {
                        Err(ConfigFaultKind::TooLong)
                    } else if st.auto_balloon && !(MEM_BUFFER_PERCENT_MIN <= st.membuf_percent
                        <= MEM_BUFFER_PERCENT_MAX) {
                        Err(ConfigFaultKind::MembufRange)
                    } else if st.auto_balloon && !(MONITOR_INTERVAL_SECOND_MIN
                        <= st.monitor_interval <= MONITOR_INTERVAL_SECOND_MAX) {
                        Err(ConfigFaultKind::MonitorRange)
                    } else {
                        Ok(st)
                    }
                },
            }
        }
    }
}

/// Read one `key=value` item into the parser state.
#[verifier::rlimit(80)]
fn apply_item(st: &mut BalloonParse, item: &String) -> (r: Result<(), ConfigError>)
    ensures
        match spec_apply_item(old(st)@, item@) {
            Ok(st2) => r is Ok && final(st)@ == st2,
            Err(k) => (r matches Err(e) && fault_matches(e, k)),
        },
{
    let kv = split_on(item.as_str(), '=');
    proof {
        assert(views_of(kv@).len() == kv@.len());
        assert forall|k: int| 0 <= k < kv@.len() implies #[trigger] kv@[k]@ == spec_split(
            item@,
            '=',
        )[k] by {
            assert(views_of(kv@)[k] == kv@[k]@);
        }
    }
    if kv.len() != 2 {
        return Err(ConfigError::MalformedItem);
    }
    let key = &kv[0];
    let v = &kv[1];
    if str_eq(key.as_str(), "bus") {
        if st.seen_bus {
            return Err(ConfigError::DuplicateParam(key.clone()));
        }
        st.seen_bus = true;
        Ok(())
    } else if str_eq(key.as_str(), "addr") {
        if st.seen_addr {
            return Err(ConfigError::DuplicateParam(key.clone()));
        }
        st.seen_addr = true;
        Ok(())
    } else if str_eq(key.as_str(), "multifunction") {
        if st.seen_multifunction {
            return Err(ConfigError::DuplicateParam(key.clone()));
        }
        match parse_exbool(v.as_str()) {
            Some(_) => {
                st.seen_multifunction = true;
                Ok(())
            },
            None => Err(ConfigError::InvalidValue(key.clone(), v.clone())),
        }
    } else if str_eq(key.as_str(), "id") {
        if st.seen_id {
            return Err(ConfigError::DuplicateParam(key.clone()));
        }
        st.seen_id = true;
        st.id = v.clone();
        Ok(())
    } else if str_eq(key.as_str(), "deflate-on-oom") {
        if st.seen_deflate {
            return Err(ConfigError::DuplicateParam(key.clone()));
        }
        match parse_exbool(v.as_str()) {
            Some(b) => {
                st.seen_deflate = true;
                st.deflate_on_oom = b;
                Ok(())
            },
            None => Err(ConfigError::InvalidValue(key.clone(), v.clone())),
        }
    } else if str_eq(key.as_str(), "free-page-reporting") {
        if st.seen_fpr {
            return Err(ConfigError::DuplicateParam(key.clone()));
        }
        match parse_exbool(v.as_str()) {
            Some(b) => {
                st.seen_fpr = true;
                st.free_page_reporting = b;
                Ok(())
            },
            None => Err(ConfigError::InvalidValue(key.clone(), v.clone())),
        }
    } else if str_eq(key.as_str(), "auto-balloon") {
        if st.seen_auto {
            return Err(ConfigError::DuplicateParam(key.clone()));
        }
        match parse_exbool(v.as_str()) {
            Some(b) => {
                st.seen_auto = true;
                st.auto_balloon = b;
                Ok(())
            },
            None => Err(ConfigError::InvalidValue(key.clone(), v.clone())),
        }
    } else if str_eq(key.as_str(), "membuf-percent") {
        if st.seen_membuf {
            return Err(ConfigError::DuplicateParam(key.clone()));
        }
        match parse_u32_dec(v.as_str()) {
            Some(n) => {
                st.seen_membuf = true;
                st.membuf_percent = n;
                Ok(())
            },
            None => Err(ConfigError::InvalidValue(key.clone(), v.clone())),
        }
    } else if str_eq(key.as_str(), "monitor-interval") {
        if st.seen_monitor {
            return Err(ConfigError::DuplicateParam(key.clone()));
        }
        match parse_u32_dec(v.as_str()) {
            Some(n) => {
                st.seen_monitor = true;
                st.monitor_interval = n;
                Ok(())
            },
            None => Err(ConfigError::InvalidValue(key.clone(), v.clone())),
        }
    } else {
        Err(ConfigError::InvalidParam(key.clone()))
    }
}

/// A split always yields at least one token.
proof fn lemma_split_nonempty(s: Seq<char>, sep: char)
    ensures
        spec_split(s, sep).len() >= 1,
{
}

/// Parse a balloon command line into a configuration record and claim the
/// VM's balloon slot.
///
/// Succeeds exactly on a command line whose items are well-formed
/// `key=value` pairs of the balloon's options, whose PCI arguments appear
/// only with the PCI flavour of the device, whose identifier fits the
/// string limit, and whose automatic-policy values lie in range — and only
/// while the VM carries no balloon yet.
#[verifier::loop_isolation(false)]
#[verifier::rlimit(80)]
pub fn parse_balloon(vm_config: &mut VmConfig, balloon_config: &str) -> (r: Result<
    BalloonConfig,
    ConfigError,
>)
    ensures
        match (r, spec_parse_balloon(
            spec_has_dev(old(vm_config).dev_names@, "balloon"@),
            balloon_config@,
        )) {
            (Ok(cfg), Ok(st)) => {
                &&& cfg.id@ == st.id
                &&& cfg.deflate_on_oom == st.deflate_on_oom
                &&& cfg.free_page_reporting == st.free_page_reporting
                &&& cfg.auto_balloon == st.auto_balloon
                &&& cfg.membuf_percent == st.membuf_percent
                &&& cfg.monitor_interval == st.monitor_interval
                &&& final(vm_config).dev_names@.len() == old(vm_config).dev_names@.len() + 1
                &&& final(vm_config).dev_names@.last()@ == "balloon"@
                &&& final(vm_config).dev_names@.take(old(vm_config).dev_names@.len() as int)
                    == old(vm_config).dev_names@
            },
            (Err(e), Err(k)) => {
                &&& fault_matches(e, k)
                &&& final(vm_config).dev_names@ == old(vm_config).dev_names@
            },
            _ => false,
        },
{
    if vm_config.has_dev("balloon") {
        return Err(ConfigError::OnlyOneBalloon);
    }
    let items = split_on(balloon_config, ',');
    proof {
        assert(views_of(items@).len() == items@.len());
        assert forall|k: int| 0 <= k < items@.len() implies #[trigger] items@[k]@ == spec_split(
            balloon_config@,
            ',',
        )[k] by {
            assert(views_of(items@)[k] == items@[k]@);
        }
        lemma_split_nonempty(balloon_config@, ',');
    }
    let ghost items_v = spec_split(balloon_config@, ',');

    // The first item is the device type and must carry no value.
    let head_kv = split_on(items[0].as_str(), '=');
    proof {
        assert(views_of(head_kv@).len() == head_kv@.len());
    }
    if head_kv.len() != 1 {
        return Err(ConfigError::MalformedItem);
    }

    let mut st = BalloonParse {
        seen_bus: false,
        seen_addr: false,
        seen_multifunction: false,
        seen_id: false,
        seen_deflate: false,
        seen_fpr: false,
        seen_auto: false,
        seen_membuf: false,
        seen_monitor: false,
        id: String::new(),
        deflate_on_oom: false,
        free_page_reporting: false,
        auto_balloon: false,
        membuf_percent: MEM_BUFFER_PERCENT_DEFAULT,
        monitor_interval: MONITOR_INTERVAL_SECOND_DEFAULT,
    };
    proof {
        assert(st@ == spec_balloon_init());
    }
    let n = items.len();
    let mut i: usize = 1;
    while i < n
        invariant
            1 <= i <= n,
            spec_fold_items(items_v, 1, spec_balloon_init()) == spec_fold_items(items_v, i as int, st@),
        decreases n - i,
    {
        match apply_item(&mut st, &items[i]) {
            Ok(_) => {},
            Err(e) => {
                return Err(e);
            },
        }
        i = i + 1;
    }

    let is_mmio = str_ends_with(items[0].as_str(), "-device");
    if is_mmio && (st.seen_bus || st.seen_addr || st.seen_multifunction) {
        let arg = if st.seen_bus {
            String::from_str("bus")
        } else if st.seen_addr {
            String::from_str("addr")
        } else {
            String::from_str("multifunction")
        };
        return Err(ConfigError::PciArgForbidden(arg));
    }

    let balloon = BalloonConfig {
        id: st.id,
        deflate_on_oom: st.deflate_on_oom,
        free_page_reporting: st.free_page_reporting,
        auto_balloon: st.auto_balloon,
        membuf_percent: st.membuf_percent,
        monitor_interval: st.monitor_interval,
    };
    match balloon.check() {
        Ok(_) => {},
        Err(e) => {
            return Err(e);
        },
    }
    vm_config.add_dev(String::from_str("balloon"));
    proof {
        assert(vm_config.dev_names@.take(old(vm_config).dev_names@.len() as int) =~= old(
            vm_config,
        ).dev_names@);
    }
    Ok(balloon)
}

} // verus!
