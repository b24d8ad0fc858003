//! Verified text utilities for device command lines.
//!
//! The device grammars of this crate — comma-separated `key=value` lists,
//! colon-separated MAC addresses, dotted PCI addresses — are all built from
//! splitting on a separator and reading decimal, hexadecimal or boolean
//! tokens.  The spec functions here say what each operation returns over the
//! character sequence of the input.

use vstd::prelude::*;

use crate::error::ConfigError;

verus! {

/// Index of the first occurrence of `sep` in `s`, or -1 if none.
pub open spec fn first_index(s: Seq<char>, sep: char) -> int
    decreases s.len(),
{
    if s.len() == 0 {
        -1
    } else if s[0] == sep {
        0
    } else {
        let r = first_index(s.subrange(1, s.len() as int), sep);
        if r < 0 {
            -1
        } else {
            r + 1
        }
    }
}

/// `s` split on `sep`: the tokens between separators, in order, with empty
/// tokens kept (so the result always holds one token more than there are
/// separators).
pub open spec fn spec_split(s: Seq<char>, sep: char) -> Seq<Seq<char>>
    decreases s.len(),
{
    let i = first_index(s, sep);
    if i < 0 || i >= s.len() {
        seq![s]
    } else {
        seq![s.take(i)] + spec_split(s.subrange(i + 1, s.len() as int), sep)
    }
}

/// The views of a list of strings.
pub open spec fn views_of(ts: Seq<String>) -> Seq<Seq<char>> {
    ts.map_values(|t: String| t@)
}

/// A scan that saw no separator before `j`, and one at `j` unless `j` is the
/// end, has found the first occurrence.
proof fn lemma_first_index_scan(s: Seq<char>, sep: char, j: int)
    requires
        0 <= j <= s.len(),
        forall|k: int| 0 <= k < j ==> s[k] != sep,
        j < s.len() ==> s[j] == sep,
    ensures
        first_index(s, sep) == if j < s.len() {
            j
        } else {
            -1
        },
    decreases s.len(),
{
    if s.len() == 0 {
    } else if s[0] == sep {
        assert(j == 0);
    } else {
        let sub = s.subrange(1, s.len() as int);
        lemma_first_index_scan(sub, sep, j - 1);
    }
}

/// Split `s` on `sep`.
#[verifier::loop_isolation(false)]
pub fn split_on(s: &str, sep: char) -> (r: Vec<String>)
    ensures
        views_of(r@) == spec_split(s@, sep),
{
    let n = s.unicode_len();
    let mut tokens: Vec<String> = Vec::new();
    proof {
        assert(s@.subrange(0, n as int) =~= s@);
        assert(views_of(tokens@) + spec_split(s@, sep) =~= spec_split(s@, sep));
    }
    let mut p: usize = 0;
    let mut j: usize = 0;
    while j < n
        invariant
            p <= j <= n,
            spec_split(s@, sep) == views_of(tokens@) + spec_split(
                s@.subrange(p as int, n as int),
                sep,
            ),
            forall|k: int| p <= k < j ==> s@[k] != sep,
        decreases n - j,
    {
        if s.get_char(j) == sep {
            let tok = String::from_str(s.substring_char(p, j));
            proof {
                let suffix = s@.subrange(p as int, n as int);
                lemma_first_index_scan(suffix, sep, j - p);
                assert(suffix.take(j - p) =~= s@.subrange(p as int, j as int));
                assert(suffix.subrange(j - p + 1, suffix.len() as int) =~= s@.subrange(
                    j + 1,
                    n as int,
                ));
                assert(views_of(tokens@.push(tok)) =~= views_of(tokens@).push(tok@));
                assert(views_of(tokens@) + (seq![s@.subrange(p as int, j as int)] + spec_split(
                    s@.subrange(j + 1, n as int),
                    sep,
                )) =~= views_of(tokens@.push(tok)) + spec_split(s@.subrange(j + 1, n as int), sep));
            }
            tokens.push(tok);
            p = j + 1;
        }
        j = j + 1;
    }
    let tok = String::from_str(s.substring_char(p, n));
    proof {
        let suffix = s@.subrange(p as int, n as int);
        lemma_first_index_scan(suffix, sep, n - p);
        assert(suffix =~= s@.subrange(p as int, n as int));
        assert(views_of(tokens@.push(tok)) =~= views_of(tokens@).push(tok@));
        assert(views_of(tokens@) + seq![s@.subrange(p as int, n as int)] =~= views_of(
            tokens@.push(tok),
        ));
        assert(tok@ =~= suffix);
    }
    tokens.push(tok);
    tokens
}

/// Whether `c` is a decimal digit.
pub open spec fn is_dec_digit(c: char) -> bool {
    '0' <= c <= '9'
}

/// The value of a decimal digit.
pub open spec fn dec_val(c: char) -> int {
    c as int - '0' as int
}

/// Whether every character of `s` is a decimal digit, and there is at least
/// one.
pub open spec fn is_dec_number(s: Seq<char>) -> bool {
    s.len() > 0 && forall|i: int| 0 <= i < s.len() ==> is_dec_digit(#[trigger] s[i])
}

/// The integer a decimal-digit sequence denotes.
pub open spec fn dec_number(s: Seq<char>) -> int
    decreases s.len(),
{
    if s.len() == 0 {
        0
    } else {
        dec_number(s.drop_last()) * 10 + dec_val(s.last())
    }
}

/// A digit sequence denotes a value at least as large as any prefix's.
proof fn lemma_dec_number_prefix(s: Seq<char>, k: int)
    requires
        0 <= k <= s.len(),
        forall|i: int| 0 <= i < s.len() ==> is_dec_digit(#[trigger] s[i]),
    ensures
        dec_number(s.take(k)) <= dec_number(s),
        dec_number(s) >= 0,
    decreases s.len(),
{
    if s.len() == 0 {
    } else {
        lemma_dec_number_prefix(s.drop_last(), if k <= s.len() - 1 {
            k
        } else {
            k - 1
        });
        assert(dec_number(s.drop_last()) * 10 >= dec_number(s.drop_last())) by (nonlinear_arith)
            requires
                dec_number(s.drop_last()) >= 0,
        ;
        if k <= s.len() - 1 {
            assert(s.take(k) =~= s.drop_last().take(k));
        } else {
            assert(s.take(k) =~= s);
        }
    }
}

/// What a decimal token denotes as a `u32`: `None` when it is empty, has a
/// non-digit, or exceeds `u32::MAX`.
pub open spec fn spec_parse_u32(s: Seq<char>) -> Option<u32> {
    if is_dec_number(s) && dec_number(s) <= u32::MAX {
        Some(dec_number(s) as u32)
    } else {
        None
    }
}

/// Read a decimal `u32` token.
#[verifier::loop_isolation(false)]
pub fn parse_u32_dec(s: &str) -> (r: Option<u32>)
    ensures
        r == spec_parse_u32(s@),
{
    let n = s.unicode_len();
    if n == 0 {
        return None;
    }
    let mut acc: u64 = 0;
    let mut i: usize = 0;
    while i < n
        invariant
            i <= n,
            acc == dec_number(s@.take(i as int)),
            acc <= u32::MAX,
            forall|k: int| 0 <= k < i ==> is_dec_digit(#[trigger] s@[k]),
        decreases n - i,
    {
        let c = s.get_char(i);
        if c < '0' || c > '9' {
            return None;
        }
        let d: u32 = (c as u32) - ('0' as u32);
        let next: u64 = acc * 10 + (d as u64);
        proof {
            assert(s@.take(i + 1).drop_last() =~= s@.take(i as int));
            assert(s@.take(i + 1).last() == s@[i as int]);
        }
        if next > 0xFFFF_FFFF {
            proof {
                if is_dec_number(s@) {
                    lemma_dec_number_prefix(s@, i + 1);
                    assert(dec_number(s@) > u32::MAX);
                }
            }
            return None;
        }
        acc = next;
        i = i + 1;
    }
    proof {
        assert(s@.take(n as int) =~= s@);
    }
    Some(acc as u32)
}

/// Whether `c` is a hexadecimal digit.
pub open spec fn is_hex_digit(c: char) -> bool {
    ('0' <= c <= '9') || ('a' <= c <= 'f') || ('A' <= c <= 'F')
}

/// The value of a hexadecimal digit.
pub open spec fn hex_val(c: char) -> int {
    if '0' <= c <= '9' {
        c as int - '0' as int
    } else if 'a' <= c <= 'f' {
        c as int - 'a' as int + 10
    } else {
        c as int - 'A' as int + 10
    }
}

/// Whether every character of `s` is a hexadecimal digit, and there is at
/// least one.
pub open spec fn is_hex_number(s: Seq<char>) -> bool {
    s.len() > 0 && forall|i: int| 0 <= i < s.len() ==> is_hex_digit(#[trigger] s[i])
}

/// The integer a hexadecimal-digit sequence denotes.
pub open spec fn hex_number(s: Seq<char>) -> int
    decreases s.len(),
{
    if s.len() == 0 {
        0
    } else {
        hex_number(s.drop_last()) * 16 + hex_val(s.last())
    }
}

/// A hexadecimal sequence denotes a value at least as large as any prefix's.
proof fn lemma_hex_number_prefix(s: Seq<char>, k: int)
    requires
        0 <= k <= s.len(),
        forall|i: int| 0 <= i < s.len() ==> is_hex_digit(#[trigger] s[i]),
    ensures
        hex_number(s.take(k)) <= hex_number(s),
        hex_number(s) >= 0,
    decreases s.len(),
{
    if s.len() == 0 {
    } else {
        lemma_hex_number_prefix(s.drop_last(), if k <= s.len() - 1 {
            k
        } else {
            k - 1
        });
        assert(hex_number(s.drop_last()) * 16 >= hex_number(s.drop_last())) by (nonlinear_arith)
            requires
                hex_number(s.drop_last()) >= 0,
        ;
        if k <= s.len() - 1 {
            assert(s.take(k) =~= s.drop_last().take(k));
        } else {
            assert(s.take(k) =~= s);
        }
    }
}

/// What a hexadecimal token denotes as a `u16`: `None` when it is empty,
/// has a non-hex character, or exceeds `u16::MAX`.
pub open spec fn spec_parse_u16_hex(s: Seq<char>) -> Option<u16> {
    if is_hex_number(s) && hex_number(s) <= u16::MAX {
        Some(hex_number(s) as u16)
    } else {
        None
    }
}

/// Read a hexadecimal `u16` token (no `0x` prefix).
#[verifier::loop_isolation(false)]
pub fn parse_u16_hex(s: &str) -> (r: Option<u16>)
    ensures
        r == spec_parse_u16_hex(s@),
{
    let n = s.unicode_len();
    if n == 0 {
        return None;
    }
    let mut acc: u32 = 0;
    let mut i: usize = 0;
    while i < n
        invariant
            i <= n,
            acc == hex_number(s@.take(i as int)),
            acc <= u16::MAX,
            forall|k: int| 0 <= k < i ==> is_hex_digit(#[trigger] s@[k]),
        decreases n - i,
    {
        let c = s.get_char(i);
        let d: u32 = if c >= '0' && c <= '9' {
            (c as u32) - ('0' as u32)
        } else if c >= 'a' && c <= 'f' {
            (c as u32) - ('a' as u32) + 10
        } else if c >= 'A' && c <= 'F' {
            (c as u32) - ('A' as u32) + 10
        } else {
            return None;
        };
        let next: u32 = acc * 16 + d;
        proof {
            assert(s@.take(i + 1).drop_last() =~= s@.take(i as int));
            assert(s@.take(i + 1).last() == s@[i as int]);
        }
        if next > 0xFFFF {
            proof {
                if is_hex_number(s@) {
                    lemma_hex_number_prefix(s@, i + 1);
                    assert(hex_number(s@) > u16::MAX);
                }
            }
            return None;
        }
        acc = next;
        i = i + 1;
    }
    proof {
        assert(s@.take(n as int) =~= s@);
    }
    Some(acc as u16)
}

/// Whether the views of two strings are equal.
pub fn str_eq(a: &str, b: &str) -> (r: bool)
    ensures
        r == (a@ == b@),
{
    let na = a.unicode_len();
    let nb = b.unicode_len();
    if na != nb {
        proof {
            assert(a@ != b@);
        }
        return false;
    }
    let mut i: usize = 0;
    while i < na
        invariant
            i <= na,
            na == a@.len() == b@.len(),
            forall|k: int| 0 <= k < i ==> a@[k] == b@[k],
        decreases na - i,
    {
        if s_ne(a.get_char(i), b.get_char(i)) {
            return false;
        }
        i = i + 1;
    }
    proof {
        assert(a@ =~= b@);
    }
    true
}

/// Whether two characters differ.
fn s_ne(a: char, b: char) -> (r: bool)
    ensures
        r == (a != b),
{
    a != b
}

/// Whether `s` ends with `suffix`.
pub fn str_ends_with(s: &str, suffix: &str) -> (r: bool)
    ensures
        r == (s@.len() >= suffix@.len() && s@.subrange(
            s@.len() - suffix@.len(),
            s@.len() as int,
        ) == suffix@),
{
    let n = s.unicode_len();
    let m = suffix.unicode_len();
    if m > n {
        return false;
    }
    let tail = s.substring_char(n - m, n);
    let r = str_eq(tail, suffix);
    proof {
        if r {
            assert(s@.subrange(s@.len() - suffix@.len(), s@.len() as int) =~= suffix@);
        }
    }
    r
}

/// Whether `s` starts with `prefix`.
pub fn str_starts_with(s: &str, prefix: &str) -> (r: bool)
    ensures
        r == (s@.len() >= prefix@.len() && s@.subrange(0, prefix@.len() as int) == prefix@),
{
    let n = s.unicode_len();
    let m = prefix.unicode_len();
    if m > n {
        return false;
    }
    let head = s.substring_char(0, m);
    let r = str_eq(head, prefix);
    proof {
        if r {
            assert(s@.subrange(0, prefix@.len() as int) =~= prefix@);
        }
    }
    r
}


/// A PCI placement: the bus name and the (slot, function) address.
#[derive(Debug, PartialEq, Eq)]
pub struct PciBdf {
    /// Name of the bus the device sits on.
    pub bus: String,
    /// Slot and function number.
    pub addr: (u8, u8),
}

/// The value of the first `key=value` item with the given key, scanning
/// from index `i`.
pub open spec fn spec_lookup(items: Seq<Seq<char>>, key: Seq<char>, i: int) -> Option<Seq<char>>
    decreases items.len() - i,
{
    if i < 0 || i >= items.len() {
        None
    } else {
        let kv = spec_split(items[i], '=');
        if kv.len() == 2 && kv[0] == key {
            Some(kv[1])
        } else {
            spec_lookup(items, key, i + 1)
        }
    }
}

/// Find the value of the first `key=value` item with the given key.
#[verifier::loop_isolation(false)]
pub fn lookup_value(items: &Vec<String>, key: &str) -> (r: Option<String>)
    ensures
        match r {
            Some(v) => spec_lookup(views_of(items@), key@, 0) == Some(v@),
            None => spec_lookup(views_of(items@), key@, 0) is None,
        },
{
    let ghost items_v = views_of(items@);
    proof {
        assert(items_v.len() == items@.len());
    }
    let n = items.len();
    let mut i: usize = 0;
    while i < n
        invariant
            i <= n,
            spec_lookup(items_v, key@, 0) == spec_lookup(items_v, key@, i as int),
        decreases n - i,
    {
        proof {
            assert(items_v[i as int] == items@[i as int]@);
        }
        let kv = split_on(items[i].as_str(), '=');
        proof {
            assert(views_of(kv@).len() == kv@.len());
            assert forall|k: int| 0 <= k < kv@.len() implies #[trigger] kv@[k]@ == spec_split(
                items_v[i as int],
                '=',
            )[k] by {
                assert(views_of(kv@)[k] == kv@[k]@);
            }
        }
        if kv.len() == 2 && str_eq(kv[0].as_str(), key) {
            return Some(kv[1].clone());
        }
        i = i + 1;
    }
    None
}

/// `t` with a leading `0x` removed, if it has one.
pub open spec fn spec_strip0x(t: Seq<char>) -> Seq<char> {
    if t.len() >= 2 && t[0] == '0' && t[1] == 'x' {
        t.subrange(2, t.len() as int)
    } else {
        t
    }
}

/// What a PCI address token denotes: an optional `0x` prefix and a
/// hexadecimal byte.
pub open spec fn spec_addr_byte(t: Seq<char>) -> Option<u8> {
    match spec_parse_u16_hex(spec_strip0x(t)) {
        Some(v) => if v <= 0xFF {
            Some(v as u8)
        } else {
            None
        },
        None => None,
    }
}

/// Read a PCI address token: an optional `0x` prefix and a hexadecimal
/// byte.
pub fn parse_addr_byte(t: &str) -> (r: Option<u8>)
    ensures
        r == spec_addr_byte(t@),
{
    let n = t.unicode_len();
    let has_prefix = n >= 2 && t.get_char(0) == '0' && t.get_char(1) == 'x';
    let body = if has_prefix {
        String::from_str(t.substring_char(2, n))
    } else {
        String::from_str(t)
    };
    proof {
        assert(body@ =~= spec_strip0x(t@));
    }
    match parse_u16_hex(body.as_str()) {
        Some(v) => {
            if v <= 0xFF {
                Some(v as u8)
            } else {
                None
            }
        },
        None => None,
    }
}

/// What a PCI `addr` value denotes: a slot, optionally followed by a dot
/// and a function, both hexadecimal bytes with optional `0x` prefixes.
pub open spec fn spec_parse_bdf_addr(v: Seq<char>) -> Option<(u8, u8)> {
    let parts = spec_split(v, '.');
    if parts.len() == 1 {
        match spec_addr_byte(parts[0]) {
            Some(slot) => Some((slot, 0u8)),
            None => None,
        }
    } else if parts.len() == 2 {
        match (spec_addr_byte(parts[0]), spec_addr_byte(parts[1])) {
            (Some(slot), Some(func)) => Some((slot, func)),
            _ => None,
        }
    } else {
        None
    }
}

/// Read the PCI placement out of a device command line: the `bus` value as
/// given, and the `addr` value as (slot, function), function 0 when only a
/// slot is given and (0, 0) when no `addr` appears.  Items other than `bus`
/// and `addr` are ignored.
pub fn get_pci_bdf(pci_cfg: &str) -> (r: Result<PciBdf, ConfigError>)
    ensures
        ({
            let items = spec_split(pci_cfg@, ',');
            match spec_lookup(items, "bus"@, 0) {
                None => r is Err,
                Some(bus) => {
                    match spec_lookup(items, "addr"@, 0) {
                        None => (r matches Ok(bdf) && bdf.bus@ == bus && bdf.addr == (0u8, 0u8)),
                        Some(av) => {
                            match spec_parse_bdf_addr(av) {
                                Some(a) => (r matches Ok(bdf) && bdf.bus@ == bus && bdf.addr == a),
                                None => r is Err,
                            }
                        },
                    }
                },
            }
        }),
{
    let items = split_on(pci_cfg, ',');
    let bus = match lookup_value(&items, "bus") {
        Some(b) => b,
        None => {
            return Err(ConfigError::InvalidParam(String::from_str("bus")));
        },
    };
    let addr: (u8, u8) = match lookup_value(&items, "addr") {
        None => (0, 0),
        Some(av) => {
            let parts = split_on(av.as_str(), '.');
            proof {
                assert(views_of(parts@).len() == parts@.len());
                assert forall|k: int| 0 <= k < parts@.len() implies #[trigger] parts@[k]@
                    == spec_split(av@, '.')[k] by {
                    assert(views_of(parts@)[k] == parts@[k]@);
                }
            }
            if parts.len() == 1 {
                match parse_addr_byte(parts[0].as_str()) {
                    Some(slot) => (slot, 0),
                    None => {
                        return Err(ConfigError::InvalidValue(String::from_str("addr"), av));
                    },
                }
            } else if parts.len() == 2 {
                let slot = match parse_addr_byte(parts[0].as_str()) {
                    Some(s) => s,
                    None => {
                        return Err(ConfigError::InvalidValue(String::from_str("addr"), av));
                    },
                };
                let func = match parse_addr_byte(parts[1].as_str()) {
                    Some(f) => f,
                    None => {
                        return Err(ConfigError::InvalidValue(String::from_str("addr"), av));
                    },
                };
                (slot, func)
            } else {
                return Err(ConfigError::InvalidValue(String::from_str("addr"), av));
            }
        },
    };
    Ok(PciBdf { bus, addr })
}

} // verus!
