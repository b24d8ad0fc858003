use std::cell::RefCell;

use vmm_core::cmdline::{parse_u16_hex, parse_u32_dec, split_on, str_ends_with, str_eq};
use vmm_core::machine::{KvmVmState, MachineLifecycle, Response};

/// A machine that records the transitions it is asked for.
struct RecordingMachine {
    transitions: RefCell<Vec<(KvmVmState, KvmVmState)>>,
}

impl MachineLifecycle for RecordingMachine {
    fn notify_lifecycle(&self, from: KvmVmState, to: KvmVmState) -> bool {
        self.transitions.borrow_mut().push((from, to));
        true
    }
}

#[test]
fn lifecycle_defaults_ask_for_the_standard_transitions() {
    let m = RecordingMachine {
        transitions: RefCell::new(Vec::new()),
    };
    assert!(m.start());
    assert!(m.pause());
    assert!(m.resume());
    assert!(m.destroy());
    let seen = m.transitions.borrow();
    assert_eq!(
        *seen,
        vec![
            (KvmVmState::Created, KvmVmState::Paused),
            (KvmVmState::Running, KvmVmState::Paused),
            (KvmVmState::Paused, KvmVmState::Running),
            (KvmVmState::Running, KvmVmState::Shutdown),
        ]
    );
}

#[test]
fn responses_report_success_and_failure() {
    let ok = Response::create_empty_response();
    assert!(ok.is_ok());
    let err = Response::create_error_response("no such device".to_string());
    assert!(!err.is_ok());
    assert_eq!(err.error, Some("no such device".to_string()));
}

#[test]
fn split_keeps_empty_tokens() {
    let parts = split_on("a,,b", ',');
    assert_eq!(parts, vec!["a".to_string(), "".to_string(), "b".to_string()]);
    let parts = split_on("", ',');
    assert_eq!(parts, vec!["".to_string()]);
    let parts = split_on("one", ',');
    assert_eq!(parts, vec!["one".to_string()]);
}

#[test]
fn decimal_parser_matches_its_bounds() {
    assert_eq!(parse_u32_dec("0"), Some(0));
    assert_eq!(parse_u32_dec("4294967295"), Some(u32::MAX));
    assert_eq!(parse_u32_dec("4294967296"), None);
    assert_eq!(parse_u32_dec(""), None);
    assert_eq!(parse_u32_dec("12a"), None);
}

#[test]
fn hex_parser_matches_its_bounds() {
    assert_eq!(parse_u16_hex("ffff"), Some(0xFFFF));
    assert_eq!(parse_u16_hex("10000"), None);
    assert_eq!(parse_u16_hex("1A2b"), Some(0x1A2B));
    assert_eq!(parse_u16_hex(""), None);
    assert_eq!(parse_u16_hex("0x10"), None);
}

#[test]
fn string_helpers_compare_by_content() {
    assert!(str_eq("abc", "abc"));
    assert!(!str_eq("abc", "abd"));
    assert!(str_ends_with("virtio-balloon-device", "-device"));
    assert!(!str_ends_with("virtio-balloon-pci", "-device"));
    assert!(!str_ends_with("x", "-device"));
}
