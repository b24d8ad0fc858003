use vmm_core::balloon::{parse_balloon, BalloonConfig, VmConfig};
use vmm_core::cmdline::get_pci_bdf;
use vmm_core::error::ConfigError;

#[test]
fn test_balloon_config_cmdline_parser() {
    let mut vm_config = VmConfig::default();
    let bln_cfg_res = parse_balloon(
        &mut vm_config,
        "virtio-balloon-device,deflate-on-oom=true,id=balloon0",
    );
    assert!(bln_cfg_res.is_ok());
    let balloon_configs = bln_cfg_res.unwrap();
    assert_eq!(balloon_configs.id, "balloon0".to_string());
    assert_eq!(balloon_configs.deflate_on_oom, true);
}

#[test]
fn test_pci_balloon_config_cmdline_parser() {
    let mut vm_config = VmConfig::default();
    let bln_cfg = "virtio-balloon-pci,deflate-on-oom=true,bus=pcie.0,addr=0x1.0x2,id=balloon0";
    let bln_cfg_res = parse_balloon(&mut vm_config, bln_cfg);
    assert!(bln_cfg_res.is_ok());
    let balloon_configs = bln_cfg_res.unwrap();
    assert_eq!(balloon_configs.id, "balloon0".to_string());
    assert_eq!(balloon_configs.deflate_on_oom, true);

    let pci_bdf = get_pci_bdf(bln_cfg);
    assert!(pci_bdf.is_ok());
    let pci = pci_bdf.unwrap();
    assert_eq!(pci.bus, "pcie.0".to_string());
    assert_eq!(pci.addr, (1, 2));

    let mut vm_config = VmConfig::default();
    let bln_cfg =
        "virtio-balloon-pci,deflate-on-oom=true,bus=pcie.0,addr=0x1.0x2,id=balloon0,multifunction=on";
    assert!(parse_balloon(&mut vm_config, bln_cfg).is_ok());
}

#[test]
fn test_two_balloon_config_cmdline_parser() {
    let mut vm_config = VmConfig::default();
    let bln_cfg_res1 = parse_balloon(
        &mut vm_config,
        "virtio-balloon-device,deflate-on-oom=true,id=balloon0",
    );
    assert!(bln_cfg_res1.is_ok());
    let bln_cfg_res2 = parse_balloon(
        &mut vm_config,
        "virtio-balloon-device,deflate-on-oom=true,id=balloon1",
    );
    assert!(bln_cfg_res2.is_err());
}

#[test]
fn test_fpr_balloon_config_cmdline_parser() {
    let mut vm_config1 = VmConfig::default();
    let bln_cfg_res1 = parse_balloon(
        &mut vm_config1,
        "virtio-balloon-device,free-page-reporting=true,id=balloon0",
    );
    assert!(bln_cfg_res1.is_ok());
    let balloon_configs1 = bln_cfg_res1.unwrap();
    assert_eq!(balloon_configs1.id, "balloon0".to_string());
    assert_eq!(balloon_configs1.free_page_reporting, true);

    let mut vm_config2 = VmConfig::default();
    let bln_cfg_res2 = parse_balloon(
        &mut vm_config2,
        "virtio-balloon-device,free-page-reporting=false,id=balloon0",
    );
    assert!(bln_cfg_res2.is_ok());
    let balloon_configs2 = bln_cfg_res2.unwrap();
    assert_eq!(balloon_configs2.id, "balloon0".to_string());
    assert_eq!(balloon_configs2.free_page_reporting, false);

    let mut vm_config3 = VmConfig::default();
    let bln_cfg_res3 = parse_balloon(
        &mut vm_config3,
        "virtio-balloon-pci,free-page-reporting=true,bus=pcie.0,addr=0x1.0x2,id=balloon0",
    );
    assert!(bln_cfg_res3.is_ok());
    let balloon_configs3 = bln_cfg_res3.unwrap();
    assert_eq!(balloon_configs3.id, "balloon0".to_string());
    assert_eq!(balloon_configs3.free_page_reporting, true);

    let mut vm_config4 = VmConfig::default();
    let bln_cfg_res4 = parse_balloon(
        &mut vm_config4,
        "virtio-balloon-pci,free-page-reporting=false,bus=pcie.0,addr=0x1.0x2,id=balloon0",
    );
    assert!(bln_cfg_res4.is_ok());
    let balloon_configs4 = bln_cfg_res4.unwrap();
    assert_eq!(balloon_configs4.id, "balloon0".to_string());
    assert_eq!(balloon_configs4.free_page_reporting, false);

    let mut vm_config5 = VmConfig::default();
    let bln_cfg_res5 = parse_balloon(&mut vm_config5, "virtio-balloon-device,id=balloon0");
    assert!(bln_cfg_res5.is_ok());
    let balloon_configs5 = bln_cfg_res5.unwrap();
    assert_eq!(balloon_configs5.id, "balloon0".to_string());
    assert_eq!(balloon_configs5.free_page_reporting, false);

    let mut vm_config6 = VmConfig::default();
    let bln_cfg_res6 = parse_balloon(
        &mut vm_config6,
        "virtio-balloon-device,free-page-reporting=2,id=balloon0",
    );
    assert!(bln_cfg_res6.is_err());
}

#[test]
fn balloon_defaults_filled_in() {
    let mut vm_config = VmConfig::default();
    let cfg = parse_balloon(
        &mut vm_config,
        "virtio-balloon-device,deflate-on-oom=true,id=balloon0",
    )
    .unwrap();
    assert_eq!(cfg.id, "balloon0".to_string());
    assert_eq!(cfg.deflate_on_oom, true);
    assert_eq!(cfg.auto_balloon, false);
    assert_eq!(cfg.membuf_percent, 50);
    assert_eq!(cfg.monitor_interval, 10);
}

#[test]
fn second_balloon_reports_only_one() {
    let mut vm_config = VmConfig::default();
    parse_balloon(
        &mut vm_config,
        "virtio-balloon-device,deflate-on-oom=true,id=balloon0",
    )
    .unwrap();
    let err = parse_balloon(
        &mut vm_config,
        "virtio-balloon-device,deflate-on-oom=true,id=balloon1",
    )
    .unwrap_err();
    assert_eq!(err, ConfigError::OnlyOneBalloon);
    assert_eq!(
        err.message(),
        "Only one balloon device is supported for each vm.".to_string()
    );
}

#[test]
fn membuf_percent_out_of_range() {
    let mut vm_config = VmConfig::default();
    let err = parse_balloon(
        &mut vm_config,
        "virtio-balloon-device,auto-balloon=true,membuf-percent=10,id=b",
    )
    .unwrap_err();
    match err {
        ConfigError::IllegalValue(name, lo, lo_excl, hi, hi_excl) => {
            assert_eq!(name, "balloon membuf-percent".to_string());
            assert_eq!(lo, 20);
            assert_eq!(hi, 80);
            assert!(!lo_excl);
            assert!(!hi_excl);
        }
        other => panic!("unexpected error {:?}", other),
    }
}

#[test]
fn monitor_interval_out_of_range() {
    let mut vm_config = VmConfig::default();
    let err = parse_balloon(
        &mut vm_config,
        "virtio-balloon-device,auto-balloon=true,membuf-percent=50,monitor-interval=301,id=b",
    )
    .unwrap_err();
    match err {
        ConfigError::IllegalValue(name, lo, _, hi, _) => {
            assert_eq!(name, "balloon monitor-interval".to_string());
            assert_eq!(lo, 5);
            assert_eq!(hi, 300);
        }
        other => panic!("unexpected error {:?}", other),
    }
}

#[test]
fn auto_balloon_values_in_range_pass() {
    let mut vm_config = VmConfig::default();
    let cfg = parse_balloon(
        &mut vm_config,
        "virtio-balloon-device,auto-balloon=true,membuf-percent=20,monitor-interval=5,id=b",
    )
    .unwrap();
    assert!(cfg.auto_balloon);
    assert_eq!(cfg.membuf_percent, 20);
    assert_eq!(cfg.monitor_interval, 5);
}

#[test]
fn unknown_and_duplicate_keys_rejected() {
    let mut vm_config = VmConfig::default();
    let err = parse_balloon(&mut vm_config, "virtio-balloon-device,nonsense=1,id=b").unwrap_err();
    assert!(matches!(err, ConfigError::InvalidParam(_)));

    let mut vm_config = VmConfig::default();
    let err = parse_balloon(&mut vm_config, "virtio-balloon-device,id=a,id=b").unwrap_err();
    assert!(matches!(err, ConfigError::DuplicateParam(_)));
}

#[test]
fn bare_item_without_value_is_malformed() {
    let mut vm_config = VmConfig::default();
    let err = parse_balloon(&mut vm_config, "virtio-balloon-device,deflate-on-oom,id=b")
        .unwrap_err();
    assert_eq!(err, ConfigError::MalformedItem);
}

#[test]
fn mmio_balloon_refuses_pci_arguments() {
    let mut vm_config = VmConfig::default();
    let err =
        parse_balloon(&mut vm_config, "virtio-balloon-device,bus=pcie.0,id=b").unwrap_err();
    assert!(matches!(err, ConfigError::PciArgForbidden(_)));
}

#[test]
fn balloon_check_rejects_long_id() {
    let mut long_id = String::new();
    for _ in 0..256 {
        long_id.push('a');
    }
    let cfg = BalloonConfig {
        id: long_id,
        ..Default::default()
    };
    assert!(matches!(
        cfg.check().unwrap_err(),
        ConfigError::StringTooLong(_)
    ));
}
