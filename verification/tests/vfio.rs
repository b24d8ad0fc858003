use vmm_core::pci::{le_read_u16, le_write_u16, le_write_u32, COMMAND};
use vmm_core::vfio::{
    mask_host_config_read, GsiMsiRoute, MmapInfo, PciBus, RegionType, VfioMsixInfo, VfioPciDevice,
    VfioReadRoute, VfioRegion, VfioWriteAction,
};

const PAGE_SIZE: u64 = 0x1000;

/// A synthetic host config image: COMMAND with decode bits on, one MSI-X
/// capability at 0x50 (8 vectors, table in BAR2 at offset 0x1000), BAR
/// dwords announcing an I/O BAR 0, a 64-bit BAR 2, 32-bit BARs elsewhere.
fn host_config() -> Vec<u8> {
    let mut cfg = vec![0u8; 256];
    le_write_u16(&mut cfg, COMMAND, 0x0407);
    cfg[0x34] = 0x50;
    cfg[0x50] = 0x11; // MSI-X capability ID
    cfg[0x51] = 0x00;
    le_write_u16(&mut cfg, 0x52, 0x0007); // table size field: 8 vectors
    le_write_u32(&mut cfg, 0x54, 0x1000 | 2); // table: BAR2, offset 0x1000
    le_write_u32(&mut cfg, 0x58, 0x2000 | 2);
    le_write_u32(&mut cfg, 0x10, 0x0000_0001); // BAR0: I/O
    le_write_u32(&mut cfg, 0x18, 0x0000_0004); // BAR2: 64-bit memory
    cfg[0x0e] = 0x80; // multi-function bit, masked on reads
    cfg[0x3d] = 0x01; // INTx pin, masked on reads
    cfg
}

fn host_regions() -> Vec<VfioRegion> {
    let mut regions = Vec::new();
    for i in 0..6u64 {
        let size = if i == 2 { 0x4000 } else { 0x1000 };
        regions.push(VfioRegion {
            size,
            fd_offset: 0x1_0000 * i,
            mmaps: vec![MmapInfo { offset: 0, size }],
        });
    }
    regions
}

fn realized_device() -> VfioPciDevice {
    let mut bus = PciBus::new();
    let mut dev = VfioPciDevice::new(0x08, "vfio-test".to_string(), 24);
    let cmd = dev
        .realize(&mut bus, 0x7000, host_config(), host_regions(), PAGE_SIZE)
        .unwrap();
    // Reset cleared the IO, MSE, BM and INTx-disable bits out of 0x0407.
    assert_eq!(cmd, 0);
    assert_eq!(bus.occupied, vec![0x08]);
    dev
}

#[test]
fn msix_info_parsed_from_capability() {
    let dev = realized_device();
    let mi: VfioMsixInfo = dev.msix_info.unwrap();
    assert_eq!(mi.cap_offset, 0x50);
    assert_eq!(mi.entries, 8);
    assert_eq!(mi.table.table_bar, 2);
    assert_eq!(mi.table.table_offset, 0x1000);
    assert_eq!(mi.table.table_size, 8 * 16);
}

#[test]
fn bars_classified_from_type_bits() {
    let dev = realized_device();
    assert_eq!(dev.vfio_bars.len(), 6);
    assert_eq!(dev.vfio_bars[0].region_type, RegionType::Io);
    assert_eq!(dev.vfio_bars[1].region_type, RegionType::Mem32Bit);
    assert_eq!(dev.vfio_bars[2].region_type, RegionType::Mem64Bit);
    assert_eq!(dev.vfio_bars[2].size, 0x4000);
}

#[test]
fn msix_table_carved_out_of_bar_mmaps() {
    // BAR2 size 0x4000, table at 0x1000 of size 0x80, page size 0x1000:
    // the mappable ranges are [0, 0x1000) and [0x2000, 0x4000).
    let dev = realized_device();
    let mmaps = &dev.vfio_bars[2].vfio_region.mmaps;
    assert_eq!(mmaps.len(), 2);
    assert_eq!(mmaps[0], MmapInfo { offset: 0, size: 0x1000 });
    assert_eq!(mmaps[1], MmapInfo { offset: 0x2000, size: 0x2000 });
    // The other BARs keep their single full-region range.
    assert_eq!(dev.vfio_bars[0].vfio_region.mmaps.len(), 1);
}

#[test]
fn command_write_with_mse_asks_for_bar_remap() {
    let mut dev = realized_device();
    let action = dev.write_config(COMMAND, &[0x02, 0x00]);
    assert_eq!(action, VfioWriteAction::UpdateBarMapping);
    assert_eq!(le_read_u16(&dev.pci_config.config, COMMAND) & 0x2, 0x2);
}

#[test]
fn bar_sizing_probe_is_not_a_remap() {
    let mut dev = realized_device();
    let action = dev.write_config(0x10, &[0xFF, 0xFF, 0xFF, 0xFF]);
    assert_eq!(action, VfioWriteAction::Stored);
    let action = dev.write_config(0x10, &[0x00, 0x80, 0x00, 0x00]);
    assert_eq!(action, VfioWriteAction::UpdateBarMapping);
}

#[test]
fn oversized_write_is_rejected_whole() {
    let mut dev = realized_device();
    let before = dev.pci_config.config.clone();
    assert_eq!(
        dev.write_config(0, &[0, 1, 2, 3, 4]),
        VfioWriteAction::Rejected
    );
    assert_eq!(dev.write_config(255, &[0, 1]), VfioWriteAction::Rejected);
    assert_eq!(dev.pci_config.config, before);
}

#[test]
fn msix_enable_disable_enable_restores_the_same_routes() {
    let mut dev = realized_device();
    // Make the MSI-X control word guest-writable so the enable bit can move.
    le_write_u16(&mut dev.pci_config.write_mask, 0x52, 0x8000);

    let a1 = dev.write_config(0x52, &[0x00, 0x80]);
    assert_eq!(a1, VfioWriteAction::MsixEnabled);
    let routes_first: Vec<GsiMsiRoute> = dev.gsi_msi_routes.clone();
    assert_eq!(routes_first.len(), 8);
    for (v, route) in routes_first.iter().enumerate() {
        assert_eq!(route.vector, v as u16);
        assert_eq!(route.gsi, 24 + v as u32);
    }

    let a2 = dev.write_config(0x52, &[0x00, 0x00]);
    assert_eq!(a2, VfioWriteAction::MsixDisabled);
    assert!(dev.gsi_msi_routes.is_empty());

    let a3 = dev.write_config(0x52, &[0x00, 0x80]);
    assert_eq!(a3, VfioWriteAction::MsixEnabled);
    assert_eq!(dev.gsi_msi_routes, routes_first);
}

#[test]
fn config_reads_route_by_register() {
    let dev = realized_device();
    match dev.read_config(0x10, 4) {
        VfioReadRoute::Emulated(bytes) => assert_eq!(bytes.len(), 4),
        _ => panic!("BAR read must be emulated"),
    }
    assert!(matches!(dev.read_config(0x00, 2), VfioReadRoute::FromHost));
    assert!(matches!(dev.read_config(250, 8), VfioReadRoute::Rejected));
    assert!(matches!(dev.read_config(254, 4), VfioReadRoute::Rejected));
}

#[test]
fn host_reads_mask_intx_pin_and_multifunction() {
    let masked = mask_host_config_read(0x3c, vec![0xAA, 0x01, 0xBB]);
    assert_eq!(masked, vec![0xAA, 0x00, 0xBB]);
    let masked = mask_host_config_read(0x0e, vec![0xFF]);
    assert_eq!(masked, vec![0x7F]);
    let masked = mask_host_config_read(0x00, vec![0x12, 0x34]);
    assert_eq!(masked, vec![0x12, 0x34]);
}

#[test]
fn reset_zeroes_bar_bases_but_keeps_type_bits() {
    let mut cfg = host_config();
    // Give BAR1 an assigned base to be cleared.
    le_write_u32(&mut cfg, 0x14, 0xFEDC_0000);
    let mut bus = PciBus::new();
    let mut dev = VfioPciDevice::new(0, "vfio-reset".to_string(), 0);
    dev.realize(&mut bus, 0, cfg, host_regions(), PAGE_SIZE).unwrap();
    // I/O BAR keeps bit 0; memory BAR bases are cleared to the type bits.
    assert_eq!(
        u32::from_le_bytes(dev.pci_config.config[0x10..0x14].try_into().unwrap()),
        0x1
    );
    assert_eq!(
        u32::from_le_bytes(dev.pci_config.config[0x14..0x18].try_into().unwrap()),
        0x0
    );
    assert_eq!(
        u32::from_le_bytes(dev.pci_config.config[0x18..0x1c].try_into().unwrap()),
        0x4
    );
}

#[test]
fn realize_without_msix_capability_fails() {
    let mut cfg = vec![0u8; 256];
    le_write_u16(&mut cfg, COMMAND, 0x0007);
    // No capability list at all.
    let mut bus = PciBus::new();
    let mut dev = VfioPciDevice::new(0, "vfio-nomsix".to_string(), 0);
    let err = dev
        .realize(&mut bus, 0, cfg, host_regions(), PAGE_SIZE)
        .unwrap_err();
    assert_eq!(err, vmm_core::error::VfioPciError::NoMsixCap);
    // A failed realize claims no slot.
    assert!(bus.occupied.is_empty());
}

#[test]
fn realize_refuses_an_occupied_devfn() {
    let mut bus = PciBus::new();
    let mut first = VfioPciDevice::new(0x08, "vfio-a".to_string(), 24);
    first
        .realize(&mut bus, 0, host_config(), host_regions(), PAGE_SIZE)
        .unwrap();
    let mut second = VfioPciDevice::new(0x08, "vfio-b".to_string(), 48);
    let err = second
        .realize(&mut bus, 0, host_config(), host_regions(), PAGE_SIZE)
        .unwrap_err();
    assert_eq!(err, vmm_core::error::VfioPciError::DevfnUsed(0x08));
    assert_eq!(bus.occupied, vec![0x08]);
}

#[test]
fn unrealized_device_refuses_config_access() {
    // Before the host config region is installed, its size is unknown and
    // every access is out of range.
    let mut dev = VfioPciDevice::new(1, "vfio-fresh".to_string(), 0);
    assert!(matches!(dev.read_config(0, 1), VfioReadRoute::Rejected));
    assert_eq!(dev.write_config(0, &[0]), VfioWriteAction::Rejected);
}

#[test]
fn device_name_is_kept() {
    let dev = VfioPciDevice::new(3, "gpu0".to_string(), 40);
    assert_eq!(dev.name(), "gpu0".to_string());
    assert_eq!(dev.devfn, 3);
}
