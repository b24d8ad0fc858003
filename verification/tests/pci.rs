use vmm_core::pci::{
    le_read_u16, le_read_u32, le_write_u16, le_write_u32, PciConfig, BAR_0, CAP_POINTER, COMMAND,
    MSIX_CAP_ID, PCI_CONFIG_SPACE_SIZE, STATUS,
};

#[test]
fn le_helpers_round_trip() {
    let mut buf = vec![0u8; 16];
    le_write_u16(&mut buf, 2, 0xBEEF);
    assert_eq!(le_read_u16(&buf, 2), 0xBEEF);
    assert_eq!(buf[2], 0xEF);
    assert_eq!(buf[3], 0xBE);
    le_write_u32(&mut buf, 8, 0x1234_5678);
    assert_eq!(le_read_u32(&buf, 8), 0x1234_5678);
    assert_eq!(buf[8], 0x78);
    assert_eq!(buf[11], 0x12);
}

#[test]
fn masked_write_round_trips_under_the_mask() {
    let mut cfg = PciConfig::new(PCI_CONFIG_SPACE_SIZE);
    // Bits 0..7 of one register writable, none write-clear.
    cfg.write_mask[0x40] = 0xFF;
    cfg.write_mask[0x41] = 0x0F;
    cfg.write(0x40, &[0xAB, 0xCD]);
    let read = cfg.read(0x40, 2);
    // Bytes match modulo the write-mask.
    assert_eq!(read[0] & 0xFF, 0xAB);
    assert_eq!(read[1] & 0x0F, 0xCD & 0x0F);
    // Unwritable bits stayed clear.
    assert_eq!(read[1] & 0xF0, 0);
}

#[test]
fn write_clear_bits_clear_on_writing_one() {
    let mut cfg = PciConfig::new(PCI_CONFIG_SPACE_SIZE);
    cfg.init_common_write_clear_mask();
    // Pretend the device raised two STATUS bits.
    cfg.config[STATUS] = 0x00;
    cfg.config[STATUS + 1] = 0xF9;
    // The guest writes ones to clear them.
    cfg.write(STATUS, &[0x00, 0xF9]);
    assert_eq!(le_read_u16(&cfg.config, STATUS), 0);
}

#[test]
fn bar_sizing_probe_reads_back_size_mask() {
    let size: u32 = 0x4000;
    let type_bits: u32 = 0x4;
    let mut cfg = PciConfig::new(PCI_CONFIG_SPACE_SIZE);
    // A memory BAR of 0x4000 bytes: type bits stored, address bits writable.
    le_write_u32(&mut cfg.config, BAR_0, type_bits);
    cfg.set_bar_sizing_mask(0, size as u64, false);
    assert_eq!(le_read_u32(&cfg.write_mask, BAR_0), !(size - 1));
    // The guest writes all-ones to size the BAR.
    cfg.write(BAR_0, &[0xFF, 0xFF, 0xFF, 0xFF]);
    let read = le_read_u32(&cfg.config, BAR_0);
    assert_eq!(read, !(size - 1) | type_bits);
}

#[test]
fn sizing_mask_of_a_64bit_bar_covers_both_slots() {
    let size: u64 = 0x2_0000_0000; // 8 GiB
    let mut cfg = PciConfig::new(PCI_CONFIG_SPACE_SIZE);
    cfg.set_bar_sizing_mask(0, size, true);
    let mask: u64 = !(size - 1);
    assert_eq!(le_read_u32(&cfg.write_mask, BAR_0), (mask & 0xFFFF_FFFF) as u32);
    assert_eq!(le_read_u32(&cfg.write_mask, BAR_0 + 4), (mask >> 32) as u32);
}

#[test]
fn command_mask_lets_only_command_bits_through() {
    let mut cfg = PciConfig::new(PCI_CONFIG_SPACE_SIZE);
    cfg.init_common_write_mask();
    cfg.write(COMMAND, &[0xFF, 0xFF]);
    // IO | MEM | BM | PARITY | SERR | INTX_DISABLE = 0x0547.
    assert_eq!(le_read_u16(&cfg.config, COMMAND), 0x0547);
}

#[test]
fn find_pci_cap_walks_the_list() {
    let mut cfg = PciConfig::new(PCI_CONFIG_SPACE_SIZE);
    // 0x34 -> 0x40 (PM cap) -> 0x50 (MSI-X cap) -> end.
    cfg.config[CAP_POINTER] = 0x40;
    cfg.config[0x40] = 0x01;
    cfg.config[0x41] = 0x50;
    cfg.config[0x50] = MSIX_CAP_ID;
    cfg.config[0x51] = 0x00;
    assert_eq!(cfg.find_pci_cap(MSIX_CAP_ID), Some(0x50));
    assert_eq!(cfg.find_pci_cap(0x01), Some(0x40));
    assert_eq!(cfg.find_pci_cap(0x10), None);
}

#[test]
fn find_pci_cap_survives_a_cyclic_list() {
    let mut cfg = PciConfig::new(PCI_CONFIG_SPACE_SIZE);
    // 0x40 and 0x48 point at each other; the wanted ID never appears.
    cfg.config[CAP_POINTER] = 0x40;
    cfg.config[0x40] = 0x01;
    cfg.config[0x41] = 0x48;
    cfg.config[0x48] = 0x01;
    cfg.config[0x49] = 0x40;
    assert_eq!(cfg.find_pci_cap(MSIX_CAP_ID), None);
}

#[test]
fn is_msix_enabled_reads_the_control_bit() {
    let mut cfg = PciConfig::new(PCI_CONFIG_SPACE_SIZE);
    cfg.config[0x52] = 0x00;
    cfg.config[0x53] = 0x80;
    assert!(cfg.is_msix_enabled(0x50));
    cfg.config[0x53] = 0x00;
    assert!(!cfg.is_msix_enabled(0x50));
}
