use ness_core::cart::{map_address, BaseMapMode, Info, MapAddrRange, MapRegion};

/// Writes a header block at `base`: title, map mode, chipset, RAM size
/// byte, a consistent checksum/complement pair, and a reset vector.
fn write_header(rom: &mut Vec<u8>, base: usize, map_mode: u8, chipset: u8, ram_byte: u8) {
    let title = b"TEST";
    for i in 0..21 {
        rom[base + 0x10 + i] = if i < title.len() { title[i] } else { b' ' };
    }
    rom[base + 0x25] = map_mode;
    rom[base + 0x26] = chipset;
    rom[base + 0x27] = 0x09;
    rom[base + 0x28] = ram_byte;
    // complement + checksum == 0xFFFF
    rom[base + 0x2C] = 0xFF;
    rom[base + 0x2D] = 0xFF;
    rom[base + 0x2E] = 0x00;
    rom[base + 0x2F] = 0x00;
    // emulation reset vector
    rom[base + 0x4C] = 0x00;
    rom[base + 0x4D] = 0x80;
}

#[test]
fn lorom_detection_yields_two_ranges_and_mask_8000() {
    let mut rom = vec![0u8; 512 * 1024];
    write_header(&mut rom, 0x7FB0, 0x20, 0x02, 0x03);
    let (info, header) = Info::guess(&rom).expect("header should be accepted");
    assert_eq!(header.map_mode.base(), Some(BaseMapMode::LoRom));
    assert_eq!(&info.title[..4], b"TEST");
    assert_eq!(header.reset_vector, 0x8000);
    assert_eq!(info.rom_map.len(), 1);
    let region = &info.rom_map[0];
    assert_eq!(region.mask, 0x8000);
    assert_eq!(region.offset, 0);
    assert_eq!(region.size, None);
    assert_eq!(region.address_ranges.len(), 2);
    assert_eq!(
        region.address_ranges[0],
        MapAddrRange { banks: (0x00, 0x7D), addrs: (0x8000, 0xFFFF) }
    );
    assert_eq!(
        region.address_ranges[1],
        MapAddrRange { banks: (0x80, 0xFF), addrs: (0x8000, 0xFFFF) }
    );
    assert!(info.ram_map.is_empty());
    assert_eq!(info.ram_size, 0x2000);
    assert!(info.has_battery);
}

#[test]
fn lorom_without_ram_also_maps_the_lower_bank_halves() {
    let mut rom = vec![0u8; 512 * 1024];
    write_header(&mut rom, 0x7FB0, 0x20, 0x00, 0x00);
    let (info, _header) = Info::guess(&rom).expect("header should be accepted");
    let region = &info.rom_map[0];
    assert_eq!(region.address_ranges.len(), 4);
    assert_eq!(
        region.address_ranges[2],
        MapAddrRange { banks: (0x40, 0x7D), addrs: (0x0000, 0x7FFF) }
    );
    assert_eq!(
        region.address_ranges[3],
        MapAddrRange { banks: (0xC0, 0xFF), addrs: (0x0000, 0x7FFF) }
    );
    assert_eq!(info.ram_size, 0);
    assert!(!info.has_battery);
}

#[test]
fn hirom_detection_yields_the_four_range_map() {
    let mut rom = vec![0u8; 512 * 1024];
    write_header(&mut rom, 0xFFB0, 0x21, 0x02, 0x03);
    let (info, header) = Info::guess(&rom).expect("header should be accepted");
    assert_eq!(header.map_mode.base(), Some(BaseMapMode::HiRom));
    assert_eq!(&info.title[..4], b"TEST");
    assert_eq!(info.rom_map.len(), 1);
    let region = &info.rom_map[0];
    assert_eq!(region.mask, 0);
    assert_eq!(region.offset, 0);
    assert_eq!(region.address_ranges.len(), 4);
    assert_eq!(
        region.address_ranges[0],
        MapAddrRange { banks: (0x00, 0x3F), addrs: (0x8000, 0xFFFF) }
    );
    assert_eq!(
        region.address_ranges[1],
        MapAddrRange { banks: (0x80, 0xBF), addrs: (0x8000, 0xFFFF) }
    );
    assert_eq!(
        region.address_ranges[2],
        MapAddrRange { banks: (0x40, 0x7D), addrs: (0x0000, 0xFFFF) }
    );
    assert_eq!(
        region.address_ranges[3],
        MapAddrRange { banks: (0xC0, 0xFF), addrs: (0x0000, 0xFFFF) }
    );
    assert!(info.ram_map.is_empty());
}

#[test]
fn exhirom_detection_yields_two_regions_and_save_ram() {
    let mut rom = vec![0u8; 0x420000];
    write_header(&mut rom, 0x40FFB0, 0x25, 0x02, 0x05);
    let (info, header) = Info::guess(&rom).expect("header should be accepted");
    assert_eq!(header.map_mode.base(), Some(BaseMapMode::ExHiRom));
    assert_eq!(info.rom_map.len(), 2);
    assert_eq!(info.rom_map[0].offset, 0x400000);
    assert_eq!(info.rom_map[0].mask, 0);
    assert_eq!(info.rom_map[0].address_ranges.len(), 2);
    assert_eq!(info.rom_map[1].offset, 0);
    assert_eq!(info.rom_map[1].mask, 0xC00000);
    assert_eq!(info.rom_map[1].address_ranges.len(), 2);
    assert_eq!(info.ram_map.len(), 1);
    assert_eq!(info.ram_map[0].mask, 0xE000);
    assert_eq!(
        info.ram_map[0].address_ranges[0],
        MapAddrRange { banks: (0x80, 0xBF), addrs: (0x6000, 0x7FFF) }
    );
    assert_eq!(info.ram_size, 0x8000);
}

#[test]
fn map_mode_base_must_match_the_probed_family() {
    let mut rom = vec![0u8; 512 * 1024];
    // a HiROM map-mode byte at the LoROM probe offset is rejected
    write_header(&mut rom, 0x7FB0, 0x21, 0x00, 0x00);
    assert!(Info::guess(&rom).is_none());
}

#[test]
fn inconsistent_checksum_rejects_the_header() {
    let mut rom = vec![0u8; 512 * 1024];
    write_header(&mut rom, 0x7FB0, 0x20, 0x00, 0x00);
    rom[0x7FB0 + 0x2C] = 0x12;
    rom[0x7FB0 + 0x2D] = 0x34;
    assert!(Info::guess(&rom).is_none());
}

#[test]
fn short_rom_is_rejected() {
    let rom = vec![0u8; 0x7FFF];
    assert!(Info::guess(&rom).is_none());
}

#[test]
fn all_zero_rom_is_rejected() {
    let rom = vec![0u8; 512 * 1024];
    assert!(Info::guess(&rom).is_none());
}

#[test]
fn chipset_without_ram_zeroes_the_usable_ram_size() {
    let mut rom = vec![0u8; 512 * 1024];
    // RAM size byte set, but the chipset declares no RAM
    write_header(&mut rom, 0x7FB0, 0x20, 0x00, 0x03);
    let (info, header) = Info::guess(&rom).expect("header should be accepted");
    assert_eq!(header.ram_size, 0x2000);
    assert_eq!(info.ram_size, 0);
    // the ROM-over-lower-halves decision follows the header's RAM size
    assert_eq!(info.rom_map[0].address_ranges.len(), 2);
}

#[test]
fn lorom_addresses_fold_through_the_mask() {
    let mut rom = vec![0u8; 512 * 1024];
    write_header(&mut rom, 0x7FB0, 0x20, 0x02, 0x03);
    let (info, _header) = Info::guess(&rom).expect("header should be accepted");
    // upper half of bank 0: the 0x8000 bit folds away
    assert_eq!(map_address(&info.rom_map, 0x008123), Some(0x123));
    assert_eq!(map_address(&info.rom_map, 0x808123), Some(0x800123));
    // lower halves are unmapped when the cartridge has RAM
    assert_eq!(map_address(&info.rom_map, 0x400123), None);
    // system area below 0x8000 in bank 0 is unmapped
    assert_eq!(map_address(&info.rom_map, 0x001234), None);
}

#[test]
fn first_matching_region_shadows_later_ones() {
    let front = MapRegion {
        address_ranges: vec![MapAddrRange { banks: (0x00, 0x0F), addrs: (0x0000, 0xFFFF) }],
        offset: 0x100,
        size: None,
        mask: 0,
    };
    let back = MapRegion {
        address_ranges: vec![MapAddrRange { banks: (0x00, 0xFF), addrs: (0x0000, 0xFFFF) }],
        offset: 0x999,
        size: None,
        mask: 0,
    };
    let regions = vec![front, back];
    assert_eq!(map_address(&regions, 0x050000), Some(0x050100));
    assert_eq!(map_address(&regions, 0x100000), Some(0x100999));
}

#[test]
fn bounded_region_wraps_at_its_size() {
    let region = MapRegion {
        address_ranges: vec![MapAddrRange { banks: (0x00, 0xFF), addrs: (0x0000, 0xFFFF) }],
        offset: 0,
        size: Some(0x2000),
        mask: 0xE000,
    };
    let regions = vec![region];
    // the mask folds the address before the size wraps it
    assert_eq!(map_address(&regions, 0x007123), Some(0x1123));
    assert_eq!(map_address(&regions, 0x00F123), Some(0x1123));
}

#[test]
fn header_vectors_are_read_little_endian() {
    let mut rom = vec![0u8; 512 * 1024];
    write_header(&mut rom, 0x7FB0, 0x20, 0x00, 0x00);
    rom[0x7FB0 + 0x3A] = 0xEA;
    rom[0x7FB0 + 0x3B] = 0xFF;
    rom[0x7FB0 + 0x3E] = 0xEE;
    rom[0x7FB0 + 0x3F] = 0xFF;
    let (_info, header) = Info::guess(&rom).expect("header should be accepted");
    assert_eq!(header.nmi_vector, 0xFFEA);
    assert_eq!(header.irq_vector, 0xFFEE);
    assert_eq!(header.reset_vector, 0x8000);
}
