//! Cartridge-header auto-detection and the ROM/RAM address-space maps it
//! yields.
//!
//! A ROM image is probed for a valid internal header at three offsets, in
//! order: `0x40FFB0` (ExHiROM), `0xFFB0` (HiROM), `0x7FB0` (LoROM). A
//! header is valid when its declared map-mode base matches the probed
//! family and its checksum/complement bytes are consistent. The returned
//! maps describe how 24-bit CPU addresses fold into ROM/RAM offsets.

use vstd::prelude::*;

verus! {

/// The three recognized memory-map families.
#[derive(Clone, Copy, Debug, PartialEq, Eq, Structural)]
pub enum BaseMapMode {
    LoRom,
    HiRom,
    ExHiRom,
}

/// The raw map-mode byte of the header; its low nibble declares the map
/// family, bit 4 the ROM speed.
#[derive(Clone, Copy, Debug, PartialEq, Eq, Structural)]
pub struct MapMode(pub u8);

impl MapMode {
    /// The map family the byte declares, if its low nibble names one.
    pub open spec fn spec_base(self) -> Option<BaseMapMode> {
        if self.0 % 16 == 0 {
            Some(BaseMapMode::LoRom)
        } else if self.0 % 16 == 1 {
            Some(BaseMapMode::HiRom)
        } else if self.0 % 16 == 5 {
            Some(BaseMapMode::ExHiRom)
        } else {
            None
        }
    }

    pub fn base(&self) -> (r: Option<BaseMapMode>)
        ensures
            r == self.spec_base(),
    {
        if self.0 % 16 == 0 {
            Some(BaseMapMode::LoRom)
        } else if self.0 % 16 == 1 {
            Some(BaseMapMode::HiRom)
        } else if self.0 % 16 == 5 {
            Some(BaseMapMode::ExHiRom)
        } else {
            None
        }
    }
}

/// What the chipset byte declares about cartridge RAM and battery backup
/// (by the conventional low-nibble coding of the byte).
#[derive(Clone, Copy, Debug, PartialEq, Eq, Structural)]
pub struct Chipset {
    pub has_ram: bool,
    pub has_battery: bool,
}

/// Decodes the chipset byte's low nibble.
pub open spec fn chipset_decoded(b: u8) -> Chipset {
    Chipset {
        has_ram: b % 16 == 1 || b % 16 == 2 || b % 16 == 4 || b % 16 == 5,
        has_battery: b % 16 == 2 || b % 16 == 5 || b % 16 == 6,
    }
}

/// Decodes the RAM-size byte: zero means no RAM, otherwise 1 KiB shifted
/// left by the byte, up to the largest size a cartridge carries.
pub open spec fn ram_size_decoded(b: u8) -> u32 {
    if b == 0 {
        0
    } else if b == 1 {
        0x800
    } else if b == 2 {
        0x1000
    } else if b == 3 {
        0x2000
    } else if b == 4 {
        0x4000
    } else if b == 5 {
        0x8000
    } else if b == 6 {
        0x10000
    } else if b == 7 {
        0x20000
    } else if b == 8 {
        0x40000
    } else if b == 9 {
        0x80000
    } else if b == 10 {
        0x100000
    } else if b == 11 {
        0x200000
    } else if b == 12 {
        0x400000
    } else {
        0
    }
}

/// A rectangle in the 24-bit address space: an inclusive range of banks
/// crossed with an inclusive range of in-bank addresses.
#[derive(Clone, Copy, Debug, PartialEq, Eq)]
pub struct MapAddrRange {
    pub banks: (u8, u8),
    pub addrs: (u16, u16),
}

/// One region of the address-space map: the address rectangles it covers,
/// the device offset added after the mask folds the address, an optional
/// bound the folded offset wraps at, and the folding mask.
#[derive(Clone, Debug)]
pub struct MapRegion {
    pub address_ranges: Vec<MapAddrRange>,
    pub offset: u32,
    pub size: Option<u32>,
    pub mask: u32,
}

/// Field-wise description of a region (regions hold a `Vec`, so contracts
/// compare them through this).
pub open spec fn region_is(
    r: MapRegion,
    ranges: Seq<MapAddrRange>,
    offset: u32,
    size: Option<u32>,
    mask: u32,
) -> bool {
    r.address_ranges@ == ranges && r.offset == offset && r.size == size && r.mask == mask
}

/// The cartridge's internal header, as read from the probed block.
#[derive(Clone, Debug)]
pub struct Header {
    pub title: Vec<u8>,
    pub map_mode: MapMode,
    pub chipset: Chipset,
    pub rom_size_byte: u8,
    pub ram_size: u32,
    pub checksum_complement: u16,
    pub checksum: u16,
    pub nmi_vector: u16,
    pub irq_vector: u16,
    pub reset_vector: u16,
}

/// What ROM loading derives for the rest of the system: the title, the
/// usable save-RAM size, battery presence, and the ROM/RAM address maps.
#[derive(Clone, Debug)]
pub struct Info {
    pub title: Vec<u8>,
    pub ram_size: u32,
    pub has_battery: bool,
    pub rom_map: Vec<MapRegion>,
    pub ram_map: Vec<MapRegion>,
}

/// A little-endian 16-bit value at a byte offset of the image.
pub open spec fn read_u16_spec(rom: Seq<u8>, i: int) -> int {
    rom[i] + rom[i + 1] * 0x100
}

/// Whether a valid header for the expected family sits at `base`: the
/// declared map-mode base matches the probed family and the checksum and
/// its complement are consistent.
pub open spec fn header_valid(rom: Seq<u8>, base: int, expected: BaseMapMode) -> bool {
    MapMode(rom[base + 0x25]).spec_base() == Some(expected) && read_u16_spec(rom, base + 0x2C)
        + read_u16_spec(rom, base + 0x2E) == 0xFFFF
}

/// The header fields as read from the block at `base`: title at +0x10,
/// map mode at +0x25, chipset at +0x26, ROM and RAM size bytes, the
/// checksum pair, and the native NMI/IRQ and emulation reset vectors.
pub open spec fn header_matches(h: Header, rom: Seq<u8>, base: int) -> bool {
    &&& h.title@ == rom.subrange(base + 0x10, base + 0x25)
    &&& h.map_mode == MapMode(rom[base + 0x25])
    &&& h.chipset == chipset_decoded(rom[base + 0x26])
    &&& h.rom_size_byte == rom[base + 0x27]
    &&& h.ram_size == ram_size_decoded(rom[base + 0x28])
    &&& h.checksum_complement == read_u16_spec(rom, base + 0x2C)
    &&& h.checksum == read_u16_spec(rom, base + 0x2E)
    &&& h.nmi_vector == read_u16_spec(rom, base + 0x3A)
    &&& h.irq_vector == read_u16_spec(rom, base + 0x3E)
    &&& h.reset_vector == read_u16_spec(rom, base + 0x4C)
}

fn read_u16(rom: &Vec<u8>, i: usize) -> (r: u16)
    requires
        i + 2 <= rom.len(),
    ensures
        r == read_u16_spec(rom@, i as int),
{
    rom[i] as u16 + rom[i + 1] as u16 * 0x100
}

fn base_mode_eq(a: BaseMapMode, b: BaseMapMode) -> (r: bool)
    ensures
        r == (a == b),
{
    match (a, b) {
        (BaseMapMode::LoRom, BaseMapMode::LoRom) => true,
        (BaseMapMode::HiRom, BaseMapMode::HiRom) => true,
        (BaseMapMode::ExHiRom, BaseMapMode::ExHiRom) => true,
        _ => false,
    }
}

/// Parses the 0x50-byte header block at `base`, accepting it only when
/// the declared map-mode base matches the expected family and the
/// checksum/complement pair is consistent.
pub fn parse_header(rom: &Vec<u8>, base: usize, expected: BaseMapMode) -> (r: Option<Header>)
    requires
        base + 0x50 <= rom.len(),
    ensures
        r is Some <==> header_valid(rom@, base as int, expected),
        r matches Some(h) ==> header_matches(h, rom@, base as int),
{
    let map_mode = MapMode(rom[base + 0x25]);
    let base_ok: bool = match map_mode.base() {
        Some(m) => base_mode_eq(m, expected),
        None => false,
    };
    let complement: u16 = read_u16(rom, base + 0x2C);
    let checksum: u16 = read_u16(rom, base + 0x2E);
    let checksum_ok: bool = complement as u32 + checksum as u32 == 0xFFFF;
    if !(base_ok && checksum_ok) {
        return None;
    }
    let mut title: Vec<u8> = Vec::new();
    let mut j: usize = 0;
    while j < 21
        invariant
            0 <= j <= 21,
            base + 0x50 <= rom.len(),
            title@ == rom@.subrange(base + 0x10, base + 0x10 + j),
        decreases 21 - j,
    {
        title.push(rom[base + 0x10 + j]);
        j = j + 1;
        proof {
            assert(title@ =~= rom@.subrange(base as int + 0x10, base as int + 0x10 + j));
        }
    }
    proof {
        assert(title@ =~= rom@.subrange(base as int + 0x10, base as int + 0x25));
    }
    let ram_byte: u8 = rom[base + 0x28];
    let ram_size: u32 = match ram_byte {
        0 => 0,
        1 => 0x800,
        2 => 0x1000,
        3 => 0x2000,
        4 => 0x4000,
        5 => 0x8000,
        6 => 0x10000,
        7 => 0x20000,
        8 => 0x40000,
        9 => 0x80000,
        10 => 0x100000,
        11 => 0x200000,
        12 => 0x400000,
        _ => 0,
    };
    let chip_byte: u8 = rom[base + 0x26];
    Some(
        Header {
            title,
            map_mode,
            chipset: Chipset {
                has_ram: chip_byte % 16 == 1 || chip_byte % 16 == 2 || chip_byte % 16 == 4
                    || chip_byte % 16 == 5,
                has_battery: chip_byte % 16 == 2 || chip_byte % 16 == 5 || chip_byte % 16 == 6,
            },
            rom_size_byte: rom[base + 0x27],
            ram_size,
            checksum_complement: complement,
            checksum,
            nmi_vector: read_u16(rom, base + 0x3A),
            irq_vector: read_u16(rom, base + 0x3E),
            reset_vector: read_u16(rom, base + 0x4C),
        },
    )
}

/// Whether any of the three probes accepts the image.
pub open spec fn guess_succeeds(rom: Seq<u8>) -> bool {
    rom.len() >= 0x8000 && ((rom.len() >= 0x410000 && header_valid(rom, 0x40FFB0, BaseMapMode::ExHiRom))
        || (rom.len() >= 0x10000 && header_valid(rom, 0xFFB0, BaseMapMode::HiRom)) || header_valid(
        rom,
        0x7FB0,
        BaseMapMode::LoRom,
    ))
}

/// The family of the first probe that succeeds (ExHiROM, then HiROM, then
/// LoROM).
pub open spec fn winning_mode(rom: Seq<u8>) -> BaseMapMode {
    if rom.len() >= 0x410000 && header_valid(rom, 0x40FFB0, BaseMapMode::ExHiRom) {
        BaseMapMode::ExHiRom
    } else if rom.len() >= 0x10000 && header_valid(rom, 0xFFB0, BaseMapMode::HiRom) {
        BaseMapMode::HiRom
    } else {
        BaseMapMode::LoRom
    }
}

/// The probe offset of the first probe that succeeds.
pub open spec fn winning_base(rom: Seq<u8>) -> int {
    if rom.len() >= 0x410000 && header_valid(rom, 0x40FFB0, BaseMapMode::ExHiRom) {
        0x40FFB0
    } else if rom.len() >= 0x10000 && header_valid(rom, 0xFFB0, BaseMapMode::HiRom) {
        0xFFB0
    } else {
        0x7FB0
    }
}

/// The LoROM address rectangles: the upper halves of all banks; when the
/// cartridge has no RAM, the ROM also appears over the lower halves of the
/// banks clear of system areas.
pub open spec fn lorom_ranges(no_ram: bool) -> Seq<MapAddrRange> {
    if no_ram {
        seq![
            MapAddrRange { banks: (0x00, 0x7D), addrs: (0x8000, 0xFFFF) },
            MapAddrRange { banks: (0x80, 0xFF), addrs: (0x8000, 0xFFFF) },
            MapAddrRange { banks: (0x40, 0x7D), addrs: (0x0000, 0x7FFF) },
            MapAddrRange { banks: (0xC0, 0xFF), addrs: (0x0000, 0x7FFF) },
        ]
    } else {
        seq![
            MapAddrRange { banks: (0x00, 0x7D), addrs: (0x8000, 0xFFFF) },
            MapAddrRange { banks: (0x80, 0xFF), addrs: (0x8000, 0xFFFF) },
        ]
    }
}

/// The HiROM address rectangles: whole banks `$40-7D`/`$C0-FF` and the
/// upper halves of `$00-3F`/`$80-BF`.
pub open spec fn hirom_ranges() -> Seq<MapAddrRange> {
    seq![
        MapAddrRange { banks: (0x00, 0x3F), addrs: (0x8000, 0xFFFF) },
        MapAddrRange { banks: (0x80, 0xBF), addrs: (0x8000, 0xFFFF) },
        MapAddrRange { banks: (0x40, 0x7D), addrs: (0x0000, 0xFFFF) },
        MapAddrRange { banks: (0xC0, 0xFF), addrs: (0x0000, 0xFFFF) },
    ]
}

/// The first ExHiROM region's rectangles (offset `0x40_0000`).
pub open spec fn exhirom_first_ranges() -> Seq<MapAddrRange> {
    seq![
        MapAddrRange { banks: (0x00, 0x3F), addrs: (0x8000, 0xFFFF) },
        MapAddrRange { banks: (0x40, 0x7D), addrs: (0x0000, 0xFFFF) },
    ]
}

/// The second ExHiROM region's rectangles (mask `0xC0_0000`).
pub open spec fn exhirom_second_ranges() -> Seq<MapAddrRange> {
    seq![
        MapAddrRange { banks: (0x80, 0xBF), addrs: (0x8000, 0xFFFF) },
        MapAddrRange { banks: (0xC0, 0xFF), addrs: (0x0000, 0xFFFF) },
    ]
}

/// The ExHiROM save-RAM rectangle (mask `0xE000`).
pub open spec fn exhirom_ram_ranges() -> Seq<MapAddrRange> {
    seq![MapAddrRange { banks: (0x80, 0xBF), addrs: (0x6000, 0x7FFF) }]
}

/// The maps `guess` returns for the winning family, over the header it
/// parsed there.
pub open spec fn maps_match(info: Info, h: Header, mode: BaseMapMode) -> bool {
    match mode {
        BaseMapMode::LoRom => info.rom_map@.len() == 1 && region_is(
            info.rom_map@[0],
            lorom_ranges(h.ram_size == 0),
            0,
            None,
            0x8000,
        ) && info.ram_map@.len() == 0,
        BaseMapMode::HiRom => info.rom_map@.len() == 1 && region_is(
            info.rom_map@[0],
            hirom_ranges(),
            0,
            None,
            0,
        ) && info.ram_map@.len() == 0,
        BaseMapMode::ExHiRom => info.rom_map@.len() == 2 && region_is(
            info.rom_map@[0],
            exhirom_first_ranges(),
            0x400000,
            None,
            0,
        ) && region_is(info.rom_map@[1], exhirom_second_ranges(), 0, None, 0xC00000) && (
        if h.ram_size != 0 {
            info.ram_map@.len() == 1 && region_is(info.ram_map@[0], exhirom_ram_ranges(), 0, None, 0xE000)
        } else {
            info.ram_map@.len() == 0
        }),
    }
}

/// Whether an address rectangle contains a 24-bit address.
pub open spec fn range_contains(r: MapAddrRange, addr: u32) -> bool {
    &&& r.banks.0 <= addr / 0x10000 <= r.banks.1
    &&& r.addrs.0 <= addr % 0x10000 <= r.addrs.1
}

/// Whether any rectangle of a region contains the address.
pub open spec fn region_contains(r: MapRegion, addr: u32) -> bool {
    exists|k: int| 0 <= k < r.address_ranges@.len() && range_contains(r.address_ranges@[k], addr)
}

/// The device offset a region assigns to an address it contains: the
/// mask folds the address, the region's offset is added, and a bounded
/// region wraps at its size.
pub open spec fn region_offset(r: MapRegion, addr: u32) -> int {
    let folded = (addr & !r.mask) + r.offset;
    match r.size {
        Some(s) => if s > 0 {
            folded % (s as int)
        } else {
            folded
        },
        None => folded,
    }
}

/// Where a 24-bit address lands: the first region whose rectangles
/// contain it decides, later regions are shadowed; an address no region
/// contains is unmapped (open bus).
pub open spec fn spec_map_address(regions: Seq<MapRegion>, addr: u32) -> Option<u64>
    decreases regions.len(),
{
    if regions.len() == 0 {
        None
    } else if region_contains(regions[0], addr) {
        Some(region_offset(regions[0], addr) as u64)
    } else {
        spec_map_address(regions.drop_first(), addr)
    }
}

/// Maps a 24-bit bus address through a region list: the first region
/// containing the address yields `((address & !mask) + offset)`, wrapped
/// at the region's size when one is set; `None` is an unmapped access.
pub fn map_address(regions: &Vec<MapRegion>, addr: u32) -> (r: Option<u64>)
    requires
        addr < 0x1000000,
    ensures
        r == spec_map_address(regions@, addr),
{
    let mut i: usize = 0;
    proof {
        assert(regions@.subrange(0, regions@.len() as int) =~= regions@);
    }
    while i < regions.len()
        invariant
            0 <= i <= regions@.len(),
            addr < 0x1000000,
            spec_map_address(regions@, addr) == spec_map_address(
                regions@.subrange(i as int, regions@.len() as int),
                addr,
            ),
        decreases regions@.len() - i,
    {
        let region = &regions[i];
        let bank: u32 = addr / 0x10000;
        let low: u32 = addr % 0x10000;
        let mut hit: bool = false;
        let mut j: usize = 0;
        while j < region.address_ranges.len()
            invariant
                0 <= j <= region.address_ranges@.len(),
                bank == addr / 0x10000,
                low == addr % 0x10000,
                hit == exists|k: int|
                    0 <= k < j && range_contains(region.address_ranges@[k], addr),
            decreases region.address_ranges@.len() - j,
        {
            let rr = region.address_ranges[j];
            if rr.banks.0 as u32 <= bank && bank <= rr.banks.1 as u32 && rr.addrs.0 as u32 <= low
                && low <= rr.addrs.1 as u32 {
                proof {
                    assert(range_contains(region.address_ranges@[j as int], addr));
                }
                hit = true;
            }
            j = j + 1;
        }
        proof {
            assert(regions@.subrange(i as int, regions@.len() as int)[0] == regions@[i as int]);
            assert(hit == region_contains(regions@[i as int], addr));
        }
        if hit {
            let folded: u64 = (addr & !region.mask) as u64 + region.offset as u64;
            let out: u64 = match region.size {
                Some(s) => if s > 0 {
                    folded % s as u64
                } else {
                    folded
                },
                None => folded,
            };
            return Some(out);
        }
        proof {
            assert(regions@.subrange(i as int, regions@.len() as int).drop_first()
                =~= regions@.subrange(i as int + 1, regions@.len() as int));
        }
        i = i + 1;
    }
    proof {
        assert(regions@.subrange(regions@.len() as int, regions@.len() as int).len() == 0);
    }
    None
}

fn copy_bytes(v: &Vec<u8>) -> (r: Vec<u8>)
    ensures
        r@ == v@,
{
    let mut r: Vec<u8> = Vec::new();
    let mut j: usize = 0;
    while j < v.len()
        invariant
            0 <= j <= v.len(),
            r@ == v@.subrange(0, j as int),
        decreases v.len() - j,
    {
        r.push(v[j]);
        j = j + 1;
        proof {
            assert(r@ =~= v@.subrange(0, j as int));
        }
    }
    proof {
        assert(r@ =~= v@);
    }
    r
}

impl Info {
    /// Probes the image for a valid internal header (ExHiROM at
    /// `0x40FFB0`, then HiROM at `0xFFB0`, then LoROM at `0x7FB0`) and
    /// derives the address-space maps of the winning family. Images
    /// shorter than 32 KiB, and images no probe accepts, are rejected.
    pub fn guess(rom: &Vec<u8>) -> (r: Option<(Info, Header)>)
        ensures
            r is Some <==> guess_succeeds(rom@),
            r matches Some(pair) ==> ({
                let info = pair.0;
                let h = pair.1;
                &&& header_matches(h, rom@, winning_base(rom@))
                &&& h.map_mode.spec_base() == Some(winning_mode(rom@))
                &&& info.title@ == h.title@
                &&& info.has_battery == h.chipset.has_battery
                &&& info.ram_size == if h.chipset.has_ram {
                    h.ram_size
                } else {
                    0u32
                }
                &&& maps_match(info, h, winning_mode(rom@))
            }),
    {
        if rom.len() < 0x8000 {
            return None;
        }
        let mut header_opt: Option<Header> = None;
        if rom.len() >= 0x410000 {
            header_opt = parse_header(rom, 0x40FFB0, BaseMapMode::ExHiRom);
        }
        if header_opt.is_none() && rom.len() >= 0x10000 {
            header_opt = parse_header(rom, 0xFFB0, BaseMapMode::HiRom);
        }
        if header_opt.is_none() {
            header_opt = parse_header(rom, 0x7FB0, BaseMapMode::LoRom);
        }
        let header: Header = match header_opt {
            Some(h) => h,
            None => {
                return None;
            },
        };
        let mut rom_map: Vec<MapRegion> = Vec::new();
        let mut ram_map: Vec<MapRegion> = Vec::new();
        match header.map_mode.base() {
            Some(BaseMapMode::LoRom) => {
                let mut rom_ranges: Vec<MapAddrRange> = Vec::new();
                rom_ranges.push(MapAddrRange { banks: (0x00, 0x7D), addrs: (0x8000, 0xFFFF) });
                rom_ranges.push(MapAddrRange { banks: (0x80, 0xFF), addrs: (0x8000, 0xFFFF) });
                if header.ram_size == 0 {
                    rom_ranges.push(MapAddrRange { banks: (0x40, 0x7D), addrs: (0x0000, 0x7FFF) });
                    rom_ranges.push(MapAddrRange { banks: (0xC0, 0xFF), addrs: (0x0000, 0x7FFF) });
                    proof {
                        assert(rom_ranges@ =~= lorom_ranges(true));
                    }
                } else {
                    proof {
                        assert(rom_ranges@ =~= lorom_ranges(false));
                    }
                }
                rom_map.push(
                    MapRegion { address_ranges: rom_ranges, offset: 0, size: None, mask: 0x8000 },
                );
                // Save-RAM layout for LoROM boards is unresolved; left
                // unmapped, as the in-bank ranges vary between boards.
            },
            Some(BaseMapMode::HiRom) => {
                let mut rom_ranges: Vec<MapAddrRange> = Vec::new();
                rom_ranges.push(MapAddrRange { banks: (0x00, 0x3F), addrs: (0x8000, 0xFFFF) });
                rom_ranges.push(MapAddrRange { banks: (0x80, 0xBF), addrs: (0x8000, 0xFFFF) });
                rom_ranges.push(MapAddrRange { banks: (0x40, 0x7D), addrs: (0x0000, 0xFFFF) });
                rom_ranges.push(MapAddrRange { banks: (0xC0, 0xFF), addrs: (0x0000, 0xFFFF) });
                proof {
                    assert(rom_ranges@ =~= hirom_ranges());
                }
                rom_map.push(
                    MapRegion { address_ranges: rom_ranges, offset: 0, size: None, mask: 0 },
                );
                // Save-RAM bank placement differs between HiROM boards;
                // left unmapped until a layout is chosen deliberately.
            },
            Some(BaseMapMode::ExHiRom) => {
                let mut first_ranges: Vec<MapAddrRange> = Vec::new();
                first_ranges.push(MapAddrRange { banks: (0x00, 0x3F), addrs: (0x8000, 0xFFFF) });
                first_ranges.push(MapAddrRange { banks: (0x40, 0x7D), addrs: (0x0000, 0xFFFF) });
                proof {
                    assert(first_ranges@ =~= exhirom_first_ranges());
                }
                rom_map.push(
                    MapRegion {
                        address_ranges: first_ranges,
                        offset: 0x400000,
                        size: None,
                        mask: 0,
                    },
                );
                let mut second_ranges: Vec<MapAddrRange> = Vec::new();
                second_ranges.push(MapAddrRange { banks: (0x80, 0xBF), addrs: (0x8000, 0xFFFF) });
                second_ranges.push(MapAddrRange { banks: (0xC0, 0xFF), addrs: (0x0000, 0xFFFF) });
                proof {
                    assert(second_ranges@ =~= exhirom_second_ranges());
                }
                rom_map.push(
                    MapRegion {
                        address_ranges: second_ranges,
                        offset: 0,
                        size: None,
                        mask: 0xC00000,
                    },
                );
                if header.ram_size != 0 {
                    let mut ram_ranges: Vec<MapAddrRange> = Vec::new();
                    ram_ranges.push(MapAddrRange { banks: (0x80, 0xBF), addrs: (0x6000, 0x7FFF) });
                    proof {
                        assert(ram_ranges@ =~= exhirom_ram_ranges());
                    }
                    ram_map.push(
                        MapRegion { address_ranges: ram_ranges, offset: 0, size: None, mask: 0xE000 },
                    );
                }
            },
            None => {
                proof {
                    assert(false);
                }
            },
        }
        let title: Vec<u8> = copy_bytes(&header.title);
        Some(
            (
                Info {
                    title,
                    ram_size: if header.chipset.has_ram {
                        header.ram_size
                    } else {
                        0
                    },
                    has_battery: header.chipset.has_battery,
                    rom_map,
                    ram_map,
                },
                header,
            ),
        )
    }
}

} // verus!
