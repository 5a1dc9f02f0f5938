use gbhw::capacity::{CartErr, MBCNum, RAMNum, ROMNum};
use gbhw::cart::{check_header_sum, components_for, Cartridge, Component};
use gbhw::cart::Component::{
    BandaiTAMA5, Battery, HudsonHUC1, HudsonHUC3, PocketCam, Rumble, Timer, MBC, MMM, RAM, ROM, SRAM,
};
use gbhw::region::Region;

fn checksum(image: &[u8]) -> u8 {
    let mut sum: i64 = 0;
    for &b in &image[0x134..0x14D] {
        sum = sum - (b as i64) - 1;
    }
    (sum & 0xFF) as u8
}

fn image(kind: u8, rom: u8, ram: u8) -> Vec<u8> {
    let mut v = vec![0u8; 0x150];
    v[0x134..0x13E].copy_from_slice(b"POCKETTEST");
    v[0x147] = kind;
    v[0x148] = rom;
    v[0x149] = ram;
    v[0x14D] = checksum(&v);
    v
}

#[test]
fn component_table_entries() {
    let r = ROM(ROMNum::N8);
    let m = RAM(RAMNum::N3);
    let table: Vec<(u8, Vec<Component>)> = vec![
        (0x00, vec![r]),
        (0x01, vec![r, MBC(MBCNum::N1)]),
        (0x02, vec![r, MBC(MBCNum::N1), m]),
        (0x03, vec![r, MBC(MBCNum::N1), m, Battery]),
        (0x05, vec![r, MBC(MBCNum::N2)]),
        (0x06, vec![r, MBC(MBCNum::N2), Battery]),
        (0x08, vec![r, m]),
        (0x0B, vec![r, MMM]),
        (0x0C, vec![r, MMM, SRAM]),
        (0x0D, vec![r, MMM, SRAM, Battery]),
        (0x0F, vec![r, MBC(MBCNum::N3), Timer, Battery]),
        (0x10, vec![r, MBC(MBCNum::N3), Timer, m, Battery]),
        (0x11, vec![r, MBC(MBCNum::N3)]),
        (0x12, vec![r, MBC(MBCNum::N3), m]),
        (0x13, vec![r, MBC(MBCNum::N5), m, Battery]),
        (0x19, vec![r, MBC(MBCNum::N5)]),
        (0x1A, vec![r, MBC(MBCNum::N5), m]),
        (0x1B, vec![r, MBC(MBCNum::N5), m, Battery]),
        (0x1C, vec![r, MBC(MBCNum::N5), Rumble]),
        (0x1D, vec![r, MBC(MBCNum::N5), Rumble, SRAM]),
        (0x1E, vec![r, MBC(MBCNum::N5), Rumble, SRAM, Battery]),
        (0x1F, vec![PocketCam]),
        (0xFD, vec![BandaiTAMA5]),
        (0xFE, vec![HudsonHUC3]),
        (0xFF, vec![HudsonHUC1]),
    ];
    for (code, expected) in &table {
        assert_eq!(components_for(*code, ROMNum::N8, RAMNum::N3), Ok(expected.clone()));
        let cart = Cartridge::new(image(*code, 2, 3)).unwrap();
        assert_eq!(cart.components(), expected);
    }
    let known: Vec<u8> = table.iter().map(|e| e.0).collect();
    for code in 0..=255u8 {
        if !known.contains(&code) {
            assert_eq!(
                components_for(code, ROMNum::N2, RAMNum::N0),
                Err(CartErr::UnknownComponents(code))
            );
        }
    }
}

#[test]
fn unknown_component_bytes() {
    assert_eq!(
        Cartridge::new(image(0x15, 0, 0)).unwrap_err(),
        CartErr::UnknownComponents(0x15)
    );
    assert_eq!(
        Cartridge::new_no_check(image(0x20, 0, 0)).unwrap_err(),
        CartErr::UnknownComponents(0x20)
    );
}

#[test]
fn capacity_codes_round_trip() {
    let roms = [
        (0usize, ROMNum::N2, 2usize),
        (1, ROMNum::N4, 4),
        (2, ROMNum::N8, 8),
        (3, ROMNum::N16, 16),
        (4, ROMNum::N32, 32),
        (5, ROMNum::N64, 64),
        (6, ROMNum::N128, 128),
        (0x52, ROMNum::N72, 72),
        (0x53, ROMNum::N80, 80),
        (0x54, ROMNum::N96, 96),
    ];
    for &(code, n, banks) in &roms {
        assert_eq!(ROMNum::try_from(code), Ok(n));
        let back: usize = n.into();
        assert_eq!(back, code);
        assert_eq!(n.size_bytes(), banks * 16 * 1024);
    }
    let rams = [
        (0usize, RAMNum::N0, 0usize),
        (1, RAMNum::N1_2kB, 2048),
        (2, RAMNum::N1_8kB, 8192),
        (3, RAMNum::N3, 32768),
        (4, RAMNum::N4, 131072),
    ];
    for &(code, n, bytes) in &rams {
        assert_eq!(RAMNum::try_from(code), Ok(n));
        let back: usize = n.into();
        assert_eq!(back, code);
        assert_eq!(n.size_bytes(), bytes);
    }
    for code in 0..=0x100usize {
        if !roms.iter().any(|e| e.0 == code) {
            assert_eq!(ROMNum::try_from(code), Err(CartErr::UnknownROMSize(code)));
        }
        if code > 4 {
            assert_eq!(RAMNum::try_from(code), Err(CartErr::UnknownRAMSize(code)));
        }
    }
}

#[test]
fn rom_sizes_in_bytes() {
    assert_eq!(ROMNum::N2.size_bytes(), 32768);
    assert_eq!(ROMNum::N128.size_bytes(), 2 * 1024 * 1024);
    assert_eq!(ROMNum::N72.size_bytes(), 1179648);
}

#[test]
fn mbc_kinds() {
    let kinds: Vec<u8> = [MBCNum::N1, MBCNum::N2, MBCNum::N3, MBCNum::N5]
        .iter()
        .map(|&n| n.into())
        .collect();
    assert_eq!(kinds, vec![1, 2, 3, 5]);
}

#[test]
fn unknown_capacity_codes_abort_header() {
    assert_eq!(
        Cartridge::new_no_check(image(0x01, 0x07, 0)).unwrap_err(),
        CartErr::UnknownROMSize(7)
    );
    assert_eq!(
        Cartridge::new_no_check(image(0x01, 0x00, 0x05)).unwrap_err(),
        CartErr::UnknownRAMSize(5)
    );
    // The ROM size is read before the type byte.
    assert_eq!(
        Cartridge::new_no_check(image(0x15, 0x07, 0)).unwrap_err(),
        CartErr::UnknownROMSize(7)
    );
}

#[test]
fn region_extraction() {
    let buf: Vec<u8> = (0..16u8).collect();
    assert_eq!(Region(3, 7).extract(&buf), Ok(&buf[3..7]));
    assert_eq!(Region(3, 7).extract(&buf).unwrap().len(), 4);
    assert_eq!(Region(0, 16).extract(&buf).unwrap().len(), 16);
    assert_eq!(Region(5, 5).extract(&buf).unwrap().len(), 0);
    assert_eq!(Region(10, 17).extract(&buf), Err(CartErr::RegionOOB));
    assert_eq!(Region(20, 30).extract(&buf), Err(CartErr::RegionOOB));
    assert_eq!(Region(7, 3).extract(&buf), Err(CartErr::RegionOOB));
    assert!(Region(0, 16).is_in_bounds(16));
    assert!(!Region(0, 17).is_in_bounds(16));
    assert_eq!(Region(15, 16).read_u8(&buf), Ok(15));
    assert_eq!(Region(16, 17).read_u8(&buf), Err(CartErr::RegionOOB));
    assert_eq!(Region(4, 4).read_u8(&buf), Err(CartErr::RegionOOB));
}

#[test]
fn short_image_is_out_of_bounds() {
    assert_eq!(Cartridge::new_no_check(vec![]).unwrap_err(), CartErr::RegionOOB);
    assert_eq!(Cartridge::new_no_check(vec![0; 0x148]).unwrap_err(), CartErr::RegionOOB);
    assert_eq!(Cartridge::new_no_check(vec![0; 0x149]).unwrap_err(), CartErr::RegionOOB);
    assert!(Cartridge::new_no_check(vec![0; 0x14A]).is_ok());
    // The strict constructor also needs the stored checksum byte.
    assert_eq!(Cartridge::new(vec![0; 0x14D]).unwrap_err(), CartErr::RegionOOB);
}

#[test]
fn checksum_of_zero_range() {
    // 25 zero bytes each add -1: the low byte of -25 is 0xE7.
    let mut v = vec![0u8; 0x150];
    v[0x14D] = 0xE7;
    assert_eq!(check_header_sum(&v), Ok(()));
    v[0x14D] = 0x00;
    assert_eq!(check_header_sum(&v), Err(CartErr::BadHeaderChecksum(0xE7, 0x00)));
    v[0x14D] = 0xFF;
    assert_eq!(check_header_sum(&v), Err(CartErr::BadHeaderChecksum(0xE7, 0xFF)));
}

#[test]
fn checksum_of_real_title() {
    let v = image(0x03, 0x01, 0x02);
    assert_eq!(check_header_sum(&v), Ok(()));
    let computed = checksum(&v);
    let mut bad = v.clone();
    bad[0x14D] = computed.wrapping_add(1);
    assert_eq!(
        Cartridge::new(bad.clone()).unwrap_err(),
        CartErr::BadHeaderChecksum(computed, computed.wrapping_add(1))
    );
    // The lenient constructor does not look at the checksum.
    assert!(Cartridge::new_no_check(bad).is_ok());
}

#[test]
fn header_fields() {
    let mut v = image(0x13, 0x05, 0x03);
    v[0x143] = 0x80;
    v[0x146] = 0x03;
    v[0x14D] = checksum(&v);
    let cart = Cartridge::new(v).unwrap();
    // The title field ends with the color flag byte, which is not valid text.
    assert_eq!(cart.title(), "POCKETTEST\0\0\0\0\0\u{FFFD}");
    assert!(cart.is_cgb());
    assert!(cart.is_sgb());
    assert_eq!(
        cart.components(),
        &vec![
            Component::ROM(ROMNum::N64),
            Component::MBC(MBCNum::N5),
            Component::RAM(RAMNum::N3),
            Component::Battery
        ]
    );
    assert!(cart.has_component(Component::Battery));
    assert!(cart.has_component(Component::RAM(RAMNum::N3)));
    assert!(!cart.has_component(Component::RAM(RAMNum::N4)));
    assert!(!cart.has_component(Component::Timer));
}

#[test]
fn mode_flags_need_exact_values() {
    let mut v = image(0x00, 0, 0);
    v[0x143] = 0xC0;
    v[0x146] = 0x01;
    let cart = Cartridge::new_no_check(v).unwrap();
    assert!(!cart.is_cgb());
    assert!(!cart.is_sgb());
}

#[test]
fn title_replaces_invalid_bytes() {
    let mut v = image(0x00, 0, 0);
    v[0x134] = 0xFF;
    let cart = Cartridge::new_no_check(v).unwrap();
    assert!(cart.title().starts_with('\u{FFFD}'));
    assert!(cart.title().contains("OCKETTEST"));
}
