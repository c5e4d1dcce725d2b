use rboy::mbc::{check_checksum, get_mbc, ram_banks, ram_size, rom_banks, Cartridge, MBC};

#[test]
fn checksum_zero() {
    let mut data = vec![0; 0x150];
    data[0x14D] = -(0x14D_i32 - 0x134_i32) as u8;
    check_checksum(&data).unwrap();
}

#[test]
fn checksum_ones() {
    let mut data = vec![1; 0x150];
    data[0x14D] = (-(0x14D_i32 - 0x134_i32) * 2) as u8;
    check_checksum(&data).unwrap();
}

fn header_sum(data: &[u8]) -> u8 {
    let mut x: u8 = 0;
    for i in 0x134..0x14D {
        x = x.wrapping_sub(data[i]).wrapping_sub(1);
    }
    x
}

/// A ROM image of `banks` banks of 16 KiB whose every byte in bank n is n, with the header
/// filled in.
fn make_rom(kind: u8, romsize: u8, ramsize: u8, banks: usize) -> Vec<u8> {
    let mut data = vec![0u8; banks * 0x4000];
    for b in 0..banks {
        for i in 0..0x4000 {
            data[b * 0x4000 + i] = b as u8;
        }
    }
    for i in 0x134..0x150 {
        data[i] = 0;
    }
    let title = b"TESTGAME";
    for (i, c) in title.iter().enumerate() {
        data[0x134 + i] = *c;
    }
    data[0x147] = kind;
    data[0x148] = romsize;
    data[0x149] = ramsize;
    data[0x14D] = header_sum(&data);
    data
}

#[test]
fn checksum_wrong_is_refused() {
    let mut data = vec![0; 0x150];
    data[0x14D] = 0x12;
    assert_eq!(check_checksum(&data), Err("Cartridge checksum is invalid"));
    assert!(matches!(get_mbc(data.clone(), false), Err("Cartridge checksum is invalid")));
    assert!(get_mbc(data, true).is_ok());
}

#[test]
fn rom_too_small_is_refused() {
    assert!(matches!(get_mbc(vec![0; 0x14F], true), Err("Rom size to small")));
}

#[test]
fn unsupported_type_is_refused() {
    let data = make_rom(0x20, 0, 0, 2);
    assert!(matches!(get_mbc(data, false), Err("Unsupported MBC type")));
}

#[test]
fn bank_counts() {
    assert_eq!(rom_banks(0), 2);
    assert_eq!(rom_banks(1), 4);
    assert_eq!(rom_banks(5), 64);
    assert_eq!(ram_banks(0), 0);
    assert_eq!(ram_banks(2), 1);
    assert_eq!(ram_banks(3), 4);
    assert_eq!(ram_size(0), 0);
    assert_eq!(ram_size(2), 0x2000);
    assert_eq!(ram_size(4), 0x20000);
}

#[test]
fn mbc0_reads_rom() {
    let data = make_rom(0x00, 0, 0, 2);
    let c = get_mbc(data, false).unwrap();
    assert!(matches!(c, Cartridge::MBC0(_)));
    assert_eq!(c.readrom(0x0000), 0);
    assert_eq!(c.readrom(0x4000), 1);
    assert_eq!(c.readram(0xA000), 0);
    assert_eq!(c.romname(), "TESTGAME");
}

#[test]
fn mbc1_switches_rom_banks() {
    let data = make_rom(0x01, 2, 0, 8);
    let mut c = get_mbc(data, false).unwrap();
    assert!(matches!(c, Cartridge::MBC1(_)));
    assert_eq!(c.readrom(0x4000), 1);
    c.writerom(0x2000, 5);
    assert_eq!(c.readrom(0x4000), 5);
    assert_eq!(c.readrom(0x0000), 0);
    // bank 0 selects bank 1
    c.writerom(0x2000, 0);
    assert_eq!(c.readrom(0x4000), 1);
}

#[test]
fn mbc1_ram_needs_enable_and_round_trips() {
    let data = make_rom(0x03, 0, 2, 2);
    let mut c = get_mbc(data, false).unwrap();
    assert!(c.is_battery_backed());
    c.writeram(0xA000, 0x42);
    assert_eq!(c.readram(0xA000), 0xFF);
    assert!(!c.check_and_reset_ram_updated());
    c.writerom(0x0000, 0x0A);
    c.writeram(0xA123, 0x42);
    assert_eq!(c.readram(0xA123), 0x42);
    assert!(c.check_and_reset_ram_updated());
    assert!(!c.check_and_reset_ram_updated());

    let saved = c.dumpram();
    assert_eq!(saved.len(), 0x2000);
    let mut fresh = get_mbc(make_rom(0x03, 0, 2, 2), false).unwrap();
    fresh.loadram(&saved).unwrap();
    fresh.writerom(0x0000, 0x0A);
    assert_eq!(fresh.readram(0xA123), 0x42);
    assert_eq!(fresh.loadram(&saved[0..10]), Err("Loaded RAM has incorrect length"));
}

#[test]
fn mbc5_switches_rom_banks() {
    let data = make_rom(0x19, 2, 0, 8);
    let mut c = get_mbc(data, false).unwrap();
    assert!(matches!(c, Cartridge::MBC5(_)));
    c.writerom(0x2000, 7);
    assert_eq!(c.readrom(0x4000), 7);
    c.writerom(0x2000, 0);
    assert_eq!(c.readrom(0x4000), 0);
}

#[test]
fn mbc3_clock_counts_from_its_start_time() {
    let data = make_rom(0x10, 0, 2, 2);
    let mut m = rboy::mbc::MBC3::new(data).unwrap();
    assert_eq!(m.rtc_zero, Some(0));
    let now: u64 = 2 * 86400 + 3 * 3600 + 4 * 60 + 5;
    m.latch_rtc_reg(now);
    assert_eq!(m.rtc_ram_latch, vec![5, 4, 3, 2, 0]);
    assert_eq!(m.compute_difftime(now), Some(0));
    assert_eq!(m.compute_difftime(now + 10), Some(10));
    // a start time of `now` shows the registers as they are
    m.calc_rtc_zero(now);
    assert_eq!(m.rtc_zero, Some(0));
}

#[test]
fn mbc3_save_keeps_the_start_time() {
    let data = make_rom(0x10, 0, 2, 2);
    let c = get_mbc(data.clone(), false).unwrap();
    let saved = c.dumpram();
    assert_eq!(saved.len(), 8 + 0x2000);
    let mut bytes = saved.clone();
    bytes[7] = 42;
    bytes[8] = 7;
    let mut fresh = get_mbc(data, false).unwrap();
    fresh.loadram(&bytes).unwrap();
    assert_eq!(fresh.dumpram(), bytes);
}

#[test]
fn fresh_cartridges_read_the_image_below_0x4000() {
    for kind in [0x00u8, 0x03, 0x06, 0x13, 0x1B] {
        let mut data = make_rom(kind, 1, 2, 4);
        for i in 0x150..0x4000 {
            data[i] = (i * 7) as u8;
        }
        let c = get_mbc(data.clone(), false).unwrap();
        for a in [0x0000u16, 0x0100, 0x0147, 0x0150, 0x1234, 0x3FFF] {
            assert_eq!(c.readrom(a), data[a as usize]);
        }
        assert_eq!(c.readrom(0x4000), 1);
        assert_eq!(c.readram(0xA000), if kind == 0x1B { 0 } else if kind == 0x00 { 0 } else { 0xFF });
    }
}

#[test]
fn get_mbc_ignores_the_checksum_byte_when_told_to() {
    let data = make_rom(0x03, 1, 2, 4);
    let mut other = data.clone();
    other[0x14D] = other[0x14D].wrapping_add(1);
    let a = get_mbc(data, false).unwrap();
    let b = get_mbc(other, true).unwrap();
    for addr in [0x0000u16, 0x4000, 0x7FFF] {
        if addr != 0x014D {
            assert_eq!(a.readrom(addr), b.readrom(addr));
        }
    }
    assert_eq!(a.is_battery_backed(), b.is_battery_backed());
}
