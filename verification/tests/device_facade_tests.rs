use rboy::device::Device;
use rboy::keypad::KeypadKey;
use rboy::printer::GbPrinter;
use rboy::serial::SerialCallback;

struct Unplugged;

impl SerialCallback for Unplugged {
    fn call(&mut self, _value: u8) -> Option<u8> {
        None
    }
}

fn header_sum(data: &[u8]) -> u8 {
    let mut x: u8 = 0;
    for i in 0x134..0x14D {
        x = x.wrapping_sub(data[i]).wrapping_sub(1);
    }
    x
}

/// A 32 KiB ROM of the given type whose program at 0x100 is `program`, titled "FACADE".
fn rom(kind: u8, ramsize: u8, cgb_flag: u8, program: &[u8]) -> Vec<u8> {
    let mut data = vec![0u8; 0x8000];
    for (i, b) in program.iter().enumerate() {
        data[0x100 + i] = *b;
    }
    for (i, c) in b"FACADE".iter().enumerate() {
        data[0x134 + i] = *c;
    }
    data[0x143] = cgb_flag;
    data[0x147] = kind;
    data[0x149] = ramsize;
    data[0x14D] = header_sum(&data);
    data
}

#[test]
fn device_refuses_bad_images() {
    assert!(matches!(Device::<Unplugged>::new_from_buffer(vec![0; 0x100], false), Err("Rom size to small")));
    let mut bad = rom(0x00, 0, 0, &[0x76]);
    bad[0x14D] ^= 1;
    assert!(matches!(Device::<Unplugged>::new_from_buffer(bad.clone(), false), Err("Cartridge checksum is invalid")));
    assert!(Device::<Unplugged>::new_from_buffer(bad, true).is_ok());
    assert!(matches!(Device::<Unplugged>::new_from_buffer(rom(0x20, 0, 0, &[0x76]), false), Err("Unsupported MBC type")));
    assert!(matches!(
        Device::<Unplugged>::new_from_buffer(rom(0x00, 0, 0xC0, &[0x76]), false),
        Err("This game does not work in Classic mode")
    ));
    assert!(Device::<Unplugged>::new_cgb_from_buffer(rom(0x00, 0, 0xC0, &[0x76]), false).is_ok());
}

#[test]
fn device_runs_and_reports() {
    // LD A,0x42; LD (0xC000),A; HALT
    let mut d = match Device::<Unplugged>::new_from_buffer(rom(0x00, 0, 0, &[0x3E, 0x42, 0xEA, 0x00, 0xC0, 0x76]), false) {
        Ok(d) => d,
        Err(e) => panic!("{}", e),
    };
    assert_eq!(d.romname(), "FACADE");
    assert!(!d.ram_is_battery_backed());
    assert_eq!(d.dumpram(), Vec::<u8>::new());
    for _ in 0..4 {
        assert!(d.check_step().is_ok());
        d.do_cycle();
    }
    assert_eq!(d.cpu.mmu.rb(0xC000), 0x42);
    assert_eq!(d.get_gpu_data().len(), 160 * 144 * 3);
    assert!(!d.check_and_reset_gpu_updated());
}

#[test]
fn device_keys_reach_the_keypad() {
    let mut d = match Device::<Unplugged>::new_from_buffer(rom(0x00, 0, 0, &[0x76]), false) {
        Ok(d) => d,
        Err(e) => panic!("{}", e),
    };
    d.keydown(KeypadKey::Start);
    assert_eq!(d.cpu.mmu.keypad.row0, 0x07);
    assert_eq!(d.cpu.mmu.keypad.interrupt, 0x10);
    d.keyup(KeypadKey::Start);
    assert_eq!(d.cpu.mmu.keypad.row0, 0x0F);
}

#[test]
fn device_save_ram_round_trips() {
    let mut d = match Device::<Unplugged>::new_from_buffer(rom(0x03, 2, 0, &[0x76]), false) {
        Ok(d) => d,
        Err(e) => panic!("{}", e),
    };
    assert!(d.ram_is_battery_backed());
    let save: Vec<u8> = (0..0x2000).map(|i| (i % 251) as u8).collect();
    assert!(d.loadram(&save[..10]).is_err());
    assert!(d.loadram(&save).is_ok());
    assert_eq!(d.dumpram(), save);
    assert!(!d.check_and_reset_ram_updated());
}

#[test]
fn device_printer_and_link_cable() {
    let mut d = match Device::<GbPrinter>::new_from_buffer(rom(0x00, 0, 0, &[0x76]), false) {
        Ok(d) => d,
        Err(e) => panic!("{}", e),
    };
    assert!(d.cpu.mmu.serial.callback.is_none());
    d.attach_printer();
    assert_eq!(d.cpu.mmu.serial.callback.as_ref().map(|p| p.state), Some(0));
    d.unset_serial_callback();
    assert!(d.cpu.mmu.serial.callback.is_none());
    d.set_serial_callback(GbPrinter::new());
    assert!(d.cpu.mmu.serial.callback.is_some());
}
