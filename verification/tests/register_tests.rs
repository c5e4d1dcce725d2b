use rboy::register::Registers;

#[test]
fn wide_registers() {
    let mut reg = Registers::new();
    reg.a = 0x12;
    reg.setf(0x23);
    reg.b = 0x34;
    reg.c = 0x45;
    reg.d = 0x56;
    reg.e = 0x67;
    reg.h = 0x78;
    reg.l = 0x89;
    assert_eq!(reg.af(), 0x1220);
    assert_eq!(reg.bc(), 0x3445);
    assert_eq!(reg.de(), 0x5667);
    assert_eq!(reg.hl(), 0x7889);

    reg.setaf(0x1111);
    reg.setbc(0x1111);
    reg.setde(0x1111);
    reg.sethl(0x1111);
    assert_eq!(reg.af(), 0x1110);
    assert_eq!(reg.bc(), 0x1111);
    assert_eq!(reg.de(), 0x1111);
    assert_eq!(reg.hl(), 0x1111);
}

#[test]
fn flags() {
    let mut reg = Registers::new();

    // Check if initially the flags are good
    assert_eq!(reg.f & 0x0F, 0);

    reg.setf(0x00);
    for i in 0..8u32 {
        assert_eq!(reg.getflag(1u8 << i), false);
    }

    reg.setf(0xFF);
    for i in 0..8u32 {
        assert_eq!(reg.getflag(1u8 << i), i >= 4);
    }

    reg.setf(0x00);
    for i in 0..8u32 {
        let mask = 1u8 << i;
        assert_eq!(reg.getflag(mask), false);
        reg.flag(mask, true);
        assert_eq!(reg.getflag(mask), i >= 4);
        reg.flag(mask, false);
        assert_eq!(reg.getflag(mask), false);
    }
}

#[test]
fn hl_special() {
    let mut reg = Registers::new();
    reg.sethl(0x1234);
    assert_eq!(reg.hl(), 0x1234);
    assert_eq!(reg.hld(), 0x1234);
    assert_eq!(reg.hld(), 0x1233);
    assert_eq!(reg.hld(), 0x1232);
    assert_eq!(reg.hli(), 0x1231);
    assert_eq!(reg.hli(), 0x1232);
    assert_eq!(reg.hli(), 0x1233);
    assert_eq!(reg.hl(), 0x1234);
}

#[test]
fn boot_values() {
    let reg = Registers::new();
    assert_eq!(reg.af(), 0x01B0);
    assert_eq!(reg.bc(), 0x0013);
    assert_eq!(reg.de(), 0x00D8);
    assert_eq!(reg.hl(), 0x014D);
    assert_eq!(reg.pc, 0x0100);
    assert_eq!(reg.sp, 0xFFFE);
    let cgb = Registers::new_cgb();
    assert_eq!(cgb.af(), 0x11B0);
}

#[test]
fn hl_wraps_around() {
    let mut reg = Registers::new();
    reg.sethl(0x0000);
    assert_eq!(reg.hld(), 0x0000);
    assert_eq!(reg.hl(), 0xFFFF);
    assert_eq!(reg.hli(), 0xFFFF);
    assert_eq!(reg.hl(), 0x0000);
}

#[test]
fn flag_keeps_low_nibble_clear() {
    let mut reg = Registers::new();
    reg.setf(0x00);
    reg.flag(0x0F, true);
    assert_eq!(reg.f(), 0x00);
    reg.flag(0x80, true);
    assert_eq!(reg.f(), 0x80);
    assert!(reg.getflag(0x80));
}
