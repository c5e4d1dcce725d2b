use rboy::cpu::CPU;
use rboy::cpu_cycle::StepError;
use rboy::gbmode::GbMode;
use rboy::mbc::get_mbc;
use rboy::mmu::MMU;
use rboy::serial::SerialCallback;

/// A link cable with nothing at the other end.
struct Unplugged;

impl SerialCallback for Unplugged {
    fn call(&mut self, _value: u8) -> Option<u8> {
        None
    }
}

/// A link cable that records what is sent and answers each byte with its complement.
struct Echo {
    sent: Vec<u8>,
}

impl SerialCallback for Echo {
    fn call(&mut self, value: u8) -> Option<u8> {
        self.sent.push(value);
        Some(!value)
    }
}

fn header_sum(data: &[u8]) -> u8 {
    let mut x: u8 = 0;
    for i in 0x134..0x14D {
        x = x.wrapping_sub(data[i]).wrapping_sub(1);
    }
    x
}

/// A 32 KiB ROM without a controller whose program at 0x100 is `program`.
fn rom_with(program: &[u8], cgb_flag: u8) -> Vec<u8> {
    let mut data = vec![0u8; 0x8000];
    for (i, b) in program.iter().enumerate() {
        data[0x100 + i] = *b;
    }
    data[0x143] = cgb_flag;
    data[0x147] = 0x00;
    data[0x14D] = header_sum(&data);
    data
}

fn classic_cpu(program: &[u8]) -> CPU<Unplugged> {
    let cart = get_mbc(rom_with(program, 0), false).unwrap();
    match CPU::new(cart, None) {
        Ok(cpu) => cpu,
        Err(e) => panic!("{}", e),
    }
}

fn run_until_halted<C: SerialCallback>(cpu: &mut CPU<C>, limit: usize) {
    for _ in 0..limit {
        if cpu.halted {
            return;
        }
        assert!(cpu.check_step().is_ok());
        cpu.do_cycle();
    }
    panic!("the program did not halt");
}

#[test]
fn runs_a_small_program() {
    // LD A,0x42; LD B,A; ADD A,B; INC A; LD (0xC000),A; LD HL,0xC000; LD C,(HL); HALT
    let mut cpu = classic_cpu(&[0x3E, 0x42, 0x47, 0x80, 0x3C, 0xEA, 0x00, 0xC0, 0x21, 0x00, 0xC0, 0x4E, 0x76]);
    assert_eq!(cpu.reg.pc, 0x100);
    run_until_halted(&mut cpu, 100);
    assert_eq!(cpu.reg.a, 0x85);
    assert_eq!(cpu.reg.b, 0x42);
    assert_eq!(cpu.reg.c, 0x85);
    assert_eq!(cpu.reg.hl(), 0xC000);
    assert_eq!(cpu.mmu.rb(0xC000), 0x85);
    // echo of work RAM
    assert_eq!(cpu.mmu.rb(0xE000), 0x85);
}

#[test]
fn subtract_sets_flags() {
    // LD A,0x10; SUB 0x10; HALT
    let mut cpu = classic_cpu(&[0x3E, 0x10, 0xD6, 0x10, 0x76]);
    run_until_halted(&mut cpu, 100);
    assert_eq!(cpu.reg.a, 0);
    assert_eq!(cpu.reg.f(), 0xC0);
}

#[test]
fn call_and_return() {
    // CALL 0x0110; HALT; ... 0x110: LD D,0x77; RET
    let mut program = vec![0u8; 0x20];
    program[0] = 0xCD;
    program[1] = 0x10;
    program[2] = 0x01;
    program[3] = 0x76;
    program[0x10] = 0x16;
    program[0x11] = 0x77;
    program[0x12] = 0xC9;
    let mut cpu = classic_cpu(&program);
    run_until_halted(&mut cpu, 100);
    assert_eq!(cpu.reg.d, 0x77);
    assert_eq!(cpu.reg.sp, 0xFFFE);
    assert_eq!(cpu.reg.pc, 0x104);
}

#[test]
fn unimplemented_opcode_is_reported() {
    let cpu = classic_cpu(&[0xD3]);
    assert_eq!(cpu.check_step(), Err(StepError::Unimplemented(0xD3)));
}

#[test]
fn colour_only_game_is_refused_on_classic() {
    let cart = get_mbc(rom_with(&[0x76], 0xC0), false).unwrap();
    match CPU::<Unplugged>::new(cart, None) {
        Ok(_) => panic!("a colour-only game was accepted"),
        Err(e) => assert_eq!(e, "This game does not work in Classic mode"),
    }
}

#[test]
fn colour_model_follows_the_header() {
    let cart = get_mbc(rom_with(&[0x76], 0x80), false).unwrap();
    let cpu = match CPU::<Unplugged>::new_cgb(cart, None) {
        Ok(cpu) => cpu,
        Err(e) => panic!("{}", e),
    };
    assert!(cpu.mmu.gbmode == GbMode::Color);
    assert_eq!(cpu.reg.a, 0x11);
    let cart = get_mbc(rom_with(&[0x76], 0x00), false).unwrap();
    let cpu = match CPU::<Unplugged>::new_cgb(cart, None) {
        Ok(cpu) => cpu,
        Err(e) => panic!("{}", e),
    };
    assert!(cpu.mmu.gbmode == GbMode::ColorAsClassic);
}

#[test]
fn vblank_interrupt_is_serviced() {
    // LD A,1; LDH (0xFF),A; EI; HALT; NOP...
    let mut cpu = classic_cpu(&[0x3E, 0x01, 0xE0, 0xFF, 0xFB, 0x76, 0x00, 0x00]);
    let mut reached = false;
    for _ in 0..100000 {
        assert!(cpu.check_step().is_ok());
        cpu.do_cycle();
        if cpu.reg.pc == 0x40 {
            reached = true;
            break;
        }
    }
    assert!(reached);
    assert!(!cpu.ime);
    assert_eq!(cpu.mmu.intf & 0x01, 0);
    // the return address is on the stack
    assert_eq!(cpu.mmu.rw(cpu.reg.sp), 0x0106);
}

#[test]
fn serial_transfer_reaches_the_callback() {
    // LD A,0x5A; LDH (0x01),A; LD A,0x81; LDH (0x02),A; HALT
    let cart = get_mbc(rom_with(&[0x3E, 0x5A, 0xE0, 0x01, 0x3E, 0x81, 0xE0, 0x02, 0x76], 0), false).unwrap();
    let mut cpu = match CPU::new(cart, Some(Echo { sent: Vec::new() })) {
        Ok(cpu) => cpu,
        Err(e) => panic!("{}", e),
    };
    run_until_halted(&mut cpu, 100);
    assert_eq!(cpu.mmu.serial.callback.as_ref().unwrap().sent, vec![0x5A]);
    assert_eq!(cpu.mmu.rb(0xFF01), 0xA5);
    assert_eq!(cpu.mmu.serial.interrupt, 0x08);
    assert_eq!(cpu.mmu.intf & 0x08, 0);
}

#[test]
fn memory_map_reads_back_writes() {
    let cart = get_mbc(rom_with(&[0x76], 0), false).unwrap();
    let mut mmu = match MMU::<Unplugged>::new(cart, None) {
        Ok(m) => m,
        Err(e) => panic!("{}", e),
    };
    mmu.wb(0xC123, 0x11);
    assert_eq!(mmu.rb(0xC123), 0x11);
    mmu.wb(0xFF90, 0x22);
    assert_eq!(mmu.rb(0xFF90), 0x22);
    mmu.wb(0xFFFF, 0x1F);
    assert_eq!(mmu.rb(0xFFFF), 0x1F);
    mmu.ww(0xD000, 0xBEEF);
    assert_eq!(mmu.rw(0xD000), 0xBEEF);
    assert_eq!(mmu.rb(0xD000), 0xEF);
    // boot values of the LCD registers
    assert_eq!(mmu.rb(0xFF40), 0x91);
    assert_eq!(mmu.rb(0xFF47), 0xFC);
}

#[test]
fn oam_dma_copies_160_bytes() {
    let cart = get_mbc(rom_with(&[0x76], 0), false).unwrap();
    let mut mmu = match MMU::<Unplugged>::new(cart, None) {
        Ok(m) => m,
        Err(e) => panic!("{}", e),
    };
    for i in 0..0xA0u16 {
        mmu.wb(0xC100 + i, i as u8);
    }
    mmu.wb(0xFF46, 0xC1);
    for i in 0..0xA0u16 {
        assert_eq!(mmu.rb(0xFE00 + i), i as u8);
    }
}

#[test]
fn general_dma_copies_rows_to_vram() {
    let cart = get_mbc(rom_with(&[0x76], 0x80), false).unwrap();
    let mut mmu = match MMU::<Unplugged>::new_cgb(cart, None) {
        Ok(m) => m,
        Err(e) => panic!("{}", e),
    };
    for i in 0..0x20u16 {
        mmu.wb(0xC000 + i, 0x80 + i as u8);
    }
    mmu.wb(0xFF51, 0xC0);
    mmu.wb(0xFF52, 0x00);
    mmu.wb(0xFF53, 0x01);
    mmu.wb(0xFF54, 0x00);
    // two rows, general transfer
    mmu.wb(0xFF55, 0x01);
    assert_eq!(mmu.rb(0xFF55), 0x01);
    let ticks = mmu.do_cycle(4);
    assert_eq!(ticks, 4 + 2 * 32);
    for i in 0..0x20u16 {
        assert_eq!(mmu.rb(0x8100 + i), 0x80 + i as u8);
    }
    assert_eq!(mmu.rb(0xFF55), 0xFF);
}

#[test]
fn timer_interrupt_reaches_the_flags() {
    let cart = get_mbc(rom_with(&[0x76], 0), false).unwrap();
    let mut mmu = match MMU::<Unplugged>::new(cart, None) {
        Ok(m) => m,
        Err(e) => panic!("{}", e),
    };
    mmu.wb(0xFF0F, 0);
    mmu.wb(0xFF06, 0xF0);
    mmu.wb(0xFF05, 0xFF);
    mmu.wb(0xFF07, 0x05);
    mmu.do_cycle(16);
    assert_eq!(mmu.rb(0xFF05), 0xF0);
    assert_eq!(mmu.intf & 0x04, 0x04);
}

#[test]
fn double_speed_switch() {
    let cart = get_mbc(rom_with(&[0x76], 0x80), false).unwrap();
    let mut mmu = match MMU::<Unplugged>::new_cgb(cart, None) {
        Ok(m) => m,
        Err(e) => panic!("{}", e),
    };
    mmu.wb(0xFF4D, 0x01);
    assert_eq!(mmu.rb(0xFF4D), 0x01);
    mmu.switch_speed();
    assert_eq!(mmu.rb(0xFF4D), 0x80);
    assert_eq!(mmu.do_cycle(8), 4);
}

#[test]
fn decimal_adjust_after_addition() {
    // LD A,0x15; ADD A,0x27; DAA; HALT
    let mut cpu = classic_cpu(&[0x3E, 0x15, 0xC6, 0x27, 0x27, 0x76]);
    run_until_halted(&mut cpu, 100);
    assert_eq!(cpu.reg.a, 0x42);
    assert_eq!(cpu.reg.f(), 0x00);
}

#[test]
fn swap_nibbles() {
    // LD B,0xAB; SWAP B; HALT
    let mut cpu = classic_cpu(&[0x06, 0xAB, 0xCB, 0x30, 0x76]);
    run_until_halted(&mut cpu, 100);
    assert_eq!(cpu.reg.b, 0xBA);
    assert_eq!(cpu.reg.f(), 0x00);
}

#[test]
fn bit_test_keeps_carry() {
    // LD H,0x80; BIT 7,H; HALT
    let mut cpu = classic_cpu(&[0x26, 0x80, 0xCB, 0x7C, 0x76]);
    run_until_halted(&mut cpu, 100);
    assert_eq!(cpu.reg.f(), 0x30);
}

#[test]
fn pop_af_keeps_only_flag_bits() {
    // LD BC,0x12FF; PUSH BC; POP AF; HALT
    let mut cpu = classic_cpu(&[0x01, 0xFF, 0x12, 0xC5, 0xF1, 0x76]);
    run_until_halted(&mut cpu, 100);
    assert_eq!(cpu.reg.a, 0x12);
    assert_eq!(cpu.reg.f(), 0xF0);
    assert_eq!(cpu.reg.sp, 0xFFFE);
}

#[test]
fn relative_jump_loop() {
    // LD B,3; loop: DEC B; JR NZ,loop; HALT
    let mut cpu = classic_cpu(&[0x06, 0x03, 0x05, 0x20, 0xFD, 0x76]);
    run_until_halted(&mut cpu, 100);
    assert_eq!(cpu.reg.b, 0);
    assert!(cpu.reg.getflag(0x80));
}

#[test]
fn rotate_accumulator_left() {
    // LD A,0x85; RLCA; HALT
    let mut cpu = classic_cpu(&[0x3E, 0x85, 0x07, 0x76]);
    run_until_halted(&mut cpu, 100);
    assert_eq!(cpu.reg.a, 0x0B);
    assert_eq!(cpu.reg.f(), 0x10);
}

#[test]
fn store_and_increment_hl() {
    // LD HL,0xC000; LD A,1; LD (HL+),A; HALT
    let mut cpu = classic_cpu(&[0x21, 0x00, 0xC0, 0x3E, 0x01, 0x22, 0x76]);
    run_until_halted(&mut cpu, 100);
    assert_eq!(cpu.reg.hl(), 0xC001);
    assert_eq!(cpu.mmu.rb(0xC000), 1);
}

#[test]
fn sixteen_bit_add_carries() {
    // LD HL,0xFFFF; LD DE,0x0001; ADD HL,DE; HALT
    let mut cpu = classic_cpu(&[0x21, 0xFF, 0xFF, 0x11, 0x01, 0x00, 0x19, 0x76]);
    run_until_halted(&mut cpu, 100);
    assert_eq!(cpu.reg.hl(), 0x0000);
    assert_eq!(cpu.reg.f(), 0xB0);
}

#[test]
fn instruction_timings() {
    // NOP (1); LD BC,d16 (3); PUSH BC (4); POP BC (3); CALL a16 (6)
    let mut program = vec![0u8; 0x20];
    program[0] = 0x00;
    program[1] = 0x01;
    program[4] = 0xC5;
    program[5] = 0xC1;
    program[6] = 0xCD;
    program[7] = 0x10;
    program[8] = 0x01;
    program[0x10] = 0x76;
    let mut cpu = classic_cpu(&program);
    let mut ticks = Vec::new();
    for _ in 0..5 {
        ticks.push(cpu.do_cycle());
    }
    assert_eq!(ticks, vec![4, 12, 16, 12, 24]);
}

#[test]
fn call_then_ret_restores_pc_and_sp() {
    // LD SP,0xD000; CALL 0x0150; HALT ... 0x150: RET
    let mut program = vec![0u8; 0x51];
    program[0] = 0x31;
    program[1] = 0x00;
    program[2] = 0xD0;
    program[3] = 0xCD;
    program[4] = 0x50;
    program[5] = 0x01;
    program[6] = 0x76;
    program[0x50] = 0xC9;
    let mut cpu = classic_cpu(&program);
    assert_eq!(cpu.call(), 3);
    let (f, a, hl) = (cpu.reg.f, cpu.reg.a, cpu.reg.hl());
    assert_eq!(cpu.reg.pc, 0x103);
    assert_eq!(cpu.call(), 6);
    assert_eq!(cpu.reg.pc, 0x150);
    assert_eq!(cpu.reg.sp, 0xCFFE);
    assert_eq!(cpu.mmu.rw(0xCFFE), 0x106);
    assert_eq!(cpu.call(), 4);
    assert_eq!(cpu.reg.pc, 0x106);
    assert_eq!(cpu.reg.sp, 0xD000);
    assert_eq!(cpu.reg.f, f);
    assert_eq!(cpu.reg.a, a);
    assert_eq!(cpu.reg.hl(), hl);
}

#[test]
fn cb_prefixed_bit_res_set_on_a() {
    let mut cpu = classic_cpu(&[0x00, 0xC7, 0x87, 0x47, 0x46]);
    cpu.reg.pc = 0x101;
    cpu.reg.a = 0x10;
    let carry = cpu.reg.getflag(0x10);
    // SET 0,A
    assert_eq!(cpu.call_cb(), 2);
    assert_eq!(cpu.reg.a, 0x11);
    assert_eq!(cpu.reg.pc, 0x102);
    // RES 0,A
    assert_eq!(cpu.call_cb(), 2);
    assert_eq!(cpu.reg.a, 0x10);
    // BIT 0,A
    assert_eq!(cpu.call_cb(), 2);
    assert_eq!(cpu.reg.a, 0x10);
    assert!(cpu.reg.getflag(0x80));
    assert!(!cpu.reg.getflag(0x40));
    assert!(cpu.reg.getflag(0x20));
    assert_eq!(cpu.reg.getflag(0x10), carry);
    // BIT 0,(HL) takes three cycles
    cpu.reg.h = 0xC0;
    cpu.reg.l = 0x00;
    assert_eq!(cpu.call_cb(), 3);
    assert_eq!(cpu.reg.pc, 0x105);
}
