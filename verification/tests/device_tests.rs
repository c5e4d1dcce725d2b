use rboy::gpu::{PrioType, GPU};
use rboy::sound::{Sound, VolumeEnvelope};
use rboy::timer::Timer;

#[test]
fn vram_and_oam_read_back() {
    let mut gpu = GPU::new();
    gpu.wb(0x8000, 0x12);
    gpu.wb(0x9FFF, 0x34);
    gpu.wb(0xFE00, 0x56);
    assert_eq!(gpu.rb(0x8000), 0x12);
    assert_eq!(gpu.rb(0x9FFF), 0x34);
    assert_eq!(gpu.rb(0xFE00), 0x56);
    assert_eq!(gpu.rbvram0(0x8000), 0x12);
}

#[test]
fn lcd_control_reads_back() {
    let mut gpu = GPU::new();
    gpu.wb(0xFF40, 0xD3);
    assert_eq!(gpu.rb(0xFF40), 0xD3);
    gpu.wb(0xFF40, 0x00);
    assert_eq!(gpu.rb(0xFF40), 0x00);
}

#[test]
fn monochrome_palette() {
    assert_eq!(GPU::get_monochrome_pal_val(0xE4, 0), 255);
    assert_eq!(GPU::get_monochrome_pal_val(0xE4, 1), 192);
    assert_eq!(GPU::get_monochrome_pal_val(0xE4, 2), 96);
    assert_eq!(GPU::get_monochrome_pal_val(0xE4, 3), 0);
    let mut gpu = GPU::new();
    gpu.wb(0xFF47, 0x1B);
    assert_eq!(gpu.palb, vec![0, 96, 192, 255]);
}

#[test]
fn colour_palette_reads_back() {
    let mut gpu = GPU::new();
    gpu.wb(0xFF68, 0x80);
    gpu.wb(0xFF69, 0x1F);
    gpu.wb(0xFF69, 0x7C);
    gpu.wb(0xFF68, 0x00);
    assert_eq!(gpu.rb(0xFF69), 0x1F);
    gpu.wb(0xFF68, 0x01);
    assert_eq!(gpu.rb(0xFF69), 0x7C);
}

#[test]
fn a_frame_raises_vblank() {
    let mut gpu = GPU::new();
    gpu.wb(0xFF40, 0x80);
    for _ in 0..143 {
        gpu.cycle(114);
    }
    assert_eq!(gpu.line, 143);
    assert_eq!(gpu.interrupt & 0x01, 0);
    gpu.cycle(114);
    assert_eq!(gpu.line, 144);
    assert_eq!(gpu.mode, 1);
    assert_eq!(gpu.interrupt & 0x01, 0x01);
    assert!(gpu.updated);
    for _ in 0..10 {
        gpu.cycle(114);
    }
    assert_eq!(gpu.line, 0);
}

#[test]
fn modes_of_a_line() {
    let mut gpu = GPU::new();
    gpu.wb(0xFF40, 0x80);
    gpu.cycle(10);
    assert_eq!(gpu.mode, 2);
    gpu.cycle(20);
    assert_eq!(gpu.mode, 3);
    assert!(!gpu.may_hdma());
    gpu.cycle(40);
    assert_eq!(gpu.mode, 0);
    assert!(gpu.may_hdma());
    gpu.cycle(1);
    assert!(!gpu.may_hdma());
}

#[test]
fn lcd_off_stands_still() {
    let mut gpu = GPU::new();
    gpu.cycle(1000);
    assert_eq!(gpu.line, 0);
    assert_eq!(gpu.modeclock, 0);
}

#[test]
fn coincidence_interrupt() {
    let mut gpu = GPU::new();
    gpu.wb(0xFF40, 0x80);
    gpu.wb(0xFF41, 0x40);
    gpu.wb(0xFF45, 2);
    gpu.cycle(114);
    assert_eq!(gpu.interrupt & 0x02, 0);
    gpu.cycle(114);
    assert_eq!(gpu.interrupt & 0x02, 0x02);
}

#[test]
fn background_line_is_drawn() {
    let mut gpu = GPU::new();
    gpu.wb(0xFF40, 0x91);
    gpu.wb(0xFF47, 0xFC);
    // tile 0, row 0: every pixel colour 1; the map at 0x9800 is all tile 0
    gpu.wb(0x8000, 0xFF);
    gpu.renderscan();
    for i in 0..480 {
        assert_eq!(gpu.data[i], 0);
    }
    assert_eq!(gpu.data[480], 0);
    assert!(gpu.bgprio[0] == PrioType::Normal);
    gpu.line = 1;
    gpu.renderscan();
    for i in 480..960 {
        assert_eq!(gpu.data[i], 255);
    }
    assert!(gpu.bgprio[0] == PrioType::Color0);
}

#[test]
fn sprite_covers_the_background() {
    let mut gpu = GPU::new();
    // background off, sprites on
    gpu.wb(0xFF40, 0x82);
    gpu.wb(0xFF48, 0xE4);
    // tile 1 row 0: colour 3 for the leftmost pixel only
    gpu.wb(0x8010, 0x80);
    gpu.wb(0x8011, 0x80);
    // sprite 0 at screen (4, 0), tile 1
    gpu.wb(0xFE00, 16);
    gpu.wb(0xFE01, 8 + 4);
    gpu.wb(0xFE02, 1);
    gpu.wb(0xFE03, 0);
    gpu.renderscan();
    assert_eq!(gpu.data[4 * 3], 0);
    assert_eq!(gpu.data[3 * 3], 255);
    assert_eq!(gpu.data[5 * 3], 255);
}

#[test]
fn timer_counts_and_overflows() {
    let mut t = Timer::new();
    t.wb(0xFF06, 0xF0);
    t.wb(0xFF05, 0xFE);
    t.wb(0xFF07, 0x05);
    assert_eq!(t.rb(0xFF07), 0xFD);
    t.do_cycle(16);
    assert_eq!(t.rb(0xFF05), 0xFF);
    assert_eq!(t.interrupt, 0);
    t.do_cycle(16);
    assert_eq!(t.rb(0xFF05), 0xF0);
    assert_eq!(t.interrupt, 0x04);
}

#[test]
fn divider_counts_every_256_ticks() {
    let mut t = Timer::new();
    t.do_cycle(255);
    assert_eq!(t.rb(0xFF04), 0);
    t.do_cycle(1);
    assert_eq!(t.rb(0xFF04), 1);
    t.do_cycle(512);
    assert_eq!(t.rb(0xFF04), 3);
    t.wb(0xFF04, 0x77);
    assert_eq!(t.rb(0xFF04), 0);
}

#[test]
fn sound_registers() {
    let mut s = Sound::new();
    s.wb(0xFF12, 0xF3);
    assert_eq!(s.rb(0xFF12), 0);
    s.wb(0xFF26, 0x80);
    s.wb(0xFF12, 0xF3);
    assert_eq!(s.rb(0xFF12), 0xF3);
    assert!(!s.do_cycle(0x8000));
    assert!(s.do_cycle(0x8000));
}

#[test]
fn volume_envelope_steps() {
    let mut e = VolumeEnvelope::new();
    e.wb(0xFF12, 0x21);
    assert_eq!(e.volume, 2);
    e.step();
    assert_eq!(e.volume, 2);
    e.wb(0xFF14, 0x80);
    e.step();
    assert_eq!(e.volume, 1);
    e.step();
    assert_eq!(e.volume, 0);
    e.step();
    assert_eq!(e.volume, 0);
}

#[test]
fn timer_ticks_may_be_split() {
    let mut a = Timer::new();
    a.wb(0xFF06, 0x10);
    a.wb(0xFF05, 0xF0);
    a.wb(0xFF07, 0x05);
    let mut b = Timer::new();
    b.wb(0xFF06, 0x10);
    b.wb(0xFF05, 0xF0);
    b.wb(0xFF07, 0x05);
    a.do_cycle(300);
    a.do_cycle(517);
    b.do_cycle(817);
    assert_eq!(a.rb(0xFF04), b.rb(0xFF04));
    assert_eq!(a.rb(0xFF05), b.rb(0xFF05));
    assert_eq!(a.internaldiv, b.internaldiv);
    assert_eq!(a.internalcnt, b.internalcnt);
    assert_eq!(a.interrupt, b.interrupt);
    assert_eq!(b.interrupt, 0x04);
}

#[test]
fn sound_off_ignores_any_tick_count() {
    let mut s = Sound::new();
    assert!(!s.do_cycle(u32::MAX));
    assert_eq!(s.time, 0);
}

#[test]
fn line_timing_holds_over_a_frame() {
    let mut gpu = GPU::new();
    gpu.wb(0xFF40, 0x80);
    for step in [7u32, 13, 1, 50, 114, 3, 99, 60, 114, 20] .iter().cycle().take(2000) {
        let line = gpu.line;
        gpu.cycle(*step);
        assert!(gpu.line < 154);
        assert!(gpu.modeclock < 114);
        assert!(gpu.line == line || gpu.line == (line + 1) % 154);
        if gpu.line >= 144 {
            assert_eq!(gpu.mode, 1);
        } else {
            let expected = if gpu.modeclock <= 20 { 2 } else if gpu.modeclock <= 63 { 3 } else { 0 };
            assert_eq!(gpu.mode, expected);
        }
    }
}
