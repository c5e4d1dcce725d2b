use rboy::keypad::{winit_to_keypad, HostKey, Keypad, KeypadKey};

#[test]
fn keys_row0() {
    let mut keypad = Keypad::new();
    let keys0: [KeypadKey; 4] = [KeypadKey::A, KeypadKey::B, KeypadKey::Select, KeypadKey::Start];

    for i in 0..keys0.len() {
        keypad.keydown(keys0[i]);

        keypad.wb(0x00);
        assert_eq!(keypad.rb(), 0x00);

        keypad.wb(0x10);
        assert_eq!(keypad.rb(), 0x1F & !(1 << i));

        keypad.wb(0x20);
        assert_eq!(keypad.rb(), 0x2F);

        keypad.wb(0x30);
        assert_eq!(keypad.rb(), 0x3F);

        keypad.keyup(keys0[i]);
    }
}

#[test]
fn keys_row1() {
    let mut keypad = Keypad::new();
    let keys1: [KeypadKey; 4] = [KeypadKey::Right, KeypadKey::Left, KeypadKey::Up, KeypadKey::Down];

    for i in 0..keys1.len() {
        keypad.keydown(keys1[i]);

        keypad.wb(0x00);
        assert_eq!(keypad.rb(), 0x00);

        keypad.wb(0x10);
        assert_eq!(keypad.rb(), 0x1F);

        keypad.wb(0x20);
        assert_eq!(keypad.rb(), 0x2F & !(1 << i));

        keypad.wb(0x30);
        assert_eq!(keypad.rb(), 0x3F);

        keypad.keyup(keys1[i]);
    }
}

#[test]
fn keydown_raises_interrupt() {
    let mut keypad = Keypad::new();
    assert_eq!(keypad.interrupt, 0);
    keypad.keydown(KeypadKey::Start);
    assert_eq!(keypad.interrupt, 0x10);
    keypad.keyup(KeypadKey::Start);
    assert_eq!(keypad.interrupt, 0x10);
}

#[test]
fn keydown_keyup_restores_rows() {
    let mut keypad = Keypad::new();
    keypad.keydown(KeypadKey::Down);
    keypad.keyup(KeypadKey::Down);
    assert_eq!(keypad.row0, 0x0F);
    assert_eq!(keypad.row1, 0x0F);
    keypad.wb(0x30);
    assert_eq!(keypad.rb(), 0x3F);
}

#[test]
fn keydown_keyup_restores_the_value_read() {
    let mut keypad = Keypad::new();
    keypad.wb(0x20);
    let before = keypad.rb();
    assert_eq!(before, 0x2F);
    keypad.keydown(KeypadKey::Left);
    assert_eq!(keypad.rb(), 0x2D);
    keypad.keyup(KeypadKey::Left);
    assert_eq!(keypad.rb(), before);
    assert_eq!(keypad.interrupt, 0x10);
}

#[test]
fn host_keys_map_to_game_boy_keys() {
    assert_eq!(winit_to_keypad(HostKey::Character('z')), Some(KeypadKey::A));
    assert_eq!(winit_to_keypad(HostKey::Character('Z')), Some(KeypadKey::A));
    assert_eq!(winit_to_keypad(HostKey::Character('x')), Some(KeypadKey::B));
    assert_eq!(winit_to_keypad(HostKey::Character('X')), Some(KeypadKey::B));
    assert_eq!(winit_to_keypad(HostKey::Character('a')), None);
    assert_eq!(winit_to_keypad(HostKey::ArrowUp), Some(KeypadKey::Up));
    assert_eq!(winit_to_keypad(HostKey::ArrowDown), Some(KeypadKey::Down));
    assert_eq!(winit_to_keypad(HostKey::ArrowLeft), Some(KeypadKey::Left));
    assert_eq!(winit_to_keypad(HostKey::ArrowRight), Some(KeypadKey::Right));
    assert_eq!(winit_to_keypad(HostKey::Space), Some(KeypadKey::Select));
    assert_eq!(winit_to_keypad(HostKey::Enter), Some(KeypadKey::Start));
    assert_eq!(winit_to_keypad(HostKey::Other), None);
}
