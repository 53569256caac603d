use ps2_keyboard::driver::{getchar, init, put_scan_code, Keyboard};

fn feed(keyboard: &mut Keyboard, bytes: &[u8]) {
    for &b in bytes {
        put_scan_code(keyboard, b);
    }
}

fn drain(keyboard: &mut Keyboard) -> Vec<u8> {
    let mut out: Vec<u8> = Vec::new();
    while let Some(c) = getchar(keyboard) {
        out.push(c);
    }
    out
}

#[test]
fn nothing_to_read_at_start() {
    let mut kb = init();
    assert_eq!(getchar(&mut kb), None);
    assert_eq!(getchar(&mut kb), None);
}

#[test]
fn press_and_release_of_a_queue_one_character() {
    let mut kb = init();
    put_scan_code(&mut kb, 0x1E);
    put_scan_code(&mut kb, 0x9E);
    assert_eq!(getchar(&mut kb), Some(b'a'));
    assert_eq!(getchar(&mut kb), None);
}

#[test]
fn shift_held_gives_capitals_and_symbols() {
    let mut kb = init();
    feed(&mut kb, &[0x2A, 0x1E, 0x9E, 0x02, 0x82, 0x03, 0x83, 0xAA, 0x1E, 0x9E, 0x02, 0x82]);
    assert_eq!(drain(&mut kb), b"A!@a1".to_vec());
}

#[test]
fn caps_lock_gives_capitals_but_not_symbols() {
    let mut kb = init();
    feed(&mut kb, &[0x3A, 0xBA, 0x1E, 0x9E, 0x02, 0x82, 0x03, 0x83]);
    assert_eq!(drain(&mut kb), b"A12".to_vec());
}

#[test]
fn shift_under_caps_lock_gives_small_letters() {
    let mut kb = init();
    feed(&mut kb, &[0x3A, 0xBA, 0x36, 0x1E, 0x9E, 0x02, 0x82, 0x03, 0x83, 0xB6, 0x1E]);
    assert_eq!(drain(&mut kb), b"a!@A".to_vec());
}

#[test]
fn caps_lock_press_alone_changes_nothing() {
    let mut kb = init();
    feed(&mut kb, &[0x3A, 0x1E, 0x9E]);
    assert_eq!(drain(&mut kb), b"a".to_vec());
    feed(&mut kb, &[0xBA, 0x1E, 0x9E]);
    assert_eq!(drain(&mut kb), b"A".to_vec());
    feed(&mut kb, &[0x3A, 0xBA, 0x1E, 0x9E]);
    assert_eq!(drain(&mut kb), b"a".to_vec());
}

#[test]
fn num_lock_changes_no_character() {
    let mut kb = init();
    feed(&mut kb, &[0x45, 0xC5, 0x1E, 0x02, 0x47]);
    assert_eq!(drain(&mut kb), b"a1".to_vec());
}

#[test]
fn prefix_and_unmapped_code_queue_nothing() {
    let mut kb = init();
    feed(&mut kb, &[0xE0, 0x5E]);
    assert_eq!(getchar(&mut kb), None);
    feed(&mut kb, &[0xE0, 0xE0, 0x7F, 0x1E]);
    assert_eq!(drain(&mut kb), b"a".to_vec());
}

#[test]
fn keys_that_print_nothing_queue_nothing() {
    let mut kb = init();
    feed(&mut kb, &[0x01, 0x81, 0x0E, 0x1C, 0x3B, 0x48, 0x5D, 0x00, 0x55, 0x7F]);
    assert_eq!(getchar(&mut kb), None);
}

#[test]
fn a_word_comes_out_as_typed() {
    let mut kb = init();
    // H e l l o , space w o r l d !
    feed(
        &mut kb,
        &[
            0x2A, 0x23, 0xA3, 0xAA, 0x12, 0x92, 0x26, 0xA6, 0x26, 0xA6, 0x18, 0x98, 0x33, 0xB3,
            0x39, 0xB9, 0x11, 0x91, 0x18, 0x98, 0x13, 0x93, 0x26, 0xA6, 0x20, 0xA0, 0x2A, 0x02,
            0x82, 0xAA,
        ],
    );
    assert_eq!(drain(&mut kb), b"Hello, world!".to_vec());
}

#[test]
fn characters_past_the_capacity_are_dropped() {
    let mut kb = init();
    for _ in 0..100 {
        put_scan_code(&mut kb, 0x1E);
    }
    put_scan_code(&mut kb, 0x30);
    put_scan_code(&mut kb, 0x2E);
    let out = drain(&mut kb);
    assert_eq!(out.len(), 100);
    assert!(out.iter().all(|&c| c == b'a'));
    put_scan_code(&mut kb, 0x30);
    assert_eq!(drain(&mut kb), b"b".to_vec());
}

#[test]
fn a_full_queue_still_follows_the_modifiers() {
    let mut kb = init();
    for _ in 0..100 {
        put_scan_code(&mut kb, 0x1E);
    }
    feed(&mut kb, &[0x2A, 0x1E]);
    assert_eq!(getchar(&mut kb), Some(b'a'));
    put_scan_code(&mut kb, 0x1E);
    let out = drain(&mut kb);
    assert_eq!(out.len(), 100);
    assert_eq!(out[98], b'a');
    assert_eq!(out[99], b'A');
}

#[test]
fn reading_does_not_touch_the_modifiers() {
    let mut kb = init();
    feed(&mut kb, &[0x2A, 0x1E]);
    assert_eq!(getchar(&mut kb), Some(b'A'));
    assert_eq!(getchar(&mut kb), None);
    put_scan_code(&mut kb, 0x1E);
    assert_eq!(getchar(&mut kb), Some(b'A'));
}
