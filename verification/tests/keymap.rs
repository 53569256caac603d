use ps2_keyboard::keymap::{
    get, is_caps_lock, is_letter, is_num_lock, is_shift, KeyCode, CAPS_LOCK, KEY_MAP,
    KEY_MAP_LEN, LEFT_SHIFT, NUM_LOCK, RIGHT_SHIFT,
};

#[test]
fn the_table_has_ninety_four_rows() {
    assert_eq!(KEY_MAP_LEN, 94);
    assert_eq!(KEY_MAP.len(), 94);
}

#[test]
fn get_finds_the_letter_a() {
    assert_eq!(
        get(0x1E),
        Some(KeyCode { ascii1: b'a', ascii2: b'A', scode: 0x1E, kcode: 0x41 })
    );
}

#[test]
fn get_finds_digits_and_punctuation() {
    assert_eq!(
        get(0x02),
        Some(KeyCode { ascii1: b'1', ascii2: b'!', scode: 0x02, kcode: 0x31 })
    );
    assert_eq!(
        get(0x03),
        Some(KeyCode { ascii1: b'2', ascii2: b'@', scode: 0x03, kcode: 0x32 })
    );
    assert_eq!(
        get(0x0C),
        Some(KeyCode { ascii1: b'-', ascii2: b'_', scode: 0x0C, kcode: 0xBD })
    );
    assert_eq!(
        get(0x28),
        Some(KeyCode { ascii1: b'\'', ascii2: b'"', scode: 0x28, kcode: 0xDE })
    );
    assert_eq!(
        get(0x2B),
        Some(KeyCode { ascii1: b'\\', ascii2: b'|', scode: 0x2B, kcode: 0xDC })
    );
    assert_eq!(
        get(0x39),
        Some(KeyCode { ascii1: b' ', ascii2: 0, scode: 0x39, kcode: 0x20 })
    );
}

#[test]
fn get_finds_keys_that_print_nothing() {
    assert_eq!(get(0x01), Some(KeyCode { ascii1: 0, ascii2: 0, scode: 0x01, kcode: 0x1B }));
    assert_eq!(get(0x3A), Some(KeyCode { ascii1: 0, ascii2: 0, scode: 0x3A, kcode: 0x14 }));
    assert_eq!(get(0x5D), Some(KeyCode { ascii1: 0, ascii2: 0, scode: 0x5D, kcode: 0x5D }));
}

#[test]
fn code_zero_is_never_found() {
    assert_eq!(get(0), None);
}

#[test]
fn unassigned_positions_are_not_found() {
    assert_eq!(get(0x55), None);
    assert_eq!(get(0x56), None);
    assert_eq!(get(0x59), None);
    assert_eq!(get(0x5A), None);
}

#[test]
fn codes_past_the_table_are_not_found() {
    assert_eq!(get(0x5E), None);
    assert_eq!(get(0x60), None);
    assert_eq!(get(0x7F), None);
    assert_eq!(get(0x9E), None);
    assert_eq!(get(0xFF), None);
}

#[test]
fn every_code_gets_the_row_at_its_own_position() {
    for code in 0..=255u8 {
        let assigned = (1..=0x5D).contains(&code) && ![0x55, 0x56, 0x59, 0x5A].contains(&code);
        match get(code) {
            Some(k) => {
                assert!(assigned);
                let r = KEY_MAP[code as usize];
                assert_eq!(k, KeyCode { ascii1: r[0], ascii2: r[1], scode: r[2], kcode: r[3] });
                assert_eq!(k.scode, code);
            }
            None => assert!(!assigned),
        }
    }
}

#[test]
fn get_gives_the_first_row_with_the_code() {
    for code in 1..=255u8 {
        let first = KEY_MAP.iter().find(|r| r[2] == code);
        let expected = first.map(|r| KeyCode { ascii1: r[0], ascii2: r[1], scode: r[2], kcode: r[3] });
        assert_eq!(get(code), expected);
    }
}

#[test]
fn shift_keys() {
    assert_eq!(LEFT_SHIFT, 0x2A);
    assert_eq!(RIGHT_SHIFT, 0x36);
    for code in 0..=255u8 {
        assert_eq!(is_shift(code), code == 0x2A || code == 0x36);
    }
}

#[test]
fn lock_keys() {
    assert_eq!(CAPS_LOCK, 0x3A);
    assert_eq!(NUM_LOCK, 0x45);
    for code in 0..=255u8 {
        assert_eq!(is_caps_lock(code), code == 0x3A);
        assert_eq!(is_num_lock(code), code == 0x45);
    }
}

#[test]
fn letter_rows() {
    assert!(!is_letter(0x0F));
    assert!(is_letter(0x10));
    assert!(is_letter(0x19));
    assert!(!is_letter(0x1A));
    assert!(!is_letter(0x1D));
    assert!(is_letter(0x1E));
    assert!(is_letter(0x26));
    assert!(!is_letter(0x27));
    assert!(!is_letter(0x2B));
    assert!(is_letter(0x2C));
    assert!(is_letter(0x32));
    assert!(!is_letter(0x33));
    assert!(!is_letter(0x02));
    assert!(!is_letter(0x9E));
}

#[test]
fn letter_keys_print_letters() {
    let mut seen: Vec<u8> = Vec::new();
    for code in 0..=255u8 {
        if is_letter(code) {
            let k = get(code).unwrap();
            assert!(k.ascii1.is_ascii_lowercase());
            assert_eq!(k.ascii2, k.ascii1.to_ascii_uppercase());
            seen.push(k.ascii1);
        } else if let Some(k) = get(code) {
            assert!(!k.ascii1.is_ascii_alphabetic());
            assert!(!k.ascii2.is_ascii_alphabetic());
        }
    }
    seen.sort();
    assert_eq!(seen, (b'a'..=b'z').collect::<Vec<u8>>());
}
