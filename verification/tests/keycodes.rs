use rdev::keycodes::code_from_key;
use rdev::keycodes::key_from_code;
use rdev::Key;

#[test]
fn supported_codes_translate() {
    assert_eq!(key_from_code(65), Key::KeyA);
    assert_eq!(key_from_code(164), Key::Alt);
    assert_eq!(key_from_code(165), Key::AltGr);
    assert_eq!(key_from_code(13), Key::Return);
    assert_eq!(key_from_code(27), Key::Escape);
    assert_eq!(key_from_code(32), Key::Space);
    assert_eq!(key_from_code(112), Key::F1);
    assert_eq!(key_from_code(123), Key::F12);
    assert_eq!(key_from_code(48), Key::Num0);
    assert_eq!(key_from_code(57), Key::Num9);
    assert_eq!(key_from_code(96), Key::Kp0);
    assert_eq!(key_from_code(105), Key::Kp9);
    assert_eq!(key_from_code(219), Key::LeftBracket);
    assert_eq!(key_from_code(226), Key::IntlBackslash);
}

#[test]
fn unsupported_codes_carry_exact_code() {
    assert_eq!(key_from_code(7), Key::Unknown(7));
    assert_eq!(key_from_code(255), Key::Unknown(255));
    assert_eq!(key_from_code(300), Key::Unknown(300));
    assert_eq!(key_from_code(u32::MAX), Key::Unknown(u32::MAX));
}

#[test]
fn code_from_key_matches_table() {
    assert_eq!(code_from_key(Key::KeyA), Some(65));
    assert_eq!(code_from_key(Key::Alt), Some(164));
    assert_eq!(code_from_key(Key::KpDelete), Some(110));
    assert_eq!(code_from_key(Key::Unknown(42)), None);
}

#[test]
fn every_supported_code_round_trips() {
    let mut supported: u32 = 0;
    for code in 0u32..1024 {
        let key = key_from_code(code);
        match key {
            Key::Unknown(c) => assert_eq!(c, code),
            _ => {
                supported += 1;
                assert_eq!(code_from_key(key), Some(code));
            }
        }
    }
    assert_eq!(supported, 103);
}
