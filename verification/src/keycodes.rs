//! The native key-code table: the fixed reference mapping between this
//! platform's virtual-key codes and the portable [`Key`] enumeration.

use vstd::prelude::*;

use crate::event::Key;

verus! {

/// The reference table, read from native code to portable key. Total: a
/// code outside the table maps to `Key::Unknown` carrying that exact code.
pub open spec fn spec_key_from_code(code: u32) -> Key {
    if code == 164 {
        Key::Alt
    } else if code == 165 {
        Key::AltGr
    } else if code == 8 {
        Key::Backspace
    } else if code == 20 {
        Key::CapsLock
    } else if code == 162 {
        Key::ControlLeft
    } else if code == 163 {
        Key::ControlRight
    } else if code == 46 {
        Key::Delete
    } else if code == 40 {
        Key::DownArrow
    } else if code == 35 {
        Key::End
    } else if code == 27 {
        Key::Escape
    } else if code == 112 {
        Key::F1
    } else if code == 113 {
        Key::F2
    } else if code == 114 {
        Key::F3
    } else if code == 115 {
        Key::F4
    } else if code == 116 {
        Key::F5
    } else if code == 117 {
        Key::F6
    } else if code == 118 {
        Key::F7
    } else if code == 119 {
        Key::F8
    } else if code == 120 {
        Key::F9
    } else if code == 121 {
        Key::F10
    } else if code == 122 {
        Key::F11
    } else if code == 123 {
        Key::F12
    } else if code == 36 {
        Key::Home
    } else if code == 37 {
        Key::LeftArrow
    } else if code == 91 {
        Key::MetaLeft
    } else if code == 92 {
        Key::MetaRight
    } else if code == 34 {
        Key::PageDown
    } else if code == 33 {
        Key::PageUp
    } else if code == 13 {
        Key::Return
    } else if code == 39 {
        Key::RightArrow
    } else if code == 160 {
        Key::ShiftLeft
    } else if code == 161 {
        Key::ShiftRight
    } else if code == 32 {
        Key::Space
    } else if code == 9 {
        Key::Tab
    } else if code == 38 {
        Key::UpArrow
    } else if code == 44 {
        Key::PrintScreen
    } else if code == 145 {
        Key::ScrollLock
    } else if code == 19 {
        Key::Pause
    } else if code == 144 {
        Key::NumLock
    } else if code == 192 {
        Key::BackQuote
    } else if code == 48 {
        Key::Num0
    } else if code == 49 {
        Key::Num1
    } else if code == 50 {
        Key::Num2
    } else if code == 51 {
        Key::Num3
    } else if code == 52 {
        Key::Num4
    } else if code == 53 {
        Key::Num5
    } else if code == 54 {
        Key::Num6
    } else if code == 55 {
        Key::Num7
    } else if code == 56 {
        Key::Num8
    } else if code == 57 {
        Key::Num9
    } else if code == 189 {
        Key::Minus
    } else if code == 187 {
        Key::Equal
    } else if code == 81 {
        Key::KeyQ
    } else if code == 87 {
        Key::KeyW
    } else if code == 69 {
        Key::KeyE
    } else if code == 82 {
        Key::KeyR
    } else if code == 84 {
        Key::KeyT
    } else if code == 89 {
        Key::KeyY
    } else if code == 85 {
        Key::KeyU
    } else if code == 73 {
        Key::KeyI
    } else if code == 79 {
        Key::KeyO
    } else if code == 80 {
        Key::KeyP
    } else if code == 219 {
        Key::LeftBracket
    } else if code == 221 {
        Key::RightBracket
    } else if code == 65 {
        Key::KeyA
    } else if code == 83 {
        Key::KeyS
    } else if code == 68 {
        Key::KeyD
    } else if code == 70 {
        Key::KeyF
    } else if code == 71 {
        Key::KeyG
    } else if code == 72 {
        Key::KeyH
    } else if code == 74 {
        Key::KeyJ
    } else if code == 75 {
        Key::KeyK
    } else if code == 76 {
        Key::KeyL
    } else if code == 186 {
        Key::SemiColon
    } else if code == 222 {
        Key::Quote
    } else if code == 220 {
        Key::BackSlash
    } else if code == 226 {
        Key::IntlBackslash
    } else if code == 90 {
        Key::KeyZ
    } else if code == 88 {
        Key::KeyX
    } else if code == 67 {
        Key::KeyC
    } else if code == 86 {
        Key::KeyV
    } else if code == 66 {
        Key::KeyB
    } else if code == 78 {
        Key::KeyN
    } else if code == 77 {
        Key::KeyM
    } else if code == 188 {
        Key::Comma
    } else if code == 190 {
        Key::Dot
    } else if code == 191 {
        Key::Slash
    } else if code == 45 {
        Key::Insert
    } else if code == 109 {
        Key::KpMinus
    } else if code == 107 {
        Key::KpPlus
    } else if code == 106 {
        Key::KpMultiply
    } else if code == 111 {
        Key::KpDivide
    } else if code == 96 {
        Key::Kp0
    } else if code == 97 {
        Key::Kp1
    } else if code == 98 {
        Key::Kp2
    } else if code == 99 {
        Key::Kp3
    } else if code == 100 {
        Key::Kp4
    } else if code == 101 {
        Key::Kp5
    } else if code == 102 {
        Key::Kp6
    } else if code == 103 {
        Key::Kp7
    } else if code == 104 {
        Key::Kp8
    } else if code == 105 {
        Key::Kp9
    } else if code == 110 {
        Key::KpDelete
    } else {
        Key::Unknown(code)
    }
}

/// The reference table, read from portable key to native code. Partial:
/// `Key::Unknown` has no entry of its own.
pub open spec fn spec_code_from_key(key: Key) -> Option<u32> {
    match key {
        Key::Alt => Some(164u32),
        Key::AltGr => Some(165u32),
        Key::Backspace => Some(8u32),
        Key::CapsLock => Some(20u32),
        Key::ControlLeft => Some(162u32),
        Key::ControlRight => Some(163u32),
        Key::Delete => Some(46u32),
        Key::DownArrow => Some(40u32),
        Key::End => Some(35u32),
        Key::Escape => Some(27u32),
        Key::F1 => Some(112u32),
        Key::F2 => Some(113u32),
        Key::F3 => Some(114u32),
        Key::F4 => Some(115u32),
        Key::F5 => Some(116u32),
        Key::F6 => Some(117u32),
        Key::F7 => Some(118u32),
        Key::F8 => Some(119u32),
        Key::F9 => Some(120u32),
        Key::F10 => Some(121u32),
        Key::F11 => Some(122u32),
        Key::F12 => Some(123u32),
        Key::Home => Some(36u32),
        Key::LeftArrow => Some(37u32),
        Key::MetaLeft => Some(91u32),
        Key::MetaRight => Some(92u32),
        Key::PageDown => Some(34u32),
        Key::PageUp => Some(33u32),
        Key::Return => Some(13u32),
        Key::RightArrow => Some(39u32),
        Key::ShiftLeft => Some(160u32),
        Key::ShiftRight => Some(161u32),
        Key::Space => Some(32u32),
        Key::Tab => Some(9u32),
        Key::UpArrow => Some(38u32),
        Key::PrintScreen => Some(44u32),
        Key::ScrollLock => Some(145u32),
        Key::Pause => Some(19u32),
        Key::NumLock => Some(144u32),
        Key::BackQuote => Some(192u32),
        Key::Num0 => Some(48u32),
        Key::Num1 => Some(49u32),
        Key::Num2 => Some(50u32),
        Key::Num3 => Some(51u32),
        Key::Num4 => Some(52u32),
        Key::Num5 => Some(53u32),
        Key::Num6 => Some(54u32),
        Key::Num7 => Some(55u32),
        Key::Num8 => Some(56u32),
        Key::Num9 => Some(57u32),
        Key::Minus => Some(189u32),
        Key::Equal => Some(187u32),
        Key::KeyQ => Some(81u32),
        Key::KeyW => Some(87u32),
        Key::KeyE => Some(69u32),
        Key::KeyR => Some(82u32),
        Key::KeyT => Some(84u32),
        Key::KeyY => Some(89u32),
        Key::KeyU => Some(85u32),
        Key::KeyI => Some(73u32),
        Key::KeyO => Some(79u32),
        Key::KeyP => Some(80u32),
        Key::LeftBracket => Some(219u32),
        Key::RightBracket => Some(221u32),
        Key::KeyA => Some(65u32),
        Key::KeyS => Some(83u32),
        Key::KeyD => Some(68u32),
        Key::KeyF => Some(70u32),
        Key::KeyG => Some(71u32),
        Key::KeyH => Some(72u32),
        Key::KeyJ => Some(74u32),
        Key::KeyK => Some(75u32),
        Key::KeyL => Some(76u32),
        Key::SemiColon => Some(186u32),
        Key::Quote => Some(222u32),
        Key::BackSlash => Some(220u32),
        Key::IntlBackslash => Some(226u32),
        Key::KeyZ => Some(90u32),
        Key::KeyX => Some(88u32),
        Key::KeyC => Some(67u32),
        Key::KeyV => Some(86u32),
        Key::KeyB => Some(66u32),
        Key::KeyN => Some(78u32),
        Key::KeyM => Some(77u32),
        Key::Comma => Some(188u32),
        Key::Dot => Some(190u32),
        Key::Slash => Some(191u32),
        Key::Insert => Some(45u32),
        Key::KpMinus => Some(109u32),
        Key::KpPlus => Some(107u32),
        Key::KpMultiply => Some(106u32),
        Key::KpDivide => Some(111u32),
        Key::Kp0 => Some(96u32),
        Key::Kp1 => Some(97u32),
        Key::Kp2 => Some(98u32),
        Key::Kp3 => Some(99u32),
        Key::Kp4 => Some(100u32),
        Key::Kp5 => Some(101u32),
        Key::Kp6 => Some(102u32),
        Key::Kp7 => Some(103u32),
        Key::Kp8 => Some(104u32),
        Key::Kp9 => Some(105u32),
        Key::KpDelete => Some(110u32),
        Key::Unknown(_) => None,
    }
}

/// Translates a native virtual-key code into the portable key it denotes,
/// falling back to `Key::Unknown` with the untranslated code.
pub fn key_from_code(code: u32) -> (key: Key)
    ensures
        key == spec_key_from_code(code),
{
    match code {
        164 => Key::Alt,
        165 => Key::AltGr,
        8 => Key::Backspace,
        20 => Key::CapsLock,
        162 => Key::ControlLeft,
        163 => Key::ControlRight,
        46 => Key::Delete,
        40 => Key::DownArrow,
        35 => Key::End,
        27 => Key::Escape,
        112 => Key::F1,
        113 => Key::F2,
        114 => Key::F3,
        115 => Key::F4,
        116 => Key::F5,
        117 => Key::F6,
        118 => Key::F7,
        119 => Key::F8,
        120 => Key::F9,
        121 => Key::F10,
        122 => Key::F11,
        123 => Key::F12,
        36 => Key::Home,
        37 => Key::LeftArrow,
        91 => Key::MetaLeft,
        92 => Key::MetaRight,
        34 => Key::PageDown,
        33 => Key::PageUp,
        13 => Key::Return,
        39 => Key::RightArrow,
        160 => Key::ShiftLeft,
        161 => Key::ShiftRight,
        32 => Key::Space,
        9 => Key::Tab,
        38 => Key::UpArrow,
        44 => Key::PrintScreen,
        145 => Key::ScrollLock,
        19 => Key::Pause,
        144 => Key::NumLock,
        192 => Key::BackQuote,
        48 => Key::Num0,
        49 => Key::Num1,
        50 => Key::Num2,
        51 => Key::Num3,
        52 => Key::Num4,
        53 => Key::Num5,
        54 => Key::Num6,
        55 => Key::Num7,
        56 => Key::Num8,
        57 => Key::Num9,
        189 => Key::Minus,
        187 => Key::Equal,
        81 => Key::KeyQ,
        87 => Key::KeyW,
        69 => Key::KeyE,
        82 => Key::KeyR,
        84 => Key::KeyT,
        89 => Key::KeyY,
        85 => Key::KeyU,
        73 => Key::KeyI,
        79 => Key::KeyO,
        80 => Key::KeyP,
        219 => Key::LeftBracket,
        221 => Key::RightBracket,
        65 => Key::KeyA,
        83 => Key::KeyS,
        68 => Key::KeyD,
        70 => Key::KeyF,
        71 => Key::KeyG,
        72 => Key::KeyH,
        74 => Key::KeyJ,
        75 => Key::KeyK,
        76 => Key::KeyL,
        186 => Key::SemiColon,
        222 => Key::Quote,
        220 => Key::BackSlash,
        226 => Key::IntlBackslash,
        90 => Key::KeyZ,
        88 => Key::KeyX,
        67 => Key::KeyC,
        86 => Key::KeyV,
        66 => Key::KeyB,
        78 => Key::KeyN,
        77 => Key::KeyM,
        188 => Key::Comma,
        190 => Key::Dot,
        191 => Key::Slash,
        45 => Key::Insert,
        109 => Key::KpMinus,
        107 => Key::KpPlus,
        106 => Key::KpMultiply,
        111 => Key::KpDivide,
        96 => Key::Kp0,
        97 => Key::Kp1,
        98 => Key::Kp2,
        99 => Key::Kp3,
        100 => Key::Kp4,
        101 => Key::Kp5,
        102 => Key::Kp6,
        103 => Key::Kp7,
        104 => Key::Kp8,
        105 => Key::Kp9,
        110 => Key::KpDelete,
        _ => Key::Unknown(code),
    }
}

/// Returns the native virtual-key code that denotes a portable key, or
/// `None` for a key with no entry in the table.
pub fn code_from_key(key: Key) -> (code: Option<u32>)
    ensures
        code == spec_code_from_key(key),
{
    match key {
        Key::Alt => Some(164),
        Key::AltGr => Some(165),
        Key::Backspace => Some(8),
        Key::CapsLock => Some(20),
        Key::ControlLeft => Some(162),
        Key::ControlRight => Some(163),
        Key::Delete => Some(46),
        Key::DownArrow => Some(40),
        Key::End => Some(35),
        Key::Escape => Some(27),
        Key::F1 => Some(112),
        Key::F2 => Some(113),
        Key::F3 => Some(114),
        Key::F4 => Some(115),
        Key::F5 => Some(116),
        Key::F6 => Some(117),
        Key::F7 => Some(118),
        Key::F8 => Some(119),
        Key::F9 => Some(120),
        Key::F10 => Some(121),
        Key::F11 => Some(122),
        Key::F12 => Some(123),
        Key::Home => Some(36),
        Key::LeftArrow => Some(37),
        Key::MetaLeft => Some(91),
        Key::MetaRight => Some(92),
        Key::PageDown => Some(34),
        Key::PageUp => Some(33),
        Key::Return => Some(13),
        Key::RightArrow => Some(39),
        Key::ShiftLeft => Some(160),
        Key::ShiftRight => Some(161),
        Key::Space => Some(32),
        Key::Tab => Some(9),
        Key::UpArrow => Some(38),
        Key::PrintScreen => Some(44),
        Key::ScrollLock => Some(145),
        Key::Pause => Some(19),
        Key::NumLock => Some(144),
        Key::BackQuote => Some(192),
        Key::Num0 => Some(48),
        Key::Num1 => Some(49),
        Key::Num2 => Some(50),
        Key::Num3 => Some(51),
        Key::Num4 => Some(52),
        Key::Num5 => Some(53),
        Key::Num6 => Some(54),
        Key::Num7 => Some(55),
        Key::Num8 => Some(56),
        Key::Num9 => Some(57),
        Key::Minus => Some(189),
        Key::Equal => Some(187),
        Key::KeyQ => Some(81),
        Key::KeyW => Some(87),
        Key::KeyE => Some(69),
        Key::KeyR => Some(82),
        Key::KeyT => Some(84),
        Key::KeyY => Some(89),
        Key::KeyU => Some(85),
        Key::KeyI => Some(73),
        Key::KeyO => Some(79),
        Key::KeyP => Some(80),
        Key::LeftBracket => Some(219),
        Key::RightBracket => Some(221),
        Key::KeyA => Some(65),
        Key::KeyS => Some(83),
        Key::KeyD => Some(68),
        Key::KeyF => Some(70),
        Key::KeyG => Some(71),
        Key::KeyH => Some(72),
        Key::KeyJ => Some(74),
        Key::KeyK => Some(75),
        Key::KeyL => Some(76),
        Key::SemiColon => Some(186),
        Key::Quote => Some(222),
        Key::BackSlash => Some(220),
        Key::IntlBackslash => Some(226),
        Key::KeyZ => Some(90),
        Key::KeyX => Some(88),
        Key::KeyC => Some(67),
        Key::KeyV => Some(86),
        Key::KeyB => Some(66),
        Key::KeyN => Some(78),
        Key::KeyM => Some(77),
        Key::Comma => Some(188),
        Key::Dot => Some(190),
        Key::Slash => Some(191),
        Key::Insert => Some(45),
        Key::KpMinus => Some(109),
        Key::KpPlus => Some(107),
        Key::KpMultiply => Some(106),
        Key::KpDivide => Some(111),
        Key::Kp0 => Some(96),
        Key::Kp1 => Some(97),
        Key::Kp2 => Some(98),
        Key::Kp3 => Some(99),
        Key::Kp4 => Some(100),
        Key::Kp5 => Some(101),
        Key::Kp6 => Some(102),
        Key::Kp7 => Some(103),
        Key::Kp8 => Some(104),
        Key::Kp9 => Some(105),
        Key::KpDelete => Some(110),
        Key::Unknown(_) => None,
    }
}

/// Translation never mismatches: whenever the table has no entry for a
/// native code, the fallback carries that exact code.
pub proof fn lemma_unknown_carries_exact_code(code: u32)
    ensures
        spec_key_from_code(code) is Unknown ==> spec_key_from_code(code)
            == Key::Unknown(code),
{
}

/// Every supported native code round-trips through the table: the portable
/// key it maps to maps back to the same code.
pub proof fn lemma_supported_code_round_trip(code: u32)
    requires
        !(spec_key_from_code(code) is Unknown),
    ensures
        spec_code_from_key(spec_key_from_code(code)) == Some(code),
{
}

/// Every key with a table entry round-trips the other way: its native code
/// translates back to that same key.
pub proof fn lemma_supported_key_round_trip(key: Key)
    requires
        spec_code_from_key(key) is Some,
    ensures
        spec_key_from_code(spec_code_from_key(key)->Some_0) == key,
{
}

} // verus!
