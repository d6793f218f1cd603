//! Decoding of raw keyboard scan codes into logical keys.
//!
//! The decoder is a pure, stateless function over the scan code's low
//! seven bits and the two flag bits a raw keyboard event carries. A
//! first layer is a direct table over the unambiguous codes; a second
//! layer resolves the codes whose meaning depends on the "extended"
//! flag (right-hand modifiers, the keypad Enter, the arrow cluster).
//! Codes outside the table's bound decode to `None`, as do the
//! reserved entries inside it.

use vstd::prelude::*;

use crate::keys::Key;

verus! {

/// What a raw keyboard event decodes to, as a function of the scan
/// code's low seven bits and the two flag bits.
///
/// The table's bound is `0x5d`; every masked code above it is `None`.
/// The entry at `0x45` is deliberately `None`: the numeric-lock scan
/// code collides with the Pause key and cannot be told apart at this
/// layer.
pub open spec fn spec_decode(scan_code: u16, e0: bool, e1: bool) -> Option<Key> {
    let code = scan_code % 0x80;
    if code > 0x5d {
        None
    } else {
        match code {
            0x00 => None,
            0x01 => Some(Key::Escape),
            0x02 => Some(Key::_1),
            0x03 => Some(Key::_2),
            0x04 => Some(Key::_3),
            0x05 => Some(Key::_4),
            0x06 => Some(Key::_5),
            0x07 => Some(Key::_6),
            0x08 => Some(Key::_7),
            0x09 => Some(Key::_8),
            0x0a => Some(Key::_9),
            0x0b => Some(Key::_0),
            0x0c => Some(Key::Dash),
            0x0d => Some(Key::Equal),
            0x0e => Some(Key::Backspace),
            0x0f => Some(Key::Tab),
            0x10 => Some(Key::Q),
            0x11 => Some(Key::W),
            0x12 => Some(Key::E),
            0x13 => Some(Key::R),
            0x14 => Some(Key::T),
            0x15 => Some(Key::Y),
            0x16 => Some(Key::U),
            0x17 => Some(Key::I),
            0x18 => Some(Key::O),
            0x19 => Some(Key::P),
            0x1a => Some(Key::LeftSquareBracket),
            0x1b => Some(Key::RightSquareBracket),
            0x1c => if e0 {
                Some(Key::NumpadEnter)
            } else {
                Some(Key::Enter)
            },
            0x1d => if e0 {
                Some(Key::RightControl)
            } else if e1 {
                Some(Key::Pause)
            } else {
                Some(Key::LeftControl)
            },
            0x1e => Some(Key::A),
            0x1f => Some(Key::S),
            0x20 => Some(Key::D),
            0x21 => Some(Key::F),
            0x22 => Some(Key::G),
            0x23 => Some(Key::H),
            0x24 => Some(Key::J),
            0x25 => Some(Key::K),
            0x26 => Some(Key::L),
            0x27 => Some(Key::SemiColon),
            0x28 => Some(Key::Quote),
            0x29 => Some(Key::Tilde),
            0x2a => if e0 {
                None
            } else {
                Some(Key::LeftShift)
            },
            0x2b => Some(Key::BackSlash),
            0x2c => Some(Key::Z),
            0x2d => Some(Key::X),
            0x2e => Some(Key::C),
            0x2f => Some(Key::V),
            0x30 => Some(Key::B),
            0x31 => Some(Key::N),
            0x32 => Some(Key::M),
            0x33 => Some(Key::Comma),
            0x34 => Some(Key::Period),
            0x35 => if e0 {
                Some(Key::NumpadDivide)
            } else {
                Some(Key::ForwardSlash)
            },
            0x36 => Some(Key::RightShift),
            0x37 => if e0 {
                Some(Key::PrintScreen)
            } else {
                Some(Key::NumpadMultiply)
            },
            0x38 => if e0 {
                Some(Key::RightAlt)
            } else {
                Some(Key::LeftAlt)
            },
            0x39 => Some(Key::Space),
            0x3a => Some(Key::CapsLock),
            0x3b => Some(Key::F1),
            0x3c => Some(Key::F2),
            0x3d => Some(Key::F3),
            0x3e => Some(Key::F4),
            0x3f => Some(Key::F5),
            0x40 => Some(Key::F6),
            0x41 => Some(Key::F7),
            0x42 => Some(Key::F8),
            0x43 => Some(Key::F9),
            0x44 => Some(Key::F10),
            0x45 => None,
            0x46 => Some(Key::ScrollLock),
            0x47 => if e0 {
                Some(Key::Home)
            } else {
                Some(Key::Numpad7)
            },
            0x48 => if e0 {
                Some(Key::UpArrow)
            } else {
                Some(Key::Numpad8)
            },
            0x49 => if e0 {
                Some(Key::PageUp)
            } else {
                Some(Key::Numpad9)
            },
            0x4a => Some(Key::NumpadSubtract),
            0x4b => if e0 {
                Some(Key::LeftArrow)
            } else {
                Some(Key::Numpad4)
            },
            0x4c => Some(Key::Numpad5),
            0x4d => if e0 {
                Some(Key::RightArrow)
            } else {
                Some(Key::Numpad6)
            },
            0x4e => Some(Key::NumpadAdd),
            0x4f => if e0 {
                Some(Key::End)
            } else {
                Some(Key::Numpad1)
            },
            0x50 => if e0 {
                Some(Key::DownArrow)
            } else {
                Some(Key::Numpad2)
            },
            0x51 => if e0 {
                Some(Key::PageDown)
            } else {
                Some(Key::Numpad3)
            },
            0x52 => if e0 {
                Some(Key::Insert)
            } else {
                Some(Key::Numpad0)
            },
            0x53 => if e0 {
                Some(Key::Delete)
            } else {
                Some(Key::NumpadDecimal)
            },
            0x54 => None,
            0x55 => None,
            0x56 => None,
            0x57 => Some(Key::F11),
            0x58 => Some(Key::F12),
            0x59 => None,
            0x5a => None,
            0x5b => Some(Key::Windows),
            0x5c => None,
            0x5d => Some(Key::Menu),
            _ => None,
        }
    }
}

/// True of the masked codes whose meaning the extended flag decides.
pub open spec fn extended_sensitive(scan_code: u16) -> bool {
    let code = scan_code % 0x80;
    ||| code == 0x1c
    ||| code == 0x1d
    ||| code == 0x2a
    ||| code == 0x35
    ||| code == 0x37
    ||| code == 0x38
    ||| code == 0x47
    ||| code == 0x48
    ||| code == 0x49
    ||| code == 0x4b
    ||| code == 0x4d
    ||| code == 0x4f
    ||| code == 0x50
    ||| code == 0x51
    ||| code == 0x52
    ||| code == 0x53
}

/// On every flag-sensitive code, the two settings of the extended flag
/// decode to two different results, whatever the rest of the event
/// carries.
pub proof fn lemma_extended_flag_disambiguates(scan_code: u16, e1: bool)
    requires
        extended_sensitive(scan_code),
    ensures
        spec_decode(scan_code, true, e1) != spec_decode(scan_code, false, e1),
{
}

/// Decodes one raw keyboard event into a logical key.
///
/// Total over the whole scan-code domain: unmapped and reserved codes
/// yield `None` rather than an error, since vendor-specific keys are
/// expected and dropped silently.
pub fn decode_scan_code(scan_code: u16, e0: bool, e1: bool) -> (r: Option<Key>)
    ensures
        r == spec_decode(scan_code, e0, e1),
{
    let code = scan_code % 0x80;
    if code > 0x5d {
        return None;
    }
    match code {
        0x00 => None,
        0x01 => Some(Key::Escape),
        0x02 => Some(Key::_1),
        0x03 => Some(Key::_2),
        0x04 => Some(Key::_3),
        0x05 => Some(Key::_4),
        0x06 => Some(Key::_5),
        0x07 => Some(Key::_6),
        0x08 => Some(Key::_7),
        0x09 => Some(Key::_8),
        0x0a => Some(Key::_9),
        0x0b => Some(Key::_0),
        0x0c => Some(Key::Dash),
        0x0d => Some(Key::Equal),
        0x0e => Some(Key::Backspace),
        0x0f => Some(Key::Tab),
        0x10 => Some(Key::Q),
        0x11 => Some(Key::W),
        0x12 => Some(Key::E),
        0x13 => Some(Key::R),
        0x14 => Some(Key::T),
        0x15 => Some(Key::Y),
        0x16 => Some(Key::U),
        0x17 => Some(Key::I),
        0x18 => Some(Key::O),
        0x19 => Some(Key::P),
        0x1a => Some(Key::LeftSquareBracket),
        0x1b => Some(Key::RightSquareBracket),
        0x1c => if e0 {
            Some(Key::NumpadEnter)
        } else {
            Some(Key::Enter)
        },
        0x1d => if e0 {
            Some(Key::RightControl)
        } else if e1 {
            Some(Key::Pause)
        } else {
            Some(Key::LeftControl)
        },
        0x1e => Some(Key::A),
        0x1f => Some(Key::S),
        0x20 => Some(Key::D),
        0x21 => Some(Key::F),
        0x22 => Some(Key::G),
        0x23 => Some(Key::H),
        0x24 => Some(Key::J),
        0x25 => Some(Key::K),
        0x26 => Some(Key::L),
        0x27 => Some(Key::SemiColon),
        0x28 => Some(Key::Quote),
        0x29 => Some(Key::Tilde),
        0x2a => if e0 {
            None
        } else {
            Some(Key::LeftShift)
        },
        0x2b => Some(Key::BackSlash),
        0x2c => Some(Key::Z),
        0x2d => Some(Key::X),
        0x2e => Some(Key::C),
        0x2f => Some(Key::V),
        0x30 => Some(Key::B),
        0x31 => Some(Key::N),
        0x32 => Some(Key::M),
        0x33 => Some(Key::Comma),
        0x34 => Some(Key::Period),
        0x35 => if e0 {
            Some(Key::NumpadDivide)
        } else {
            Some(Key::ForwardSlash)
        },
        0x36 => Some(Key::RightShift),
        0x37 => if e0 {
            Some(Key::PrintScreen)
        } else {
            Some(Key::NumpadMultiply)
        },
        0x38 => if e0 {
            Some(Key::RightAlt)
        } else {
            Some(Key::LeftAlt)
        },
        0x39 => Some(Key::Space),
        0x3a => Some(Key::CapsLock),
        0x3b => Some(Key::F1),
        0x3c => Some(Key::F2),
        0x3d => Some(Key::F3),
        0x3e => Some(Key::F4),
        0x3f => Some(Key::F5),
        0x40 => Some(Key::F6),
        0x41 => Some(Key::F7),
        0x42 => Some(Key::F8),
        0x43 => Some(Key::F9),
        0x44 => Some(Key::F10),
        0x45 => None,
        0x46 => Some(Key::ScrollLock),
        0x47 => if e0 {
            Some(Key::Home)
        } else {
            Some(Key::Numpad7)
        },
        0x48 => if e0 {
            Some(Key::UpArrow)
        } else {
            Some(Key::Numpad8)
        },
        0x49 => if e0 {
            Some(Key::PageUp)
        } else {
            Some(Key::Numpad9)
        },
        0x4a => Some(Key::NumpadSubtract),
        0x4b => if e0 {
            Some(Key::LeftArrow)
        } else {
            Some(Key::Numpad4)
        },
        0x4c => Some(Key::Numpad5),
        0x4d => if e0 {
            Some(Key::RightArrow)
        } else {
            Some(Key::Numpad6)
        },
        0x4e => Some(Key::NumpadAdd),
        0x4f => if e0 {
            Some(Key::End)
        } else {
            Some(Key::Numpad1)
        },
        0x50 => if e0 {
            Some(Key::DownArrow)
        } else {
            Some(Key::Numpad2)
        },
        0x51 => if e0 {
            Some(Key::PageDown)
        } else {
            Some(Key::Numpad3)
        },
        0x52 => if e0 {
            Some(Key::Insert)
        } else {
            Some(Key::Numpad0)
        },
        0x53 => if e0 {
            Some(Key::Delete)
        } else {
            Some(Key::NumpadDecimal)
        },
        0x54 => None,
        0x55 => None,
        0x56 => None,
        0x57 => Some(Key::F11),
        0x58 => Some(Key::F12),
        0x59 => None,
        0x5a => None,
        0x5b => Some(Key::Windows),
        0x5c => None,
        0x5d => Some(Key::Menu),
        _ => None,
    }
}

} // verus!
