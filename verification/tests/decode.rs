use windowhost::decoder::decode_scan_code;
use windowhost::keys::Key;

#[test]
fn direct_table_entries() {
    assert_eq!(decode_scan_code(0x01, false, false), Some(Key::Escape));
    assert_eq!(decode_scan_code(0x02, false, false), Some(Key::_1));
    assert_eq!(decode_scan_code(0x0b, false, false), Some(Key::_0));
    assert_eq!(decode_scan_code(0x10, false, false), Some(Key::Q));
    assert_eq!(decode_scan_code(0x1e, false, false), Some(Key::A));
    assert_eq!(decode_scan_code(0x2c, false, false), Some(Key::Z));
    assert_eq!(decode_scan_code(0x39, false, false), Some(Key::Space));
    assert_eq!(decode_scan_code(0x3b, false, false), Some(Key::F1));
    assert_eq!(decode_scan_code(0x44, false, false), Some(Key::F10));
    assert_eq!(decode_scan_code(0x57, false, false), Some(Key::F11));
    assert_eq!(decode_scan_code(0x58, false, false), Some(Key::F12));
    assert_eq!(decode_scan_code(0x5b, false, false), Some(Key::Windows));
    assert_eq!(decode_scan_code(0x5d, false, false), Some(Key::Menu));
}

#[test]
fn reserved_entries_are_none() {
    // The numeric-lock code collides with Pause and stays unmapped.
    assert_eq!(decode_scan_code(0x45, false, false), None);
    assert_eq!(decode_scan_code(0x45, true, false), None);
    assert_eq!(decode_scan_code(0x00, false, false), None);
    assert_eq!(decode_scan_code(0x54, false, false), None);
    assert_eq!(decode_scan_code(0x59, false, false), None);
    assert_eq!(decode_scan_code(0x5c, false, false), None);
}

#[test]
fn codes_past_table_bound_are_none() {
    assert_eq!(decode_scan_code(0x5e, false, false), None);
    assert_eq!(decode_scan_code(0x60, true, true), None);
    assert_eq!(decode_scan_code(0x7f, false, false), None);
}

#[test]
fn only_low_seven_bits_matter() {
    assert_eq!(decode_scan_code(0x9e, false, false), Some(Key::A));
    assert_eq!(decode_scan_code(0x80, false, false), None);
    assert_eq!(decode_scan_code(0x11c, false, false), Some(Key::Enter));
}

#[test]
fn extended_flag_selects_enter_pair() {
    assert_eq!(decode_scan_code(0x1c, false, false), Some(Key::Enter));
    assert_eq!(decode_scan_code(0x1c, true, false), Some(Key::NumpadEnter));
}

#[test]
fn extended_flag_selects_control_and_pause() {
    assert_eq!(decode_scan_code(0x1d, false, false), Some(Key::LeftControl));
    assert_eq!(decode_scan_code(0x1d, false, true), Some(Key::Pause));
    assert_eq!(decode_scan_code(0x1d, true, false), Some(Key::RightControl));
    assert_eq!(decode_scan_code(0x1d, true, true), Some(Key::RightControl));
}

#[test]
fn extended_left_shift_is_dropped() {
    assert_eq!(decode_scan_code(0x2a, false, false), Some(Key::LeftShift));
    assert_eq!(decode_scan_code(0x2a, true, false), None);
}

#[test]
fn extended_flag_selects_slash_and_star() {
    assert_eq!(decode_scan_code(0x35, false, false), Some(Key::ForwardSlash));
    assert_eq!(decode_scan_code(0x35, true, false), Some(Key::NumpadDivide));
    assert_eq!(decode_scan_code(0x37, false, false), Some(Key::NumpadMultiply));
    assert_eq!(decode_scan_code(0x37, true, false), Some(Key::PrintScreen));
    assert_eq!(decode_scan_code(0x38, false, false), Some(Key::LeftAlt));
    assert_eq!(decode_scan_code(0x38, true, false), Some(Key::RightAlt));
}

#[test]
fn extended_flag_selects_navigation_cluster() {
    assert_eq!(decode_scan_code(0x47, false, false), Some(Key::Numpad7));
    assert_eq!(decode_scan_code(0x47, true, false), Some(Key::Home));
    assert_eq!(decode_scan_code(0x48, false, false), Some(Key::Numpad8));
    assert_eq!(decode_scan_code(0x48, true, false), Some(Key::UpArrow));
    assert_eq!(decode_scan_code(0x49, false, false), Some(Key::Numpad9));
    assert_eq!(decode_scan_code(0x49, true, false), Some(Key::PageUp));
    assert_eq!(decode_scan_code(0x4b, false, false), Some(Key::Numpad4));
    assert_eq!(decode_scan_code(0x4b, true, false), Some(Key::LeftArrow));
    assert_eq!(decode_scan_code(0x4d, false, false), Some(Key::Numpad6));
    assert_eq!(decode_scan_code(0x4d, true, false), Some(Key::RightArrow));
    assert_eq!(decode_scan_code(0x4f, false, false), Some(Key::Numpad1));
    assert_eq!(decode_scan_code(0x4f, true, false), Some(Key::End));
    assert_eq!(decode_scan_code(0x50, false, false), Some(Key::Numpad2));
    assert_eq!(decode_scan_code(0x50, true, false), Some(Key::DownArrow));
    assert_eq!(decode_scan_code(0x51, false, false), Some(Key::Numpad3));
    assert_eq!(decode_scan_code(0x51, true, false), Some(Key::PageDown));
    assert_eq!(decode_scan_code(0x52, false, false), Some(Key::Numpad0));
    assert_eq!(decode_scan_code(0x52, true, false), Some(Key::Insert));
    assert_eq!(decode_scan_code(0x53, false, false), Some(Key::NumpadDecimal));
    assert_eq!(decode_scan_code(0x53, true, false), Some(Key::Delete));
}

#[test]
fn decode_is_total_over_all_scan_codes() {
    for code in 0..=u16::MAX {
        for e0 in [false, true] {
            for e1 in [false, true] {
                let _ = decode_scan_code(code, e0, e1);
            }
        }
    }
}

#[test]
fn non_extended_codes_ignore_flags() {
    assert_eq!(decode_scan_code(0x1e, true, true), Some(Key::A));
    assert_eq!(decode_scan_code(0x4a, true, false), Some(Key::NumpadSubtract));
    assert_eq!(decode_scan_code(0x4c, true, false), Some(Key::Numpad5));
    assert_eq!(decode_scan_code(0x4e, true, false), Some(Key::NumpadAdd));
}
