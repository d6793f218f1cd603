//! Logical identifiers for physical keys and mouse buttons.

use vstd::prelude::*;

verus! {

/// A logical key, the result of decoding a hardware scan code.
///
/// The names follow the physical layout of a standard keyboard: the
/// main block, the function row, the navigation cluster and the
/// numeric keypad each contribute their own identifiers, so that a
/// keypad digit and the main-row digit with the same label stay
/// distinct.
#[derive(Clone, Copy, Debug, PartialEq, Eq, Structural)]
pub enum Key {
    Escape,
    _1,
    _2,
    _3,
    _4,
    _5,
    _6,
    _7,
    _8,
    _9,
    _0,
    Dash,
    Equal,
    Backspace,
    Tab,
    Q,
    W,
    E,
    R,
    T,
    Y,
    U,
    I,
    O,
    P,
    LeftSquareBracket,
    RightSquareBracket,
    Enter,
    NumpadEnter,
    LeftControl,
    RightControl,
    A,
    S,
    D,
    F,
    G,
    H,
    J,
    K,
    L,
    SemiColon,
    Quote,
    Tilde,
    LeftShift,
    RightShift,
    BackSlash,
    Z,
    X,
    C,
    V,
    B,
    N,
    M,
    Comma,
    Period,
    ForwardSlash,
    NumpadMultiply,
    NumpadDivide,
    NumpadSubtract,
    NumpadAdd,
    NumpadDecimal,
    LeftAlt,
    RightAlt,
    Space,
    CapsLock,
    ScrollLock,
    Pause,
    PrintScreen,
    F1,
    F2,
    F3,
    F4,
    F5,
    F6,
    F7,
    F8,
    F9,
    F10,
    F11,
    F12,
    Numpad0,
    Numpad1,
    Numpad2,
    Numpad3,
    Numpad4,
    Numpad5,
    Numpad6,
    Numpad7,
    Numpad8,
    Numpad9,
    Home,
    End,
    PageUp,
    PageDown,
    Insert,
    Delete,
    UpArrow,
    DownArrow,
    LeftArrow,
    RightArrow,
    Windows,
    Menu,
}

/// One of the three mouse buttons the input model tracks.
#[derive(Clone, Copy, Debug, PartialEq, Eq, Structural)]
pub enum MouseButton {
    Primary,
    Secondary,
    Middle,
}

} // verus!
