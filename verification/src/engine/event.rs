use vstd::prelude::*;

verus! {

/// Key code of Backspace.
pub const KEY_BACKSPACE: i32 = 8;
/// Key code of Escape.
pub const KEY_ESCAPE: i32 = 27;
/// Key code of Space.
pub const KEY_SPACE: i32 = 32;
/// Key code of the letter A.
pub const KEY_A: i32 = 97;
/// Key code of the letter D.
pub const KEY_D: i32 = 100;
/// Key code of the letter S.
pub const KEY_S: i32 = 115;
/// Key code of the letter W.
pub const KEY_W: i32 = 119;
/// Key code of F5.
pub const KEY_F5: i32 = 1073741886;
/// Key code of the left Shift key.
pub const KEY_LSHIFT: i32 = 1073742049;

/// A mouse button.
#[derive(Copy, Clone, Debug, PartialEq, Eq, Structural)]
pub enum MouseButton {
    Left,
    Middle,
    Right,
    X1,
    X2,
    Unknown,
}

/// What the window reports: keys and mouse buttons by code, positions and
/// motions in pixels, typed text, a new window size.
#[derive(Clone, Debug)]
pub enum Event {
    Quit,
    KeyDown { keycode: Option<i32>, repeat: bool },
    KeyUp { keycode: Option<i32> },
    TextInput { text: String },
    MouseMotion { xrel: i32, yrel: i32 },
    MouseButtonDown { mouse_btn: MouseButton, x: i32, y: i32 },
    MouseButtonUp { mouse_btn: MouseButton },
    SizeChanged { w: i32, h: i32 },
    Other,
}

} // verus!
