//! Input events as plain values.
//!
//! The windowing layer reports keys, actions and modifiers in its own types;
//! the session works on the values below, which hold what a filter policy can
//! read of an event.

use vstd::prelude::*;

verus! {

/// A physical key, named after its legend on the standard US layout.
#[derive(Clone, Copy, Debug, PartialEq, Eq, Structural, Hash)]
pub enum Key {
    Space,
    Apostrophe,
    Comma,
    Minus,
    Period,
    Slash,
    Num0,
    Num1,
    Num2,
    Num3,
    Num4,
    Num5,
    Num6,
    Num7,
    Num8,
    Num9,
    Semicolon,
    Equal,
    A,
    B,
    C,
    D,
    E,
    F,
    G,
    H,
    I,
    J,
    K,
    L,
    M,
    N,
    O,
    P,
    Q,
    R,
    S,
    T,
    U,
    V,
    W,
    X,
    Y,
    Z,
    LeftBracket,
    Backslash,
    RightBracket,
    GraveAccent,
    World1,
    World2,
    Escape,
    Enter,
    Tab,
    Backspace,
    Insert,
    Delete,
    Right,
    Left,
    Down,
    Up,
    PageUp,
    PageDown,
    Home,
    End,
    CapsLock,
    ScrollLock,
    NumLock,
    PrintScreen,
    Pause,
    F1,
    F2,
    F3,
    F4,
    F5,
    F6,
    F7,
    F8,
    F9,
    F10,
    F11,
    F12,
    F13,
    F14,
    F15,
    F16,
    F17,
    F18,
    F19,
    F20,
    F21,
    F22,
    F23,
    F24,
    F25,
    Kp0,
    Kp1,
    Kp2,
    Kp3,
    Kp4,
    Kp5,
    Kp6,
    Kp7,
    Kp8,
    Kp9,
    KpDecimal,
    KpDivide,
    KpMultiply,
    KpSubtract,
    KpAdd,
    KpEnter,
    KpEqual,
    LeftShift,
    LeftControl,
    LeftAlt,
    LeftSuper,
    RightShift,
    RightControl,
    RightAlt,
    RightSuper,
    Menu,
    /// A key that the windowing layer could not name.
    Unknown,
}

/// The code of a key: printable keys carry the ASCII code of their legend,
/// function keys start at 256, and `Unknown` is -1. This is the numbering
/// that GLFW reports keys in.
pub open spec fn key_code(key: Key) -> int {
    match key {
        Key::Space => 32,
        Key::Apostrophe => 39,
        Key::Comma => 44,
        Key::Minus => 45,
        Key::Period => 46,
        Key::Slash => 47,
        Key::Num0 => 48,
        Key::Num1 => 49,
        Key::Num2 => 50,
        Key::Num3 => 51,
        Key::Num4 => 52,
        Key::Num5 => 53,
        Key::Num6 => 54,
        Key::Num7 => 55,
        Key::Num8 => 56,
        Key::Num9 => 57,
        Key::Semicolon => 59,
        Key::Equal => 61,
        Key::A => 65,
        Key::B => 66,
        Key::C => 67,
        Key::D => 68,
        Key::E => 69,
        Key::F => 70,
        Key::G => 71,
        Key::H => 72,
        Key::I => 73,
        Key::J => 74,
        Key::K => 75,
        Key::L => 76,
        Key::M => 77,
        Key::N => 78,
        Key::O => 79,
        Key::P => 80,
        Key::Q => 81,
        Key::R => 82,
        Key::S => 83,
        Key::T => 84,
        Key::U => 85,
        Key::V => 86,
        Key::W => 87,
        Key::X => 88,
        Key::Y => 89,
        Key::Z => 90,
        Key::LeftBracket => 91,
        Key::Backslash => 92,
        Key::RightBracket => 93,
        Key::GraveAccent => 96,
        Key::World1 => 161,
        Key::World2 => 162,
        Key::Escape => 256,
        Key::Enter => 257,
        Key::Tab => 258,
        Key::Backspace => 259,
        Key::Insert => 260,
        Key::Delete => 261,
        Key::Right => 262,
        Key::Left => 263,
        Key::Down => 264,
        Key::Up => 265,
        Key::PageUp => 266,
        Key::PageDown => 267,
        Key::Home => 268,
        Key::End => 269,
        Key::CapsLock => 280,
        Key::ScrollLock => 281,
        Key::NumLock => 282,
        Key::PrintScreen => 283,
        Key::Pause => 284,
        Key::F1 => 290,
        Key::F2 => 291,
        Key::F3 => 292,
        Key::F4 => 293,
        Key::F5 => 294,
        Key::F6 => 295,
        Key::F7 => 296,
        Key::F8 => 297,
        Key::F9 => 298,
        Key::F10 => 299,
        Key::F11 => 300,
        Key::F12 => 301,
        Key::F13 => 302,
        Key::F14 => 303,
        Key::F15 => 304,
        Key::F16 => 305,
        Key::F17 => 306,
        Key::F18 => 307,
        Key::F19 => 308,
        Key::F20 => 309,
        Key::F21 => 310,
        Key::F22 => 311,
        Key::F23 => 312,
        Key::F24 => 313,
        Key::F25 => 314,
        Key::Kp0 => 320,
        Key::Kp1 => 321,
        Key::Kp2 => 322,
        Key::Kp3 => 323,
        Key::Kp4 => 324,
        Key::Kp5 => 325,
        Key::Kp6 => 326,
        Key::Kp7 => 327,
        Key::Kp8 => 328,
        Key::Kp9 => 329,
        Key::KpDecimal => 330,
        Key::KpDivide => 331,
        Key::KpMultiply => 332,
        Key::KpSubtract => 333,
        Key::KpAdd => 334,
        Key::KpEnter => 335,
        Key::KpEqual => 336,
        Key::LeftShift => 340,
        Key::LeftControl => 341,
        Key::LeftAlt => 342,
        Key::LeftSuper => 343,
        Key::RightShift => 344,
        Key::RightControl => 345,
        Key::RightAlt => 346,
        Key::RightSuper => 347,
        Key::Menu => 348,
        Key::Unknown => -1,
    }
}

/// The key that carries `code`: the one key whose code it is, or `Unknown`
/// where it is the code of no key.
pub open spec fn key_of_code(code: int) -> Key {
    if exists|k: Key| key_code(k) == code {
        choose|k: Key| key_code(k) == code
    } else {
        Key::Unknown
    }
}

impl Key {
    /// The code of this key.
    pub fn code(self) -> (code: i32)
        ensures
            code == key_code(self),
    {
        match self {
            Key::Space => 32,
            Key::Apostrophe => 39,
            Key::Comma => 44,
            Key::Minus => 45,
            Key::Period => 46,
            Key::Slash => 47,
            Key::Num0 => 48,
            Key::Num1 => 49,
            Key::Num2 => 50,
            Key::Num3 => 51,
            Key::Num4 => 52,
            Key::Num5 => 53,
            Key::Num6 => 54,
            Key::Num7 => 55,
            Key::Num8 => 56,
            Key::Num9 => 57,
            Key::Semicolon => 59,
            Key::Equal => 61,
            Key::A => 65,
            Key::B => 66,
            Key::C => 67,
            Key::D => 68,
            Key::E => 69,
            Key::F => 70,
            Key::G => 71,
            Key::H => 72,
            Key::I => 73,
            Key::J => 74,
            Key::K => 75,
            Key::L => 76,
            Key::M => 77,
            Key::N => 78,
            Key::O => 79,
            Key::P => 80,
            Key::Q => 81,
            Key::R => 82,
            Key::S => 83,
            Key::T => 84,
            Key::U => 85,
            Key::V => 86,
            Key::W => 87,
            Key::X => 88,
            Key::Y => 89,
            Key::Z => 90,
            Key::LeftBracket => 91,
            Key::Backslash => 92,
            Key::RightBracket => 93,
            Key::GraveAccent => 96,
            Key::World1 => 161,
            Key::World2 => 162,
            Key::Escape => 256,
            Key::Enter => 257,
            Key::Tab => 258,
            Key::Backspace => 259,
            Key::Insert => 260,
            Key::Delete => 261,
            Key::Right => 262,
            Key::Left => 263,
            Key::Down => 264,
            Key::Up => 265,
            Key::PageUp => 266,
            Key::PageDown => 267,
            Key::Home => 268,
            Key::End => 269,
            Key::CapsLock => 280,
            Key::ScrollLock => 281,
            Key::NumLock => 282,
            Key::PrintScreen => 283,
            Key::Pause => 284,
            Key::F1 => 290,
            Key::F2 => 291,
            Key::F3 => 292,
            Key::F4 => 293,
            Key::F5 => 294,
            Key::F6 => 295,
            Key::F7 => 296,
            Key::F8 => 297,
            Key::F9 => 298,
            Key::F10 => 299,
            Key::F11 => 300,
            Key::F12 => 301,
            Key::F13 => 302,
            Key::F14 => 303,
            Key::F15 => 304,
            Key::F16 => 305,
            Key::F17 => 306,
            Key::F18 => 307,
            Key::F19 => 308,
            Key::F20 => 309,
            Key::F21 => 310,
            Key::F22 => 311,
            Key::F23 => 312,
            Key::F24 => 313,
            Key::F25 => 314,
            Key::Kp0 => 320,
            Key::Kp1 => 321,
            Key::Kp2 => 322,
            Key::Kp3 => 323,
            Key::Kp4 => 324,
            Key::Kp5 => 325,
            Key::Kp6 => 326,
            Key::Kp7 => 327,
            Key::Kp8 => 328,
            Key::Kp9 => 329,
            Key::KpDecimal => 330,
            Key::KpDivide => 331,
            Key::KpMultiply => 332,
            Key::KpSubtract => 333,
            Key::KpAdd => 334,
            Key::KpEnter => 335,
            Key::KpEqual => 336,
            Key::LeftShift => 340,
            Key::LeftControl => 341,
            Key::LeftAlt => 342,
            Key::LeftSuper => 343,
            Key::RightShift => 344,
            Key::RightControl => 345,
            Key::RightAlt => 346,
            Key::RightSuper => 347,
            Key::Menu => 348,
            Key::Unknown => -1,
        }
    }

    /// The key that carries `code`, or `Unknown` where no key does.
    pub fn from_code(code: i32) -> (key: Key)
        ensures
            key == key_of_code(code as int),
    {
        let key = match code {
            32 => Key::Space,
            39 => Key::Apostrophe,
            44 => Key::Comma,
            45 => Key::Minus,
            46 => Key::Period,
            47 => Key::Slash,
            48 => Key::Num0,
            49 => Key::Num1,
            50 => Key::Num2,
            51 => Key::Num3,
            52 => Key::Num4,
            53 => Key::Num5,
            54 => Key::Num6,
            55 => Key::Num7,
            56 => Key::Num8,
            57 => Key::Num9,
            59 => Key::Semicolon,
            61 => Key::Equal,
            65 => Key::A,
            66 => Key::B,
            67 => Key::C,
            68 => Key::D,
            69 => Key::E,
            70 => Key::F,
            71 => Key::G,
            72 => Key::H,
            73 => Key::I,
            74 => Key::J,
            75 => Key::K,
            76 => Key::L,
            77 => Key::M,
            78 => Key::N,
            79 => Key::O,
            80 => Key::P,
            81 => Key::Q,
            82 => Key::R,
            83 => Key::S,
            84 => Key::T,
            85 => Key::U,
            86 => Key::V,
            87 => Key::W,
            88 => Key::X,
            89 => Key::Y,
            90 => Key::Z,
            91 => Key::LeftBracket,
            92 => Key::Backslash,
            93 => Key::RightBracket,
            96 => Key::GraveAccent,
            161 => Key::World1,
            162 => Key::World2,
            256 => Key::Escape,
            257 => Key::Enter,
            258 => Key::Tab,
            259 => Key::Backspace,
            260 => Key::Insert,
            261 => Key::Delete,
            262 => Key::Right,
            263 => Key::Left,
            264 => Key::Down,
            265 => Key::Up,
            266 => Key::PageUp,
            267 => Key::PageDown,
            268 => Key::Home,
            269 => Key::End,
            280 => Key::CapsLock,
            281 => Key::ScrollLock,
            282 => Key::NumLock,
            283 => Key::PrintScreen,
            284 => Key::Pause,
            290 => Key::F1,
            291 => Key::F2,
            292 => Key::F3,
            293 => Key::F4,
            294 => Key::F5,
            295 => Key::F6,
            296 => Key::F7,
            297 => Key::F8,
            298 => Key::F9,
            299 => Key::F10,
            300 => Key::F11,
            301 => Key::F12,
            302 => Key::F13,
            303 => Key::F14,
            304 => Key::F15,
            305 => Key::F16,
            306 => Key::F17,
            307 => Key::F18,
            308 => Key::F19,
            309 => Key::F20,
            310 => Key::F21,
            311 => Key::F22,
            312 => Key::F23,
            313 => Key::F24,
            314 => Key::F25,
            320 => Key::Kp0,
            321 => Key::Kp1,
            322 => Key::Kp2,
            323 => Key::Kp3,
            324 => Key::Kp4,
            325 => Key::Kp5,
            326 => Key::Kp6,
            327 => Key::Kp7,
            328 => Key::Kp8,
            329 => Key::Kp9,
            330 => Key::KpDecimal,
            331 => Key::KpDivide,
            332 => Key::KpMultiply,
            333 => Key::KpSubtract,
            334 => Key::KpAdd,
            335 => Key::KpEnter,
            336 => Key::KpEqual,
            340 => Key::LeftShift,
            341 => Key::LeftControl,
            342 => Key::LeftAlt,
            343 => Key::LeftSuper,
            344 => Key::RightShift,
            345 => Key::RightControl,
            346 => Key::RightAlt,
            347 => Key::RightSuper,
            348 => Key::Menu,
            _ => Key::Unknown,
        };
        proof {
            if key_code(key) == code {
                lemma_key_code_injective(key_of_code(code as int), key);
            }
        }
        key
    }
}

/// No two keys share a code, so a code names at most one key.
pub proof fn lemma_key_code_injective(a: Key, b: Key)
    requires
        key_code(a) == key_code(b),
    ensures
        a == b,
{
}

/// Reading a key back from its own code gives the same key.
pub proof fn lemma_key_code_round_trip(key: Key)
    ensures
        key_of_code(key_code(key)) == key,
{
    lemma_key_code_injective(key_of_code(key_code(key)), key);
}

/// What happened to a key or a button.
#[derive(Clone, Copy, Debug, PartialEq, Eq, Structural, Hash)]
pub enum KeyAction {
    Release,
    Press,
    /// The key was held down until it repeated.
    Repeat,
}

/// The code of an action: 0 for release, 1 for press, 2 for repeat.
pub open spec fn action_code(action: KeyAction) -> int {
    match action {
        KeyAction::Release => 0,
        KeyAction::Press => 1,
        KeyAction::Repeat => 2,
    }
}

impl KeyAction {
    /// The code of this action.
    pub fn code(self) -> (code: i32)
        ensures
            code == action_code(self),
    {
        match self {
            KeyAction::Release => 0,
            KeyAction::Press => 1,
            KeyAction::Repeat => 2,
        }
    }

    /// The action that carries `code`; there is one exactly for 0, 1 and 2.
    pub fn from_code(code: i32) -> (action: Option<KeyAction>)
        ensures
            action is Some <==> 0 <= code <= 2,
            action matches Some(a) ==> action_code(a) == code,
    {
        match code {
            0 => Some(KeyAction::Release),
            1 => Some(KeyAction::Press),
            2 => Some(KeyAction::Repeat),
            _ => None,
        }
    }
}

/// The modifier keys that were held down when an event occurred.
#[derive(Clone, Copy, Debug, PartialEq, Eq, Structural, Hash)]
pub struct Modifiers {
    pub shift: bool,
    pub control: bool,
    pub alt: bool,
    pub super_key: bool,
    pub caps_lock: bool,
    pub num_lock: bool,
}

impl Modifiers {
    /// No modifier held down.
    pub fn none() -> (modifiers: Modifiers)
        ensures
            modifiers == (Modifiers {
                shift: false,
                control: false,
                alt: false,
                super_key: false,
                caps_lock: false,
                num_lock: false,
            }),
    {
        Modifiers {
            shift: false,
            control: false,
            alt: false,
            super_key: false,
            caps_lock: false,
            num_lock: false,
        }
    }
}

/// One input occurrence since the last poll.
///
/// Positions and sizes are in screen coordinates. Events whose payload is a
/// fraction (cursor position, scroll offset, content scale) are carried
/// without it: no policy of the session reads it.
#[derive(Clone, Copy, Debug, PartialEq, Eq, Structural, Hash)]
pub enum Event {
    /// A key was pressed, released or repeated.
    Key { key: Key, scancode: i32, action: KeyAction, modifiers: Modifiers },
    /// A character was typed.
    Char { character: char },
    /// A character was typed while modifiers were held.
    CharModifiers { character: char, modifiers: Modifiers },
    /// A mouse button, numbered from 0, was pressed or released.
    MouseButton { button: i32, action: KeyAction, modifiers: Modifiers },
    CursorMoved,
    /// The cursor entered (`true`) or left the window.
    CursorEntered { inside: bool },
    Scrolled,
    /// The window was moved.
    Moved { x: i32, y: i32 },
    /// The window was resized.
    Resized { width: i32, height: i32 },
    /// The framebuffer of the window was resized.
    FramebufferResized { width: i32, height: i32 },
    /// The user asked the window system to close the window.
    CloseRequested,
    /// The window contents need to be redrawn.
    Refreshed,
    Focused { focused: bool },
    Iconified { iconified: bool },
    Maximized { maximized: bool },
    /// Files were dropped on the window.
    FilesDropped { count: usize },
    ContentScaled,
}

impl Event {
    /// A key event with no modifiers and scancode 0.
    pub fn key(key: Key, action: KeyAction) -> (event: Event)
        ensures
            event == (Event::Key {
                key,
                scancode: 0,
                action,
                modifiers: Modifiers {
                    shift: false,
                    control: false,
                    alt: false,
                    super_key: false,
                    caps_lock: false,
                    num_lock: false,
                },
            }),
    {
        Event::Key { key, scancode: 0, action, modifiers: Modifiers::none() }
    }
}

} // verus!
