//! Native integer codes of the library's closed enumerations.
//!
//! Every enumeration maps each variant to its native code, and takes a code
//! back only where some variant has it: an unassigned code is reported as
//! `None` (or `Err(())`), never taken for a nearby variant.
use vstd::prelude::*;

verus! {

/// Keyboard keys by their native key code; `Null` stands for no key.
#[derive(Debug, Clone, Copy, PartialEq, Eq, Structural)]
pub enum KeyboardKey {
    Null,
    Apostrophe,
    Comma,
    Minus,
    Period,
    Slash,
    Zero,
    One,
    Two,
    Three,
    Four,
    Five,
    Six,
    Seven,
    Eight,
    Nine,
    Semicolon,
    Equal,
    A,
    B,
    C,
    D,
    E,
    F,
    G,
    H,
    I,
    J,
    K,
    L,
    M,
    N,
    O,
    P,
    Q,
    R,
    S,
    T,
    U,
    V,
    W,
    X,
    Y,
    Z,
    LeftBracket,
    Backslash,
    RightBracket,
    Grave,
    Space,
    Escape,
    Enter,
    Tab,
    Backspace,
    Insert,
    Delete,
    Right,
    Left,
    Down,
    Up,
    PageUp,
    PageDown,
    Home,
    End,
    CapsLock,
    ScrollLock,
    NumLock,
    PrintScreen,
    Pause,
    F1,
    F2,
    F3,
    F4,
    F5,
    F6,
    F7,
    F8,
    F9,
    F10,
    F11,
    F12,
    LeftShift,
    LeftControl,
    LeftAlt,
    LeftSuper,
    RightShift,
    RightControl,
    RightAlt,
    RightSuper,
    KbMenu,
    Kp0,
    Kp1,
    Kp2,
    Kp3,
    Kp4,
    Kp5,
    Kp6,
    Kp7,
    Kp8,
    Kp9,
    KpDecimal,
    KpDivide,
    KpMultiply,
    KpSubtract,
    KpAdd,
    KpEnter,
    KpEqual,
    Back,
    Menu,
    VolumeUp,
    VolumeDown,
}

impl KeyboardKey {
    /// The native code of this variant.
    pub open spec fn spec_code(self) -> i32 {
        match self {
            KeyboardKey::Null => 0,
            KeyboardKey::Apostrophe => 39,
            KeyboardKey::Comma => 44,
            KeyboardKey::Minus => 45,
            KeyboardKey::Period => 46,
            KeyboardKey::Slash => 47,
            KeyboardKey::Zero => 48,
            KeyboardKey::One => 49,
            KeyboardKey::Two => 50,
            KeyboardKey::Three => 51,
            KeyboardKey::Four => 52,
            KeyboardKey::Five => 53,
            KeyboardKey::Six => 54,
            KeyboardKey::Seven => 55,
            KeyboardKey::Eight => 56,
            KeyboardKey::Nine => 57,
            KeyboardKey::Semicolon => 59,
            KeyboardKey::Equal => 61,
            KeyboardKey::A => 65,
            KeyboardKey::B => 66,
            KeyboardKey::C => 67,
            KeyboardKey::D => 68,
            KeyboardKey::E => 69,
            KeyboardKey::F => 70,
            KeyboardKey::G => 71,
            KeyboardKey::H => 72,
            KeyboardKey::I => 73,
            KeyboardKey::J => 74,
            KeyboardKey::K => 75,
            KeyboardKey::L => 76,
            KeyboardKey::M => 77,
            KeyboardKey::N => 78,
            KeyboardKey::O => 79,
            KeyboardKey::P => 80,
            KeyboardKey::Q => 81,
            KeyboardKey::R => 82,
            KeyboardKey::S => 83,
            KeyboardKey::T => 84,
            KeyboardKey::U => 85,
            KeyboardKey::V => 86,
            KeyboardKey::W => 87,
            KeyboardKey::X => 88,
            KeyboardKey::Y => 89,
            KeyboardKey::Z => 90,
            KeyboardKey::LeftBracket => 91,
            KeyboardKey::Backslash => 92,
            KeyboardKey::RightBracket => 93,
            KeyboardKey::Grave => 96,
            KeyboardKey::Space => 32,
            KeyboardKey::Escape => 256,
            KeyboardKey::Enter => 257,
            KeyboardKey::Tab => 258,
            KeyboardKey::Backspace => 259,
            KeyboardKey::Insert => 260,
            KeyboardKey::Delete => 261,
            KeyboardKey::Right => 262,
            KeyboardKey::Left => 263,
            KeyboardKey::Down => 264,
            KeyboardKey::Up => 265,
            KeyboardKey::PageUp => 266,
            KeyboardKey::PageDown => 267,
            KeyboardKey::Home => 268,
            KeyboardKey::End => 269,
            KeyboardKey::CapsLock => 280,
            KeyboardKey::ScrollLock => 281,
            KeyboardKey::NumLock => 282,
            KeyboardKey::PrintScreen => 283,
            KeyboardKey::Pause => 284,
            KeyboardKey::F1 => 290,
            KeyboardKey::F2 => 291,
            KeyboardKey::F3 => 292,
            KeyboardKey::F4 => 293,
            KeyboardKey::F5 => 294,
            KeyboardKey::F6 => 295,
            KeyboardKey::F7 => 296,
            KeyboardKey::F8 => 297,
            KeyboardKey::F9 => 298,
            KeyboardKey::F10 => 299,
            KeyboardKey::F11 => 300,
            KeyboardKey::F12 => 301,
            KeyboardKey::LeftShift => 340,
            KeyboardKey::LeftControl => 341,
            KeyboardKey::LeftAlt => 342,
            KeyboardKey::LeftSuper => 343,
            KeyboardKey::RightShift => 344,
            KeyboardKey::RightControl => 345,
            KeyboardKey::RightAlt => 346,
            KeyboardKey::RightSuper => 347,
            KeyboardKey::KbMenu => 348,
            KeyboardKey::Kp0 => 320,
            KeyboardKey::Kp1 => 321,
            KeyboardKey::Kp2 => 322,
            KeyboardKey::Kp3 => 323,
            KeyboardKey::Kp4 => 324,
            KeyboardKey::Kp5 => 325,
            KeyboardKey::Kp6 => 326,
            KeyboardKey::Kp7 => 327,
            KeyboardKey::Kp8 => 328,
            KeyboardKey::Kp9 => 329,
            KeyboardKey::KpDecimal => 330,
            KeyboardKey::KpDivide => 331,
            KeyboardKey::KpMultiply => 332,
            KeyboardKey::KpSubtract => 333,
            KeyboardKey::KpAdd => 334,
            KeyboardKey::KpEnter => 335,
            KeyboardKey::KpEqual => 336,
            KeyboardKey::Back => 4,
            KeyboardKey::Menu => 5,
            KeyboardKey::VolumeUp => 24,
            KeyboardKey::VolumeDown => 25,
        }
    }

    /// The variant whose native code is `code`, if any.
    pub open spec fn spec_from_code(code: i32) -> Option<KeyboardKey> {
        match code {
            0 => Some(KeyboardKey::Null),
            39 => Some(KeyboardKey::Apostrophe),
            44 => Some(KeyboardKey::Comma),
            45 => Some(KeyboardKey::Minus),
            46 => Some(KeyboardKey::Period),
            47 => Some(KeyboardKey::Slash),
            48 => Some(KeyboardKey::Zero),
            49 => Some(KeyboardKey::One),
            50 => Some(KeyboardKey::Two),
            51 => Some(KeyboardKey::Three),
            52 => Some(KeyboardKey::Four),
            53 => Some(KeyboardKey::Five),
            54 => Some(KeyboardKey::Six),
            55 => Some(KeyboardKey::Seven),
            56 => Some(KeyboardKey::Eight),
            57 => Some(KeyboardKey::Nine),
            59 => Some(KeyboardKey::Semicolon),
            61 => Some(KeyboardKey::Equal),
            65 => Some(KeyboardKey::A),
            66 => Some(KeyboardKey::B),
            67 => Some(KeyboardKey::C),
            68 => Some(KeyboardKey::D),
            69 => Some(KeyboardKey::E),
            70 => Some(KeyboardKey::F),
            71 => Some(KeyboardKey::G),
            72 => Some(KeyboardKey::H),
            73 => Some(KeyboardKey::I),
            74 => Some(KeyboardKey::J),
            75 => Some(KeyboardKey::K),
            76 => Some(KeyboardKey::L),
            77 => Some(KeyboardKey::M),
            78 => Some(KeyboardKey::N),
            79 => Some(KeyboardKey::O),
            80 => Some(KeyboardKey::P),
            81 => Some(KeyboardKey::Q),
            82 => Some(KeyboardKey::R),
            83 => Some(KeyboardKey::S),
            84 => Some(KeyboardKey::T),
            85 => Some(KeyboardKey::U),
            86 => Some(KeyboardKey::V),
            87 => Some(KeyboardKey::W),
            88 => Some(KeyboardKey::X),
            89 => Some(KeyboardKey::Y),
            90 => Some(KeyboardKey::Z),
            91 => Some(KeyboardKey::LeftBracket),
            92 => Some(KeyboardKey::Backslash),
            93 => Some(KeyboardKey::RightBracket),
            96 => Some(KeyboardKey::Grave),
            32 => Some(KeyboardKey::Space),
            256 => Some(KeyboardKey::Escape),
            257 => Some(KeyboardKey::Enter),
            258 => Some(KeyboardKey::Tab),
            259 => Some(KeyboardKey::Backspace),
            260 => Some(KeyboardKey::Insert),
            261 => Some(KeyboardKey::Delete),
            262 => Some(KeyboardKey::Right),
            263 => Some(KeyboardKey::Left),
            264 => Some(KeyboardKey::Down),
            265 => Some(KeyboardKey::Up),
            266 => Some(KeyboardKey::PageUp),
            267 => Some(KeyboardKey::PageDown),
            268 => Some(KeyboardKey::Home),
            269 => Some(KeyboardKey::End),
            280 => Some(KeyboardKey::CapsLock),
            281 => Some(KeyboardKey::ScrollLock),
            282 => Some(KeyboardKey::NumLock),
            283 => Some(KeyboardKey::PrintScreen),
            284 => Some(KeyboardKey::Pause),
            290 => Some(KeyboardKey::F1),
            291 => Some(KeyboardKey::F2),
            292 => Some(KeyboardKey::F3),
            293 => Some(KeyboardKey::F4),
            294 => Some(KeyboardKey::F5),
            295 => Some(KeyboardKey::F6),
            296 => Some(KeyboardKey::F7),
            297 => Some(KeyboardKey::F8),
            298 => Some(KeyboardKey::F9),
            299 => Some(KeyboardKey::F10),
            300 => Some(KeyboardKey::F11),
            301 => Some(KeyboardKey::F12),
            340 => Some(KeyboardKey::LeftShift),
            341 => Some(KeyboardKey::LeftControl),
            342 => Some(KeyboardKey::LeftAlt),
            343 => Some(KeyboardKey::LeftSuper),
            344 => Some(KeyboardKey::RightShift),
            345 => Some(KeyboardKey::RightControl),
            346 => Some(KeyboardKey::RightAlt),
            347 => Some(KeyboardKey::RightSuper),
            348 => Some(KeyboardKey::KbMenu),
            320 => Some(KeyboardKey::Kp0),
            321 => Some(KeyboardKey::Kp1),
            322 => Some(KeyboardKey::Kp2),
            323 => Some(KeyboardKey::Kp3),
            324 => Some(KeyboardKey::Kp4),
            325 => Some(KeyboardKey::Kp5),
            326 => Some(KeyboardKey::Kp6),
            327 => Some(KeyboardKey::Kp7),
            328 => Some(KeyboardKey::Kp8),
            329 => Some(KeyboardKey::Kp9),
            330 => Some(KeyboardKey::KpDecimal),
            331 => Some(KeyboardKey::KpDivide),
            332 => Some(KeyboardKey::KpMultiply),
            333 => Some(KeyboardKey::KpSubtract),
            334 => Some(KeyboardKey::KpAdd),
            335 => Some(KeyboardKey::KpEnter),
            336 => Some(KeyboardKey::KpEqual),
            4 => Some(KeyboardKey::Back),
            5 => Some(KeyboardKey::Menu),
            24 => Some(KeyboardKey::VolumeUp),
            25 => Some(KeyboardKey::VolumeDown),
            _ => None,
        }
    }

    /// The native code of this variant.
    pub fn code(self) -> (r: i32)
        ensures
            r == self.spec_code(),
    {
        match self {
            KeyboardKey::Null => 0,
            KeyboardKey::Apostrophe => 39,
            KeyboardKey::Comma => 44,
            KeyboardKey::Minus => 45,
            KeyboardKey::Period => 46,
            KeyboardKey::Slash => 47,
            KeyboardKey::Zero => 48,
            KeyboardKey::One => 49,
            KeyboardKey::Two => 50,
            KeyboardKey::Three => 51,
            KeyboardKey::Four => 52,
            KeyboardKey::Five => 53,
            KeyboardKey::Six => 54,
            KeyboardKey::Seven => 55,
            KeyboardKey::Eight => 56,
            KeyboardKey::Nine => 57,
            KeyboardKey::Semicolon => 59,
            KeyboardKey::Equal => 61,
            KeyboardKey::A => 65,
            KeyboardKey::B => 66,
            KeyboardKey::C => 67,
            KeyboardKey::D => 68,
            KeyboardKey::E => 69,
            KeyboardKey::F => 70,
            KeyboardKey::G => 71,
            KeyboardKey::H => 72,
            KeyboardKey::I => 73,
            KeyboardKey::J => 74,
            KeyboardKey::K => 75,
            KeyboardKey::L => 76,
            KeyboardKey::M => 77,
            KeyboardKey::N => 78,
            KeyboardKey::O => 79,
            KeyboardKey::P => 80,
            KeyboardKey::Q => 81,
            KeyboardKey::R => 82,
            KeyboardKey::S => 83,
            KeyboardKey::T => 84,
            KeyboardKey::U => 85,
            KeyboardKey::V => 86,
            KeyboardKey::W => 87,
            KeyboardKey::X => 88,
            KeyboardKey::Y => 89,
            KeyboardKey::Z => 90,
            KeyboardKey::LeftBracket => 91,
            KeyboardKey::Backslash => 92,
            KeyboardKey::RightBracket => 93,
            KeyboardKey::Grave => 96,
            KeyboardKey::Space => 32,
            KeyboardKey::Escape => 256,
            KeyboardKey::Enter => 257,
            KeyboardKey::Tab => 258,
            KeyboardKey::Backspace => 259,
            KeyboardKey::Insert => 260,
            KeyboardKey::Delete => 261,
            KeyboardKey::Right => 262,
            KeyboardKey::Left => 263,
            KeyboardKey::Down => 264,
            KeyboardKey::Up => 265,
            KeyboardKey::PageUp => 266,
            KeyboardKey::PageDown => 267,
            KeyboardKey::Home => 268,
            KeyboardKey::End => 269,
            KeyboardKey::CapsLock => 280,
            KeyboardKey::ScrollLock => 281,
            KeyboardKey::NumLock => 282,
            KeyboardKey::PrintScreen => 283,
            KeyboardKey::Pause => 284,
            KeyboardKey::F1 => 290,
            KeyboardKey::F2 => 291,
            KeyboardKey::F3 => 292,
            KeyboardKey::F4 => 293,
            KeyboardKey::F5 => 294,
            KeyboardKey::F6 => 295,
            KeyboardKey::F7 => 296,
            KeyboardKey::F8 => 297,
            KeyboardKey::F9 => 298,
            KeyboardKey::F10 => 299,
            KeyboardKey::F11 => 300,
            KeyboardKey::F12 => 301,
            KeyboardKey::LeftShift => 340,
            KeyboardKey::LeftControl => 341,
            KeyboardKey::LeftAlt => 342,
            KeyboardKey::LeftSuper => 343,
            KeyboardKey::RightShift => 344,
            KeyboardKey::RightControl => 345,
            KeyboardKey::RightAlt => 346,
            KeyboardKey::RightSuper => 347,
            KeyboardKey::KbMenu => 348,
            KeyboardKey::Kp0 => 320,
            KeyboardKey::Kp1 => 321,
            KeyboardKey::Kp2 => 322,
            KeyboardKey::Kp3 => 323,
            KeyboardKey::Kp4 => 324,
            KeyboardKey::Kp5 => 325,
            KeyboardKey::Kp6 => 326,
            KeyboardKey::Kp7 => 327,
            KeyboardKey::Kp8 => 328,
            KeyboardKey::Kp9 => 329,
            KeyboardKey::KpDecimal => 330,
            KeyboardKey::KpDivide => 331,
            KeyboardKey::KpMultiply => 332,
            KeyboardKey::KpSubtract => 333,
            KeyboardKey::KpAdd => 334,
            KeyboardKey::KpEnter => 335,
            KeyboardKey::KpEqual => 336,
            KeyboardKey::Back => 4,
            KeyboardKey::Menu => 5,
            KeyboardKey::VolumeUp => 24,
            KeyboardKey::VolumeDown => 25,
        }
    }

    /// The variant whose native code is `code`; `None` where no variant has it.
    pub fn from_code(code: i32) -> (r: Option<KeyboardKey>)
        ensures
            r == KeyboardKey::spec_from_code(code),
            r matches Some(v) ==> v.spec_code() == code,
            r is None ==> forall|v: KeyboardKey| v.spec_code() != code,
    {
        match code {
            0 => Some(KeyboardKey::Null),
            39 => Some(KeyboardKey::Apostrophe),
            44 => Some(KeyboardKey::Comma),
            45 => Some(KeyboardKey::Minus),
            46 => Some(KeyboardKey::Period),
            47 => Some(KeyboardKey::Slash),
            48 => Some(KeyboardKey::Zero),
            49 => Some(KeyboardKey::One),
            50 => Some(KeyboardKey::Two),
            51 => Some(KeyboardKey::Three),
            52 => Some(KeyboardKey::Four),
            53 => Some(KeyboardKey::Five),
            54 => Some(KeyboardKey::Six),
            55 => Some(KeyboardKey::Seven),
            56 => Some(KeyboardKey::Eight),
            57 => Some(KeyboardKey::Nine),
            59 => Some(KeyboardKey::Semicolon),
            61 => Some(KeyboardKey::Equal),
            65 => Some(KeyboardKey::A),
            66 => Some(KeyboardKey::B),
            67 => Some(KeyboardKey::C),
            68 => Some(KeyboardKey::D),
            69 => Some(KeyboardKey::E),
            70 => Some(KeyboardKey::F),
            71 => Some(KeyboardKey::G),
            72 => Some(KeyboardKey::H),
            73 => Some(KeyboardKey::I),
            74 => Some(KeyboardKey::J),
            75 => Some(KeyboardKey::K),
            76 => Some(KeyboardKey::L),
            77 => Some(KeyboardKey::M),
            78 => Some(KeyboardKey::N),
            79 => Some(KeyboardKey::O),
            80 => Some(KeyboardKey::P),
            81 => Some(KeyboardKey::Q),
            82 => Some(KeyboardKey::R),
            83 => Some(KeyboardKey::S),
            84 => Some(KeyboardKey::T),
            85 => Some(KeyboardKey::U),
            86 => Some(KeyboardKey::V),
            87 => Some(KeyboardKey::W),
            88 => Some(KeyboardKey::X),
            89 => Some(KeyboardKey::Y),
            90 => Some(KeyboardKey::Z),
            91 => Some(KeyboardKey::LeftBracket),
            92 => Some(KeyboardKey::Backslash),
            93 => Some(KeyboardKey::RightBracket),
            96 => Some(KeyboardKey::Grave),
            32 => Some(KeyboardKey::Space),
            256 => Some(KeyboardKey::Escape),
            257 => Some(KeyboardKey::Enter),
            258 => Some(KeyboardKey::Tab),
            259 => Some(KeyboardKey::Backspace),
            260 => Some(KeyboardKey::Insert),
            261 => Some(KeyboardKey::Delete),
            262 => Some(KeyboardKey::Right),
            263 => Some(KeyboardKey::Left),
            264 => Some(KeyboardKey::Down),
            265 => Some(KeyboardKey::Up),
            266 => Some(KeyboardKey::PageUp),
            267 => Some(KeyboardKey::PageDown),
            268 => Some(KeyboardKey::Home),
            269 => Some(KeyboardKey::End),
            280 => Some(KeyboardKey::CapsLock),
            281 => Some(KeyboardKey::ScrollLock),
            282 => Some(KeyboardKey::NumLock),
            283 => Some(KeyboardKey::PrintScreen),
            284 => Some(KeyboardKey::Pause),
            290 => Some(KeyboardKey::F1),
            291 => Some(KeyboardKey::F2),
            292 => Some(KeyboardKey::F3),
            293 => Some(KeyboardKey::F4),
            294 => Some(KeyboardKey::F5),
            295 => Some(KeyboardKey::F6),
            296 => Some(KeyboardKey::F7),
            297 => Some(KeyboardKey::F8),
            298 => Some(KeyboardKey::F9),
            299 => Some(KeyboardKey::F10),
            300 => Some(KeyboardKey::F11),
            301 => Some(KeyboardKey::F12),
            340 => Some(KeyboardKey::LeftShift),
            341 => Some(KeyboardKey::LeftControl),
            342 => Some(KeyboardKey::LeftAlt),
            343 => Some(KeyboardKey::LeftSuper),
            344 => Some(KeyboardKey::RightShift),
            345 => Some(KeyboardKey::RightControl),
            346 => Some(KeyboardKey::RightAlt),
            347 => Some(KeyboardKey::RightSuper),
            348 => Some(KeyboardKey::KbMenu),
            320 => Some(KeyboardKey::Kp0),
            321 => Some(KeyboardKey::Kp1),
            322 => Some(KeyboardKey::Kp2),
            323 => Some(KeyboardKey::Kp3),
            324 => Some(KeyboardKey::Kp4),
            325 => Some(KeyboardKey::Kp5),
            326 => Some(KeyboardKey::Kp6),
            327 => Some(KeyboardKey::Kp7),
            328 => Some(KeyboardKey::Kp8),
            329 => Some(KeyboardKey::Kp9),
            330 => Some(KeyboardKey::KpDecimal),
            331 => Some(KeyboardKey::KpDivide),
            332 => Some(KeyboardKey::KpMultiply),
            333 => Some(KeyboardKey::KpSubtract),
            334 => Some(KeyboardKey::KpAdd),
            335 => Some(KeyboardKey::KpEnter),
            336 => Some(KeyboardKey::KpEqual),
            4 => Some(KeyboardKey::Back),
            5 => Some(KeyboardKey::Menu),
            24 => Some(KeyboardKey::VolumeUp),
            25 => Some(KeyboardKey::VolumeDown),
            _ => None,
        }
    }
}

impl TryFrom<i32> for KeyboardKey {
    type Error = ();

    fn try_from(code: i32) -> (r: Result<KeyboardKey, ()>) {
        match KeyboardKey::from_code(code) {
            Some(v) => Ok(v),
            None => Err(()),
        }
    }
}

impl vstd::std_specs::convert::TryFromSpecImpl<i32> for KeyboardKey {
    open spec fn obeys_try_from_spec() -> bool {
        true
    }

    open spec fn try_from_spec(code: i32) -> Result<KeyboardKey, ()> {
        match KeyboardKey::spec_from_code(code) {
            Some(v) => Ok(v),
            None => Err(()),
        }
    }
}

/// Mouse buttons.
#[derive(Debug, Clone, Copy, PartialEq, Eq, Structural)]
pub enum MouseButton {
    Left,
    Right,
    Middle,
    Side,
    Extra,
    Forward,
    Back,
}

impl MouseButton {
    /// The native code of this variant.
    pub open spec fn spec_code(self) -> i32 {
        match self {
            MouseButton::Left => 0,
            MouseButton::Right => 1,
            MouseButton::Middle => 2,
            MouseButton::Side => 3,
            MouseButton::Extra => 4,
            MouseButton::Forward => 5,
            MouseButton::Back => 6,
        }
    }

    /// The variant whose native code is `code`, if any.
    pub open spec fn spec_from_code(code: i32) -> Option<MouseButton> {
        match code {
            0 => Some(MouseButton::Left),
            1 => Some(MouseButton::Right),
            2 => Some(MouseButton::Middle),
            3 => Some(MouseButton::Side),
            4 => Some(MouseButton::Extra),
            5 => Some(MouseButton::Forward),
            6 => Some(MouseButton::Back),
            _ => None,
        }
    }

    /// The native code of this variant.
    pub fn code(self) -> (r: i32)
        ensures
            r == self.spec_code(),
    {
        match self {
            MouseButton::Left => 0,
            MouseButton::Right => 1,
            MouseButton::Middle => 2,
            MouseButton::Side => 3,
            MouseButton::Extra => 4,
            MouseButton::Forward => 5,
            MouseButton::Back => 6,
        }
    }

    /// The variant whose native code is `code`; `None` where no variant has it.
    pub fn from_code(code: i32) -> (r: Option<MouseButton>)
        ensures
            r == MouseButton::spec_from_code(code),
            r matches Some(v) ==> v.spec_code() == code,
            r is None ==> forall|v: MouseButton| v.spec_code() != code,
    {
        match code {
            0 => Some(MouseButton::Left),
            1 => Some(MouseButton::Right),
            2 => Some(MouseButton::Middle),
            3 => Some(MouseButton::Side),
            4 => Some(MouseButton::Extra),
            5 => Some(MouseButton::Forward),
            6 => Some(MouseButton::Back),
            _ => None,
        }
    }
}

impl TryFrom<i32> for MouseButton {
    type Error = ();

    fn try_from(code: i32) -> (r: Result<MouseButton, ()>) {
        match MouseButton::from_code(code) {
            Some(v) => Ok(v),
            None => Err(()),
        }
    }
}

impl vstd::std_specs::convert::TryFromSpecImpl<i32> for MouseButton {
    open spec fn obeys_try_from_spec() -> bool {
        true
    }

    open spec fn try_from_spec(code: i32) -> Result<MouseButton, ()> {
        match MouseButton::spec_from_code(code) {
            Some(v) => Ok(v),
            None => Err(()),
        }
    }
}

/// Mouse cursor shapes.
#[derive(Debug, Clone, Copy, PartialEq, Eq, Structural)]
pub enum MouseCursor {
    Default,
    Arrow,
    IBeam,
    Crosshair,
    PointingHand,
    ResizeEW,
    ResizeNS,
    ResizeNWSE,
    ResizeNESW,
    ResizeAll,
    NotAllowed,
}

impl MouseCursor {
    /// The native code of this variant.
    pub open spec fn spec_code(self) -> i32 {
        match self {
            MouseCursor::Default => 0,
            MouseCursor::Arrow => 1,
            MouseCursor::IBeam => 2,
            MouseCursor::Crosshair => 3,
            MouseCursor::PointingHand => 4,
            MouseCursor::ResizeEW => 5,
            MouseCursor::ResizeNS => 6,
            MouseCursor::ResizeNWSE => 7,
            MouseCursor::ResizeNESW => 8,
            MouseCursor::ResizeAll => 9,
            MouseCursor::NotAllowed => 10,
        }
    }

    /// The variant whose native code is `code`, if any.
    pub open spec fn spec_from_code(code: i32) -> Option<MouseCursor> {
        match code {
            0 => Some(MouseCursor::Default),
            1 => Some(MouseCursor::Arrow),
            2 => Some(MouseCursor::IBeam),
            3 => Some(MouseCursor::Crosshair),
            4 => Some(MouseCursor::PointingHand),
            5 => Some(MouseCursor::ResizeEW),
            6 => Some(MouseCursor::ResizeNS),
            7 => Some(MouseCursor::ResizeNWSE),
            8 => Some(MouseCursor::ResizeNESW),
            9 => Some(MouseCursor::ResizeAll),
            10 => Some(MouseCursor::NotAllowed),
            _ => None,
        }
    }

    /// The native code of this variant.
    pub fn code(self) -> (r: i32)
        ensures
            r == self.spec_code(),
    {
        match self {
            MouseCursor::Default => 0,
            MouseCursor::Arrow => 1,
            MouseCursor::IBeam => 2,
            MouseCursor::Crosshair => 3,
            MouseCursor::PointingHand => 4,
            MouseCursor::ResizeEW => 5,
            MouseCursor::ResizeNS => 6,
            MouseCursor::ResizeNWSE => 7,
            MouseCursor::ResizeNESW => 8,
            MouseCursor::ResizeAll => 9,
            MouseCursor::NotAllowed => 10,
        }
    }

    /// The variant whose native code is `code`; `None` where no variant has it.
    pub fn from_code(code: i32) -> (r: Option<MouseCursor>)
        ensures
            r == MouseCursor::spec_from_code(code),
            r matches Some(v) ==> v.spec_code() == code,
            r is None ==> forall|v: MouseCursor| v.spec_code() != code,
    {
        match code {
            0 => Some(MouseCursor::Default),
            1 => Some(MouseCursor::Arrow),
            2 => Some(MouseCursor::IBeam),
            3 => Some(MouseCursor::Crosshair),
            4 => Some(MouseCursor::PointingHand),
            5 => Some(MouseCursor::ResizeEW),
            6 => Some(MouseCursor::ResizeNS),
            7 => Some(MouseCursor::ResizeNWSE),
            8 => Some(MouseCursor::ResizeNESW),
            9 => Some(MouseCursor::ResizeAll),
            10 => Some(MouseCursor::NotAllowed),
            _ => None,
        }
    }
}

/// Gamepad buttons; `Unknown` is the native code for no button.
#[derive(Debug, Clone, Copy, PartialEq, Eq, Structural)]
pub enum GamepadButton {
    Unknown,
    LeftFaceUp,
    LeftFaceRight,
    LeftFaceDown,
    LeftFaceLeft,
    RightFaceUp,
    RightFaceRight,
    RightFaceDown,
    RightFaceLeft,
    LeftTrigger1,
    LeftTrigger2,
    RightTrigger1,
    RightTrigger2,
    MiddleLeft,
    Middle,
    MiddleRight,
    LeftThumb,
    RightThumb,
}

impl GamepadButton {
    /// The native code of this variant.
    pub open spec fn spec_code(self) -> i32 {
        match self {
            GamepadButton::Unknown => 0,
            GamepadButton::LeftFaceUp => 1,
            GamepadButton::LeftFaceRight => 2,
            GamepadButton::LeftFaceDown => 3,
            GamepadButton::LeftFaceLeft => 4,
            GamepadButton::RightFaceUp => 5,
            GamepadButton::RightFaceRight => 6,
            GamepadButton::RightFaceDown => 7,
            GamepadButton::RightFaceLeft => 8,
            GamepadButton::LeftTrigger1 => 9,
            GamepadButton::LeftTrigger2 => 10,
            GamepadButton::RightTrigger1 => 11,
            GamepadButton::RightTrigger2 => 12,
            GamepadButton::MiddleLeft => 13,
            GamepadButton::Middle => 14,
            GamepadButton::MiddleRight => 15,
            GamepadButton::LeftThumb => 16,
            GamepadButton::RightThumb => 17,
        }
    }

    /// The variant whose native code is `code`, if any.
    pub open spec fn spec_from_code(code: i32) -> Option<GamepadButton> {
        match code {
            0 => Some(GamepadButton::Unknown),
            1 => Some(GamepadButton::LeftFaceUp),
            2 => Some(GamepadButton::LeftFaceRight),
            3 => Some(GamepadButton::LeftFaceDown),
            4 => Some(GamepadButton::LeftFaceLeft),
            5 => Some(GamepadButton::RightFaceUp),
            6 => Some(GamepadButton::RightFaceRight),
            7 => Some(GamepadButton::RightFaceDown),
            8 => Some(GamepadButton::RightFaceLeft),
            9 => Some(GamepadButton::LeftTrigger1),
            10 => Some(GamepadButton::LeftTrigger2),
            11 => Some(GamepadButton::RightTrigger1),
            12 => Some(GamepadButton::RightTrigger2),
            13 => Some(GamepadButton::MiddleLeft),
            14 => Some(GamepadButton::Middle),
            15 => Some(GamepadButton::MiddleRight),
            16 => Some(GamepadButton::LeftThumb),
            17 => Some(GamepadButton::RightThumb),
            _ => None,
        }
    }

    /// The native code of this variant.
    pub fn code(self) -> (r: i32)
        ensures
            r == self.spec_code(),
    {
        match self {
            GamepadButton::Unknown => 0,
            GamepadButton::LeftFaceUp => 1,
            GamepadButton::LeftFaceRight => 2,
            GamepadButton::LeftFaceDown => 3,
            GamepadButton::LeftFaceLeft => 4,
            GamepadButton::RightFaceUp => 5,
            GamepadButton::RightFaceRight => 6,
            GamepadButton::RightFaceDown => 7,
            GamepadButton::RightFaceLeft => 8,
            GamepadButton::LeftTrigger1 => 9,
            GamepadButton::LeftTrigger2 => 10,
            GamepadButton::RightTrigger1 => 11,
            GamepadButton::RightTrigger2 => 12,
            GamepadButton::MiddleLeft => 13,
            GamepadButton::Middle => 14,
            GamepadButton::MiddleRight => 15,
            GamepadButton::LeftThumb => 16,
            GamepadButton::RightThumb => 17,
        }
    }

    /// The variant whose native code is `code`; `None` where no variant has it.
    pub fn from_code(code: i32) -> (r: Option<GamepadButton>)
        ensures
            r == GamepadButton::spec_from_code(code),
            r matches Some(v) ==> v.spec_code() == code,
            r is None ==> forall|v: GamepadButton| v.spec_code() != code,
    {
        match code {
            0 => Some(GamepadButton::Unknown),
            1 => Some(GamepadButton::LeftFaceUp),
            2 => Some(GamepadButton::LeftFaceRight),
            3 => Some(GamepadButton::LeftFaceDown),
            4 => Some(GamepadButton::LeftFaceLeft),
            5 => Some(GamepadButton::RightFaceUp),
            6 => Some(GamepadButton::RightFaceRight),
            7 => Some(GamepadButton::RightFaceDown),
            8 => Some(GamepadButton::RightFaceLeft),
            9 => Some(GamepadButton::LeftTrigger1),
            10 => Some(GamepadButton::LeftTrigger2),
            11 => Some(GamepadButton::RightTrigger1),
            12 => Some(GamepadButton::RightTrigger2),
            13 => Some(GamepadButton::MiddleLeft),
            14 => Some(GamepadButton::Middle),
            15 => Some(GamepadButton::MiddleRight),
            16 => Some(GamepadButton::LeftThumb),
            17 => Some(GamepadButton::RightThumb),
            _ => None,
        }
    }
}

impl TryFrom<i32> for GamepadButton {
    type Error = ();

    fn try_from(code: i32) -> (r: Result<GamepadButton, ()>) {
        match GamepadButton::from_code(code) {
            Some(v) => Ok(v),
            None => Err(()),
        }
    }
}

impl vstd::std_specs::convert::TryFromSpecImpl<i32> for GamepadButton {
    open spec fn obeys_try_from_spec() -> bool {
        true
    }

    open spec fn try_from_spec(code: i32) -> Result<GamepadButton, ()> {
        match GamepadButton::spec_from_code(code) {
            Some(v) => Ok(v),
            None => Err(()),
        }
    }
}

/// Gamepad axes.
#[derive(Debug, Clone, Copy, PartialEq, Eq, Structural)]
pub enum GamepadAxis {
    AxisLeftX,
    AxisLeftY,
    AxisRightX,
    AxisRightY,
    AxisLeftTrigger,
    AxisRightTrigger,
}

impl GamepadAxis {
    /// The native code of this variant.
    pub open spec fn spec_code(self) -> i32 {
        match self {
            GamepadAxis::AxisLeftX => 0,
            GamepadAxis::AxisLeftY => 1,
            GamepadAxis::AxisRightX => 2,
            GamepadAxis::AxisRightY => 3,
            GamepadAxis::AxisLeftTrigger => 4,
            GamepadAxis::AxisRightTrigger => 5,
        }
    }

    /// The variant whose native code is `code`, if any.
    pub open spec fn spec_from_code(code: i32) -> Option<GamepadAxis> {
        match code {
            0 => Some(GamepadAxis::AxisLeftX),
            1 => Some(GamepadAxis::AxisLeftY),
            2 => Some(GamepadAxis::AxisRightX),
            3 => Some(GamepadAxis::AxisRightY),
            4 => Some(GamepadAxis::AxisLeftTrigger),
            5 => Some(GamepadAxis::AxisRightTrigger),
            _ => None,
        }
    }

    /// The native code of this variant.
    pub fn code(self) -> (r: i32)
        ensures
            r == self.spec_code(),
    {
        match self {
            GamepadAxis::AxisLeftX => 0,
            GamepadAxis::AxisLeftY => 1,
            GamepadAxis::AxisRightX => 2,
            GamepadAxis::AxisRightY => 3,
            GamepadAxis::AxisLeftTrigger => 4,
            GamepadAxis::AxisRightTrigger => 5,
        }
    }

    /// The variant whose native code is `code`; `None` where no variant has it.
    pub fn from_code(code: i32) -> (r: Option<GamepadAxis>)
        ensures
            r == GamepadAxis::spec_from_code(code),
            r matches Some(v) ==> v.spec_code() == code,
            r is None ==> forall|v: GamepadAxis| v.spec_code() != code,
    {
        match code {
            0 => Some(GamepadAxis::AxisLeftX),
            1 => Some(GamepadAxis::AxisLeftY),
            2 => Some(GamepadAxis::AxisRightX),
            3 => Some(GamepadAxis::AxisRightY),
            4 => Some(GamepadAxis::AxisLeftTrigger),
            5 => Some(GamepadAxis::AxisRightTrigger),
            _ => None,
        }
    }
}

impl TryFrom<i32> for GamepadAxis {
    type Error = ();

    fn try_from(code: i32) -> (r: Result<GamepadAxis, ()>) {
        match GamepadAxis::from_code(code) {
            Some(v) => Ok(v),
            None => Err(()),
        }
    }
}

impl vstd::std_specs::convert::TryFromSpecImpl<i32> for GamepadAxis {
    open spec fn obeys_try_from_spec() -> bool {
        true
    }

    open spec fn try_from_spec(code: i32) -> Result<GamepadAxis, ()> {
        match GamepadAxis::spec_from_code(code) {
            Some(v) => Ok(v),
            None => Err(()),
        }
    }
}

/// Pixel formats of image and texture data.
#[derive(Debug, Clone, Copy, PartialEq, Eq, Structural)]
pub enum PixelFormat {
    UncompressedGrayscale,
    UncompressedGrayAlpha,
    UncompressedR5g6b5,
    UncompressedR8g8b8,
    UncompressedR5g5b5a1,
    UncompressedR4g4b4a4,
    UncompressedR8g8b8a8,
    UncompressedR32,
    UncompressedR32g32b32,
    UncompressedR32g32b32a32,
    UncompressedR16,
    UncompressedR16g16b16,
    UncompressedR16g16b16a16,
    CompressedDxt1Rgb,
    CompressedDxt1Rgba,
    CompressedDxt3Rgba,
    CompressedDxt5Rgba,
    CompressedEtc1Rgb,
    CompressedEtc2Rgb,
    CompressedEtc2EacRgba,
    CompressedPvrtRgb,
    CompressedPvrtRgba,
    CompressedAstc4x4Rgba,
    CompressedAstc8x8Rgba,
}

impl PixelFormat {
    /// The native code of this variant.
    pub open spec fn spec_code(self) -> i32 {
        match self {
            PixelFormat::UncompressedGrayscale => 1,
            PixelFormat::UncompressedGrayAlpha => 2,
            PixelFormat::UncompressedR5g6b5 => 3,
            PixelFormat::UncompressedR8g8b8 => 4,
            PixelFormat::UncompressedR5g5b5a1 => 5,
            PixelFormat::UncompressedR4g4b4a4 => 6,
            PixelFormat::UncompressedR8g8b8a8 => 7,
            PixelFormat::UncompressedR32 => 8,
            PixelFormat::UncompressedR32g32b32 => 9,
            PixelFormat::UncompressedR32g32b32a32 => 10,
            PixelFormat::UncompressedR16 => 11,
            PixelFormat::UncompressedR16g16b16 => 12,
            PixelFormat::UncompressedR16g16b16a16 => 13,
            PixelFormat::CompressedDxt1Rgb => 14,
            PixelFormat::CompressedDxt1Rgba => 15,
            PixelFormat::CompressedDxt3Rgba => 16,
            PixelFormat::CompressedDxt5Rgba => 17,
            PixelFormat::CompressedEtc1Rgb => 18,
            PixelFormat::CompressedEtc2Rgb => 19,
            PixelFormat::CompressedEtc2EacRgba => 20,
            PixelFormat::CompressedPvrtRgb => 21,
            PixelFormat::CompressedPvrtRgba => 22,
            PixelFormat::CompressedAstc4x4Rgba => 23,
            PixelFormat::CompressedAstc8x8Rgba => 24,
        }
    }

    /// The variant whose native code is `code`, if any.
    pub open spec fn spec_from_code(code: i32) -> Option<PixelFormat> {
        match code {
            1 => Some(PixelFormat::UncompressedGrayscale),
            2 => Some(PixelFormat::UncompressedGrayAlpha),
            3 => Some(PixelFormat::UncompressedR5g6b5),
            4 => Some(PixelFormat::UncompressedR8g8b8),
            5 => Some(PixelFormat::UncompressedR5g5b5a1),
            6 => Some(PixelFormat::UncompressedR4g4b4a4),
            7 => Some(PixelFormat::UncompressedR8g8b8a8),
            8 => Some(PixelFormat::UncompressedR32),
            9 => Some(PixelFormat::UncompressedR32g32b32),
            10 => Some(PixelFormat::UncompressedR32g32b32a32),
            11 => Some(PixelFormat::UncompressedR16),
            12 => Some(PixelFormat::UncompressedR16g16b16),
            13 => Some(PixelFormat::UncompressedR16g16b16a16),
            14 => Some(PixelFormat::CompressedDxt1Rgb),
            15 => Some(PixelFormat::CompressedDxt1Rgba),
            16 => Some(PixelFormat::CompressedDxt3Rgba),
            17 => Some(PixelFormat::CompressedDxt5Rgba),
            18 => Some(PixelFormat::CompressedEtc1Rgb),
            19 => Some(PixelFormat::CompressedEtc2Rgb),
            20 => Some(PixelFormat::CompressedEtc2EacRgba),
            21 => Some(PixelFormat::CompressedPvrtRgb),
            22 => Some(PixelFormat::CompressedPvrtRgba),
            23 => Some(PixelFormat::CompressedAstc4x4Rgba),
            24 => Some(PixelFormat::CompressedAstc8x8Rgba),
            _ => None,
        }
    }

    /// The native code of this variant.
    pub fn code(self) -> (r: i32)
        ensures
            r == self.spec_code(),
    {
        match self {
            PixelFormat::UncompressedGrayscale => 1,
            PixelFormat::UncompressedGrayAlpha => 2,
            PixelFormat::UncompressedR5g6b5 => 3,
            PixelFormat::UncompressedR8g8b8 => 4,
            PixelFormat::UncompressedR5g5b5a1 => 5,
            PixelFormat::UncompressedR4g4b4a4 => 6,
            PixelFormat::UncompressedR8g8b8a8 => 7,
            PixelFormat::UncompressedR32 => 8,
            PixelFormat::UncompressedR32g32b32 => 9,
            PixelFormat::UncompressedR32g32b32a32 => 10,
            PixelFormat::UncompressedR16 => 11,
            PixelFormat::UncompressedR16g16b16 => 12,
            PixelFormat::UncompressedR16g16b16a16 => 13,
            PixelFormat::CompressedDxt1Rgb => 14,
            PixelFormat::CompressedDxt1Rgba => 15,
            PixelFormat::CompressedDxt3Rgba => 16,
            PixelFormat::CompressedDxt5Rgba => 17,
            PixelFormat::CompressedEtc1Rgb => 18,
            PixelFormat::CompressedEtc2Rgb => 19,
            PixelFormat::CompressedEtc2EacRgba => 20,
            PixelFormat::CompressedPvrtRgb => 21,
            PixelFormat::CompressedPvrtRgba => 22,
            PixelFormat::CompressedAstc4x4Rgba => 23,
            PixelFormat::CompressedAstc8x8Rgba => 24,
        }
    }

    /// The variant whose native code is `code`; `None` where no variant has it.
    pub fn from_code(code: i32) -> (r: Option<PixelFormat>)
        ensures
            r == PixelFormat::spec_from_code(code),
            r matches Some(v) ==> v.spec_code() == code,
            r is None ==> forall|v: PixelFormat| v.spec_code() != code,
    {
        match code {
            1 => Some(PixelFormat::UncompressedGrayscale),
            2 => Some(PixelFormat::UncompressedGrayAlpha),
            3 => Some(PixelFormat::UncompressedR5g6b5),
            4 => Some(PixelFormat::UncompressedR8g8b8),
            5 => Some(PixelFormat::UncompressedR5g5b5a1),
            6 => Some(PixelFormat::UncompressedR4g4b4a4),
            7 => Some(PixelFormat::UncompressedR8g8b8a8),
            8 => Some(PixelFormat::UncompressedR32),
            9 => Some(PixelFormat::UncompressedR32g32b32),
            10 => Some(PixelFormat::UncompressedR32g32b32a32),
            11 => Some(PixelFormat::UncompressedR16),
            12 => Some(PixelFormat::UncompressedR16g16b16),
            13 => Some(PixelFormat::UncompressedR16g16b16a16),
            14 => Some(PixelFormat::CompressedDxt1Rgb),
            15 => Some(PixelFormat::CompressedDxt1Rgba),
            16 => Some(PixelFormat::CompressedDxt3Rgba),
            17 => Some(PixelFormat::CompressedDxt5Rgba),
            18 => Some(PixelFormat::CompressedEtc1Rgb),
            19 => Some(PixelFormat::CompressedEtc2Rgb),
            20 => Some(PixelFormat::CompressedEtc2EacRgba),
            21 => Some(PixelFormat::CompressedPvrtRgb),
            22 => Some(PixelFormat::CompressedPvrtRgba),
            23 => Some(PixelFormat::CompressedAstc4x4Rgba),
            24 => Some(PixelFormat::CompressedAstc8x8Rgba),
            _ => None,
        }
    }
}

impl TryFrom<i32> for PixelFormat {
    type Error = ();

    fn try_from(code: i32) -> (r: Result<PixelFormat, ()>) {
        match PixelFormat::from_code(code) {
            Some(v) => Ok(v),
            None => Err(()),
        }
    }
}

impl vstd::std_specs::convert::TryFromSpecImpl<i32> for PixelFormat {
    open spec fn obeys_try_from_spec() -> bool {
        true
    }

    open spec fn try_from_spec(code: i32) -> Result<PixelFormat, ()> {
        match PixelFormat::spec_from_code(code) {
            Some(v) => Ok(v),
            None => Err(()),
        }
    }
}

/// Texture sampling filters.
#[derive(Debug, Clone, Copy, PartialEq, Eq, Structural)]
pub enum TextureFilter {
    Point,
    Bilinear,
    Trilinear,
    Anisotropic4x,
    Anisotropic8x,
    Anisotropic16x,
}

impl TextureFilter {
    /// The native code of this variant.
    pub open spec fn spec_code(self) -> i32 {
        match self {
            TextureFilter::Point => 0,
            TextureFilter::Bilinear => 1,
            TextureFilter::Trilinear => 2,
            TextureFilter::Anisotropic4x => 3,
            TextureFilter::Anisotropic8x => 4,
            TextureFilter::Anisotropic16x => 5,
        }
    }

    /// The variant whose native code is `code`, if any.
    pub open spec fn spec_from_code(code: i32) -> Option<TextureFilter> {
        match code {
            0 => Some(TextureFilter::Point),
            1 => Some(TextureFilter::Bilinear),
            2 => Some(TextureFilter::Trilinear),
            3 => Some(TextureFilter::Anisotropic4x),
            4 => Some(TextureFilter::Anisotropic8x),
            5 => Some(TextureFilter::Anisotropic16x),
            _ => None,
        }
    }

    /// The native code of this variant.
    pub fn code(self) -> (r: i32)
        ensures
            r == self.spec_code(),
    {
        match self {
            TextureFilter::Point => 0,
            TextureFilter::Bilinear => 1,
            TextureFilter::Trilinear => 2,
            TextureFilter::Anisotropic4x => 3,
            TextureFilter::Anisotropic8x => 4,
            TextureFilter::Anisotropic16x => 5,
        }
    }

    /// The variant whose native code is `code`; `None` where no variant has it.
    pub fn from_code(code: i32) -> (r: Option<TextureFilter>)
        ensures
            r == TextureFilter::spec_from_code(code),
            r matches Some(v) ==> v.spec_code() == code,
            r is None ==> forall|v: TextureFilter| v.spec_code() != code,
    {
        match code {
            0 => Some(TextureFilter::Point),
            1 => Some(TextureFilter::Bilinear),
            2 => Some(TextureFilter::Trilinear),
            3 => Some(TextureFilter::Anisotropic4x),
            4 => Some(TextureFilter::Anisotropic8x),
            5 => Some(TextureFilter::Anisotropic16x),
            _ => None,
        }
    }
}

/// Texture wrap modes.
#[derive(Debug, Clone, Copy, PartialEq, Eq, Structural)]
pub enum TextureWrap {
    Repeat,
    Clamp,
    MirrorRepeat,
    MirrorClamp,
}

impl TextureWrap {
    /// The native code of this variant.
    pub open spec fn spec_code(self) -> i32 {
        match self {
            TextureWrap::Repeat => 0,
            TextureWrap::Clamp => 1,
            TextureWrap::MirrorRepeat => 2,
            TextureWrap::MirrorClamp => 3,
        }
    }

    /// The variant whose native code is `code`, if any.
    pub open spec fn spec_from_code(code: i32) -> Option<TextureWrap> {
        match code {
            0 => Some(TextureWrap::Repeat),
            1 => Some(TextureWrap::Clamp),
            2 => Some(TextureWrap::MirrorRepeat),
            3 => Some(TextureWrap::MirrorClamp),
            _ => None,
        }
    }

    /// The native code of this variant.
    pub fn code(self) -> (r: i32)
        ensures
            r == self.spec_code(),
    {
        match self {
            TextureWrap::Repeat => 0,
            TextureWrap::Clamp => 1,
            TextureWrap::MirrorRepeat => 2,
            TextureWrap::MirrorClamp => 3,
        }
    }

    /// The variant whose native code is `code`; `None` where no variant has it.
    pub fn from_code(code: i32) -> (r: Option<TextureWrap>)
        ensures
            r == TextureWrap::spec_from_code(code),
            r matches Some(v) ==> v.spec_code() == code,
            r is None ==> forall|v: TextureWrap| v.spec_code() != code,
    {
        match code {
            0 => Some(TextureWrap::Repeat),
            1 => Some(TextureWrap::Clamp),
            2 => Some(TextureWrap::MirrorRepeat),
            3 => Some(TextureWrap::MirrorClamp),
            _ => None,
        }
    }
}

/// Cubemap layouts.
#[derive(Debug, Clone, Copy, PartialEq, Eq, Structural)]
pub enum CubemapLayout {
    AutoDetect,
    LineVertical,
    LineHorizontal,
    CrossThreeByFour,
    CrossFourByThree,
}

impl CubemapLayout {
    /// The native code of this variant.
    pub open spec fn spec_code(self) -> i32 {
        match self {
            CubemapLayout::AutoDetect => 0,
            CubemapLayout::LineVertical => 1,
            CubemapLayout::LineHorizontal => 2,
            CubemapLayout::CrossThreeByFour => 3,
            CubemapLayout::CrossFourByThree => 4,
        }
    }

    /// The variant whose native code is `code`, if any.
    pub open spec fn spec_from_code(code: i32) -> Option<CubemapLayout> {
        match code {
            0 => Some(CubemapLayout::AutoDetect),
            1 => Some(CubemapLayout::LineVertical),
            2 => Some(CubemapLayout::LineHorizontal),
            3 => Some(CubemapLayout::CrossThreeByFour),
            4 => Some(CubemapLayout::CrossFourByThree),
            _ => None,
        }
    }

    /// The native code of this variant.
    pub fn code(self) -> (r: i32)
        ensures
            r == self.spec_code(),
    {
        match self {
            CubemapLayout::AutoDetect => 0,
            CubemapLayout::LineVertical => 1,
            CubemapLayout::LineHorizontal => 2,
            CubemapLayout::CrossThreeByFour => 3,
            CubemapLayout::CrossFourByThree => 4,
        }
    }

    /// The variant whose native code is `code`; `None` where no variant has it.
    pub fn from_code(code: i32) -> (r: Option<CubemapLayout>)
        ensures
            r == CubemapLayout::spec_from_code(code),
            r matches Some(v) ==> v.spec_code() == code,
            r is None ==> forall|v: CubemapLayout| v.spec_code() != code,
    {
        match code {
            0 => Some(CubemapLayout::AutoDetect),
            1 => Some(CubemapLayout::LineVertical),
            2 => Some(CubemapLayout::LineHorizontal),
            3 => Some(CubemapLayout::CrossThreeByFour),
            4 => Some(CubemapLayout::CrossFourByThree),
            _ => None,
        }
    }
}

/// N-patch layouts.
#[derive(Debug, Clone, Copy, PartialEq, Eq, Structural)]
pub enum NPatchLayout {
    NinePatch,
    ThreePatchVertical,
    ThreePatchHorizontal,
}

impl NPatchLayout {
    /// The native code of this variant.
    pub open spec fn spec_code(self) -> i32 {
        match self {
            NPatchLayout::NinePatch => 0,
            NPatchLayout::ThreePatchVertical => 1,
            NPatchLayout::ThreePatchHorizontal => 2,
        }
    }

    /// The variant whose native code is `code`, if any.
    pub open spec fn spec_from_code(code: i32) -> Option<NPatchLayout> {
        match code {
            0 => Some(NPatchLayout::NinePatch),
            1 => Some(NPatchLayout::ThreePatchVertical),
            2 => Some(NPatchLayout::ThreePatchHorizontal),
            _ => None,
        }
    }

    /// The native code of this variant.
    pub fn code(self) -> (r: i32)
        ensures
            r == self.spec_code(),
    {
        match self {
            NPatchLayout::NinePatch => 0,
            NPatchLayout::ThreePatchVertical => 1,
            NPatchLayout::ThreePatchHorizontal => 2,
        }
    }

    /// The variant whose native code is `code`; `None` where no variant has it.
    pub fn from_code(code: i32) -> (r: Option<NPatchLayout>)
        ensures
            r == NPatchLayout::spec_from_code(code),
            r matches Some(v) ==> v.spec_code() == code,
            r is None ==> forall|v: NPatchLayout| v.spec_code() != code,
    {
        match code {
            0 => Some(NPatchLayout::NinePatch),
            1 => Some(NPatchLayout::ThreePatchVertical),
            2 => Some(NPatchLayout::ThreePatchHorizontal),
            _ => None,
        }
    }
}

/// Camera system modes.
#[derive(Debug, Clone, Copy, PartialEq, Eq, Structural)]
pub enum CameraMode {
    Custom,
    Free,
    Orbital,
    FirstPerson,
    ThirdPerson,
}

impl CameraMode {
    /// The native code of this variant.
    pub open spec fn spec_code(self) -> i32 {
        match self {
            CameraMode::Custom => 0,
            CameraMode::Free => 1,
            CameraMode::Orbital => 2,
            CameraMode::FirstPerson => 3,
            CameraMode::ThirdPerson => 4,
        }
    }

    /// The variant whose native code is `code`, if any.
    pub open spec fn spec_from_code(code: i32) -> Option<CameraMode> {
        match code {
            0 => Some(CameraMode::Custom),
            1 => Some(CameraMode::Free),
            2 => Some(CameraMode::Orbital),
            3 => Some(CameraMode::FirstPerson),
            4 => Some(CameraMode::ThirdPerson),
            _ => None,
        }
    }

    /// The native code of this variant.
    pub fn code(self) -> (r: i32)
        ensures
            r == self.spec_code(),
    {
        match self {
            CameraMode::Custom => 0,
            CameraMode::Free => 1,
            CameraMode::Orbital => 2,
            CameraMode::FirstPerson => 3,
            CameraMode::ThirdPerson => 4,
        }
    }

    /// The variant whose native code is `code`; `None` where no variant has it.
    pub fn from_code(code: i32) -> (r: Option<CameraMode>)
        ensures
            r == CameraMode::spec_from_code(code),
            r matches Some(v) ==> v.spec_code() == code,
            r is None ==> forall|v: CameraMode| v.spec_code() != code,
    {
        match code {
            0 => Some(CameraMode::Custom),
            1 => Some(CameraMode::Free),
            2 => Some(CameraMode::Orbital),
            3 => Some(CameraMode::FirstPerson),
            4 => Some(CameraMode::ThirdPerson),
            _ => None,
        }
    }
}

/// Camera projections.
#[derive(Debug, Clone, Copy, PartialEq, Eq, Structural)]
pub enum CameraProjection {
    Perspective,
    Orthographic,
}

impl CameraProjection {
    /// The native code of this variant.
    pub open spec fn spec_code(self) -> i32 {
        match self {
            CameraProjection::Perspective => 0,
            CameraProjection::Orthographic => 1,
        }
    }

    /// The variant whose native code is `code`, if any.
    pub open spec fn spec_from_code(code: i32) -> Option<CameraProjection> {
        match code {
            0 => Some(CameraProjection::Perspective),
            1 => Some(CameraProjection::Orthographic),
            _ => None,
        }
    }

    /// The native code of this variant.
    pub fn code(self) -> (r: i32)
        ensures
            r == self.spec_code(),
    {
        match self {
            CameraProjection::Perspective => 0,
            CameraProjection::Orthographic => 1,
        }
    }

    /// The variant whose native code is `code`; `None` where no variant has it.
    pub fn from_code(code: i32) -> (r: Option<CameraProjection>)
        ensures
            r == CameraProjection::spec_from_code(code),
            r matches Some(v) ==> v.spec_code() == code,
            r is None ==> forall|v: CameraProjection| v.spec_code() != code,
    {
        match code {
            0 => Some(CameraProjection::Perspective),
            1 => Some(CameraProjection::Orthographic),
            _ => None,
        }
    }
}

/// Font generation methods.
#[derive(Debug, Clone, Copy, PartialEq, Eq, Structural)]
pub enum FontType {
    FontDefault,
    FontBitmap,
    FontSdf,
}

impl FontType {
    /// The native code of this variant.
    pub open spec fn spec_code(self) -> i32 {
        match self {
            FontType::FontDefault => 0,
            FontType::FontBitmap => 1,
            FontType::FontSdf => 2,
        }
    }

    /// The variant whose native code is `code`, if any.
    pub open spec fn spec_from_code(code: i32) -> Option<FontType> {
        match code {
            0 => Some(FontType::FontDefault),
            1 => Some(FontType::FontBitmap),
            2 => Some(FontType::FontSdf),
            _ => None,
        }
    }

    /// The native code of this variant.
    pub fn code(self) -> (r: i32)
        ensures
            r == self.spec_code(),
    {
        match self {
            FontType::FontDefault => 0,
            FontType::FontBitmap => 1,
            FontType::FontSdf => 2,
        }
    }

    /// The variant whose native code is `code`; `None` where no variant has it.
    pub fn from_code(code: i32) -> (r: Option<FontType>)
        ensures
            r == FontType::spec_from_code(code),
            r matches Some(v) ==> v.spec_code() == code,
            r is None ==> forall|v: FontType| v.spec_code() != code,
    {
        match code {
            0 => Some(FontType::FontDefault),
            1 => Some(FontType::FontBitmap),
            2 => Some(FontType::FontSdf),
            _ => None,
        }
    }
}

/// Trace log levels, by priority.
#[derive(Debug, Clone, Copy, PartialEq, Eq, Structural)]
pub enum TraceLogLevel {
    All,
    Trace,
    Debug,
    Info,
    Warning,
    Error,
    Fatal,
    Off,
}

impl TraceLogLevel {
    /// The native code of this variant.
    pub open spec fn spec_code(self) -> i32 {
        match self {
            TraceLogLevel::All => 0,
            TraceLogLevel::Trace => 1,
            TraceLogLevel::Debug => 2,
            TraceLogLevel::Info => 3,
            TraceLogLevel::Warning => 4,
            TraceLogLevel::Error => 5,
            TraceLogLevel::Fatal => 6,
            TraceLogLevel::Off => 7,
        }
    }

    /// The variant whose native code is `code`, if any.
    pub open spec fn spec_from_code(code: i32) -> Option<TraceLogLevel> {
        match code {
            0 => Some(TraceLogLevel::All),
            1 => Some(TraceLogLevel::Trace),
            2 => Some(TraceLogLevel::Debug),
            3 => Some(TraceLogLevel::Info),
            4 => Some(TraceLogLevel::Warning),
            5 => Some(TraceLogLevel::Error),
            6 => Some(TraceLogLevel::Fatal),
            7 => Some(TraceLogLevel::Off),
            _ => None,
        }
    }

    /// The native code of this variant.
    pub fn code(self) -> (r: i32)
        ensures
            r == self.spec_code(),
    {
        match self {
            TraceLogLevel::All => 0,
            TraceLogLevel::Trace => 1,
            TraceLogLevel::Debug => 2,
            TraceLogLevel::Info => 3,
            TraceLogLevel::Warning => 4,
            TraceLogLevel::Error => 5,
            TraceLogLevel::Fatal => 6,
            TraceLogLevel::Off => 7,
        }
    }

    /// The variant whose native code is `code`; `None` where no variant has it.
    pub fn from_code(code: i32) -> (r: Option<TraceLogLevel>)
        ensures
            r == TraceLogLevel::spec_from_code(code),
            r matches Some(v) ==> v.spec_code() == code,
            r is None ==> forall|v: TraceLogLevel| v.spec_code() != code,
    {
        match code {
            0 => Some(TraceLogLevel::All),
            1 => Some(TraceLogLevel::Trace),
            2 => Some(TraceLogLevel::Debug),
            3 => Some(TraceLogLevel::Info),
            4 => Some(TraceLogLevel::Warning),
            5 => Some(TraceLogLevel::Error),
            6 => Some(TraceLogLevel::Fatal),
            7 => Some(TraceLogLevel::Off),
            _ => None,
        }
    }
}

/// Material map slots.
#[derive(Debug, Clone, Copy, PartialEq, Eq, Structural)]
pub enum MaterialMapIndex {
    Albedo,
    Metalness,
    Normal,
    Roughness,
    Occlusion,
    Emission,
    Height,
    Cubemap,
    Irradiance,
    Prefilter,
    Brdf,
}

impl MaterialMapIndex {
    /// The native code of this variant.
    pub open spec fn spec_code(self) -> i32 {
        match self {
            MaterialMapIndex::Albedo => 0,
            MaterialMapIndex::Metalness => 1,
            MaterialMapIndex::Normal => 2,
            MaterialMapIndex::Roughness => 3,
            MaterialMapIndex::Occlusion => 4,
            MaterialMapIndex::Emission => 5,
            MaterialMapIndex::Height => 6,
            MaterialMapIndex::Cubemap => 7,
            MaterialMapIndex::Irradiance => 8,
            MaterialMapIndex::Prefilter => 9,
            MaterialMapIndex::Brdf => 10,
        }
    }

    /// The variant whose native code is `code`, if any.
    pub open spec fn spec_from_code(code: i32) -> Option<MaterialMapIndex> {
        match code {
            0 => Some(MaterialMapIndex::Albedo),
            1 => Some(MaterialMapIndex::Metalness),
            2 => Some(MaterialMapIndex::Normal),
            3 => Some(MaterialMapIndex::Roughness),
            4 => Some(MaterialMapIndex::Occlusion),
            5 => Some(MaterialMapIndex::Emission),
            6 => Some(MaterialMapIndex::Height),
            7 => Some(MaterialMapIndex::Cubemap),
            8 => Some(MaterialMapIndex::Irradiance),
            9 => Some(MaterialMapIndex::Prefilter),
            10 => Some(MaterialMapIndex::Brdf),
            _ => None,
        }
    }

    /// The native code of this variant.
    pub fn code(self) -> (r: i32)
        ensures
            r == self.spec_code(),
    {
        match self {
            MaterialMapIndex::Albedo => 0,
            MaterialMapIndex::Metalness => 1,
            MaterialMapIndex::Normal => 2,
            MaterialMapIndex::Roughness => 3,
            MaterialMapIndex::Occlusion => 4,
            MaterialMapIndex::Emission => 5,
            MaterialMapIndex::Height => 6,
            MaterialMapIndex::Cubemap => 7,
            MaterialMapIndex::Irradiance => 8,
            MaterialMapIndex::Prefilter => 9,
            MaterialMapIndex::Brdf => 10,
        }
    }

    /// The variant whose native code is `code`; `None` where no variant has it.
    pub fn from_code(code: i32) -> (r: Option<MaterialMapIndex>)
        ensures
            r == MaterialMapIndex::spec_from_code(code),
            r matches Some(v) ==> v.spec_code() == code,
            r is None ==> forall|v: MaterialMapIndex| v.spec_code() != code,
    {
        match code {
            0 => Some(MaterialMapIndex::Albedo),
            1 => Some(MaterialMapIndex::Metalness),
            2 => Some(MaterialMapIndex::Normal),
            3 => Some(MaterialMapIndex::Roughness),
            4 => Some(MaterialMapIndex::Occlusion),
            5 => Some(MaterialMapIndex::Emission),
            6 => Some(MaterialMapIndex::Height),
            7 => Some(MaterialMapIndex::Cubemap),
            8 => Some(MaterialMapIndex::Irradiance),
            9 => Some(MaterialMapIndex::Prefilter),
            10 => Some(MaterialMapIndex::Brdf),
            _ => None,
        }
    }
}

/// Predefined shader location slots.
#[derive(Debug, Clone, Copy, PartialEq, Eq, Structural)]
pub enum ShaderLocationIndex {
    VertexPosition,
    VertexTexCoord01,
    VertexTexCoord02,
    VertexNormal,
    VertexTangent,
    VertexColor,
    MatrixMvp,
    MatrixView,
    MatrixProjection,
    MatrixModel,
    MatrixNormal,
    VectorView,
    ColorDiffuse,
    ColorSpecular,
    ColorAmbient,
    MapAlbedo,
    MapMetalness,
    MapNormal,
    MapRoughness,
    MapOcclusion,
    MapEmission,
    MapHeight,
    MapCubemap,
    MapIrradiance,
    MapPrefilter,
    MapBrdf,
    VertexBoneIds,
    VertexBoneWeights,
    BoneMatrices,
    VertexInstanceTx,
}

impl ShaderLocationIndex {
    /// The native code of this variant.
    pub open spec fn spec_code(self) -> i32 {
        match self {
            ShaderLocationIndex::VertexPosition => 0,
            ShaderLocationIndex::VertexTexCoord01 => 1,
            ShaderLocationIndex::VertexTexCoord02 => 2,
            ShaderLocationIndex::VertexNormal => 3,
            ShaderLocationIndex::VertexTangent => 4,
            ShaderLocationIndex::VertexColor => 5,
            ShaderLocationIndex::MatrixMvp => 6,
            ShaderLocationIndex::MatrixView => 7,
            ShaderLocationIndex::MatrixProjection => 8,
            ShaderLocationIndex::MatrixModel => 9,
            ShaderLocationIndex::MatrixNormal => 10,
            ShaderLocationIndex::VectorView => 11,
            ShaderLocationIndex::ColorDiffuse => 12,
            ShaderLocationIndex::ColorSpecular => 13,
            ShaderLocationIndex::ColorAmbient => 14,
            ShaderLocationIndex::MapAlbedo => 15,
            ShaderLocationIndex::MapMetalness => 16,
            ShaderLocationIndex::MapNormal => 17,
            ShaderLocationIndex::MapRoughness => 18,
            ShaderLocationIndex::MapOcclusion => 19,
            ShaderLocationIndex::MapEmission => 20,
            ShaderLocationIndex::MapHeight => 21,
            ShaderLocationIndex::MapCubemap => 22,
            ShaderLocationIndex::MapIrradiance => 23,
            ShaderLocationIndex::MapPrefilter => 24,
            ShaderLocationIndex::MapBrdf => 25,
            ShaderLocationIndex::VertexBoneIds => 26,
            ShaderLocationIndex::VertexBoneWeights => 27,
            ShaderLocationIndex::BoneMatrices => 28,
            ShaderLocationIndex::VertexInstanceTx => 29,
        }
    }

    /// The variant whose native code is `code`, if any.
    pub open spec fn spec_from_code(code: i32) -> Option<ShaderLocationIndex> {
        match code {
            0 => Some(ShaderLocationIndex::VertexPosition),
            1 => Some(ShaderLocationIndex::VertexTexCoord01),
            2 => Some(ShaderLocationIndex::VertexTexCoord02),
            3 => Some(ShaderLocationIndex::VertexNormal),
            4 => Some(ShaderLocationIndex::VertexTangent),
            5 => Some(ShaderLocationIndex::VertexColor),
            6 => Some(ShaderLocationIndex::MatrixMvp),
            7 => Some(ShaderLocationIndex::MatrixView),
            8 => Some(ShaderLocationIndex::MatrixProjection),
            9 => Some(ShaderLocationIndex::MatrixModel),
            10 => Some(ShaderLocationIndex::MatrixNormal),
            11 => Some(ShaderLocationIndex::VectorView),
            12 => Some(ShaderLocationIndex::ColorDiffuse),
            13 => Some(ShaderLocationIndex::ColorSpecular),
            14 => Some(ShaderLocationIndex::ColorAmbient),
            15 => Some(ShaderLocationIndex::MapAlbedo),
            16 => Some(ShaderLocationIndex::MapMetalness),
            17 => Some(ShaderLocationIndex::MapNormal),
            18 => Some(ShaderLocationIndex::MapRoughness),
            19 => Some(ShaderLocationIndex::MapOcclusion),
            20 => Some(ShaderLocationIndex::MapEmission),
            21 => Some(ShaderLocationIndex::MapHeight),
            22 => Some(ShaderLocationIndex::MapCubemap),
            23 => Some(ShaderLocationIndex::MapIrradiance),
            24 => Some(ShaderLocationIndex::MapPrefilter),
            25 => Some(ShaderLocationIndex::MapBrdf),
            26 => Some(ShaderLocationIndex::VertexBoneIds),
            27 => Some(ShaderLocationIndex::VertexBoneWeights),
            28 => Some(ShaderLocationIndex::BoneMatrices),
            29 => Some(ShaderLocationIndex::VertexInstanceTx),
            _ => None,
        }
    }

    /// The native code of this variant.
    pub fn code(self) -> (r: i32)
        ensures
            r == self.spec_code(),
    {
        match self {
            ShaderLocationIndex::VertexPosition => 0,
            ShaderLocationIndex::VertexTexCoord01 => 1,
            ShaderLocationIndex::VertexTexCoord02 => 2,
            ShaderLocationIndex::VertexNormal => 3,
            ShaderLocationIndex::VertexTangent => 4,
            ShaderLocationIndex::VertexColor => 5,
            ShaderLocationIndex::MatrixMvp => 6,
            ShaderLocationIndex::MatrixView => 7,
            ShaderLocationIndex::MatrixProjection => 8,
            ShaderLocationIndex::MatrixModel => 9,
            ShaderLocationIndex::MatrixNormal => 10,
            ShaderLocationIndex::VectorView => 11,
            ShaderLocationIndex::ColorDiffuse => 12,
            ShaderLocationIndex::ColorSpecular => 13,
            ShaderLocationIndex::ColorAmbient => 14,
            ShaderLocationIndex::MapAlbedo => 15,
            ShaderLocationIndex::MapMetalness => 16,
            ShaderLocationIndex::MapNormal => 17,
            ShaderLocationIndex::MapRoughness => 18,
            ShaderLocationIndex::MapOcclusion => 19,
            ShaderLocationIndex::MapEmission => 20,
            ShaderLocationIndex::MapHeight => 21,
            ShaderLocationIndex::MapCubemap => 22,
            ShaderLocationIndex::MapIrradiance => 23,
            ShaderLocationIndex::MapPrefilter => 24,
            ShaderLocationIndex::MapBrdf => 25,
            ShaderLocationIndex::VertexBoneIds => 26,
            ShaderLocationIndex::VertexBoneWeights => 27,
            ShaderLocationIndex::BoneMatrices => 28,
            ShaderLocationIndex::VertexInstanceTx => 29,
        }
    }

    /// The variant whose native code is `code`; `None` where no variant has it.
    pub fn from_code(code: i32) -> (r: Option<ShaderLocationIndex>)
        ensures
            r == ShaderLocationIndex::spec_from_code(code),
            r matches Some(v) ==> v.spec_code() == code,
            r is None ==> forall|v: ShaderLocationIndex| v.spec_code() != code,
    {
        match code {
            0 => Some(ShaderLocationIndex::VertexPosition),
            1 => Some(ShaderLocationIndex::VertexTexCoord01),
            2 => Some(ShaderLocationIndex::VertexTexCoord02),
            3 => Some(ShaderLocationIndex::VertexNormal),
            4 => Some(ShaderLocationIndex::VertexTangent),
            5 => Some(ShaderLocationIndex::VertexColor),
            6 => Some(ShaderLocationIndex::MatrixMvp),
            7 => Some(ShaderLocationIndex::MatrixView),
            8 => Some(ShaderLocationIndex::MatrixProjection),
            9 => Some(ShaderLocationIndex::MatrixModel),
            10 => Some(ShaderLocationIndex::MatrixNormal),
            11 => Some(ShaderLocationIndex::VectorView),
            12 => Some(ShaderLocationIndex::ColorDiffuse),
            13 => Some(ShaderLocationIndex::ColorSpecular),
            14 => Some(ShaderLocationIndex::ColorAmbient),
            15 => Some(ShaderLocationIndex::MapAlbedo),
            16 => Some(ShaderLocationIndex::MapMetalness),
            17 => Some(ShaderLocationIndex::MapNormal),
            18 => Some(ShaderLocationIndex::MapRoughness),
            19 => Some(ShaderLocationIndex::MapOcclusion),
            20 => Some(ShaderLocationIndex::MapEmission),
            21 => Some(ShaderLocationIndex::MapHeight),
            22 => Some(ShaderLocationIndex::MapCubemap),
            23 => Some(ShaderLocationIndex::MapIrradiance),
            24 => Some(ShaderLocationIndex::MapPrefilter),
            25 => Some(ShaderLocationIndex::MapBrdf),
            26 => Some(ShaderLocationIndex::VertexBoneIds),
            27 => Some(ShaderLocationIndex::VertexBoneWeights),
            28 => Some(ShaderLocationIndex::BoneMatrices),
            29 => Some(ShaderLocationIndex::VertexInstanceTx),
            _ => None,
        }
    }
}

/// Data types of shader uniforms.
#[derive(Debug, Clone, Copy, PartialEq, Eq, Structural)]
pub enum ShaderUniformDataType {
    Float,
    Vec2,
    Vec3,
    Vec4,
    Int,
    Ivec2,
    Ivec3,
    Ivec4,
    Uint,
    Uivec2,
    Uivec3,
    Uivec4,
    Sampler2d,
}

impl ShaderUniformDataType {
    /// The native code of this variant.
    pub open spec fn spec_code(self) -> i32 {
        match self {
            ShaderUniformDataType::Float => 0,
            ShaderUniformDataType::Vec2 => 1,
            ShaderUniformDataType::Vec3 => 2,
            ShaderUniformDataType::Vec4 => 3,
            ShaderUniformDataType::Int => 4,
            ShaderUniformDataType::Ivec2 => 5,
            ShaderUniformDataType::Ivec3 => 6,
            ShaderUniformDataType::Ivec4 => 7,
            ShaderUniformDataType::Uint => 8,
            ShaderUniformDataType::Uivec2 => 9,
            ShaderUniformDataType::Uivec3 => 10,
            ShaderUniformDataType::Uivec4 => 11,
            ShaderUniformDataType::Sampler2d => 12,
        }
    }

    /// The variant whose native code is `code`, if any.
    pub open spec fn spec_from_code(code: i32) -> Option<ShaderUniformDataType> {
        match code {
            0 => Some(ShaderUniformDataType::Float),
            1 => Some(ShaderUniformDataType::Vec2),
            2 => Some(ShaderUniformDataType::Vec3),
            3 => Some(ShaderUniformDataType::Vec4),
            4 => Some(ShaderUniformDataType::Int),
            5 => Some(ShaderUniformDataType::Ivec2),
            6 => Some(ShaderUniformDataType::Ivec3),
            7 => Some(ShaderUniformDataType::Ivec4),
            8 => Some(ShaderUniformDataType::Uint),
            9 => Some(ShaderUniformDataType::Uivec2),
            10 => Some(ShaderUniformDataType::Uivec3),
            11 => Some(ShaderUniformDataType::Uivec4),
            12 => Some(ShaderUniformDataType::Sampler2d),
            _ => None,
        }
    }

    /// The native code of this variant.
    pub fn code(self) -> (r: i32)
        ensures
            r == self.spec_code(),
    {
        match self {
            ShaderUniformDataType::Float => 0,
            ShaderUniformDataType::Vec2 => 1,
            ShaderUniformDataType::Vec3 => 2,
            ShaderUniformDataType::Vec4 => 3,
            ShaderUniformDataType::Int => 4,
            ShaderUniformDataType::Ivec2 => 5,
            ShaderUniformDataType::Ivec3 => 6,
            ShaderUniformDataType::Ivec4 => 7,
            ShaderUniformDataType::Uint => 8,
            ShaderUniformDataType::Uivec2 => 9,
            ShaderUniformDataType::Uivec3 => 10,
            ShaderUniformDataType::Uivec4 => 11,
            ShaderUniformDataType::Sampler2d => 12,
        }
    }

    /// The variant whose native code is `code`; `None` where no variant has it.
    pub fn from_code(code: i32) -> (r: Option<ShaderUniformDataType>)
        ensures
            r == ShaderUniformDataType::spec_from_code(code),
            r matches Some(v) ==> v.spec_code() == code,
            r is None ==> forall|v: ShaderUniformDataType| v.spec_code() != code,
    {
        match code {
            0 => Some(ShaderUniformDataType::Float),
            1 => Some(ShaderUniformDataType::Vec2),
            2 => Some(ShaderUniformDataType::Vec3),
            3 => Some(ShaderUniformDataType::Vec4),
            4 => Some(ShaderUniformDataType::Int),
            5 => Some(ShaderUniformDataType::Ivec2),
            6 => Some(ShaderUniformDataType::Ivec3),
            7 => Some(ShaderUniformDataType::Ivec4),
            8 => Some(ShaderUniformDataType::Uint),
            9 => Some(ShaderUniformDataType::Uivec2),
            10 => Some(ShaderUniformDataType::Uivec3),
            11 => Some(ShaderUniformDataType::Uivec4),
            12 => Some(ShaderUniformDataType::Sampler2d),
            _ => None,
        }
    }
}

/// Data types of shader attributes.
#[derive(Debug, Clone, Copy, PartialEq, Eq, Structural)]
pub enum ShaderAttributeDataType {
    Float,
    Vec2,
    Vec3,
    Vec4,
}

impl ShaderAttributeDataType {
    /// The native code of this variant.
    pub open spec fn spec_code(self) -> i32 {
        match self {
            ShaderAttributeDataType::Float => 0,
            ShaderAttributeDataType::Vec2 => 1,
            ShaderAttributeDataType::Vec3 => 2,
            ShaderAttributeDataType::Vec4 => 3,
        }
    }

    /// The variant whose native code is `code`, if any.
    pub open spec fn spec_from_code(code: i32) -> Option<ShaderAttributeDataType> {
        match code {
            0 => Some(ShaderAttributeDataType::Float),
            1 => Some(ShaderAttributeDataType::Vec2),
            2 => Some(ShaderAttributeDataType::Vec3),
            3 => Some(ShaderAttributeDataType::Vec4),
            _ => None,
        }
    }

    /// The native code of this variant.
    pub fn code(self) -> (r: i32)
        ensures
            r == self.spec_code(),
    {
        match self {
            ShaderAttributeDataType::Float => 0,
            ShaderAttributeDataType::Vec2 => 1,
            ShaderAttributeDataType::Vec3 => 2,
            ShaderAttributeDataType::Vec4 => 3,
        }
    }

    /// The variant whose native code is `code`; `None` where no variant has it.
    pub fn from_code(code: i32) -> (r: Option<ShaderAttributeDataType>)
        ensures
            r == ShaderAttributeDataType::spec_from_code(code),
            r matches Some(v) ==> v.spec_code() == code,
            r is None ==> forall|v: ShaderAttributeDataType| v.spec_code() != code,
    {
        match code {
            0 => Some(ShaderAttributeDataType::Float),
            1 => Some(ShaderAttributeDataType::Vec2),
            2 => Some(ShaderAttributeDataType::Vec3),
            3 => Some(ShaderAttributeDataType::Vec4),
            _ => None,
        }
    }
}

/// Color blending modes.
#[derive(Debug, Clone, Copy, PartialEq, Eq, Structural)]
pub enum BlendMode {
    Alpha,
    Additive,
    Multiplied,
    AddColors,
    SubtractColors,
    AlphaPremultiply,
    Custom,
    CustomSeparate,
}

impl BlendMode {
    /// The native code of this variant.
    pub open spec fn spec_code(self) -> i32 {
        match self {
            BlendMode::Alpha => 0,
            BlendMode::Additive => 1,
            BlendMode::Multiplied => 2,
            BlendMode::AddColors => 3,
            BlendMode::SubtractColors => 4,
            BlendMode::AlphaPremultiply => 5,
            BlendMode::Custom => 6,
            BlendMode::CustomSeparate => 7,
        }
    }

    /// The variant whose native code is `code`, if any.
    pub open spec fn spec_from_code(code: i32) -> Option<BlendMode> {
        match code {
            0 => Some(BlendMode::Alpha),
            1 => Some(BlendMode::Additive),
            2 => Some(BlendMode::Multiplied),
            3 => Some(BlendMode::AddColors),
            4 => Some(BlendMode::SubtractColors),
            5 => Some(BlendMode::AlphaPremultiply),
            6 => Some(BlendMode::Custom),
            7 => Some(BlendMode::CustomSeparate),
            _ => None,
        }
    }

    /// The native code of this variant.
    pub fn code(self) -> (r: i32)
        ensures
            r == self.spec_code(),
    {
        match self {
            BlendMode::Alpha => 0,
            BlendMode::Additive => 1,
            BlendMode::Multiplied => 2,
            BlendMode::AddColors => 3,
            BlendMode::SubtractColors => 4,
            BlendMode::AlphaPremultiply => 5,
            BlendMode::Custom => 6,
            BlendMode::CustomSeparate => 7,
        }
    }

    /// The variant whose native code is `code`; `None` where no variant has it.
    pub fn from_code(code: i32) -> (r: Option<BlendMode>)
        ensures
            r == BlendMode::spec_from_code(code),
            r matches Some(v) ==> v.spec_code() == code,
            r is None ==> forall|v: BlendMode| v.spec_code() != code,
    {
        match code {
            0 => Some(BlendMode::Alpha),
            1 => Some(BlendMode::Additive),
            2 => Some(BlendMode::Multiplied),
            3 => Some(BlendMode::AddColors),
            4 => Some(BlendMode::SubtractColors),
            5 => Some(BlendMode::AlphaPremultiply),
            6 => Some(BlendMode::Custom),
            7 => Some(BlendMode::CustomSeparate),
            _ => None,
        }
    }
}

/// Conversion of button codes is exact: a variant's code converts back to
/// that variant, a code that some variant has converts to that variant
/// alone, and a code that no variant has is reported as unrecognised
/// rather than taken for a nearby variant.
pub proof fn lemma_button_codes_exact(code: i32, v: GamepadButton)
    ensures
        GamepadButton::spec_from_code(v.spec_code()) == Some(v),
        GamepadButton::spec_from_code(code) matches Some(x) ==> x.spec_code() == code,
        (forall|x: GamepadButton| x.spec_code() != code) ==> GamepadButton::spec_from_code(code) is None,
{
    if let Some(x) = GamepadButton::spec_from_code(code) {
        assert(x.spec_code() == code);
    }
}

/// Conversion of axis codes is exact: a variant's code converts back to
/// that variant, a code that some variant has converts to that variant
/// alone, and a code that no variant has is reported as unrecognised
/// rather than taken for a nearby variant.
pub proof fn lemma_axis_codes_exact(code: i32, v: GamepadAxis)
    ensures
        GamepadAxis::spec_from_code(v.spec_code()) == Some(v),
        GamepadAxis::spec_from_code(code) matches Some(x) ==> x.spec_code() == code,
        (forall|x: GamepadAxis| x.spec_code() != code) ==> GamepadAxis::spec_from_code(code) is None,
{
    if let Some(x) = GamepadAxis::spec_from_code(code) {
        assert(x.spec_code() == code);
    }
}

/// Conversion of key codes is exact: a variant's code converts back to
/// that variant, a code that some variant has converts to that variant
/// alone, and a code that no variant has is reported as unrecognised
/// rather than taken for a nearby variant.
pub proof fn lemma_key_codes_exact(code: i32, v: KeyboardKey)
    ensures
        KeyboardKey::spec_from_code(v.spec_code()) == Some(v),
        KeyboardKey::spec_from_code(code) matches Some(x) ==> x.spec_code() == code,
        (forall|x: KeyboardKey| x.spec_code() != code) ==> KeyboardKey::spec_from_code(code) is None,
{
    if let Some(x) = KeyboardKey::spec_from_code(code) {
        assert(x.spec_code() == code);
    }
}

} // verus!
