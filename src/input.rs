//! Keys of the calculator's keypad.
use vstd::prelude::*;

verus! {

/// A key of the keypad, whatever the model. Some keys exist only on some models.
#[derive(PartialEq, Eq, Structural, Clone, Copy, Debug, Hash)]
#[non_exhaustive]
pub enum Key {
    Key0,
    Key1,
    Key2,
    Key3,
    Key4,
    Key5,
    Key6,
    Key7,
    Key8,
    Key9,
    A,
    B,
    C,
    D,
    E,
    F,
    G,
    H,
    I,
    J,
    K,
    L,
    M,
    N,
    O,
    P,
    Q,
    R,
    S,
    T,
    U,
    V,
    W,
    X,
    Y,
    Z,
    Up,
    UpRight,
    Right,
    RightDown,
    Down,
    DownLeft,
    Left,
    LeftUp,
    Click,
    Catalog,
    Comma,
    Ctrl,
    Del,
    Divide,
    Doc,
    EE,
    Enter,
    Equals,
    Esc,
    Exponent,
    Flag,
    /// To the left of the catalog key
    Template,
    /// Also known as "Home"
    On,
    LeftParenthesis,
    Menu,
    Minus,
    Multiply,
    /// To the right of the period, left of enter
    Negative,
    Period,
    /// Under the EE, above the comma, to the left of the H
    Pi,
    Plus,
    /// Above the flag, to the right of the G. It has a question mark, exclamation mark, and
    /// a rightwards arrow.
    QuestionExclamation,
    Return,
    RightParenthesis,
    /// The calculator icon, under escape. Shown as *pad* in firebird-emu.
    Scratchpad,
    Shift,
    Space,
    /// x²
    Squared,
    Tab,
    /// 10ˣ
    TenExp,
    Trig,
    Var,
    /// eˣ
    EExp,

    /// Not available on TI-Nspire CX
    Apostrophe,
    /// Not available on TI-Nspire CX
    Bar,
    /// Not available on TI-Nspire CX
    Colon,
    /// Not available on TI-Nspire CX
    Cos,
    /// Not available on TI-Nspire CX
    GreaterThan,
    /// Not available on TI-Nspire CX
    II,
    /// Not available on TI-Nspire CX
    LessThan,
    /// Not available on TI-Nspire CX
    Question,
    /// Not available on TI-Nspire CX
    Quote,
    /// Not available on TI-Nspire CX
    Sin,
    /// Not available on TI-Nspire CX
    Tan,
    /// Not available on TI-Nspire CX
    Theta,
}


/// Keys in the scan table.
pub const KEY_COUNT: usize = 91;

/// Where the keypad matrix reports a key: its row and column, the row and
/// column on a touchpad keypad, and the touchpad arrow it stands for, if any.
#[derive(PartialEq, Eq, Structural, Debug, Clone, Copy, Hash)]
pub struct RawKey {
    pub row: i32,
    pub col: i32,
    pub tpad_row: i32,
    pub tpad_col: i32,
    pub tpad_arrow: u32,
}

/// The key at position `i` of the scan table.
pub open spec fn key_at(i: int) -> Key {
    if i == 0 {
        Key::Key0
    } else if i == 1 {
        Key::Key1
    } else if i == 2 {
        Key::Key2
    } else if i == 3 {
        Key::Key3
    } else if i == 4 {
        Key::Key4
    } else if i == 5 {
        Key::Key5
    } else if i == 6 {
        Key::Key6
    } else if i == 7 {
        Key::Key7
    } else if i == 8 {
        Key::Key8
    } else if i == 9 {
        Key::Key9
    } else if i == 10 {
        Key::A
    } else if i == 11 {
        Key::Apostrophe
    } else if i == 12 {
        Key::B
    } else if i == 13 {
        Key::Bar
    } else if i == 14 {
        Key::C
    } else if i == 15 {
        Key::Catalog
    } else if i == 16 {
        Key::Click
    } else if i == 17 {
        Key::Colon
    } else if i == 18 {
        Key::Comma
    } else if i == 19 {
        Key::Cos
    } else if i == 20 {
        Key::Ctrl
    } else if i == 21 {
        Key::D
    } else if i == 22 {
        Key::Del
    } else if i == 23 {
        Key::Divide
    } else if i == 24 {
        Key::Doc
    } else if i == 25 {
        Key::Down
    } else if i == 26 {
        Key::DownLeft
    } else if i == 27 {
        Key::E
    } else if i == 28 {
        Key::EE
    } else if i == 29 {
        Key::Enter
    } else if i == 30 {
        Key::Equals
    } else if i == 31 {
        Key::Esc
    } else if i == 32 {
        Key::Exponent
    } else if i == 33 {
        Key::F
    } else if i == 34 {
        Key::Flag
    } else if i == 35 {
        Key::Template
    } else if i == 36 {
        Key::G
    } else if i == 37 {
        Key::GreaterThan
    } else if i == 38 {
        Key::H
    } else if i == 39 {
        Key::On
    } else if i == 40 {
        Key::I
    } else if i == 41 {
        Key::II
    } else if i == 42 {
        Key::J
    } else if i == 43 {
        Key::K
    } else if i == 44 {
        Key::L
    } else if i == 45 {
        Key::Left
    } else if i == 46 {
        Key::LeftUp
    } else if i == 47 {
        Key::LeftParenthesis
    } else if i == 48 {
        Key::LessThan
    } else if i == 49 {
        Key::M
    } else if i == 50 {
        Key::Menu
    } else if i == 51 {
        Key::Minus
    } else if i == 52 {
        Key::Multiply
    } else if i == 53 {
        Key::N
    } else if i == 54 {
        Key::Negative
    } else if i == 55 {
        Key::O
    } else if i == 56 {
        Key::P
    } else if i == 57 {
        Key::Period
    } else if i == 58 {
        Key::Pi
    } else if i == 59 {
        Key::Plus
    } else if i == 60 {
        Key::Q
    } else if i == 61 {
        Key::Question
    } else if i == 62 {
        Key::QuestionExclamation
    } else if i == 63 {
        Key::Quote
    } else if i == 64 {
        Key::R
    } else if i == 65 {
        Key::Return
    } else if i == 66 {
        Key::Right
    } else if i == 67 {
        Key::RightDown
    } else if i == 68 {
        Key::RightParenthesis
    } else if i == 69 {
        Key::S
    } else if i == 70 {
        Key::Scratchpad
    } else if i == 71 {
        Key::Shift
    } else if i == 72 {
        Key::Sin
    } else if i == 73 {
        Key::Space
    } else if i == 74 {
        Key::Squared
    } else if i == 75 {
        Key::T
    } else if i == 76 {
        Key::Tab
    } else if i == 77 {
        Key::Tan
    } else if i == 78 {
        Key::TenExp
    } else if i == 79 {
        Key::Theta
    } else if i == 80 {
        Key::Trig
    } else if i == 81 {
        Key::U
    } else if i == 82 {
        Key::Up
    } else if i == 83 {
        Key::UpRight
    } else if i == 84 {
        Key::V
    } else if i == 85 {
        Key::Var
    } else if i == 86 {
        Key::W
    } else if i == 87 {
        Key::X
    } else if i == 88 {
        Key::Y
    } else if i == 89 {
        Key::Z
    } else {
        Key::EExp
    }
}

/// The position of `k` in the scan table.
pub open spec fn table_index(k: Key) -> int {
    match k {
        Key::Key0 => 0,
        Key::Key1 => 1,
        Key::Key2 => 2,
        Key::Key3 => 3,
        Key::Key4 => 4,
        Key::Key5 => 5,
        Key::Key6 => 6,
        Key::Key7 => 7,
        Key::Key8 => 8,
        Key::Key9 => 9,
        Key::A => 10,
        Key::Apostrophe => 11,
        Key::B => 12,
        Key::Bar => 13,
        Key::C => 14,
        Key::Catalog => 15,
        Key::Click => 16,
        Key::Colon => 17,
        Key::Comma => 18,
        Key::Cos => 19,
        Key::Ctrl => 20,
        Key::D => 21,
        Key::Del => 22,
        Key::Divide => 23,
        Key::Doc => 24,
        Key::Down => 25,
        Key::DownLeft => 26,
        Key::E => 27,
        Key::EE => 28,
        Key::Enter => 29,
        Key::Equals => 30,
        Key::Esc => 31,
        Key::Exponent => 32,
        Key::F => 33,
        Key::Flag => 34,
        Key::Template => 35,
        Key::G => 36,
        Key::GreaterThan => 37,
        Key::H => 38,
        Key::On => 39,
        Key::I => 40,
        Key::II => 41,
        Key::J => 42,
        Key::K => 43,
        Key::L => 44,
        Key::Left => 45,
        Key::LeftUp => 46,
        Key::LeftParenthesis => 47,
        Key::LessThan => 48,
        Key::M => 49,
        Key::Menu => 50,
        Key::Minus => 51,
        Key::Multiply => 52,
        Key::N => 53,
        Key::Negative => 54,
        Key::O => 55,
        Key::P => 56,
        Key::Period => 57,
        Key::Pi => 58,
        Key::Plus => 59,
        Key::Q => 60,
        Key::Question => 61,
        Key::QuestionExclamation => 62,
        Key::Quote => 63,
        Key::R => 64,
        Key::Return => 65,
        Key::Right => 66,
        Key::RightDown => 67,
        Key::RightParenthesis => 68,
        Key::S => 69,
        Key::Scratchpad => 70,
        Key::Shift => 71,
        Key::Sin => 72,
        Key::Space => 73,
        Key::Squared => 74,
        Key::T => 75,
        Key::Tab => 76,
        Key::Tan => 77,
        Key::TenExp => 78,
        Key::Theta => 79,
        Key::Trig => 80,
        Key::U => 81,
        Key::Up => 82,
        Key::UpRight => 83,
        Key::V => 84,
        Key::Var => 85,
        Key::W => 86,
        Key::X => 87,
        Key::Y => 88,
        Key::Z => 89,
        Key::EExp => 90,
    }
}

/// The key at position `i` of the scan table.
pub fn table_key(i: usize) -> (k: Key)
    requires
        i < KEY_COUNT,
    ensures
        k == key_at(i as int),
{
    match i {
        0 => Key::Key0,
        1 => Key::Key1,
        2 => Key::Key2,
        3 => Key::Key3,
        4 => Key::Key4,
        5 => Key::Key5,
        6 => Key::Key6,
        7 => Key::Key7,
        8 => Key::Key8,
        9 => Key::Key9,
        10 => Key::A,
        11 => Key::Apostrophe,
        12 => Key::B,
        13 => Key::Bar,
        14 => Key::C,
        15 => Key::Catalog,
        16 => Key::Click,
        17 => Key::Colon,
        18 => Key::Comma,
        19 => Key::Cos,
        20 => Key::Ctrl,
        21 => Key::D,
        22 => Key::Del,
        23 => Key::Divide,
        24 => Key::Doc,
        25 => Key::Down,
        26 => Key::DownLeft,
        27 => Key::E,
        28 => Key::EE,
        29 => Key::Enter,
        30 => Key::Equals,
        31 => Key::Esc,
        32 => Key::Exponent,
        33 => Key::F,
        34 => Key::Flag,
        35 => Key::Template,
        36 => Key::G,
        37 => Key::GreaterThan,
        38 => Key::H,
        39 => Key::On,
        40 => Key::I,
        41 => Key::II,
        42 => Key::J,
        43 => Key::K,
        44 => Key::L,
        45 => Key::Left,
        46 => Key::LeftUp,
        47 => Key::LeftParenthesis,
        48 => Key::LessThan,
        49 => Key::M,
        50 => Key::Menu,
        51 => Key::Minus,
        52 => Key::Multiply,
        53 => Key::N,
        54 => Key::Negative,
        55 => Key::O,
        56 => Key::P,
        57 => Key::Period,
        58 => Key::Pi,
        59 => Key::Plus,
        60 => Key::Q,
        61 => Key::Question,
        62 => Key::QuestionExclamation,
        63 => Key::Quote,
        64 => Key::R,
        65 => Key::Return,
        66 => Key::Right,
        67 => Key::RightDown,
        68 => Key::RightParenthesis,
        69 => Key::S,
        70 => Key::Scratchpad,
        71 => Key::Shift,
        72 => Key::Sin,
        73 => Key::Space,
        74 => Key::Squared,
        75 => Key::T,
        76 => Key::Tab,
        77 => Key::Tan,
        78 => Key::TenExp,
        79 => Key::Theta,
        80 => Key::Trig,
        81 => Key::U,
        82 => Key::Up,
        83 => Key::UpRight,
        84 => Key::V,
        85 => Key::Var,
        86 => Key::W,
        87 => Key::X,
        88 => Key::Y,
        89 => Key::Z,
        _ => Key::EExp,
    }
}

/// The position of `k` in the scan table.
pub fn key_index(k: Key) -> (i: usize)
    ensures
        i == table_index(k),
        i < KEY_COUNT,
{
    match k {
        Key::Key0 => 0,
        Key::Key1 => 1,
        Key::Key2 => 2,
        Key::Key3 => 3,
        Key::Key4 => 4,
        Key::Key5 => 5,
        Key::Key6 => 6,
        Key::Key7 => 7,
        Key::Key8 => 8,
        Key::Key9 => 9,
        Key::A => 10,
        Key::Apostrophe => 11,
        Key::B => 12,
        Key::Bar => 13,
        Key::C => 14,
        Key::Catalog => 15,
        Key::Click => 16,
        Key::Colon => 17,
        Key::Comma => 18,
        Key::Cos => 19,
        Key::Ctrl => 20,
        Key::D => 21,
        Key::Del => 22,
        Key::Divide => 23,
        Key::Doc => 24,
        Key::Down => 25,
        Key::DownLeft => 26,
        Key::E => 27,
        Key::EE => 28,
        Key::Enter => 29,
        Key::Equals => 30,
        Key::Esc => 31,
        Key::Exponent => 32,
        Key::F => 33,
        Key::Flag => 34,
        Key::Template => 35,
        Key::G => 36,
        Key::GreaterThan => 37,
        Key::H => 38,
        Key::On => 39,
        Key::I => 40,
        Key::II => 41,
        Key::J => 42,
        Key::K => 43,
        Key::L => 44,
        Key::Left => 45,
        Key::LeftUp => 46,
        Key::LeftParenthesis => 47,
        Key::LessThan => 48,
        Key::M => 49,
        Key::Menu => 50,
        Key::Minus => 51,
        Key::Multiply => 52,
        Key::N => 53,
        Key::Negative => 54,
        Key::O => 55,
        Key::P => 56,
        Key::Period => 57,
        Key::Pi => 58,
        Key::Plus => 59,
        Key::Q => 60,
        Key::Question => 61,
        Key::QuestionExclamation => 62,
        Key::Quote => 63,
        Key::R => 64,
        Key::Return => 65,
        Key::Right => 66,
        Key::RightDown => 67,
        Key::RightParenthesis => 68,
        Key::S => 69,
        Key::Scratchpad => 70,
        Key::Shift => 71,
        Key::Sin => 72,
        Key::Space => 73,
        Key::Squared => 74,
        Key::T => 75,
        Key::Tab => 76,
        Key::Tan => 77,
        Key::TenExp => 78,
        Key::Theta => 79,
        Key::Trig => 80,
        Key::U => 81,
        Key::Up => 82,
        Key::UpRight => 83,
        Key::V => 84,
        Key::Var => 85,
        Key::W => 86,
        Key::X => 87,
        Key::Y => 88,
        Key::Z => 89,
        Key::EExp => 90,
    }
}

/// Where the matrix reports the key at position `i` of the scan table.
pub open spec fn raw_at(i: int) -> (i32, i32, i32, i32, u32) {
    if i == 0 {
        (0x10, 0x80, 0x10, 0x80, 0)
    } else if i == 1 {
        (0x12, 0x80, 0x12, 0x80, 0)
    } else if i == 2 {
        (0x12, 0x20, 0x1c, 0x10, 0)
    } else if i == 3 {
        (0x12, 0x8, 0x12, 0x8, 0)
    } else if i == 4 {
        (0x14, 0x80, 0x14, 0x80, 0)
    } else if i == 5 {
        (0x14, 0x20, 0x1a, 0x40, 0)
    } else if i == 6 {
        (0x14, 0x8, 0x14, 0x8, 0)
    } else if i == 7 {
        (0x16, 0x80, 0x16, 0x80, 0)
    } else if i == 8 {
        (0x16, 0x20, 0x1c, 0x40, 0)
    } else if i == 9 {
        (0x16, 0x8, 0x16, 0x8, 0)
    } else if i == 10 {
        (0x1c, 0x40, 0x18, 0x40, 0)
    } else if i == 11 {
        (0x1a, 0x1, 0x1a, 0x1, 0)
    } else if i == 12 {
        (0x1c, 0x10, 0x18, 0x20, 0)
    } else if i == 13 {
        (0x1c, 0x100, 0x1c, 0x100, 0)
    } else if i == 14 {
        (0x1c, 0x4, 0x18, 0x10, 0)
    } else if i == 15 {
        (0x1a, 0x2, 0x1a, 0x80, 0)
    } else if i == 16 {
        (0x1c, 0x2, 0x1c, 0x2, 9)
    } else if i == 17 {
        (0x16, 0x1, 0x1c, 0x400, 0)
    } else if i == 18 {
        (0x12, 0x1, 0x1e, 0x400, 0)
    } else if i == 19 {
        (0x18, 0x20, 0x1c, 0x400, 0)
    } else if i == 20 {
        (0x1e, 0x200, 0x1e, 0x200, 0)
    } else if i == 21 {
        (0x1a, 0x100, 0x18, 0x4, 0)
    } else if i == 22 {
        (0x1e, 0x100, 0x1a, 0x200, 0)
    } else if i == 23 {
        (0x18, 0x2, 0x16, 0x100, 0)
    } else if i == 24 {
        (0x1c, 0x400, 0x1c, 0x8, 0)
    } else if i == 25 {
        (0x1e, 0x10, 0x1e, 0x10, 5)
    } else if i == 26 {
        (0x1e, 0x20, 0x1e, 0x20, 6)
    } else if i == 27 {
        (0x1a, 0x40, 0x18, 0x2, 0)
    } else if i == 28 {
        (0x14, 0x400, 0x14, 0x100, 0)
    } else if i == 29 {
        (0x10, 0x2, 0x10, 0x2, 0)
    } else if i == 30 {
        (0x1e, 0x400, 0x18, 0x80, 0)
    } else if i == 31 {
        (0x1c, 0x80, 0x1c, 0x80, 0)
    } else if i == 32 {
        (0x18, 0x200, 0x18, 0x200, 0)
    } else if i == 33 {
        (0x1a, 0x10, 0x18, 0x1, 0)
    } else if i == 34 {
        (0x1c, 0x1, 0x1c, 0x1, 0)
    } else if i == 35 {
        (0x1c, 0x400, 0x1a, 0x100, 0)
    } else if i == 36 {
        (0x1a, 0x4, 0x16, 0x40, 0)
    } else if i == 37 {
        (0x18, 0x400, 0x1c, 0x400, 0)
    } else if i == 38 {
        (0x18, 0x100, 0x16, 0x20, 0)
    } else if i == 39 {
        (0x1c, 0x8, 0x10, 0x200, 0)
    } else if i == 40 {
        (0x18, 0x40, 0x16, 0x10, 0)
    } else if i == 41 {
        (0x16, 0x400, 0x1c, 0x400, 0)
    } else if i == 42 {
        (0x18, 0x10, 0x16, 0x4, 0)
    } else if i == 43 {
        (0x18, 0x4, 0x16, 0x2, 0)
    } else if i == 44 {
        (0x16, 0x100, 0x16, 0x1, 0)
    } else if i == 45 {
        (0x1e, 0x40, 0x1e, 0x40, 7)
    } else if i == 46 {
        (0x1e, 0x80, 0x1e, 0x80, 8)
    } else if i == 47 {
        (0x1a, 0x20, 0x1a, 0x20, 0)
    } else if i == 48 {
        (0x1a, 0x400, 0x1c, 0x400, 0)
    } else if i == 49 {
        (0x16, 0x40, 0x14, 0x40, 0)
    } else if i == 50 {
        (0x1c, 0x20, 0x1c, 0x20, 0)
    } else if i == 51 {
        (0x14, 0x2, 0x1a, 0x4, 0)
    } else if i == 52 {
        (0x16, 0x2, 0x18, 0x100, 0)
    } else if i == 53 {
        (0x16, 0x10, 0x14, 0x20, 0)
    } else if i == 54 {
        (0x10, 0x8, 0x10, 0x8, 0)
    } else if i == 55 {
        (0x16, 0x4, 0x14, 0x10, 0)
    } else if i == 56 {
        (0x14, 0x100, 0x14, 0x4, 0)
    } else if i == 57 {
        (0x10, 0x20, 0x1a, 0x10, 0)
    } else if i == 58 {
        (0x12, 0x400, 0x12, 0x100, 0)
    } else if i == 59 {
        (0x12, 0x2, 0x1c, 0x4, 0)
    } else if i == 60 {
        (0x14, 0x40, 0x14, 0x2, 0)
    } else if i == 61 {
        (0x14, 0x1, 0x1c, 0x400, 0)
    } else if i == 62 {
        (0x1c, 0x400, 0x10, 0x100, 0)
    } else if i == 63 {
        (0x18, 0x1, 0x1c, 0x400, 0)
    } else if i == 64 {
        (0x14, 0x10, 0x14, 0x1, 0)
    } else if i == 65 {
        (0x10, 0x1, 0x10, 0x1, 0)
    } else if i == 66 {
        (0x1e, 0x4, 0x1e, 0x4, 3)
    } else if i == 67 {
        (0x1e, 0x8, 0x1e, 0x8, 4)
    } else if i == 68 {
        (0x1a, 0x8, 0x1a, 0x8, 0)
    } else if i == 69 {
        (0x14, 0x4, 0x12, 0x40, 0)
    } else if i == 70 {
        (0x1c, 0x400, 0x1a, 0x400, 0)
    } else if i == 71 {
        (0x1a, 0x200, 0x1e, 0x100, 0)
    } else if i == 72 {
        (0x18, 0x80, 0x1c, 0x400, 0)
    } else if i == 73 {
        (0x10, 0x4, 0x10, 0x10, 0)
    } else if i == 74 {
        (0x16, 0x200, 0x14, 0x200, 0)
    } else if i == 75 {
        (0x12, 0x100, 0x12, 0x20, 0)
    } else if i == 76 {
        (0x1c, 0x200, 0x1c, 0x200, 0)
    } else if i == 77 {
        (0x18, 0x8, 0x18, 0x8, 0)
    } else if i == 78 {
        (0x14, 0x200, 0x12, 0x400, 0)
    } else if i == 79 {
        (0x10, 0x400, 0x1c, 0x400, 0)
    } else if i == 80 {
        (0x1c, 0x400, 0x12, 0x200, 0)
    } else if i == 81 {
        (0x12, 0x40, 0x12, 0x10, 0)
    } else if i == 82 {
        (0x1e, 0x1, 0x1e, 0x1, 1)
    } else if i == 83 {
        (0x1e, 0x2, 0x1e, 0x2, 2)
    } else if i == 84 {
        (0x12, 0x10, 0x12, 0x4, 0)
    } else if i == 85 {
        (0x1a, 0x80, 0x1a, 0x2, 0)
    } else if i == 86 {
        (0x12, 0x4, 0x12, 0x2, 0)
    } else if i == 87 {
        (0x10, 0x100, 0x12, 0x1, 0)
    } else if i == 88 {
        (0x10, 0x40, 0x10, 0x40, 0)
    } else if i == 89 {
        (0x10, 0x10, 0x10, 0x20, 0)
    } else {
        (0x12, 0x200, 0x16, 0x200, 0)
    }
}

/// Where the matrix reports the key at position `i` of the scan table.
pub fn raw_key_at(i: usize) -> (r: RawKey)
    requires
        i < KEY_COUNT,
    ensures
        (r.row, r.col, r.tpad_row, r.tpad_col, r.tpad_arrow) == raw_at(i as int),
{
    let (row, col, tpad_row, tpad_col, tpad_arrow) = match i {
        0 => (0x10, 0x80, 0x10, 0x80, 0),
        1 => (0x12, 0x80, 0x12, 0x80, 0),
        2 => (0x12, 0x20, 0x1c, 0x10, 0),
        3 => (0x12, 0x8, 0x12, 0x8, 0),
        4 => (0x14, 0x80, 0x14, 0x80, 0),
        5 => (0x14, 0x20, 0x1a, 0x40, 0),
        6 => (0x14, 0x8, 0x14, 0x8, 0),
        7 => (0x16, 0x80, 0x16, 0x80, 0),
        8 => (0x16, 0x20, 0x1c, 0x40, 0),
        9 => (0x16, 0x8, 0x16, 0x8, 0),
        10 => (0x1c, 0x40, 0x18, 0x40, 0),
        11 => (0x1a, 0x1, 0x1a, 0x1, 0),
        12 => (0x1c, 0x10, 0x18, 0x20, 0),
        13 => (0x1c, 0x100, 0x1c, 0x100, 0),
        14 => (0x1c, 0x4, 0x18, 0x10, 0),
        15 => (0x1a, 0x2, 0x1a, 0x80, 0),
        16 => (0x1c, 0x2, 0x1c, 0x2, 9),
        17 => (0x16, 0x1, 0x1c, 0x400, 0),
        18 => (0x12, 0x1, 0x1e, 0x400, 0),
        19 => (0x18, 0x20, 0x1c, 0x400, 0),
        20 => (0x1e, 0x200, 0x1e, 0x200, 0),
        21 => (0x1a, 0x100, 0x18, 0x4, 0),
        22 => (0x1e, 0x100, 0x1a, 0x200, 0),
        23 => (0x18, 0x2, 0x16, 0x100, 0),
        24 => (0x1c, 0x400, 0x1c, 0x8, 0),
        25 => (0x1e, 0x10, 0x1e, 0x10, 5),
        26 => (0x1e, 0x20, 0x1e, 0x20, 6),
        27 => (0x1a, 0x40, 0x18, 0x2, 0),
        28 => (0x14, 0x400, 0x14, 0x100, 0),
        29 => (0x10, 0x2, 0x10, 0x2, 0),
        30 => (0x1e, 0x400, 0x18, 0x80, 0),
        31 => (0x1c, 0x80, 0x1c, 0x80, 0),
        32 => (0x18, 0x200, 0x18, 0x200, 0),
        33 => (0x1a, 0x10, 0x18, 0x1, 0),
        34 => (0x1c, 0x1, 0x1c, 0x1, 0),
        35 => (0x1c, 0x400, 0x1a, 0x100, 0),
        36 => (0x1a, 0x4, 0x16, 0x40, 0),
        37 => (0x18, 0x400, 0x1c, 0x400, 0),
        38 => (0x18, 0x100, 0x16, 0x20, 0),
        39 => (0x1c, 0x8, 0x10, 0x200, 0),
        40 => (0x18, 0x40, 0x16, 0x10, 0),
        41 => (0x16, 0x400, 0x1c, 0x400, 0),
        42 => (0x18, 0x10, 0x16, 0x4, 0),
        43 => (0x18, 0x4, 0x16, 0x2, 0),
        44 => (0x16, 0x100, 0x16, 0x1, 0),
        45 => (0x1e, 0x40, 0x1e, 0x40, 7),
        46 => (0x1e, 0x80, 0x1e, 0x80, 8),
        47 => (0x1a, 0x20, 0x1a, 0x20, 0),
        48 => (0x1a, 0x400, 0x1c, 0x400, 0),
        49 => (0x16, 0x40, 0x14, 0x40, 0),
        50 => (0x1c, 0x20, 0x1c, 0x20, 0),
        51 => (0x14, 0x2, 0x1a, 0x4, 0),
        52 => (0x16, 0x2, 0x18, 0x100, 0),
        53 => (0x16, 0x10, 0x14, 0x20, 0),
        54 => (0x10, 0x8, 0x10, 0x8, 0),
        55 => (0x16, 0x4, 0x14, 0x10, 0),
        56 => (0x14, 0x100, 0x14, 0x4, 0),
        57 => (0x10, 0x20, 0x1a, 0x10, 0),
        58 => (0x12, 0x400, 0x12, 0x100, 0),
        59 => (0x12, 0x2, 0x1c, 0x4, 0),
        60 => (0x14, 0x40, 0x14, 0x2, 0),
        61 => (0x14, 0x1, 0x1c, 0x400, 0),
        62 => (0x1c, 0x400, 0x10, 0x100, 0),
        63 => (0x18, 0x1, 0x1c, 0x400, 0),
        64 => (0x14, 0x10, 0x14, 0x1, 0),
        65 => (0x10, 0x1, 0x10, 0x1, 0),
        66 => (0x1e, 0x4, 0x1e, 0x4, 3),
        67 => (0x1e, 0x8, 0x1e, 0x8, 4),
        68 => (0x1a, 0x8, 0x1a, 0x8, 0),
        69 => (0x14, 0x4, 0x12, 0x40, 0),
        70 => (0x1c, 0x400, 0x1a, 0x400, 0),
        71 => (0x1a, 0x200, 0x1e, 0x100, 0),
        72 => (0x18, 0x80, 0x1c, 0x400, 0),
        73 => (0x10, 0x4, 0x10, 0x10, 0),
        74 => (0x16, 0x200, 0x14, 0x200, 0),
        75 => (0x12, 0x100, 0x12, 0x20, 0),
        76 => (0x1c, 0x200, 0x1c, 0x200, 0),
        77 => (0x18, 0x8, 0x18, 0x8, 0),
        78 => (0x14, 0x200, 0x12, 0x400, 0),
        79 => (0x10, 0x400, 0x1c, 0x400, 0),
        80 => (0x1c, 0x400, 0x12, 0x200, 0),
        81 => (0x12, 0x40, 0x12, 0x10, 0),
        82 => (0x1e, 0x1, 0x1e, 0x1, 1),
        83 => (0x1e, 0x2, 0x1e, 0x2, 2),
        84 => (0x12, 0x10, 0x12, 0x4, 0),
        85 => (0x1a, 0x80, 0x1a, 0x2, 0),
        86 => (0x12, 0x4, 0x12, 0x2, 0),
        87 => (0x10, 0x100, 0x12, 0x1, 0),
        88 => (0x10, 0x40, 0x10, 0x40, 0),
        89 => (0x10, 0x10, 0x10, 0x20, 0),
        _ => (0x12, 0x200, 0x16, 0x200, 0),
    };
    RawKey { row, col, tpad_row, tpad_col, tpad_arrow }
}

} // verus!

verus! {

/// Each position of the scan table holds its own key: reading the key at a
/// position and looking it up gives the position back.
pub proof fn lemma_table_inverse(i: int)
    requires
        0 <= i < KEY_COUNT,
    ensures
        table_index(key_at(i)) == i,
{
}

/// The keys whose flag is set, in the order of the scan table.
pub open spec fn keys_among(flags: Seq<bool>) -> Seq<Key>
    decreases flags.len(),
{
    if flags.len() == 0 {
        Seq::empty()
    } else {
        let i = flags.len() - 1;
        keys_among(flags.drop_last()) + if flags[i] {
            seq![key_at(i)]
        } else {
            Seq::empty()
        }
    }
}

/// The keys pressed, given one flag per position of the scan table, in the
/// order of the table; no key appears twice.
pub fn get_keys(pressed: &Vec<bool>) -> (r: Vec<Key>)
    requires
        pressed@.len() == KEY_COUNT,
    ensures
        r@ == keys_among(pressed@),
        r@.no_duplicates(),
{
    let mut r: Vec<Key> = Vec::new();
    let mut i: usize = 0;
    while i < pressed.len()
        invariant
            i <= pressed@.len(),
            pressed@.len() == KEY_COUNT,
            r@ == keys_among(pressed@.take(i as int)),
            r@.no_duplicates(),
            forall|t: int| 0 <= t < r@.len() ==> table_index(#[trigger] r@[t]) < i,
        decreases pressed@.len() - i,
    {
        assert(pressed@.take(i + 1).drop_last() =~= pressed@.take(i as int));
        if pressed[i] {
            let k = table_key(i);
            proof {
                lemma_table_inverse(i as int);
                assert forall|t: int| 0 <= t < r@.len() implies r@[t] != k by {
                    assert(table_index(r@[t]) < i);
                }
            }
            r.push(k);
        }
        i = i + 1;
    }
    assert(pressed@.take(pressed@.len() as int) =~= pressed@);
    r
}

} // verus!

verus! {

impl Key {
    /// The arrow key a touchpad reports for its raw arrow code, if any.
    pub open spec fn spec_from_arrow(arrow: u8) -> Option<Key> {
        if arrow == 9 {
            Some(Key::Click)
        } else if arrow == 1 {
            Some(Key::Up)
        } else if arrow == 2 {
            Some(Key::UpRight)
        } else if arrow == 3 {
            Some(Key::Right)
        } else if arrow == 4 {
            Some(Key::RightDown)
        } else if arrow == 5 {
            Some(Key::Down)
        } else if arrow == 6 {
            Some(Key::DownLeft)
        } else if arrow == 7 {
            Some(Key::Left)
        } else if arrow == 8 {
            Some(Key::LeftUp)
        } else {
            None
        }
    }

    pub fn from_arrow(arrow: u8) -> (r: Option<Key>)
        ensures
            r == Key::spec_from_arrow(arrow),
    {
        match arrow {
            9 => Some(Key::Click),
            1 => Some(Key::Up),
            2 => Some(Key::UpRight),
            3 => Some(Key::Right),
            4 => Some(Key::RightDown),
            5 => Some(Key::Down),
            6 => Some(Key::DownLeft),
            7 => Some(Key::Left),
            8 => Some(Key::LeftUp),
            _ => None,
        }
    }
}

/// One reading of the touchpad.
#[derive(Eq, PartialEq, Structural, Debug, Clone, Copy, Hash)]
pub struct TouchpadReport {
    pub contact: bool,
    pub proximity: u8,
    pub x: u16,
    pub y: u16,
    pub x_vel: u8,
    pub y_vel: u8,
    pub pressed: bool,
    pub arrow: Option<Key>,
}

impl TouchpadReport {
    /// Decodes the fields of a raw touchpad report. The contact byte, a C
    /// boolean, counts as true when it is not zero; it also gives `pressed`.
    pub fn from_raw(contact: u8, proximity: u8, x: u16, y: u16, x_velocity: u8, y_velocity: u8, arrow: u8) -> (r: TouchpadReport)
        ensures
            r == (TouchpadReport {
                contact: contact > 0,
                proximity,
                x,
                y,
                x_vel: x_velocity,
                y_vel: y_velocity,
                pressed: contact > 0,
                arrow: Key::spec_from_arrow(arrow),
            }),
    {
        TouchpadReport {
            contact: contact > 0,
            proximity,
            x,
            y,
            x_vel: x_velocity,
            y_vel: y_velocity,
            pressed: contact > 0,
            arrow: Key::from_arrow(arrow),
        }
    }
}

} // verus!
