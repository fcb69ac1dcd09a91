//! What the calculator reports about itself, decoded from the raw values that
//! the operating system returns.
use vstd::prelude::*;

verus! {

/// The hardware family.
#[derive(PartialEq, Eq, Structural, Debug, Clone, Copy, Hash)]
pub enum Type {
    Nspire,
    NspireCX,
    Future(u32),
}

/// Decodes the raw hardware type: 0 for the classic models, 1 for the CX, any
/// other value for a model this library does not know.
pub fn hw_type(raw: u32) -> (r: Type)
    ensures
        r == (if raw == 0 {
            Type::Nspire
        } else if raw == 1 {
            Type::NspireCX
        } else {
            Type::Future(raw)
        }),
{
    match raw {
        0 => Type::Nspire,
        1 => Type::NspireCX,
        future => Type::Future(future),
    }
}

/// True on a classic TI-Nspire, given the raw hardware type.
pub fn is_classic(raw_type: u32) -> (r: bool)
    ensures
        r == (raw_type < 1),
{
    raw_type < 1
}

/// True on a TI-Nspire CM or CM-C, given the raw hardware subtype.
pub fn is_cm(raw_subtype: u32) -> (r: bool)
    ensures
        r == (raw_subtype == 1),
{
    raw_subtype == 1
}

/// True if the screen has colors, given the raw hardware type.
pub fn has_colors(raw_type: u32) -> (r: bool)
    ensures
        r == (raw_type >= 1),
{
    !is_classic(raw_type)
}

/// True on a TI-Nspire Touchpad or CX, given the raw flag.
pub fn has_touchpad(raw_flag: u32) -> (r: bool)
    ensures
        r == (raw_flag > 0),
{
    raw_flag > 0
}

/// The screen's mode.
#[derive(PartialEq, Eq, Structural, Debug, Clone, Copy, Hash)]
pub enum Screen {
    /// 4bit grayscale. Native on classic calcs.
    Screen320x240x4,
    /// 8bit paletted mode.
    Screen320x240x8,
    /// RGB444
    Screen320x240x16,
    /// RGB565. Native on CX before HW-W
    Screen320x240x565,
    /// RGB565. Native on CX HW-W
    Screen240x320x565,
    Screen320x240x555,
    Screen240x320x555,
    Unknown,
}

/// The screen mode for the operating system's raw screen type code.
pub open spec fn screen_of(raw: i32) -> Screen {
    if raw == 0 {
        Screen::Screen320x240x565
    } else if raw == 1 {
        Screen::Screen320x240x4
    } else if raw == 2 {
        Screen::Screen240x320x565
    } else if raw == 3 {
        Screen::Screen320x240x16
    } else if raw == 4 {
        Screen::Screen320x240x8
    } else if raw == 5 {
        Screen::Screen320x240x555
    } else if raw == 6 {
        Screen::Screen240x320x555
    } else {
        Screen::Unknown
    }
}

/// Decodes the raw screen type code.
pub fn lcd_type(raw: i32) -> (r: Screen)
    ensures
        r == screen_of(raw),
{
    match raw {
        0 => Screen::Screen320x240x565,
        1 => Screen::Screen320x240x4,
        2 => Screen::Screen240x320x565,
        3 => Screen::Screen320x240x16,
        4 => Screen::Screen320x240x8,
        5 => Screen::Screen320x240x555,
        6 => Screen::Screen240x320x555,
        _ => Screen::Unknown,
    }
}

} // verus!
