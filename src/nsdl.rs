//! Plain values of the font bindings.
use vstd::prelude::*;

verus! {

/// One of the built-in fonts.
#[derive(PartialEq, Eq, Structural, Copy, Clone, Debug)]
pub enum FontOptions {
    Thin,
    Space,
    VGA,
    Fantasy,
    ThinType,
}

impl FontOptions {
    /// The library's number for the font.
    pub fn code(&self) -> (r: i32)
        ensures
            r == match self {
                FontOptions::Thin => 0i32,
                FontOptions::Space => 1i32,
                FontOptions::VGA => 2i32,
                FontOptions::Fantasy => 3i32,
                FontOptions::ThinType => 4i32,
            },
    {
        match self {
            FontOptions::Thin => 0,
            FontOptions::Space => 1,
            FontOptions::VGA => 2,
            FontOptions::Fantasy => 3,
            FontOptions::ThinType => 4,
        }
    }
}

} // verus!
