//! Message boxes: the buttons a dialog reports.
use vstd::prelude::*;

verus! {

/// The button the user chose in a dialog, counted from the first.
#[derive(Debug, Eq, PartialEq, Structural, Copy, Clone, Ord, PartialOrd, Hash)]
pub enum Button {
    One,
    Two,
    Three,
}

impl Button {
    /// The number the dialog reports for this button.
    pub open spec fn spec_code(&self) -> u32 {
        match self {
            Button::One => 1,
            Button::Two => 2,
            Button::Three => 3,
        }
    }

    pub fn code(&self) -> (r: u32)
        ensures
            r == self.spec_code(),
    {
        match self {
            Button::One => 1,
            Button::Two => 2,
            Button::Three => 3,
        }
    }

    /// The button a dialog's result stands for; `None` for a result that is
    /// no button of a dialog with `buttons` buttons.
    pub fn from_code(code: u32, buttons: u32) -> (r: Option<Button>)
        ensures
            r matches Some(b) ==> b.spec_code() == code,
            r is Some <==> (1 <= code && code <= buttons && code <= 3),
    {
        if code < 1 || code > buttons {
            None
        } else if code == 1 {
            Some(Button::One)
        } else if code == 2 {
            Some(Button::Two)
        } else if code == 3 {
            Some(Button::Three)
        } else {
            None
        }
    }
}

} // verus!
