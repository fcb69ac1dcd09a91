//! Plain values of the SDL bindings: rectangles, subsystem flags and error
//! codes, and the bit masks exchanged with the library.
use vstd::prelude::*;

verus! {

/// A rectangle: its top-left corner and its size.
#[derive(PartialEq, Eq, Structural, Copy, Clone, Debug)]
pub struct Rect {
    pub x: i16,
    pub y: i16,
    pub w: u16,
    pub h: u16,
}

#[allow(non_snake_case)]
pub fn Rect(x: i16, y: i16, w: u16, h: u16) -> (r: Rect)
    ensures
        r == (Rect { x, y, w, h }),
{
    Rect { x, y, w, h }
}

impl Rect {
    pub fn new(x: i16, y: i16, w: u16, h: u16) -> (r: Rect)
        ensures
            r == (Rect { x, y, w, h }),
    {
        Rect { x, y, w, h }
    }
}

/// A subsystem to start, stop or query.
#[derive(PartialEq, Eq, Structural, Debug, Copy, Clone, Hash)]
pub enum InitFlag {
    Timer,
    Audio,
    Video,
    CDRom,
    Joystick,
    NoParachute,
    EventThread,
    Everything,
}

impl InitFlag {
    /// The flag's bit.
    pub open spec fn spec_bits(&self) -> u32 {
        match self {
            InitFlag::Timer => 0x1,
            InitFlag::Audio => 0x10,
            InitFlag::Video => 0x20,
            InitFlag::CDRom => 0x100,
            InitFlag::Joystick => 0x200,
            InitFlag::NoParachute => 0x100000,
            InitFlag::EventThread => 0x1000000,
            InitFlag::Everything => 0xffff,
        }
    }

    pub fn bits(&self) -> (r: u32)
        ensures
            r == self.spec_bits(),
    {
        match self {
            InitFlag::Timer => 0x1,
            InitFlag::Audio => 0x10,
            InitFlag::Video => 0x20,
            InitFlag::CDRom => 0x100,
            InitFlag::Joystick => 0x200,
            InitFlag::NoParachute => 0x100000,
            InitFlag::EventThread => 0x1000000,
            InitFlag::Everything => 0xffff,
        }
    }
}

/// The bits of all of `flags`, or-ed together.
pub open spec fn mask_of(flags: Seq<InitFlag>) -> u32
    decreases flags.len(),
{
    if flags.len() == 0 {
        0
    } else {
        mask_of(flags.drop_last()) | flags.last().spec_bits()
    }
}

/// The bits of all of `flags`, or-ed together, as the library expects them.
pub fn init_mask(flags: &Vec<InitFlag>) -> (r: u32)
    ensures
        r == mask_of(flags@),
{
    let mut r: u32 = 0;
    let mut i: usize = 0;
    while i < flags.len()
        invariant
            i <= flags@.len(),
            r == mask_of(flags@.take(i as int)),
        decreases flags@.len() - i,
    {
        assert(flags@.take(i + 1).drop_last() =~= flags@.take(i as int));
        r = r | flags[i].bits();
        i = i + 1;
    }
    assert(flags@.take(flags@.len() as int) =~= flags@);
    r
}

/// The flag if `bits` holds its bit, nothing otherwise.
pub open spec fn if_set(bits: u32, flag: InitFlag) -> Seq<InitFlag> {
    if bits & flag.spec_bits() != 0 {
        seq![flag]
    } else {
        Seq::empty()
    }
}

/// The flags whose bit `bits` holds, in declaration order.
pub open spec fn flags_in(bits: u32) -> Seq<InitFlag> {
        if_set(bits, InitFlag::Timer) + if_set(bits, InitFlag::Audio) + if_set(bits, InitFlag::Video) + if_set(bits, InitFlag::CDRom) + if_set(bits, InitFlag::Joystick) + if_set(bits, InitFlag::NoParachute) + if_set(bits, InitFlag::EventThread) + if_set(bits, InitFlag::Everything)
}

/// Appends `flag` to `r` when `bits` holds its bit.
fn push_if_set(r: &mut Vec<InitFlag>, bits: u32, flag: InitFlag)
    ensures
        final(r)@ == old(r)@ + if_set(bits, flag),
{
    if bits & flag.bits() != 0 {
        r.push(flag);
    }
    assert(final(r)@ =~= old(r)@ + if_set(bits, flag));
}

/// Decodes the bits reported back by the library into flags.
pub fn set_flags(bits: u32) -> (r: Vec<InitFlag>)
    ensures
        r@ == flags_in(bits),
{
    let mut r: Vec<InitFlag> = Vec::new();
    push_if_set(&mut r, bits, InitFlag::Timer);
    push_if_set(&mut r, bits, InitFlag::Audio);
    push_if_set(&mut r, bits, InitFlag::Video);
    push_if_set(&mut r, bits, InitFlag::CDRom);
    push_if_set(&mut r, bits, InitFlag::Joystick);
    push_if_set(&mut r, bits, InitFlag::NoParachute);
    push_if_set(&mut r, bits, InitFlag::EventThread);
    push_if_set(&mut r, bits, InitFlag::Everything);
    assert(r@ =~= flags_in(bits));
    r
}

/// An error code that can be set as the library's current error.
#[derive(PartialEq, Eq, Structural, Copy, Clone, Debug)]
pub enum Error {
    NoMem,
    Read,
    Write,
    Seek,
    Unsupported,
}

impl Error {
    /// The library's code for the error.
    pub fn code(&self) -> (r: u32)
        ensures
            r == match self {
                Error::NoMem => 0u32,
                Error::Read => 1u32,
                Error::Write => 2u32,
                Error::Seek => 3u32,
                Error::Unsupported => 4u32,
            },
    {
        match self {
            Error::NoMem => 0,
            Error::Read => 1,
            Error::Write => 2,
            Error::Seek => 3,
            Error::Unsupported => 4,
        }
    }
}

} // verus!
