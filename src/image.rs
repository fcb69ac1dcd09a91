//! Plain values of the image-loading bindings: the formats to initialise and
//! the bit masks exchanged with the library.
use vstd::prelude::*;

verus! {

/// An image format whose loader can be initialised.
#[derive(PartialEq, Eq, Structural, Debug, Copy, Clone, Hash)]
pub enum InitFlag {
    JPG,
    PNG,
    TIF,
}

impl InitFlag {
    /// The flag's bit.
    pub open spec fn spec_bits(&self) -> i32 {
        match self {
            InitFlag::JPG => 0x1,
            InitFlag::PNG => 0x2,
            InitFlag::TIF => 0x4,
        }
    }

    pub fn bits(&self) -> (r: i32)
        ensures
            r == self.spec_bits(),
    {
        match self {
            InitFlag::JPG => 0x1,
            InitFlag::PNG => 0x2,
            InitFlag::TIF => 0x4,
        }
    }
}

/// The bits of all of `flags`, or-ed together.
pub open spec fn mask_of(flags: Seq<InitFlag>) -> i32
    decreases flags.len(),
{
    if flags.len() == 0 {
        0
    } else {
        mask_of(flags.drop_last()) | flags.last().spec_bits()
    }
}

/// The bits of all of `flags`, or-ed together, as the library expects them.
pub fn init_mask(flags: &Vec<InitFlag>) -> (r: i32)
    ensures
        r == mask_of(flags@),
{
    let mut r: i32 = 0;
    let mut i: usize = 0;
    while i < flags.len()
        invariant
            i <= flags@.len(),
            r == mask_of(flags@.take(i as int)),
        decreases flags@.len() - i,
    {
        assert(flags@.take(i + 1).drop_last() =~= flags@.take(i as int));
        r = r | flags[i].bits();
        i = i + 1;
    }
    assert(flags@.take(flags@.len() as int) =~= flags@);
    r
}

/// The flag if `bits` holds its bit, nothing otherwise.
pub open spec fn if_set(bits: i32, flag: InitFlag) -> Seq<InitFlag> {
    if bits & flag.spec_bits() != 0 {
        seq![flag]
    } else {
        Seq::empty()
    }
}

/// The flags whose bit `bits` holds, in declaration order.
pub open spec fn flags_in(bits: i32) -> Seq<InitFlag> {
        if_set(bits, InitFlag::JPG) + if_set(bits, InitFlag::PNG) + if_set(bits, InitFlag::TIF)
}

/// Appends `flag` to `r` when `bits` holds its bit.
fn push_if_set(r: &mut Vec<InitFlag>, bits: i32, flag: InitFlag)
    ensures
        final(r)@ == old(r)@ + if_set(bits, flag),
{
    if bits & flag.bits() != 0 {
        r.push(flag);
    }
    assert(final(r)@ =~= old(r)@ + if_set(bits, flag));
}

/// Decodes the bits reported back by the library into flags.
pub fn set_flags(bits: i32) -> (r: Vec<InitFlag>)
    ensures
        r@ == flags_in(bits),
{
    let mut r: Vec<InitFlag> = Vec::new();
    push_if_set(&mut r, bits, InitFlag::JPG);
    push_if_set(&mut r, bits, InitFlag::PNG);
    push_if_set(&mut r, bits, InitFlag::TIF);
    assert(r@ =~= flags_in(bits));
    r
}

} // verus!
