//! Byte search in a slice.
use vstd::prelude::*;

verus! {

/// The index of the first occurrence of `needle` in `haystack`, if any.
pub fn memchr(needle: u8, haystack: &[u8]) -> (r: Option<usize>)
    ensures
        match r {
            Some(i) => i < haystack@.len() && haystack@[i as int] == needle && forall|j: int|
                0 <= j < i ==> haystack@[j] != needle,
            None => forall|j: int| 0 <= j < haystack@.len() ==> haystack@[j] != needle,
        },
{
    let mut i: usize = 0;
    while i < haystack.len()
        invariant
            i <= haystack@.len(),
            forall|j: int| 0 <= j < i ==> haystack@[j] != needle,
        decreases haystack@.len() - i,
    {
        if haystack[i] == needle {
            return Some(i);
        }
        i = i + 1;
    }
    None
}

/// The index of the last occurrence of `needle` in `haystack`, if any.
pub fn memrchr(needle: u8, haystack: &[u8]) -> (r: Option<usize>)
    ensures
        match r {
            Some(i) => i < haystack@.len() && haystack@[i as int] == needle && forall|j: int|
                i < j < haystack@.len() ==> haystack@[j] != needle,
            None => forall|j: int| 0 <= j < haystack@.len() ==> haystack@[j] != needle,
        },
{
    let mut i: usize = haystack.len();
    while i > 0
        invariant
            i <= haystack@.len(),
            forall|j: int| i <= j < haystack@.len() ==> haystack@[j] != needle,
        decreases i,
    {
        if haystack[i - 1] == needle {
            return Some(i - 1);
        }
        i = i - 1;
    }
    None
}

} // verus!
