//! What this binary is, for the about label. The values are this crate's compile time
//! environment, so the binary reads them and they travel to the label as arguments.

use vstd::prelude::*;

verus! {

/// What `str::to_uppercase` makes of a string: each character's Unicode uppercase mapping.
pub uninterp spec fn uppercased(s: Seq<char>) -> Seq<char>;

/// A character with no case of its own outside `a` to `z`, or its upper case inside it.
pub open spec fn ascii_upper(c: char) -> char {
    if 'a' <= c <= 'z' {
        ((c as u8) - 32) as char
    } else {
        c
    }
}

pub open spec fn is_ascii_text(s: Seq<char>) -> bool {
    forall|i: int| 0 <= i < s.len() ==> (#[trigger] s[i] as u32) < 128
}

/// `str::to_uppercase`. Its result is a function of the string alone; on ASCII text the
/// Unicode uppercase mapping is the ASCII one, `a` to `z` raised and everything else kept,
/// character for character. What it does past ASCII is left to the name.
#[verifier::external_body]
fn to_uppercase(s: &str) -> (r: String)
    ensures
        r@ == uppercased(s@),
        is_ascii_text(s@) ==> r@ == s@.map_values(|c: char| ascii_upper(c)),
{
    s.to_uppercase()
}

/// Everything the label says about the build. `'static` throughout because all of it is baked
/// in at compile time.
#[derive(Copy, Clone, Debug)]
pub struct Build {
    pub version: &'static str,
    pub hash: &'static str,
    pub dirty: bool,
    pub date: &'static str,
}

impl Build {
    /// What the barcode encodes. Upper case because Code 39 has none, and a hash outside its
    /// alphabet refuses to encode rather than scanning as something else.
    pub fn serial(&self) -> (r: String)
        ensures
            r@ == uppercased(self.hash@),
            is_ascii_text(self.hash@) ==> r@ == self.hash@.map_values(|c: char| ascii_upper(c)),
    {
        to_uppercase(self.hash)
    }

    /// The digit in the box beside the bars. The real label's is a check digit; this one is
    /// the only place a build from a modified tree admits to it.
    pub fn dirty_digit(&self) -> (r: char)
        ensures
            r == if self.dirty {
                '1'
            } else {
                '0'
            },
    {
        match self.dirty {
            true => '1',
            false => '0',
        }
    }
}

} // verus!
