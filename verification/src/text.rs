//! Small text helpers: trusted views of `str::trim` and `str::to_lowercase`,
//! and centering of a heading line.

use vstd::prelude::*;
use vstd::string::StrSliceExecFns;
use vstd::string::StringExecFns;

verus! {

/// The character sequence that `str::trim` leaves for a given input.
pub uninterp spec fn trimmed_of(s: Seq<char>) -> Seq<char>;

/// The character sequence that `str::to_lowercase` produces for a given input.
pub uninterp spec fn lower_of(s: Seq<char>) -> Seq<char>;

/// Relies on `str::trim`: returns the input without leading and trailing
/// whitespace; the result depends on the characters alone.
#[verifier::external_body]
pub(crate) fn trimmed(s: &str) -> (r: String)
    ensures
        r@ == trimmed_of(s@),
{
    s.trim().to_owned()
}

/// Relies on `str::to_lowercase`: returns the lowercase equivalent of the
/// input; the result depends on the characters alone.
#[verifier::external_body]
pub(crate) fn lowercase(s: &str) -> (r: String)
    ensures
        r@ == lower_of(s@),
{
    s.to_lowercase()
}

/// `n` space characters.
pub open spec fn pad_spaces(n: int) -> Seq<char>
    decreases n,
{
    if n <= 0 {
        Seq::empty()
    } else {
        pad_spaces(n - 1).push(' ')
    }
}

/// Centers `text` in a line of `width` characters: text narrower than the
/// line is preceded by half the leftover width in spaces, wider text is
/// returned unchanged.
pub fn center_text(text: &str, width: usize) -> (r: String)
    ensures
        text@.len() >= width ==> r@ == text@,
        text@.len() < width ==> r@ == pad_spaces((width - text@.len()) / 2) + text@,
{
    let n = text.unicode_len();
    if n >= width {
        String::from_str(text)
    } else {
        let pad = (width - n) / 2;
        let mut s = String::new();
        let mut i: usize = 0;
        while i < pad
            invariant
                i <= pad,
                s@ == pad_spaces(i as int),
            decreases pad - i,
        {
            s.append(" ");
            proof {
                reveal_strlit(" ");
                assert(s@ =~= pad_spaces(i as int).push(' '));
            }
            i = i + 1;
        }
        s.append(text);
        proof {
            assert(s@ =~= pad_spaces(pad as int) + text@);
        }
        s
    }
}

} // verus!
