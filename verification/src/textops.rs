//! Text helpers: white space, trimming, blank tests.

use vstd::prelude::*;

verus! {

/// A character with the Unicode white-space property, the set that
/// `char::is_whitespace` documents.
pub open spec fn is_space_char(c: char) -> bool {
    ||| c == ' '
    ||| c == '\t'
    ||| c == '\n'
    ||| c == '\u{0b}'
    ||| c == '\u{0c}'
    ||| c == '\r'
    ||| c == '\u{85}'
    ||| c == '\u{a0}'
    ||| c == '\u{1680}'
    ||| ('\u{2000}' as u32 <= c as u32 && c as u32 <= '\u{200a}' as u32)
    ||| c == '\u{2028}'
    ||| c == '\u{2029}'
    ||| c == '\u{202f}'
    ||| c == '\u{205f}'
    ||| c == '\u{3000}'
}

/// The sequence without its leading white space.
pub open spec fn trim_start_spec(s: Seq<char>) -> Seq<char>
    decreases s.len(),
{
    if s.len() > 0 && is_space_char(s.first()) {
        trim_start_spec(s.drop_first())
    } else {
        s
    }
}

/// The sequence without its trailing white space.
pub open spec fn trim_end_spec(s: Seq<char>) -> Seq<char>
    decreases s.len(),
{
    if s.len() > 0 && is_space_char(s.last()) {
        trim_end_spec(s.drop_last())
    } else {
        s
    }
}

/// The sequence without leading and trailing white space: what
/// trimming a string leaves.
pub open spec fn trim_spec(s: Seq<char>) -> Seq<char> {
    trim_end_spec(trim_start_spec(s))
}

/// A string that trims to nothing: empty or white space only.
pub open spec fn is_blank(s: Seq<char>) -> bool {
    trim_spec(s).len() == 0
}

/// Relies on `str::trim`: it returns the input without its leading and
/// trailing characters that have the Unicode white-space property, and
/// changes nothing else.
#[verifier::external_body]
pub(crate) fn trimmed(s: &str) -> (r: String)
    ensures
        r@ == trim_spec(s@),
{
    s.trim().to_string()
}

} // verus!
