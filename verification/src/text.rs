//! Character-level helpers shared by the address bar and the tab labels.
//!
//! Text is modelled as `Seq<char>`: one entry per Unicode scalar value, so
//! that lengths and prefixes count characters, never bytes.

use vstd::prelude::*;
use vstd::string::StrSliceExecFns;
use vstd::string::StringExecFns;

verus! {

/// The characters that count as white space: the code points with the
/// Unicode `White_Space` property.
pub open spec fn is_whitespace_char(c: char) -> bool {
    let u = c as u32;
    ||| 0x09 <= u <= 0x0D
    ||| u == 0x20
    ||| u == 0x85
    ||| u == 0xA0
    ||| u == 0x1680
    ||| 0x2000 <= u <= 0x200A
    ||| u == 0x2028
    ||| u == 0x2029
    ||| u == 0x202F
    ||| u == 0x205F
    ||| u == 0x3000
}

/// Whether some character of `s` is white space.
pub open spec fn has_whitespace(s: Seq<char>) -> bool {
    exists|i: int| 0 <= i < s.len() && is_whitespace_char(#[trigger] s[i])
}

/// Whether the three characters `://` stand in `s` from index `i` on.
pub open spec fn scheme_separator_at(s: Seq<char>, i: int) -> bool {
    &&& 0 <= i
    &&& i + 3 <= s.len()
    &&& s[i] == ':'
    &&& s[i + 1] == '/'
    &&& s[i + 2] == '/'
}

/// Whether `://` occurs anywhere in `s`.
pub open spec fn has_scheme_separator(s: Seq<char>) -> bool {
    exists|i: int| scheme_separator_at(s, i)
}

/// The first `n` characters of `s`, or all of `s` where it is shorter.
pub open spec fn prefix(s: Seq<char>, n: nat) -> Seq<char> {
    if s.len() <= n {
        s
    } else {
        s.take(n as int)
    }
}

/// Tells whether `c` is white space.
pub fn is_whitespace(c: char) -> (b: bool)
    ensures
        b == is_whitespace_char(c),
{
    let u: u32 = c as u32;
    (0x09 <= u && u <= 0x0D) || u == 0x20 || u == 0x85 || u == 0xA0 || u == 0x1680 || (0x2000 <= u
        && u <= 0x200A) || u == 0x2028 || u == 0x2029 || u == 0x202F || u == 0x205F || u == 0x3000
}

/// Tells whether `s` holds a white-space character.
pub fn contains_whitespace(s: &str) -> (b: bool)
    ensures
        b == has_whitespace(s@),
{
    broadcast use vstd::string::group_string_axioms;

    let mut found = false;
    for c in it: s.chars()
        invariant
            it.seq() == s@,
            found == exists|i: int| 0 <= i < it.index() && is_whitespace_char(#[trigger] s@[i]),
    {
        if is_whitespace(c) {
            found = true;
        }
    }
    found
}

/// Tells whether the character `needle` occurs in `s`.
pub fn contains_char(s: &str, needle: char) -> (b: bool)
    ensures
        b == s@.contains(needle),
{
    broadcast use vstd::string::group_string_axioms;

    let mut found = false;
    for c in it: s.chars()
        invariant
            it.seq() == s@,
            found == exists|i: int| 0 <= i < it.index() && #[trigger] s@[i] == needle,
    {
        if c == needle {
            found = true;
        }
    }
    found
}

/// Tells whether `://` occurs in `s`, in one pass over its characters.
pub fn contains_scheme_separator(s: &str) -> (b: bool)
    ensures
        b == has_scheme_separator(s@),
{
    broadcast use vstd::string::group_string_axioms;

    let mut found = false;
    // `colon`: the previous character is ':'.
    // `colon_slash`: the two previous characters are ':' and '/'.
    let mut colon = false;
    let mut colon_slash = false;
    for c in it: s.chars()
        invariant
            it.seq() == s@,
            colon == (it.index() >= 1 && s@[it.index() - 1] == ':'),
            colon_slash == (it.index() >= 2 && s@[it.index() - 2] == ':' && s@[it.index() - 1]
                == '/'),
            found == exists|i: int| #[trigger] scheme_separator_at(s@, i) && i + 3 <= it.index(),
    {
        if colon_slash && c == '/' {
            assert(scheme_separator_at(s@, it.index() - 2));
            found = true;
        }
        colon_slash = colon && c == '/';
        colon = c == ':';
    }
    found
}

/// Copies the first `n` characters of `s`, or all of `s` where it is
/// shorter.
pub fn take_chars(s: &str, n: usize) -> (head: String)
    ensures
        head@ == prefix(s@, n as nat),
{
    let len: usize = s.unicode_len();
    if len <= n {
        String::from_str(s)
    } else {
        String::from_str(s.substring_char(0, n))
    }
}

} // verus!
