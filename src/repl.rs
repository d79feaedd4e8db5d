//! Naming helpers for the interactive shell's generated Core Erlang.

use vstd::prelude::*;
use vstd::string::*;

verus! {

/// The characters that `c` maps to when upper-cased.
pub uninterp spec fn upper_of(c: char) -> Seq<char>;

/// Relies on `char::to_uppercase`: the upper-case mapping of a character, one
/// or more characters that depend on the character alone.
#[verifier::external_body]
fn char_to_upper(c: char) -> (r: String)
    ensures
        r@ == upper_of(c),
{
    c.to_uppercase().collect::<String>()
}

/// Upper-cases the first character of `s` and keeps the rest, as Erlang
/// variable names require; the empty string stays empty.
pub fn capitalize_first(s: &str) -> (r: String)
    ensures
        s@.len() == 0 ==> r@ == Seq::<char>::empty(),
        s@.len() > 0 ==> r@ == upper_of(s@[0]) + s@.subrange(1, s@.len() as int),
{
    let n = s.unicode_len();
    if n == 0 {
        return String::new();
    }
    let first = char_to_upper(s.get_char(0));
    replace_first_char(first, s)
}

/// Puts `head` in place of the first character of the non-empty `s`.
pub fn replace_first_char(head: String, s: &str) -> (r: String)
    requires
        s@.len() > 0,
    ensures
        r@ == head@ + s@.subrange(1, s@.len() as int),
{
    let n = s.unicode_len();
    head.concat(s.substring_char(1, n))
}

} // verus!
