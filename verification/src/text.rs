//! Editing operations on the text fields of the application state.

use vstd::prelude::*;

verus! {

/// Whether `c` is encoded in UTF-8 as a single byte.
pub open spec fn is_one_byte_char(c: char) -> bool {
    (c as u32) < 0x80
}

/// The text left after its last byte is removed, for a text whose last
/// character is a single byte (or that is empty, which stays empty).
pub open spec fn drop_last_char(s: Seq<char>) -> Seq<char> {
    if s.len() == 0 {
        s
    } else {
        s.drop_last()
    }
}

/// Whether removing the last byte of `s` would cut a multi-byte character
/// in two, so that the byte slice the editor takes is not valid text.
pub open spec fn last_byte_splits_char(s: Seq<char>) -> bool {
    s.len() > 0 && !is_one_byte_char(s.last())
}

/// Appends a character to a `String` (`String::push`): the text grows by
/// exactly that character at its end.
#[verifier::external_body]
fn push_char(s: &mut String, c: char)
    ensures
        final(s)@ == old(s)@.push(c),
{
    s.push(c);
}

/// The text `s` followed by the character `c`.
pub fn with_char(s: &String, c: char) -> (r: String)
    ensures
        r@ == s@.push(c),
{
    let mut r = s.clone();
    push_char(&mut r, c);
    r
}

/// The text `s` without its last byte. Defined only where that byte is a
/// whole character (or the text is empty): elsewhere the byte slice would
/// not be valid text.
pub fn without_last_byte(s: &String) -> (r: String)
    requires
        !last_byte_splits_char(s@),
    ensures
        r@ == drop_last_char(s@),
{
    let n = s.as_str().unicode_len();
    if n == 0 {
        s.clone()
    } else {
        let kept = s.as_str().substring_char(0, n - 1);
        let r = String::from_str(kept);
        assert(r@ =~= s@.drop_last());
        r
    }
}

/// Whether two texts are equal, character by character.
pub fn text_eq(a: &str, b: &str) -> (r: bool)
    ensures
        r == (a@ == b@),
{
    let n = a.unicode_len();
    let m = b.unicode_len();
    if n != m {
        return false;
    }
    let mut i: usize = 0;
    while i < n
        invariant
            n == a@.len(),
            m == b@.len(),
            n == m,
            i <= n,
            forall|j: int| 0 <= j < i ==> a@[j] == b@[j],
        decreases n - i,
    {
        if a.get_char(i) != b.get_char(i) {
            return false;
        }
        i = i + 1;
    }
    assert(a@ =~= b@);
    true
}

/// The text `a` followed by the text `b`.
pub fn joined(a: &str, b: &str) -> (r: String)
    ensures
        r@ == a@ + b@,
{
    let mut r = String::from_str(a);
    r.append(b);
    r
}

/// Whether removing the last byte of `s` would cut a character in two (see
/// `last_byte_splits_char`).
pub fn ends_in_multibyte_char(s: &String) -> (r: bool)
    ensures
        r == last_byte_splits_char(s@),
{
    let n = s.as_str().unicode_len();
    if n == 0 {
        false
    } else {
        let c = s.as_str().get_char(n - 1);
        !((c as u32) < 0x80)
    }
}

/// `n` spaces.
pub open spec fn spaces(n: nat) -> Seq<char> {
    Seq::new(n, |_i: int| ' ')
}

/// The text `s`, then `n` spaces, then the text `tail`.
pub fn padded(s: &str, n: usize, tail: &str) -> (r: String)
    ensures
        r@ == s@ + spaces(n as nat) + tail@,
{
    let mut r = String::from_str(s);
    let mut i: usize = 0;
    while i < n
        invariant
            i <= n,
            r@ == s@ + spaces(i as nat),
        decreases n - i,
    {
        push_char(&mut r, ' ');
        i = i + 1;
        assert(r@ =~= s@ + spaces(i as nat));
    }
    r.append(tail);
    r
}

} // verus!
