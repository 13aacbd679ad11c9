//! Interned strings (`internship::IStr`) as the class file model holds them.
//!
//! What an `IStr` holds is named by [`istr_view`]; the wrappers below state
//! how each of its operations that the library calls relates to it.

use internship::IStr;
use vstd::prelude::*;
use vstd::utf8::{decode_utf8, is_scalar, valid_utf8};
use vstd::std_specs::iter::IteratorSpec;

verus! {

#[verifier::external_type_specification]
#[verifier::external_body]
pub struct ExIStr(internship::IStr);

/// The characters that an interned string holds.
pub uninterp spec fn istr_view(s: IStr) -> Seq<char>;

/// `IStr::new`: interns a copy of the string.
#[verifier::external_body]
pub fn istr_new(s: &str) -> (r: IStr)
    ensures
        istr_view(r) == s@,
{
    IStr::new(s)
}

/// `IStr::from_utf8`: decodes UTF-8 bytes, failing exactly on invalid input.
#[verifier::external_body]
pub fn istr_from_utf8(bytes: &[u8]) -> (r: Option<IStr>)
    ensures
        r is Some <==> valid_utf8(bytes@),
        r matches Some(s) ==> istr_view(s) == decode_utf8(bytes@),
{
    IStr::from_utf8(bytes).ok()
}

/// `IStr::as_str`: the interned characters as a string slice.
#[verifier::external_body]
pub fn istr_as_str(s: &IStr) -> (r: &str)
    ensures
        r@ == istr_view(*s),
{
    s.as_str()
}

/// `IStr::clone`: another handle to the same characters.
#[verifier::external_body]
pub fn istr_clone(s: &IStr) -> (r: IStr)
    ensures
        istr_view(r) == istr_view(*s),
{
    s.clone()
}

/// `<IStr as PartialEq<&str>>::eq`: compares the characters.
#[verifier::external_body]
pub fn istr_eq_str(s: &IStr, t: &str) -> (r: bool)
    ensures
        r == (istr_view(*s) == t@),
{
    *s == t
}

/// `<IStr as PartialEq>::eq`: compares the characters.
#[verifier::external_body]
pub fn istr_eq(s: &IStr, t: &IStr) -> (r: bool)
    ensures
        r == (istr_view(*s) == istr_view(*t)),
{
    *s == *t
}

/// `char::from_u32`: the character with the given code, if it is a Unicode
/// scalar value.
#[verifier::external_body]
pub fn char_from_u32(v: u32) -> (r: Option<char>)
    ensures
        r is Some <==> is_scalar(v),
        r matches Some(c) ==> c as u32 == v,
{
    char::from_u32(v)
}

/// `String::push`: appends one character.
#[verifier::external_body]
pub fn string_push(s: &mut String, c: char)
    ensures
        final(s)@ == old(s)@.push(c),
{
    s.push(c)
}

/// The characters of a string slice, in order.
pub fn str_chars(s: &str) -> (r: Vec<char>)
    ensures
        r@ == s@,
{
    broadcast use vstd::string::axiom_spec_iter, vstd::string::next_postcondition;
    let mut out: Vec<char> = Vec::new();
    let mut chars = s.chars();
    loop
        invariant
            out@ + chars.remaining() == s@,
            chars.obeys_prophetic_iter_laws(),
            chars.decrease() is Some,
        decreases chars.decrease()->0,
    {
        let ghost before = chars.remaining();
        match chars.next() {
            Some(c) => {
                out.push(c);
                assert(out@ + chars.remaining() =~= s@) by {
                    assert(before == seq![c] + chars.remaining());
                }
            },
            None => {
                assert(chars.remaining().len() == 0);
                assert(out@ =~= s@);
                return out;
            },
        }
    }
}

/// An interned string holding exactly the given characters.
pub fn istr_from_chars(cs: &[char]) -> (r: IStr)
    ensures
        istr_view(r) == cs@,
{
    let mut s = String::new();
    let mut i: usize = 0;
    while i < cs.len()
        invariant
            i <= cs.len(),
            s@ == cs@.take(i as int),
        decreases cs.len() - i,
    {
        string_push(&mut s, cs[i]);
        i = i + 1;
        assert(s@ =~= cs@.take(i as int));
    }
    assert(cs@.take(cs.len() as int) =~= cs@);
    istr_new(s.as_str())
}

} // verus!
