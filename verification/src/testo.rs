//! Moving between strings and sequences of characters.

use vstd::prelude::*;

verus! {

/// `String::push`: appends the character `c` to the end of `s` and changes
/// nothing else.
#[verifier::external_body]
pub(crate) fn aggiungi_carattere(s: &mut String, c: char)
    ensures
        final(s)@ == old(s)@.push(c),
{
    s.push(c)
}

/// The characters of `s`, in order.
pub fn caratteri(s: &str) -> (v: Vec<char>)
    ensures
        v@ == s@,
{
    let mut v: Vec<char> = Vec::new();
    for c in it: s.chars()
        invariant
            it.seq() == s@,
            v@ == it.seq().take(it.index()),
    {
        v.push(c);
    }
    v
}

/// The string made of the characters of `v`, in order.
pub fn stringa(v: &Vec<char>) -> (s: String)
    ensures
        s@ == v@,
{
    let mut s = String::new();
    let mut i: usize = 0;
    while i < v.len()
        invariant
            i <= v.len(),
            s@ == v@.take(i as int),
        decreases v.len() - i,
    {
        aggiungi_carattere(&mut s, v[i]);
        i += 1;
    }
    s
}

} // verus!
