//! Small helpers on std types.

use vstd::prelude::*;
use std::rc::Rc;
use std::sync::Arc;

verus! {

/// The characters of `s`, in order.
pub fn to_chars(s: &str) -> (r: Vec<char>)
    ensures
        r@ == s@,
{
    let mut out: Vec<char> = Vec::new();
    for c in it: s.chars()
        invariant
            out@ == it.history(),
            it.seq() == s@,
    {
        out.push(c);
    }
    assert(out@ =~= s@);
    out
}

/// A copy of `chars`.
pub fn copy_chars(chars: &Vec<char>) -> (r: Vec<char>)
    ensures
        r@ == chars@,
{
    let mut out: Vec<char> = Vec::new();
    let mut i: usize = 0;
    while i < chars.len()
        invariant
            i <= chars.len(),
            out@ == chars@.take(i as int),
        decreases chars.len() - i,
    {
        out.push(chars[i]);
        i += 1;
        assert(out@ =~= chars@.take(i as int));
    }
    assert(chars@.take(chars.len() as int) =~= chars@);
    out
}

/// The text by which a type of the name `name` presents itself.
pub fn string_format(name: &str) -> (r: String)
    ensures
        r@ == "hello type: "@ + name@,
{
    String::from_str("hello type: ").concat(name)
}

/// `Arc::clone` of std: another handle on the same value. The contract
/// claims that the new handle holds the value that `handle` holds.
#[verifier::external_body]
pub(crate) fn share_arc<T>(handle: &Arc<T>) -> (r: Arc<T>)
    ensures
        r == *handle,
{
    Arc::clone(handle)
}

/// `Rc::clone` of std: another handle on the same value. The contract
/// claims that the new handle holds the value that `handle` holds.
#[verifier::external_body]
pub(crate) fn share_rc<T>(handle: &Rc<T>) -> (r: Rc<T>)
    ensures
        r == *handle,
{
    Rc::clone(handle)
}

} // verus!
