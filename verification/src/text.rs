//! Joining texts.
use vstd::prelude::*;
use vstd::string::StringExecFns;

verus! {

/// `a` followed by `b`.
pub(crate) fn join2(a: &str, b: &str) -> (text: String)
    ensures
        text@ == a@ + b@,
{
    let mut text: String = a.to_owned();
    text.append(b);
    text
}

/// `a`, `b` and `c`, one after the other.
pub(crate) fn join3(a: &str, b: &str, c: &str) -> (text: String)
    ensures
        text@ == a@ + b@ + c@,
{
    let mut text: String = join2(a, b);
    text.append(c);
    text
}

/// `a`, `b`, `c` and `d`, one after the other.
pub(crate) fn join4(a: &str, b: &str, c: &str, d: &str) -> (text: String)
    ensures
        text@ == a@ + b@ + c@ + d@,
{
    let mut text: String = join3(a, b, c);
    text.append(d);
    text
}

} // verus!
