use vstd::prelude::*;

verus! {

/// Relies on `<[&str]>::concat`: the characters of `a`, then those of `b`.
#[verifier::external_body]
pub(crate) fn concat(a: &str, b: &str) -> (r: String)
    ensures
        r@ == a@ + b@,
{
    [a, b].concat()
}

} // verus!
