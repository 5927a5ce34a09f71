use vstd::prelude::*;

verus! {

/// What a successful dispatch yields: the decoded value, and what the
/// transport observed of the exchange.
#[derive(Clone, Debug)]
pub struct Response<R, E> {
    pub value: R,
    pub extra: E,
}

} // verus!
