use vstd::prelude::*;

verus! {

/// A credential, held as the value of the `Authorization` header that it
/// stands for.
#[derive(Clone, Debug)]
pub struct Auth {
    value: String,
}

impl View for Auth {
    type V = Seq<char>;

    closed spec fn view(&self) -> Seq<char> {
        self.value@
    }
}

impl Auth {
    /// A credential whose header value is `value`, exactly.
    pub fn new(value: String) -> (r: Auth)
        ensures
            r@ == value@,
    {
        Auth { value }
    }

    /// The value of the `Authorization` header for a call.
    pub fn header_value(&self) -> (r: String)
        ensures
            r@ == self@,
    {
        self.value.clone()
    }
}

} // verus!
