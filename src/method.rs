use vstd::prelude::*;

verus! {

/// The HTTP verbs that the service is addressed with.
#[allow(non_camel_case_types, clippy::upper_case_acronyms)]
#[derive(Clone, Copy, Debug, PartialEq, Eq, Hash, Structural)]
pub enum Method {
    GET,
    PUT,
    POST,
    PATCH,
    DELETE,
}

} // verus!
