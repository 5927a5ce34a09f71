use vstd::prelude::*;
use vstd::string::StringExecFns;

use crate::dispatch::Shape;
use crate::method::Method;

verus! {

/// The character of a decimal digit `d < 10`.
pub open spec fn digit_char(d: nat) -> char {
    if d == 0 { '0' }
    else if d == 1 { '1' }
    else if d == 2 { '2' }
    else if d == 3 { '3' }
    else if d == 4 { '4' }
    else if d == 5 { '5' }
    else if d == 6 { '6' }
    else if d == 7 { '7' }
    else if d == 8 { '8' }
    else { '9' }
}

/// The decimal digits of `n`, most significant first, with no leading zero.
pub open spec fn digits(n: nat) -> Seq<char>
    decreases n,
{
    if n < 10 {
        seq![digit_char(n)]
    } else {
        digits(n / 10).push(digit_char(n % 10))
    }
}

/// `n` written in decimal, with a leading `-` where it is negative.
pub open spec fn int_text(n: int) -> Seq<char> {
    if n < 0 {
        seq!['-'] + digits((-n) as nat)
    } else {
        digits(n as nat)
    }
}

/// Relies on the `Display` impl of `i32`, through `to_string`: it writes the
/// number in decimal, with a `-` before a negative one and no leading zero.
#[verifier::external_body]
fn decimal(n: i32) -> (r: String)
    ensures
        r@ == int_text(n as int),
{
    n.to_string()
}

/// The endpoint of the collection of share links.
pub open spec fn collection_path() -> Seq<char> {
    "/api/share_links/"@
}

/// The endpoint of the share link with id `id`.
pub open spec fn item_path(id: int) -> Seq<char> {
    collection_path() + int_text(id) + seq!['/']
}

/// One call of the service: its verb, its endpoint and the shape of its
/// result.
#[derive(Clone, Debug)]
pub struct Call {
    pub method: Method,
    pub endpoint: String,
    pub shape: Shape,
}

fn item_endpoint(id: i32) -> (r: String)
    ensures
        r@ == item_path(id as int),
{
    let r = "/api/share_links/".to_owned().concat(decimal(id).as_str()).concat("/");
    proof {
        reveal_strlit("/");
    }
    assert(r@ =~= item_path(id as int));
    r
}

/// Lists share links, a page at a time.
pub fn list() -> (r: Call)
    ensures
        r.method == Method::GET,
        r.endpoint@ == collection_path(),
        r.shape == Shape::Json,
{
    Call { method: Method::GET, endpoint: "/api/share_links/".to_owned(), shape: Shape::Json }
}

/// Creates a share link from a body, and returns it.
pub fn create() -> (r: Call)
    ensures
        r.method == Method::POST,
        r.endpoint@ == collection_path(),
        r.shape == Shape::Json,
{
    Call { method: Method::POST, endpoint: "/api/share_links/".to_owned(), shape: Shape::Json }
}

/// Fetches the share link `id`.
pub fn retrieve(id: i32) -> (r: Call)
    ensures
        r.method == Method::GET,
        r.endpoint@ == item_path(id as int),
        r.shape == Shape::Json,
{
    Call { method: Method::GET, endpoint: item_endpoint(id), shape: Shape::Json }
}

/// Changes the share link `id` by a body, and returns it.
pub fn patch(id: i32) -> (r: Call)
    ensures
        r.method == Method::PATCH,
        r.endpoint@ == item_path(id as int),
        r.shape == Shape::Json,
{
    Call { method: Method::PATCH, endpoint: item_endpoint(id), shape: Shape::Json }
}

/// Deletes the share link `id`; success is told by the status alone.
pub fn destroy(id: i32) -> (r: Call)
    ensures
        r.method == Method::DELETE,
        r.endpoint@ == item_path(id as int),
        r.shape == Shape::Unit,
{
    Call { method: Method::DELETE, endpoint: item_endpoint(id), shape: Shape::Unit }
}

} // verus!
