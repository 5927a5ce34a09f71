use vstd::prelude::*;

use crate::client::json_media_type;
use crate::error::Error;
use crate::method::Method;

verus! {

/// The three shapes a call's result can take.
#[derive(Clone, Copy, Debug, PartialEq, Eq, Structural)]
pub enum Shape {
    /// A JSON body, decoded into a typed value.
    Json,
    /// The body's raw bytes.
    Bytes,
    /// Nothing: the status alone says that the call succeeded.
    Unit,
}

/// What a transport does next with a reply whose status and media type have
/// been looked at.
#[derive(Clone, Copy, Debug, PartialEq, Eq, Structural)]
pub enum Step {
    /// The status failed: read the body as text and report it with
    /// `server_error`.
    ReadErrorBody,
    /// Read the body as text and decode it with `decode_json`.
    ReadText,
    /// Read the body as bytes: they are the value.
    ReadBytes,
    /// Read nothing: the value is unit.
    Done,
}

/// A status in the success range.
pub open spec fn is_success(status: u16) -> bool {
    200 <= status <= 299
}

/// Whether a reply's media type is exactly the JSON one.
pub open spec fn is_json_type(content_type: Option<String>) -> bool {
    content_type is Some && content_type->0@ == json_media_type()
}

/// The step that follows a reply with `status` and `content_type` on a call
/// of `shape`; `None` where the media type is refused.
pub open spec fn step_of(shape: Shape, status: u16, content_type: Option<String>) -> Option<Step> {
    if !is_success(status) {
        Some(Step::ReadErrorBody)
    } else {
        match shape {
            Shape::Json => if is_json_type(content_type) {
                Some(Step::ReadText)
            } else {
                None
            },
            Shape::Bytes => Some(Step::ReadBytes),
            Shape::Unit => Some(Step::Done),
        }
    }
}

/// The status is judged before anything else: a failed status leads to the
/// server error whatever the shape and the media type. On a JSON call with a
/// successful status, a media type other than exactly `application/json` is
/// refused, and the body is then never read for decoding. Calls for bytes or
/// for nothing take any media type.
pub proof fn lemma_status_before_media_type(
    shape: Shape,
    status: u16,
    content_type: Option<String>,
)
    ensures
        !is_success(status) ==> step_of(shape, status, content_type) == Some(Step::ReadErrorBody),
        is_success(status) && shape == Shape::Json && !is_json_type(content_type) ==> step_of(
            shape,
            status,
            content_type,
        ) is None,
        step_of(shape, status, content_type) == Some(Step::ReadText) ==> is_success(status)
            && is_json_type(content_type),
        is_success(status) && shape != Shape::Json ==> step_of(shape, status, content_type) is Some,
{
}

/// Whether `status` is in the success range.
pub fn is_success_status(status: u16) -> (r: bool)
    ensures
        r == is_success(status),
{
    200 <= status && status <= 299
}

/// The next step for a reply with `status` and `content_type` on a call of
/// `shape`. The status is looked at first, whatever the shape and media
/// type; then, for a JSON call only, the media type, which must be exactly
/// `application/json`.
pub fn classify(
    shape: Shape,
    method: Method,
    endpoint: &str,
    status: u16,
    content_type: &Option<String>,
) -> (r: Result<Step, Error>)
    ensures
        step_of(shape, status, *content_type) is Some ==> r == Ok::<Step, Error>(
            step_of(shape, status, *content_type)->0,
        ),
        step_of(shape, status, *content_type) is None ==> {
            &&& r is Err
            &&& r->Err_0 is ContentType
            &&& r->Err_0->ContentType_method == method
            &&& r->Err_0->ContentType_endpoint@ == endpoint@
            &&& r->Err_0->ContentType_expected@.len() == 1
            &&& r->Err_0->ContentType_expected@[0]@ == json_media_type()
            &&& r->Err_0->ContentType_received == *content_type
        },
{
    if !is_success_status(status) {
        return Ok(Step::ReadErrorBody);
    }
    match shape {
        Shape::Bytes => Ok(Step::ReadBytes),
        Shape::Unit => Ok(Step::Done),
        Shape::Json => {
            let json = "application/json".to_owned();
            let matches = match content_type {
                Some(t) => *t == json,
                None => false,
            };
            if matches {
                Ok(Step::ReadText)
            } else {
                let received = match content_type {
                    Some(t) => Some(t.clone()),
                    None => None,
                };
                Err(
                    Error::ContentType {
                        method,
                        endpoint: endpoint.to_owned(),
                        expected: vec![json],
                        received,
                    },
                )
            }
        },
    }
}

/// The outcome of a JSON call whose body was read as `content` and handed to
/// the decoder for the target type `typename`, which gave `parsed`. A
/// decoder's failure becomes `Deserializing`, which keeps the text as it
/// came.
pub fn decode_json<R>(
    method: Method,
    endpoint: &str,
    typename: &str,
    content: String,
    parsed: Result<R, String>,
) -> (r: Result<R, Error>)
    ensures
        parsed is Ok ==> r == Ok::<R, Error>(parsed->Ok_0),
        parsed is Err ==> {
            &&& r is Err
            &&& r->Err_0 is Deserializing
            &&& r->Err_0->Deserializing_method == method
            &&& r->Err_0->Deserializing_endpoint@ == endpoint@
            &&& r->Err_0->Deserializing_typename@ == typename@
            &&& r->Err_0->Deserializing_content == content
            &&& r->Err_0->Deserializing_source == parsed->Err_0
        },
{
    match parsed {
        Ok(v) => Ok(v),
        Err(source) => Err(
            Error::Deserializing {
                method,
                endpoint: endpoint.to_owned(),
                typename: typename.to_owned(),
                content,
                source,
            },
        ),
    }
}

} // verus!
