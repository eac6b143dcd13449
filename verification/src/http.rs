use vstd::prelude::*;
use vstd::utf8::encode_utf8;
use vstd::string::StrSliceExecFns;

verus! {

/// The request methods the routing table distinguishes. Every method other
/// than GET and POST falls to the default branch of the table, so all of
/// them are folded into `Other`.
#[derive(Clone, Copy, Debug, PartialEq, Eq, Structural)]
pub enum Method {
    Get,
    Post,
    Other,
}

/// The only content type this server ever sets explicitly.
#[derive(Clone, Copy, Debug, PartialEq, Eq, Structural)]
pub enum ContentType {
    Json,
}

/// A fully materialized response: status code, the optional Content-Type
/// header, and the body as one byte buffer. Responses whose body streams
/// (file contents, the proxied upstream body) are not values of this type;
/// the dispatcher describes them as actions instead.
#[derive(Debug, PartialEq, Eq)]
pub struct Response {
    pub status: u16,
    pub content_type: Option<ContentType>,
    pub body: Vec<u8>,
}

/// The one failure the handlers surface to the top of the request task
/// rather than turning into a canned response: a request body that is not a
/// JSON document, or is one that no key can be set on. It reaches the
/// transport as a generic server error.
#[derive(Clone, Copy, Debug, PartialEq, Eq, Structural)]
pub enum ServeError {
    MalformedInput,
}

pub const STATUS_OK: u16 = 200;

pub const STATUS_NOT_FOUND: u16 = 404;

pub const STATUS_INTERNAL_SERVER_ERROR: u16 = 500;

/// The UTF-8 bytes of a character sequence, for relating a `&str` literal
/// in a contract to a byte body.
pub open spec fn bytes_of(s: Seq<char>) -> Seq<u8> {
    encode_utf8(s)
}

/// What the canned not-found response is: status 404, no explicit
/// content type, and the literal body `Not Found`.
pub open spec fn is_not_found(r: Response) -> bool {
    &&& r.status == STATUS_NOT_FOUND
    &&& r.content_type is None
    &&& r.body@ == bytes_of("Not Found"@)
}

/// The canned 404 response shared by every unmatched route and by the
/// file responder's missing-file branch.
pub fn not_found() -> (r: Response)
    ensures
        is_not_found(r),
{
    Response { status: STATUS_NOT_FOUND, content_type: None, body: "Not Found".as_bytes_vec() }
}

} // verus!
