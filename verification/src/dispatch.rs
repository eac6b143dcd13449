use vstd::prelude::*;
use vstd::string::StringExecFns;
use crate::http::{bytes_of, is_not_found, not_found, Method, Response, ServeError, STATUS_OK};
use crate::json::{api_get_resp, api_post_resp, echo_post_obligation, is_canned_list_response};
use crate::proxy::{
    is_outbound_request, outbound_request, proxy_body_stream, spec_proxy_prefix, OutboundRequest,
    ProxyConfig,
};
use crate::stream::ProxyBodyStream;
use crate::text::str_eq;

verus! {

/// The handler a request is routed to.
#[derive(Clone, Copy, Debug, PartialEq, Eq, Structural)]
pub enum Route {
    /// GET `/` or `/index.html`: stream the fixed index file.
    IndexFile,
    /// GET `/test.html`: the proxy composer.
    Proxy,
    /// POST `/json_api`: the echo mutator.
    JsonEcho,
    /// GET `/json_api`: the canned list.
    JsonList,
    /// GET `/no_file.html`: a deliberately nonexistent file, to show the
    /// not-found fallback.
    MissingFile,
    /// Everything else, a known path under the wrong method included: the
    /// canned 404.
    NotFound,
}

/// The routing table: exact match on method and path, no wildcard and no
/// prefix matching.
pub open spec fn spec_route(m: Method, path: Seq<char>) -> Route {
    if m == Method::Get && (path == "/"@ || path == "/index.html"@) {
        Route::IndexFile
    } else if m == Method::Get && path == "/test.html"@ {
        Route::Proxy
    } else if m == Method::Post && path == "/json_api"@ {
        Route::JsonEcho
    } else if m == Method::Get && path == "/json_api"@ {
        Route::JsonList
    } else if m == Method::Get && path == "/no_file.html"@ {
        Route::MissingFile
    } else {
        Route::NotFound
    }
}

/// Selects exactly one handler for a request, by the fixed table.
pub fn route(method: Method, path: &str) -> (r: Route)
    ensures
        r == spec_route(method, path@),
{
    match method {
        Method::Get => {
            if str_eq(path, "/") || str_eq(path, "/index.html") {
                Route::IndexFile
            } else if str_eq(path, "/test.html") {
                Route::Proxy
            } else if str_eq(path, "/json_api") {
                Route::JsonList
            } else if str_eq(path, "/no_file.html") {
                Route::MissingFile
            } else {
                Route::NotFound
            }
        },
        Method::Post => {
            if str_eq(path, "/json_api") {
                Route::JsonEcho
            } else {
                Route::NotFound
            }
        },
        Method::Other => Route::NotFound,
    }
}

/// The directory the file responder serves from.
pub open spec fn spec_html_dir() -> Seq<char> {
    "src/html/"@
}

/// The full path of the file a file route serves: the fixed directory,
/// then the file name.
pub open spec fn spec_file_path(filename: Seq<char>) -> Seq<char> {
    spec_html_dir() + filename
}

/// Prefixes the fixed directory to a file name, as the file responder does
/// before opening.
pub fn file_path(filename: &str) -> (p: String)
    ensures
        p@ == spec_file_path(filename@),
{
    let mut p = "src/html/".to_owned();
    p.append(filename);
    p
}

/// What the dispatcher decides for one request: either the response is
/// fully determined, or the transport has one piece of outside work to do —
/// open and stream a file, or call upstream — whose outcome the remaining
/// library functions take as an argument.
pub enum Dispatch {
    /// The response is ready.
    Done(Response),
    /// Open the file at this path: stream it behind status 200, or fall
    /// back to the canned 404 (`simple_file_send`) where it cannot be
    /// opened.
    ReadFile(String),
    /// Issue this upstream request, then drain the chain: the synthetic
    /// prefix first, then the upstream body forwarded through it chunk by
    /// chunk. A transport failure propagates unhandled.
    CallUpstream(OutboundRequest, ProxyBodyStream),
}

/// What the dispatcher owes for each request, route by route: exactly the
/// fixed table.
pub open spec fn dispatch_obligation(
    m: Method,
    path: Seq<char>,
    body: Seq<u8>,
    cfg: ProxyConfig,
    r: Result<Dispatch, ServeError>,
) -> bool {
    match spec_route(m, path) {
        Route::IndexFile => r matches Ok(Dispatch::ReadFile(p)) && p@ == spec_file_path(
            "index.html"@,
        ),
        Route::Proxy => r matches Ok(Dispatch::CallUpstream(req, chain)) && {
            &&& is_outbound_request(req, cfg)
            &&& chain.wf()
            &&& chain.prefix_pending()
            &&& chain.prefix_bytes@ == bytes_of(spec_proxy_prefix(cfg.post_data@))
        },
        Route::JsonEcho => match r {
            Ok(d) => d matches Dispatch::Done(resp) && echo_post_obligation(
                body,
                Result::<Response, ServeError>::Ok(resp),
            ),
            Err(e) => echo_post_obligation(body, Result::<Response, ServeError>::Err(e)),
        },
        Route::JsonList => r matches Ok(Dispatch::Done(resp)) && is_canned_list_response(resp),
        Route::MissingFile => r matches Ok(Dispatch::ReadFile(p)) && p@ == spec_file_path(
            "this_file_should_not_exist.html"@,
        ),
        Route::NotFound => r matches Ok(Dispatch::Done(resp)) && is_not_found(resp),
    }
}

/// The dispatcher: routes one request by exact match on method and path and
/// produces the matched handler's decision. Routing itself does no outside
/// work; a file or an upstream route hands the transport the one action to
/// perform.
pub fn req_handler(method: Method, path: &str, body: &[u8], cfg: &ProxyConfig) -> (r: Result<
    Dispatch,
    ServeError,
>)
    ensures
        dispatch_obligation(method, path@, body@, *cfg, r),
{
    match route(method, path) {
        Route::IndexFile => Ok(Dispatch::ReadFile(file_path("index.html"))),
        Route::Proxy => Ok(
            Dispatch::CallUpstream(outbound_request(cfg), proxy_body_stream(cfg)),
        ),
        Route::JsonEcho => match api_post_resp(body) {
            Ok(resp) => Ok(Dispatch::Done(resp)),
            Err(e) => Err(e),
        },
        Route::JsonList => Ok(Dispatch::Done(api_get_resp())),
        Route::MissingFile => Ok(Dispatch::ReadFile(file_path("this_file_should_not_exist.html"))),
        Route::NotFound => Ok(Dispatch::Done(not_found())),
    }
}

/// The file responder's decision once the transport has tried to open the
/// file: an opened file streams behind status 200; one that cannot be
/// opened — missing and unreadable alike — falls back to the canned 404.
pub enum FileSend {
    /// Stream the opened file's chunks as the body of a response with this
    /// status.
    Stream(u16),
    /// The file could not be opened: answer with this canned response.
    Fallback(Response),
}

/// Decides the file route's response from the outcome of the open attempt.
pub fn simple_file_send(opened: bool) -> (r: FileSend)
    ensures
        opened ==> (r matches FileSend::Stream(status) && status == STATUS_OK),
        !opened ==> (r matches FileSend::Fallback(resp) && is_not_found(resp)),
{
    if opened {
        FileSend::Stream(STATUS_OK)
    } else {
        FileSend::Fallback(not_found())
    }
}

/// Two responses that answer a request identically: same status, same
/// content type, and byte-identical bodies.
pub open spec fn response_equivalent(a: Response, b: Response) -> bool {
    &&& a.status == b.status
    &&& a.content_type == b.content_type
    &&& a.body@ == b.body@
}

/// Two dispatcher decisions that answer a request identically.
pub open spec fn dispatch_equivalent(
    r1: Result<Dispatch, ServeError>,
    r2: Result<Dispatch, ServeError>,
) -> bool {
    match (r1, r2) {
        (Ok(Dispatch::Done(a)), Ok(Dispatch::Done(b))) => response_equivalent(a, b),
        (Ok(Dispatch::ReadFile(p)), Ok(Dispatch::ReadFile(q))) => p@ == q@,
        (Ok(Dispatch::CallUpstream(a, ca)), Ok(Dispatch::CallUpstream(b, cb))) => {
            &&& a.method == b.method
            &&& a.url@ == b.url@
            &&& a.content_type == b.content_type
            &&& a.body@ == b.body@
            &&& ca.prefix_bytes@ == cb.prefix_bytes@
        },
        (Err(a), Err(b)) => a == b,
        _ => false,
    }
}

/// Law: dispatching is a function of the request and the configuration
/// alone. Repeating a request yields an equivalent decision — for the file
/// routes the same path, so with unchanged server-side files the transport
/// re-reads identical bytes, and every buffered response is byte-identical.
pub proof fn lemma_dispatch_deterministic(
    m: Method,
    path: Seq<char>,
    body: Seq<u8>,
    cfg: ProxyConfig,
    r1: Result<Dispatch, ServeError>,
    r2: Result<Dispatch, ServeError>,
)
    requires
        dispatch_obligation(m, path, body, cfg, r1),
        dispatch_obligation(m, path, body, cfg, r2),
    ensures
        dispatch_equivalent(r1, r2),
{
}

/// Law: the canned GET answer is independent of the request — any two
/// responses meeting its description are interchangeable, byte for byte.
pub proof fn lemma_canned_list_independent(a: Response, b: Response)
    requires
        is_canned_list_response(a),
        is_canned_list_response(b),
    ensures
        response_equivalent(a, b),
{
}

} // verus!
