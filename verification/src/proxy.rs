use vstd::prelude::*;
use vstd::string::StringExecFns;
use vstd::string::StrSliceExecFns;
use crate::http::{ContentType, Method};
use crate::stream::ProxyBodyStream;

verus! {

/// The upstream target and payload of the proxy route, passed in at startup
/// rather than read from process-wide constants.
pub struct ProxyConfig {
    pub url: String,
    pub post_data: String,
}

impl ProxyConfig {
    pub fn new(url: String, post_data: String) -> (c: Self)
        ensures
            c.url@ == url@,
            c.post_data@ == post_data@,
    {
        ProxyConfig { url, post_data }
    }

    /// The values the server itself runs with: the loopback JSON endpoint,
    /// and the fixed literal payload sent to it.
    pub fn local_default() -> (c: Self)
        ensures
            c.url@ == "http://127.0.0.1:3000/json_api"@,
            c.post_data@ == "{\"original\": \"data\"}"@,
    {
        ProxyConfig {
            url: "http://127.0.0.1:3000/json_api".to_owned(),
            post_data: "{\"original\": \"data\"}".to_owned(),
        }
    }
}

/// The one request the proxy route sends upstream: a POST of the configured
/// payload, as JSON, to the configured URL.
pub struct OutboundRequest {
    pub method: Method,
    pub url: String,
    pub content_type: ContentType,
    pub body: String,
}

/// How the outbound request is determined by the configuration.
pub open spec fn is_outbound_request(req: OutboundRequest, cfg: ProxyConfig) -> bool {
    &&& req.method == Method::Post
    &&& req.url@ == cfg.url@
    &&& req.content_type == ContentType::Json
    &&& req.body@ == cfg.post_data@
}

/// Builds the upstream request the proxy route issues.
pub fn outbound_request(cfg: &ProxyConfig) -> (req: OutboundRequest)
    ensures
        is_outbound_request(req, *cfg),
{
    OutboundRequest {
        method: Method::Post,
        url: cfg.url.clone(),
        content_type: ContentType::Json,
        body: cfg.post_data.clone(),
    }
}

/// The synthetic text chunk the proxy response opens with: a label, the
/// literal payload that was sent upstream, and a divider before the relayed
/// response.
pub open spec fn spec_proxy_prefix(post_data: Seq<char>) -> Seq<char> {
    "<p><b>POST request body</b>:</p>"@ + post_data + "<br/><br/><b>Response</></b>:</p>"@
}

/// Renders the synthetic text chunk, eagerly and in full, before the
/// upstream body starts.
pub fn proxy_prefix(post_data: &str) -> (s: String)
    ensures
        s@ == spec_proxy_prefix(post_data@),
{
    let mut s = "<p><b>POST request body</b>:</p>".to_owned();
    s.append(post_data);
    s.append("<br/><br/><b>Response</></b>:</p>");
    s
}

/// The proxy response body, ready to stream: the synthetic prefix for this
/// configuration first, then whatever the upstream call hands back, chunk
/// by chunk and unchanged.
pub fn proxy_body_stream(cfg: &ProxyConfig) -> (s: ProxyBodyStream)
    ensures
        s.wf(),
        s.prefix_pending(),
        s.prefix_bytes@ == crate::http::bytes_of(spec_proxy_prefix(cfg.post_data@)),
{
    let p = proxy_prefix(cfg.post_data.as_str());
    ProxyBodyStream::new(p.as_str().as_bytes_vec())
}

} // verus!
