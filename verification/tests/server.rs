use tinyserve::dispatch::{
    file_path, req_handler, route, simple_file_send, Dispatch, FileSend, Route,
};
use tinyserve::http::{not_found, ContentType, Method, Response, ServeError};
use tinyserve::json::{api_get_resp, api_post_resp, set_doc_key, Json};
use tinyserve::proxy::{outbound_request, proxy_body_stream, proxy_prefix, ProxyConfig};
use tinyserve::stream::{reassemble, ProxyBodyStream};
use tinyserve::text::str_eq;

const PAYLOAD: &str = "{\"original\": \"data\"}";
const URL: &str = "http://127.0.0.1:3000/json_api";

#[test]
fn routing_table_supported_pairs() {
    assert_eq!(route(Method::Get, "/"), Route::IndexFile);
    assert_eq!(route(Method::Get, "/index.html"), Route::IndexFile);
    assert_eq!(route(Method::Get, "/test.html"), Route::Proxy);
    assert_eq!(route(Method::Post, "/json_api"), Route::JsonEcho);
    assert_eq!(route(Method::Get, "/json_api"), Route::JsonList);
    assert_eq!(route(Method::Get, "/no_file.html"), Route::MissingFile);
}

#[test]
fn routing_table_unsupported_pairs() {
    assert_eq!(route(Method::Post, "/"), Route::NotFound);
    assert_eq!(route(Method::Post, "/index.html"), Route::NotFound);
    assert_eq!(route(Method::Post, "/test.html"), Route::NotFound);
    assert_eq!(route(Method::Post, "/no_file.html"), Route::NotFound);
    assert_eq!(route(Method::Other, "/json_api"), Route::NotFound);
    assert_eq!(route(Method::Get, "/missing"), Route::NotFound);
    assert_eq!(route(Method::Get, ""), Route::NotFound);
    assert_eq!(route(Method::Get, "/index.htm"), Route::NotFound);
    assert_eq!(route(Method::Get, "/json_api/"), Route::NotFound);
}

#[test]
fn not_found_is_canned() {
    let r = not_found();
    assert_eq!(r.status, 404);
    assert!(r.content_type.is_none());
    assert_eq!(r.body, b"Not Found".to_vec());
}

#[test]
fn str_eq_compares_contents() {
    assert!(str_eq("abc", "abc"));
    assert!(!str_eq("abc", "abd"));
    assert!(!str_eq("abc", "abcd"));
    assert!(str_eq("", ""));
}

#[test]
fn file_path_prefixes_directory() {
    assert_eq!(file_path("index.html"), "src/html/index.html");
    assert_eq!(file_path("x"), "src/html/x");
}

#[test]
fn file_send_opened_streams() {
    match simple_file_send(true) {
        FileSend::Stream(status) => assert_eq!(status, 200),
        FileSend::Fallback(_) => panic!("an opened file must stream"),
    }
}

#[test]
fn file_send_missing_falls_back() {
    match simple_file_send(false) {
        FileSend::Stream(_) => panic!("a missing file must fall back"),
        FileSend::Fallback(r) => {
            assert_eq!(r.status, 404);
            assert_eq!(r.body, b"Not Found".to_vec());
        },
    }
}

#[test]
fn reassemble_is_lossless() {
    let chunks = vec![b"he".to_vec(), b"llo ".to_vec(), vec![], b"world".to_vec()];
    assert_eq!(reassemble(&chunks), b"hello world".to_vec());
}

#[test]
fn reassemble_ignores_chunk_boundaries() {
    let one = vec![b"hello world".to_vec()];
    let many = vec![
        b"h".to_vec(),
        b"e".to_vec(),
        b"llo".to_vec(),
        b" world".to_vec(),
    ];
    assert_eq!(reassemble(&one), reassemble(&many));
}

#[test]
fn proxy_prefix_embeds_payload() {
    let p = proxy_prefix(PAYLOAD);
    assert_eq!(
        p,
        "<p><b>POST request body</b>:</p>{\"original\": \"data\"}<br/><br/><b>Response</></b>:</p>"
    );
}

#[test]
fn proxy_stream_chains_prefix_then_upstream() {
    let mut s = ProxyBodyStream::new(b"HEAD".to_vec());
    let mut drained: Vec<u8> = Vec::new();
    drained.extend_from_slice(&s.take_prefix());
    for chunk in [b"one".to_vec(), b"two".to_vec()] {
        drained.extend_from_slice(&s.forward_chunk(chunk));
    }
    assert_eq!(drained, b"HEADonetwo".to_vec());
}

#[test]
fn proxy_stream_forwards_unchanged() {
    let cfg = ProxyConfig::local_default();
    let mut s = proxy_body_stream(&cfg);
    let head = s.take_prefix();
    assert!(head.starts_with(b"<p><b>POST request body</b>:</p>"));
    let echoed = s.forward_chunk(b"{\"original\":\"data\",\"test\":\"test_value\"}".to_vec());
    assert_eq!(
        echoed,
        b"{\"original\":\"data\",\"test\":\"test_value\"}".to_vec()
    );
}

#[test]
fn outbound_request_follows_config() {
    let cfg = ProxyConfig::local_default();
    let req = outbound_request(&cfg);
    assert_eq!(req.method, Method::Post);
    assert_eq!(req.url, URL);
    assert_eq!(req.content_type, ContentType::Json);
    assert_eq!(req.body, PAYLOAD);
}

#[test]
fn config_constructor_keeps_values() {
    let cfg = ProxyConfig::new("http://example.invalid/x".to_string(), "{}".to_string());
    assert_eq!(cfg.url, "http://example.invalid/x");
    assert_eq!(cfg.post_data, "{}");
}

#[test]
fn get_json_api_serves_canned_list() {
    let r = api_get_resp();
    assert_eq!(r.status, 200);
    assert_eq!(r.content_type, Some(ContentType::Json));
    assert_eq!(r.body, b"[\"foo\",\"bar\"]".to_vec());
}

#[test]
fn get_json_api_is_idempotent() {
    assert_eq!(api_get_resp(), api_get_resp());
}

#[test]
fn post_json_api_injects_marker() {
    let r = api_post_resp(b"{\"a\":1}").expect("a valid object must echo");
    assert_eq!(r.status, 200);
    assert_eq!(r.content_type, Some(ContentType::Json));
    assert_eq!(r.body, b"{\"a\":1,\"test\":\"test_value\"}".to_vec());
}

#[test]
fn post_json_api_keeps_other_fields() {
    let r = api_post_resp(b"{\"pi\":3.25,\"ok\":true,\"s\":\"x\"}").unwrap();
    assert_eq!(
        r.body,
        b"{\"ok\":true,\"pi\":3.25,\"s\":\"x\",\"test\":\"test_value\"}".to_vec()
    );
}

#[test]
fn post_json_api_overwrites_existing_marker() {
    let r = api_post_resp(b"{\"test\":\"old\",\"b\":false}").unwrap();
    assert_eq!(
        r.body,
        b"{\"b\":false,\"test\":\"test_value\"}".to_vec()
    );
}

#[test]
fn post_json_api_null_becomes_object() {
    let r = api_post_resp(b"null").unwrap();
    assert_eq!(r.body, b"{\"test\":\"test_value\"}".to_vec());
}

#[test]
fn post_json_api_rejects_invalid_json() {
    assert_eq!(api_post_resp(b"{oops"), Err(ServeError::MalformedInput));
    assert_eq!(api_post_resp(b""), Err(ServeError::MalformedInput));
}

#[test]
fn post_json_api_rejects_non_object_documents() {
    assert_eq!(api_post_resp(b"[1,2]"), Err(ServeError::MalformedInput));
    assert_eq!(api_post_resp(b"42"), Err(ServeError::MalformedInput));
    assert_eq!(api_post_resp(b"\"s\""), Err(ServeError::MalformedInput));
}

#[test]
fn set_doc_key_on_object_binds_key() {
    let doc = Json::Obj(vec![("a".to_string(), Json::Bool(true))]);
    let out = set_doc_key(doc, "k", Json::Null).unwrap();
    assert_eq!(
        out,
        Json::Obj(vec![
            ("a".to_string(), Json::Bool(true)),
            ("k".to_string(), Json::Null),
        ])
    );
}

#[test]
fn set_doc_key_overwrites_first_occurrence() {
    let doc = Json::Obj(vec![
        ("k".to_string(), Json::Bool(false)),
        ("b".to_string(), Json::Null),
    ]);
    let out = set_doc_key(doc, "k", Json::Bool(true)).unwrap();
    assert_eq!(
        out,
        Json::Obj(vec![
            ("k".to_string(), Json::Bool(true)),
            ("b".to_string(), Json::Null),
        ])
    );
}

#[test]
fn set_doc_key_rejects_scalars() {
    assert_eq!(
        set_doc_key(Json::Bool(true), "k", Json::Null),
        Err(ServeError::MalformedInput)
    );
}

fn dispatch(method: Method, path: &str, body: &[u8]) -> Result<Dispatch, ServeError> {
    let cfg = ProxyConfig::local_default();
    req_handler(method, path, body, &cfg)
}

#[test]
fn dispatcher_serves_index_routes_as_file_reads() {
    for path in ["/", "/index.html"] {
        match dispatch(Method::Get, path, b"") {
            Ok(Dispatch::ReadFile(p)) => assert_eq!(p, "src/html/index.html"),
            _ => panic!("the index routes must read the index file"),
        }
    }
}

#[test]
fn dispatcher_serves_missing_file_route() {
    match dispatch(Method::Get, "/no_file.html", b"") {
        Ok(Dispatch::ReadFile(p)) => {
            assert_eq!(p, "src/html/this_file_should_not_exist.html")
        },
        _ => panic!("the missing-file route must attempt a file read"),
    }
}

#[test]
fn dispatcher_serves_proxy_route_as_upstream_call() {
    match dispatch(Method::Get, "/test.html", b"") {
        Ok(Dispatch::CallUpstream(req, mut chain)) => {
            assert_eq!(req.url, URL);
            assert_eq!(req.body, PAYLOAD);
            assert_eq!(req.method, Method::Post);
            let head = chain.take_prefix();
            assert!(head.starts_with(b"<p><b>POST request body</b>:</p>"));
            assert!(head
                .windows(PAYLOAD.len())
                .any(|w| w == PAYLOAD.as_bytes()));
        },
        _ => panic!("the proxy route must call upstream"),
    }
}

#[test]
fn dispatcher_serves_json_routes_inline() {
    match dispatch(Method::Post, "/json_api", b"{\"a\":1}") {
        Ok(Dispatch::Done(r)) => {
            assert_eq!(r.body, b"{\"a\":1,\"test\":\"test_value\"}".to_vec())
        },
        _ => panic!("the echo route must answer inline"),
    }
    match dispatch(Method::Get, "/json_api", b"ignored") {
        Ok(Dispatch::Done(r)) => assert_eq!(r.body, b"[\"foo\",\"bar\"]".to_vec()),
        _ => panic!("the canned route must answer inline"),
    }
}

#[test]
fn dispatcher_propagates_malformed_echo_input() {
    assert!(matches!(
        dispatch(Method::Post, "/json_api", b"nonsense"),
        Err(ServeError::MalformedInput)
    ));
}

#[test]
fn dispatcher_falls_back_to_not_found() {
    match dispatch(Method::Other, "/json_api", b"") {
        Ok(Dispatch::Done(r)) => {
            assert_eq!(r.status, 404);
            assert_eq!(r.body, b"Not Found".to_vec());
        },
        _ => panic!("an unknown pair must get the canned 404"),
    }
}

#[test]
fn dispatcher_get_routes_are_idempotent() {
    let first = dispatch(Method::Get, "/json_api", b"");
    let second = dispatch(Method::Get, "/json_api", b"");
    match (first, second) {
        (Ok(Dispatch::Done(a)), Ok(Dispatch::Done(b))) => assert_eq!(a, b),
        _ => panic!("the canned route must answer inline both times"),
    }
    let first = dispatch(Method::Get, "/index.html", b"");
    let second = dispatch(Method::Get, "/index.html", b"");
    match (first, second) {
        (Ok(Dispatch::ReadFile(a)), Ok(Dispatch::ReadFile(b))) => assert_eq!(a, b),
        _ => panic!("the file route must read a file both times"),
    }
}

#[test]
fn echo_round_trip_preserves_unicode_strings() {
    let r = api_post_resp("{\"greeting\":\"gr\u{00fc}\u{00df}\"}".as_bytes()).unwrap();
    let expected = "{\"greeting\":\"gr\u{00fc}\u{00df}\",\"test\":\"test_value\"}";
    assert_eq!(r.body, expected.as_bytes().to_vec());
}

#[test]
fn echo_rendering_matches_serde_json() {
    let input = b"{\"nested\":{\"a\":[1,2,3]},\"z\":null}";
    let r = api_post_resp(input).unwrap();
    let mut v: serde_json::Value = serde_json::from_slice(input).unwrap();
    v["test"] = serde_json::Value::from("test_value");
    assert_eq!(r.body, serde_json::to_vec(&v).unwrap());
}

fn response_parts(r: &Response) -> (u16, Vec<u8>) {
    (r.status, r.body.clone())
}

#[test]
fn scenario_fixed_table() {
    let (status, body) = match dispatch(Method::Post, "/json_api", b"{\"a\":1}") {
        Ok(Dispatch::Done(r)) => response_parts(&r),
        _ => panic!("echo must answer inline"),
    };
    assert_eq!(status, 200);
    assert_eq!(body, b"{\"a\":1,\"test\":\"test_value\"}".to_vec());

    let fallback = match simple_file_send(false) {
        FileSend::Fallback(r) => response_parts(&r),
        FileSend::Stream(_) => panic!("the absent file must fall back"),
    };
    assert_eq!(fallback, (404, b"Not Found".to_vec()));

    let (status, body) = match dispatch(Method::Get, "/json_api", b"") {
        Ok(Dispatch::Done(r)) => response_parts(&r),
        _ => panic!("the canned route must answer inline"),
    };
    assert_eq!(status, 200);
    assert_eq!(body, b"[\"foo\",\"bar\"]".to_vec());
}
