use vstd::prelude::*;
use vstd::string::StrSliceExecFns;
use crate::http::{ContentType, Response, ServeError, STATUS_OK, STATUS_INTERNAL_SERVER_ERROR};
use crate::text::str_eq;

verus! {

broadcast use vstd::std_specs::vec::group_vec_axioms;

/// A JSON document, held as plain values. A numeric leaf keeps the literal
/// text of the number, exactly as the parser rendered it, so that no
/// precision is lost on the way through. An object keeps its members as an
/// ordered list of pairs.
#[derive(Debug, PartialEq, Eq)]
pub enum Json {
    Null,
    Bool(bool),
    Num(String),
    Str(String),
    Arr(Vec<Json>),
    Obj(Vec<(String, Json)>),
}

/// The mathematical model of a document: the same tree over character and
/// value sequences.
pub enum JsonV {
    Null,
    Bool(bool),
    Num(Seq<char>),
    Str(Seq<char>),
    Arr(Seq<JsonV>),
    Obj(Seq<(Seq<char>, JsonV)>),
}

/// The model of one document node.
pub open spec fn json_view(j: Json) -> JsonV
    decreases j,
{
    match j {
        Json::Null => JsonV::Null,
        Json::Bool(b) => JsonV::Bool(b),
        Json::Num(s) => JsonV::Num(s@),
        Json::Str(s) => JsonV::Str(s@),
        Json::Arr(items) => JsonV::Arr(arr_view(items@)),
        Json::Obj(pairs) => JsonV::Obj(obj_view(pairs@)),
    }
}

/// The models of an array's elements, in order.
pub open spec fn arr_view(items: Seq<Json>) -> Seq<JsonV>
    decreases items,
{
    if items.len() == 0 {
        Seq::empty()
    } else {
        seq![json_view(items[0])] + arr_view(items.drop_first())
    }
}

/// The models of an object's members, in order.
pub open spec fn obj_view(pairs: Seq<(String, Json)>) -> Seq<(Seq<char>, JsonV)>
    decreases pairs,
{
    if pairs.len() == 0 {
        Seq::empty()
    } else {
        seq![(pairs[0].0@, json_view(pairs[0].1))] + obj_view(pairs.drop_first())
    }
}

impl View for Json {
    type V = JsonV;

    open spec fn view(&self) -> JsonV {
        json_view(*self)
    }
}

/// How an array's model meets its elements' models, member by member.
pub proof fn lemma_arr_view_index(items: Seq<Json>)
    ensures
        arr_view(items).len() == items.len(),
        forall|i: int| 0 <= i < items.len() ==> arr_view(items)[i] == json_view(#[trigger] items[i]),
    decreases items,
{
    if items.len() > 0 {
        lemma_arr_view_index(items.drop_first());
        assert forall|i: int| 0 <= i < items.len() implies arr_view(items)[i] == json_view(
            #[trigger] items[i],
        ) by {
            if i > 0 {
                assert(items.drop_first()[i - 1] == items[i]);
                assert(arr_view(items)[i] == arr_view(items.drop_first())[i - 1]);
            }
        }
    }
}

/// How an object's model meets its members' models, member by member.
pub proof fn lemma_obj_view_index(pairs: Seq<(String, Json)>)
    ensures
        obj_view(pairs).len() == pairs.len(),
        forall|i: int|
            0 <= i < pairs.len() ==> obj_view(pairs)[i] == (
                (#[trigger] pairs[i]).0@,
                json_view(pairs[i].1),
            ),
    decreases pairs,
{
    if pairs.len() > 0 {
        lemma_obj_view_index(pairs.drop_first());
        assert forall|i: int| 0 <= i < pairs.len() implies obj_view(pairs)[i] == (
            (#[trigger] pairs[i]).0@,
            json_view(pairs[i].1),
        ) by {
            if i > 0 {
                assert(pairs.drop_first()[i - 1] == pairs[i]);
                assert(obj_view(pairs)[i] == obj_view(pairs.drop_first())[i - 1]);
            }
        }
    }
}

/// What `serde_json::from_slice::<serde_json::Value>` returns for these
/// bytes, as this library's document model; `None` where parsing fails.
pub uninterp spec fn parse_of(bytes: Seq<u8>) -> Option<JsonV>;

/// Whether `serde_json::Number::from_str` accepts this text as a JSON
/// number literal.
pub uninterp spec fn num_text_ok(text: Seq<char>) -> bool;

/// What `serde_json::to_vec` renders for a document with this model.
pub uninterp spec fn ser_of(doc: JsonV) -> Seq<u8>;

/// Every numeric leaf of the document carries a literal that the number
/// parser accepts; such a document can always be rendered back to bytes.
pub open spec fn nums_ok(doc: JsonV) -> bool
    decreases doc,
{
    match doc {
        JsonV::Null => true,
        JsonV::Bool(_) => true,
        JsonV::Num(text) => num_text_ok(text),
        JsonV::Str(_) => true,
        JsonV::Arr(items) => forall|i: int|
            0 <= i < items.len() ==> nums_ok(#[trigger] items[i]),
        JsonV::Obj(pairs) => forall|i: int|
            0 <= i < pairs.len() ==> nums_ok(#[trigger] pairs[i].1),
    }
}

#[verifier::external_type_specification]
#[verifier::external_body]
pub struct ExJsonValue(serde_json::Value);

#[verifier::external_type_specification]
#[verifier::external_body]
pub struct ExJsonError(serde_json::Error);

/// Converts a parsed `serde_json::Value` into the library's document model,
/// one node for one node; a numeric node keeps the text that
/// `serde_json::Number`'s `Display` renders for it. This runs only inside
/// the trusted parse wrapper, whose contract speaks for the composition;
/// nothing is claimed of this function alone.
#[verifier::external_body]
fn value_to_json(v: serde_json::Value) -> Json {
    match v {
        serde_json::Value::Null => Json::Null,
        serde_json::Value::Bool(b) => Json::Bool(b),
        serde_json::Value::Number(n) => Json::Num(n.to_string()),
        serde_json::Value::String(s) => Json::Str(s),
        serde_json::Value::Array(a) => Json::Arr(a.into_iter().map(value_to_json).collect()),
        serde_json::Value::Object(m) => Json::Obj(
            m.into_iter().map(|(k, w)| (k, value_to_json(w))).collect(),
        ),
    }
}

/// Rebuilds a `serde_json::Value` from the library's document model, one
/// node for one node; a numeric leaf goes through
/// `serde_json::Number::from_str`, the one step that can fail. This runs
/// only inside the trusted render wrapper; nothing is claimed of this
/// function alone.
#[verifier::external_body]
fn json_to_value(doc: &Json) -> Result<serde_json::Value, serde_json::Error> {
    Ok(match doc {
        Json::Null => serde_json::Value::Null,
        Json::Bool(b) => serde_json::Value::Bool(*b),
        Json::Num(s) => serde_json::Value::Number(s.parse::<serde_json::Number>()?),
        Json::Str(s) => serde_json::Value::String(s.clone()),
        Json::Arr(items) => serde_json::Value::Array(
            items.iter().map(json_to_value).collect::<Result<_, _>>()?,
        ),
        Json::Obj(pairs) => serde_json::Value::Object(
            pairs.iter().map(|(k, w)| Ok((k.clone(), json_to_value(w)?))).collect::<Result<
                _,
                _,
            >>()?,
        ),
    })
}

/// Relies on `serde_json::from_slice`: parses the bytes as one JSON
/// document, `Err` exactly where they are not valid JSON. The numeric
/// literals in the returned model are rendered by `serde_json::Number`'s
/// `Display`, whose finite output `serde_json::Number::from_str` accepts
/// again.
#[verifier::external_body]
pub(crate) fn parse_json_bytes(bytes: &[u8]) -> (r: Result<Json, serde_json::Error>)
    ensures
        r is Ok <==> parse_of(bytes@) is Some,
        r matches Ok(doc) ==> parse_of(bytes@) == Some(doc@) && nums_ok(doc@),
        r matches Ok(doc) && doc@ matches JsonV::Num(text) ==> num_text_ok(text),
{
    match serde_json::from_slice::<serde_json::Value>(bytes) {
        Ok(v) => Ok(value_to_json(v)),
        Err(e) => Err(e),
    }
}

/// Relies on `serde_json::to_vec`: renders the document as JSON text. Its
/// documentation names exactly two failure causes — a failing `Serialize`
/// impl and a map with non-string keys — and a `serde_json::Value` has
/// neither; rebuilding the value beforehand can fail only where a numeric
/// literal of the document is not accepted by
/// `serde_json::Number::from_str`.
#[verifier::external_body]
pub(crate) fn to_json_bytes(doc: &Json) -> (r: Result<Vec<u8>, serde_json::Error>)
    ensures
        nums_ok(doc@) ==> r is Ok,
        r matches Ok(bytes) ==> bytes@ == ser_of(doc@),
{
    let v = json_to_value(doc)?;
    serde_json::to_vec(&v)
}

/// Where a key is bound in a member list: the value at its first
/// occurrence, or nothing.
pub open spec fn lookup(pairs: Seq<(Seq<char>, JsonV)>, key: Seq<char>) -> Option<JsonV>
    decreases pairs,
{
    if pairs.len() == 0 {
        None
    } else if pairs[0].0 == key {
        Some(pairs[0].1)
    } else {
        lookup(pairs.drop_first(), key)
    }
}

/// A member list with one key set: the value at the key's first occurrence
/// is replaced, a missing key is appended at the end, and every other
/// member stays where it was.
pub open spec fn spec_set_key(
    pairs: Seq<(Seq<char>, JsonV)>,
    key: Seq<char>,
    value: JsonV,
) -> Seq<(Seq<char>, JsonV)>
    decreases pairs,
{
    if pairs.len() == 0 {
        seq![(key, value)]
    } else if pairs[0].0 == key {
        seq![(key, value)] + pairs.drop_first()
    } else {
        seq![pairs[0]] + spec_set_key(pairs.drop_first(), key, value)
    }
}

/// Law: setting a key binds exactly that key to the new value, and leaves
/// every other key bound to what it was bound to before.
pub proof fn lemma_set_key_semantics(pairs: Seq<(Seq<char>, JsonV)>, key: Seq<char>, value: JsonV)
    ensures
        lookup(spec_set_key(pairs, key, value), key) == Some(value),
        forall|other: Seq<char>|
            other != key ==> lookup(spec_set_key(pairs, key, value), other) == lookup(
                pairs,
                other,
            ),
    decreases pairs,
{
    let out = spec_set_key(pairs, key, value);
    if pairs.len() == 0 {
        assert(out.drop_first() =~= Seq::<(Seq<char>, JsonV)>::empty());
        assert forall|other: Seq<char>| other != key implies lookup(out, other) == lookup(
            pairs,
            other,
        ) by {
            assert(lookup(out, other) == lookup(out.drop_first(), other));
        }
    } else if pairs[0].0 == key {
        assert(out.drop_first() =~= pairs.drop_first());
        assert forall|other: Seq<char>| other != key implies lookup(out, other) == lookup(
            pairs,
            other,
        ) by {
            assert(lookup(out, other) == lookup(out.drop_first(), other));
            assert(lookup(pairs, other) == lookup(pairs.drop_first(), other));
        }
    } else {
        lemma_set_key_semantics(pairs.drop_first(), key, value);
        assert(out.drop_first() =~= spec_set_key(pairs.drop_first(), key, value));
        assert(out[0] == pairs[0]);
        assert(lookup(out, key) == lookup(out.drop_first(), key));
        assert forall|other: Seq<char>| other != key implies lookup(out, other) == lookup(
            pairs,
            other,
        ) by {
            if pairs[0].0 != other {
                assert(lookup(out, other) == lookup(out.drop_first(), other));
                assert(lookup(pairs, other) == lookup(pairs.drop_first(), other));
            }
        }
    }
}

/// `spec_set_key` walks past a prefix in which the key does not occur.
proof fn lemma_set_key_skip(
    pairs: Seq<(Seq<char>, JsonV)>,
    key: Seq<char>,
    value: JsonV,
    i: int,
)
    requires
        0 <= i <= pairs.len(),
        forall|j: int| 0 <= j < i ==> (#[trigger] pairs[j]).0 != key,
    ensures
        spec_set_key(pairs, key, value) == pairs.take(i) + spec_set_key(
            pairs.skip(i),
            key,
            value,
        ),
    decreases i,
{
    if i == 0 {
        assert(pairs.skip(0) =~= pairs);
        assert(pairs.take(0) + spec_set_key(pairs, key, value) =~= spec_set_key(
            pairs,
            key,
            value,
        ));
    } else {
        let rest = pairs.drop_first();
        assert forall|j: int| 0 <= j < i - 1 implies (#[trigger] rest[j]).0 != key by {
            assert(rest[j] == pairs[j + 1]);
        }
        lemma_set_key_skip(rest, key, value, i - 1);
        assert(rest.skip(i - 1) =~= pairs.skip(i));
        assert(seq![pairs[0]] + (rest.take(i - 1) + spec_set_key(pairs.skip(i), key, value))
            =~= pairs.take(i) + spec_set_key(pairs.skip(i), key, value));
    }
}

/// Every member value of a member list with one key set satisfies
/// `nums_ok`, provided they all did before and the new value does.
proof fn lemma_set_key_nums_ok(pairs: Seq<(Seq<char>, JsonV)>, key: Seq<char>, value: JsonV)
    requires
        forall|i: int| 0 <= i < pairs.len() ==> nums_ok((#[trigger] pairs[i]).1),
        nums_ok(value),
    ensures
        forall|i: int|
            0 <= i < spec_set_key(pairs, key, value).len() ==> nums_ok(
                (#[trigger] spec_set_key(pairs, key, value)[i]).1,
            ),
    decreases pairs,
{
    let out = spec_set_key(pairs, key, value);
    if pairs.len() == 0 {
    } else if pairs[0].0 == key {
        assert forall|i: int| 0 <= i < out.len() implies nums_ok((#[trigger] out[i]).1) by {
            if i > 0 {
                assert(out[i] == pairs[i]);
            }
        }
    } else {
        assert forall|j: int| 0 <= j < pairs.drop_first().len() implies nums_ok(
            (#[trigger] pairs.drop_first()[j]).1,
        ) by {
            assert(pairs.drop_first()[j] == pairs[j + 1]);
        }
        lemma_set_key_nums_ok(pairs.drop_first(), key, value);
        let rec = spec_set_key(pairs.drop_first(), key, value);
        assert forall|i: int| 0 <= i < out.len() implies nums_ok((#[trigger] out[i]).1) by {
            if i == 0 {
                assert(out[0] == pairs[0]);
            } else {
                assert(out[i] == rec[i - 1]);
            }
        }
    }
}

/// Sets one key of an object's member list in place, as `spec_set_key`
/// says: overwrite at the key's first occurrence, else append.
pub fn set_key(pairs: &mut Vec<(String, Json)>, key: &str, value: Json)
    ensures
        obj_view(final(pairs)@) == spec_set_key(obj_view(old(pairs)@), key@, json_view(value)),
{
    let ghost ps = obj_view(old(pairs)@);
    let ghost vv = json_view(value);
    proof {
        lemma_obj_view_index(old(pairs)@);
    }
    let n = pairs.len();
    let mut i: usize = 0;
    while i < n
        invariant
            pairs@ == old(pairs)@,
            n == pairs@.len(),
            i <= n,
            ps == obj_view(pairs@),
            vv == json_view(value),
            forall|j: int| 0 <= j < i ==> (#[trigger] ps[j]).0 != key@,
            ps.len() == n,
            forall|j: int| 0 <= j < n ==> #[trigger] ps[j] == (pairs@[j].0@, json_view(pairs@[j].1)),
        decreases n - i,
    {
        if str_eq(pairs[i].0.as_str(), key) {
            proof {
                lemma_set_key_skip(ps, key@, vv, i as int);
                assert(ps.skip(i as int)[0] == ps[i as int]);
                assert(spec_set_key(ps.skip(i as int), key@, vv) == seq![(key@, vv)] + ps.skip(
                    i as int,
                ).drop_first());
            }
            pairs[i].1 = value;
            proof {
                lemma_obj_view_index(pairs@);
                let idx = i as int;
                let target = ps.take(idx) + (seq![(key@, vv)] + ps.skip(idx).drop_first());
                assert(spec_set_key(ps, key@, vv) == target);
                assert(pairs@ == old(pairs)@.update(idx, (old(pairs)@[idx].0, value)));
                assert forall|j: int| 0 <= j < ps.len() implies #[trigger] obj_view(pairs@)[j]
                    == target[j] by {
                    if j < idx {
                        assert(target[j] == ps.take(idx)[j]);
                        assert(ps.take(idx)[j] == ps[j]);
                        assert(pairs@[j] == old(pairs)@[j]);
                    } else if j == idx {
                        assert(target[j] == (seq![(key@, vv)] + ps.skip(idx).drop_first())[0]);
                        assert(pairs@[j].0@ == key@);
                        assert(pairs@[j].1 == value);
                        assert(json_view(pairs@[j].1) == vv);
                    } else {
                        assert(target[j] == (seq![(key@, vv)] + ps.skip(idx).drop_first())[j
                            - idx]);
                        assert((seq![(key@, vv)] + ps.skip(idx).drop_first())[j - idx] == ps.skip(
                            idx,
                        ).drop_first()[j - idx - 1]);
                        assert(ps.skip(idx).drop_first()[j - idx - 1] == ps.skip(idx)[j - idx]);
                        assert(ps.skip(idx)[j - idx] == ps[j]);
                        assert(pairs@[j] == old(pairs)@[j]);
                    }
                }
                assert(obj_view(pairs@) =~= target);
            }
            return ;
        }
        i = i + 1;
    }
    proof {
        lemma_set_key_skip(ps, key@, vv, n as int);
        assert(ps.skip(n as int) =~= Seq::<(Seq<char>, JsonV)>::empty());
        assert(ps.take(n as int) =~= ps);
    }
    let appended = (key.to_owned(), value);
    proof {
        assert(appended.0@ == key@ && json_view(appended.1) == vv);
    }
    pairs.push(appended);
    proof {
        lemma_obj_view_index(pairs@);
        assert(pairs@ == old(pairs)@.push((pairs@[n as int].0, pairs@[n as int].1)));
        assert forall|j: int| 0 <= j < obj_view(pairs@).len() implies #[trigger] obj_view(
            pairs@,
        )[j] == (ps + seq![(key@, vv)])[j] by {
            if j < n {
                assert(pairs@[j] == old(pairs)@[j]);
                assert((ps + seq![(key@, vv)])[j] == ps[j]);
            } else {
                assert(pairs@[j].0@ == key@ && json_view(pairs@[j].1) == vv);
                assert((ps + seq![(key@, vv)])[j] == (key@, vv));
            }
        }
        assert(obj_view(pairs@) =~= ps + seq![(key@, vv)]);
    }
}

/// Whether a key can be set on the document the way serde_json's index
/// assignment does it: an object takes the binding, and `null` first
/// becomes an empty object. Anything else refuses the assignment.
pub open spec fn insertable(doc: JsonV) -> bool {
    doc is Obj || doc is Null
}

/// An insertable document with one key set.
pub open spec fn spec_set_doc_key(doc: JsonV, key: Seq<char>, value: JsonV) -> JsonV
    recommends
        insertable(doc),
{
    match doc {
        JsonV::Obj(pairs) => JsonV::Obj(spec_set_key(pairs, key, value)),
        _ => JsonV::Obj(seq![(key, value)]),
    }
}

/// Law: a document with one key set keeps every numeric leaf parseable,
/// provided the document and the new value did.
pub proof fn lemma_set_doc_key_nums_ok(doc: JsonV, key: Seq<char>, value: JsonV)
    requires
        nums_ok(doc),
        nums_ok(value),
        insertable(doc),
    ensures
        nums_ok(spec_set_doc_key(doc, key, value)),
{
    match doc {
        JsonV::Obj(pairs) => {
            lemma_set_key_nums_ok(pairs, key, value);
        },
        _ => {
            let out = seq![(key, value)];
            assert(forall|i: int| 0 <= i < out.len() ==> nums_ok((#[trigger] out[i]).1));
        },
    }
}

/// Sets one key on a document, as serde_json's index assignment would: an
/// object takes the binding, `null` becomes an object of just that binding,
/// and anything else is refused as malformed input, the boundary this
/// server fixes for a non-object document.
pub fn set_doc_key(doc: Json, key: &str, value: Json) -> (r: Result<Json, ServeError>)
    ensures
        insertable(json_view(doc)) ==> (r matches Ok(d) && json_view(d) == spec_set_doc_key(
            json_view(doc),
            key@,
            json_view(value),
        )),
        !insertable(json_view(doc)) ==> r == Result::<Json, ServeError>::Err(
            ServeError::MalformedInput,
        ),
{
    match doc {
        Json::Obj(mut pairs) => {
            set_key(&mut pairs, key, value);
            Ok(Json::Obj(pairs))
        },
        Json::Null => {
            let mut pairs: Vec<(String, Json)> = Vec::new();
            proof {
                assert(obj_view(pairs@) =~= Seq::<(Seq<char>, JsonV)>::empty());
            }
            set_key(&mut pairs, key, value);
            Ok(Json::Obj(pairs))
        },
        _ => Err(ServeError::MalformedInput),
    }
}

/// The key the POST echo injects.
pub open spec fn marker_key() -> Seq<char> {
    "test"@
}

/// The value the POST echo binds it to.
pub open spec fn marker_value() -> JsonV {
    JsonV::Str("test_value"@)
}

/// Law: echoing an object mutates exactly one field. The marker key is
/// bound to the marker value, and every other key of the document keeps the
/// value it had — a round trip up to that single binding.
pub proof fn lemma_echo_mutation(doc: JsonV)
    requires
        doc is Obj,
    ensures
        spec_set_doc_key(doc, marker_key(), marker_value()) is Obj,
        lookup(
            spec_set_doc_key(doc, marker_key(), marker_value())->Obj_0,
            marker_key(),
        ) == Some(marker_value()),
        forall|other: Seq<char>|
            other != marker_key() ==> lookup(
                spec_set_doc_key(doc, marker_key(), marker_value())->Obj_0,
                other,
            ) == lookup(doc->Obj_0, other),
{
    lemma_set_key_semantics(doc->Obj_0, marker_key(), marker_value());
}

/// What the POST echo owes for a request body: the parsed document with the
/// marker key set, rendered back to bytes, behind status 200 and the JSON
/// content type. Bytes that do not parse, and documents no key can be set
/// on, are refused as malformed input — exactly those, and nothing else.
pub open spec fn echo_post_obligation(body: Seq<u8>, r: Result<Response, ServeError>) -> bool {
    match parse_of(body) {
        Option::None => r == Result::<Response, ServeError>::Err(ServeError::MalformedInput),
        Option::Some(doc) => if insertable(doc) {
            &&& r matches Ok(resp)
            &&& resp.status == STATUS_OK
            &&& resp.content_type == Some(ContentType::Json)
            &&& resp.body@ == ser_of(spec_set_doc_key(doc, marker_key(), marker_value()))
        } else {
            r == Result::<Response, ServeError>::Err(ServeError::MalformedInput)
        },
    }
}

/// POST `/json_api`: parses the whole request body as one JSON document,
/// sets the key `test` to the string `test_value`, and returns the document
/// rendered back to bytes with status 200 and the JSON content type.
pub fn api_post_resp(body: &[u8]) -> (r: Result<Response, ServeError>)
    ensures
        echo_post_obligation(body@, r),
{
    let doc = match parse_json_bytes(body) {
        Ok(d) => d,
        Err(_) => {
            return Err(ServeError::MalformedInput);
        },
    };
    let ghost dv = json_view(doc);
    let marked = match set_doc_key(doc, "test", Json::Str("test_value".to_owned())) {
        Ok(m) => m,
        Err(e) => {
            return Err(e);
        },
    };
    proof {
        lemma_set_doc_key_nums_ok(dv, "test"@, JsonV::Str("test_value"@));
    }
    match to_json_bytes(&marked) {
        Ok(bytes) => Ok(
            Response { status: STATUS_OK, content_type: Some(ContentType::Json), body: bytes },
        ),
        Err(_) => {
            // A marked document keeps every numeric leaf parseable, so the
            // renderer cannot refuse it.
            proof {
                assert(false);
            }
            Err(ServeError::MalformedInput)
        },
    }
}

/// The canned document the GET variant serves: the list `["foo","bar"]`.
pub open spec fn canned_list() -> JsonV {
    JsonV::Arr(seq![JsonV::Str("foo"@), JsonV::Str("bar"@)])
}

/// What the GET variant always returns: the canned list, rendered, behind
/// status 200 and the JSON content type — independent of the request.
pub open spec fn is_canned_list_response(r: Response) -> bool {
    &&& r.status == STATUS_OK
    &&& r.content_type == Some(ContentType::Json)
    &&& r.body@ == ser_of(canned_list())
}

/// GET `/json_api`: serves the canned list, ignoring the request entirely.
pub fn api_get_resp() -> (r: Response)
    ensures
        is_canned_list_response(r),
{
    let mut items: Vec<Json> = Vec::new();
    let foo = Json::Str("foo".to_owned());
    let bar = Json::Str("bar".to_owned());
    proof {
        assert(json_view(foo) == JsonV::Str("foo"@));
        assert(json_view(bar) == JsonV::Str("bar"@));
    }
    items.push(foo);
    items.push(bar);
    proof {
        lemma_arr_view_index(items@);
        assert(items@[0] == foo && items@[1] == bar);
        assert(arr_view(items@)[0] == JsonV::Str("foo"@));
        assert(arr_view(items@)[1] == JsonV::Str("bar"@));
        assert(arr_view(items@) =~= seq![JsonV::Str("foo"@), JsonV::Str("bar"@)]);
    }
    let doc = Json::Arr(items);
    proof {
        let elems = canned_list()->Arr_0;
        assert forall|i: int| 0 <= i < elems.len() implies nums_ok(#[trigger] elems[i]) by {
            assert(elems[i] is Str);
        }
        assert(nums_ok(json_view(doc)));
    }
    match to_json_bytes(&doc) {
        Ok(bytes) => Response {
            status: STATUS_OK,
            content_type: Some(ContentType::Json),
            body: bytes,
        },
        Err(_) => {
            // The renderer cannot refuse the canned list; this is the one
            // place a refusal would have its own recovery, a fixed 500.
            proof {
                assert(false);
            }
            Response {
                status: STATUS_INTERNAL_SERVER_ERROR,
                content_type: None,
                body: "Internal Server Error".as_bytes_vec(),
            }
        },
    }
}

} // verus!
