//! Inbound envelopes: parsing reply bytes into a JSON tree through
//! `serde_json` (trusted only at that boundary, as general-purpose JSON
//! decoding is outside this layer), decoding the tree into a reply envelope
//! under an exact contract, validating the reply identifier against the
//! identifier sent, and scattering out-of-order batch replies back to their
//! positional slots.

use vstd::prelude::*;

use crate::errors::{ErrorObject, ErrorObjectV, RpcError, RpcErrorV, spec_slot_placeholder};
use crate::ids::{Id, IdV, IdRange, id_eq, id_text, ids_match, spec_id_text};

verus! {

/// `serde_json::Value` carried opaquely through the parsing boundary.
#[verifier::external_type_specification]
#[verifier::external_body]
pub struct ExJsonValue(serde_json::Value);

/// A parsed JSON value, restricted to what this layer reads: JSON null,
/// integers, strings, arrays, and objects as key/value entries. Everything
/// else — booleans, non-integral numbers — is `Other` and is only handed
/// on. `raw` is the value's own JSON text as the JSON layer re-renders it
/// (object keys sorted, no whitespace), not the server's original byte
/// span; it is what a success payload and an error's `data` carry out.
#[derive(Debug, PartialEq, Eq)]
pub struct JsonNode {
    pub raw: Vec<u8>,
    pub kind: JsonKind,
}

/// The shape of a [`JsonNode`].
#[derive(Debug, PartialEq, Eq)]
pub enum JsonKind {
    Null,
    UInt(u64),
    Int(i64),
    Text(Vec<u8>),
    Array(Vec<JsonNode>),
    Entries(Vec<(Vec<u8>, JsonNode)>),
    Other,
}

/// What `serde_json` parses the bytes into, as a [`JsonNode`] tree: `None`
/// for malformed JSON. The result depends on the bytes alone, so it has a
/// name; everything the contracts say about decoded replies is relative to
/// it.
pub uninterp spec fn json_of(body: Seq<u8>) -> Option<JsonNode>;

/// Relies on `serde_json::to_string`: a value's own JSON text. Serializing
/// a parsed `Value` cannot fail (its map keys are strings), so the empty
/// fallback is unreachable. Shared helper of [`node_of_value`].
#[verifier::external_body]
fn raw_of_value(v: &serde_json::Value) -> Vec<u8> {
    serde_json::to_string(v).map(String::into_bytes).unwrap_or_default()
}

/// Relies on `serde_json::Value`'s accessors (`as_u64`, `as_i64` on
/// numbers, string bytes): converts a parsed value variant by variant into
/// a [`JsonNode`] (booleans and non-integral numbers fall to `Other`).
/// Shared helper of [`parse_json_tree`], where the tree is given its name.
#[verifier::external_body]
fn node_of_value(v: &serde_json::Value) -> JsonNode {
    let kind = match v {
        serde_json::Value::Null => JsonKind::Null,
        serde_json::Value::String(s) => JsonKind::Text(s.as_bytes().to_vec()),
        serde_json::Value::Array(a) => JsonKind::Array(a.iter().map(node_of_value).collect()),
        serde_json::Value::Object(m) => JsonKind::Entries(m.iter().map(|(k, x)| (k.as_bytes().to_vec(), node_of_value(x))).collect()),
        serde_json::Value::Number(n) => n.as_u64().map(JsonKind::UInt).or(
            n.as_i64().map(JsonKind::Int),
        ).unwrap_or(JsonKind::Other),
        _ => JsonKind::Other,
    };
    JsonNode { raw: raw_of_value(v), kind }
}

/// Relies on `serde_json::from_slice`: parses one JSON document from bytes,
/// `None` on malformed input. The returned tree is exactly what
/// [`json_of`] names for these bytes.
#[verifier::external_body]
fn parse_json_tree(body: &[u8]) -> (r: Option<JsonNode>)
    ensures
        match r {
            Some(t) => json_of(body@) == Some(t),
            None => json_of(body@) is None,
        },
{
    match serde_json::from_slice::<serde_json::Value>(body) {
        Ok(v) => Some(node_of_value(&v)),
        Err(_) => None,
    }
}

/// `jsonrpc`
pub open spec fn lit_f_jsonrpc() -> Seq<u8> {
    seq![0x6a, 0x73, 0x6f, 0x6e, 0x72, 0x70, 0x63]
}

/// `2.0`
pub open spec fn lit_two_zero() -> Seq<u8> {
    seq![0x32, 0x2e, 0x30]
}

/// `id`
pub open spec fn lit_f_id() -> Seq<u8> {
    seq![0x69, 0x64]
}

/// `result`
pub open spec fn lit_f_result() -> Seq<u8> {
    seq![0x72, 0x65, 0x73, 0x75, 0x6c, 0x74]
}

/// `error`
pub open spec fn lit_f_error() -> Seq<u8> {
    seq![0x65, 0x72, 0x72, 0x6f, 0x72]
}

/// `code`
pub open spec fn lit_f_code() -> Seq<u8> {
    seq![0x63, 0x6f, 0x64, 0x65]
}

/// `message`
pub open spec fn lit_f_message() -> Seq<u8> {
    seq![0x6d, 0x65, 0x73, 0x73, 0x61, 0x67, 0x65]
}

/// `data`
pub open spec fn lit_f_data() -> Seq<u8> {
    seq![0x64, 0x61, 0x74, 0x61]
}

/// The message carried by every parse failure of this layer.
pub open spec fn lit_parse_msg() -> Seq<u8> {
    // "bad reply envelope"
    seq![
        0x62, 0x61, 0x64, 0x20, 0x72, 0x65, 0x70, 0x6c, 0x79, 0x20, 0x65, 0x6e, 0x76, 0x65,
        0x6c, 0x6f, 0x70, 0x65,
    ]
}

/// The parse failure of the inbound payload.
pub open spec fn spec_parse_failure() -> RpcErrorV {
    RpcErrorV::Parse(lit_parse_msg())
}

/// A parse failure of the inbound payload, with its fixed description.
fn parse_failure() -> (r: RpcError)
    ensures
        r@ == spec_parse_failure(),
{
    let mut m: Vec<u8> = Vec::new();
    m.push(0x62);
    m.push(0x61);
    m.push(0x64);
    m.push(0x20);
    m.push(0x72);
    m.push(0x65);
    m.push(0x70);
    m.push(0x6c);
    m.push(0x79);
    m.push(0x20);
    m.push(0x65);
    m.push(0x6e);
    m.push(0x76);
    m.push(0x65);
    m.push(0x6c);
    m.push(0x6f);
    m.push(0x70);
    m.push(0x65);
    assert(m@ =~= lit_parse_msg());
    RpcError::Parse(m)
}

/// The first entry under `name`, if the object has one. Object entries come
/// from the JSON layer with unique keys, so the first is the only one.
pub open spec fn spec_field(es: Seq<(Vec<u8>, JsonNode)>, name: Seq<u8>) -> Option<JsonNode>
    decreases es.len(),
{
    if es.len() == 0 {
        None
    } else if es[0].0@ == name {
        Some(es[0].1)
    } else {
        spec_field(es.skip(1), name)
    }
}

/// Looks a field up in an object's entries.
fn field_of<'a>(es: &'a Vec<(Vec<u8>, JsonNode)>, name: &[u8]) -> (r: Option<&'a JsonNode>)
    ensures
        match r {
            Some(n) => spec_field(es@, name@) == Some(*n),
            None => spec_field(es@, name@) is None,
        },
{
    proof {
        assert(es@.skip(0) =~= es@);
    }
    let mut i: usize = 0;
    while i < es.len()
        invariant
            i <= es@.len(),
            spec_field(es@, name@) == spec_field(es@.skip(i as int), name@),
        decreases es@.len() - i,
    {
        proof {
            assert(es@.skip(i as int)[0] == es@[i as int]);
            assert(es@.skip(i as int).skip(1) =~= es@.skip(i as int + 1));
        }
        let entry = &es[i];
        if crate::text::bytes_eq(entry.0.as_slice(), name) {
            return Some(&entry.1);
        }
        i = i + 1;
    }
    None
}

/// Whether the object declares `"jsonrpc":"2.0"`.
pub open spec fn spec_tag_ok(es: Seq<(Vec<u8>, JsonNode)>) -> bool {
    match spec_field(es, lit_f_jsonrpc()) {
        Some(n) => match n.kind {
            JsonKind::Text(v) => v@ == lit_two_zero(),
            _ => false,
        },
        None => false,
    }
}

/// The reply's identifier member: `None` when the member is missing or not
/// an identifier of this protocol; `Some(None)` for JSON null; otherwise
/// the integer or string identifier.
pub open spec fn spec_reply_id(es: Seq<(Vec<u8>, JsonNode)>) -> Option<Option<IdV>> {
    match spec_field(es, lit_f_id()) {
        None => None,
        Some(n) => match n.kind {
            JsonKind::Null => Some(None),
            JsonKind::UInt(u) => Some(Some(IdV::Num(u))),
            JsonKind::Text(t) => Some(Some(IdV::Text(t@))),
            _ => None,
        },
    }
}

/// The error object's `code` member, which must be an integer that fits an
/// `i64`.
pub open spec fn spec_err_code(ee: Seq<(Vec<u8>, JsonNode)>) -> Option<i64> {
    match spec_field(ee, lit_f_code()) {
        Some(n) => match n.kind {
            JsonKind::UInt(u) => if u <= i64::MAX {
                Some(u as i64)
            } else {
                None
            },
            JsonKind::Int(i) => Some(i),
            _ => None,
        },
        None => None,
    }
}

/// The error object's `message` member, which must be a string.
pub open spec fn spec_err_message(ee: Seq<(Vec<u8>, JsonNode)>) -> Option<Seq<u8>> {
    match spec_field(ee, lit_f_message()) {
        Some(n) => match n.kind {
            JsonKind::Text(t) => Some(t@),
            _ => None,
        },
        None => None,
    }
}

/// The error object's optional `data` member, kept as raw JSON text.
pub open spec fn spec_err_data(ee: Seq<(Vec<u8>, JsonNode)>) -> Option<Seq<u8>> {
    match spec_field(ee, lit_f_data()) {
        Some(n) => Some(n.raw@),
        None => None,
    }
}

/// One decoded reply envelope: its identifier (absent when the wire held
/// JSON null) and its payload.
#[derive(Debug, PartialEq, Eq)]
pub struct RawReply {
    pub id: Option<Id>,
    pub payload: ReplyPayload,
}

/// The payload of a reply: the raw JSON text of `result` on success (the
/// JSON layer's re-rendering of the value, see [`JsonNode`]), or the
/// protocol error object the remote side returned.
#[derive(Debug, PartialEq, Eq)]
pub enum ReplyPayload {
    Success(Vec<u8>),
    Failure(ErrorObject),
}

/// Specification-level image of a [`ReplyPayload`].
pub enum ReplyPayloadV {
    Success(Seq<u8>),
    Failure(ErrorObjectV),
}

impl View for ReplyPayload {
    type V = ReplyPayloadV;

    open spec fn view(&self) -> ReplyPayloadV {
        match self {
            ReplyPayload::Success(b) => ReplyPayloadV::Success(b@),
            ReplyPayload::Failure(e) => ReplyPayloadV::Failure(e@),
        }
    }
}

/// Specification-level image of a [`RawReply`].
pub struct RawReplyV {
    pub id: Option<IdV>,
    pub payload: ReplyPayloadV,
}

/// View of an optional identifier.
pub open spec fn spec_oid(o: Option<Id>) -> Option<IdV> {
    match o {
        Some(i) => Some(i@),
        None => None,
    }
}

impl View for RawReply {
    type V = RawReplyV;

    open spec fn view(&self) -> RawReplyV {
        RawReplyV { id: spec_oid(self.id), payload: self.payload@ }
    }
}

/// What decoding one parsed reply envelope yields: the envelope must be an
/// object declaring `"jsonrpc":"2.0"` and carrying an `id` member (an
/// integer, a string, or null), and either a `result` member (success,
/// kept as the value's raw JSON text) or an `error` member whose `code` is
/// an integer fitting `i64` and whose `message` is a string, with optional
/// `data` kept as raw JSON text. Anything else is the parse failure.
pub open spec fn spec_decode_reply(t: JsonNode) -> Result<RawReplyV, RpcErrorV> {
    match t.kind {
        JsonKind::Entries(es) => {
            if !spec_tag_ok(es@) {
                Err(spec_parse_failure())
            } else {
                match spec_reply_id(es@) {
                    None => Err(spec_parse_failure()),
                    Some(oid) => match spec_field(es@, lit_f_error()) {
                        Some(en) => match en.kind {
                            JsonKind::Entries(ee) => match (
                                spec_err_code(ee@),
                                spec_err_message(ee@),
                            ) {
                                (Some(c), Some(m)) => Ok(
                                    RawReplyV {
                                        id: oid,
                                        payload: ReplyPayloadV::Failure(
                                            ErrorObjectV {
                                                code: c,
                                                message: m,
                                                data: spec_err_data(ee@),
                                            },
                                        ),
                                    },
                                ),
                                _ => Err(spec_parse_failure()),
                            },
                            _ => Err(spec_parse_failure()),
                        },
                        None => match spec_field(es@, lit_f_result()) {
                            Some(rn) => Ok(
                                RawReplyV { id: oid, payload: ReplyPayloadV::Success(rn.raw@) },
                            ),
                            None => Err(spec_parse_failure()),
                        },
                    },
                }
            }
        },
        _ => Err(spec_parse_failure()),
    }
}

/// View of a decoded-reply result.
pub open spec fn reply_res_view(r: Result<RawReply, RpcError>) -> Result<RawReplyV, RpcErrorV> {
    match r {
        Ok(x) => Ok(x@),
        Err(e) => Err(e@),
    }
}

/// `2.0`, byte for byte.
fn is_two_point_zero(t: &[u8]) -> (r: bool)
    ensures
        r == (t@ == lit_two_zero()),
{
    let r = t.len() == 3 && t[0] == 0x32 && t[1] == 0x2e && t[2] == 0x30;
    proof {
        if r {
            assert(t@ =~= lit_two_zero());
        }
    }
    r
}

/// `jsonrpc`, as bytes.
fn name_jsonrpc() -> (r: Vec<u8>)
    ensures
        r@ == lit_f_jsonrpc(),
{
    let mut v: Vec<u8> = Vec::new();
    v.push(0x6a);
    v.push(0x73);
    v.push(0x6f);
    v.push(0x6e);
    v.push(0x72);
    v.push(0x70);
    v.push(0x63);
    assert(v@ =~= lit_f_jsonrpc());
    v
}

/// `id`, as bytes.
fn name_id() -> (r: Vec<u8>)
    ensures
        r@ == lit_f_id(),
{
    let mut v: Vec<u8> = Vec::new();
    v.push(0x69);
    v.push(0x64);
    assert(v@ =~= lit_f_id());
    v
}

/// `result`, as bytes.
fn name_result() -> (r: Vec<u8>)
    ensures
        r@ == lit_f_result(),
{
    let mut v: Vec<u8> = Vec::new();
    v.push(0x72);
    v.push(0x65);
    v.push(0x73);
    v.push(0x75);
    v.push(0x6c);
    v.push(0x74);
    assert(v@ =~= lit_f_result());
    v
}

/// `error`, as bytes.
fn name_error() -> (r: Vec<u8>)
    ensures
        r@ == lit_f_error(),
{
    let mut v: Vec<u8> = Vec::new();
    v.push(0x65);
    v.push(0x72);
    v.push(0x72);
    v.push(0x6f);
    v.push(0x72);
    assert(v@ =~= lit_f_error());
    v
}

/// `code`, as bytes.
fn name_code() -> (r: Vec<u8>)
    ensures
        r@ == lit_f_code(),
{
    let mut v: Vec<u8> = Vec::new();
    v.push(0x63);
    v.push(0x6f);
    v.push(0x64);
    v.push(0x65);
    assert(v@ =~= lit_f_code());
    v
}

/// `message`, as bytes.
fn name_message() -> (r: Vec<u8>)
    ensures
        r@ == lit_f_message(),
{
    let mut v: Vec<u8> = Vec::new();
    v.push(0x6d);
    v.push(0x65);
    v.push(0x73);
    v.push(0x73);
    v.push(0x61);
    v.push(0x67);
    v.push(0x65);
    assert(v@ =~= lit_f_message());
    v
}

/// `data`, as bytes.
fn name_data() -> (r: Vec<u8>)
    ensures
        r@ == lit_f_data(),
{
    let mut v: Vec<u8> = Vec::new();
    v.push(0x64);
    v.push(0x61);
    v.push(0x74);
    v.push(0x61);
    assert(v@ =~= lit_f_data());
    v
}

/// Decodes one parsed reply envelope, exactly as [`spec_decode_reply`]
/// says.
pub fn decode_reply_node(t: &JsonNode) -> (r: Result<RawReply, RpcError>)
    ensures
        reply_res_view(r) == spec_decode_reply(*t),
{
    let es: &Vec<(Vec<u8>, JsonNode)> = match &t.kind {
        JsonKind::Entries(es) => es,
        _ => {
            return Err(parse_failure());
        },
    };
    let tag_ok: bool = match field_of(es, name_jsonrpc().as_slice()) {
        Some(n) => match &n.kind {
            JsonKind::Text(v) => is_two_point_zero(v.as_slice()),
            _ => false,
        },
        None => false,
    };
    if !tag_ok {
        return Err(parse_failure());
    }
    let id: Option<Id> = match field_of(es, name_id().as_slice()) {
        None => {
            return Err(parse_failure());
        },
        Some(n) => match &n.kind {
            JsonKind::Null => None,
            JsonKind::UInt(u) => Some(Id::Num(*u)),
            JsonKind::Text(b) => Some(Id::Text(b.clone())),
            _ => {
                return Err(parse_failure());
            },
        },
    };
    match field_of(es, name_error().as_slice()) {
        Some(en) => {
            let ee: &Vec<(Vec<u8>, JsonNode)> = match &en.kind {
                JsonKind::Entries(ee) => ee,
                _ => {
                    return Err(parse_failure());
                },
            };
            let code: i64 = match field_of(ee, name_code().as_slice()) {
                Some(cn) => match &cn.kind {
                    JsonKind::UInt(u) => {
                        if *u <= i64::MAX as u64 {
                            *u as i64
                        } else {
                            return Err(parse_failure());
                        }
                    },
                    JsonKind::Int(i) => *i,
                    _ => {
                        return Err(parse_failure());
                    },
                },
                None => {
                    return Err(parse_failure());
                },
            };
            let message: Vec<u8> = match field_of(ee, name_message().as_slice()) {
                Some(mn) => match &mn.kind {
                    JsonKind::Text(b) => b.clone(),
                    _ => {
                        return Err(parse_failure());
                    },
                },
                None => {
                    return Err(parse_failure());
                },
            };
            let data: Option<Vec<u8>> = match field_of(ee, name_data().as_slice()) {
                Some(dn) => Some(dn.raw.clone()),
                None => None,
            };
            Ok(RawReply { id, payload: ReplyPayload::Failure(ErrorObject { code, message, data }) })
        },
        None => match field_of(es, name_result().as_slice()) {
            Some(rn) => Ok(RawReply { id, payload: ReplyPayload::Success(rn.raw.clone()) }),
            None => Err(parse_failure()),
        },
    }
}

/// Decodes the body of a single-call reply: the result is exactly what
/// [`spec_decode_reply`] yields of the parsed tree [`json_of`] names for
/// these bytes, and the parse failure when the bytes are not JSON.
pub fn decode_reply(body: &[u8]) -> (r: Result<RawReply, RpcError>)
    ensures
        match json_of(body@) {
            Some(t) => reply_res_view(r) == spec_decode_reply(t),
            None => r matches Err(e) && e@ == spec_parse_failure(),
        },
{
    match parse_json_tree(body) {
        Some(t) => decode_reply_node(&t),
        None => Err(parse_failure()),
    }
}

/// What decoding the elements of a batch reply yields: each element decoded
/// as a reply envelope, in the server's order; the first malformed element
/// fails the whole decode with its error.
pub open spec fn spec_decode_elems(xs: Seq<JsonNode>) -> Result<Seq<RawReplyV>, RpcErrorV>
    decreases xs.len(),
{
    if xs.len() == 0 {
        Ok(Seq::empty())
    } else {
        match spec_decode_reply(xs[0]) {
            Err(e) => Err(e),
            Ok(h) => match spec_decode_elems(xs.skip(1)) {
                Err(e) => Err(e),
                Ok(rest) => Ok(seq![h] + rest),
            },
        }
    }
}

/// What decoding a batch reply body yields: the parsed tree must be an
/// array, and its elements decode as [`spec_decode_elems`] says.
pub open spec fn spec_decode_batch(t: JsonNode) -> Result<Seq<RawReplyV>, RpcErrorV> {
    match t.kind {
        JsonKind::Array(xs) => spec_decode_elems(xs@),
        _ => Err(spec_parse_failure()),
    }
}

/// Views of a sequence of decoded replies.
pub open spec fn reply_views(rs: Seq<RawReply>) -> Seq<RawReplyV> {
    Seq::new(rs.len(), |i: int| rs[i]@)
}

/// View of a decoded-batch result.
pub open spec fn batch_res_view(r: Result<Vec<RawReply>, RpcError>) -> Result<
    Seq<RawReplyV>,
    RpcErrorV,
> {
    match r {
        Ok(v) => Ok(reply_views(v@)),
        Err(e) => Err(e@),
    }
}

/// Decodes the body of a batch reply, exactly as [`spec_decode_batch`] says
/// of the parsed tree [`json_of`] names for these bytes: a JSON array of
/// reply envelopes in whatever order the server sent them; a malformed
/// element or a body that is not a JSON array fails the whole decode.
pub fn decode_batch_replies(body: &[u8]) -> (r: Result<Vec<RawReply>, RpcError>)
    ensures
        match json_of(body@) {
            Some(t) => batch_res_view(r) == spec_decode_batch(t),
            None => r matches Err(e) && e@ == spec_parse_failure(),
        },
{
    let parsed = match parse_json_tree(body) {
        Some(t) => t,
        None => {
            return Err(parse_failure());
        },
    };
    let elems: &Vec<JsonNode> = match &parsed.kind {
        JsonKind::Array(xs) => xs,
        _ => {
            return Err(parse_failure());
        },
    };
    proof {
        assert(parsed.kind is Array);
        assert(parsed.kind->Array_0 == *elems);
        assert(spec_decode_batch(parsed) == spec_decode_elems(elems@));
    }
    let mut out: Vec<RawReply> = Vec::new();
    proof {
        assert(elems@.skip(0) =~= elems@);
        assert(reply_views(out@) =~= Seq::<RawReplyV>::empty());
    }
    let mut i: usize = 0;
    while i < elems.len()
        invariant
            i <= elems@.len(),
            json_of(body@) == Some(parsed),
            spec_decode_batch(parsed) == spec_decode_elems(elems@),
            spec_decode_elems(elems@) == (match spec_decode_elems(elems@.skip(i as int)) {
                Ok(rest) => Ok::<Seq<RawReplyV>, RpcErrorV>(reply_views(out@) + rest),
                Err(e) => Err::<Seq<RawReplyV>, RpcErrorV>(e),
            }),
        decreases elems@.len() - i,
    {
        proof {
            assert(elems@.skip(i as int)[0] == elems@[i as int]);
            assert(elems@.skip(i as int).skip(1) =~= elems@.skip(i as int + 1));
        }
        match decode_reply_node(&elems[i]) {
            Ok(rp) => {
                let ghost before = reply_views(out@);
                out.push(rp);
                proof {
                    assert(reply_views(out@) =~= before.push(rp@));
                    if spec_decode_elems(elems@.skip(i as int + 1)) is Ok {
                        let rest = spec_decode_elems(elems@.skip(i as int + 1))->Ok_0;
                        assert(before + (seq![rp@] + rest) =~= reply_views(out@) + rest);
                    }
                }
            },
            Err(e) => {
                proof {
                    assert(spec_decode_reply(elems@[i as int]) == Err::<RawReplyV, RpcErrorV>(
                        e@,
                    ));
                    assert(spec_decode_elems(elems@.skip(i as int)) == Err::<
                        Seq<RawReplyV>,
                        RpcErrorV,
                    >(e@));
                }
                return Err(e);
            },
        }
        i = i + 1;
    }
    proof {
        assert(elems@.skip(elems@.len() as int) =~= Seq::<JsonNode>::empty());
        assert(reply_views(out@) + Seq::<RawReplyV>::empty() =~= reply_views(out@));
    }
    Ok(out)
}

/// Textual rendering of a reply identifier, used when an error names it:
/// `null` when the reply carried none.
pub open spec fn spec_reply_id_text(o: Option<IdV>) -> Seq<u8> {
    match o {
        Some(i) => spec_id_text(i),
        None => seq![0x6eu8, 0x75u8, 0x6cu8, 0x6cu8],
    }
}

/// Renders a reply identifier as text.
pub fn reply_id_text(o: &Option<Id>) -> (r: Vec<u8>)
    ensures
        r@ == spec_reply_id_text(spec_oid(*o)),
{
    match o {
        Some(i) => id_text(i),
        None => {
            let mut out: Vec<u8> = Vec::new();
            out.push(0x6e);
            out.push(0x75);
            out.push(0x6c);
            out.push(0x6c);
            assert(out@ =~= spec_reply_id_text(spec_oid(*o)));
            out
        },
    }
}

/// Validates a single-call reply against the identifier that was sent.
///
/// A protocol error object is surfaced as-is. A success payload is returned
/// exactly when the reply's identifier equals the sent identifier; any other
/// identifier — including an absent one — fails with `InvalidRequestId`
/// naming the reply's identifier, and the payload is discarded: the caller
/// never receives a value under the wrong identifier.
pub fn correlate_single(sent: &Id, reply: RawReply) -> (r: Result<Vec<u8>, RpcError>)
    ensures
        match reply.payload {
            ReplyPayload::Failure(e) => r matches Err(err) && err@ == RpcErrorV::Protocol(e@),
            ReplyPayload::Success(raw) => {
                if (match reply.id {
                    Some(i) => id_eq(i@, sent@),
                    None => false,
                }) {
                    r matches Ok(b) && b@ == raw@
                } else {
                    r matches Err(err) && err@ == RpcErrorV::InvalidRequestId(
                        spec_reply_id_text(spec_oid(reply.id)),
                    )
                }
            },
        },
{
    match reply.payload {
        ReplyPayload::Failure(e) => Err(RpcError::Protocol(e)),
        ReplyPayload::Success(raw) => {
            let matched: bool = match &reply.id {
                Some(i) => ids_match(i, sent),
                None => false,
            };
            if matched {
                Ok(raw)
            } else {
                Err(RpcError::InvalidRequestId(reply_id_text(&reply.id)))
            }
        },
    }
}

/// Views of a sequence of slot payloads.
pub open spec fn slot_views(s: Seq<ReplyPayload>) -> Seq<ReplyPayloadV> {
    Seq::new(s.len(), |i: int| s[i]@)
}

/// The integer identifier of a reply, if it carries one.
pub open spec fn spec_num_id(rp: RawReplyV) -> Option<u64> {
    match rp.id {
        Some(IdV::Num(n)) => Some(n),
        _ => None,
    }
}

/// The slots of a batch before any reply is scattered: every slot holds the
/// placeholder failure.
pub open spec fn init_slots(n: nat) -> Seq<ReplyPayloadV> {
    Seq::new(n, |i: int| ReplyPayloadV::Failure(spec_slot_placeholder()))
}

/// Scattering a sequence of replies over the slots, left to right: each
/// reply must carry an integer identifier inside the batch range and lands
/// in the slot at its identifier's offset; any other identifier is an
/// integrity fault naming the identifier's text.
pub open spec fn spec_fill(
    acc: Seq<ReplyPayloadV>,
    rs: Seq<RawReplyV>,
    base: u64,
) -> Result<Seq<ReplyPayloadV>, Seq<u8>>
    decreases rs.len(),
{
    if rs.len() == 0 {
        Ok(acc)
    } else {
        match spec_num_id(rs[0]) {
            Some(n) => if base <= n && n - base < acc.len() {
                spec_fill(acc.update(n - base, rs[0].payload), rs.skip(1), base)
            } else {
                Err(spec_reply_id_text(rs[0].id))
            },
            None => Err(spec_reply_id_text(rs[0].id)),
        }
    }
}

/// How many slots hold a success payload.
pub open spec fn count_ok_slots(s: Seq<ReplyPayloadV>) -> nat
    decreases s.len(),
{
    if s.len() == 0 {
        0
    } else {
        (if s[0] is Success {
            1nat
        } else {
            0nat
        }) + count_ok_slots(s.skip(1))
    }
}

/// How many slots hold a failure payload.
pub open spec fn count_err_slots(s: Seq<ReplyPayloadV>) -> nat
    decreases s.len(),
{
    if s.len() == 0 {
        0
    } else {
        (if s[0] is Failure {
            1nat
        } else {
            0nat
        }) + count_err_slots(s.skip(1))
    }
}

/// Every slot is a success or a failure, so the two counts sum to the
/// number of slots.
pub proof fn lemma_slot_counts_total(s: Seq<ReplyPayloadV>)
    ensures
        count_ok_slots(s) + count_err_slots(s) == s.len(),
    decreases s.len(),
{
    if s.len() > 0 {
        lemma_slot_counts_total(s.skip(1));
    }
}

/// The outcome of a whole batch call: one slot per entry, in entry order,
/// plus how many slots resolved successfully and how many hold an error
/// (the two sum to the batch size; a slot no reply named holds the
/// placeholder failure and counts as failed). The call as a whole succeeds
/// even when every slot failed.
#[derive(Debug, PartialEq, Eq)]
pub struct BatchResponse {
    pub slots: Vec<ReplyPayload>,
    pub successful_calls: u64,
    pub failed_calls: u64,
}

/// Duplicates a slot payload.
fn payload_dup(p: &ReplyPayload) -> (r: ReplyPayload)
    ensures
        r@ == p@,
{
    match p {
        ReplyPayload::Success(b) => {
            let mut c: Vec<u8> = Vec::new();
            crate::envelope::append_bytes(&mut c, b.as_slice());
            assert(c@ =~= b@);
            ReplyPayload::Success(c)
        },
        ReplyPayload::Failure(e) => {
            let mut m: Vec<u8> = Vec::new();
            crate::envelope::append_bytes(&mut m, e.message.as_slice());
            assert(m@ =~= e.message@);
            let d: Option<Vec<u8>> = match &e.data {
                Some(db) => {
                    let mut dc: Vec<u8> = Vec::new();
                    crate::envelope::append_bytes(&mut dc, db.as_slice());
                    assert(dc@ =~= db@);
                    Some(dc)
                },
                None => None,
            };
            ReplyPayload::Failure(ErrorObject { code: e.code, message: m, data: d })
        },
    }
}

/// Scatters the decoded replies of one batch back to their slots.
///
/// Slot `i` answers the entry sent under identifier `range.start + i`; the
/// server's reply order is irrelevant. A reply whose identifier is not an
/// integer in `[range.start, range.end)` fails the whole batch with
/// `InvalidRequestId`: it claims an identifier this batch never issued,
/// which cannot be partially trusted. Slots no reply named keep the
/// placeholder failure and count as failed, so the two counts describe the
/// returned slots and sum to the batch size.
pub fn scatter_batch(range: &IdRange, replies: Vec<RawReply>) -> (r: Result<
    BatchResponse,
    RpcError,
>)
    requires
        range.start <= range.end,
        range.end - range.start <= usize::MAX,
    ensures
        match spec_fill(
            init_slots((range.end - range.start) as nat),
            reply_views(replies@),
            range.start,
        ) {
            Ok(s) => r matches Ok(out) && slot_views(out.slots@) == s && out.slots@.len()
                == range.end - range.start && out.successful_calls == count_ok_slots(s)
                && out.failed_calls == count_err_slots(s) && out.successful_calls
                + out.failed_calls == range.end - range.start,
            Err(txt) => r matches Err(e) && e@ == RpcErrorV::InvalidRequestId(txt),
        },
{
    let ghost rvs = reply_views(replies@);
    let ghost n = (range.end - range.start) as nat;
    let count: usize = (range.end - range.start) as usize;
    let mut slots: Vec<ReplyPayload> = Vec::new();
    while slots.len() < count
        invariant
            slots@.len() <= count,
            forall|k: int|
                0 <= k < slots@.len() ==> (#[trigger] slots@[k])@ == ReplyPayloadV::Failure(
                    spec_slot_placeholder(),
                ),
        decreases count - slots@.len(),
    {
        slots.push(ReplyPayload::Failure(ErrorObject::slot_placeholder()));
    }
    assert(slot_views(slots@) =~= init_slots(n));

    let mut i: usize = 0;
    proof {
        assert(rvs.skip(0) =~= rvs);
    }
    while i < replies.len()
        invariant
            i <= replies@.len(),
            rvs == reply_views(replies@),
            n == (range.end - range.start) as nat,
            range.start <= range.end,
            range.end - range.start <= usize::MAX,
            slots@.len() == n,
            spec_fill(init_slots(n), rvs, range.start) == spec_fill(
                slot_views(slots@),
                rvs.skip(i as int),
                range.start,
            ),
        decreases replies@.len() - i,
    {
        proof {
            assert(rvs.skip(i as int)[0] == rvs[i as int]);
            assert(rvs.skip(i as int).skip(1) =~= rvs.skip(i as int + 1));
        }
        let rp = &replies[i];
        let mut in_range: bool = false;
        let mut off: usize = 0;
        match &rp.id {
            Some(inner) => match inner {
                Id::Num(nid) => {
                    if *nid >= range.start && *nid - range.start < (slots.len() as u64) {
                        in_range = true;
                        off = (*nid - range.start) as usize;
                    }
                },
                Id::Text(_) => {},
            },
            None => {},
        }
        if !in_range {
            assert(spec_fill(slot_views(slots@), rvs.skip(i as int), range.start) == Err::<
                Seq<ReplyPayloadV>,
                Seq<u8>,
            >(spec_reply_id_text(rvs[i as int].id)));
            return Err(RpcError::InvalidRequestId(reply_id_text(&rp.id)));
        }
        let dup = payload_dup(&rp.payload);
        let ghost before = slot_views(slots@);
        slots.set(off, dup);
        proof {
            assert(slot_views(slots@) =~= before.update(off as int, rvs[i as int].payload));
            assert(spec_fill(before, rvs.skip(i as int), range.start) == spec_fill(
                slot_views(slots@),
                rvs.skip(i as int + 1),
                range.start,
            ));
        }
        i = i + 1;
    }
    proof {
        assert(rvs.skip(rvs.len() as int) =~= Seq::<RawReplyV>::empty());
    }
    let ghost fills = slot_views(slots@);
    let mut successful: u64 = 0;
    let mut failed: u64 = 0;
    let mut j: usize = 0;
    proof {
        assert(fills.skip(0) =~= fills);
    }
    while j < slots.len()
        invariant
            j <= slots@.len(),
            slots@.len() == n,
            n == (range.end - range.start) as nat,
            range.end - range.start <= usize::MAX,
            fills == slot_views(slots@),
            count_ok_slots(fills) == successful + count_ok_slots(fills.skip(j as int)),
            count_err_slots(fills) == failed + count_err_slots(fills.skip(j as int)),
            successful <= j,
            failed <= j,
        decreases slots@.len() - j,
    {
        proof {
            assert(fills.skip(j as int)[0] == fills[j as int]);
            assert(fills[j as int] == slots@[j as int]@);
            assert(fills.skip(j as int).skip(1) =~= fills.skip(j as int + 1));
        }
        match &slots[j] {
            ReplyPayload::Success(_) => {
                successful = successful + 1;
            },
            ReplyPayload::Failure(_) => {
                failed = failed + 1;
            },
        }
        j = j + 1;
    }
    proof {
        assert(fills.skip(fills.len() as int) =~= Seq::<ReplyPayloadV>::empty());
        lemma_slot_counts_total(fills);
    }
    Ok(BatchResponse { slots, successful_calls: successful, failed_calls: failed })
}

/// The slots a successful scatter yields are one per allocated identifier.
pub proof fn lemma_fill_len(acc: Seq<ReplyPayloadV>, rs: Seq<RawReplyV>, base: u64)
    requires
        spec_fill(acc, rs, base) is Ok,
    ensures
        spec_fill(acc, rs, base) matches Ok(s) && s.len() == acc.len(),
    decreases rs.len(),
{
    if rs.len() > 0 {
        let n = spec_num_id(rs[0]).unwrap();
        lemma_fill_len(acc.update(n - base, rs[0].payload), rs.skip(1), base);
    }
}

/// A slot no remaining reply names keeps its value through the scatter.
pub proof fn lemma_fill_frame(
    acc: Seq<ReplyPayloadV>,
    rs: Seq<RawReplyV>,
    base: u64,
    idx: int,
)
    requires
        spec_fill(acc, rs, base) is Ok,
        0 <= idx < acc.len(),
        forall|k: int|
            0 <= k < rs.len() ==> (#[trigger] spec_num_id(rs[k])) != Some((base + idx) as u64),
    ensures
        spec_fill(acc, rs, base) matches Ok(s) && s[idx] == acc[idx],
    decreases rs.len(),
{
    if rs.len() > 0 {
        let n = spec_num_id(rs[0]).unwrap();
        assert(spec_num_id(rs[0]) == Some(n));
        assert(n != base + idx);
        lemma_fill_frame(acc.update(n - base, rs[0].payload), rs.skip(1), base, idx);
        assert(forall|k: int|
            0 <= k < rs.skip(1).len() ==> rs.skip(1)[k] == rs[k + 1]);
    }
}

/// Positional correctness of the scatter: when every reply carries a
/// distinct identifier and the scatter succeeds, the slot at each reply's
/// offset holds exactly that reply's payload — regardless of the order the
/// replies arrived in.
pub proof fn lemma_scatter_positions(
    acc: Seq<ReplyPayloadV>,
    rs: Seq<RawReplyV>,
    base: u64,
    j: int,
)
    requires
        spec_fill(acc, rs, base) is Ok,
        0 <= j < rs.len(),
        forall|k1: int, k2: int|
            0 <= k1 < rs.len() && 0 <= k2 < rs.len() && k1 != k2 ==> (#[trigger] spec_num_id(
                rs[k1],
            )) != (#[trigger] spec_num_id(rs[k2])),
    ensures
        spec_fill(acc, rs, base) matches Ok(s) && (spec_num_id(rs[j]) matches Some(n) && base
            <= n && n - base < s.len() && s[n - base] == rs[j].payload),
    decreases rs.len(),
{
    let n0 = spec_num_id(rs[0]).unwrap();
    let acc1 = acc.update(n0 - base, rs[0].payload);
    lemma_fill_len(acc, rs, base);
    if j == 0 {
        assert forall|k: int|
            0 <= k < rs.skip(1).len() implies (#[trigger] spec_num_id(rs.skip(1)[k])) != Some(
            (base + (n0 - base)) as u64,
        ) by {
            assert(rs.skip(1)[k] == rs[k + 1]);
            assert(spec_num_id(rs[k + 1]) != spec_num_id(rs[0]));
        }
        lemma_fill_frame(acc1, rs.skip(1), base, n0 - base);
        assert(acc1[n0 - base] == rs[0].payload);
    } else {
        assert(rs.skip(1)[j - 1] == rs[j]);
        assert forall|k1: int, k2: int|
            0 <= k1 < rs.skip(1).len() && 0 <= k2 < rs.skip(1).len() && k1 != k2 implies (
        #[trigger] spec_num_id(rs.skip(1)[k1])) != (#[trigger] spec_num_id(rs.skip(1)[k2])) by {
            assert(rs.skip(1)[k1] == rs[k1 + 1]);
            assert(rs.skip(1)[k2] == rs[k2 + 1]);
        }
        lemma_scatter_positions(acc1, rs.skip(1), base, j - 1);
    }
}

} // verus!
