//! Outbound JSON-RPC 2.0 envelopes and their bit-exact wire rendering:
//! `{"jsonrpc":"2.0","id":<id>,"method":<string>,"params":<value?>}` for a
//! request, the same without `id` for a notification, and a JSON array of
//! requests for a batch. Params, when present, are pre-serialized opaque
//! JSON text; the engine never interprets their structure.

use vstd::prelude::*;

use crate::ids::{Id, IdV};
use crate::text::{
    append_escaped, dec_rep, dec_val, esc, is_digit, lemma_dec_rep_digits, lemma_dec_val_of_rep,
    lemma_scan_esc, lemma_take_digits, push_decimal, scan_str, take_digits,
};

verus! {

/// `{"jsonrpc":"2.0"` — the shared opening of every envelope.
pub open spec fn lit_head() -> Seq<u8> {
    seq![0x7b, 0x22, 0x6a, 0x73, 0x6f, 0x6e, 0x72, 0x70, 0x63, 0x22, 0x3a, 0x22, 0x32, 0x2e, 0x30, 0x22]
}

/// `,"id":`
pub open spec fn lit_id_key() -> Seq<u8> {
    seq![0x2c, 0x22, 0x69, 0x64, 0x22, 0x3a]
}

/// `,"method":"`
pub open spec fn lit_method_key() -> Seq<u8> {
    seq![0x2c, 0x22, 0x6d, 0x65, 0x74, 0x68, 0x6f, 0x64, 0x22, 0x3a, 0x22]
}

/// `,"params":`
pub open spec fn lit_params_key() -> Seq<u8> {
    seq![0x2c, 0x22, 0x70, 0x61, 0x72, 0x61, 0x6d, 0x73, 0x22, 0x3a]
}

/// Wire rendering of an identifier: a decimal number, or an escaped,
/// quoted string.
pub open spec fn spec_render_id(id: IdV) -> Seq<u8> {
    match id {
        IdV::Num(n) => dec_rep(n as nat),
        IdV::Text(t) => seq![0x22u8] + esc(t) + seq![0x22u8],
    }
}

/// Wire rendering of the optional params member.
pub open spec fn spec_render_params(params: Option<Seq<u8>>) -> Seq<u8> {
    match params {
        Some(p) => lit_params_key() + p,
        None => Seq::empty(),
    }
}

/// Wire rendering of one request envelope.
pub open spec fn spec_render_request(id: IdV, method: Seq<u8>, params: Option<Seq<u8>>) -> Seq<
    u8,
> {
    lit_head() + lit_id_key() + spec_render_id(id) + lit_method_key() + esc(method)
        + seq![0x22u8] + spec_render_params(params) + seq![0x7du8]
}

/// Wire rendering of one notification envelope (no identifier).
pub open spec fn spec_render_notification(method: Seq<u8>, params: Option<Seq<u8>>) -> Seq<u8> {
    lit_head() + lit_method_key() + esc(method) + seq![0x22u8] + spec_render_params(params)
        + seq![0x7du8]
}

/// Specification-level image of one request of a batch.
pub struct ReqV {
    pub id: IdV,
    pub method: Seq<u8>,
    pub params: Option<Seq<u8>>,
}

/// The requests of a batch, comma-joined.
pub open spec fn spec_join_reqs(rs: Seq<ReqV>) -> Seq<u8>
    decreases rs.len(),
{
    if rs.len() == 0 {
        Seq::empty()
    } else if rs.len() == 1 {
        spec_render_request(rs[0].id, rs[0].method, rs[0].params)
    } else {
        spec_render_request(rs[0].id, rs[0].method, rs[0].params) + seq![0x2cu8] + spec_join_reqs(
            rs.skip(1),
        )
    }
}

/// Wire rendering of a non-empty batch: a JSON array of request envelopes,
/// original order preserved.
pub open spec fn spec_render_batch(rs: Seq<ReqV>) -> Seq<u8> {
    seq![0x5bu8] + spec_join_reqs(rs) + seq![0x5du8]
}

/// Joining distributes over appending one request at the end.
pub proof fn lemma_join_snoc(rs: Seq<ReqV>, r: ReqV)
    requires
        rs.len() >= 1,
    ensures
        spec_join_reqs(rs.push(r)) == spec_join_reqs(rs) + seq![0x2cu8] + spec_render_request(
            r.id,
            r.method,
            r.params,
        ),
    decreases rs.len(),
{
    if rs.len() == 1 {
        assert(rs.push(r)[0] == rs[0]);
        assert(rs.push(r).skip(1) =~= seq![r]);
        assert(spec_join_reqs(seq![r]) == spec_render_request(r.id, r.method, r.params));
        assert(spec_join_reqs(rs.push(r)) =~= spec_join_reqs(rs) + seq![0x2cu8]
            + spec_render_request(r.id, r.method, r.params));
    } else {
        assert(rs.push(r)[0] == rs[0]);
        assert(rs.push(r).skip(1) =~= rs.skip(1).push(r));
        lemma_join_snoc(rs.skip(1), r);
        assert(spec_join_reqs(rs.push(r)) =~= spec_join_reqs(rs) + seq![0x2cu8]
            + spec_render_request(r.id, r.method, r.params));
    }
}

/// The remainder of `s` after the literal prefix `lit`, if `s` starts with
/// it.
pub open spec fn strip_prefix(s: Seq<u8>, lit: Seq<u8>) -> Option<Seq<u8>> {
    if lit.len() <= s.len() && s.take(lit.len() as int) == lit {
        Some(s.skip(lit.len() as int))
    } else {
        None
    }
}

/// Stripping a literal inverts placing it in front.
pub proof fn lemma_strip_prefix(lit: Seq<u8>, x: Seq<u8>)
    ensures
        strip_prefix(lit + x, lit) == Some(x),
{
    assert((lit + x).take(lit.len() as int) =~= lit);
    assert((lit + x).skip(lit.len() as int) =~= x);
}

/// Reads the method string and optional params back out of the bytes that
/// follow the `,"method":"` key: the escaped method up to its closing
/// quote, then either the closing brace alone (no params) or the params key
/// and the raw params text up to the closing brace.
pub open spec fn parse_method_and_params(r2: Seq<u8>) -> Option<(Seq<u8>, Option<Seq<u8>>)> {
    match strip_prefix(r2, lit_method_key()) {
        None => None,
        Some(r3) => match scan_str(r3) {
            None => None,
            Some(mp) => {
                let m = mp.0;
                let r4 = mp.1;
                if r4 == seq![0x7du8] {
                    Some((m, None))
                } else {
                    match strip_prefix(r4, lit_params_key()) {
                        None => None,
                        Some(p_end) => if p_end.len() >= 1 && p_end.last() == 0x7d {
                            Some((m, Some(p_end.drop_last())))
                        } else {
                            None
                        },
                    }
                }
            },
        },
    }
}

/// Reads a request envelope back from its wire bytes: the fixed head, the
/// identifier (a quoted string or a run of decimal digits), then method and
/// params.
pub open spec fn spec_parse_request(s: Seq<u8>) -> Option<ReqV> {
    match strip_prefix(s, lit_head() + lit_id_key()) {
        None => None,
        Some(r1) => {
            if r1.len() == 0 {
                None
            } else if r1[0] == 0x22 {
                match scan_str(r1.skip(1)) {
                    None => None,
                    Some(tp) => match parse_method_and_params(tp.1) {
                        None => None,
                        Some(mp) => Some(ReqV { id: IdV::Text(tp.0), method: mp.0, params: mp.1 }),
                    },
                }
            } else {
                let dp = take_digits(r1);
                if dp.0.len() == 0 || dec_val(dp.0) > u64::MAX {
                    None
                } else {
                    match parse_method_and_params(dp.1) {
                        None => None,
                        Some(mp) => Some(
                            ReqV { id: IdV::Num(dec_val(dp.0) as u64), method: mp.0, params: mp.1 },
                        ),
                    }
                }
            }
        },
    }
}

/// Reads a notification envelope back from its wire bytes: the fixed head,
/// then method and params; a notification carries no identifier.
pub open spec fn spec_parse_notification(s: Seq<u8>) -> Option<(Seq<u8>, Option<Seq<u8>>)> {
    match strip_prefix(s, lit_head()) {
        None => None,
        Some(r2) => parse_method_and_params(r2),
    }
}

/// The shared tail of the round trip: method and params are read back
/// exactly from their rendering.
proof fn lemma_parse_method_params(method: Seq<u8>, params: Option<Seq<u8>>)
    ensures
        parse_method_and_params(
            lit_method_key() + esc(method) + seq![0x22u8] + spec_render_params(params)
                + seq![0x7du8],
        ) == Some((method, params)),
{
    let tail = esc(method) + seq![0x22u8] + spec_render_params(params) + seq![0x7du8];
    let r2 = lit_method_key() + tail;
    assert(lit_method_key() + esc(method) + seq![0x22u8] + spec_render_params(params)
        + seq![0x7du8] =~= r2);
    lemma_strip_prefix(lit_method_key(), tail);
    let after = spec_render_params(params) + seq![0x7du8];
    assert(tail =~= esc(method) + seq![0x22u8] + after);
    lemma_scan_esc(method, after);
    match params {
        None => {
            assert(after =~= seq![0x7du8]);
        },
        Some(p) => {
            assert(after.len() == lit_params_key().len() + p.len() + 1);
            assert(after != seq![0x7du8]);
            assert(after =~= lit_params_key() + (p + seq![0x7du8]));
            lemma_strip_prefix(lit_params_key(), p + seq![0x7du8]);
            assert((p + seq![0x7du8]).last() == 0x7d);
            assert((p + seq![0x7du8]).drop_last() =~= p);
        },
    }
}

/// Round trip of a request envelope: rendering any identifier, method and
/// params and parsing the bytes back yields exactly that identifier, method
/// and params.
pub proof fn lemma_request_round_trip(id: IdV, method: Seq<u8>, params: Option<Seq<u8>>)
    ensures
        spec_parse_request(spec_render_request(id, method, params)) == Some(
            ReqV { id, method, params },
        ),
{
    let s = spec_render_request(id, method, params);
    let tail2 = lit_method_key() + esc(method) + seq![0x22u8] + spec_render_params(params)
        + seq![0x7du8];
    let r1 = spec_render_id(id) + tail2;
    assert(s =~= (lit_head() + lit_id_key()) + r1);
    lemma_strip_prefix(lit_head() + lit_id_key(), r1);
    lemma_parse_method_params(method, params);
    match id {
        IdV::Num(n) => {
            lemma_dec_rep_digits(n as nat);
            assert(r1 =~= dec_rep(n as nat) + tail2);
            assert(r1[0] == dec_rep(n as nat)[0]);
            assert(is_digit(r1[0]));
            assert(r1[0] != 0x22);
            assert(tail2[0] == 0x2c && !is_digit(tail2[0]));
            lemma_take_digits(dec_rep(n as nat), tail2);
            lemma_dec_val_of_rep(n as nat);
            assert(take_digits(r1).0 == dec_rep(n as nat));
            assert(dec_val(take_digits(r1).0) == n as nat);
        },
        IdV::Text(t) => {
            assert(r1 =~= seq![0x22u8] + (esc(t) + seq![0x22u8] + tail2));
            assert(r1[0] == 0x22);
            assert(r1.skip(1) =~= esc(t) + seq![0x22u8] + tail2);
            lemma_scan_esc(t, tail2);
        },
    }
}

/// Round trip of a notification envelope: rendering any method and params
/// and parsing the bytes back yields exactly that method and params.
pub proof fn lemma_notification_round_trip(method: Seq<u8>, params: Option<Seq<u8>>)
    ensures
        spec_parse_notification(spec_render_notification(method, params)) == Some(
            (method, params),
        ),
{
    let s = spec_render_notification(method, params);
    let tail = lit_method_key() + esc(method) + seq![0x22u8] + spec_render_params(params)
        + seq![0x7du8];
    assert(s =~= lit_head() + tail);
    lemma_strip_prefix(lit_head(), tail);
    lemma_parse_method_params(method, params);
}

/// View of optional pre-serialized params.
pub open spec fn opt_bytes(p: Option<Vec<u8>>) -> Option<Seq<u8>> {
    match p {
        Some(v) => Some(v@),
        None => None,
    }
}

/// Appends `{"jsonrpc":"2.0"` to `out`.
fn append_head(out: &mut Vec<u8>)
    ensures
        final(out)@ == old(out)@ + lit_head(),
{
    out.push(0x7b);
    out.push(0x22);
    out.push(0x6a);
    out.push(0x73);
    out.push(0x6f);
    out.push(0x6e);
    out.push(0x72);
    out.push(0x70);
    out.push(0x63);
    out.push(0x22);
    out.push(0x3a);
    out.push(0x22);
    out.push(0x32);
    out.push(0x2e);
    out.push(0x30);
    out.push(0x22);
    assert(out@ =~= old(out)@ + lit_head());
}

/// Appends `,"id":` to `out`.
fn append_id_key(out: &mut Vec<u8>)
    ensures
        final(out)@ == old(out)@ + lit_id_key(),
{
    out.push(0x2c);
    out.push(0x22);
    out.push(0x69);
    out.push(0x64);
    out.push(0x22);
    out.push(0x3a);
    assert(out@ =~= old(out)@ + lit_id_key());
}

/// Appends `,"method":"` to `out`.
fn append_method_key(out: &mut Vec<u8>)
    ensures
        final(out)@ == old(out)@ + lit_method_key(),
{
    out.push(0x2c);
    out.push(0x22);
    out.push(0x6d);
    out.push(0x65);
    out.push(0x74);
    out.push(0x68);
    out.push(0x6f);
    out.push(0x64);
    out.push(0x22);
    out.push(0x3a);
    out.push(0x22);
    assert(out@ =~= old(out)@ + lit_method_key());
}

/// Appends `,"params":` to `out`.
fn append_params_key(out: &mut Vec<u8>)
    ensures
        final(out)@ == old(out)@ + lit_params_key(),
{
    out.push(0x2c);
    out.push(0x22);
    out.push(0x70);
    out.push(0x61);
    out.push(0x72);
    out.push(0x61);
    out.push(0x6d);
    out.push(0x73);
    out.push(0x22);
    out.push(0x3a);
    assert(out@ =~= old(out)@ + lit_params_key());
}

/// Appends a plain byte sequence to `out`.
pub fn append_bytes(out: &mut Vec<u8>, s: &[u8])
    ensures
        final(out)@ == old(out)@ + s@,
{
    let mut i: usize = 0;
    while i < s.len()
        invariant
            i <= s@.len(),
            out@ == old(out)@ + s@.take(i as int),
        decreases s@.len() - i,
    {
        out.push(s[i]);
        assert(out@ =~= old(out)@ + s@.take(i as int + 1));
        i = i + 1;
    }
    assert(s@.take(s@.len() as int) =~= s@);
}

/// Appends the wire rendering of an identifier to `out`.
fn append_id(out: &mut Vec<u8>, id: &Id)
    ensures
        final(out)@ == old(out)@ + spec_render_id(id@),
{
    match id {
        Id::Num(n) => {
            push_decimal(out, *n);
        },
        Id::Text(t) => {
            out.push(0x22);
            append_escaped(out, t.as_slice());
            out.push(0x22);
            assert(out@ =~= old(out)@ + spec_render_id(id@));
        },
    }
}

/// Appends the wire rendering of one request envelope to `out`.
pub fn append_request(out: &mut Vec<u8>, id: &Id, method: &[u8], params: &Option<Vec<u8>>)
    ensures
        final(out)@ == old(out)@ + spec_render_request(id@, method@, opt_bytes(*params)),
{
    append_head(out);
    append_id_key(out);
    append_id(out, id);
    append_method_key(out);
    append_escaped(out, method);
    out.push(0x22);
    match params {
        Some(p) => {
            append_params_key(out);
            append_bytes(out, p.as_slice());
        },
        None => {},
    }
    out.push(0x7d);
    assert(out@ =~= old(out)@ + spec_render_request(id@, method@, opt_bytes(*params)));
}

/// Renders one request envelope.
pub fn render_request(id: &Id, method: &[u8], params: &Option<Vec<u8>>) -> (r: Vec<u8>)
    ensures
        r@ == spec_render_request(id@, method@, opt_bytes(*params)),
{
    let mut out: Vec<u8> = Vec::new();
    append_request(&mut out, id, method, params);
    assert(out@ =~= spec_render_request(id@, method@, opt_bytes(*params)));
    out
}

/// Renders one notification envelope.
pub fn render_notification(method: &[u8], params: &Option<Vec<u8>>) -> (r: Vec<u8>)
    ensures
        r@ == spec_render_notification(method@, opt_bytes(*params)),
{
    let mut out: Vec<u8> = Vec::new();
    append_head(&mut out);
    append_method_key(&mut out);
    append_escaped(&mut out, method);
    out.push(0x22);
    match params {
        Some(p) => {
            append_params_key(&mut out);
            append_bytes(&mut out, p.as_slice());
        },
        None => {},
    }
    out.push(0x7d);
    assert(out@ =~= spec_render_notification(method@, opt_bytes(*params)));
    out
}

/// One entry of a batch: a method and optional pre-serialized params.
#[derive(Debug, Clone, PartialEq, Eq)]
pub struct BatchEntry {
    pub method: Vec<u8>,
    pub params: Option<Vec<u8>>,
}

/// The requests a batch of entries turns into: entry `i` gets identifier
/// `base + i`, positionally.
pub open spec fn spec_batch_reqs(entries: Seq<BatchEntry>, base: u64) -> Seq<ReqV> {
    Seq::new(
        entries.len(),
        |i: int| ReqV {
            id: IdV::Num((base + i) as u64),
            method: entries[i].method@,
            params: opt_bytes(entries[i].params),
        },
    )
}

/// Renders a non-empty batch as one JSON array, entry `i` under identifier
/// `base + i`, original order preserved.
pub fn render_batch(entries: &Vec<BatchEntry>, base: u64) -> (r: Vec<u8>)
    requires
        entries@.len() >= 1,
        base + entries@.len() <= u64::MAX,
    ensures
        r@ == spec_render_batch(spec_batch_reqs(entries@, base)),
{
    let ghost reqs = spec_batch_reqs(entries@, base);
    let mut out: Vec<u8> = Vec::new();
    out.push(0x5b);
    let mut i: usize = 0;
    while i < entries.len()
        invariant
            i <= entries@.len(),
            entries@.len() >= 1,
            base + entries@.len() <= u64::MAX,
            reqs == spec_batch_reqs(entries@, base),
            out@ == seq![0x5bu8] + spec_join_reqs(reqs.take(i as int)),
        decreases entries@.len() - i,
    {
        if i > 0 {
            out.push(0x2c);
        }
        let id = Id::Num(base + (i as u64));
        append_request(&mut out, &id, entries[i].method.as_slice(), &entries[i].params);
        proof {
            let ri = reqs[i as int];
            assert(id@ == ri.id);
            assert(entries@[i as int].method@ == ri.method);
            assert(opt_bytes(entries@[i as int].params) == ri.params);
            if i == 0 {
                assert(reqs.take(1) =~= seq![reqs[0]]);
                assert(spec_join_reqs(reqs.take(0)) == Seq::<u8>::empty());
                assert(out@ =~= seq![0x5bu8] + spec_join_reqs(reqs.take(1)));
            } else {
                lemma_join_snoc(reqs.take(i as int), ri);
                assert(reqs.take(i as int).push(ri) =~= reqs.take(i as int + 1));
                assert(out@ =~= seq![0x5bu8] + spec_join_reqs(reqs.take(i as int + 1)));
            }
        }
        i = i + 1;
    }
    out.push(0x5d);
    proof {
        assert(reqs.take(reqs.len() as int) =~= reqs);
        assert(out@ =~= spec_render_batch(reqs));
    }
    out
}

} // verus!
