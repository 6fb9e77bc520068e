//! The wire codec: typed messages to framed bytes and back.
//!
//! A frame is one tag byte, an optional 32-bit little-endian sequence id,
//! and a length-free body. The low seven bits of the tag byte hold the
//! message-kind ordinal; bit 7 ("ack requested") is set exactly when the
//! sequence id follows. Bodies are concatenations of the primitives in
//! [`crate::wire`].
//!
//! Everything is specified twice: `enc_*` functions give the exact bytes of
//! each construct, `p_*` functions parse them back, and the round-trip
//! lemmas prove the parsers undo the encoders. The executable
//! [`encode_in`], [`encode_out`], [`decode_in`] and [`decode_out`] are
//! proved against those specifications.

use vstd::prelude::*;

use crate::keyexpr::{keyexpr_check, keyexpr_ok};
use crate::messages::{
    opt_bytes_view, opt_bytes_wf, opt_enc_view, opt_enc_wf, opt_ts_view, opt_ts_wf, zids_view,
    DecodeError, EncodingInfo, EncodingInfoV, Header, InRemoteMessage, InRemoteMessageV,
    OutRemoteMessage, OutRemoteMessageV, QueryInfo, QueryInfoV, ReplyInfo, ReplyInfoV, SampleInfo,
    SampleInfoV, SampleKind, TimestampInfo, TimestampInfoV,
};
use crate::qos::{Locality, Qos, QuerySettings, ReplyKeyExpr};
use crate::wire::{
    enc_bool, enc_bytes, enc_opt_bytes, enc_u16, enc_u32, enc_u64, enc_u8, enc_varint,
    lemma_p_bool, lemma_p_bytes, lemma_p_opt_bytes, lemma_p_raw, lemma_p_u16, lemma_p_u32,
    lemma_p_u64, lemma_p_u8, lemma_p_varint, p_bool, p_bytes, p_opt_bytes, p_raw, p_u16, p_u32,
    p_u64, p_u8, p_varint, Reader, Writer,
};

verus! {

// ---------------------------------------------------------------------
// Composite fields: specification encoders and parsers.
// ---------------------------------------------------------------------

/// A key expression: a byte string that must form a valid key expression.
pub open spec fn p_keyexpr(s: Seq<u8>) -> Option<(Seq<u8>, Seq<u8>)> {
    match p_bytes(s) {
        Some((b, r)) => if keyexpr_ok(b) {
            Some((b, r))
        } else {
            None
        },
        None => None,
    }
}

pub open spec fn enc_qos(q: Qos) -> Seq<u8> {
    enc_u8(q.byte())
}

pub open spec fn p_qos(s: Seq<u8>) -> Option<(Qos, Seq<u8>)> {
    match p_u8(s) {
        Some((b, r)) => Some((Qos { inner: b }, r)),
        None => None,
    }
}

pub open spec fn enc_qsettings(q: QuerySettings) -> Seq<u8> {
    enc_u8(q.byte())
}

pub open spec fn p_qsettings(s: Seq<u8>) -> Option<(QuerySettings, Seq<u8>)> {
    match p_u8(s) {
        Some((b, r)) => Some((QuerySettings { inner: b }, r)),
        None => None,
    }
}

pub open spec fn locality_byte(l: Locality) -> u8 {
    match l {
        Locality::SessionLocal => 0,
        Locality::Remote => 1,
        Locality::Any => 2,
    }
}

pub open spec fn enc_locality(l: Locality) -> Seq<u8> {
    enc_u8(locality_byte(l))
}

/// An explicit locality byte; values above 2 are rejected.
pub open spec fn p_locality(s: Seq<u8>) -> Option<(Locality, Seq<u8>)> {
    match p_u8(s) {
        Some((b, r)) => if b == 0 {
            Some((Locality::SessionLocal, r))
        } else if b == 1 {
            Some((Locality::Remote, r))
        } else if b == 2 {
            Some((Locality::Any, r))
        } else {
            None
        },
        None => None,
    }
}

pub open spec fn reply_keyexpr_byte(a: ReplyKeyExpr) -> u8 {
    match a {
        ReplyKeyExpr::Any => 0,
        ReplyKeyExpr::MatchingQuery => 1,
    }
}

pub open spec fn enc_reply_keyexpr(a: ReplyKeyExpr) -> Seq<u8> {
    enc_u8(reply_keyexpr_byte(a))
}

/// An explicit reply-key-expression byte; values above 1 are rejected.
pub open spec fn p_reply_keyexpr(s: Seq<u8>) -> Option<(ReplyKeyExpr, Seq<u8>)> {
    match p_u8(s) {
        Some((b, r)) => if b == 0 {
            Some((ReplyKeyExpr::Any, r))
        } else if b == 1 {
            Some((ReplyKeyExpr::MatchingQuery, r))
        } else {
            None
        },
        None => None,
    }
}

pub open spec fn sample_kind_byte(k: SampleKind) -> u8 {
    match k {
        SampleKind::Put => 0,
        SampleKind::Delete => 1,
    }
}

pub open spec fn enc_sample_kind(k: SampleKind) -> Seq<u8> {
    enc_u8(sample_kind_byte(k))
}

/// A sample-kind byte; values above 1 are rejected.
pub open spec fn p_sample_kind(s: Seq<u8>) -> Option<(SampleKind, Seq<u8>)> {
    match p_u8(s) {
        Some((b, r)) => if b == 0 {
            Some((SampleKind::Put, r))
        } else if b == 1 {
            Some((SampleKind::Delete, r))
        } else {
            None
        },
        None => None,
    }
}

pub open spec fn enc_encoding(e: EncodingInfoV) -> Seq<u8> {
    enc_u16(e.id) + enc_bytes(e.schema)
}

pub open spec fn p_encoding(s: Seq<u8>) -> Option<(EncodingInfoV, Seq<u8>)> {
    match p_u16(s) {
        Some((id, r)) => match p_bytes(r) {
            Some((schema, r2)) => Some((EncodingInfoV { id, schema }, r2)),
            None => None,
        },
        None => None,
    }
}

pub open spec fn enc_opt_encoding(o: Option<EncodingInfoV>) -> Seq<u8> {
    match o {
        Option::None => enc_bool(false),
        Option::Some(e) => enc_bool(true) + enc_encoding(e),
    }
}

pub open spec fn p_opt_encoding(s: Seq<u8>) -> Option<(Option<EncodingInfoV>, Seq<u8>)> {
    match p_bool(s) {
        Some((present, r)) => if present {
            match p_encoding(r) {
                Some((e, r2)) => Some((Some(e), r2)),
                None => None,
            }
        } else {
            Some((None, r))
        },
        None => None,
    }
}

/// A timestamp: the 64-bit NTP time, then the source id as 16 raw bytes.
pub open spec fn enc_timestamp(t: TimestampInfoV) -> Seq<u8> {
    enc_u64(t.ntp64) + t.id
}

pub open spec fn p_timestamp(s: Seq<u8>) -> Option<(TimestampInfoV, Seq<u8>)> {
    match p_u64(s) {
        Some((ntp64, r)) => match p_raw(r, 16) {
            Some((id, r2)) => Some((TimestampInfoV { ntp64, id }, r2)),
            None => None,
        },
        None => None,
    }
}

pub open spec fn enc_opt_timestamp(o: Option<TimestampInfoV>) -> Seq<u8> {
    match o {
        Option::None => enc_bool(false),
        Option::Some(t) => enc_bool(true) + enc_timestamp(t),
    }
}

pub open spec fn p_opt_timestamp(s: Seq<u8>) -> Option<(Option<TimestampInfoV>, Seq<u8>)> {
    match p_bool(s) {
        Some((present, r)) => if present {
            match p_timestamp(r) {
                Some((t, r2)) => Some((Some(t), r2)),
                None => None,
            }
        } else {
            Some((None, r))
        },
        None => None,
    }
}

pub open spec fn enc_sample(x: SampleInfoV) -> Seq<u8> {
    enc_bytes(x.keyexpr) + enc_bytes(x.payload) + enc_sample_kind(x.kind) + enc_encoding(x.encoding)
        + enc_opt_bytes(x.attachment) + enc_opt_timestamp(x.timestamp) + enc_qos(x.qos)
}

pub open spec fn p_sample(s: Seq<u8>) -> Option<(SampleInfoV, Seq<u8>)> {
    match p_bytes(s) {
        Some((keyexpr, s)) => match p_bytes(s) {
            Some((payload, s)) => match p_sample_kind(s) {
                Some((kind, s)) => match p_encoding(s) {
                    Some((encoding, s)) => match p_opt_bytes(s) {
                        Some((attachment, s)) => match p_opt_timestamp(s) {
                            Some((timestamp, s)) => match p_qos(s) {
                                Some((qos, s)) => Some(
                                    (
                                        SampleInfoV {
                                            keyexpr,
                                            payload,
                                            kind,
                                            encoding,
                                            attachment,
                                            timestamp,
                                            qos,
                                        },
                                        s,
                                    ),
                                ),
                                None => None,
                            },
                            None => None,
                        },
                        None => None,
                    },
                    None => None,
                },
                None => None,
            },
            None => None,
        },
        None => None,
    }
}

pub open spec fn enc_query(x: QueryInfoV) -> Seq<u8> {
    enc_bytes(x.keyexpr) + enc_bytes(x.parameters) + enc_opt_bytes(x.payload) + enc_opt_encoding(
        x.encoding,
    ) + enc_opt_bytes(x.attachment) + enc_reply_keyexpr(x.reply_keyexpr)
}

pub open spec fn p_query(s: Seq<u8>) -> Option<(QueryInfoV, Seq<u8>)> {
    match p_bytes(s) {
        Some((keyexpr, s)) => match p_bytes(s) {
            Some((parameters, s)) => match p_opt_bytes(s) {
                Some((payload, s)) => match p_opt_encoding(s) {
                    Some((encoding, s)) => match p_opt_bytes(s) {
                        Some((attachment, s)) => match p_reply_keyexpr(s) {
                            Some((reply_keyexpr, s)) => Some(
                                (
                                    QueryInfoV {
                                        keyexpr,
                                        parameters,
                                        payload,
                                        encoding,
                                        attachment,
                                        reply_keyexpr,
                                    },
                                    s,
                                ),
                            ),
                            None => None,
                        },
                        None => None,
                    },
                    None => None,
                },
                None => None,
            },
            None => None,
        },
        None => None,
    }
}

/// A reply: a boolean discriminant, then a sample (success) or an error
/// encoding followed by the error payload.
pub open spec fn enc_reply(x: ReplyInfoV) -> Seq<u8> {
    match x {
        ReplyInfoV::Value(sm) => enc_bool(true) + enc_sample(sm),
        ReplyInfoV::Failure { payload, encoding } => enc_bool(false) + enc_encoding(encoding)
            + enc_bytes(payload),
    }
}

pub open spec fn p_reply(s: Seq<u8>) -> Option<(ReplyInfoV, Seq<u8>)> {
    match p_bool(s) {
        Some((success, s)) => if success {
            match p_sample(s) {
                Some((sm, s)) => Some((ReplyInfoV::Value(sm), s)),
                None => None,
            }
        } else {
            match p_encoding(s) {
                Some((encoding, s)) => match p_bytes(s) {
                    Some((payload, s)) => Some((ReplyInfoV::Failure { payload, encoding }, s)),
                    None => None,
                },
                None => None,
            }
        },
        None => None,
    }
}

/// A list of node ids: a varint count, then each id as 16 raw bytes.
pub open spec fn zids_wf(l: Seq<Seq<u8>>) -> bool {
    l.len() <= u64::MAX && forall|i: int| 0 <= i < l.len() ==> (#[trigger] l[i]).len() == 16
}

pub open spec fn enc_zids_items(l: Seq<Seq<u8>>) -> Seq<u8>
    decreases l.len(),
{
    if l.len() == 0 {
        Seq::empty()
    } else {
        l[0] + enc_zids_items(l.skip(1))
    }
}

pub open spec fn enc_zids(l: Seq<Seq<u8>>) -> Seq<u8> {
    enc_varint(l.len() as u64) + enc_zids_items(l)
}

pub open spec fn p_zids_items(s: Seq<u8>, n: nat) -> Option<(Seq<Seq<u8>>, Seq<u8>)>
    decreases n,
{
    if n == 0 {
        Some((Seq::empty(), s))
    } else {
        match p_raw(s, 16) {
            Some((z, r)) => match p_zids_items(r, (n - 1) as nat) {
                Some((l, r2)) => Some((seq![z] + l, r2)),
                None => None,
            },
            None => None,
        }
    }
}

pub open spec fn p_zids(s: Seq<u8>) -> Option<(Seq<Seq<u8>>, Seq<u8>)> {
    match p_varint(s) {
        Some((n, r)) => p_zids_items(r, n as nat),
        None => None,
    }
}

// ---------------------------------------------------------------------
// Composite fields: round-trip lemmas.
// ---------------------------------------------------------------------

proof fn seq_assoc<T>(a: Seq<T>, b: Seq<T>, c: Seq<T>)
    ensures
        (a + b) + c == a + (b + c),
{
    assert((a + b) + c =~= a + (b + c));
}

pub proof fn lemma_p_keyexpr(b: Seq<u8>, rest: Seq<u8>)
    requires
        b.len() <= u64::MAX,
        keyexpr_ok(b),
    ensures
        p_keyexpr(enc_bytes(b) + rest) == Some((b, rest)),
{
    lemma_p_bytes(b, rest);
}

pub proof fn lemma_p_qos(q: Qos, rest: Seq<u8>)
    ensures
        p_qos(enc_qos(q) + rest) == Some((q, rest)),
{
    lemma_p_u8(q.byte(), rest);
}

pub proof fn lemma_p_qsettings(q: QuerySettings, rest: Seq<u8>)
    ensures
        p_qsettings(enc_qsettings(q) + rest) == Some((q, rest)),
{
    lemma_p_u8(q.byte(), rest);
}

pub proof fn lemma_p_locality(l: Locality, rest: Seq<u8>)
    ensures
        p_locality(enc_locality(l) + rest) == Some((l, rest)),
{
    lemma_p_u8(locality_byte(l), rest);
}

pub proof fn lemma_p_reply_keyexpr(a: ReplyKeyExpr, rest: Seq<u8>)
    ensures
        p_reply_keyexpr(enc_reply_keyexpr(a) + rest) == Some((a, rest)),
{
    lemma_p_u8(reply_keyexpr_byte(a), rest);
}

pub proof fn lemma_p_sample_kind(k: SampleKind, rest: Seq<u8>)
    ensures
        p_sample_kind(enc_sample_kind(k) + rest) == Some((k, rest)),
{
    lemma_p_u8(sample_kind_byte(k), rest);
}

pub proof fn lemma_p_encoding(e: EncodingInfoV, rest: Seq<u8>)
    requires
        e.wf(),
    ensures
        p_encoding(enc_encoding(e) + rest) == Some((e, rest)),
{
    let r1 = enc_bytes(e.schema) + rest;
    assert(enc_encoding(e) + rest =~= enc_u16(e.id) + r1);
    lemma_p_u16(e.id, r1);
    lemma_p_bytes(e.schema, rest);
}

pub proof fn lemma_p_opt_encoding(o: Option<EncodingInfoV>, rest: Seq<u8>)
    requires
        opt_enc_wf(o),
    ensures
        p_opt_encoding(enc_opt_encoding(o) + rest) == Some((o, rest)),
{
    match o {
        Option::None => {
            lemma_p_bool(false, rest);
        },
        Option::Some(e) => {
            let r1 = enc_encoding(e) + rest;
            assert(enc_opt_encoding(o) + rest =~= enc_bool(true) + r1);
            lemma_p_bool(true, r1);
            lemma_p_encoding(e, rest);
        },
    }
}

pub proof fn lemma_p_timestamp(t: TimestampInfoV, rest: Seq<u8>)
    requires
        t.wf(),
    ensures
        p_timestamp(enc_timestamp(t) + rest) == Some((t, rest)),
{
    let r1 = t.id + rest;
    assert(enc_timestamp(t) + rest =~= enc_u64(t.ntp64) + r1);
    lemma_p_u64(t.ntp64, r1);
    lemma_p_raw(t.id, rest);
}

pub proof fn lemma_p_opt_timestamp(o: Option<TimestampInfoV>, rest: Seq<u8>)
    requires
        opt_ts_wf(o),
    ensures
        p_opt_timestamp(enc_opt_timestamp(o) + rest) == Some((o, rest)),
{
    match o {
        Option::None => {
            lemma_p_bool(false, rest);
        },
        Option::Some(t) => {
            let r1 = enc_timestamp(t) + rest;
            assert(enc_opt_timestamp(o) + rest =~= enc_bool(true) + r1);
            lemma_p_bool(true, r1);
            lemma_p_timestamp(t, rest);
        },
    }
}

pub proof fn lemma_p_sample(x: SampleInfoV, rest: Seq<u8>)
    requires
        x.wf(),
    ensures
        p_sample(enc_sample(x) + rest) == Some((x, rest)),
{
    let a = enc_bytes(x.keyexpr);
    let b = enc_bytes(x.payload);
    let c = enc_sample_kind(x.kind);
    let d = enc_encoding(x.encoding);
    let e = enc_opt_bytes(x.attachment);
    let f = enc_opt_timestamp(x.timestamp);
    let g = enc_qos(x.qos);
    let r6 = g + rest;
    let r5 = f + r6;
    let r4 = e + r5;
    let r3 = d + r4;
    let r2 = c + r3;
    let r1 = b + r2;
    seq_assoc(a + b + c + d + e + f, g, rest);
    seq_assoc(a + b + c + d + e, f, r6);
    seq_assoc(a + b + c + d, e, r5);
    seq_assoc(a + b + c, d, r4);
    seq_assoc(a + b, c, r3);
    seq_assoc(a, b, r2);
    assert(enc_sample(x) + rest == a + r1);
    lemma_p_bytes(x.keyexpr, r1);
    lemma_p_bytes(x.payload, r2);
    lemma_p_sample_kind(x.kind, r3);
    lemma_p_encoding(x.encoding, r4);
    lemma_p_opt_bytes(x.attachment, r5);
    lemma_p_opt_timestamp(x.timestamp, r6);
    lemma_p_qos(x.qos, rest);
}

pub proof fn lemma_p_query(x: QueryInfoV, rest: Seq<u8>)
    requires
        x.wf(),
    ensures
        p_query(enc_query(x) + rest) == Some((x, rest)),
{
    let a = enc_bytes(x.keyexpr);
    let b = enc_bytes(x.parameters);
    let c = enc_opt_bytes(x.payload);
    let d = enc_opt_encoding(x.encoding);
    let e = enc_opt_bytes(x.attachment);
    let f = enc_reply_keyexpr(x.reply_keyexpr);
    let r5 = f + rest;
    let r4 = e + r5;
    let r3 = d + r4;
    let r2 = c + r3;
    let r1 = b + r2;
    seq_assoc(a + b + c + d + e, f, rest);
    seq_assoc(a + b + c + d, e, r5);
    seq_assoc(a + b + c, d, r4);
    seq_assoc(a + b, c, r3);
    seq_assoc(a, b, r2);
    assert(enc_query(x) + rest == a + r1);
    lemma_p_bytes(x.keyexpr, r1);
    lemma_p_bytes(x.parameters, r2);
    lemma_p_opt_bytes(x.payload, r3);
    lemma_p_opt_encoding(x.encoding, r4);
    lemma_p_opt_bytes(x.attachment, r5);
    lemma_p_reply_keyexpr(x.reply_keyexpr, rest);
}

pub proof fn lemma_p_reply(x: ReplyInfoV, rest: Seq<u8>)
    requires
        x.wf(),
    ensures
        p_reply(enc_reply(x) + rest) == Some((x, rest)),
{
    match x {
        ReplyInfoV::Value(sm) => {
            let r1 = enc_sample(sm) + rest;
            assert(enc_reply(x) + rest =~= enc_bool(true) + r1);
            lemma_p_bool(true, r1);
            lemma_p_sample(sm, rest);
        },
        ReplyInfoV::Failure { payload, encoding } => {
            let r2 = enc_bytes(payload) + rest;
            let r1 = enc_encoding(encoding) + r2;
            assert(enc_reply(x) + rest =~= enc_bool(false) + r1);
            lemma_p_bool(false, r1);
            lemma_p_encoding(encoding, r2);
            lemma_p_bytes(payload, rest);
        },
    }
}

proof fn lemma_p_zids_items(l: Seq<Seq<u8>>, rest: Seq<u8>)
    requires
        forall|i: int| 0 <= i < l.len() ==> (#[trigger] l[i]).len() == 16,
    ensures
        p_zids_items(enc_zids_items(l) + rest, l.len() as nat) == Some((l, rest)),
    decreases l.len(),
{
    if l.len() == 0 {
        assert(enc_zids_items(l) + rest =~= rest);
    } else {
        let tail = l.skip(1);
        let r1 = enc_zids_items(tail) + rest;
        assert(enc_zids_items(l) + rest =~= l[0] + r1);
        lemma_p_raw(l[0], r1);
        lemma_p_zids_items(tail, rest);
        assert(seq![l[0]] + tail =~= l);
    }
}

pub proof fn lemma_p_zids(l: Seq<Seq<u8>>, rest: Seq<u8>)
    requires
        zids_wf(l),
    ensures
        p_zids(enc_zids(l) + rest) == Some((l, rest)),
{
    let r1 = enc_zids_items(l) + rest;
    assert(enc_zids(l) + rest =~= enc_varint(l.len() as u64) + r1);
    lemma_p_varint(l.len() as u64, r1);
    lemma_p_zids_items(l, rest);
}

// ---------------------------------------------------------------------
// Composite fields: executable readers and writers.
// ---------------------------------------------------------------------

pub(crate) fn put_encoding(w: &mut Writer, e: &EncodingInfo)
    ensures
        final(w).buf@ == old(w).buf@ + enc_encoding(e@),
{
    w.put_u16(e.id);
    w.put_bytes(e.schema.as_slice());
    assert(w.buf@ =~= old(w).buf@ + enc_encoding(e@));
}

pub(crate) fn get_encoding(r: &mut Reader) -> (res: Option<EncodingInfo>)
    requires
        old(r).wf(),
    ensures
        final(r).wf(),
        final(r).buf == old(r).buf,
        match res {
            Some(e) => p_encoding(old(r).rem()) == Some((e@, final(r).rem())),
            None => p_encoding(old(r).rem()) is None,
        },
{
    let id = match r.get_u16() {
        Some(v) => v,
        None => {
            return None;
        },
    };
    let schema = match r.get_bytes() {
        Some(v) => v,
        None => {
            return None;
        },
    };
    Some(EncodingInfo { id, schema })
}

pub(crate) fn put_opt_encoding(w: &mut Writer, o: &Option<EncodingInfo>)
    ensures
        final(w).buf@ == old(w).buf@ + enc_opt_encoding(opt_enc_view(*o)),
{
    match o {
        Option::Some(e) => {
            w.put_bool(true);
            put_encoding(w, e);
            assert(w.buf@ =~= old(w).buf@ + enc_opt_encoding(opt_enc_view(*o)));
        },
        Option::None => {
            w.put_bool(false);
        },
    }
}

pub(crate) fn get_opt_encoding(r: &mut Reader) -> (res: Option<Option<EncodingInfo>>)
    requires
        old(r).wf(),
    ensures
        final(r).wf(),
        final(r).buf == old(r).buf,
        match res {
            Some(o) => p_opt_encoding(old(r).rem()) == Some((opt_enc_view(o), final(r).rem())),
            None => p_opt_encoding(old(r).rem()) is None,
        },
{
    let present = match r.get_bool() {
        Some(v) => v,
        None => {
            return None;
        },
    };
    if present {
        match get_encoding(r) {
            Some(e) => Some(Some(e)),
            None => None,
        }
    } else {
        Some(None)
    }
}

pub(crate) fn put_timestamp(w: &mut Writer, t: &TimestampInfo)
    ensures
        final(w).buf@ == old(w).buf@ + enc_timestamp(t@),
{
    w.put_u64(t.ntp64);
    w.put_raw(t.id.as_slice());
    assert(w.buf@ =~= old(w).buf@ + enc_timestamp(t@));
}

pub(crate) fn get_timestamp(r: &mut Reader) -> (res: Option<TimestampInfo>)
    requires
        old(r).wf(),
    ensures
        final(r).wf(),
        final(r).buf == old(r).buf,
        match res {
            Some(t) => p_timestamp(old(r).rem()) == Some((t@, final(r).rem())),
            None => p_timestamp(old(r).rem()) is None,
        },
{
    let ntp64 = match r.get_u64() {
        Some(v) => v,
        None => {
            return None;
        },
    };
    let id = match r.get_raw(16) {
        Some(v) => v,
        None => {
            return None;
        },
    };
    Some(TimestampInfo { ntp64, id })
}

pub(crate) fn put_opt_timestamp(w: &mut Writer, o: &Option<TimestampInfo>)
    ensures
        final(w).buf@ == old(w).buf@ + enc_opt_timestamp(opt_ts_view(*o)),
{
    match o {
        Option::Some(t) => {
            w.put_bool(true);
            put_timestamp(w, t);
            assert(w.buf@ =~= old(w).buf@ + enc_opt_timestamp(opt_ts_view(*o)));
        },
        Option::None => {
            w.put_bool(false);
        },
    }
}

pub(crate) fn get_opt_timestamp(r: &mut Reader) -> (res: Option<Option<TimestampInfo>>)
    requires
        old(r).wf(),
    ensures
        final(r).wf(),
        final(r).buf == old(r).buf,
        match res {
            Some(o) => p_opt_timestamp(old(r).rem()) == Some((opt_ts_view(o), final(r).rem())),
            None => p_opt_timestamp(old(r).rem()) is None,
        },
{
    let present = match r.get_bool() {
        Some(v) => v,
        None => {
            return None;
        },
    };
    if present {
        match get_timestamp(r) {
            Some(t) => Some(Some(t)),
            None => None,
        }
    } else {
        Some(None)
    }
}

pub(crate) fn put_locality(w: &mut Writer, l: &Locality)
    ensures
        final(w).buf@ == old(w).buf@ + enc_locality(*l),
{
    let b: u8 = match l {
        Locality::SessionLocal => 0,
        Locality::Remote => 1,
        Locality::Any => 2,
    };
    w.put_u8(b);
}

pub(crate) fn get_locality(r: &mut Reader) -> (res: Option<Locality>)
    requires
        old(r).wf(),
    ensures
        final(r).wf(),
        final(r).buf == old(r).buf,
        match res {
            Some(l) => p_locality(old(r).rem()) == Some((l, final(r).rem())),
            None => p_locality(old(r).rem()) is None,
        },
{
    let b = match r.get_u8() {
        Some(v) => v,
        None => {
            return None;
        },
    };
    if b == 0 {
        Some(Locality::SessionLocal)
    } else if b == 1 {
        Some(Locality::Remote)
    } else if b == 2 {
        Some(Locality::Any)
    } else {
        None
    }
}

pub(crate) fn put_reply_keyexpr(w: &mut Writer, a: &ReplyKeyExpr)
    ensures
        final(w).buf@ == old(w).buf@ + enc_reply_keyexpr(*a),
{
    let b: u8 = match a {
        ReplyKeyExpr::Any => 0,
        ReplyKeyExpr::MatchingQuery => 1,
    };
    w.put_u8(b);
}

pub(crate) fn get_reply_keyexpr(r: &mut Reader) -> (res: Option<ReplyKeyExpr>)
    requires
        old(r).wf(),
    ensures
        final(r).wf(),
        final(r).buf == old(r).buf,
        match res {
            Some(a) => p_reply_keyexpr(old(r).rem()) == Some((a, final(r).rem())),
            None => p_reply_keyexpr(old(r).rem()) is None,
        },
{
    let b = match r.get_u8() {
        Some(v) => v,
        None => {
            return None;
        },
    };
    if b == 0 {
        Some(ReplyKeyExpr::Any)
    } else if b == 1 {
        Some(ReplyKeyExpr::MatchingQuery)
    } else {
        None
    }
}

pub(crate) fn put_sample(w: &mut Writer, x: &SampleInfo)
    ensures
        final(w).buf@ == old(w).buf@ + enc_sample(x@),
{
    w.put_bytes(x.keyexpr.as_slice());
    w.put_bytes(x.payload.as_slice());
    let kb: u8 = match x.kind {
        SampleKind::Put => 0,
        SampleKind::Delete => 1,
    };
    w.put_u8(kb);
    put_encoding(w, &x.encoding);
    w.put_opt_bytes(&x.attachment);
    put_opt_timestamp(w, &x.timestamp);
    w.put_u8(x.qos.to_byte());
    assert(w.buf@ =~= old(w).buf@ + enc_sample(x@));
}

pub(crate) fn get_sample(r: &mut Reader) -> (res: Option<SampleInfo>)
    requires
        old(r).wf(),
    ensures
        final(r).wf(),
        final(r).buf == old(r).buf,
        match res {
            Some(x) => p_sample(old(r).rem()) == Some((x@, final(r).rem())),
            None => p_sample(old(r).rem()) is None,
        },
{
    let keyexpr = match r.get_bytes() {
        Some(v) => v,
        None => {
            return None;
        },
    };
    let payload = match r.get_bytes() {
        Some(v) => v,
        None => {
            return None;
        },
    };
    let kb = match r.get_u8() {
        Some(v) => v,
        None => {
            return None;
        },
    };
    let kind = if kb == 0 {
        SampleKind::Put
    } else if kb == 1 {
        SampleKind::Delete
    } else {
        return None;
    };
    let encoding = match get_encoding(r) {
        Some(v) => v,
        None => {
            return None;
        },
    };
    let attachment = match r.get_opt_bytes() {
        Some(v) => v,
        None => {
            return None;
        },
    };
    let timestamp = match get_opt_timestamp(r) {
        Some(v) => v,
        None => {
            return None;
        },
    };
    let qb = match r.get_u8() {
        Some(v) => v,
        None => {
            return None;
        },
    };
    let qos = Qos::from_byte(qb);
    Some(SampleInfo { keyexpr, payload, kind, encoding, attachment, timestamp, qos })
}

pub(crate) fn put_query(w: &mut Writer, x: &QueryInfo)
    ensures
        final(w).buf@ == old(w).buf@ + enc_query(x@),
{
    w.put_bytes(x.keyexpr.as_slice());
    w.put_bytes(x.parameters.as_slice());
    w.put_opt_bytes(&x.payload);
    put_opt_encoding(w, &x.encoding);
    w.put_opt_bytes(&x.attachment);
    put_reply_keyexpr(w, &x.reply_keyexpr);
    assert(w.buf@ =~= old(w).buf@ + enc_query(x@));
}

pub(crate) fn get_query(r: &mut Reader) -> (res: Option<QueryInfo>)
    requires
        old(r).wf(),
    ensures
        final(r).wf(),
        final(r).buf == old(r).buf,
        match res {
            Some(x) => p_query(old(r).rem()) == Some((x@, final(r).rem())),
            None => p_query(old(r).rem()) is None,
        },
{
    let keyexpr = match r.get_bytes() {
        Some(v) => v,
        None => {
            return None;
        },
    };
    let parameters = match r.get_bytes() {
        Some(v) => v,
        None => {
            return None;
        },
    };
    let payload = match r.get_opt_bytes() {
        Some(v) => v,
        None => {
            return None;
        },
    };
    let encoding = match get_opt_encoding(r) {
        Some(v) => v,
        None => {
            return None;
        },
    };
    let attachment = match r.get_opt_bytes() {
        Some(v) => v,
        None => {
            return None;
        },
    };
    let reply_keyexpr = match get_reply_keyexpr(r) {
        Some(v) => v,
        None => {
            return None;
        },
    };
    Some(QueryInfo { keyexpr, parameters, payload, encoding, attachment, reply_keyexpr })
}

pub(crate) fn put_reply(w: &mut Writer, x: &ReplyInfo)
    ensures
        final(w).buf@ == old(w).buf@ + enc_reply(x@),
{
    match x {
        ReplyInfo::Value(sm) => {
            w.put_bool(true);
            put_sample(w, sm);
            assert(w.buf@ =~= old(w).buf@ + enc_reply(x@));
        },
        ReplyInfo::Failure { payload, encoding } => {
            w.put_bool(false);
            put_encoding(w, encoding);
            w.put_bytes(payload.as_slice());
            assert(w.buf@ =~= old(w).buf@ + enc_reply(x@));
        },
    }
}

pub(crate) fn get_reply(r: &mut Reader) -> (res: Option<ReplyInfo>)
    requires
        old(r).wf(),
    ensures
        final(r).wf(),
        final(r).buf == old(r).buf,
        match res {
            Some(x) => p_reply(old(r).rem()) == Some((x@, final(r).rem())),
            None => p_reply(old(r).rem()) is None,
        },
{
    let success = match r.get_bool() {
        Some(v) => v,
        None => {
            return None;
        },
    };
    if success {
        match get_sample(r) {
            Some(sm) => Some(ReplyInfo::Value(sm)),
            None => None,
        }
    } else {
        let encoding = match get_encoding(r) {
            Some(v) => v,
            None => {
                return None;
            },
        };
        let payload = match r.get_bytes() {
            Some(v) => v,
            None => {
                return None;
            },
        };
        Some(ReplyInfo::Failure { payload, encoding })
    }
}

pub(crate) fn put_zids(w: &mut Writer, l: &Vec<Vec<u8>>)
    ensures
        final(w).buf@ == old(w).buf@ + enc_zids(zids_view(l@)),
{
    w.put_varint(l.len() as u64);
    let ghost full = zids_view(l@);
    let n: usize = l.len();
    let mut i: usize = 0;
    proof {
        assert(full.skip(0) =~= full);
    }
    while i < n
        invariant
            i <= n,
            n == l@.len(),
            full == zids_view(l@),
            full.len() == n,
            w.buf@ + enc_zids_items(full.skip(i as int)) == old(w).buf@ + enc_varint(n as u64)
                + enc_zids_items(full),
        decreases n - i,
    {
        proof {
            assert(full.skip(i as int)[0] == full[i as int]);
            assert(full.skip(i as int).skip(1) =~= full.skip(i as int + 1));
            assert(enc_zids_items(full.skip(i as int)) == full[i as int] + enc_zids_items(
                full.skip(i as int + 1),
            ));
        }
        let ghost before = w.buf@;
        w.put_raw(l[i].as_slice());
        proof {
            assert(full[i as int] == l@[i as int]@);
            assert(w.buf@ + enc_zids_items(full.skip(i as int + 1)) =~= before + enc_zids_items(
                full.skip(i as int),
            ));
        }
        i = i + 1;
    }
    proof {
        assert(full.skip(n as int) =~= Seq::<Seq<u8>>::empty());
        assert(enc_zids_items(full.skip(n as int)) =~= Seq::<u8>::empty());
        assert(w.buf@ + Seq::<u8>::empty() =~= w.buf@);
        assert(w.buf@ =~= old(w).buf@ + enc_zids(zids_view(l@)));
    }
}

pub(crate) fn get_zids(r: &mut Reader) -> (res: Option<Vec<Vec<u8>>>)
    requires
        old(r).wf(),
    ensures
        final(r).wf(),
        final(r).buf == old(r).buf,
        match res {
            Some(l) => p_zids(old(r).rem()) == Some((zids_view(l@), final(r).rem())),
            None => p_zids(old(r).rem()) is None,
        },
{
    let n = match r.get_varint() {
        Some(v) => v,
        None => {
            return None;
        },
    };
    let ghost s0 = r.rem();
    let mut out: Vec<Vec<u8>> = Vec::new();
    let mut i: u64 = 0;
    proof {
        assert(zids_view(out@) =~= Seq::<Seq<u8>>::empty());
    }
    while i < n
        invariant
            i <= n,
            r.wf(),
            r.buf == old(r).buf,
            out@.len() == i,
            p_varint(old(r).rem()) == Some::<(u64, Seq<u8>)>((n, s0)),
            p_zids_items(s0, n as nat) == (match p_zids_items(r.rem(), (n - i) as nat) {
                Some((l, rr)) => Some::<(Seq<Seq<u8>>, Seq<u8>)>((zids_view(out@) + l, rr)),
                None => None::<(Seq<Seq<u8>>, Seq<u8>)>,
            }),
        decreases n - i,
    {
        let ghost rem_before = r.rem();
        let ghost out_before = out@;
        let z = match r.get_raw(16) {
            Some(v) => v,
            None => {
                proof {
                    assert(p_zids_items(rem_before, (n - i) as nat) is None);
                }
                return None;
            },
        };
        out.push(z);
        i = i + 1;
        proof {
            assert(zids_view(out@) =~= zids_view(out_before) + seq![z@]);
            match p_zids_items(r.rem(), (n - i) as nat) {
                Some((l, rr)) => {
                    assert(zids_view(out_before) + (seq![z@] + l) =~= zids_view(out@) + l);
                },
                None => {},
            }
        }
    }
    proof {
        assert(p_zids_items(r.rem(), 0) == Some::<(Seq<Seq<u8>>, Seq<u8>)>(
            (Seq::<Seq<u8>>::empty(), r.rem()),
        ));
        assert(zids_view(out@) + Seq::<Seq<u8>>::empty() =~= zids_view(out@));
    }
    Some(out)
}

// ---------------------------------------------------------------------
// Message bodies: tags, encoders, parsers, and their round trips.
// ---------------------------------------------------------------------

/// The wire ordinal of each inbound variant, in declaration order.
pub open spec fn spec_in_tag(m: InRemoteMessageV) -> u8 {
    match m {
        InRemoteMessageV::DeclarePublisher { .. } => 0,
        InRemoteMessageV::UndeclarePublisher { .. } => 1,
        InRemoteMessageV::DeclareSubscriber { .. } => 2,
        InRemoteMessageV::UndeclareSubscriber { .. } => 3,
        InRemoteMessageV::DeclareQueryable { .. } => 4,
        InRemoteMessageV::UndeclareQueryable { .. } => 5,
        InRemoteMessageV::DeclareQuerier { .. } => 6,
        InRemoteMessageV::UndeclareQuerier { .. } => 7,
        InRemoteMessageV::DeclareLivelinessToken { .. } => 8,
        InRemoteMessageV::UndeclareLivelinessToken { .. } => 9,
        InRemoteMessageV::DeclareLivelinessSubscriber { .. } => 10,
        InRemoteMessageV::UndeclareLivelinessSubscriber { .. } => 11,
        InRemoteMessageV::GetSessionInfo => 12,
        InRemoteMessageV::GetTimestamp => 13,
        InRemoteMessageV::Put { .. } => 14,
        InRemoteMessageV::Delete { .. } => 15,
        InRemoteMessageV::PublisherPut { .. } => 16,
        InRemoteMessageV::PublisherDelete { .. } => 17,
        InRemoteMessageV::Get { .. } => 18,
        InRemoteMessageV::QuerierGet { .. } => 19,
        InRemoteMessageV::LivelinessGet { .. } => 20,
        InRemoteMessageV::ReplyOk { .. } => 21,
        InRemoteMessageV::ReplyDel { .. } => 22,
        InRemoteMessageV::ReplyErr { .. } => 23,
        InRemoteMessageV::QueryResponseFinal { .. } => 24,
        InRemoteMessageV::Ping => 25,
        InRemoteMessageV::PublisherDeclareMatchingListener { .. } => 26,
        InRemoteMessageV::UndeclareMatchingListener { .. } => 27,
        InRemoteMessageV::PublisherGetMatchingStatus { .. } => 28,
        InRemoteMessageV::QuerierDeclareMatchingListener { .. } => 29,
        InRemoteMessageV::QuerierGetMatchingStatus { .. } => 30,
    }
}

pub fn in_tag(m: &InRemoteMessage) -> (t: u8)
    ensures
        t == spec_in_tag(m@),
{
    match m {
        InRemoteMessage::DeclarePublisher { .. } => 0,
        InRemoteMessage::UndeclarePublisher { .. } => 1,
        InRemoteMessage::DeclareSubscriber { .. } => 2,
        InRemoteMessage::UndeclareSubscriber { .. } => 3,
        InRemoteMessage::DeclareQueryable { .. } => 4,
        InRemoteMessage::UndeclareQueryable { .. } => 5,
        InRemoteMessage::DeclareQuerier { .. } => 6,
        InRemoteMessage::UndeclareQuerier { .. } => 7,
        InRemoteMessage::DeclareLivelinessToken { .. } => 8,
        InRemoteMessage::UndeclareLivelinessToken { .. } => 9,
        InRemoteMessage::DeclareLivelinessSubscriber { .. } => 10,
        InRemoteMessage::UndeclareLivelinessSubscriber { .. } => 11,
        InRemoteMessage::GetSessionInfo => 12,
        InRemoteMessage::GetTimestamp => 13,
        InRemoteMessage::Put { .. } => 14,
        InRemoteMessage::Delete { .. } => 15,
        InRemoteMessage::PublisherPut { .. } => 16,
        InRemoteMessage::PublisherDelete { .. } => 17,
        InRemoteMessage::Get { .. } => 18,
        InRemoteMessage::QuerierGet { .. } => 19,
        InRemoteMessage::LivelinessGet { .. } => 20,
        InRemoteMessage::ReplyOk { .. } => 21,
        InRemoteMessage::ReplyDel { .. } => 22,
        InRemoteMessage::ReplyErr { .. } => 23,
        InRemoteMessage::QueryResponseFinal { .. } => 24,
        InRemoteMessage::Ping => 25,
        InRemoteMessage::PublisherDeclareMatchingListener { .. } => 26,
        InRemoteMessage::UndeclareMatchingListener { .. } => 27,
        InRemoteMessage::PublisherGetMatchingStatus { .. } => 28,
        InRemoteMessage::QuerierDeclareMatchingListener { .. } => 29,
        InRemoteMessage::QuerierGetMatchingStatus { .. } => 30,
    }
}

/// The wire ordinal of each outbound variant, in declaration order.
pub open spec fn spec_out_tag(m: OutRemoteMessageV) -> u8 {
    match m {
        OutRemoteMessageV::PingAck { .. } => 0,
        OutRemoteMessageV::Ack { .. } => 1,
        OutRemoteMessageV::Error { .. } => 2,
        OutRemoteMessageV::ResponseTimestamp { .. } => 3,
        OutRemoteMessageV::ResponseSessionInfo { .. } => 4,
        OutRemoteMessageV::Sample { .. } => 5,
        OutRemoteMessageV::Query { .. } => 6,
        OutRemoteMessageV::Reply { .. } => 7,
        OutRemoteMessageV::QueryResponseFinal { .. } => 8,
        OutRemoteMessageV::MatchingStatus { .. } => 9,
        OutRemoteMessageV::MatchingStatusUpdate { .. } => 10,
    }
}

pub fn out_tag(m: &OutRemoteMessage) -> (t: u8)
    ensures
        t == spec_out_tag(m@),
{
    match m {
        OutRemoteMessage::PingAck { .. } => 0,
        OutRemoteMessage::Ack { .. } => 1,
        OutRemoteMessage::Error { .. } => 2,
        OutRemoteMessage::ResponseTimestamp { .. } => 3,
        OutRemoteMessage::ResponseSessionInfo { .. } => 4,
        OutRemoteMessage::Sample { .. } => 5,
        OutRemoteMessage::Query { .. } => 6,
        OutRemoteMessage::Reply { .. } => 7,
        OutRemoteMessage::QueryResponseFinal { .. } => 8,
        OutRemoteMessage::MatchingStatus { .. } => 9,
        OutRemoteMessage::MatchingStatusUpdate { .. } => 10,
    }
}

impl InRemoteMessageV {
    /// Every byte field short enough for its length prefix, every
    /// sub-structure well-formed, every key expression valid.
    pub open spec fn wf(self) -> bool {
        match self {
            InRemoteMessageV::DeclarePublisher { keyexpr, encoding, .. } => keyexpr.len() <= u64::MAX && keyexpr_ok(keyexpr) && encoding.wf(),
            InRemoteMessageV::UndeclarePublisher { .. } => true,
            InRemoteMessageV::DeclareSubscriber { keyexpr, .. } => keyexpr.len() <= u64::MAX && keyexpr_ok(keyexpr),
            InRemoteMessageV::UndeclareSubscriber { .. } => true,
            InRemoteMessageV::DeclareQueryable { keyexpr, .. } => keyexpr.len() <= u64::MAX && keyexpr_ok(keyexpr),
            InRemoteMessageV::UndeclareQueryable { .. } => true,
            InRemoteMessageV::DeclareQuerier { keyexpr, .. } => keyexpr.len() <= u64::MAX && keyexpr_ok(keyexpr),
            InRemoteMessageV::UndeclareQuerier { .. } => true,
            InRemoteMessageV::DeclareLivelinessToken { keyexpr, .. } => keyexpr.len() <= u64::MAX && keyexpr_ok(keyexpr),
            InRemoteMessageV::UndeclareLivelinessToken { .. } => true,
            InRemoteMessageV::DeclareLivelinessSubscriber { keyexpr, .. } => keyexpr.len() <= u64::MAX && keyexpr_ok(keyexpr),
            InRemoteMessageV::UndeclareLivelinessSubscriber { .. } => true,
            InRemoteMessageV::GetSessionInfo => true,
            InRemoteMessageV::GetTimestamp => true,
            InRemoteMessageV::Put { keyexpr, payload, encoding, attachment, timestamp, .. } => keyexpr.len() <= u64::MAX && keyexpr_ok(keyexpr) && payload.len() <= u64::MAX && encoding.wf() && opt_bytes_wf(attachment) && opt_ts_wf(timestamp),
            InRemoteMessageV::Delete { keyexpr, attachment, timestamp, .. } => keyexpr.len() <= u64::MAX && keyexpr_ok(keyexpr) && opt_bytes_wf(attachment) && opt_ts_wf(timestamp),
            InRemoteMessageV::PublisherPut { payload, encoding, attachment, timestamp, .. } => payload.len() <= u64::MAX && opt_enc_wf(encoding) && opt_bytes_wf(attachment) && opt_ts_wf(timestamp),
            InRemoteMessageV::PublisherDelete { attachment, timestamp, .. } => opt_bytes_wf(attachment) && opt_ts_wf(timestamp),
            InRemoteMessageV::Get { keyexpr, parameters, payload, encoding, attachment, .. } => keyexpr.len() <= u64::MAX && keyexpr_ok(keyexpr) && parameters.len() <= u64::MAX && opt_bytes_wf(payload) && opt_enc_wf(encoding) && opt_bytes_wf(attachment),
            InRemoteMessageV::QuerierGet { parameters, payload, encoding, attachment, .. } => parameters.len() <= u64::MAX && opt_bytes_wf(payload) && opt_enc_wf(encoding) && opt_bytes_wf(attachment),
            InRemoteMessageV::LivelinessGet { keyexpr, .. } => keyexpr.len() <= u64::MAX && keyexpr_ok(keyexpr),
            InRemoteMessageV::ReplyOk { keyexpr, payload, encoding, attachment, timestamp, .. } => keyexpr.len() <= u64::MAX && keyexpr_ok(keyexpr) && payload.len() <= u64::MAX && encoding.wf() && opt_bytes_wf(attachment) && opt_ts_wf(timestamp),
            InRemoteMessageV::ReplyDel { keyexpr, attachment, timestamp, .. } => keyexpr.len() <= u64::MAX && keyexpr_ok(keyexpr) && opt_bytes_wf(attachment) && opt_ts_wf(timestamp),
            InRemoteMessageV::ReplyErr { payload, encoding, .. } => payload.len() <= u64::MAX && encoding.wf(),
            InRemoteMessageV::QueryResponseFinal { .. } => true,
            InRemoteMessageV::Ping => true,
            InRemoteMessageV::PublisherDeclareMatchingListener { .. } => true,
            InRemoteMessageV::UndeclareMatchingListener { .. } => true,
            InRemoteMessageV::PublisherGetMatchingStatus { .. } => true,
            InRemoteMessageV::QuerierDeclareMatchingListener { .. } => true,
            InRemoteMessageV::QuerierGetMatchingStatus { .. } => true,
        }
    }
}

impl OutRemoteMessageV {
    /// Every byte field short enough for its length prefix, every
    /// sub-structure well-formed, every key expression valid.
    pub open spec fn wf(self) -> bool {
        match self {
            OutRemoteMessageV::PingAck { uuid } => uuid.len() <= u64::MAX,
            OutRemoteMessageV::Ack { .. } => true,
            OutRemoteMessageV::Error { message } => message.len() <= u64::MAX,
            OutRemoteMessageV::ResponseTimestamp { timestamp } => timestamp.wf(),
            OutRemoteMessageV::ResponseSessionInfo { zid, z_routers, z_peers } => zid.len() == 16 && zids_wf(z_routers) && zids_wf(z_peers),
            OutRemoteMessageV::Sample { sample, .. } => sample.wf(),
            OutRemoteMessageV::Query { query, .. } => query.wf(),
            OutRemoteMessageV::Reply { reply, .. } => reply.wf(),
            OutRemoteMessageV::QueryResponseFinal { .. } => true,
            OutRemoteMessageV::MatchingStatus { .. } => true,
            OutRemoteMessageV::MatchingStatusUpdate { .. } => true,
        }
    }
}

pub open spec fn enc_in_body(m: InRemoteMessageV) -> Seq<u8> {
    match m {
        InRemoteMessageV::DeclarePublisher { id, keyexpr, encoding, qos } => enc_u32(id) + enc_bytes(keyexpr) + enc_encoding(encoding) + enc_qos(qos),
        InRemoteMessageV::UndeclarePublisher { id } => enc_u32(id),
        InRemoteMessageV::DeclareSubscriber { id, keyexpr, allowed_origin } => enc_u32(id) + enc_bytes(keyexpr) + enc_locality(allowed_origin),
        InRemoteMessageV::UndeclareSubscriber { id } => enc_u32(id),
        InRemoteMessageV::DeclareQueryable { id, keyexpr, complete, allowed_origin } => enc_u32(id) + enc_bytes(keyexpr) + enc_bool(complete) + enc_locality(allowed_origin),
        InRemoteMessageV::UndeclareQueryable { id } => enc_u32(id),
        InRemoteMessageV::DeclareQuerier { id, keyexpr, qos, query_settings, timeout_ms } => enc_u32(id) + enc_bytes(keyexpr) + enc_qos(qos) + enc_qsettings(query_settings) + enc_u32(timeout_ms),
        InRemoteMessageV::UndeclareQuerier { id } => enc_u32(id),
        InRemoteMessageV::DeclareLivelinessToken { id, keyexpr } => enc_u32(id) + enc_bytes(keyexpr),
        InRemoteMessageV::UndeclareLivelinessToken { id } => enc_u32(id),
        InRemoteMessageV::DeclareLivelinessSubscriber { id, keyexpr, history } => enc_u32(id) + enc_bytes(keyexpr) + enc_bool(history),
        InRemoteMessageV::UndeclareLivelinessSubscriber { id } => enc_u32(id),
        InRemoteMessageV::GetSessionInfo => Seq::empty(),
        InRemoteMessageV::GetTimestamp => Seq::empty(),
        InRemoteMessageV::Put { keyexpr, payload, encoding, attachment, timestamp, qos } => enc_bytes(keyexpr) + enc_bytes(payload) + enc_encoding(encoding) + enc_opt_bytes(attachment) + enc_opt_timestamp(timestamp) + enc_qos(qos),
        InRemoteMessageV::Delete { keyexpr, attachment, timestamp, qos } => enc_bytes(keyexpr) + enc_opt_bytes(attachment) + enc_opt_timestamp(timestamp) + enc_qos(qos),
        InRemoteMessageV::PublisherPut { publisher_id, payload, encoding, attachment, timestamp } => enc_u32(publisher_id) + enc_bytes(payload) + enc_opt_encoding(encoding) + enc_opt_bytes(attachment) + enc_opt_timestamp(timestamp),
        InRemoteMessageV::PublisherDelete { publisher_id, attachment, timestamp } => enc_u32(publisher_id) + enc_opt_bytes(attachment) + enc_opt_timestamp(timestamp),
        InRemoteMessageV::Get { id, keyexpr, parameters, payload, encoding, attachment, qos, query_settings, timeout_ms } => enc_u32(id) + enc_bytes(keyexpr) + enc_bytes(parameters) + enc_opt_bytes(payload) + enc_opt_encoding(encoding) + enc_opt_bytes(attachment) + enc_qos(qos) + enc_qsettings(query_settings) + enc_u32(timeout_ms),
        InRemoteMessageV::QuerierGet { id, querier_id, parameters, payload, encoding, attachment } => enc_u32(id) + enc_u32(querier_id) + enc_bytes(parameters) + enc_opt_bytes(payload) + enc_opt_encoding(encoding) + enc_opt_bytes(attachment),
        InRemoteMessageV::LivelinessGet { id, keyexpr, timeout_ms } => enc_u32(id) + enc_bytes(keyexpr) + enc_u32(timeout_ms),
        InRemoteMessageV::ReplyOk { query_id, keyexpr, payload, encoding, attachment, timestamp, qos } => enc_u32(query_id) + enc_bytes(keyexpr) + enc_bytes(payload) + enc_encoding(encoding) + enc_opt_bytes(attachment) + enc_opt_timestamp(timestamp) + enc_qos(qos),
        InRemoteMessageV::ReplyDel { query_id, keyexpr, attachment, timestamp, qos } => enc_u32(query_id) + enc_bytes(keyexpr) + enc_opt_bytes(attachment) + enc_opt_timestamp(timestamp) + enc_qos(qos),
        InRemoteMessageV::ReplyErr { query_id, payload, encoding } => enc_u32(query_id) + enc_bytes(payload) + enc_encoding(encoding),
        InRemoteMessageV::QueryResponseFinal { query_id } => enc_u32(query_id),
        InRemoteMessageV::Ping => Seq::empty(),
        InRemoteMessageV::PublisherDeclareMatchingListener { id, publisher_id } => enc_u32(id) + enc_u32(publisher_id),
        InRemoteMessageV::UndeclareMatchingListener { id } => enc_u32(id),
        InRemoteMessageV::PublisherGetMatchingStatus { publisher_id } => enc_u32(publisher_id),
        InRemoteMessageV::QuerierDeclareMatchingListener { id, querier_id } => enc_u32(id) + enc_u32(querier_id),
        InRemoteMessageV::QuerierGetMatchingStatus { querier_id } => enc_u32(querier_id),
    }
}

pub open spec fn enc_out_body(m: OutRemoteMessageV) -> Seq<u8> {
    match m {
        OutRemoteMessageV::PingAck { uuid } => enc_bytes(uuid),
        OutRemoteMessageV::Ack { tag } => enc_u8(tag),
        OutRemoteMessageV::Error { message } => enc_bytes(message),
        OutRemoteMessageV::ResponseTimestamp { timestamp } => enc_timestamp(timestamp),
        OutRemoteMessageV::ResponseSessionInfo { zid, z_routers, z_peers } => zid + enc_zids(z_routers) + enc_zids(z_peers),
        OutRemoteMessageV::Sample { subscriber_id, sample } => enc_u32(subscriber_id) + enc_sample(sample),
        OutRemoteMessageV::Query { queryable_id, query_id, query } => enc_u32(queryable_id) + enc_u32(query_id) + enc_query(query),
        OutRemoteMessageV::Reply { query_id, reply } => enc_u32(query_id) + enc_reply(reply),
        OutRemoteMessageV::QueryResponseFinal { query_id } => enc_u32(query_id),
        OutRemoteMessageV::MatchingStatus { matching } => enc_bool(matching),
        OutRemoteMessageV::MatchingStatusUpdate { matching_listener_id, matching } => enc_u32(matching_listener_id) + enc_bool(matching),
    }
}

pub open spec fn p_in_body_declare_publisher(s: Seq<u8>) -> Option<(InRemoteMessageV, Seq<u8>)> {
    match p_u32(s) {
        Some((id, s)) =>
        match p_keyexpr(s) {
            Some((keyexpr, s)) =>
            match p_encoding(s) {
                Some((encoding, s)) =>
                match p_qos(s) {
                    Some((qos, s)) =>
                    Some((InRemoteMessageV::DeclarePublisher { id, keyexpr, encoding, qos }, s))
                    ,
                    None => None,
                }
                ,
                None => None,
            }
            ,
            None => None,
        }
        ,
        None => None,
    }
}

pub open spec fn p_in_body_undeclare_publisher(s: Seq<u8>) -> Option<(InRemoteMessageV, Seq<u8>)> {
    match p_u32(s) {
        Some((id, s)) =>
        Some((InRemoteMessageV::UndeclarePublisher { id }, s))
        ,
        None => None,
    }
}

pub open spec fn p_in_body_declare_subscriber(s: Seq<u8>) -> Option<(InRemoteMessageV, Seq<u8>)> {
    match p_u32(s) {
        Some((id, s)) =>
        match p_keyexpr(s) {
            Some((keyexpr, s)) =>
            match p_locality(s) {
                Some((allowed_origin, s)) =>
                Some((InRemoteMessageV::DeclareSubscriber { id, keyexpr, allowed_origin }, s))
                ,
                None => None,
            }
            ,
            None => None,
        }
        ,
        None => None,
    }
}

pub open spec fn p_in_body_undeclare_subscriber(s: Seq<u8>) -> Option<(InRemoteMessageV, Seq<u8>)> {
    match p_u32(s) {
        Some((id, s)) =>
        Some((InRemoteMessageV::UndeclareSubscriber { id }, s))
        ,
        None => None,
    }
}

pub open spec fn p_in_body_declare_queryable(s: Seq<u8>) -> Option<(InRemoteMessageV, Seq<u8>)> {
    match p_u32(s) {
        Some((id, s)) =>
        match p_keyexpr(s) {
            Some((keyexpr, s)) =>
            match p_bool(s) {
                Some((complete, s)) =>
                match p_locality(s) {
                    Some((allowed_origin, s)) =>
                    Some((InRemoteMessageV::DeclareQueryable { id, keyexpr, complete, allowed_origin }, s))
                    ,
                    None => None,
                }
                ,
                None => None,
            }
            ,
            None => None,
        }
        ,
        None => None,
    }
}

pub open spec fn p_in_body_undeclare_queryable(s: Seq<u8>) -> Option<(InRemoteMessageV, Seq<u8>)> {
    match p_u32(s) {
        Some((id, s)) =>
        Some((InRemoteMessageV::UndeclareQueryable { id }, s))
        ,
        None => None,
    }
}

pub open spec fn p_in_body_declare_querier(s: Seq<u8>) -> Option<(InRemoteMessageV, Seq<u8>)> {
    match p_u32(s) {
        Some((id, s)) =>
        match p_keyexpr(s) {
            Some((keyexpr, s)) =>
            match p_qos(s) {
                Some((qos, s)) =>
                match p_qsettings(s) {
                    Some((query_settings, s)) =>
                    match p_u32(s) {
                        Some((timeout_ms, s)) =>
                        Some((InRemoteMessageV::DeclareQuerier { id, keyexpr, qos, query_settings, timeout_ms }, s))
                        ,
                        None => None,
                    }
                    ,
                    None => None,
                }
                ,
                None => None,
            }
            ,
            None => None,
        }
        ,
        None => None,
    }
}

pub open spec fn p_in_body_undeclare_querier(s: Seq<u8>) -> Option<(InRemoteMessageV, Seq<u8>)> {
    match p_u32(s) {
        Some((id, s)) =>
        Some((InRemoteMessageV::UndeclareQuerier { id }, s))
        ,
        None => None,
    }
}

pub open spec fn p_in_body_declare_liveliness_token(s: Seq<u8>) -> Option<(InRemoteMessageV, Seq<u8>)> {
    match p_u32(s) {
        Some((id, s)) =>
        match p_keyexpr(s) {
            Some((keyexpr, s)) =>
            Some((InRemoteMessageV::DeclareLivelinessToken { id, keyexpr }, s))
            ,
            None => None,
        }
        ,
        None => None,
    }
}

pub open spec fn p_in_body_undeclare_liveliness_token(s: Seq<u8>) -> Option<(InRemoteMessageV, Seq<u8>)> {
    match p_u32(s) {
        Some((id, s)) =>
        Some((InRemoteMessageV::UndeclareLivelinessToken { id }, s))
        ,
        None => None,
    }
}

pub open spec fn p_in_body_declare_liveliness_subscriber(s: Seq<u8>) -> Option<(InRemoteMessageV, Seq<u8>)> {
    match p_u32(s) {
        Some((id, s)) =>
        match p_keyexpr(s) {
            Some((keyexpr, s)) =>
            match p_bool(s) {
                Some((history, s)) =>
                Some((InRemoteMessageV::DeclareLivelinessSubscriber { id, keyexpr, history }, s))
                ,
                None => None,
            }
            ,
            None => None,
        }
        ,
        None => None,
    }
}

pub open spec fn p_in_body_undeclare_liveliness_subscriber(s: Seq<u8>) -> Option<(InRemoteMessageV, Seq<u8>)> {
    match p_u32(s) {
        Some((id, s)) =>
        Some((InRemoteMessageV::UndeclareLivelinessSubscriber { id }, s))
        ,
        None => None,
    }
}

pub open spec fn p_in_body_get_session_info(s: Seq<u8>) -> Option<(InRemoteMessageV, Seq<u8>)> {
    Some((InRemoteMessageV::GetSessionInfo, s))
}

pub open spec fn p_in_body_get_timestamp(s: Seq<u8>) -> Option<(InRemoteMessageV, Seq<u8>)> {
    Some((InRemoteMessageV::GetTimestamp, s))
}

pub open spec fn p_in_body_put(s: Seq<u8>) -> Option<(InRemoteMessageV, Seq<u8>)> {
    match p_keyexpr(s) {
        Some((keyexpr, s)) =>
        match p_bytes(s) {
            Some((payload, s)) =>
            match p_encoding(s) {
                Some((encoding, s)) =>
                match p_opt_bytes(s) {
                    Some((attachment, s)) =>
                    match p_opt_timestamp(s) {
                        Some((timestamp, s)) =>
                        match p_qos(s) {
                            Some((qos, s)) =>
                            Some((InRemoteMessageV::Put { keyexpr, payload, encoding, attachment, timestamp, qos }, s))
                            ,
                            None => None,
                        }
                        ,
                        None => None,
                    }
                    ,
                    None => None,
                }
                ,
                None => None,
            }
            ,
            None => None,
        }
        ,
        None => None,
    }
}

pub open spec fn p_in_body_delete(s: Seq<u8>) -> Option<(InRemoteMessageV, Seq<u8>)> {
    match p_keyexpr(s) {
        Some((keyexpr, s)) =>
        match p_opt_bytes(s) {
            Some((attachment, s)) =>
            match p_opt_timestamp(s) {
                Some((timestamp, s)) =>
                match p_qos(s) {
                    Some((qos, s)) =>
                    Some((InRemoteMessageV::Delete { keyexpr, attachment, timestamp, qos }, s))
                    ,
                    None => None,
                }
                ,
                None => None,
            }
            ,
            None => None,
        }
        ,
        None => None,
    }
}

pub open spec fn p_in_body_publisher_put(s: Seq<u8>) -> Option<(InRemoteMessageV, Seq<u8>)> {
    match p_u32(s) {
        Some((publisher_id, s)) =>
        match p_bytes(s) {
            Some((payload, s)) =>
            match p_opt_encoding(s) {
                Some((encoding, s)) =>
                match p_opt_bytes(s) {
                    Some((attachment, s)) =>
                    match p_opt_timestamp(s) {
                        Some((timestamp, s)) =>
                        Some((InRemoteMessageV::PublisherPut { publisher_id, payload, encoding, attachment, timestamp }, s))
                        ,
                        None => None,
                    }
                    ,
                    None => None,
                }
                ,
                None => None,
            }
            ,
            None => None,
        }
        ,
        None => None,
    }
}

pub open spec fn p_in_body_publisher_delete(s: Seq<u8>) -> Option<(InRemoteMessageV, Seq<u8>)> {
    match p_u32(s) {
        Some((publisher_id, s)) =>
        match p_opt_bytes(s) {
            Some((attachment, s)) =>
            match p_opt_timestamp(s) {
                Some((timestamp, s)) =>
                Some((InRemoteMessageV::PublisherDelete { publisher_id, attachment, timestamp }, s))
                ,
                None => None,
            }
            ,
            None => None,
        }
        ,
        None => None,
    }
}

pub open spec fn p_in_body_get(s: Seq<u8>) -> Option<(InRemoteMessageV, Seq<u8>)> {
    match p_u32(s) {
        Some((id, s)) =>
        match p_keyexpr(s) {
            Some((keyexpr, s)) =>
            match p_bytes(s) {
                Some((parameters, s)) =>
                match p_opt_bytes(s) {
                    Some((payload, s)) =>
                    match p_opt_encoding(s) {
                        Some((encoding, s)) =>
                        match p_opt_bytes(s) {
                            Some((attachment, s)) =>
                            match p_qos(s) {
                                Some((qos, s)) =>
                                match p_qsettings(s) {
                                    Some((query_settings, s)) =>
                                    match p_u32(s) {
                                        Some((timeout_ms, s)) =>
                                        Some((InRemoteMessageV::Get { id, keyexpr, parameters, payload, encoding, attachment, qos, query_settings, timeout_ms }, s))
                                        ,
                                        None => None,
                                    }
                                    ,
                                    None => None,
                                }
                                ,
                                None => None,
                            }
                            ,
                            None => None,
                        }
                        ,
                        None => None,
                    }
                    ,
                    None => None,
                }
                ,
                None => None,
            }
            ,
            None => None,
        }
        ,
        None => None,
    }
}

pub open spec fn p_in_body_querier_get(s: Seq<u8>) -> Option<(InRemoteMessageV, Seq<u8>)> {
    match p_u32(s) {
        Some((id, s)) =>
        match p_u32(s) {
            Some((querier_id, s)) =>
            match p_bytes(s) {
                Some((parameters, s)) =>
                match p_opt_bytes(s) {
                    Some((payload, s)) =>
                    match p_opt_encoding(s) {
                        Some((encoding, s)) =>
                        match p_opt_bytes(s) {
                            Some((attachment, s)) =>
                            Some((InRemoteMessageV::QuerierGet { id, querier_id, parameters, payload, encoding, attachment }, s))
                            ,
                            None => None,
                        }
                        ,
                        None => None,
                    }
                    ,
                    None => None,
                }
                ,
                None => None,
            }
            ,
            None => None,
        }
        ,
        None => None,
    }
}

pub open spec fn p_in_body_liveliness_get(s: Seq<u8>) -> Option<(InRemoteMessageV, Seq<u8>)> {
    match p_u32(s) {
        Some((id, s)) =>
        match p_keyexpr(s) {
            Some((keyexpr, s)) =>
            match p_u32(s) {
                Some((timeout_ms, s)) =>
                Some((InRemoteMessageV::LivelinessGet { id, keyexpr, timeout_ms }, s))
                ,
                None => None,
            }
            ,
            None => None,
        }
        ,
        None => None,
    }
}

pub open spec fn p_in_body_reply_ok(s: Seq<u8>) -> Option<(InRemoteMessageV, Seq<u8>)> {
    match p_u32(s) {
        Some((query_id, s)) =>
        match p_keyexpr(s) {
            Some((keyexpr, s)) =>
            match p_bytes(s) {
                Some((payload, s)) =>
                match p_encoding(s) {
                    Some((encoding, s)) =>
                    match p_opt_bytes(s) {
                        Some((attachment, s)) =>
                        match p_opt_timestamp(s) {
                            Some((timestamp, s)) =>
                            match p_qos(s) {
                                Some((qos, s)) =>
                                Some((InRemoteMessageV::ReplyOk { query_id, keyexpr, payload, encoding, attachment, timestamp, qos }, s))
                                ,
                                None => None,
                            }
                            ,
                            None => None,
                        }
                        ,
                        None => None,
                    }
                    ,
                    None => None,
                }
                ,
                None => None,
            }
            ,
            None => None,
        }
        ,
        None => None,
    }
}

pub open spec fn p_in_body_reply_del(s: Seq<u8>) -> Option<(InRemoteMessageV, Seq<u8>)> {
    match p_u32(s) {
        Some((query_id, s)) =>
        match p_keyexpr(s) {
            Some((keyexpr, s)) =>
            match p_opt_bytes(s) {
                Some((attachment, s)) =>
                match p_opt_timestamp(s) {
                    Some((timestamp, s)) =>
                    match p_qos(s) {
                        Some((qos, s)) =>
                        Some((InRemoteMessageV::ReplyDel { query_id, keyexpr, attachment, timestamp, qos }, s))
                        ,
                        None => None,
                    }
                    ,
                    None => None,
                }
                ,
                None => None,
            }
            ,
            None => None,
        }
        ,
        None => None,
    }
}

pub open spec fn p_in_body_reply_err(s: Seq<u8>) -> Option<(InRemoteMessageV, Seq<u8>)> {
    match p_u32(s) {
        Some((query_id, s)) =>
        match p_bytes(s) {
            Some((payload, s)) =>
            match p_encoding(s) {
                Some((encoding, s)) =>
                Some((InRemoteMessageV::ReplyErr { query_id, payload, encoding }, s))
                ,
                None => None,
            }
            ,
            None => None,
        }
        ,
        None => None,
    }
}

pub open spec fn p_in_body_query_response_final(s: Seq<u8>) -> Option<(InRemoteMessageV, Seq<u8>)> {
    match p_u32(s) {
        Some((query_id, s)) =>
        Some((InRemoteMessageV::QueryResponseFinal { query_id }, s))
        ,
        None => None,
    }
}

pub open spec fn p_in_body_ping(s: Seq<u8>) -> Option<(InRemoteMessageV, Seq<u8>)> {
    Some((InRemoteMessageV::Ping, s))
}

pub open spec fn p_in_body_publisher_declare_matching_listener(s: Seq<u8>) -> Option<(InRemoteMessageV, Seq<u8>)> {
    match p_u32(s) {
        Some((id, s)) =>
        match p_u32(s) {
            Some((publisher_id, s)) =>
            Some((InRemoteMessageV::PublisherDeclareMatchingListener { id, publisher_id }, s))
            ,
            None => None,
        }
        ,
        None => None,
    }
}

pub open spec fn p_in_body_undeclare_matching_listener(s: Seq<u8>) -> Option<(InRemoteMessageV, Seq<u8>)> {
    match p_u32(s) {
        Some((id, s)) =>
        Some((InRemoteMessageV::UndeclareMatchingListener { id }, s))
        ,
        None => None,
    }
}

pub open spec fn p_in_body_publisher_get_matching_status(s: Seq<u8>) -> Option<(InRemoteMessageV, Seq<u8>)> {
    match p_u32(s) {
        Some((publisher_id, s)) =>
        Some((InRemoteMessageV::PublisherGetMatchingStatus { publisher_id }, s))
        ,
        None => None,
    }
}

pub open spec fn p_in_body_querier_declare_matching_listener(s: Seq<u8>) -> Option<(InRemoteMessageV, Seq<u8>)> {
    match p_u32(s) {
        Some((id, s)) =>
        match p_u32(s) {
            Some((querier_id, s)) =>
            Some((InRemoteMessageV::QuerierDeclareMatchingListener { id, querier_id }, s))
            ,
            None => None,
        }
        ,
        None => None,
    }
}

pub open spec fn p_in_body_querier_get_matching_status(s: Seq<u8>) -> Option<(InRemoteMessageV, Seq<u8>)> {
    match p_u32(s) {
        Some((querier_id, s)) =>
        Some((InRemoteMessageV::QuerierGetMatchingStatus { querier_id }, s))
        ,
        None => None,
    }
}

pub open spec fn p_in_body(tag: u8, s: Seq<u8>) -> Option<(InRemoteMessageV, Seq<u8>)> {
    if tag == 0 {
        p_in_body_declare_publisher(s)
    } else if tag == 1 {
        p_in_body_undeclare_publisher(s)
    } else if tag == 2 {
        p_in_body_declare_subscriber(s)
    } else if tag == 3 {
        p_in_body_undeclare_subscriber(s)
    } else if tag == 4 {
        p_in_body_declare_queryable(s)
    } else if tag == 5 {
        p_in_body_undeclare_queryable(s)
    } else if tag == 6 {
        p_in_body_declare_querier(s)
    } else if tag == 7 {
        p_in_body_undeclare_querier(s)
    } else if tag == 8 {
        p_in_body_declare_liveliness_token(s)
    } else if tag == 9 {
        p_in_body_undeclare_liveliness_token(s)
    } else if tag == 10 {
        p_in_body_declare_liveliness_subscriber(s)
    } else if tag == 11 {
        p_in_body_undeclare_liveliness_subscriber(s)
    } else if tag == 12 {
        p_in_body_get_session_info(s)
    } else if tag == 13 {
        p_in_body_get_timestamp(s)
    } else if tag == 14 {
        p_in_body_put(s)
    } else if tag == 15 {
        p_in_body_delete(s)
    } else if tag == 16 {
        p_in_body_publisher_put(s)
    } else if tag == 17 {
        p_in_body_publisher_delete(s)
    } else if tag == 18 {
        p_in_body_get(s)
    } else if tag == 19 {
        p_in_body_querier_get(s)
    } else if tag == 20 {
        p_in_body_liveliness_get(s)
    } else if tag == 21 {
        p_in_body_reply_ok(s)
    } else if tag == 22 {
        p_in_body_reply_del(s)
    } else if tag == 23 {
        p_in_body_reply_err(s)
    } else if tag == 24 {
        p_in_body_query_response_final(s)
    } else if tag == 25 {
        p_in_body_ping(s)
    } else if tag == 26 {
        p_in_body_publisher_declare_matching_listener(s)
    } else if tag == 27 {
        p_in_body_undeclare_matching_listener(s)
    } else if tag == 28 {
        p_in_body_publisher_get_matching_status(s)
    } else if tag == 29 {
        p_in_body_querier_declare_matching_listener(s)
    } else if tag == 30 {
        p_in_body_querier_get_matching_status(s)
    } else {
        None
    }
}

pub open spec fn p_out_body_ping_ack(s: Seq<u8>) -> Option<(OutRemoteMessageV, Seq<u8>)> {
    match p_bytes(s) {
        Some((uuid, s)) =>
        Some((OutRemoteMessageV::PingAck { uuid }, s))
        ,
        None => None,
    }
}

pub open spec fn p_out_body_ack(s: Seq<u8>) -> Option<(OutRemoteMessageV, Seq<u8>)> {
    match p_u8(s) {
        Some((tag, s)) =>
        Some((OutRemoteMessageV::Ack { tag }, s))
        ,
        None => None,
    }
}

pub open spec fn p_out_body_error(s: Seq<u8>) -> Option<(OutRemoteMessageV, Seq<u8>)> {
    match p_bytes(s) {
        Some((message, s)) =>
        Some((OutRemoteMessageV::Error { message }, s))
        ,
        None => None,
    }
}

pub open spec fn p_out_body_response_timestamp(s: Seq<u8>) -> Option<(OutRemoteMessageV, Seq<u8>)> {
    match p_timestamp(s) {
        Some((timestamp, s)) =>
        Some((OutRemoteMessageV::ResponseTimestamp { timestamp }, s))
        ,
        None => None,
    }
}

pub open spec fn p_out_body_response_session_info(s: Seq<u8>) -> Option<(OutRemoteMessageV, Seq<u8>)> {
    match p_raw(s, 16) {
        Some((zid, s)) =>
        match p_zids(s) {
            Some((z_routers, s)) =>
            match p_zids(s) {
                Some((z_peers, s)) =>
                Some((OutRemoteMessageV::ResponseSessionInfo { zid, z_routers, z_peers }, s))
                ,
                None => None,
            }
            ,
            None => None,
        }
        ,
        None => None,
    }
}

pub open spec fn p_out_body_sample(s: Seq<u8>) -> Option<(OutRemoteMessageV, Seq<u8>)> {
    match p_u32(s) {
        Some((subscriber_id, s)) =>
        match p_sample(s) {
            Some((sample, s)) =>
            Some((OutRemoteMessageV::Sample { subscriber_id, sample }, s))
            ,
            None => None,
        }
        ,
        None => None,
    }
}

pub open spec fn p_out_body_query(s: Seq<u8>) -> Option<(OutRemoteMessageV, Seq<u8>)> {
    match p_u32(s) {
        Some((queryable_id, s)) =>
        match p_u32(s) {
            Some((query_id, s)) =>
            match p_query(s) {
                Some((query, s)) =>
                Some((OutRemoteMessageV::Query { queryable_id, query_id, query }, s))
                ,
                None => None,
            }
            ,
            None => None,
        }
        ,
        None => None,
    }
}

pub open spec fn p_out_body_reply(s: Seq<u8>) -> Option<(OutRemoteMessageV, Seq<u8>)> {
    match p_u32(s) {
        Some((query_id, s)) =>
        match p_reply(s) {
            Some((reply, s)) =>
            Some((OutRemoteMessageV::Reply { query_id, reply }, s))
            ,
            None => None,
        }
        ,
        None => None,
    }
}

pub open spec fn p_out_body_query_response_final(s: Seq<u8>) -> Option<(OutRemoteMessageV, Seq<u8>)> {
    match p_u32(s) {
        Some((query_id, s)) =>
        Some((OutRemoteMessageV::QueryResponseFinal { query_id }, s))
        ,
        None => None,
    }
}

pub open spec fn p_out_body_matching_status(s: Seq<u8>) -> Option<(OutRemoteMessageV, Seq<u8>)> {
    match p_bool(s) {
        Some((matching, s)) =>
        Some((OutRemoteMessageV::MatchingStatus { matching }, s))
        ,
        None => None,
    }
}

pub open spec fn p_out_body_matching_status_update(s: Seq<u8>) -> Option<(OutRemoteMessageV, Seq<u8>)> {
    match p_u32(s) {
        Some((matching_listener_id, s)) =>
        match p_bool(s) {
            Some((matching, s)) =>
            Some((OutRemoteMessageV::MatchingStatusUpdate { matching_listener_id, matching }, s))
            ,
            None => None,
        }
        ,
        None => None,
    }
}

pub open spec fn p_out_body(tag: u8, s: Seq<u8>) -> Option<(OutRemoteMessageV, Seq<u8>)> {
    if tag == 0 {
        p_out_body_ping_ack(s)
    } else if tag == 1 {
        p_out_body_ack(s)
    } else if tag == 2 {
        p_out_body_error(s)
    } else if tag == 3 {
        p_out_body_response_timestamp(s)
    } else if tag == 4 {
        p_out_body_response_session_info(s)
    } else if tag == 5 {
        p_out_body_sample(s)
    } else if tag == 6 {
        p_out_body_query(s)
    } else if tag == 7 {
        p_out_body_reply(s)
    } else if tag == 8 {
        p_out_body_query_response_final(s)
    } else if tag == 9 {
        p_out_body_matching_status(s)
    } else if tag == 10 {
        p_out_body_matching_status_update(s)
    } else {
        None
    }
}

#[verifier::rlimit(100)]
#[verifier::spinoff_prover]
proof fn lemma_in_body_declare_publisher(m: InRemoteMessageV, rest: Seq<u8>)
    requires
        m.wf(),
        m is DeclarePublisher,
    ensures
        p_in_body_declare_publisher(enc_in_body(m) + rest) == Some((m, rest)),
{
    match m {
        InRemoteMessageV::DeclarePublisher { id, keyexpr, encoding, qos } => {
    let e0 = enc_u32(id);
    let e1 = enc_bytes(keyexpr);
    let e2 = enc_encoding(encoding);
    let e3 = enc_qos(qos);
    let r3 = e3 + rest;
    let r2 = e2 + r3;
    let r1 = e1 + r2;
    seq_assoc(e0 + e1 + e2, e3, rest);
    seq_assoc(e0 + e1, e2, r3);
    seq_assoc(e0, e1, r2);
    assert(enc_in_body(m) + rest == e0 + r1);
    lemma_p_u32(id, r1);
    lemma_p_keyexpr(keyexpr, r2);
    lemma_p_encoding(encoding, r3);
    lemma_p_qos(qos, rest);
        },
        _ => {
        },
    }
}

#[verifier::rlimit(100)]
#[verifier::spinoff_prover]
proof fn lemma_in_body_undeclare_publisher(m: InRemoteMessageV, rest: Seq<u8>)
    requires
        m.wf(),
        m is UndeclarePublisher,
    ensures
        p_in_body_undeclare_publisher(enc_in_body(m) + rest) == Some((m, rest)),
{
    match m {
        InRemoteMessageV::UndeclarePublisher { id } => {
    let e0 = enc_u32(id);
    assert(enc_in_body(m) + rest == e0 + rest);
    lemma_p_u32(id, rest);
        },
        _ => {
        },
    }
}

#[verifier::rlimit(100)]
#[verifier::spinoff_prover]
proof fn lemma_in_body_declare_subscriber(m: InRemoteMessageV, rest: Seq<u8>)
    requires
        m.wf(),
        m is DeclareSubscriber,
    ensures
        p_in_body_declare_subscriber(enc_in_body(m) + rest) == Some((m, rest)),
{
    match m {
        InRemoteMessageV::DeclareSubscriber { id, keyexpr, allowed_origin } => {
    let e0 = enc_u32(id);
    let e1 = enc_bytes(keyexpr);
    let e2 = enc_locality(allowed_origin);
    let r2 = e2 + rest;
    let r1 = e1 + r2;
    seq_assoc(e0 + e1, e2, rest);
    seq_assoc(e0, e1, r2);
    assert(enc_in_body(m) + rest == e0 + r1);
    lemma_p_u32(id, r1);
    lemma_p_keyexpr(keyexpr, r2);
    lemma_p_locality(allowed_origin, rest);
        },
        _ => {
        },
    }
}

#[verifier::rlimit(100)]
#[verifier::spinoff_prover]
proof fn lemma_in_body_undeclare_subscriber(m: InRemoteMessageV, rest: Seq<u8>)
    requires
        m.wf(),
        m is UndeclareSubscriber,
    ensures
        p_in_body_undeclare_subscriber(enc_in_body(m) + rest) == Some((m, rest)),
{
    match m {
        InRemoteMessageV::UndeclareSubscriber { id } => {
    let e0 = enc_u32(id);
    assert(enc_in_body(m) + rest == e0 + rest);
    lemma_p_u32(id, rest);
        },
        _ => {
        },
    }
}

#[verifier::rlimit(100)]
#[verifier::spinoff_prover]
proof fn lemma_in_body_declare_queryable(m: InRemoteMessageV, rest: Seq<u8>)
    requires
        m.wf(),
        m is DeclareQueryable,
    ensures
        p_in_body_declare_queryable(enc_in_body(m) + rest) == Some((m, rest)),
{
    match m {
        InRemoteMessageV::DeclareQueryable { id, keyexpr, complete, allowed_origin } => {
    let e0 = enc_u32(id);
    let e1 = enc_bytes(keyexpr);
    let e2 = enc_bool(complete);
    let e3 = enc_locality(allowed_origin);
    let r3 = e3 + rest;
    let r2 = e2 + r3;
    let r1 = e1 + r2;
    seq_assoc(e0 + e1 + e2, e3, rest);
    seq_assoc(e0 + e1, e2, r3);
    seq_assoc(e0, e1, r2);
    assert(enc_in_body(m) + rest == e0 + r1);
    lemma_p_u32(id, r1);
    lemma_p_keyexpr(keyexpr, r2);
    lemma_p_bool(complete, r3);
    lemma_p_locality(allowed_origin, rest);
        },
        _ => {
        },
    }
}

#[verifier::rlimit(100)]
#[verifier::spinoff_prover]
proof fn lemma_in_body_undeclare_queryable(m: InRemoteMessageV, rest: Seq<u8>)
    requires
        m.wf(),
        m is UndeclareQueryable,
    ensures
        p_in_body_undeclare_queryable(enc_in_body(m) + rest) == Some((m, rest)),
{
    match m {
        InRemoteMessageV::UndeclareQueryable { id } => {
    let e0 = enc_u32(id);
    assert(enc_in_body(m) + rest == e0 + rest);
    lemma_p_u32(id, rest);
        },
        _ => {
        },
    }
}

#[verifier::rlimit(100)]
#[verifier::spinoff_prover]
proof fn lemma_in_body_declare_querier(m: InRemoteMessageV, rest: Seq<u8>)
    requires
        m.wf(),
        m is DeclareQuerier,
    ensures
        p_in_body_declare_querier(enc_in_body(m) + rest) == Some((m, rest)),
{
    match m {
        InRemoteMessageV::DeclareQuerier { id, keyexpr, qos, query_settings, timeout_ms } => {
    let e0 = enc_u32(id);
    let e1 = enc_bytes(keyexpr);
    let e2 = enc_qos(qos);
    let e3 = enc_qsettings(query_settings);
    let e4 = enc_u32(timeout_ms);
    let r4 = e4 + rest;
    let r3 = e3 + r4;
    let r2 = e2 + r3;
    let r1 = e1 + r2;
    seq_assoc(e0 + e1 + e2 + e3, e4, rest);
    seq_assoc(e0 + e1 + e2, e3, r4);
    seq_assoc(e0 + e1, e2, r3);
    seq_assoc(e0, e1, r2);
    assert(enc_in_body(m) + rest == e0 + r1);
    lemma_p_u32(id, r1);
    lemma_p_keyexpr(keyexpr, r2);
    lemma_p_qos(qos, r3);
    lemma_p_qsettings(query_settings, r4);
    lemma_p_u32(timeout_ms, rest);
        },
        _ => {
        },
    }
}

#[verifier::rlimit(100)]
#[verifier::spinoff_prover]
proof fn lemma_in_body_undeclare_querier(m: InRemoteMessageV, rest: Seq<u8>)
    requires
        m.wf(),
        m is UndeclareQuerier,
    ensures
        p_in_body_undeclare_querier(enc_in_body(m) + rest) == Some((m, rest)),
{
    match m {
        InRemoteMessageV::UndeclareQuerier { id } => {
    let e0 = enc_u32(id);
    assert(enc_in_body(m) + rest == e0 + rest);
    lemma_p_u32(id, rest);
        },
        _ => {
        },
    }
}

#[verifier::rlimit(100)]
#[verifier::spinoff_prover]
proof fn lemma_in_body_declare_liveliness_token(m: InRemoteMessageV, rest: Seq<u8>)
    requires
        m.wf(),
        m is DeclareLivelinessToken,
    ensures
        p_in_body_declare_liveliness_token(enc_in_body(m) + rest) == Some((m, rest)),
{
    match m {
        InRemoteMessageV::DeclareLivelinessToken { id, keyexpr } => {
    let e0 = enc_u32(id);
    let e1 = enc_bytes(keyexpr);
    let r1 = e1 + rest;
    seq_assoc(e0, e1, rest);
    assert(enc_in_body(m) + rest == e0 + r1);
    lemma_p_u32(id, r1);
    lemma_p_keyexpr(keyexpr, rest);
        },
        _ => {
        },
    }
}

#[verifier::rlimit(100)]
#[verifier::spinoff_prover]
proof fn lemma_in_body_undeclare_liveliness_token(m: InRemoteMessageV, rest: Seq<u8>)
    requires
        m.wf(),
        m is UndeclareLivelinessToken,
    ensures
        p_in_body_undeclare_liveliness_token(enc_in_body(m) + rest) == Some((m, rest)),
{
    match m {
        InRemoteMessageV::UndeclareLivelinessToken { id } => {
    let e0 = enc_u32(id);
    assert(enc_in_body(m) + rest == e0 + rest);
    lemma_p_u32(id, rest);
        },
        _ => {
        },
    }
}

#[verifier::rlimit(100)]
#[verifier::spinoff_prover]
proof fn lemma_in_body_declare_liveliness_subscriber(m: InRemoteMessageV, rest: Seq<u8>)
    requires
        m.wf(),
        m is DeclareLivelinessSubscriber,
    ensures
        p_in_body_declare_liveliness_subscriber(enc_in_body(m) + rest) == Some((m, rest)),
{
    match m {
        InRemoteMessageV::DeclareLivelinessSubscriber { id, keyexpr, history } => {
    let e0 = enc_u32(id);
    let e1 = enc_bytes(keyexpr);
    let e2 = enc_bool(history);
    let r2 = e2 + rest;
    let r1 = e1 + r2;
    seq_assoc(e0 + e1, e2, rest);
    seq_assoc(e0, e1, r2);
    assert(enc_in_body(m) + rest == e0 + r1);
    lemma_p_u32(id, r1);
    lemma_p_keyexpr(keyexpr, r2);
    lemma_p_bool(history, rest);
        },
        _ => {
        },
    }
}

#[verifier::rlimit(100)]
#[verifier::spinoff_prover]
proof fn lemma_in_body_undeclare_liveliness_subscriber(m: InRemoteMessageV, rest: Seq<u8>)
    requires
        m.wf(),
        m is UndeclareLivelinessSubscriber,
    ensures
        p_in_body_undeclare_liveliness_subscriber(enc_in_body(m) + rest) == Some((m, rest)),
{
    match m {
        InRemoteMessageV::UndeclareLivelinessSubscriber { id } => {
    let e0 = enc_u32(id);
    assert(enc_in_body(m) + rest == e0 + rest);
    lemma_p_u32(id, rest);
        },
        _ => {
        },
    }
}

#[verifier::rlimit(100)]
#[verifier::spinoff_prover]
proof fn lemma_in_body_put(m: InRemoteMessageV, rest: Seq<u8>)
    requires
        m.wf(),
        m is Put,
    ensures
        p_in_body_put(enc_in_body(m) + rest) == Some((m, rest)),
{
    match m {
        InRemoteMessageV::Put { keyexpr, payload, encoding, attachment, timestamp, qos } => {
    let e0 = enc_bytes(keyexpr);
    let e1 = enc_bytes(payload);
    let e2 = enc_encoding(encoding);
    let e3 = enc_opt_bytes(attachment);
    let e4 = enc_opt_timestamp(timestamp);
    let e5 = enc_qos(qos);
    let r5 = e5 + rest;
    let r4 = e4 + r5;
    let r3 = e3 + r4;
    let r2 = e2 + r3;
    let r1 = e1 + r2;
    seq_assoc(e0 + e1 + e2 + e3 + e4, e5, rest);
    seq_assoc(e0 + e1 + e2 + e3, e4, r5);
    seq_assoc(e0 + e1 + e2, e3, r4);
    seq_assoc(e0 + e1, e2, r3);
    seq_assoc(e0, e1, r2);
    assert(enc_in_body(m) + rest == e0 + r1);
    lemma_p_keyexpr(keyexpr, r1);
    lemma_p_bytes(payload, r2);
    lemma_p_encoding(encoding, r3);
    lemma_p_opt_bytes(attachment, r4);
    lemma_p_opt_timestamp(timestamp, r5);
    lemma_p_qos(qos, rest);
        },
        _ => {
        },
    }
}

#[verifier::rlimit(100)]
#[verifier::spinoff_prover]
proof fn lemma_in_body_delete(m: InRemoteMessageV, rest: Seq<u8>)
    requires
        m.wf(),
        m is Delete,
    ensures
        p_in_body_delete(enc_in_body(m) + rest) == Some((m, rest)),
{
    match m {
        InRemoteMessageV::Delete { keyexpr, attachment, timestamp, qos } => {
    let e0 = enc_bytes(keyexpr);
    let e1 = enc_opt_bytes(attachment);
    let e2 = enc_opt_timestamp(timestamp);
    let e3 = enc_qos(qos);
    let r3 = e3 + rest;
    let r2 = e2 + r3;
    let r1 = e1 + r2;
    seq_assoc(e0 + e1 + e2, e3, rest);
    seq_assoc(e0 + e1, e2, r3);
    seq_assoc(e0, e1, r2);
    assert(enc_in_body(m) + rest == e0 + r1);
    lemma_p_keyexpr(keyexpr, r1);
    lemma_p_opt_bytes(attachment, r2);
    lemma_p_opt_timestamp(timestamp, r3);
    lemma_p_qos(qos, rest);
        },
        _ => {
        },
    }
}

#[verifier::rlimit(100)]
#[verifier::spinoff_prover]
proof fn lemma_in_body_publisher_put(m: InRemoteMessageV, rest: Seq<u8>)
    requires
        m.wf(),
        m is PublisherPut,
    ensures
        p_in_body_publisher_put(enc_in_body(m) + rest) == Some((m, rest)),
{
    match m {
        InRemoteMessageV::PublisherPut { publisher_id, payload, encoding, attachment, timestamp } => {
    let e0 = enc_u32(publisher_id);
    let e1 = enc_bytes(payload);
    let e2 = enc_opt_encoding(encoding);
    let e3 = enc_opt_bytes(attachment);
    let e4 = enc_opt_timestamp(timestamp);
    let r4 = e4 + rest;
    let r3 = e3 + r4;
    let r2 = e2 + r3;
    let r1 = e1 + r2;
    seq_assoc(e0 + e1 + e2 + e3, e4, rest);
    seq_assoc(e0 + e1 + e2, e3, r4);
    seq_assoc(e0 + e1, e2, r3);
    seq_assoc(e0, e1, r2);
    assert(enc_in_body(m) + rest == e0 + r1);
    lemma_p_u32(publisher_id, r1);
    lemma_p_bytes(payload, r2);
    lemma_p_opt_encoding(encoding, r3);
    lemma_p_opt_bytes(attachment, r4);
    lemma_p_opt_timestamp(timestamp, rest);
        },
        _ => {
        },
    }
}

#[verifier::rlimit(100)]
#[verifier::spinoff_prover]
proof fn lemma_in_body_publisher_delete(m: InRemoteMessageV, rest: Seq<u8>)
    requires
        m.wf(),
        m is PublisherDelete,
    ensures
        p_in_body_publisher_delete(enc_in_body(m) + rest) == Some((m, rest)),
{
    match m {
        InRemoteMessageV::PublisherDelete { publisher_id, attachment, timestamp } => {
    let e0 = enc_u32(publisher_id);
    let e1 = enc_opt_bytes(attachment);
    let e2 = enc_opt_timestamp(timestamp);
    let r2 = e2 + rest;
    let r1 = e1 + r2;
    seq_assoc(e0 + e1, e2, rest);
    seq_assoc(e0, e1, r2);
    assert(enc_in_body(m) + rest == e0 + r1);
    lemma_p_u32(publisher_id, r1);
    lemma_p_opt_bytes(attachment, r2);
    lemma_p_opt_timestamp(timestamp, rest);
        },
        _ => {
        },
    }
}

#[verifier::rlimit(100)]
#[verifier::spinoff_prover]
proof fn lemma_in_body_get(m: InRemoteMessageV, rest: Seq<u8>)
    requires
        m.wf(),
        m is Get,
    ensures
        p_in_body_get(enc_in_body(m) + rest) == Some((m, rest)),
{
    match m {
        InRemoteMessageV::Get { id, keyexpr, parameters, payload, encoding, attachment, qos, query_settings, timeout_ms } => {
    let e0 = enc_u32(id);
    let e1 = enc_bytes(keyexpr);
    let e2 = enc_bytes(parameters);
    let e3 = enc_opt_bytes(payload);
    let e4 = enc_opt_encoding(encoding);
    let e5 = enc_opt_bytes(attachment);
    let e6 = enc_qos(qos);
    let e7 = enc_qsettings(query_settings);
    let e8 = enc_u32(timeout_ms);
    let r8 = e8 + rest;
    let r7 = e7 + r8;
    let r6 = e6 + r7;
    let r5 = e5 + r6;
    let r4 = e4 + r5;
    let r3 = e3 + r4;
    let r2 = e2 + r3;
    let r1 = e1 + r2;
    seq_assoc(e0 + e1 + e2 + e3 + e4 + e5 + e6 + e7, e8, rest);
    seq_assoc(e0 + e1 + e2 + e3 + e4 + e5 + e6, e7, r8);
    seq_assoc(e0 + e1 + e2 + e3 + e4 + e5, e6, r7);
    seq_assoc(e0 + e1 + e2 + e3 + e4, e5, r6);
    seq_assoc(e0 + e1 + e2 + e3, e4, r5);
    seq_assoc(e0 + e1 + e2, e3, r4);
    seq_assoc(e0 + e1, e2, r3);
    seq_assoc(e0, e1, r2);
    assert(enc_in_body(m) + rest == e0 + r1);
    lemma_p_u32(id, r1);
    lemma_p_keyexpr(keyexpr, r2);
    lemma_p_bytes(parameters, r3);
    lemma_p_opt_bytes(payload, r4);
    lemma_p_opt_encoding(encoding, r5);
    lemma_p_opt_bytes(attachment, r6);
    lemma_p_qos(qos, r7);
    lemma_p_qsettings(query_settings, r8);
    lemma_p_u32(timeout_ms, rest);
        },
        _ => {
        },
    }
}

#[verifier::rlimit(100)]
#[verifier::spinoff_prover]
proof fn lemma_in_body_querier_get(m: InRemoteMessageV, rest: Seq<u8>)
    requires
        m.wf(),
        m is QuerierGet,
    ensures
        p_in_body_querier_get(enc_in_body(m) + rest) == Some((m, rest)),
{
    match m {
        InRemoteMessageV::QuerierGet { id, querier_id, parameters, payload, encoding, attachment } => {
    let e0 = enc_u32(id);
    let e1 = enc_u32(querier_id);
    let e2 = enc_bytes(parameters);
    let e3 = enc_opt_bytes(payload);
    let e4 = enc_opt_encoding(encoding);
    let e5 = enc_opt_bytes(attachment);
    let r5 = e5 + rest;
    let r4 = e4 + r5;
    let r3 = e3 + r4;
    let r2 = e2 + r3;
    let r1 = e1 + r2;
    seq_assoc(e0 + e1 + e2 + e3 + e4, e5, rest);
    seq_assoc(e0 + e1 + e2 + e3, e4, r5);
    seq_assoc(e0 + e1 + e2, e3, r4);
    seq_assoc(e0 + e1, e2, r3);
    seq_assoc(e0, e1, r2);
    assert(enc_in_body(m) + rest == e0 + r1);
    lemma_p_u32(id, r1);
    lemma_p_u32(querier_id, r2);
    lemma_p_bytes(parameters, r3);
    lemma_p_opt_bytes(payload, r4);
    lemma_p_opt_encoding(encoding, r5);
    lemma_p_opt_bytes(attachment, rest);
        },
        _ => {
        },
    }
}

#[verifier::rlimit(100)]
#[verifier::spinoff_prover]
proof fn lemma_in_body_liveliness_get(m: InRemoteMessageV, rest: Seq<u8>)
    requires
        m.wf(),
        m is LivelinessGet,
    ensures
        p_in_body_liveliness_get(enc_in_body(m) + rest) == Some((m, rest)),
{
    match m {
        InRemoteMessageV::LivelinessGet { id, keyexpr, timeout_ms } => {
    let e0 = enc_u32(id);
    let e1 = enc_bytes(keyexpr);
    let e2 = enc_u32(timeout_ms);
    let r2 = e2 + rest;
    let r1 = e1 + r2;
    seq_assoc(e0 + e1, e2, rest);
    seq_assoc(e0, e1, r2);
    assert(enc_in_body(m) + rest == e0 + r1);
    lemma_p_u32(id, r1);
    lemma_p_keyexpr(keyexpr, r2);
    lemma_p_u32(timeout_ms, rest);
        },
        _ => {
        },
    }
}

#[verifier::rlimit(100)]
#[verifier::spinoff_prover]
proof fn lemma_in_body_reply_ok(m: InRemoteMessageV, rest: Seq<u8>)
    requires
        m.wf(),
        m is ReplyOk,
    ensures
        p_in_body_reply_ok(enc_in_body(m) + rest) == Some((m, rest)),
{
    match m {
        InRemoteMessageV::ReplyOk { query_id, keyexpr, payload, encoding, attachment, timestamp, qos } => {
    let e0 = enc_u32(query_id);
    let e1 = enc_bytes(keyexpr);
    let e2 = enc_bytes(payload);
    let e3 = enc_encoding(encoding);
    let e4 = enc_opt_bytes(attachment);
    let e5 = enc_opt_timestamp(timestamp);
    let e6 = enc_qos(qos);
    let r6 = e6 + rest;
    let r5 = e5 + r6;
    let r4 = e4 + r5;
    let r3 = e3 + r4;
    let r2 = e2 + r3;
    let r1 = e1 + r2;
    seq_assoc(e0 + e1 + e2 + e3 + e4 + e5, e6, rest);
    seq_assoc(e0 + e1 + e2 + e3 + e4, e5, r6);
    seq_assoc(e0 + e1 + e2 + e3, e4, r5);
    seq_assoc(e0 + e1 + e2, e3, r4);
    seq_assoc(e0 + e1, e2, r3);
    seq_assoc(e0, e1, r2);
    assert(enc_in_body(m) + rest == e0 + r1);
    lemma_p_u32(query_id, r1);
    lemma_p_keyexpr(keyexpr, r2);
    lemma_p_bytes(payload, r3);
    lemma_p_encoding(encoding, r4);
    lemma_p_opt_bytes(attachment, r5);
    lemma_p_opt_timestamp(timestamp, r6);
    lemma_p_qos(qos, rest);
        },
        _ => {
        },
    }
}

#[verifier::rlimit(100)]
#[verifier::spinoff_prover]
proof fn lemma_in_body_reply_del(m: InRemoteMessageV, rest: Seq<u8>)
    requires
        m.wf(),
        m is ReplyDel,
    ensures
        p_in_body_reply_del(enc_in_body(m) + rest) == Some((m, rest)),
{
    match m {
        InRemoteMessageV::ReplyDel { query_id, keyexpr, attachment, timestamp, qos } => {
    let e0 = enc_u32(query_id);
    let e1 = enc_bytes(keyexpr);
    let e2 = enc_opt_bytes(attachment);
    let e3 = enc_opt_timestamp(timestamp);
    let e4 = enc_qos(qos);
    let r4 = e4 + rest;
    let r3 = e3 + r4;
    let r2 = e2 + r3;
    let r1 = e1 + r2;
    seq_assoc(e0 + e1 + e2 + e3, e4, rest);
    seq_assoc(e0 + e1 + e2, e3, r4);
    seq_assoc(e0 + e1, e2, r3);
    seq_assoc(e0, e1, r2);
    assert(enc_in_body(m) + rest == e0 + r1);
    lemma_p_u32(query_id, r1);
    lemma_p_keyexpr(keyexpr, r2);
    lemma_p_opt_bytes(attachment, r3);
    lemma_p_opt_timestamp(timestamp, r4);
    lemma_p_qos(qos, rest);
        },
        _ => {
        },
    }
}

#[verifier::rlimit(100)]
#[verifier::spinoff_prover]
proof fn lemma_in_body_reply_err(m: InRemoteMessageV, rest: Seq<u8>)
    requires
        m.wf(),
        m is ReplyErr,
    ensures
        p_in_body_reply_err(enc_in_body(m) + rest) == Some((m, rest)),
{
    match m {
        InRemoteMessageV::ReplyErr { query_id, payload, encoding } => {
    let e0 = enc_u32(query_id);
    let e1 = enc_bytes(payload);
    let e2 = enc_encoding(encoding);
    let r2 = e2 + rest;
    let r1 = e1 + r2;
    seq_assoc(e0 + e1, e2, rest);
    seq_assoc(e0, e1, r2);
    assert(enc_in_body(m) + rest == e0 + r1);
    lemma_p_u32(query_id, r1);
    lemma_p_bytes(payload, r2);
    lemma_p_encoding(encoding, rest);
        },
        _ => {
        },
    }
}

#[verifier::rlimit(100)]
#[verifier::spinoff_prover]
proof fn lemma_in_body_query_response_final(m: InRemoteMessageV, rest: Seq<u8>)
    requires
        m.wf(),
        m is QueryResponseFinal,
    ensures
        p_in_body_query_response_final(enc_in_body(m) + rest) == Some((m, rest)),
{
    match m {
        InRemoteMessageV::QueryResponseFinal { query_id } => {
    let e0 = enc_u32(query_id);
    assert(enc_in_body(m) + rest == e0 + rest);
    lemma_p_u32(query_id, rest);
        },
        _ => {
        },
    }
}

#[verifier::rlimit(100)]
#[verifier::spinoff_prover]
proof fn lemma_in_body_publisher_declare_matching_listener(m: InRemoteMessageV, rest: Seq<u8>)
    requires
        m.wf(),
        m is PublisherDeclareMatchingListener,
    ensures
        p_in_body_publisher_declare_matching_listener(enc_in_body(m) + rest) == Some((m, rest)),
{
    match m {
        InRemoteMessageV::PublisherDeclareMatchingListener { id, publisher_id } => {
    let e0 = enc_u32(id);
    let e1 = enc_u32(publisher_id);
    let r1 = e1 + rest;
    seq_assoc(e0, e1, rest);
    assert(enc_in_body(m) + rest == e0 + r1);
    lemma_p_u32(id, r1);
    lemma_p_u32(publisher_id, rest);
        },
        _ => {
        },
    }
}

#[verifier::rlimit(100)]
#[verifier::spinoff_prover]
proof fn lemma_in_body_undeclare_matching_listener(m: InRemoteMessageV, rest: Seq<u8>)
    requires
        m.wf(),
        m is UndeclareMatchingListener,
    ensures
        p_in_body_undeclare_matching_listener(enc_in_body(m) + rest) == Some((m, rest)),
{
    match m {
        InRemoteMessageV::UndeclareMatchingListener { id } => {
    let e0 = enc_u32(id);
    assert(enc_in_body(m) + rest == e0 + rest);
    lemma_p_u32(id, rest);
        },
        _ => {
        },
    }
}

#[verifier::rlimit(100)]
#[verifier::spinoff_prover]
proof fn lemma_in_body_publisher_get_matching_status(m: InRemoteMessageV, rest: Seq<u8>)
    requires
        m.wf(),
        m is PublisherGetMatchingStatus,
    ensures
        p_in_body_publisher_get_matching_status(enc_in_body(m) + rest) == Some((m, rest)),
{
    match m {
        InRemoteMessageV::PublisherGetMatchingStatus { publisher_id } => {
    let e0 = enc_u32(publisher_id);
    assert(enc_in_body(m) + rest == e0 + rest);
    lemma_p_u32(publisher_id, rest);
        },
        _ => {
        },
    }
}

#[verifier::rlimit(100)]
#[verifier::spinoff_prover]
proof fn lemma_in_body_querier_declare_matching_listener(m: InRemoteMessageV, rest: Seq<u8>)
    requires
        m.wf(),
        m is QuerierDeclareMatchingListener,
    ensures
        p_in_body_querier_declare_matching_listener(enc_in_body(m) + rest) == Some((m, rest)),
{
    match m {
        InRemoteMessageV::QuerierDeclareMatchingListener { id, querier_id } => {
    let e0 = enc_u32(id);
    let e1 = enc_u32(querier_id);
    let r1 = e1 + rest;
    seq_assoc(e0, e1, rest);
    assert(enc_in_body(m) + rest == e0 + r1);
    lemma_p_u32(id, r1);
    lemma_p_u32(querier_id, rest);
        },
        _ => {
        },
    }
}

#[verifier::rlimit(100)]
#[verifier::spinoff_prover]
proof fn lemma_in_body_querier_get_matching_status(m: InRemoteMessageV, rest: Seq<u8>)
    requires
        m.wf(),
        m is QuerierGetMatchingStatus,
    ensures
        p_in_body_querier_get_matching_status(enc_in_body(m) + rest) == Some((m, rest)),
{
    match m {
        InRemoteMessageV::QuerierGetMatchingStatus { querier_id } => {
    let e0 = enc_u32(querier_id);
    assert(enc_in_body(m) + rest == e0 + rest);
    lemma_p_u32(querier_id, rest);
        },
        _ => {
        },
    }
}

/// The body parser undoes the body encoder on every well-formed
/// message, whatever bytes follow.
pub proof fn lemma_in_body_roundtrip(m: InRemoteMessageV, rest: Seq<u8>)
    requires
        m.wf(),
    ensures
        p_in_body(spec_in_tag(m), enc_in_body(m) + rest) == Some((m, rest)),
{
    match m {
        InRemoteMessageV::DeclarePublisher { .. } => {
            lemma_in_body_declare_publisher(m, rest);
        },
        InRemoteMessageV::UndeclarePublisher { .. } => {
            lemma_in_body_undeclare_publisher(m, rest);
        },
        InRemoteMessageV::DeclareSubscriber { .. } => {
            lemma_in_body_declare_subscriber(m, rest);
        },
        InRemoteMessageV::UndeclareSubscriber { .. } => {
            lemma_in_body_undeclare_subscriber(m, rest);
        },
        InRemoteMessageV::DeclareQueryable { .. } => {
            lemma_in_body_declare_queryable(m, rest);
        },
        InRemoteMessageV::UndeclareQueryable { .. } => {
            lemma_in_body_undeclare_queryable(m, rest);
        },
        InRemoteMessageV::DeclareQuerier { .. } => {
            lemma_in_body_declare_querier(m, rest);
        },
        InRemoteMessageV::UndeclareQuerier { .. } => {
            lemma_in_body_undeclare_querier(m, rest);
        },
        InRemoteMessageV::DeclareLivelinessToken { .. } => {
            lemma_in_body_declare_liveliness_token(m, rest);
        },
        InRemoteMessageV::UndeclareLivelinessToken { .. } => {
            lemma_in_body_undeclare_liveliness_token(m, rest);
        },
        InRemoteMessageV::DeclareLivelinessSubscriber { .. } => {
            lemma_in_body_declare_liveliness_subscriber(m, rest);
        },
        InRemoteMessageV::UndeclareLivelinessSubscriber { .. } => {
            lemma_in_body_undeclare_liveliness_subscriber(m, rest);
        },
        InRemoteMessageV::GetSessionInfo => {
            assert(enc_in_body(m) + rest =~= rest);
        },
        InRemoteMessageV::GetTimestamp => {
            assert(enc_in_body(m) + rest =~= rest);
        },
        InRemoteMessageV::Put { .. } => {
            lemma_in_body_put(m, rest);
        },
        InRemoteMessageV::Delete { .. } => {
            lemma_in_body_delete(m, rest);
        },
        InRemoteMessageV::PublisherPut { .. } => {
            lemma_in_body_publisher_put(m, rest);
        },
        InRemoteMessageV::PublisherDelete { .. } => {
            lemma_in_body_publisher_delete(m, rest);
        },
        InRemoteMessageV::Get { .. } => {
            lemma_in_body_get(m, rest);
        },
        InRemoteMessageV::QuerierGet { .. } => {
            lemma_in_body_querier_get(m, rest);
        },
        InRemoteMessageV::LivelinessGet { .. } => {
            lemma_in_body_liveliness_get(m, rest);
        },
        InRemoteMessageV::ReplyOk { .. } => {
            lemma_in_body_reply_ok(m, rest);
        },
        InRemoteMessageV::ReplyDel { .. } => {
            lemma_in_body_reply_del(m, rest);
        },
        InRemoteMessageV::ReplyErr { .. } => {
            lemma_in_body_reply_err(m, rest);
        },
        InRemoteMessageV::QueryResponseFinal { .. } => {
            lemma_in_body_query_response_final(m, rest);
        },
        InRemoteMessageV::Ping => {
            assert(enc_in_body(m) + rest =~= rest);
        },
        InRemoteMessageV::PublisherDeclareMatchingListener { .. } => {
            lemma_in_body_publisher_declare_matching_listener(m, rest);
        },
        InRemoteMessageV::UndeclareMatchingListener { .. } => {
            lemma_in_body_undeclare_matching_listener(m, rest);
        },
        InRemoteMessageV::PublisherGetMatchingStatus { .. } => {
            lemma_in_body_publisher_get_matching_status(m, rest);
        },
        InRemoteMessageV::QuerierDeclareMatchingListener { .. } => {
            lemma_in_body_querier_declare_matching_listener(m, rest);
        },
        InRemoteMessageV::QuerierGetMatchingStatus { .. } => {
            lemma_in_body_querier_get_matching_status(m, rest);
        },
    }
}

#[verifier::rlimit(100)]
#[verifier::spinoff_prover]
proof fn lemma_out_body_ping_ack(m: OutRemoteMessageV, rest: Seq<u8>)
    requires
        m.wf(),
        m is PingAck,
    ensures
        p_out_body_ping_ack(enc_out_body(m) + rest) == Some((m, rest)),
{
    match m {
        OutRemoteMessageV::PingAck { uuid } => {
    let e0 = enc_bytes(uuid);
    assert(enc_out_body(m) + rest == e0 + rest);
    lemma_p_bytes(uuid, rest);
        },
        _ => {
        },
    }
}

#[verifier::rlimit(100)]
#[verifier::spinoff_prover]
proof fn lemma_out_body_ack(m: OutRemoteMessageV, rest: Seq<u8>)
    requires
        m.wf(),
        m is Ack,
    ensures
        p_out_body_ack(enc_out_body(m) + rest) == Some((m, rest)),
{
    match m {
        OutRemoteMessageV::Ack { tag } => {
    let e0 = enc_u8(tag);
    assert(enc_out_body(m) + rest == e0 + rest);
    lemma_p_u8(tag, rest);
        },
        _ => {
        },
    }
}

#[verifier::rlimit(100)]
#[verifier::spinoff_prover]
proof fn lemma_out_body_error(m: OutRemoteMessageV, rest: Seq<u8>)
    requires
        m.wf(),
        m is Error,
    ensures
        p_out_body_error(enc_out_body(m) + rest) == Some((m, rest)),
{
    match m {
        OutRemoteMessageV::Error { message } => {
    let e0 = enc_bytes(message);
    assert(enc_out_body(m) + rest == e0 + rest);
    lemma_p_bytes(message, rest);
        },
        _ => {
        },
    }
}

#[verifier::rlimit(100)]
#[verifier::spinoff_prover]
proof fn lemma_out_body_response_timestamp(m: OutRemoteMessageV, rest: Seq<u8>)
    requires
        m.wf(),
        m is ResponseTimestamp,
    ensures
        p_out_body_response_timestamp(enc_out_body(m) + rest) == Some((m, rest)),
{
    match m {
        OutRemoteMessageV::ResponseTimestamp { timestamp } => {
    let e0 = enc_timestamp(timestamp);
    assert(enc_out_body(m) + rest == e0 + rest);
    lemma_p_timestamp(timestamp, rest);
        },
        _ => {
        },
    }
}

#[verifier::rlimit(100)]
#[verifier::spinoff_prover]
proof fn lemma_out_body_response_session_info(m: OutRemoteMessageV, rest: Seq<u8>)
    requires
        m.wf(),
        m is ResponseSessionInfo,
    ensures
        p_out_body_response_session_info(enc_out_body(m) + rest) == Some((m, rest)),
{
    match m {
        OutRemoteMessageV::ResponseSessionInfo { zid, z_routers, z_peers } => {
    let e0 = zid;
    let e1 = enc_zids(z_routers);
    let e2 = enc_zids(z_peers);
    let r2 = e2 + rest;
    let r1 = e1 + r2;
    seq_assoc(e0 + e1, e2, rest);
    seq_assoc(e0, e1, r2);
    assert(enc_out_body(m) + rest == e0 + r1);
    lemma_p_raw(zid, r1);
    lemma_p_zids(z_routers, r2);
    lemma_p_zids(z_peers, rest);
        },
        _ => {
        },
    }
}

#[verifier::rlimit(100)]
#[verifier::spinoff_prover]
proof fn lemma_out_body_sample(m: OutRemoteMessageV, rest: Seq<u8>)
    requires
        m.wf(),
        m is Sample,
    ensures
        p_out_body_sample(enc_out_body(m) + rest) == Some((m, rest)),
{
    match m {
        OutRemoteMessageV::Sample { subscriber_id, sample } => {
    let e0 = enc_u32(subscriber_id);
    let e1 = enc_sample(sample);
    let r1 = e1 + rest;
    seq_assoc(e0, e1, rest);
    assert(enc_out_body(m) + rest == e0 + r1);
    lemma_p_u32(subscriber_id, r1);
    lemma_p_sample(sample, rest);
        },
        _ => {
        },
    }
}

#[verifier::rlimit(100)]
#[verifier::spinoff_prover]
proof fn lemma_out_body_query(m: OutRemoteMessageV, rest: Seq<u8>)
    requires
        m.wf(),
        m is Query,
    ensures
        p_out_body_query(enc_out_body(m) + rest) == Some((m, rest)),
{
    match m {
        OutRemoteMessageV::Query { queryable_id, query_id, query } => {
    let e0 = enc_u32(queryable_id);
    let e1 = enc_u32(query_id);
    let e2 = enc_query(query);
    let r2 = e2 + rest;
    let r1 = e1 + r2;
    seq_assoc(e0 + e1, e2, rest);
    seq_assoc(e0, e1, r2);
    assert(enc_out_body(m) + rest == e0 + r1);
    lemma_p_u32(queryable_id, r1);
    lemma_p_u32(query_id, r2);
    lemma_p_query(query, rest);
        },
        _ => {
        },
    }
}

#[verifier::rlimit(100)]
#[verifier::spinoff_prover]
proof fn lemma_out_body_reply(m: OutRemoteMessageV, rest: Seq<u8>)
    requires
        m.wf(),
        m is Reply,
    ensures
        p_out_body_reply(enc_out_body(m) + rest) == Some((m, rest)),
{
    match m {
        OutRemoteMessageV::Reply { query_id, reply } => {
    let e0 = enc_u32(query_id);
    let e1 = enc_reply(reply);
    let r1 = e1 + rest;
    seq_assoc(e0, e1, rest);
    assert(enc_out_body(m) + rest == e0 + r1);
    lemma_p_u32(query_id, r1);
    lemma_p_reply(reply, rest);
        },
        _ => {
        },
    }
}

#[verifier::rlimit(100)]
#[verifier::spinoff_prover]
proof fn lemma_out_body_query_response_final(m: OutRemoteMessageV, rest: Seq<u8>)
    requires
        m.wf(),
        m is QueryResponseFinal,
    ensures
        p_out_body_query_response_final(enc_out_body(m) + rest) == Some((m, rest)),
{
    match m {
        OutRemoteMessageV::QueryResponseFinal { query_id } => {
    let e0 = enc_u32(query_id);
    assert(enc_out_body(m) + rest == e0 + rest);
    lemma_p_u32(query_id, rest);
        },
        _ => {
        },
    }
}

#[verifier::rlimit(100)]
#[verifier::spinoff_prover]
proof fn lemma_out_body_matching_status(m: OutRemoteMessageV, rest: Seq<u8>)
    requires
        m.wf(),
        m is MatchingStatus,
    ensures
        p_out_body_matching_status(enc_out_body(m) + rest) == Some((m, rest)),
{
    match m {
        OutRemoteMessageV::MatchingStatus { matching } => {
    let e0 = enc_bool(matching);
    assert(enc_out_body(m) + rest == e0 + rest);
    lemma_p_bool(matching, rest);
        },
        _ => {
        },
    }
}

#[verifier::rlimit(100)]
#[verifier::spinoff_prover]
proof fn lemma_out_body_matching_status_update(m: OutRemoteMessageV, rest: Seq<u8>)
    requires
        m.wf(),
        m is MatchingStatusUpdate,
    ensures
        p_out_body_matching_status_update(enc_out_body(m) + rest) == Some((m, rest)),
{
    match m {
        OutRemoteMessageV::MatchingStatusUpdate { matching_listener_id, matching } => {
    let e0 = enc_u32(matching_listener_id);
    let e1 = enc_bool(matching);
    let r1 = e1 + rest;
    seq_assoc(e0, e1, rest);
    assert(enc_out_body(m) + rest == e0 + r1);
    lemma_p_u32(matching_listener_id, r1);
    lemma_p_bool(matching, rest);
        },
        _ => {
        },
    }
}

/// The body parser undoes the body encoder on every well-formed
/// message, whatever bytes follow.
pub proof fn lemma_out_body_roundtrip(m: OutRemoteMessageV, rest: Seq<u8>)
    requires
        m.wf(),
    ensures
        p_out_body(spec_out_tag(m), enc_out_body(m) + rest) == Some((m, rest)),
{
    match m {
        OutRemoteMessageV::PingAck { .. } => {
            lemma_out_body_ping_ack(m, rest);
        },
        OutRemoteMessageV::Ack { .. } => {
            lemma_out_body_ack(m, rest);
        },
        OutRemoteMessageV::Error { .. } => {
            lemma_out_body_error(m, rest);
        },
        OutRemoteMessageV::ResponseTimestamp { .. } => {
            lemma_out_body_response_timestamp(m, rest);
        },
        OutRemoteMessageV::ResponseSessionInfo { .. } => {
            lemma_out_body_response_session_info(m, rest);
        },
        OutRemoteMessageV::Sample { .. } => {
            lemma_out_body_sample(m, rest);
        },
        OutRemoteMessageV::Query { .. } => {
            lemma_out_body_query(m, rest);
        },
        OutRemoteMessageV::Reply { .. } => {
            lemma_out_body_reply(m, rest);
        },
        OutRemoteMessageV::QueryResponseFinal { .. } => {
            lemma_out_body_query_response_final(m, rest);
        },
        OutRemoteMessageV::MatchingStatus { .. } => {
            lemma_out_body_matching_status(m, rest);
        },
        OutRemoteMessageV::MatchingStatusUpdate { .. } => {
            lemma_out_body_matching_status_update(m, rest);
        },
    }
}

pub(crate) fn write_in_body(m: &InRemoteMessage, w: &mut Writer)
    ensures
        final(w).buf@ == old(w).buf@ + enc_in_body(m@),
{
    match m {
        InRemoteMessage::DeclarePublisher { id, keyexpr, encoding, qos } => {
            w.put_u32(*id);
            w.put_bytes(keyexpr.as_slice());
            put_encoding(w, encoding);
            w.put_u8(qos.to_byte());
            proof {
                seq_assoc(old(w).buf@, enc_u32(*id), enc_bytes(keyexpr@));
                seq_assoc(old(w).buf@, enc_u32(*id) + enc_bytes(keyexpr@), enc_encoding(encoding@));
                seq_assoc(old(w).buf@, enc_u32(*id) + enc_bytes(keyexpr@) + enc_encoding(encoding@), enc_qos(*qos));
            }
            assert(w.buf@ == old(w).buf@ + enc_in_body(m@));
        },
        InRemoteMessage::UndeclarePublisher { id } => {
            w.put_u32(*id);
            assert(w.buf@ == old(w).buf@ + enc_in_body(m@));
        },
        InRemoteMessage::DeclareSubscriber { id, keyexpr, allowed_origin } => {
            w.put_u32(*id);
            w.put_bytes(keyexpr.as_slice());
            put_locality(w, allowed_origin);
            proof {
                seq_assoc(old(w).buf@, enc_u32(*id), enc_bytes(keyexpr@));
                seq_assoc(old(w).buf@, enc_u32(*id) + enc_bytes(keyexpr@), enc_locality(*allowed_origin));
            }
            assert(w.buf@ == old(w).buf@ + enc_in_body(m@));
        },
        InRemoteMessage::UndeclareSubscriber { id } => {
            w.put_u32(*id);
            assert(w.buf@ == old(w).buf@ + enc_in_body(m@));
        },
        InRemoteMessage::DeclareQueryable { id, keyexpr, complete, allowed_origin } => {
            w.put_u32(*id);
            w.put_bytes(keyexpr.as_slice());
            w.put_bool(*complete);
            put_locality(w, allowed_origin);
            proof {
                seq_assoc(old(w).buf@, enc_u32(*id), enc_bytes(keyexpr@));
                seq_assoc(old(w).buf@, enc_u32(*id) + enc_bytes(keyexpr@), enc_bool(*complete));
                seq_assoc(old(w).buf@, enc_u32(*id) + enc_bytes(keyexpr@) + enc_bool(*complete), enc_locality(*allowed_origin));
            }
            assert(w.buf@ == old(w).buf@ + enc_in_body(m@));
        },
        InRemoteMessage::UndeclareQueryable { id } => {
            w.put_u32(*id);
            assert(w.buf@ == old(w).buf@ + enc_in_body(m@));
        },
        InRemoteMessage::DeclareQuerier { id, keyexpr, qos, query_settings, timeout_ms } => {
            w.put_u32(*id);
            w.put_bytes(keyexpr.as_slice());
            w.put_u8(qos.to_byte());
            w.put_u8(query_settings.to_byte());
            w.put_u32(*timeout_ms);
            proof {
                seq_assoc(old(w).buf@, enc_u32(*id), enc_bytes(keyexpr@));
                seq_assoc(old(w).buf@, enc_u32(*id) + enc_bytes(keyexpr@), enc_qos(*qos));
                seq_assoc(old(w).buf@, enc_u32(*id) + enc_bytes(keyexpr@) + enc_qos(*qos), enc_qsettings(*query_settings));
                seq_assoc(old(w).buf@, enc_u32(*id) + enc_bytes(keyexpr@) + enc_qos(*qos) + enc_qsettings(*query_settings), enc_u32(*timeout_ms));
            }
            assert(w.buf@ == old(w).buf@ + enc_in_body(m@));
        },
        InRemoteMessage::UndeclareQuerier { id } => {
            w.put_u32(*id);
            assert(w.buf@ == old(w).buf@ + enc_in_body(m@));
        },
        InRemoteMessage::DeclareLivelinessToken { id, keyexpr } => {
            w.put_u32(*id);
            w.put_bytes(keyexpr.as_slice());
            proof {
                seq_assoc(old(w).buf@, enc_u32(*id), enc_bytes(keyexpr@));
            }
            assert(w.buf@ == old(w).buf@ + enc_in_body(m@));
        },
        InRemoteMessage::UndeclareLivelinessToken { id } => {
            w.put_u32(*id);
            assert(w.buf@ == old(w).buf@ + enc_in_body(m@));
        },
        InRemoteMessage::DeclareLivelinessSubscriber { id, keyexpr, history } => {
            w.put_u32(*id);
            w.put_bytes(keyexpr.as_slice());
            w.put_bool(*history);
            proof {
                seq_assoc(old(w).buf@, enc_u32(*id), enc_bytes(keyexpr@));
                seq_assoc(old(w).buf@, enc_u32(*id) + enc_bytes(keyexpr@), enc_bool(*history));
            }
            assert(w.buf@ == old(w).buf@ + enc_in_body(m@));
        },
        InRemoteMessage::UndeclareLivelinessSubscriber { id } => {
            w.put_u32(*id);
            assert(w.buf@ == old(w).buf@ + enc_in_body(m@));
        },
        InRemoteMessage::GetSessionInfo => {
            assert(w.buf@ =~= old(w).buf@ + enc_in_body(m@));
        },
        InRemoteMessage::GetTimestamp => {
            assert(w.buf@ =~= old(w).buf@ + enc_in_body(m@));
        },
        InRemoteMessage::Put { keyexpr, payload, encoding, attachment, timestamp, qos } => {
            w.put_bytes(keyexpr.as_slice());
            w.put_bytes(payload.as_slice());
            put_encoding(w, encoding);
            w.put_opt_bytes(attachment);
            put_opt_timestamp(w, timestamp);
            w.put_u8(qos.to_byte());
            proof {
                seq_assoc(old(w).buf@, enc_bytes(keyexpr@), enc_bytes(payload@));
                seq_assoc(old(w).buf@, enc_bytes(keyexpr@) + enc_bytes(payload@), enc_encoding(encoding@));
                seq_assoc(old(w).buf@, enc_bytes(keyexpr@) + enc_bytes(payload@) + enc_encoding(encoding@), enc_opt_bytes(opt_bytes_view(*attachment)));
                seq_assoc(old(w).buf@, enc_bytes(keyexpr@) + enc_bytes(payload@) + enc_encoding(encoding@) + enc_opt_bytes(opt_bytes_view(*attachment)), enc_opt_timestamp(opt_ts_view(*timestamp)));
                seq_assoc(old(w).buf@, enc_bytes(keyexpr@) + enc_bytes(payload@) + enc_encoding(encoding@) + enc_opt_bytes(opt_bytes_view(*attachment)) + enc_opt_timestamp(opt_ts_view(*timestamp)), enc_qos(*qos));
            }
            assert(w.buf@ == old(w).buf@ + enc_in_body(m@));
        },
        InRemoteMessage::Delete { keyexpr, attachment, timestamp, qos } => {
            w.put_bytes(keyexpr.as_slice());
            w.put_opt_bytes(attachment);
            put_opt_timestamp(w, timestamp);
            w.put_u8(qos.to_byte());
            proof {
                seq_assoc(old(w).buf@, enc_bytes(keyexpr@), enc_opt_bytes(opt_bytes_view(*attachment)));
                seq_assoc(old(w).buf@, enc_bytes(keyexpr@) + enc_opt_bytes(opt_bytes_view(*attachment)), enc_opt_timestamp(opt_ts_view(*timestamp)));
                seq_assoc(old(w).buf@, enc_bytes(keyexpr@) + enc_opt_bytes(opt_bytes_view(*attachment)) + enc_opt_timestamp(opt_ts_view(*timestamp)), enc_qos(*qos));
            }
            assert(w.buf@ == old(w).buf@ + enc_in_body(m@));
        },
        InRemoteMessage::PublisherPut { publisher_id, payload, encoding, attachment, timestamp } => {
            w.put_u32(*publisher_id);
            w.put_bytes(payload.as_slice());
            put_opt_encoding(w, encoding);
            w.put_opt_bytes(attachment);
            put_opt_timestamp(w, timestamp);
            proof {
                seq_assoc(old(w).buf@, enc_u32(*publisher_id), enc_bytes(payload@));
                seq_assoc(old(w).buf@, enc_u32(*publisher_id) + enc_bytes(payload@), enc_opt_encoding(opt_enc_view(*encoding)));
                seq_assoc(old(w).buf@, enc_u32(*publisher_id) + enc_bytes(payload@) + enc_opt_encoding(opt_enc_view(*encoding)), enc_opt_bytes(opt_bytes_view(*attachment)));
                seq_assoc(old(w).buf@, enc_u32(*publisher_id) + enc_bytes(payload@) + enc_opt_encoding(opt_enc_view(*encoding)) + enc_opt_bytes(opt_bytes_view(*attachment)), enc_opt_timestamp(opt_ts_view(*timestamp)));
            }
            assert(w.buf@ == old(w).buf@ + enc_in_body(m@));
        },
        InRemoteMessage::PublisherDelete { publisher_id, attachment, timestamp } => {
            w.put_u32(*publisher_id);
            w.put_opt_bytes(attachment);
            put_opt_timestamp(w, timestamp);
            proof {
                seq_assoc(old(w).buf@, enc_u32(*publisher_id), enc_opt_bytes(opt_bytes_view(*attachment)));
                seq_assoc(old(w).buf@, enc_u32(*publisher_id) + enc_opt_bytes(opt_bytes_view(*attachment)), enc_opt_timestamp(opt_ts_view(*timestamp)));
            }
            assert(w.buf@ == old(w).buf@ + enc_in_body(m@));
        },
        InRemoteMessage::Get { id, keyexpr, parameters, payload, encoding, attachment, qos, query_settings, timeout_ms } => {
            w.put_u32(*id);
            w.put_bytes(keyexpr.as_slice());
            w.put_bytes(parameters.as_slice());
            w.put_opt_bytes(payload);
            put_opt_encoding(w, encoding);
            w.put_opt_bytes(attachment);
            w.put_u8(qos.to_byte());
            w.put_u8(query_settings.to_byte());
            w.put_u32(*timeout_ms);
            proof {
                seq_assoc(old(w).buf@, enc_u32(*id), enc_bytes(keyexpr@));
                seq_assoc(old(w).buf@, enc_u32(*id) + enc_bytes(keyexpr@), enc_bytes(parameters@));
                seq_assoc(old(w).buf@, enc_u32(*id) + enc_bytes(keyexpr@) + enc_bytes(parameters@), enc_opt_bytes(opt_bytes_view(*payload)));
                seq_assoc(old(w).buf@, enc_u32(*id) + enc_bytes(keyexpr@) + enc_bytes(parameters@) + enc_opt_bytes(opt_bytes_view(*payload)), enc_opt_encoding(opt_enc_view(*encoding)));
                seq_assoc(old(w).buf@, enc_u32(*id) + enc_bytes(keyexpr@) + enc_bytes(parameters@) + enc_opt_bytes(opt_bytes_view(*payload)) + enc_opt_encoding(opt_enc_view(*encoding)), enc_opt_bytes(opt_bytes_view(*attachment)));
                seq_assoc(old(w).buf@, enc_u32(*id) + enc_bytes(keyexpr@) + enc_bytes(parameters@) + enc_opt_bytes(opt_bytes_view(*payload)) + enc_opt_encoding(opt_enc_view(*encoding)) + enc_opt_bytes(opt_bytes_view(*attachment)), enc_qos(*qos));
                seq_assoc(old(w).buf@, enc_u32(*id) + enc_bytes(keyexpr@) + enc_bytes(parameters@) + enc_opt_bytes(opt_bytes_view(*payload)) + enc_opt_encoding(opt_enc_view(*encoding)) + enc_opt_bytes(opt_bytes_view(*attachment)) + enc_qos(*qos), enc_qsettings(*query_settings));
                seq_assoc(old(w).buf@, enc_u32(*id) + enc_bytes(keyexpr@) + enc_bytes(parameters@) + enc_opt_bytes(opt_bytes_view(*payload)) + enc_opt_encoding(opt_enc_view(*encoding)) + enc_opt_bytes(opt_bytes_view(*attachment)) + enc_qos(*qos) + enc_qsettings(*query_settings), enc_u32(*timeout_ms));
            }
            assert(w.buf@ == old(w).buf@ + enc_in_body(m@));
        },
        InRemoteMessage::QuerierGet { id, querier_id, parameters, payload, encoding, attachment } => {
            w.put_u32(*id);
            w.put_u32(*querier_id);
            w.put_bytes(parameters.as_slice());
            w.put_opt_bytes(payload);
            put_opt_encoding(w, encoding);
            w.put_opt_bytes(attachment);
            proof {
                seq_assoc(old(w).buf@, enc_u32(*id), enc_u32(*querier_id));
                seq_assoc(old(w).buf@, enc_u32(*id) + enc_u32(*querier_id), enc_bytes(parameters@));
                seq_assoc(old(w).buf@, enc_u32(*id) + enc_u32(*querier_id) + enc_bytes(parameters@), enc_opt_bytes(opt_bytes_view(*payload)));
                seq_assoc(old(w).buf@, enc_u32(*id) + enc_u32(*querier_id) + enc_bytes(parameters@) + enc_opt_bytes(opt_bytes_view(*payload)), enc_opt_encoding(opt_enc_view(*encoding)));
                seq_assoc(old(w).buf@, enc_u32(*id) + enc_u32(*querier_id) + enc_bytes(parameters@) + enc_opt_bytes(opt_bytes_view(*payload)) + enc_opt_encoding(opt_enc_view(*encoding)), enc_opt_bytes(opt_bytes_view(*attachment)));
            }
            assert(w.buf@ == old(w).buf@ + enc_in_body(m@));
        },
        InRemoteMessage::LivelinessGet { id, keyexpr, timeout_ms } => {
            w.put_u32(*id);
            w.put_bytes(keyexpr.as_slice());
            w.put_u32(*timeout_ms);
            proof {
                seq_assoc(old(w).buf@, enc_u32(*id), enc_bytes(keyexpr@));
                seq_assoc(old(w).buf@, enc_u32(*id) + enc_bytes(keyexpr@), enc_u32(*timeout_ms));
            }
            assert(w.buf@ == old(w).buf@ + enc_in_body(m@));
        },
        InRemoteMessage::ReplyOk { query_id, keyexpr, payload, encoding, attachment, timestamp, qos } => {
            w.put_u32(*query_id);
            w.put_bytes(keyexpr.as_slice());
            w.put_bytes(payload.as_slice());
            put_encoding(w, encoding);
            w.put_opt_bytes(attachment);
            put_opt_timestamp(w, timestamp);
            w.put_u8(qos.to_byte());
            proof {
                seq_assoc(old(w).buf@, enc_u32(*query_id), enc_bytes(keyexpr@));
                seq_assoc(old(w).buf@, enc_u32(*query_id) + enc_bytes(keyexpr@), enc_bytes(payload@));
                seq_assoc(old(w).buf@, enc_u32(*query_id) + enc_bytes(keyexpr@) + enc_bytes(payload@), enc_encoding(encoding@));
                seq_assoc(old(w).buf@, enc_u32(*query_id) + enc_bytes(keyexpr@) + enc_bytes(payload@) + enc_encoding(encoding@), enc_opt_bytes(opt_bytes_view(*attachment)));
                seq_assoc(old(w).buf@, enc_u32(*query_id) + enc_bytes(keyexpr@) + enc_bytes(payload@) + enc_encoding(encoding@) + enc_opt_bytes(opt_bytes_view(*attachment)), enc_opt_timestamp(opt_ts_view(*timestamp)));
                seq_assoc(old(w).buf@, enc_u32(*query_id) + enc_bytes(keyexpr@) + enc_bytes(payload@) + enc_encoding(encoding@) + enc_opt_bytes(opt_bytes_view(*attachment)) + enc_opt_timestamp(opt_ts_view(*timestamp)), enc_qos(*qos));
            }
            assert(w.buf@ == old(w).buf@ + enc_in_body(m@));
        },
        InRemoteMessage::ReplyDel { query_id, keyexpr, attachment, timestamp, qos } => {
            w.put_u32(*query_id);
            w.put_bytes(keyexpr.as_slice());
            w.put_opt_bytes(attachment);
            put_opt_timestamp(w, timestamp);
            w.put_u8(qos.to_byte());
            proof {
                seq_assoc(old(w).buf@, enc_u32(*query_id), enc_bytes(keyexpr@));
                seq_assoc(old(w).buf@, enc_u32(*query_id) + enc_bytes(keyexpr@), enc_opt_bytes(opt_bytes_view(*attachment)));
                seq_assoc(old(w).buf@, enc_u32(*query_id) + enc_bytes(keyexpr@) + enc_opt_bytes(opt_bytes_view(*attachment)), enc_opt_timestamp(opt_ts_view(*timestamp)));
                seq_assoc(old(w).buf@, enc_u32(*query_id) + enc_bytes(keyexpr@) + enc_opt_bytes(opt_bytes_view(*attachment)) + enc_opt_timestamp(opt_ts_view(*timestamp)), enc_qos(*qos));
            }
            assert(w.buf@ == old(w).buf@ + enc_in_body(m@));
        },
        InRemoteMessage::ReplyErr { query_id, payload, encoding } => {
            w.put_u32(*query_id);
            w.put_bytes(payload.as_slice());
            put_encoding(w, encoding);
            proof {
                seq_assoc(old(w).buf@, enc_u32(*query_id), enc_bytes(payload@));
                seq_assoc(old(w).buf@, enc_u32(*query_id) + enc_bytes(payload@), enc_encoding(encoding@));
            }
            assert(w.buf@ == old(w).buf@ + enc_in_body(m@));
        },
        InRemoteMessage::QueryResponseFinal { query_id } => {
            w.put_u32(*query_id);
            assert(w.buf@ == old(w).buf@ + enc_in_body(m@));
        },
        InRemoteMessage::Ping => {
            assert(w.buf@ =~= old(w).buf@ + enc_in_body(m@));
        },
        InRemoteMessage::PublisherDeclareMatchingListener { id, publisher_id } => {
            w.put_u32(*id);
            w.put_u32(*publisher_id);
            proof {
                seq_assoc(old(w).buf@, enc_u32(*id), enc_u32(*publisher_id));
            }
            assert(w.buf@ == old(w).buf@ + enc_in_body(m@));
        },
        InRemoteMessage::UndeclareMatchingListener { id } => {
            w.put_u32(*id);
            assert(w.buf@ == old(w).buf@ + enc_in_body(m@));
        },
        InRemoteMessage::PublisherGetMatchingStatus { publisher_id } => {
            w.put_u32(*publisher_id);
            assert(w.buf@ == old(w).buf@ + enc_in_body(m@));
        },
        InRemoteMessage::QuerierDeclareMatchingListener { id, querier_id } => {
            w.put_u32(*id);
            w.put_u32(*querier_id);
            proof {
                seq_assoc(old(w).buf@, enc_u32(*id), enc_u32(*querier_id));
            }
            assert(w.buf@ == old(w).buf@ + enc_in_body(m@));
        },
        InRemoteMessage::QuerierGetMatchingStatus { querier_id } => {
            w.put_u32(*querier_id);
            assert(w.buf@ == old(w).buf@ + enc_in_body(m@));
        },
    }
}

pub(crate) fn write_out_body(m: &OutRemoteMessage, w: &mut Writer)
    ensures
        final(w).buf@ == old(w).buf@ + enc_out_body(m@),
{
    match m {
        OutRemoteMessage::PingAck { uuid } => {
            w.put_bytes(uuid.as_slice());
            assert(w.buf@ == old(w).buf@ + enc_out_body(m@));
        },
        OutRemoteMessage::Ack { tag } => {
            w.put_u8(*tag);
            assert(w.buf@ == old(w).buf@ + enc_out_body(m@));
        },
        OutRemoteMessage::Error { message } => {
            w.put_bytes(message.as_slice());
            assert(w.buf@ == old(w).buf@ + enc_out_body(m@));
        },
        OutRemoteMessage::ResponseTimestamp { timestamp } => {
            put_timestamp(w, timestamp);
            assert(w.buf@ == old(w).buf@ + enc_out_body(m@));
        },
        OutRemoteMessage::ResponseSessionInfo { zid, z_routers, z_peers } => {
            w.put_raw(zid.as_slice());
            put_zids(w, z_routers);
            put_zids(w, z_peers);
            proof {
                seq_assoc(old(w).buf@, zid@, enc_zids(zids_view(z_routers@)));
                seq_assoc(old(w).buf@, zid@ + enc_zids(zids_view(z_routers@)), enc_zids(zids_view(z_peers@)));
            }
            assert(w.buf@ == old(w).buf@ + enc_out_body(m@));
        },
        OutRemoteMessage::Sample { subscriber_id, sample } => {
            w.put_u32(*subscriber_id);
            put_sample(w, sample);
            proof {
                seq_assoc(old(w).buf@, enc_u32(*subscriber_id), enc_sample(sample@));
            }
            assert(w.buf@ == old(w).buf@ + enc_out_body(m@));
        },
        OutRemoteMessage::Query { queryable_id, query_id, query } => {
            w.put_u32(*queryable_id);
            w.put_u32(*query_id);
            put_query(w, query);
            proof {
                seq_assoc(old(w).buf@, enc_u32(*queryable_id), enc_u32(*query_id));
                seq_assoc(old(w).buf@, enc_u32(*queryable_id) + enc_u32(*query_id), enc_query(query@));
            }
            assert(w.buf@ == old(w).buf@ + enc_out_body(m@));
        },
        OutRemoteMessage::Reply { query_id, reply } => {
            w.put_u32(*query_id);
            put_reply(w, reply);
            proof {
                seq_assoc(old(w).buf@, enc_u32(*query_id), enc_reply(reply@));
            }
            assert(w.buf@ == old(w).buf@ + enc_out_body(m@));
        },
        OutRemoteMessage::QueryResponseFinal { query_id } => {
            w.put_u32(*query_id);
            assert(w.buf@ == old(w).buf@ + enc_out_body(m@));
        },
        OutRemoteMessage::MatchingStatus { matching } => {
            w.put_bool(*matching);
            assert(w.buf@ == old(w).buf@ + enc_out_body(m@));
        },
        OutRemoteMessage::MatchingStatusUpdate { matching_listener_id, matching } => {
            w.put_u32(*matching_listener_id);
            w.put_bool(*matching);
            proof {
                seq_assoc(old(w).buf@, enc_u32(*matching_listener_id), enc_bool(*matching));
            }
            assert(w.buf@ == old(w).buf@ + enc_out_body(m@));
        },
    }
}

#[verifier::rlimit(100)]
pub(crate) fn read_in_body(tag: u8, r: &mut Reader) -> (res: Option<InRemoteMessage>)
    requires
        old(r).wf(),
    ensures
        final(r).wf(),
        final(r).buf == old(r).buf,
        match res {
            Some(m) => p_in_body(tag, old(r).rem()) == Some((m@, final(r).rem())),
            None => p_in_body(tag, old(r).rem()) is None,
        },
{
    if tag == 0 {
        let id = match r.get_u32() { Some(v) => v, None => { return None; } };
        let keyexpr = match r.get_bytes() { Some(v) => v, None => { return None; } };
        if !keyexpr_check(keyexpr.as_slice()) {
            return None;
        }
        let encoding = match get_encoding(r) { Some(v) => v, None => { return None; } };
        let b_qos = match r.get_u8() { Some(v) => v, None => { return None; } };
        let qos = Qos::from_byte(b_qos);
        proof {
            assert(qos == Qos { inner: b_qos });
        }
        Some(InRemoteMessage::DeclarePublisher { id, keyexpr, encoding, qos })
    } else if tag == 1 {
        let id = match r.get_u32() { Some(v) => v, None => { return None; } };
        Some(InRemoteMessage::UndeclarePublisher { id })
    } else if tag == 2 {
        let id = match r.get_u32() { Some(v) => v, None => { return None; } };
        let keyexpr = match r.get_bytes() { Some(v) => v, None => { return None; } };
        if !keyexpr_check(keyexpr.as_slice()) {
            return None;
        }
        let allowed_origin = match get_locality(r) { Some(v) => v, None => { return None; } };
        Some(InRemoteMessage::DeclareSubscriber { id, keyexpr, allowed_origin })
    } else if tag == 3 {
        let id = match r.get_u32() { Some(v) => v, None => { return None; } };
        Some(InRemoteMessage::UndeclareSubscriber { id })
    } else if tag == 4 {
        let id = match r.get_u32() { Some(v) => v, None => { return None; } };
        let keyexpr = match r.get_bytes() { Some(v) => v, None => { return None; } };
        if !keyexpr_check(keyexpr.as_slice()) {
            return None;
        }
        let complete = match r.get_bool() { Some(v) => v, None => { return None; } };
        let allowed_origin = match get_locality(r) { Some(v) => v, None => { return None; } };
        Some(InRemoteMessage::DeclareQueryable { id, keyexpr, complete, allowed_origin })
    } else if tag == 5 {
        let id = match r.get_u32() { Some(v) => v, None => { return None; } };
        Some(InRemoteMessage::UndeclareQueryable { id })
    } else if tag == 6 {
        let id = match r.get_u32() { Some(v) => v, None => { return None; } };
        let keyexpr = match r.get_bytes() { Some(v) => v, None => { return None; } };
        if !keyexpr_check(keyexpr.as_slice()) {
            return None;
        }
        let b_qos = match r.get_u8() { Some(v) => v, None => { return None; } };
        let qos = Qos::from_byte(b_qos);
        proof {
            assert(qos == Qos { inner: b_qos });
        }
        let b_query_settings = match r.get_u8() { Some(v) => v, None => { return None; } };
        let query_settings = QuerySettings::from_byte(b_query_settings);
        proof {
            assert(query_settings == QuerySettings { inner: b_query_settings });
        }
        let timeout_ms = match r.get_u32() { Some(v) => v, None => { return None; } };
        Some(InRemoteMessage::DeclareQuerier { id, keyexpr, qos, query_settings, timeout_ms })
    } else if tag == 7 {
        let id = match r.get_u32() { Some(v) => v, None => { return None; } };
        Some(InRemoteMessage::UndeclareQuerier { id })
    } else if tag == 8 {
        let id = match r.get_u32() { Some(v) => v, None => { return None; } };
        let keyexpr = match r.get_bytes() { Some(v) => v, None => { return None; } };
        if !keyexpr_check(keyexpr.as_slice()) {
            return None;
        }
        Some(InRemoteMessage::DeclareLivelinessToken { id, keyexpr })
    } else if tag == 9 {
        let id = match r.get_u32() { Some(v) => v, None => { return None; } };
        Some(InRemoteMessage::UndeclareLivelinessToken { id })
    } else if tag == 10 {
        let id = match r.get_u32() { Some(v) => v, None => { return None; } };
        let keyexpr = match r.get_bytes() { Some(v) => v, None => { return None; } };
        if !keyexpr_check(keyexpr.as_slice()) {
            return None;
        }
        let history = match r.get_bool() { Some(v) => v, None => { return None; } };
        Some(InRemoteMessage::DeclareLivelinessSubscriber { id, keyexpr, history })
    } else if tag == 11 {
        let id = match r.get_u32() { Some(v) => v, None => { return None; } };
        Some(InRemoteMessage::UndeclareLivelinessSubscriber { id })
    } else if tag == 12 {
        Some(InRemoteMessage::GetSessionInfo)
    } else if tag == 13 {
        Some(InRemoteMessage::GetTimestamp)
    } else if tag == 14 {
        let keyexpr = match r.get_bytes() { Some(v) => v, None => { return None; } };
        if !keyexpr_check(keyexpr.as_slice()) {
            return None;
        }
        let payload = match r.get_bytes() { Some(v) => v, None => { return None; } };
        let encoding = match get_encoding(r) { Some(v) => v, None => { return None; } };
        let attachment = match r.get_opt_bytes() { Some(v) => v, None => { return None; } };
        let timestamp = match get_opt_timestamp(r) { Some(v) => v, None => { return None; } };
        let b_qos = match r.get_u8() { Some(v) => v, None => { return None; } };
        let qos = Qos::from_byte(b_qos);
        proof {
            assert(qos == Qos { inner: b_qos });
        }
        Some(InRemoteMessage::Put { keyexpr, payload, encoding, attachment, timestamp, qos })
    } else if tag == 15 {
        let keyexpr = match r.get_bytes() { Some(v) => v, None => { return None; } };
        if !keyexpr_check(keyexpr.as_slice()) {
            return None;
        }
        let attachment = match r.get_opt_bytes() { Some(v) => v, None => { return None; } };
        let timestamp = match get_opt_timestamp(r) { Some(v) => v, None => { return None; } };
        let b_qos = match r.get_u8() { Some(v) => v, None => { return None; } };
        let qos = Qos::from_byte(b_qos);
        proof {
            assert(qos == Qos { inner: b_qos });
        }
        Some(InRemoteMessage::Delete { keyexpr, attachment, timestamp, qos })
    } else if tag == 16 {
        let publisher_id = match r.get_u32() { Some(v) => v, None => { return None; } };
        let payload = match r.get_bytes() { Some(v) => v, None => { return None; } };
        let encoding = match get_opt_encoding(r) { Some(v) => v, None => { return None; } };
        let attachment = match r.get_opt_bytes() { Some(v) => v, None => { return None; } };
        let timestamp = match get_opt_timestamp(r) { Some(v) => v, None => { return None; } };
        Some(InRemoteMessage::PublisherPut { publisher_id, payload, encoding, attachment, timestamp })
    } else if tag == 17 {
        let publisher_id = match r.get_u32() { Some(v) => v, None => { return None; } };
        let attachment = match r.get_opt_bytes() { Some(v) => v, None => { return None; } };
        let timestamp = match get_opt_timestamp(r) { Some(v) => v, None => { return None; } };
        Some(InRemoteMessage::PublisherDelete { publisher_id, attachment, timestamp })
    } else if tag == 18 {
        let id = match r.get_u32() { Some(v) => v, None => { return None; } };
        let keyexpr = match r.get_bytes() { Some(v) => v, None => { return None; } };
        if !keyexpr_check(keyexpr.as_slice()) {
            return None;
        }
        let parameters = match r.get_bytes() { Some(v) => v, None => { return None; } };
        let payload = match r.get_opt_bytes() { Some(v) => v, None => { return None; } };
        let encoding = match get_opt_encoding(r) { Some(v) => v, None => { return None; } };
        let attachment = match r.get_opt_bytes() { Some(v) => v, None => { return None; } };
        let b_qos = match r.get_u8() { Some(v) => v, None => { return None; } };
        let qos = Qos::from_byte(b_qos);
        proof {
            assert(qos == Qos { inner: b_qos });
        }
        let b_query_settings = match r.get_u8() { Some(v) => v, None => { return None; } };
        let query_settings = QuerySettings::from_byte(b_query_settings);
        proof {
            assert(query_settings == QuerySettings { inner: b_query_settings });
        }
        let timeout_ms = match r.get_u32() { Some(v) => v, None => { return None; } };
        Some(InRemoteMessage::Get { id, keyexpr, parameters, payload, encoding, attachment, qos, query_settings, timeout_ms })
    } else if tag == 19 {
        let id = match r.get_u32() { Some(v) => v, None => { return None; } };
        let querier_id = match r.get_u32() { Some(v) => v, None => { return None; } };
        let parameters = match r.get_bytes() { Some(v) => v, None => { return None; } };
        let payload = match r.get_opt_bytes() { Some(v) => v, None => { return None; } };
        let encoding = match get_opt_encoding(r) { Some(v) => v, None => { return None; } };
        let attachment = match r.get_opt_bytes() { Some(v) => v, None => { return None; } };
        Some(InRemoteMessage::QuerierGet { id, querier_id, parameters, payload, encoding, attachment })
    } else if tag == 20 {
        let id = match r.get_u32() { Some(v) => v, None => { return None; } };
        let keyexpr = match r.get_bytes() { Some(v) => v, None => { return None; } };
        if !keyexpr_check(keyexpr.as_slice()) {
            return None;
        }
        let timeout_ms = match r.get_u32() { Some(v) => v, None => { return None; } };
        Some(InRemoteMessage::LivelinessGet { id, keyexpr, timeout_ms })
    } else if tag == 21 {
        let query_id = match r.get_u32() { Some(v) => v, None => { return None; } };
        let keyexpr = match r.get_bytes() { Some(v) => v, None => { return None; } };
        if !keyexpr_check(keyexpr.as_slice()) {
            return None;
        }
        let payload = match r.get_bytes() { Some(v) => v, None => { return None; } };
        let encoding = match get_encoding(r) { Some(v) => v, None => { return None; } };
        let attachment = match r.get_opt_bytes() { Some(v) => v, None => { return None; } };
        let timestamp = match get_opt_timestamp(r) { Some(v) => v, None => { return None; } };
        let b_qos = match r.get_u8() { Some(v) => v, None => { return None; } };
        let qos = Qos::from_byte(b_qos);
        proof {
            assert(qos == Qos { inner: b_qos });
        }
        Some(InRemoteMessage::ReplyOk { query_id, keyexpr, payload, encoding, attachment, timestamp, qos })
    } else if tag == 22 {
        let query_id = match r.get_u32() { Some(v) => v, None => { return None; } };
        let keyexpr = match r.get_bytes() { Some(v) => v, None => { return None; } };
        if !keyexpr_check(keyexpr.as_slice()) {
            return None;
        }
        let attachment = match r.get_opt_bytes() { Some(v) => v, None => { return None; } };
        let timestamp = match get_opt_timestamp(r) { Some(v) => v, None => { return None; } };
        let b_qos = match r.get_u8() { Some(v) => v, None => { return None; } };
        let qos = Qos::from_byte(b_qos);
        proof {
            assert(qos == Qos { inner: b_qos });
        }
        Some(InRemoteMessage::ReplyDel { query_id, keyexpr, attachment, timestamp, qos })
    } else if tag == 23 {
        let query_id = match r.get_u32() { Some(v) => v, None => { return None; } };
        let payload = match r.get_bytes() { Some(v) => v, None => { return None; } };
        let encoding = match get_encoding(r) { Some(v) => v, None => { return None; } };
        Some(InRemoteMessage::ReplyErr { query_id, payload, encoding })
    } else if tag == 24 {
        let query_id = match r.get_u32() { Some(v) => v, None => { return None; } };
        Some(InRemoteMessage::QueryResponseFinal { query_id })
    } else if tag == 25 {
        Some(InRemoteMessage::Ping)
    } else if tag == 26 {
        let id = match r.get_u32() { Some(v) => v, None => { return None; } };
        let publisher_id = match r.get_u32() { Some(v) => v, None => { return None; } };
        Some(InRemoteMessage::PublisherDeclareMatchingListener { id, publisher_id })
    } else if tag == 27 {
        let id = match r.get_u32() { Some(v) => v, None => { return None; } };
        Some(InRemoteMessage::UndeclareMatchingListener { id })
    } else if tag == 28 {
        let publisher_id = match r.get_u32() { Some(v) => v, None => { return None; } };
        Some(InRemoteMessage::PublisherGetMatchingStatus { publisher_id })
    } else if tag == 29 {
        let id = match r.get_u32() { Some(v) => v, None => { return None; } };
        let querier_id = match r.get_u32() { Some(v) => v, None => { return None; } };
        Some(InRemoteMessage::QuerierDeclareMatchingListener { id, querier_id })
    } else if tag == 30 {
        let querier_id = match r.get_u32() { Some(v) => v, None => { return None; } };
        Some(InRemoteMessage::QuerierGetMatchingStatus { querier_id })
    } else {
        None
    }
}

#[verifier::rlimit(100)]
pub(crate) fn read_out_body(tag: u8, r: &mut Reader) -> (res: Option<OutRemoteMessage>)
    requires
        old(r).wf(),
    ensures
        final(r).wf(),
        final(r).buf == old(r).buf,
        match res {
            Some(m) => p_out_body(tag, old(r).rem()) == Some((m@, final(r).rem())),
            None => p_out_body(tag, old(r).rem()) is None,
        },
{
    if tag == 0 {
        let uuid = match r.get_bytes() { Some(v) => v, None => { return None; } };
        Some(OutRemoteMessage::PingAck { uuid })
    } else if tag == 1 {
        let tag = match r.get_u8() { Some(v) => v, None => { return None; } };
        Some(OutRemoteMessage::Ack { tag })
    } else if tag == 2 {
        let message = match r.get_bytes() { Some(v) => v, None => { return None; } };
        Some(OutRemoteMessage::Error { message })
    } else if tag == 3 {
        let timestamp = match get_timestamp(r) { Some(v) => v, None => { return None; } };
        Some(OutRemoteMessage::ResponseTimestamp { timestamp })
    } else if tag == 4 {
        let zid = match r.get_raw(16) { Some(v) => v, None => { return None; } };
        let z_routers = match get_zids(r) { Some(v) => v, None => { return None; } };
        let z_peers = match get_zids(r) { Some(v) => v, None => { return None; } };
        Some(OutRemoteMessage::ResponseSessionInfo { zid, z_routers, z_peers })
    } else if tag == 5 {
        let subscriber_id = match r.get_u32() { Some(v) => v, None => { return None; } };
        let sample = match get_sample(r) { Some(v) => v, None => { return None; } };
        Some(OutRemoteMessage::Sample { subscriber_id, sample })
    } else if tag == 6 {
        let queryable_id = match r.get_u32() { Some(v) => v, None => { return None; } };
        let query_id = match r.get_u32() { Some(v) => v, None => { return None; } };
        let query = match get_query(r) { Some(v) => v, None => { return None; } };
        Some(OutRemoteMessage::Query { queryable_id, query_id, query })
    } else if tag == 7 {
        let query_id = match r.get_u32() { Some(v) => v, None => { return None; } };
        let reply = match get_reply(r) { Some(v) => v, None => { return None; } };
        Some(OutRemoteMessage::Reply { query_id, reply })
    } else if tag == 8 {
        let query_id = match r.get_u32() { Some(v) => v, None => { return None; } };
        Some(OutRemoteMessage::QueryResponseFinal { query_id })
    } else if tag == 9 {
        let matching = match r.get_bool() { Some(v) => v, None => { return None; } };
        Some(OutRemoteMessage::MatchingStatus { matching })
    } else if tag == 10 {
        let matching_listener_id = match r.get_u32() { Some(v) => v, None => { return None; } };
        let matching = match r.get_bool() { Some(v) => v, None => { return None; } };
        Some(OutRemoteMessage::MatchingStatusUpdate { matching_listener_id, matching })
    } else {
        None
    }
}


// ---------------------------------------------------------------------
// Frames: header plus body.
// ---------------------------------------------------------------------

/// The frame header: the tag byte, with bit 7 set and a 32-bit
/// little-endian sequence id following exactly when one is supplied.
pub open spec fn enc_header(tag: u8, sequence_id: Option<u32>) -> Seq<u8> {
    match sequence_id {
        Option::Some(sid) => enc_u8(tag | 0x80) + enc_u32(sid),
        Option::None => enc_u8(tag),
    }
}

pub open spec fn enc_in_frame(m: InRemoteMessageV, sequence_id: Option<u32>) -> Seq<u8> {
    enc_header(spec_in_tag(m), sequence_id) + enc_in_body(m)
}

pub open spec fn enc_out_frame(m: OutRemoteMessageV, sequence_id: Option<u32>) -> Seq<u8> {
    enc_header(spec_out_tag(m), sequence_id) + enc_out_body(m)
}

/// What decoding an inbound frame yields: the header and message, a
/// header-level failure, or a body-level failure that keeps the header.
/// Bytes past the body are ignored; the transport delimits frames.
pub open spec fn spec_decode_in(s: Seq<u8>) -> Result<(Header, InRemoteMessageV), DecodeError> {
    match p_u8(s) {
        None => Err(DecodeError::InvalidHeader),
        Some((t, r)) => {
            let tag = t & 0x7f;
            if tag > 30 {
                Err(DecodeError::InvalidHeader)
            } else if t & 0x80 != 0 {
                match p_u32(r) {
                    None => Err(DecodeError::InvalidHeader),
                    Some((sid, r2)) => {
                        let h = Header { tag, sequence_id: Some(sid) };
                        match p_in_body(tag, r2) {
                            Some((m, _rest)) => Ok((h, m)),
                            None => Err(DecodeError::InvalidBody(h)),
                        }
                    },
                }
            } else {
                let h = Header { tag, sequence_id: None };
                match p_in_body(tag, r) {
                    Some((m, _rest)) => Ok((h, m)),
                    None => Err(DecodeError::InvalidBody(h)),
                }
            }
        },
    }
}

pub open spec fn spec_decode_out(s: Seq<u8>) -> Result<(Header, OutRemoteMessageV), DecodeError> {
    match p_u8(s) {
        None => Err(DecodeError::InvalidHeader),
        Some((t, r)) => {
            let tag = t & 0x7f;
            if tag > 10 {
                Err(DecodeError::InvalidHeader)
            } else if t & 0x80 != 0 {
                match p_u32(r) {
                    None => Err(DecodeError::InvalidHeader),
                    Some((sid, r2)) => {
                        let h = Header { tag, sequence_id: Some(sid) };
                        match p_out_body(tag, r2) {
                            Some((m, _rest)) => Ok((h, m)),
                            None => Err(DecodeError::InvalidBody(h)),
                        }
                    },
                }
            } else {
                let h = Header { tag, sequence_id: None };
                match p_out_body(tag, r) {
                    Some((m, _rest)) => Ok((h, m)),
                    None => Err(DecodeError::InvalidBody(h)),
                }
            }
        },
    }
}

/// Encodes one inbound frame: the message tag with the optional sequence
/// id, then the body.
pub fn encode_in(m: &InRemoteMessage, sequence_id: Option<u32>) -> (out: Vec<u8>)
    ensures
        out@ == enc_in_frame(m@, sequence_id),
{
    let mut w = Writer::new();
    let tag = in_tag(m);
    match sequence_id {
        Option::Some(sid) => {
            w.put_u8(tag | 0x80);
            w.put_u32(sid);
        },
        Option::None => {
            w.put_u8(tag);
        },
    }
    proof {
        assert(w.buf@ =~= enc_header(spec_in_tag(m@), sequence_id));
    }
    write_in_body(m, &mut w);
    w.into_vec()
}

/// Encodes one outbound frame.
pub fn encode_out(m: &OutRemoteMessage, sequence_id: Option<u32>) -> (out: Vec<u8>)
    ensures
        out@ == enc_out_frame(m@, sequence_id),
{
    let mut w = Writer::new();
    let tag = out_tag(m);
    match sequence_id {
        Option::Some(sid) => {
            w.put_u8(tag | 0x80);
            w.put_u32(sid);
        },
        Option::None => {
            w.put_u8(tag);
        },
    }
    proof {
        assert(w.buf@ =~= enc_header(spec_out_tag(m@), sequence_id));
    }
    write_out_body(m, &mut w);
    w.into_vec()
}

/// Decodes one inbound frame. Unknown tags and truncated headers yield
/// a header-level error; a malformed body keeps the parsed header so the
/// caller can still answer with the right sequence id.
pub fn decode_in(bytes: &[u8]) -> (res: Result<(Header, InRemoteMessage), DecodeError>)
    ensures
        match res {
            Ok((h, m)) => spec_decode_in(bytes@) == Ok::<(Header, InRemoteMessageV), DecodeError>(
                (h, m@),
            ),
            Err(e) => spec_decode_in(bytes@) == Err::<(Header, InRemoteMessageV), DecodeError>(e),
        },
{
    let mut r = Reader::new(bytes);
    let t = match r.get_u8() {
        Some(v) => v,
        None => {
            return Err(DecodeError::InvalidHeader);
        },
    };
    let tag = t & 0x7f;
    if tag > 30 {
        return Err(DecodeError::InvalidHeader);
    }
    let sequence_id = if t & 0x80 != 0 {
        match r.get_u32() {
            Some(sid) => Some(sid),
            None => {
                return Err(DecodeError::InvalidHeader);
            },
        }
    } else {
        None
    };
    let header = Header { tag, sequence_id };
    match read_in_body(tag, &mut r) {
        Some(m) => Ok((header, m)),
        None => Err(DecodeError::InvalidBody(header)),
    }
}

/// Decodes one outbound frame, for the client side of the protocol.
pub fn decode_out(bytes: &[u8]) -> (res: Result<(Header, OutRemoteMessage), DecodeError>)
    ensures
        match res {
            Ok((h, m)) => spec_decode_out(bytes@) == Ok::<(Header, OutRemoteMessageV), DecodeError>(
                (h, m@),
            ),
            Err(e) => spec_decode_out(bytes@) == Err::<(Header, OutRemoteMessageV), DecodeError>(e),
        },
{
    let mut r = Reader::new(bytes);
    let t = match r.get_u8() {
        Some(v) => v,
        None => {
            return Err(DecodeError::InvalidHeader);
        },
    };
    let tag = t & 0x7f;
    if tag > 10 {
        return Err(DecodeError::InvalidHeader);
    }
    let sequence_id = if t & 0x80 != 0 {
        match r.get_u32() {
            Some(sid) => Some(sid),
            None => {
                return Err(DecodeError::InvalidHeader);
            },
        }
    } else {
        None
    };
    let header = Header { tag, sequence_id };
    match read_out_body(tag, &mut r) {
        Some(m) => Ok((header, m)),
        None => Err(DecodeError::InvalidBody(header)),
    }
}

/// Wire round trip: decoding an encoded inbound frame restores the
/// message and the header exactly, for every well-formed message and
/// every choice of sequence id. The tag in the restored header is the
/// variant's declaration ordinal.
pub proof fn lemma_decode_encode_in(m: InRemoteMessageV, sequence_id: Option<u32>)
    ensures
        m.wf() ==> spec_decode_in(enc_in_frame(m, sequence_id)) == Ok::<
            (Header, InRemoteMessageV),
            DecodeError,
        >((Header { tag: spec_in_tag(m), sequence_id }, m)),
{
    if m.wf() {
        let tag = spec_in_tag(m);
        assert(tag <= 30);
        let body = enc_in_body(m);
        lemma_in_body_roundtrip(m, Seq::empty());
        assert(body + Seq::<u8>::empty() =~= body);
        match sequence_id {
            Option::Some(sid) => {
                let h0 = (tag | 0x80) as u8;
                let r1 = enc_u32(sid) + body;
                seq_assoc(enc_u8(h0), enc_u32(sid), body);
                lemma_p_u8(h0, r1);
                assert(h0 & 0x7f == tag && h0 & 0x80 != 0) by (bit_vector)
                    requires
                        tag <= 30,
                        h0 == (tag | 0x80) as u8,
                ;
                lemma_p_u32(sid, body);
            },
            Option::None => {
                lemma_p_u8(tag, body);
                assert(tag & 0x7f == tag && tag & 0x80 == 0) by (bit_vector)
                    requires
                        tag <= 30,
                ;
            },
        }
    }
}

/// Wire round trip for outbound frames.
pub proof fn lemma_decode_encode_out(m: OutRemoteMessageV, sequence_id: Option<u32>)
    ensures
        m.wf() ==> spec_decode_out(enc_out_frame(m, sequence_id)) == Ok::<
            (Header, OutRemoteMessageV),
            DecodeError,
        >((Header { tag: spec_out_tag(m), sequence_id }, m)),
{
    if m.wf() {
        let tag = spec_out_tag(m);
        assert(tag <= 10);
        let body = enc_out_body(m);
        lemma_out_body_roundtrip(m, Seq::empty());
        assert(body + Seq::<u8>::empty() =~= body);
        match sequence_id {
            Option::Some(sid) => {
                let h0 = (tag | 0x80) as u8;
                let r1 = enc_u32(sid) + body;
                seq_assoc(enc_u8(h0), enc_u32(sid), body);
                lemma_p_u8(h0, r1);
                assert(h0 & 0x7f == tag && h0 & 0x80 != 0) by (bit_vector)
                    requires
                        tag <= 10,
                        h0 == (tag | 0x80) as u8,
                ;
                lemma_p_u32(sid, body);
            },
            Option::None => {
                lemma_p_u8(tag, body);
                assert(tag & 0x7f == tag && tag & 0x80 == 0) by (bit_vector)
                    requires
                        tag <= 10,
                ;
            },
        }
    }
}

} // verus!
