//! Primitive wire encodings.
//!
//! Every body on the wire is a concatenation of primitives: fixed-width
//! little-endian integers, one-byte booleans, varint-length-prefixed byte
//! strings, boolean-prefixed optionals and raw fixed-width byte runs.
//! The varint stores seven bits per byte, least-significant group first,
//! with the high bit marking continuation.
//!
//! Each primitive has a specification encoder `enc_*`, a specification
//! parser `p_*` that consumes a prefix of a byte sequence and returns the
//! value with the unread remainder, and a lemma `lemma_p_*` showing that
//! the parser undoes the encoder. The executable [`Writer`] and [`Reader`]
//! are proved against these functions.

use vstd::prelude::*;
use vstd::slice::{slice_subrange, slice_to_vec};

verus! {

pub open spec fn enc_u8(v: u8) -> Seq<u8> {
    seq![v]
}

pub open spec fn enc_u16(v: u16) -> Seq<u8> {
    seq![(v & 0xff) as u8, ((v >> 8) & 0xff) as u8]
}

pub open spec fn enc_u32(v: u32) -> Seq<u8> {
    seq![
        (v & 0xff) as u8,
        ((v >> 8) & 0xff) as u8,
        ((v >> 16) & 0xff) as u8,
        ((v >> 24) & 0xff) as u8,
    ]
}

pub open spec fn enc_u64(v: u64) -> Seq<u8> {
    seq![
        (v & 0xff) as u8,
        ((v >> 8) & 0xff) as u8,
        ((v >> 16) & 0xff) as u8,
        ((v >> 24) & 0xff) as u8,
        ((v >> 32) & 0xff) as u8,
        ((v >> 40) & 0xff) as u8,
        ((v >> 48) & 0xff) as u8,
        ((v >> 56) & 0xff) as u8,
    ]
}

pub open spec fn enc_bool(b: bool) -> Seq<u8> {
    seq![if b { 1u8 } else { 0u8 }]
}

pub open spec fn enc_varint(n: u64) -> Seq<u8>
    decreases n via enc_varint_dec
{
    if n < 0x80 {
        seq![n as u8]
    } else {
        seq![((n & 0x7f) | 0x80) as u8] + enc_varint(n >> 7)
    }
}

#[via_fn]
proof fn enc_varint_dec(n: u64) {
    assert(n >= 0x80 ==> n >> 7 < n) by (bit_vector);
}

/// A byte string: varint length, then the bytes themselves.
pub open spec fn enc_bytes(b: Seq<u8>) -> Seq<u8> {
    enc_varint(b.len() as u64) + b
}

/// An optional byte string: boolean prefix, then the value iff present.
pub open spec fn enc_opt_bytes(o: Option<Seq<u8>>) -> Seq<u8> {
    match o {
        Option::None => enc_bool(false),
        Option::Some(b) => enc_bool(true) + enc_bytes(b),
    }
}

pub open spec fn p_u8(s: Seq<u8>) -> Option<(u8, Seq<u8>)> {
    if s.len() >= 1 {
        Some((s[0], s.skip(1)))
    } else {
        None
    }
}

pub open spec fn p_u16(s: Seq<u8>) -> Option<(u16, Seq<u8>)> {
    if s.len() >= 2 {
        Some(((s[0] as u16) | ((s[1] as u16) << 8), s.skip(2)))
    } else {
        None
    }
}

pub open spec fn p_u32(s: Seq<u8>) -> Option<(u32, Seq<u8>)> {
    if s.len() >= 4 {
        Some(
            (
                (s[0] as u32) | ((s[1] as u32) << 8) | ((s[2] as u32) << 16) | ((s[3] as u32)
                    << 24),
                s.skip(4),
            ),
        )
    } else {
        None
    }
}

pub open spec fn p_u64(s: Seq<u8>) -> Option<(u64, Seq<u8>)> {
    if s.len() >= 8 {
        Some(
            (
                (s[0] as u64) | ((s[1] as u64) << 8) | ((s[2] as u64) << 16) | ((s[3] as u64)
                    << 24) | ((s[4] as u64) << 32) | ((s[5] as u64) << 40) | ((s[6] as u64) << 48)
                    | ((s[7] as u64) << 56),
                s.skip(8),
            ),
        )
    } else {
        None
    }
}

pub open spec fn p_bool(s: Seq<u8>) -> Option<(bool, Seq<u8>)> {
    match p_u8(s) {
        Some((b, r)) => Some((b != 0, r)),
        None => None,
    }
}

pub open spec fn p_varint(s: Seq<u8>) -> Option<(u64, Seq<u8>)>
    decreases s.len(),
{
    if s.len() < 1 {
        None
    } else {
        let b = s[0];
        if b < 0x80 {
            Some((b as u64, s.skip(1)))
        } else {
            match p_varint(s.skip(1)) {
                Some((hi, r)) => Some((((b & 0x7f) as u64) | (hi << 7), r)),
                None => None,
            }
        }
    }
}

pub open spec fn p_bytes(s: Seq<u8>) -> Option<(Seq<u8>, Seq<u8>)> {
    match p_varint(s) {
        Some((n, r)) => if n <= r.len() {
            Some((r.take(n as int), r.skip(n as int)))
        } else {
            None
        },
        None => None,
    }
}

pub open spec fn p_opt_bytes(s: Seq<u8>) -> Option<(Option<Seq<u8>>, Seq<u8>)> {
    match p_bool(s) {
        Some((present, r)) => if present {
            match p_bytes(r) {
                Some((b, r2)) => Some((Some(b), r2)),
                None => None,
            }
        } else {
            Some((None, r))
        },
        None => None,
    }
}

/// A raw run of exactly `n` bytes, with no length prefix.
pub open spec fn p_raw(s: Seq<u8>, n: int) -> Option<(Seq<u8>, Seq<u8>)> {
    if 0 <= n <= s.len() {
        Some((s.take(n), s.skip(n)))
    } else {
        None
    }
}

pub proof fn lemma_p_u8(v: u8, rest: Seq<u8>)
    ensures
        p_u8(enc_u8(v) + rest) == Some((v, rest)),
{
    let s = enc_u8(v) + rest;
    assert(s[0] == v);
    assert(s.skip(1) =~= rest);
}

pub proof fn lemma_p_u16(v: u16, rest: Seq<u8>)
    ensures
        p_u16(enc_u16(v) + rest) == Some((v, rest)),
{
    let s = enc_u16(v) + rest;
    assert(s[0] == (v & 0xff) as u8 && s[1] == ((v >> 8) & 0xff) as u8);
    assert(((v & 0xff) as u8 as u16) | ((((v >> 8) & 0xff) as u8 as u16) << 8) == v)
        by (bit_vector);
    assert(s.skip(2) =~= rest);
}

pub proof fn lemma_p_u32(v: u32, rest: Seq<u8>)
    ensures
        p_u32(enc_u32(v) + rest) == Some((v, rest)),
{
    let s = enc_u32(v) + rest;
    assert(s[0] == (v & 0xff) as u8 && s[1] == ((v >> 8) & 0xff) as u8 && s[2] == ((v >> 16)
        & 0xff) as u8 && s[3] == ((v >> 24) & 0xff) as u8);
    assert(((v & 0xff) as u8 as u32) | ((((v >> 8) & 0xff) as u8 as u32) << 8) | ((((v >> 16)
        & 0xff) as u8 as u32) << 16) | ((((v >> 24) & 0xff) as u8 as u32) << 24) == v)
        by (bit_vector);
    assert(s.skip(4) =~= rest);
}

pub proof fn lemma_p_u64(v: u64, rest: Seq<u8>)
    ensures
        p_u64(enc_u64(v) + rest) == Some((v, rest)),
{
    let s = enc_u64(v) + rest;
    assert(s[0] == (v & 0xff) as u8 && s[1] == ((v >> 8) & 0xff) as u8 && s[2] == ((v >> 16)
        & 0xff) as u8 && s[3] == ((v >> 24) & 0xff) as u8 && s[4] == ((v >> 32) & 0xff) as u8
        && s[5] == ((v >> 40) & 0xff) as u8 && s[6] == ((v >> 48) & 0xff) as u8 && s[7] == ((v
        >> 56) & 0xff) as u8);
    assert(((v & 0xff) as u8 as u64) | ((((v >> 8) & 0xff) as u8 as u64) << 8) | ((((v >> 16)
        & 0xff) as u8 as u64) << 16) | ((((v >> 24) & 0xff) as u8 as u64) << 24) | ((((v >> 32)
        & 0xff) as u8 as u64) << 32) | ((((v >> 40) & 0xff) as u8 as u64) << 40) | ((((v >> 48)
        & 0xff) as u8 as u64) << 48) | ((((v >> 56) & 0xff) as u8 as u64) << 56) == v)
        by (bit_vector);
    assert(s.skip(8) =~= rest);
}

pub proof fn lemma_p_bool(b: bool, rest: Seq<u8>)
    ensures
        p_bool(enc_bool(b) + rest) == Some((b, rest)),
{
    let s = enc_bool(b) + rest;
    assert(s[0] == if b { 1u8 } else { 0u8 });
    assert(s.skip(1) =~= rest);
}

pub proof fn lemma_p_varint(n: u64, rest: Seq<u8>)
    ensures
        p_varint(enc_varint(n) + rest) == Some((n, rest)),
    decreases n,
{
    let s = enc_varint(n) + rest;
    if n < 0x80 {
        assert(s[0] == n as u8);
        assert((n as u8) < 0x80 && (n as u8 as u64) == n) by (bit_vector)
            requires
                n < 0x80,
        ;
        assert(s.skip(1) =~= rest);
    } else {
        let b = ((n & 0x7f) | 0x80) as u8;
        assert(s[0] == b);
        assert(b >= 0x80) by (bit_vector)
            requires
                b == ((n & 0x7f) | 0x80) as u8,
        ;
        assert(n >> 7 < n) by (bit_vector)
            requires
                n >= 0x80,
        ;
        lemma_p_varint(n >> 7, rest);
        assert(s.skip(1) =~= enc_varint(n >> 7) + rest);
        assert(((b & 0x7f) as u64) | ((n >> 7) << 7) == n) by (bit_vector)
            requires
                b == ((n & 0x7f) | 0x80) as u8,
        ;
    }
}

pub proof fn lemma_p_bytes(b: Seq<u8>, rest: Seq<u8>)
    requires
        b.len() <= u64::MAX,
    ensures
        p_bytes(enc_bytes(b) + rest) == Some((b, rest)),
{
    let n = b.len() as u64;
    lemma_p_varint(n, b + rest);
    assert(enc_bytes(b) + rest =~= enc_varint(n) + (b + rest));
    assert((b + rest).take(n as int) =~= b);
    assert((b + rest).skip(n as int) =~= rest);
}

pub proof fn lemma_p_opt_bytes(o: Option<Seq<u8>>, rest: Seq<u8>)
    requires
        o is Some ==> o.unwrap().len() <= u64::MAX,
    ensures
        p_opt_bytes(enc_opt_bytes(o) + rest) == Some((o, rest)),
{
    match o {
        Option::None => {
            lemma_p_bool(false, rest);
        },
        Option::Some(b) => {
            lemma_p_bool(true, enc_bytes(b) + rest);
            assert(enc_opt_bytes(o) + rest =~= enc_bool(true) + (enc_bytes(b) + rest));
            lemma_p_bytes(b, rest);
        },
    }
}

pub proof fn lemma_p_raw(b: Seq<u8>, rest: Seq<u8>)
    ensures
        p_raw(b + rest, b.len() as int) == Some((b, rest)),
{
    assert((b + rest).take(b.len() as int) =~= b);
    assert((b + rest).skip(b.len() as int) =~= rest);
}

/// Accumulates an encoded frame.
pub struct Writer {
    pub buf: Vec<u8>,
}

impl Writer {
    pub fn new() -> (w: Writer)
        ensures
            w.buf@ == Seq::<u8>::empty(),
    {
        Writer { buf: Vec::new() }
    }

    pub fn into_vec(self) -> (r: Vec<u8>)
        ensures
            r@ == self.buf@,
    {
        self.buf
    }

    pub fn put_u8(&mut self, v: u8)
        ensures
            final(self).buf@ == old(self).buf@ + enc_u8(v),
    {
        self.buf.push(v);
        assert(self.buf@ =~= old(self).buf@ + enc_u8(v));
    }

    pub fn put_u16(&mut self, v: u16)
        ensures
            final(self).buf@ == old(self).buf@ + enc_u16(v),
    {
        self.buf.push((v & 0xff) as u8);
        self.buf.push(((v >> 8) & 0xff) as u8);
        assert(self.buf@ =~= old(self).buf@ + enc_u16(v));
    }

    pub fn put_u32(&mut self, v: u32)
        ensures
            final(self).buf@ == old(self).buf@ + enc_u32(v),
    {
        self.buf.push((v & 0xff) as u8);
        self.buf.push(((v >> 8) & 0xff) as u8);
        self.buf.push(((v >> 16) & 0xff) as u8);
        self.buf.push(((v >> 24) & 0xff) as u8);
        assert(self.buf@ =~= old(self).buf@ + enc_u32(v));
    }

    pub fn put_u64(&mut self, v: u64)
        ensures
            final(self).buf@ == old(self).buf@ + enc_u64(v),
    {
        self.buf.push((v & 0xff) as u8);
        self.buf.push(((v >> 8) & 0xff) as u8);
        self.buf.push(((v >> 16) & 0xff) as u8);
        self.buf.push(((v >> 24) & 0xff) as u8);
        self.buf.push(((v >> 32) & 0xff) as u8);
        self.buf.push(((v >> 40) & 0xff) as u8);
        self.buf.push(((v >> 48) & 0xff) as u8);
        self.buf.push(((v >> 56) & 0xff) as u8);
        assert(self.buf@ =~= old(self).buf@ + enc_u64(v));
    }

    pub fn put_bool(&mut self, b: bool)
        ensures
            final(self).buf@ == old(self).buf@ + enc_bool(b),
    {
        self.buf.push(if b { 1 } else { 0 });
        assert(self.buf@ =~= old(self).buf@ + enc_bool(b));
    }

    pub fn put_varint(&mut self, n: u64)
        ensures
            final(self).buf@ == old(self).buf@ + enc_varint(n),
        decreases n,
    {
        if n < 0x80 {
            self.buf.push(n as u8);
            assert(self.buf@ =~= old(self).buf@ + enc_varint(n));
        } else {
            self.buf.push(((n & 0x7f) | 0x80) as u8);
            proof {
                assert(n >> 7 < n) by (bit_vector)
                    requires
                        n >= 0x80,
                ;
            }
            self.put_varint(n >> 7);
            assert(self.buf@ =~= old(self).buf@ + enc_varint(n));
        }
    }

    pub fn put_bytes(&mut self, b: &[u8])
        ensures
            final(self).buf@ == old(self).buf@ + enc_bytes(b@),
    {
        self.put_varint(b.len() as u64);
        self.put_raw(b);
        assert(self.buf@ =~= old(self).buf@ + enc_bytes(b@));
    }

    pub fn put_opt_bytes(&mut self, o: &Option<Vec<u8>>)
        ensures
            final(self).buf@ == old(self).buf@ + enc_opt_bytes(
                match o {
                    Option::Some(b) => Some(b@),
                    Option::None => None,
                },
            ),
    {
        match o {
            Option::Some(b) => {
                self.put_bool(true);
                self.put_bytes(b.as_slice());
                assert(self.buf@ =~= old(self).buf@ + enc_opt_bytes(Some(b@)));
            },
            Option::None => {
                self.put_bool(false);
            },
        }
    }

    /// Appends the bytes with no length prefix.
    pub fn put_raw(&mut self, b: &[u8])
        ensures
            final(self).buf@ == old(self).buf@ + b@,
    {
        let n: usize = b.len();
        let mut i: usize = 0;
        while i < n
            invariant
                i <= n,
                n == b@.len(),
                self.buf@ == old(self).buf@ + b@.take(i as int),
            decreases n - i,
        {
            self.buf.push(b[i]);
            assert(self.buf@ =~= old(self).buf@ + b@.take(i as int + 1));
            i = i + 1;
        }
        assert(self.buf@ =~= old(self).buf@ + b@);
    }
}

/// Consumes an encoded frame from a borrowed byte slice.
pub struct Reader<'a> {
    pub buf: &'a [u8],
    pub pos: usize,
}

impl<'a> Reader<'a> {
    pub open spec fn wf(self) -> bool {
        self.pos <= self.buf@.len()
    }

    /// The bytes that have not been consumed yet.
    pub open spec fn rem(self) -> Seq<u8> {
        self.buf@.skip(self.pos as int)
    }

    pub fn new(buf: &'a [u8]) -> (r: Reader<'a>)
        ensures
            r.wf(),
            r.rem() == buf@,
    {
        let r = Reader { buf, pos: 0 };
        assert(r.rem() =~= buf@);
        r
    }

    pub fn get_u8(&mut self) -> (r: Option<u8>)
        requires
            old(self).wf(),
        ensures
            final(self).wf(),
            final(self).buf == old(self).buf,
            match r {
                Some(v) => p_u8(old(self).rem()) == Some((v, final(self).rem())),
                None => p_u8(old(self).rem()) is None && *final(self) == *old(self),
            },
    {
        if self.buf.len() - self.pos >= 1 {
            let v = self.buf[self.pos];
            self.pos = self.pos + 1;
            proof {
                assert(old(self).rem()[0] == v);
                assert(self.rem() =~= old(self).rem().skip(1));
            }
            Some(v)
        } else {
            None
        }
    }

    pub fn get_u16(&mut self) -> (r: Option<u16>)
        requires
            old(self).wf(),
        ensures
            final(self).wf(),
            final(self).buf == old(self).buf,
            match r {
                Some(v) => p_u16(old(self).rem()) == Some((v, final(self).rem())),
                None => p_u16(old(self).rem()) is None && *final(self) == *old(self),
            },
    {
        if self.buf.len() - self.pos >= 2 {
            let b0 = self.buf[self.pos];
            let b1 = self.buf[self.pos + 1];
            let v = (b0 as u16) | ((b1 as u16) << 8);
            self.pos = self.pos + 2;
            proof {
                assert(old(self).rem()[0] == b0 && old(self).rem()[1] == b1);
                assert(self.rem() =~= old(self).rem().skip(2));
            }
            Some(v)
        } else {
            None
        }
    }

    pub fn get_u32(&mut self) -> (r: Option<u32>)
        requires
            old(self).wf(),
        ensures
            final(self).wf(),
            final(self).buf == old(self).buf,
            match r {
                Some(v) => p_u32(old(self).rem()) == Some((v, final(self).rem())),
                None => p_u32(old(self).rem()) is None && *final(self) == *old(self),
            },
    {
        if self.buf.len() - self.pos >= 4 {
            let b0 = self.buf[self.pos];
            let b1 = self.buf[self.pos + 1];
            let b2 = self.buf[self.pos + 2];
            let b3 = self.buf[self.pos + 3];
            let v = (b0 as u32) | ((b1 as u32) << 8) | ((b2 as u32) << 16) | ((b3 as u32) << 24);
            self.pos = self.pos + 4;
            proof {
                assert(old(self).rem()[0] == b0 && old(self).rem()[1] == b1 && old(self).rem()[2]
                    == b2 && old(self).rem()[3] == b3);
                assert(self.rem() =~= old(self).rem().skip(4));
            }
            Some(v)
        } else {
            None
        }
    }

    pub fn get_u64(&mut self) -> (r: Option<u64>)
        requires
            old(self).wf(),
        ensures
            final(self).wf(),
            final(self).buf == old(self).buf,
            match r {
                Some(v) => p_u64(old(self).rem()) == Some((v, final(self).rem())),
                None => p_u64(old(self).rem()) is None && *final(self) == *old(self),
            },
    {
        if self.buf.len() - self.pos >= 8 {
            let b0 = self.buf[self.pos];
            let b1 = self.buf[self.pos + 1];
            let b2 = self.buf[self.pos + 2];
            let b3 = self.buf[self.pos + 3];
            let b4 = self.buf[self.pos + 4];
            let b5 = self.buf[self.pos + 5];
            let b6 = self.buf[self.pos + 6];
            let b7 = self.buf[self.pos + 7];
            let v = (b0 as u64) | ((b1 as u64) << 8) | ((b2 as u64) << 16) | ((b3 as u64) << 24) | (
            (b4 as u64) << 32) | ((b5 as u64) << 40) | ((b6 as u64) << 48) | ((b7 as u64) << 56);
            self.pos = self.pos + 8;
            proof {
                assert(old(self).rem()[0] == b0 && old(self).rem()[1] == b1 && old(self).rem()[2]
                    == b2 && old(self).rem()[3] == b3 && old(self).rem()[4] == b4 && old(
                    self,
                ).rem()[5] == b5 && old(self).rem()[6] == b6 && old(self).rem()[7] == b7);
                assert(self.rem() =~= old(self).rem().skip(8));
            }
            Some(v)
        } else {
            None
        }
    }

    pub fn get_bool(&mut self) -> (r: Option<bool>)
        requires
            old(self).wf(),
        ensures
            final(self).wf(),
            final(self).buf == old(self).buf,
            match r {
                Some(v) => p_bool(old(self).rem()) == Some((v, final(self).rem())),
                None => p_bool(old(self).rem()) is None && *final(self) == *old(self),
            },
    {
        match self.get_u8() {
            Some(b) => Some(b != 0),
            None => None,
        }
    }

    pub fn get_varint(&mut self) -> (r: Option<u64>)
        requires
            old(self).wf(),
        ensures
            final(self).wf(),
            final(self).buf == old(self).buf,
            match r {
                Some(v) => p_varint(old(self).rem()) == Some((v, final(self).rem())),
                None => p_varint(old(self).rem()) is None,
            },
        decreases old(self).rem().len(),
    {
        match self.get_u8() {
            Some(b) => {
                if b < 0x80 {
                    Some(b as u64)
                } else {
                    match self.get_varint() {
                        Some(hi) => Some(((b & 0x7f) as u64) | (hi << 7)),
                        None => None,
                    }
                }
            },
            None => None,
        }
    }

    pub fn get_bytes(&mut self) -> (r: Option<Vec<u8>>)
        requires
            old(self).wf(),
        ensures
            final(self).wf(),
            final(self).buf == old(self).buf,
            match r {
                Some(v) => p_bytes(old(self).rem()) == Some((v@, final(self).rem())),
                None => p_bytes(old(self).rem()) is None,
            },
    {
        let n = match self.get_varint() {
            Some(n) => n,
            None => {
                return None;
            },
        };
        let avail: usize = self.buf.len() - self.pos;
        if n <= avail as u64 {
            let start = self.pos;
            let end = self.pos + (n as usize);
            let out = slice_to_vec(slice_subrange(self.buf, start, end));
            self.pos = end;
            proof {
                assert(out@ =~= self.buf@.skip(start as int).take(n as int));
                assert(self.buf@.skip(start as int).take(n as int) =~= self.buf@.subrange(
                    start as int,
                    end as int,
                ));
                assert(self.rem() =~= self.buf@.skip(start as int).skip(n as int));
            }
            Some(out)
        } else {
            None
        }
    }

    pub fn get_opt_bytes(&mut self) -> (r: Option<Option<Vec<u8>>>)
        requires
            old(self).wf(),
        ensures
            final(self).wf(),
            final(self).buf == old(self).buf,
            match r {
                Some(v) => p_opt_bytes(old(self).rem()) == Some(
                    (
                        match v {
                            Option::Some(b) => Some(b@),
                            Option::None => None,
                        },
                        final(self).rem(),
                    ),
                ),
                None => p_opt_bytes(old(self).rem()) is None,
            },
    {
        match self.get_bool() {
            Some(present) => {
                if present {
                    match self.get_bytes() {
                        Some(b) => Some(Some(b)),
                        None => None,
                    }
                } else {
                    Some(None)
                }
            },
            None => None,
        }
    }

    /// Reads exactly `n` raw bytes.
    pub fn get_raw(&mut self, n: usize) -> (r: Option<Vec<u8>>)
        requires
            old(self).wf(),
        ensures
            final(self).wf(),
            final(self).buf == old(self).buf,
            match r {
                Some(v) => p_raw(old(self).rem(), n as int) == Some((v@, final(self).rem()))
                    && v@.len() == n,
                None => p_raw(old(self).rem(), n as int) is None,
            },
    {
        if n <= self.buf.len() - self.pos {
            let start = self.pos;
            let end = self.pos + n;
            let out = slice_to_vec(slice_subrange(self.buf, start, end));
            self.pos = end;
            proof {
                assert(out@ =~= old(self).rem().take(n as int));
                assert(self.rem() =~= old(self).rem().skip(n as int));
            }
            Some(out)
        } else {
            None
        }
    }

    /// True when the whole frame has been consumed.
    pub fn is_done(&self) -> (r: bool)
        requires
            self.wf(),
        ensures
            r == (self.rem().len() == 0),
    {
        self.pos == self.buf.len()
    }
}

} // verus!
