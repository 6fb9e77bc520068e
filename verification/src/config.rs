//! The plugin's configuration surface.
//!
//! The recognized options are the listen endpoint (`websocket_port`, a
//! string `ip:port` or a bare port number), the optional TLS material
//! paths, and the plugin lifecycle markers `__path__`, `__required__` and
//! `__config__`, which are accepted but not interpreted here. Reading the
//! configuration document is the host's business; this module holds the
//! configured values and the normalization of the listen endpoint.

use vstd::prelude::*;
use vstd::string::{StrSliceExecFns, StringExecFns};

verus! {

/// TLS material for secure connections: paths to the PEM certificate chain
/// and private key.
#[derive(Clone, Debug)]
pub struct SecureWebsocket {
    pub certificate_path: String,
    pub private_key_path: String,
}

/// The plugin configuration, with the listen endpoint already normalized
/// to `interface:port` form.
#[derive(Clone, Debug)]
pub struct Config {
    pub websocket_port: String,
    pub secure_websocket: Option<SecureWebsocket>,
    pub __path__: Option<Vec<String>>,
    pub __required__: Option<bool>,
    pub __config__: Option<String>,
}

/// The default listen endpoint: every interface, port 10000.
pub fn default_websocket_port() -> (r: String)
    ensures
        r@ == "[::]:10000"@,
{
    String::from_str("[::]:10000")
}

pub open spec fn is_digit(c: char) -> bool {
    '0' <= c && c <= '9'
}

/// The number the digit characters denote, most significant first.
pub open spec fn digits_val(s: Seq<char>) -> int
    decreases s.len(),
{
    if s.len() == 0 {
        0
    } else {
        digits_val(s.drop_last()) * 10 + (s.last() as u32 - 48)
    }
}

/// A usable port field: nonempty, all digits, and within 32 bits.
pub open spec fn port_ok(s: Seq<char>) -> bool {
    &&& s.len() > 0
    &&& forall|i: int| 0 <= i < s.len() ==> is_digit(#[trigger] s[i])
    &&& digits_val(s) <= u32::MAX
}

pub open spec fn no_colon(s: Seq<char>) -> bool {
    forall|i: int| 0 <= i < s.len() ==> #[trigger] s[i] != ':'
}

/// `i` is the position of the first colon.
pub open spec fn first_colon_at(s: Seq<char>, i: int) -> bool {
    &&& 0 <= i < s.len()
    &&& s[i] == ':'
    &&& forall|j: int| 0 <= j < i ==> #[trigger] s[j] != ':'
}

/// A usable `websocket_port` option: a bare port, or one interface part
/// and one port part around a single colon.
pub open spec fn ws_port_valid(s: Seq<char>) -> bool {
    if no_colon(s) {
        port_ok(s)
    } else {
        exists|i: int|
            {
                &&& #[trigger] first_colon_at(s, i)
                &&& no_colon(s.skip(i + 1))
                &&& port_ok(s.skip(i + 1))
            }
    }
}

/// The normalized endpoint: a bare port is bound on every interface.
pub open spec fn ws_port_normal(s: Seq<char>) -> Seq<char> {
    if no_colon(s) {
        "[::]:"@ + s
    } else {
        s
    }
}

proof fn lemma_first_colon_unique(s: Seq<char>, i: int, j: int)
    requires
        first_colon_at(s, i),
        first_colon_at(s, j),
    ensures
        i == j,
{
}

proof fn lemma_digits_val_prefix(s: Seq<char>, i: int)
    requires
        0 <= i <= s.len(),
        forall|j: int| 0 <= j < s.len() ==> is_digit(#[trigger] s[j]),
    ensures
        digits_val(s) >= digits_val(s.take(i)),
    decreases s.len() - i,
{
    if i < s.len() {
        assert(s.take(i + 1).drop_last() =~= s.take(i));
        assert(s.take(i + 1).last() == s[i]);
        assert(digits_val(s.take(i + 1)) == digits_val(s.take(i)) * 10 + (s[i] as u32 - 48));
        assert(digits_val(s.take(i)) >= 0) by {
            lemma_digits_val_nonneg(s.take(i));
        }
        lemma_digits_val_prefix(s, i + 1);
    } else {
        assert(s.take(i) =~= s);
    }
}

proof fn lemma_digits_val_nonneg(s: Seq<char>)
    requires
        forall|j: int| 0 <= j < s.len() ==> is_digit(#[trigger] s[j]),
    ensures
        digits_val(s) >= 0,
    decreases s.len(),
{
    if s.len() > 0 {
        lemma_digits_val_nonneg(s.drop_last());
    }
}

/// Checks the port field of `s` starting at `start` and accumulates its
/// value.
fn parse_port_value(s: &str, start: usize, n: usize) -> (r: Option<u32>)
    requires
        start <= n,
        n == s@.len(),
    ensures
        match r {
            Some(v) => port_ok(s@.skip(start as int)) && v == digits_val(s@.skip(start as int)),
            None => !port_ok(s@.skip(start as int)),
        },
{
    let ghost port = s@.skip(start as int);
    if start == n {
        return None;
    }
    let mut val: u64 = 0;
    let mut k: usize = 0;
    let len: usize = n - start;
    while k < len
        invariant
            k <= len,
            start + len == n,
            n == s@.len(),
            port == s@.skip(start as int),
            port.len() == len,
            forall|j: int| 0 <= j < k ==> is_digit(#[trigger] port[j]),
            val == digits_val(port.take(k as int)),
            val <= u32::MAX,
        decreases len - k,
    {
        let c = s.get_char(start + k);
        proof {
            assert(port[k as int] == s@[start + k]);
        }
        if !(c >= '0' && c <= '9') {
            return None;
        }
        let d: u64 = (c as u32 as u64) - 48;
        let next: u64 = val * 10 + d;
        proof {
            assert(port.take(k as int + 1).drop_last() =~= port.take(k as int));
            assert(port.take(k as int + 1).last() == port[k as int]);
        }
        if next > 0xffff_ffff {
            proof {
                assert(digits_val(port.take(k as int + 1)) > u32::MAX);
                if port_ok(port) {
                    lemma_digits_val_prefix(port, k as int + 1);
                }
            }
            return None;
        }
        val = next;
        k = k + 1;
    }
    proof {
        assert(port.take(len as int) =~= port);
    }
    Some(val as u32)
}

/// Normalizes a `websocket_port` value written as a string: either a bare
/// port number, which is bound on every interface, or `interface:port`.
/// More than one colon, or a port that is not a number within 32 bits,
/// is rejected.
pub fn parse_websocket_port(s: &str) -> (r: Option<String>)
    ensures
        match r {
            Some(out) => ws_port_valid(s@) && out@ == ws_port_normal(s@),
            None => !ws_port_valid(s@),
        },
{
    let n = s.unicode_len();
    let mut i: usize = 0;
    let mut first: usize = 0;
    let mut seen: bool = false;
    let mut extra: bool = false;
    while i < n
        invariant
            i <= n,
            n == s@.len(),
            !seen ==> forall|j: int| 0 <= j < i ==> #[trigger] s@[j] != ':',
            seen ==> first_colon_at(s@, first as int) && first < i,
            extra ==> seen && exists|j: int|
                first < j < i && #[trigger] s@[j] == ':',
            seen && !extra ==> forall|j: int| first < j < i ==> #[trigger] s@[j] != ':',
        decreases n - i,
    {
        let c = s.get_char(i);
        if c == ':' {
            if !seen {
                seen = true;
                first = i;
            } else {
                extra = true;
            }
        }
        i = i + 1;
    }
    if extra {
        proof {
            let j = choose|j: int| first < j < n && #[trigger] s@[j] == ':';
            assert(!no_colon(s@));
            assert forall|i2: int| #[trigger]
                first_colon_at(s@, i2) implies !no_colon(s@.skip(i2 + 1)) by {
                lemma_first_colon_unique(s@, i2, first as int);
                assert(s@.skip(i2 + 1)[j - i2 - 1] == s@[j]);
            }
        }
        return None;
    }
    if seen {
        match parse_port_value(s, first + 1, n) {
            Some(_) => {
                proof {
                    assert(!no_colon(s@));
                    assert(no_colon(s@.skip(first as int + 1)));
                }
                Some(String::from_str(s))
            },
            None => {
                proof {
                    assert(!no_colon(s@));
                    assert forall|i2: int| #[trigger]
                        first_colon_at(s@, i2) implies !port_ok(s@.skip(i2 + 1)) by {
                        lemma_first_colon_unique(s@, i2, first as int);
                    }
                }
                None
            },
        }
    } else {
        proof {
            assert(no_colon(s@));
        }
        match parse_port_value(s, 0, n) {
            Some(_) => {
                let mut out = String::from_str("[::]:");
                out.append(s);
                proof {
                    assert(s@.skip(0) =~= s@);
                }
                Some(out)
            },
            None => {
                proof {
                    assert(s@.skip(0) =~= s@);
                }
                None
            },
        }
    }
}

/// Normalizes a `websocket_port` option written as a bare number.
pub fn websocket_port_from_number(port: u64) -> (r: Option<String>)
    ensures
        port <= u32::MAX ==> (r matches Some(out) && out@ == "[::]:"@ + dec_chars(port)),
        port > u32::MAX ==> r is None,
{
    if port <= 0xffff_ffff {
        let mut out = String::from_str("[::]:");
        push_u64_decimal(&mut out, port);
        Some(out)
    } else {
        None
    }
}

/// The decimal digits of `n` as characters, most significant first.
pub open spec fn dec_chars(n: u64) -> Seq<char>
    decreases n,
{
    if n < 10 {
        seq![digit_char(n)]
    } else {
        dec_chars(n / 10) + seq![digit_char(n % 10)]
    }
}

pub open spec fn digit_char(d: u64) -> char {
    ((48 + d % 10) as u8) as char
}

fn digit_str(d: u64) -> (r: &'static str)
    requires
        d < 10,
    ensures
        r@ == seq![digit_char(d)],
{
    proof {
        reveal_strlit("0");
        reveal_strlit("1");
        reveal_strlit("2");
        reveal_strlit("3");
        reveal_strlit("4");
        reveal_strlit("5");
        reveal_strlit("6");
        reveal_strlit("7");
        reveal_strlit("8");
        reveal_strlit("9");
    }
    let r: &'static str = if d == 0 {
        "0"
    } else if d == 1 {
        "1"
    } else if d == 2 {
        "2"
    } else if d == 3 {
        "3"
    } else if d == 4 {
        "4"
    } else if d == 5 {
        "5"
    } else if d == 6 {
        "6"
    } else if d == 7 {
        "7"
    } else if d == 8 {
        "8"
    } else {
        "9"
    };
    proof {
        assert(r@ =~= seq![digit_char(d)]);
    }
    r
}

fn push_u64_decimal(out: &mut String, n: u64)
    ensures
        final(out)@ == old(out)@ + dec_chars(n),
    decreases n,
{
    if n < 10 {
        out.append(digit_str(n));
        assert(out@ =~= old(out)@ + dec_chars(n));
    } else {
        push_u64_decimal(out, n / 10);
        out.append(digit_str(n % 10));
        assert(out@ =~= old(out)@ + dec_chars(n));
    }
}

impl Config {
    /// A configuration with every option at its default.
    pub fn fresh() -> (c: Config)
        ensures
            c.websocket_port@ == "[::]:10000"@,
            c.secure_websocket is None,
            c.__path__ is None,
            c.__required__ is None,
            c.__config__ is None,
    {
        Config {
            websocket_port: default_websocket_port(),
            secure_websocket: None,
            __path__: None,
            __required__: None,
            __config__: None,
        }
    }
}

} // verus!
