//! Key expressions: validity and the set algebra over them.
//!
//! Key expressions are hierarchical, wildcard-capable addresses in the
//! fabric's namespace. What forms a valid canonical key expression, and how
//! two of them relate as sets of keys, is the fabric's own judgement: this
//! crate names those judgements and asks the `zenoh-keyexpr` crate for them
//! at run time. The handling around them — checking operands, refusing a
//! concatenation that would splice wildcards — is verified here.

use vstd::prelude::*;

verus! {

/// Whether `b` is UTF-8 text that forms a valid, canonical key expression.
/// The judgement depends on the bytes alone.
pub uninterp spec fn keyexpr_ok(b: Seq<u8>) -> bool;

/// Whether the set of keys addressed by `a` contains every key addressed
/// by `b`. Meaningful when both are valid key expressions.
pub uninterp spec fn ke_includes(a: Seq<u8>, b: Seq<u8>) -> bool;

/// Whether some key is addressed by both `a` and `b`. Meaningful when both
/// are valid key expressions.
pub uninterp spec fn ke_intersects(a: Seq<u8>, b: Seq<u8>) -> bool;

/// The canonical form of `a`, a separator, then `b` — or nothing, when the
/// joined text cannot be canonized to a valid key expression. Meaningful
/// when both operands are valid key expressions.
pub uninterp spec fn ke_join(a: Seq<u8>, b: Seq<u8>) -> Option<Seq<u8>>;

/// Relies on `zenoh_keyexpr::key_expr::keyexpr::new`, which accepts exactly
/// the valid canonical key expressions; the result depends on the bytes
/// alone.
#[verifier::external_body]
pub(crate) fn keyexpr_check(b: &[u8]) -> (r: bool)
    ensures
        r == keyexpr_ok(b@),
{
    match core::str::from_utf8(b) {
        Ok(s) => zenoh_keyexpr::key_expr::keyexpr::new(s).is_ok(),
        Err(_) => false,
    }
}

/// Relies on `zenoh_keyexpr::key_expr::keyexpr::includes`: set inclusion
/// of the two key expressions, a function of the bytes alone.
#[verifier::external_body]
fn keyexpr_includes(a: &[u8], b: &[u8]) -> (r: bool)
    requires
        keyexpr_ok(a@),
        keyexpr_ok(b@),
    ensures
        r == ke_includes(a@, b@),
{
    let a = core::str::from_utf8(a).ok().and_then(|s| {
        zenoh_keyexpr::key_expr::keyexpr::new(s).ok()
    });
    let b = core::str::from_utf8(b).ok().and_then(|s| {
        zenoh_keyexpr::key_expr::keyexpr::new(s).ok()
    });
    match (a, b) {
        (Some(a), Some(b)) => a.includes(b),
        _ => false,
    }
}

/// Relies on `zenoh_keyexpr::key_expr::keyexpr::intersects`: whether the
/// two key expressions address a common key, a function of the bytes alone.
#[verifier::external_body]
fn keyexpr_intersects(a: &[u8], b: &[u8]) -> (r: bool)
    requires
        keyexpr_ok(a@),
        keyexpr_ok(b@),
    ensures
        r == ke_intersects(a@, b@),
{
    let a = core::str::from_utf8(a).ok().and_then(|s| {
        zenoh_keyexpr::key_expr::keyexpr::new(s).ok()
    });
    let b = core::str::from_utf8(b).ok().and_then(|s| {
        zenoh_keyexpr::key_expr::keyexpr::new(s).ok()
    });
    match (a, b) {
        (Some(a), Some(b)) => a.intersects(b),
        _ => false,
    }
}

/// Relies on `zenoh_keyexpr::key_expr::keyexpr::join`: the two expressions
/// joined around a separator and autocanonized, a function of the bytes
/// alone.
#[verifier::external_body]
fn keyexpr_join(a: &[u8], b: &[u8]) -> (r: Option<Vec<u8>>)
    requires
        keyexpr_ok(a@),
        keyexpr_ok(b@),
    ensures
        match r {
            Some(v) => ke_join(a@, b@) == Some(v@),
            None => ke_join(a@, b@) is None,
        },
{
    let a = core::str::from_utf8(a).ok().and_then(|s| {
        zenoh_keyexpr::key_expr::keyexpr::new(s).ok()
    })?;
    let b = core::str::from_utf8(b).ok().and_then(|s| {
        zenoh_keyexpr::key_expr::keyexpr::new(s).ok()
    })?;
    match a.join(b.as_str()) {
        Ok(joined) => Some(joined.as_str().as_bytes().to_vec()),
        Err(_) => None,
    }
}

/// Why a key-expression operation was refused.
#[derive(Clone, Copy, PartialEq, Eq, Structural, Debug)]
pub enum KeyExprError {
    /// An operand is not a valid canonical key expression.
    Invalid,
    /// The concatenation would splice a trailing and a leading wildcard.
    WildcardClash,
    /// The joined or concatenated text forms no valid key expression.
    Unjoinable,
}

/// Checks that the bytes form a valid canonical key expression.
pub fn new_key_expr(key_expr: &[u8]) -> (r: Result<(), KeyExprError>)
    ensures
        r is Ok <==> keyexpr_ok(key_expr@),
        r is Err ==> r == Err::<(), KeyExprError>(KeyExprError::Invalid),
{
    if keyexpr_check(key_expr) {
        Ok(())
    } else {
        Err(KeyExprError::Invalid)
    }
}

/// Set inclusion of two key expressions: fails exactly when an operand is
/// invalid, and otherwise reports the fabric's inclusion judgement.
pub fn includes(ke1: &[u8], ke2: &[u8]) -> (r: Result<bool, KeyExprError>)
    ensures
        r is Ok <==> keyexpr_ok(ke1@) && keyexpr_ok(ke2@),
        r matches Ok(v) ==> v == ke_includes(ke1@, ke2@),
        r is Err ==> r == Err::<bool, KeyExprError>(KeyExprError::Invalid),
{
    if !keyexpr_check(ke1) || !keyexpr_check(ke2) {
        return Err(KeyExprError::Invalid);
    }
    Ok(keyexpr_includes(ke1, ke2))
}

/// Intersection of two key expressions: fails exactly when an operand is
/// invalid, and otherwise reports the fabric's intersection judgement.
pub fn intersects(ke1: &[u8], ke2: &[u8]) -> (r: Result<bool, KeyExprError>)
    ensures
        r is Ok <==> keyexpr_ok(ke1@) && keyexpr_ok(ke2@),
        r matches Ok(v) ==> v == ke_intersects(ke1@, ke2@),
        r is Err ==> r == Err::<bool, KeyExprError>(KeyExprError::Invalid),
{
    if !keyexpr_check(ke1) || !keyexpr_check(ke2) {
        return Err(KeyExprError::Invalid);
    }
    Ok(keyexpr_intersects(ke1, ke2))
}

/// Joins two key expressions around a separator, canonizing the result.
pub fn join(ke1: &[u8], ke2: &[u8]) -> (r: Result<Vec<u8>, KeyExprError>)
    ensures
        !(keyexpr_ok(ke1@) && keyexpr_ok(ke2@)) ==> r == Err::<Vec<u8>, KeyExprError>(
            KeyExprError::Invalid,
        ),
        keyexpr_ok(ke1@) && keyexpr_ok(ke2@) ==> match r {
            Ok(v) => ke_join(ke1@, ke2@) == Some(v@),
            Err(e) => ke_join(ke1@, ke2@) is None && e == KeyExprError::Unjoinable,
        },
{
    if !keyexpr_check(ke1) || !keyexpr_check(ke2) {
        return Err(KeyExprError::Invalid);
    }
    match keyexpr_join(ke1, ke2) {
        Some(v) => Ok(v),
        None => Err(KeyExprError::Unjoinable),
    }
}

/// Concatenates two key expressions without a separator. A trailing
/// wildcard against a leading wildcard is refused outright, since the
/// spliced text would address something else than the two parts suggest;
/// otherwise the concatenation must itself be a valid key expression.
pub fn concat(ke1: &[u8], ke2: &[u8]) -> (r: Result<Vec<u8>, KeyExprError>)
    ensures
        ke1@.len() > 0 && ke2@.len() > 0 && ke1@.last() == 42u8 && ke2@[0] == 42u8 ==> r == Err::<
            Vec<u8>,
            KeyExprError,
        >(KeyExprError::WildcardClash),
        !(ke1@.len() > 0 && ke2@.len() > 0 && ke1@.last() == 42u8 && ke2@[0] == 42u8) ==> match r {
            Ok(v) => v@ == ke1@ + ke2@ && keyexpr_ok(ke1@ + ke2@),
            Err(e) => !keyexpr_ok(ke1@ + ke2@) && e == KeyExprError::Invalid,
        },
{
    if ke1.len() > 0 && ke2.len() > 0 && ke1[ke1.len() - 1] == 42 && ke2[0] == 42 {
        return Err(KeyExprError::WildcardClash);
    }
    let mut joined: Vec<u8> = Vec::new();
    let mut i: usize = 0;
    let n1 = ke1.len();
    while i < n1
        invariant
            i <= n1,
            n1 == ke1@.len(),
            joined@ == ke1@.take(i as int),
        decreases n1 - i,
    {
        joined.push(ke1[i]);
        assert(joined@ =~= ke1@.take(i as int + 1));
        i = i + 1;
    }
    proof {
        assert(joined@ =~= ke1@.take(n1 as int) + ke2@.take(0));
    }
    let mut j: usize = 0;
    let n2 = ke2.len();
    while j < n2
        invariant
            j <= n2,
            n2 == ke2@.len(),
            n1 == ke1@.len(),
            joined@ == ke1@.take(n1 as int) + ke2@.take(j as int),
        decreases n2 - j,
    {
        joined.push(ke2[j]);
        assert(joined@ =~= ke1@.take(n1 as int) + ke2@.take(j as int + 1));
        j = j + 1;
    }
    proof {
        assert(joined@ =~= ke1@ + ke2@);
    }
    if keyexpr_check(joined.as_slice()) {
        Ok(joined)
    } else {
        Err(KeyExprError::Invalid)
    }
}

} // verus!
