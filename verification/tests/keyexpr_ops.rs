//! The key-expression helpers: validity, the set algebra, joining and
//! concatenation, all judged by the real fabric key-expression rules.

use zenoh_plugin_remote_api::keyexpr::{includes, intersects, join, new_key_expr, KeyExprError};

#[test]
fn validity() {
    assert_eq!(new_key_expr(b"a/b"), Ok(()));
    assert_eq!(new_key_expr(b"a/**"), Ok(()));
    // An empty chunk is not canonical, and invalid UTF-8 is no text.
    assert_eq!(new_key_expr(b"a//b"), Err(KeyExprError::Invalid));
    assert_eq!(new_key_expr(&[0xff, 0xfe]), Err(KeyExprError::Invalid));
}

#[test]
fn inclusion_and_intersection() {
    assert_eq!(includes(b"a/**", b"a/b"), Ok(true));
    assert_eq!(includes(b"a/b", b"a/**"), Ok(false));
    assert_eq!(intersects(b"a/*", b"*/b"), Ok(true));
    assert_eq!(intersects(b"a/b", b"a/c"), Ok(false));
    assert_eq!(includes(b"a//b", b"a"), Err(KeyExprError::Invalid));
    assert_eq!(intersects(b"a", b"a//b"), Err(KeyExprError::Invalid));
}

#[test]
fn joining() {
    assert_eq!(join(b"a", b"b"), Ok(b"a/b".to_vec()));
    assert_eq!(join(b"a/b", b"c/d"), Ok(b"a/b/c/d".to_vec()));
    assert_eq!(join(b"a//b", b"c"), Err(KeyExprError::Invalid));
}

#[test]
fn concatenation() {
    assert_eq!(zenoh_plugin_remote_api::keyexpr::concat(b"a/b", b"cd"), Ok(b"a/bcd".to_vec()));
    assert_eq!(zenoh_plugin_remote_api::keyexpr::concat(b"a/*", b"*"), Err(KeyExprError::WildcardClash));
    // Splicing produces an empty chunk: no valid key expression.
    assert_eq!(zenoh_plugin_remote_api::keyexpr::concat(b"a/", b"/b"), Err(KeyExprError::Invalid));
}
