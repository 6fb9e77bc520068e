//! The admin directory record of one client: declares and undeclares are
//! reflected in the snapshot.

use zenoh_plugin_remote_api::admin::{classify_admin_selector, AdminQuery, AdminSpaceClient};

#[test]
fn register_and_unregister_are_reflected() {
    let mut c = AdminSpaceClient::new(b"uuid-1".to_vec(), b"127.0.0.1:55000".to_vec());
    assert_eq!(c.id().as_slice(), b"uuid-1");
    assert_eq!(c.remote_address().as_slice(), b"127.0.0.1:55000");

    c.register_publisher(1, b"a/b".to_vec());
    c.register_publisher(2, b"c/d".to_vec());
    c.register_subscriber(5, b"x/**".to_vec());
    c.register_queryable(9, b"q/*".to_vec());
    c.register_querier(2, b"svc/*".to_vec());
    c.register_liveliness_token(7, b"alive/me".to_vec());

    let pubs = c.publishers();
    assert_eq!(pubs.len(), 2);
    assert!(pubs.contains(&(1, b"a/b".to_vec())));
    assert!(pubs.contains(&(2, b"c/d".to_vec())));
    assert_eq!(c.subscribers().len(), 1);
    assert_eq!(c.queryables().len(), 1);
    assert_eq!(c.queriers().len(), 1);
    assert_eq!(c.liveliness_tokens().len(), 1);

    c.unregister_publisher(1);
    assert_eq!(c.publishers().len(), 1);
    assert!(c.publishers().contains(&(2, b"c/d".to_vec())));
    c.unregister_subscriber(5);
    assert!(c.subscribers().is_empty());

    // Re-registering an id replaces its key expression.
    c.register_queryable(9, b"q/**".to_vec());
    assert_eq!(c.queryables().as_slice(), &[(9, b"q/**".to_vec())]);
}

#[test]
fn admin_selectors_are_classified() {
    assert_eq!(
        classify_admin_selector(b"@/abc/remote-plugin/version"),
        Some(AdminQuery::Version)
    );
    assert_eq!(
        classify_admin_selector(b"@/abc/remote-plugin/config"),
        Some(AdminQuery::Config)
    );
    assert_eq!(
        classify_admin_selector(b"@/abc/remote-plugin/clients"),
        Some(AdminQuery::Clients { uuid: None })
    );
    assert_eq!(
        classify_admin_selector(b"@/abc/remote-plugin/clients/**"),
        Some(AdminQuery::Clients { uuid: None })
    );
    assert_eq!(
        classify_admin_selector(b"@/abc/remote-plugin/clients/deadbeef"),
        Some(AdminQuery::Clients {
            uuid: Some(b"deadbeef".to_vec())
        })
    );
    assert_eq!(classify_admin_selector(b"@/abc/remote-plugin/other"), None);
}
