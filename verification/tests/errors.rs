use wrangler_publish::text::decimal_text;
use wrangler_publish::{build_subdomain_request, PublishError, Route, Target};

#[test]
fn subdomain_request_is_compact_json() {
    assert_eq!(build_subdomain_request(), "{\"enabled\":true}");
}

#[test]
fn decimal_text_writes_numbers() {
    assert_eq!(decimal_text(0), "0");
    assert_eq!(decimal_text(7), "7");
    assert_eq!(decimal_text(10), "10");
    assert_eq!(decimal_text(404), "404");
    assert_eq!(decimal_text(1234), "1234");
    assert_eq!(decimal_text(65535), "65535");
}

#[test]
fn bucket_messages() {
    assert_eq!(
        PublishError::BucketPathEmpty.message(),
        "You need to specify a bucket directory in your wrangler.toml"
    );
    assert_eq!(
        PublishError::BucketMissing { path: "./public".to_string() }.message(),
        "bucket directory \"./public\" does not exist"
    );
    assert_eq!(
        PublishError::BucketNotDirectory { path: "./index.html".to_string() }.message(),
        "bucket \"./index.html\" is not a directory"
    );
}

#[test]
fn remote_message_carries_status_and_body() {
    assert_eq!(
        PublishError::Remote { status: 403, body: "{\"success\":false}".to_string() }.message(),
        "Something went wrong! Status: 403, Details {\"success\":false}"
    );
}

#[test]
fn other_messages() {
    assert_eq!(
        PublishError::Collaborator { message: "namespace limit reached".to_string() }.message(),
        "namespace limit reached"
    );
    assert_eq!(
        PublishError::SubdomainUnregistered.message(),
        "No subdomain is registered for this account; register one before publishing to your subdomain"
    );
    assert_eq!(
        PublishError::OutOfSequence.message(),
        "The event does not answer the pending action"
    );
}

fn target(zone_id: Option<&str>, route: Option<&str>) -> Target {
    Target {
        account_id: "A".to_string(),
        name: "S".to_string(),
        zone_id: zone_id.map(|z| z.to_string()),
        route: route.map(|r| r.to_string()),
        workers_dev: false,
        kv_namespaces: Vec::new(),
        site: None,
    }
}

#[test]
fn route_is_made_from_zone_and_pattern() {
    assert_eq!(
        Route::new(&target(Some("Z"), Some("example.com/*"))),
        Ok(Route {
            zone_id: "Z".to_string(),
            pattern: "example.com/*".to_string(),
            script: "S".to_string()
        })
    );
}

#[test]
fn route_needs_zone_and_pattern() {
    let error = Route::new(&target(None, Some(""))).unwrap_err();
    assert_eq!(
        error.message(),
        "Your wrangler.toml is missing the fields [\"zone_id\", \"route\"] which are required to publish to a route!"
    );
    let error = Route::new(&target(None, Some("example.com/*"))).unwrap_err();
    assert_eq!(
        error.message(),
        "Your wrangler.toml is missing the field [\"zone_id\"] which is required to publish to a route!"
    );
}
