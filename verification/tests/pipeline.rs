use wrangler_publish::{
    bind_static_site_contents, build_and_publish_script, build_upload_form, publish,
    publish_to_subdomain, site_namespace_request, sync_bucket, upload_buckets, Action, BindingEntry, Destination, Event,
    Field, KvNamespace, PathKind, PublishError, Route, Site, Stage, Target, UploadForm,
};

fn target(workers_dev: bool) -> Target {
    Target {
        account_id: "A".to_string(),
        name: "S".to_string(),
        zone_id: None,
        route: None,
        workers_dev,
        kv_namespaces: Vec::new(),
        site: None,
    }
}

fn route_target() -> Target {
    let mut t = target(false);
    t.zone_id = Some("Z".to_string());
    t.route = Some("example.com/*".to_string());
    t
}

fn binding(binding: &str, id: &str, bucket: Option<&str>) -> KvNamespace {
    KvNamespace {
        binding: binding.to_string(),
        id: id.to_string(),
        bucket: bucket.map(|b| b.to_string()),
    }
}

fn ok(body: &str) -> Event {
    Event::Responded { status: 200, body: body.to_string() }
}

fn failed(error: PublishError) -> (Stage, Action) {
    (Stage::Finished, Action::Fail { error })
}

#[test]
fn site_binding_is_appended() {
    let mut t = target(true);
    t.kv_namespaces = vec![binding("B", "1", None)];
    let site = Site { bucket: "./public".to_string() };
    bind_static_site_contents(&mut t, &site, "ns-7".to_string());
    assert_eq!(
        t.kv_namespaces,
        vec![binding("B", "1", None), binding("__STATIC_CONTENT", "ns-7", Some("./public"))]
    );
    assert_eq!(t.account_id, "A");
    assert_eq!(t.name, "S");
    assert!(t.workers_dev);
}

#[test]
fn site_binding_is_appended_again_on_a_second_call() {
    let mut t = target(true);
    let site = Site { bucket: "./public".to_string() };
    bind_static_site_contents(&mut t, &site, "ns-7".to_string());
    bind_static_site_contents(&mut t, &site, "ns-7".to_string());
    assert_eq!(
        t.kv_namespaces,
        vec![
            binding("__STATIC_CONTENT", "ns-7", Some("./public")),
            binding("__STATIC_CONTENT", "ns-7", Some("./public"))
        ]
    );
}

#[test]
fn add_kv_namespace_keeps_what_was_there() {
    let mut t = target(true);
    t.add_kv_namespace(binding("B", "1", None));
    t.add_kv_namespace(binding("C", "2", Some("./c")));
    assert_eq!(t.kv_namespaces, vec![binding("B", "1", None), binding("C", "2", Some("./c"))]);
}

#[test]
fn empty_bucket_path_fails_before_any_probe() {
    let mut t = target(true);
    t.kv_namespaces = vec![binding("B", "1", None), binding("C", "2", Some(""))];
    assert_eq!(upload_buckets(&t, 0), failed(PublishError::BucketPathEmpty));
    assert_eq!(upload_buckets(&t, 1), failed(PublishError::BucketPathEmpty));
    assert_eq!(sync_bucket(&t, 1, PathKind::Directory), failed(PublishError::BucketPathEmpty));
    assert_eq!(sync_bucket(&t, 1, PathKind::Missing), failed(PublishError::BucketPathEmpty));
}

#[test]
fn bucket_that_is_a_file_is_not_a_directory() {
    let mut t = target(true);
    t.kv_namespaces = vec![binding("B", "1", Some("./index.html"))];
    assert_eq!(
        sync_bucket(&t, 0, PathKind::File),
        failed(PublishError::BucketNotDirectory { path: "./index.html".to_string() })
    );
}

#[test]
fn bucket_that_is_missing_does_not_exist() {
    let mut t = target(true);
    t.kv_namespaces = vec![binding("B", "1", Some("./public"))];
    assert_eq!(
        sync_bucket(&t, 0, PathKind::Missing),
        failed(PublishError::BucketMissing { path: "./public".to_string() })
    );
}

#[test]
fn bucket_that_is_a_directory_is_synchronised() {
    let mut t = target(true);
    t.kv_namespaces = vec![binding("B", "1", None), binding("C", "2", Some("./public"))];
    assert_eq!(
        sync_bucket(&t, 1, PathKind::Directory),
        (
            Stage::SyncingBucket { index: 1 },
            Action::SyncDirectory {
                account_id: "A".to_string(),
                namespace_id: "2".to_string(),
                path: "./public".to_string(),
                preview: false
            }
        )
    );
}

#[test]
fn sync_of_a_binding_without_bucket_is_out_of_sequence() {
    let mut t = target(true);
    t.kv_namespaces = vec![binding("B", "1", None)];
    assert_eq!(sync_bucket(&t, 0, PathKind::Directory), failed(PublishError::OutOfSequence));
    assert_eq!(sync_bucket(&t, 1, PathKind::Directory), failed(PublishError::OutOfSequence));
}

#[test]
fn upload_buckets_skips_bindings_without_bucket() {
    let mut t = target(true);
    t.kv_namespaces = vec![
        binding("B", "1", None),
        binding("C", "2", Some("./c")),
        binding("D", "3", None),
        binding("E", "4", Some("./e")),
    ];
    assert_eq!(
        upload_buckets(&t, 0),
        (Stage::ProbingBucket { index: 1 }, Action::ProbePath { path: "./c".to_string() })
    );
    assert_eq!(
        upload_buckets(&t, 2),
        (Stage::ProbingBucket { index: 3 }, Action::ProbePath { path: "./e".to_string() })
    );
    assert_eq!(upload_buckets(&t, 4), (Stage::Packaging, Action::LoadScript));
    assert_eq!(upload_buckets(&t, 9), (Stage::Packaging, Action::LoadScript));
}

#[test]
fn upload_buckets_without_bindings_goes_on_to_packaging() {
    assert_eq!(upload_buckets(&target(true), 0), (Stage::Packaging, Action::LoadScript));
}

#[test]
fn upload_form_lists_the_bindings_in_order() {
    let mut t = target(true);
    t.kv_namespaces = vec![binding("B", "1", None), binding("C", "2", Some("./c"))];
    assert_eq!(
        build_upload_form(&t, vec![1, 2, 3]),
        UploadForm {
            script: vec![1, 2, 3],
            metadata: vec![
                BindingEntry { name: "B".to_string(), namespace_id: "1".to_string() },
                BindingEntry { name: "C".to_string(), namespace_id: "2".to_string() }
            ]
        }
    );
}

#[test]
fn upload_form_shows_the_site_binding_after_provisioning() {
    let mut t = target(true);
    let site = Site { bucket: "./public".to_string() };
    bind_static_site_contents(&mut t, &site, "ns-7".to_string());
    assert_eq!(
        build_upload_form(&t, Vec::new()).metadata,
        vec![BindingEntry { name: "__STATIC_CONTENT".to_string(), namespace_id: "ns-7".to_string() }]
    );
}

#[test]
fn end_to_end_on_a_subdomain() {
    let mut t = target(true);
    let (stage, action) = publish(&mut t, Stage::Start, Event::Begin);
    assert_eq!((&stage, &action), (&Stage::Packaging, &Action::LoadScript));
    let (stage, action) = publish(&mut t, stage, Event::ScriptReady { script: b"js".to_vec() });
    assert_eq!(stage, Stage::Uploading);
    assert_eq!(
        action,
        Action::UploadScript {
            url: "https://api.cloudflare.com/client/v4/accounts/A/workers/scripts/S".to_string(),
            form: UploadForm { script: b"js".to_vec(), metadata: Vec::new() }
        }
    );
    let (stage, action) = publish(&mut t, stage, ok(""));
    assert_eq!(stage, Stage::FindingSubdomain);
    assert_eq!(action, Action::LookupSubdomain { account_id: "A".to_string() });
    let (stage, action) =
        publish(&mut t, stage, Event::SubdomainLooked { subdomain: Some("foo".to_string()) });
    assert_eq!(stage, Stage::EnablingSubdomain { subdomain: "foo".to_string() });
    assert_eq!(
        action,
        Action::EnableSubdomain {
            url: "https://api.cloudflare.com/client/v4/accounts/A/workers/scripts/S/subdomain"
                .to_string(),
            content_type: "application/json".to_string(),
            body: "{\"enabled\":true}".to_string()
        }
    );
    let (stage, action) = publish(&mut t, stage, ok("{}"));
    assert_eq!(stage, Stage::Finished);
    assert_eq!(
        action,
        Action::Report {
            pattern: "https://S.foo.workers.dev".to_string(),
            message: "Successfully published your script to https://S.foo.workers.dev".to_string()
        }
    );
}

#[test]
fn end_to_end_on_a_route() {
    let mut t = route_target();
    let (stage, action) = publish(&mut t, Stage::Start, Event::Begin);
    assert_eq!((&stage, &action), (&Stage::Packaging, &Action::LoadScript));
    let (stage, _) = publish(&mut t, stage, Event::ScriptReady { script: Vec::new() });
    let (stage, action) = publish(&mut t, stage, ok(""));
    assert_eq!(stage, Stage::RegisteringRoute { pattern: "example.com/*".to_string() });
    assert_eq!(
        action,
        Action::RegisterRoute {
            route: Route {
                zone_id: "Z".to_string(),
                pattern: "example.com/*".to_string(),
                script: "S".to_string()
            }
        }
    );
    let (stage, action) = publish(&mut t, stage, Event::Responded { status: 201, body: String::new() });
    assert_eq!(stage, Stage::Finished);
    assert_eq!(
        action,
        Action::Report {
            pattern: "example.com/*".to_string(),
            message: "Successfully published your script to example.com/*".to_string()
        }
    );
}

#[test]
fn end_to_end_with_a_site_and_buckets() {
    let mut t = target(true);
    t.site = Some(Site { bucket: "./public".to_string() });
    t.kv_namespaces = vec![binding("B", "1", Some("./b")), binding("C", "2", None)];
    let (stage, action) = publish(&mut t, Stage::Start, Event::Begin);
    assert_eq!(stage, Stage::BindingSite);
    assert_eq!(
        action,
        Action::ProvisionNamespace {
            account_id: "A".to_string(),
            script_name: "S".to_string(),
            purpose: "site assets".to_string(),
            preview: false
        }
    );
    let (stage, action) = publish(&mut t, stage, Event::NamespaceReady { id: "ns-7".to_string() });
    assert_eq!(t.kv_namespaces.len(), 3);
    assert_eq!(t.kv_namespaces[2], binding("__STATIC_CONTENT", "ns-7", Some("./public")));
    assert_eq!(stage, Stage::ProbingBucket { index: 0 });
    assert_eq!(action, Action::ProbePath { path: "./b".to_string() });
    let (stage, action) = publish(&mut t, stage, Event::PathProbed { kind: PathKind::Directory });
    assert_eq!(stage, Stage::SyncingBucket { index: 0 });
    assert_eq!(
        action,
        Action::SyncDirectory {
            account_id: "A".to_string(),
            namespace_id: "1".to_string(),
            path: "./b".to_string(),
            preview: false
        }
    );
    let (stage, action) = publish(&mut t, stage, Event::BucketSynced);
    assert_eq!(stage, Stage::ProbingBucket { index: 2 });
    assert_eq!(action, Action::ProbePath { path: "./public".to_string() });
    let (stage, _) = publish(&mut t, stage, Event::PathProbed { kind: PathKind::Directory });
    let (stage, action) = publish(&mut t, stage, Event::BucketSynced);
    assert_eq!((&stage, &action), (&Stage::Packaging, &Action::LoadScript));
    let (stage, action) = publish(&mut t, stage, Event::ScriptReady { script: vec![7] });
    assert_eq!(stage, Stage::Uploading);
    match action {
        Action::UploadScript { form, .. } => {
            assert_eq!(form.script, vec![7]);
            assert_eq!(
                form.metadata,
                vec![
                    BindingEntry { name: "B".to_string(), namespace_id: "1".to_string() },
                    BindingEntry { name: "C".to_string(), namespace_id: "2".to_string() },
                    BindingEntry {
                        name: "__STATIC_CONTENT".to_string(),
                        namespace_id: "ns-7".to_string()
                    }
                ]
            );
        }
        other => panic!("unexpected action: {:?}", other),
    }
}

#[test]
fn invalid_descriptor_stops_at_the_first_step() {
    let mut t = target(false);
    t.site = Some(Site { bucket: "./public".to_string() });
    assert_eq!(
        publish(&mut t, Stage::Start, Event::Begin),
        failed(PublishError::MissingFields {
            fields: vec![Field::ZoneId, Field::Route],
            destination: Destination::Route
        })
    );
    assert!(t.kv_namespaces.is_empty());
}

#[test]
fn failed_upload_stops_before_exposure() {
    for status in [0u16, 199, 300, 301, 404, 500, 65535] {
        let mut t = route_target();
        assert_eq!(
            publish(&mut t, Stage::Uploading, Event::Responded { status, body: "no".to_string() }),
            failed(PublishError::Remote { status, body: "no".to_string() })
        );
        let mut t = target(true);
        assert_eq!(
            publish(&mut t, Stage::Uploading, Event::Responded { status, body: "no".to_string() }),
            failed(PublishError::Remote { status, body: "no".to_string() })
        );
    }
}

#[test]
fn every_status_from_200_to_299_is_a_success() {
    for status in [200u16, 204, 299] {
        let mut t = target(true);
        let (stage, _) =
            publish(&mut t, Stage::Uploading, Event::Responded { status, body: String::new() });
        assert_eq!(stage, Stage::FindingSubdomain);
    }
}

#[test]
fn failed_route_registration_is_fatal() {
    let t = route_target();
    assert_eq!(
        build_and_publish_script(
            &t,
            Stage::RegisteringRoute { pattern: "example.com/*".to_string() },
            Event::Responded { status: 409, body: "taken".to_string() }
        ),
        failed(PublishError::Remote { status: 409, body: "taken".to_string() })
    );
}

#[test]
fn account_without_subdomain_is_fatal() {
    let t = target(true);
    assert_eq!(
        publish_to_subdomain(&t, Stage::FindingSubdomain, Event::SubdomainLooked { subdomain: None }),
        failed(PublishError::SubdomainUnregistered)
    );
}

#[test]
fn failed_subdomain_call_is_fatal() {
    let t = target(true);
    assert_eq!(
        publish_to_subdomain(
            &t,
            Stage::EnablingSubdomain { subdomain: "foo".to_string() },
            Event::Responded { status: 500, body: "oops".to_string() }
        ),
        failed(PublishError::Remote { status: 500, body: "oops".to_string() })
    );
}

#[test]
fn route_mode_without_route_cannot_be_exposed() {
    let t = target(false);
    assert_eq!(
        build_and_publish_script(&t, Stage::Uploading, ok("")),
        failed(PublishError::MissingFields {
            fields: vec![Field::ZoneId, Field::Route],
            destination: Destination::Route
        })
    );
}

#[test]
fn collaborator_failure_is_passed_on_unchanged() {
    let message = "namespace limit reached".to_string();
    for stage in [
        Stage::BindingSite,
        Stage::ProbingBucket { index: 0 },
        Stage::SyncingBucket { index: 0 },
        Stage::Packaging,
        Stage::Uploading,
        Stage::RegisteringRoute { pattern: "p".to_string() },
        Stage::FindingSubdomain,
        Stage::EnablingSubdomain { subdomain: "foo".to_string() },
    ] {
        let mut t = target(true);
        assert_eq!(
            publish(&mut t, stage, Event::Failed { message: message.clone() }),
            failed(PublishError::Collaborator { message: message.clone() })
        );
    }
}

#[test]
fn events_out_of_sequence_are_refused() {
    let mut t = target(true);
    assert_eq!(publish(&mut t, Stage::Start, Event::BucketSynced), failed(PublishError::OutOfSequence));
    assert_eq!(
        publish(&mut t, Stage::Start, Event::Failed { message: "x".to_string() }),
        failed(PublishError::OutOfSequence)
    );
    assert_eq!(publish(&mut t, Stage::Finished, Event::Begin), failed(PublishError::OutOfSequence));
    assert_eq!(publish(&mut t, Stage::Packaging, ok("")), failed(PublishError::OutOfSequence));
    assert_eq!(publish(&mut t, Stage::Uploading, Event::Begin), failed(PublishError::OutOfSequence));
    assert_eq!(
        publish(&mut t, Stage::BindingSite, Event::NamespaceReady { id: "ns".to_string() }),
        failed(PublishError::OutOfSequence)
    );
    assert!(t.kv_namespaces.is_empty());
    assert_eq!(
        publish(&mut t, Stage::SyncingBucket { index: 0 }, Event::BucketSynced),
        failed(PublishError::OutOfSequence)
    );
    assert_eq!(
        publish_to_subdomain(&t, Stage::Uploading, ok("")),
        failed(PublishError::OutOfSequence)
    );
    assert_eq!(
        build_and_publish_script(&t, Stage::Start, Event::Begin),
        failed(PublishError::OutOfSequence)
    );
}

#[test]
fn bucket_failure_stops_the_pipeline_midway() {
    let mut t = target(true);
    t.kv_namespaces = vec![binding("B", "1", Some("./b")), binding("C", "2", Some("./c"))];
    let (stage, _) = publish(&mut t, Stage::Start, Event::Begin);
    let (stage, _) = publish(&mut t, stage, Event::PathProbed { kind: PathKind::Directory });
    let (stage, action) = publish(&mut t, stage, Event::BucketSynced);
    assert_eq!(stage, Stage::ProbingBucket { index: 1 });
    assert_eq!(action, Action::ProbePath { path: "./c".to_string() });
    assert_eq!(
        publish(&mut t, stage, Event::PathProbed { kind: PathKind::File }),
        failed(PublishError::BucketNotDirectory { path: "./c".to_string() })
    );
}

#[test]
fn site_namespace_request_carries_the_preview_flag() {
    assert_eq!(
        site_namespace_request(&target(true), true),
        Action::ProvisionNamespace {
            account_id: "A".to_string(),
            script_name: "S".to_string(),
            purpose: "site assets".to_string(),
            preview: true
        }
    );
}

#[test]
fn pipeline_ends_within_its_bound_of_steps() {
    let mut t = target(true);
    t.site = Some(Site { bucket: "./public".to_string() });
    t.kv_namespaces = vec![
        binding("B", "1", Some("./b")),
        binding("C", "2", None),
        binding("D", "3", Some("./d")),
    ];
    let mut stage = Stage::Start;
    let mut event = Event::Begin;
    let mut steps = 0;
    let mut actions = Vec::new();
    loop {
        let (next, action) = publish(&mut t, stage, event);
        steps += 1;
        stage = next;
        event = match &action {
            Action::ProvisionNamespace { .. } => Event::NamespaceReady { id: "ns".to_string() },
            Action::ProbePath { .. } => Event::PathProbed { kind: PathKind::Directory },
            Action::SyncDirectory { .. } => Event::BucketSynced,
            Action::LoadScript => Event::ScriptReady { script: Vec::new() },
            Action::UploadScript { .. } => ok(""),
            Action::RegisterRoute { .. } => ok(""),
            Action::LookupSubdomain { .. } => {
                Event::SubdomainLooked { subdomain: Some("foo".to_string()) }
            }
            Action::EnableSubdomain { .. } => ok(""),
            Action::Report { .. } | Action::Fail { .. } => {
                actions.push(action);
                break;
            }
        };
        actions.push(action);
    }
    assert_eq!(stage, Stage::Finished);
    assert_eq!(t.kv_namespaces.len(), 4);
    assert_eq!(steps, 12);
    assert!(steps <= 6 + 2 * t.kv_namespaces.len());
    let synced: Vec<&str> = actions
        .iter()
        .filter_map(|a| match a {
            Action::SyncDirectory { path, .. } => Some(path.as_str()),
            _ => None,
        })
        .collect();
    assert_eq!(synced, vec!["./b", "./d", "./public"]);
    assert_eq!(
        actions.last(),
        Some(&Action::Report {
            pattern: "https://S.foo.workers.dev".to_string(),
            message: "Successfully published your script to https://S.foo.workers.dev".to_string()
        })
    );
}
