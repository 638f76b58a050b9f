//! The decisions of the publish pipeline, one function for each part of it.
//!
//! [`publish`] is the whole pipeline, taken one event at a time. The other
//! functions are its parts and can be used on their own.

use crate::error::PublishError;
use crate::json::build_subdomain_request;
use crate::pipeline::{
    bucket_probed, buckets_from, collaborator_failed, enable_subdomain, is_success, next_bucket,
    out_of_sequence, report, script_step, script_url, site_namespace, static_content_binding,
    step, step_target, stop, subdomain_pattern, subdomain_step, Action, Event, PathKind, Stage,
};
use crate::route::Route;
use crate::target::{KvNamespace, Site, Target};
use crate::upload_form::build_upload_form;
use crate::validate::validate_target_required_fields_present;
use vstd::prelude::*;
use vstd::string::StringExecFns;

verus! {

fn fail(error: PublishError) -> (next: (Stage, Action))
    ensures
        (next.0@, next.1@) == stop(error@),
{
    (Stage::Finished, Action::Fail { error })
}

fn unexpected() -> (next: (Stage, Action))
    ensures
        (next.0@, next.1@) == out_of_sequence(),
{
    fail(PublishError::OutOfSequence)
}

fn passed_on(message: String) -> (next: (Stage, Action))
    ensures
        (next.0@, next.1@) == collaborator_failed(message@),
{
    fail(PublishError::Collaborator { message })
}

fn answered(status: u16) -> (ok: bool)
    ensures
        ok == is_success(status),
{
    200 <= status && status < 300
}

fn published(pattern: String) -> (next: (Stage, Action))
    ensures
        (next.0@, next.1@) == report(pattern@),
{
    let mut message = String::from_str("Successfully published your script to ");
    message.append(pattern.as_str());
    (Stage::Finished, Action::Report { pattern, message })
}

fn script_address(target: &Target) -> (url: String)
    ensures
        url@ == script_url(target@),
{
    let mut url = String::from_str("https://api.cloudflare.com/client/v4/accounts/");
    url.append(target.account_id.as_str());
    url.append("/workers/scripts/");
    url.append(target.name.as_str());
    url
}

/// The request for the storage namespace that holds the assets of the
/// descriptor's site. Publishing asks without the preview flag.
pub fn site_namespace_request(target: &Target, preview: bool) -> (action: Action)
    ensures
        action@ == site_namespace(target@, preview),
{
    Action::ProvisionNamespace {
        account_id: target.account_id.clone(),
        script_name: target.name.clone(),
        purpose: String::from_str("site assets"),
        preview,
    }
}

/// Adds to the descriptor the binding for the static assets of a site: the
/// reserved binding name, the namespace that was provisioned for them, and the
/// site's bucket.
///
/// The binding is appended, always: the bindings that were there stay as they
/// were, also one that already has the reserved name. To call this twice is to
/// have the binding twice.
pub fn bind_static_site_contents(target: &mut Target, site_config: &Site, namespace_id: String)
    ensures
        final(target)@ == old(target)@.with_binding(
            static_content_binding(site_config@, namespace_id@),
        ),
{
    target.add_kv_namespace(
        KvNamespace {
            binding: String::from_str("__STATIC_CONTENT"),
            id: namespace_id,
            bucket: Some(site_config.bucket.clone()),
        },
    );
}

/// Decides how bucket synchronisation goes on from the binding at `from`.
///
/// The first binding from there on that declares a bucket has its path looked
/// at; an empty path ends the pipeline without any look at the disk or call to
/// the platform. With no such binding left, packaging is next.
pub fn upload_buckets(target: &Target, from: usize) -> (next: (Stage, Action))
    ensures
        (next.0@, next.1@) == buckets_from(target@, from as int),
{
    let mut i: usize = from;
    while i < target.kv_namespaces.len()
        invariant
            from <= i,
            next_bucket(target@.kv_namespaces, from as int) == next_bucket(
                target@.kv_namespaces,
                i as int,
            ),
        decreases target.kv_namespaces.len() - i,
    {
        let kv: &KvNamespace = &target.kv_namespaces[i];
        assert(target@.kv_namespaces[i as int] == kv@);
        match &kv.bucket {
            Some(path) => {
                if path.as_str().is_empty() {
                    return fail(PublishError::BucketPathEmpty);
                }
                return (Stage::ProbingBucket { index: i }, Action::ProbePath { path: path.clone() });
            },
            None => {},
        }
        i += 1;
    }
    (Stage::Packaging, Action::LoadScript)
}

/// Decides on the bucket of the binding at `index`, given what is at its path.
///
/// The checks come in order, each with an error of its own: the path is not
/// empty, something exists there, it is a directory. Only a directory is
/// synchronised.
pub fn sync_bucket(target: &Target, index: usize, kind: PathKind) -> (next: (Stage, Action))
    ensures
        (next.0@, next.1@) == bucket_probed(target@, index as int, kind),
{
    if index >= target.kv_namespaces.len() {
        return unexpected();
    }
    let kv: &KvNamespace = &target.kv_namespaces[index];
    assert(target@.kv_namespaces[index as int] == kv@);
    match &kv.bucket {
        None => unexpected(),
        Some(path) => {
            if path.as_str().is_empty() {
                return fail(PublishError::BucketPathEmpty);
            }
            match kind {
                PathKind::Missing => fail(PublishError::BucketMissing { path: path.clone() }),
                PathKind::File => fail(PublishError::BucketNotDirectory { path: path.clone() }),
                PathKind::Directory => (
                    Stage::SyncingBucket { index },
                    Action::SyncDirectory {
                        account_id: target.account_id.clone(),
                        namespace_id: kv.id.clone(),
                        path: path.clone(),
                        preview: false,
                    },
                ),
            }
        },
    }
}

/// Takes the subdomain branch of the exposure one event further.
///
/// A subdomain that the lookup found leads to the call that enables the script
/// on it; an account without a subdomain ends the pipeline. A successful answer
/// to that call ends it with the script's address on the subdomain.
pub fn publish_to_subdomain(target: &Target, stage: Stage, event: Event) -> (next: (Stage, Action))
    ensures
        (next.0@, next.1@) == subdomain_step(target@, stage@, event@),
{
    match stage {
        Stage::FindingSubdomain => match event {
            Event::SubdomainLooked { subdomain: Some(subdomain) } => {
                let mut url = script_address(target);
                url.append("/subdomain");
                let action = Action::EnableSubdomain {
                    url,
                    content_type: String::from_str("application/json"),
                    body: build_subdomain_request(),
                };
                assert(action@ == enable_subdomain(target@, subdomain@).1);
                (Stage::EnablingSubdomain { subdomain }, action)
            },
            Event::SubdomainLooked { subdomain: None } => fail(PublishError::SubdomainUnregistered),
            Event::Failed { message } => passed_on(message),
            _ => unexpected(),
        },
        Stage::EnablingSubdomain { subdomain } => match event {
            Event::Responded { status, body } => {
                if answered(status) {
                    let mut pattern = String::from_str("https://");
                    pattern.append(target.name.as_str());
                    pattern.append(".");
                    pattern.append(subdomain.as_str());
                    pattern.append(".workers.dev");
                    assert(pattern@ == subdomain_pattern(target@.name, subdomain@));
                    published(pattern)
                } else {
                    fail(PublishError::Remote { status, body })
                }
            },
            Event::Failed { message } => passed_on(message),
            _ => unexpected(),
        },
        _ => unexpected(),
    }
}

/// Takes packaging, upload and exposure one event further.
///
/// The script's content goes into the upload call together with the bindings
/// that the descriptor holds at that moment. An answer to the upload with a
/// status outside 200 to 299 ends the pipeline, and no exposure is attempted.
/// After a successful upload the descriptor's mode chooses the exposure: the
/// route is registered, or the account's subdomain is looked up.
pub fn build_and_publish_script(target: &Target, stage: Stage, event: Event) -> (next: (
    Stage,
    Action,
))
    ensures
        (next.0@, next.1@) == script_step(target@, stage@, event@),
{
    match stage {
        Stage::Packaging => match event {
            Event::ScriptReady { script } => {
                let url = script_address(target);
                let form = build_upload_form(target, script);
                (Stage::Uploading, Action::UploadScript { url, form })
            },
            Event::Failed { message } => passed_on(message),
            _ => unexpected(),
        },
        Stage::Uploading => match event {
            Event::Responded { status, body } => {
                if !answered(status) {
                    return fail(PublishError::Remote { status, body });
                }
                if target.workers_dev {
                    (
                        Stage::FindingSubdomain,
                        Action::LookupSubdomain { account_id: target.account_id.clone() },
                    )
                } else {
                    match Route::new(target) {
                        Ok(route) => (
                            Stage::RegisteringRoute { pattern: route.pattern.clone() },
                            Action::RegisterRoute { route },
                        ),
                        Err(error) => fail(error),
                    }
                }
            },
            Event::Failed { message } => passed_on(message),
            _ => unexpected(),
        },
        Stage::RegisteringRoute { pattern } => match event {
            Event::Responded { status, body } => {
                if answered(status) {
                    published(pattern)
                } else {
                    fail(PublishError::Remote { status, body })
                }
            },
            Event::Failed { message } => passed_on(message),
            _ => unexpected(),
        },
        Stage::FindingSubdomain => publish_to_subdomain(target, Stage::FindingSubdomain, event),
        Stage::EnablingSubdomain { subdomain } => publish_to_subdomain(
            target,
            Stage::EnablingSubdomain { subdomain },
            event,
        ),
        _ => unexpected(),
    }
}

/// Takes the publish pipeline one event further.
///
/// The caller starts with [`Stage::Start`] and [`Event::Begin`], carries out the
/// action that comes back, and calls again with the stage that came back and
/// the event that tells how the action went, until the stage is
/// [`Stage::Finished`]. The descriptor is validated before any action is handed
/// out. It changes at one point only: when the site's storage namespace is
/// known, the site's binding is appended to it.
///
/// An event that does not answer the pending action ends the pipeline.
pub fn publish(target: &mut Target, stage: Stage, event: Event) -> (next: (Stage, Action))
    ensures
        final(target)@ == step_target(old(target)@, stage@, event@),
        (next.0@, next.1@) == step(old(target)@, stage@, event@),
{
    match stage {
        Stage::Start => match event {
            Event::Begin => {
                match validate_target_required_fields_present(target) {
                    Err(error) => fail(error),
                    Ok(_) => match &target.site {
                        Some(_) => (Stage::BindingSite, site_namespace_request(target, false)),
                        None => upload_buckets(target, 0),
                    },
                }
            },
            _ => unexpected(),
        },
        Stage::BindingSite => match event {
            Event::NamespaceReady { id } => {
                let site_config = match &target.site {
                    Some(site) => Some(Site { bucket: site.bucket.clone() }),
                    None => None,
                };
                match site_config {
                    Some(site_config) => {
                        bind_static_site_contents(target, &site_config, id);
                        upload_buckets(target, 0)
                    },
                    None => unexpected(),
                }
            },
            Event::Failed { message } => passed_on(message),
            _ => unexpected(),
        },
        Stage::ProbingBucket { index } => match event {
            Event::PathProbed { kind } => sync_bucket(target, index, kind),
            Event::Failed { message } => passed_on(message),
            _ => unexpected(),
        },
        Stage::SyncingBucket { index } => match event {
            Event::BucketSynced => {
                if index < target.kv_namespaces.len() {
                    upload_buckets(target, index + 1)
                } else {
                    unexpected()
                }
            },
            Event::Failed { message } => passed_on(message),
            _ => unexpected(),
        },
        Stage::Finished => unexpected(),
        Stage::Packaging => build_and_publish_script(target, Stage::Packaging, event),
        Stage::Uploading => build_and_publish_script(target, Stage::Uploading, event),
        Stage::RegisteringRoute { pattern } => build_and_publish_script(
            target,
            Stage::RegisteringRoute { pattern },
            event,
        ),
        Stage::FindingSubdomain => build_and_publish_script(target, Stage::FindingSubdomain, event),
        Stage::EnablingSubdomain { subdomain } => build_and_publish_script(
            target,
            Stage::EnablingSubdomain { subdomain },
            event,
        ),
    }
}

} // verus!
