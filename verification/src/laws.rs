//! What holds of the pipeline on every descriptor, in every stage and for every event.

use crate::error::PublishErrorView;
use crate::pipeline::{
    bucket_probed, buckets_from, enable_subdomain, is_success, next_bucket, report, script_url,
    static_content_binding, step, step_target, stop, subdomain_pattern, text_of_bucket,
    ActionView, EventView, PathKind, StageView,
};
use crate::route::{route_of, RouteView};
use crate::target::{text_or_empty, KvNamespaceView, TargetView};
use crate::upload_form::upload_form;
use crate::validate::validation;
use vstd::prelude::*;

verus! {

/// What `next_bucket` finds: no binding between `from` and the result declares
/// a bucket, and the binding at the result does, unless the list has ended.
pub proof fn lemma_next_bucket(bindings: Seq<KvNamespaceView>, from: int)
    requires
        0 <= from <= bindings.len(),
    ensures
        from <= next_bucket(bindings, from) <= bindings.len(),
        forall|j: int| from <= j < next_bucket(bindings, from) ==> (#[trigger] bindings[j]).bucket is None,
        next_bucket(bindings, from) < bindings.len() ==> bindings[next_bucket(
            bindings,
            from,
        )].bucket is Some,
    decreases bindings.len() - from,
{
    if from < bindings.len() && bindings[from].bucket is None {
        lemma_next_bucket(bindings, from + 1);
    }
}

/// A bucket with an empty path is never synchronised: when its turn comes the
/// pipeline ends with the error for an empty path, before any look at the disk,
/// and whatever a look at the disk would have found.
pub proof fn lemma_empty_bucket_path_stops(target: TargetView, index: int, from: int, kind: PathKind)
    requires
        0 <= index < target.kv_namespaces.len(),
        target.kv_namespaces[index].bucket == Some(Seq::<char>::empty()),
        0 <= from <= index,
        forall|j: int| from <= j < index ==> (#[trigger] target.kv_namespaces[j]).bucket is None,
    ensures
        buckets_from(target, from) == stop(PublishErrorView::BucketPathEmpty),
        bucket_probed(target, index, kind) == stop(PublishErrorView::BucketPathEmpty),
{
    lemma_next_bucket(target.kv_namespaces, from);
    let found = next_bucket(target.kv_namespaces, from);
    if found < index {
        assert(target.kv_namespaces[found].bucket is None);
    }
}

/// A bucket path that leads to a file ends the pipeline with the error for what
/// is no directory, which is another error than that for a path where nothing
/// is; nothing is synchronised.
pub proof fn lemma_file_is_no_directory(target: TargetView, index: int, path: Seq<char>)
    requires
        0 <= index < target.kv_namespaces.len(),
        target.kv_namespaces[index].bucket == Some(path),
        path.len() > 0,
    ensures
        bucket_probed(target, index, PathKind::File) == stop(
            PublishErrorView::BucketNotDirectory { path },
        ),
        bucket_probed(target, index, PathKind::Missing) == stop(
            PublishErrorView::BucketMissing { path },
        ),
        bucket_probed(target, index, PathKind::File) != bucket_probed(
            target,
            index,
            PathKind::Missing,
        ),
        bucket_probed(target, index, PathKind::Directory).1 is SyncDirectory,
{
}

/// When the storage namespace for a site is known, the descriptor gains exactly
/// one binding, at the end of its list: the one with the reserved name, that
/// namespace and the site's bucket. Nothing else of the descriptor changes.
pub proof fn lemma_site_binding_appended(target: TargetView, id: Seq<char>)
    requires
        target.site is Some,
    ensures
        ({
            let after = step_target(
                target,
                StageView::BindingSite,
                EventView::NamespaceReady { id },
            );
            &&& after.kv_namespaces.len() == target.kv_namespaces.len() + 1
            &&& after.kv_namespaces.last() == static_content_binding(target.site->0, id)
            &&& after.kv_namespaces.drop_last() == target.kv_namespaces
            &&& after == TargetView { kv_namespaces: after.kv_namespaces, ..target }
        }),
{
    let after = step_target(target, StageView::BindingSite, EventView::NamespaceReady { id });
    assert(after.kv_namespaces.drop_last() =~= target.kv_namespaces);
}

/// A step changes the descriptor only when it answers the provisioning of the
/// site's storage.
pub proof fn lemma_descriptor_changes_only_when_bound(
    target: TargetView,
    stage: StageView,
    event: EventView,
)
    requires
        !(stage is BindingSite && event is NamespaceReady),
    ensures
        step_target(target, stage, event) == target,
{
}

/// A directory is synchronised only in answer to a look at the disk that found
/// a directory, and only for a binding whose bucket path is not empty: the
/// action names that binding's namespace and that path.
pub proof fn lemma_sync_follows_directory_probe(
    target: TargetView,
    stage: StageView,
    event: EventView,
)
    requires
        step(target, stage, event).1 is SyncDirectory,
    ensures
        event == (EventView::PathProbed { kind: PathKind::Directory }),
        stage matches StageView::ProbingBucket { index } && 0 <= index < target.kv_namespaces.len()
            && text_of_bucket(target.kv_namespaces[index]).len() > 0 && step(target, stage, event)
            == (
            StageView::SyncingBucket { index },
            ActionView::SyncDirectory {
                account_id: target.account_id,
                namespace_id: target.kv_namespaces[index].id,
                path: text_of_bucket(target.kv_namespaces[index]),
                preview: false,
            },
        ),
{
}

/// The exposure begins only in answer to an upload that succeeded.
pub proof fn lemma_exposure_follows_upload(target: TargetView, stage: StageView, event: EventView)
    requires
        step(target, stage, event).1 is RegisterRoute || step(target, stage, event).1
            is LookupSubdomain,
    ensures
        stage is Uploading,
        event matches EventView::Responded { status, .. } && is_success(status),
{
}

/// An answer to the upload with a status outside 200 to 299 ends the pipeline
/// with that status and body; no exposure is attempted.
pub proof fn lemma_failed_upload_stops(target: TargetView, status: u16, body: Seq<char>)
    requires
        !(200 <= status < 300),
    ensures
        step(target, StageView::Uploading, EventView::Responded { status, body }) == stop(
            PublishErrorView::Remote { status, body },
        ),
{
}

/// The pipeline has ended exactly when the action is a report or a failure, and
/// once it has ended every further event is refused.
pub proof fn lemma_finished_is_final(target: TargetView, stage: StageView, event: EventView)
    ensures
        step(target, stage, event).0 is Finished <==> (step(target, stage, event).1 is Report
            || step(target, stage, event).1 is Fail),
        stage is Finished ==> step(target, stage, event) == stop(PublishErrorView::OutOfSequence),
{
}

/// A report is the answer to a successful call of the exposure, and to nothing
/// else: the registration of the route, whose pattern it names, or the call
/// that enables the script on the subdomain, whose address it names.
pub proof fn lemma_report_follows_exposure(target: TargetView, stage: StageView, event: EventView)
    requires
        step(target, stage, event).1 is Report,
    ensures
        event matches EventView::Responded { status, .. } && 200 <= status < 300,
        match stage {
            StageView::RegisteringRoute { pattern } => step(target, stage, event) == report(
                pattern,
            ),
            StageView::EnablingSubdomain { subdomain } => step(target, stage, event) == report(
                subdomain_pattern(target.name, subdomain),
            ),
            _ => false,
        },
{
}

/// No action is handed out for a descriptor that validation refuses: the first
/// step ends the pipeline with the list of what is missing.
pub proof fn lemma_validation_comes_first(target: TargetView)
    requires
        validation(target) is Err,
    ensures
        step(target, StageView::Start, EventView::Begin) == stop(validation(target)->Err_0),
{
}

/// A descriptor without a site and without buckets goes from validation
/// straight to packaging.
proof fn lemma_plain_descriptor_starts_with_packaging(target: TargetView)
    requires
        validation(target) is Ok,
        target.site is None,
        forall|i: int|
            0 <= i < target.kv_namespaces.len() ==> (#[trigger] target.kv_namespaces[i]).bucket is None,
    ensures
        step(target, StageView::Start, EventView::Begin) == (
            StageView::Packaging,
            ActionView::LoadScript,
        ),
{
    lemma_next_bucket(target.kv_namespaces, 0);
}

/// From start to end on a subdomain: a valid descriptor in subdomain mode,
/// without site and buckets, whose calls all succeed, is uploaded, enabled on
/// the subdomain that the lookup gave, and reported at
/// `https://{script name}.{subdomain}.workers.dev`. The descriptor stays as it was.
pub proof fn lemma_publish_on_subdomain(
    target: TargetView,
    script: Seq<u8>,
    uploaded: (u16, Seq<char>),
    subdomain: Seq<char>,
    enabled: (u16, Seq<char>),
)
    requires
        validation(target) is Ok,
        target.workers_dev,
        target.site is None,
        forall|i: int|
            0 <= i < target.kv_namespaces.len() ==> (#[trigger] target.kv_namespaces[i]).bucket is None,
        is_success(uploaded.0),
        is_success(enabled.0),
    ensures
        ({
            let first = step(target, StageView::Start, EventView::Begin);
            let second = step(target, first.0, EventView::ScriptReady { script });
            let third = step(
                target,
                second.0,
                EventView::Responded { status: uploaded.0, body: uploaded.1 },
            );
            let fourth = step(
                target,
                third.0,
                EventView::SubdomainLooked { subdomain: Some(subdomain) },
            );
            let fifth = step(
                target,
                fourth.0,
                EventView::Responded { status: enabled.0, body: enabled.1 },
            );
            &&& first.1 == ActionView::LoadScript
            &&& second.1 == (ActionView::UploadScript {
                url: script_url(target),
                form: upload_form(target, script),
            })
            &&& third.1 == (ActionView::LookupSubdomain { account_id: target.account_id })
            &&& fourth == enable_subdomain(target, subdomain)
            &&& fifth == report(subdomain_pattern(target.name, subdomain))
        }),
{
    lemma_plain_descriptor_starts_with_packaging(target);
}

/// From start to end on a route: a valid descriptor in route mode, without site
/// and buckets, whose calls all succeed, is uploaded, has the route of its zone
/// and pattern registered, and is reported at that pattern.
pub proof fn lemma_publish_on_route(
    target: TargetView,
    script: Seq<u8>,
    uploaded: (u16, Seq<char>),
    registered: (u16, Seq<char>),
)
    requires
        validation(target) is Ok,
        !target.workers_dev,
        target.site is None,
        forall|i: int|
            0 <= i < target.kv_namespaces.len() ==> (#[trigger] target.kv_namespaces[i]).bucket is None,
        is_success(uploaded.0),
        is_success(registered.0),
    ensures
        ({
            let first = step(target, StageView::Start, EventView::Begin);
            let second = step(target, first.0, EventView::ScriptReady { script });
            let third = step(
                target,
                second.0,
                EventView::Responded { status: uploaded.0, body: uploaded.1 },
            );
            let fourth = step(
                target,
                third.0,
                EventView::Responded { status: registered.0, body: registered.1 },
            );
            &&& first.1 == ActionView::LoadScript
            &&& second.1 is UploadScript
            &&& third.1 == (ActionView::RegisterRoute {
                route: RouteView {
                    zone_id: text_or_empty(target.zone_id),
                    pattern: text_or_empty(target.route),
                    script: target.name,
                },
            })
            &&& text_or_empty(target.zone_id).len() > 0
            &&& text_or_empty(target.route).len() > 0
            &&& fourth == report(text_or_empty(target.route))
        }),
{
    lemma_plain_descriptor_starts_with_packaging(target);
    lemma_valid_route_descriptor_has_route(target);
}

/// A descriptor in route mode that validation accepts has a route.
pub proof fn lemma_valid_route_descriptor_has_route(target: TargetView)
    requires
        validation(target) is Ok,
        !target.workers_dev,
    ensures
        route_of(target) is Ok,
        text_or_empty(target.zone_id).len() > 0,
        text_or_empty(target.route).len() > 0,
{
}

/// How far a stage is into the pipeline of a descriptor with so many bindings.
pub open spec fn progress(bindings: int, stage: StageView) -> int {
    match stage {
        StageView::Start => 0,
        StageView::BindingSite => 1,
        StageView::ProbingBucket { index } => 2 + 2 * index,
        StageView::SyncingBucket { index } => 3 + 2 * index,
        StageView::Packaging => 2 + 2 * bindings,
        StageView::Uploading => 3 + 2 * bindings,
        StageView::RegisteringRoute { .. } => 4 + 2 * bindings,
        StageView::FindingSubdomain => 4 + 2 * bindings,
        StageView::EnablingSubdomain { .. } => 5 + 2 * bindings,
        StageView::Finished => 6 + 2 * bindings,
    }
}

/// A stage of the buckets names a binding that the descriptor has.
pub open spec fn names_a_binding(bindings: int, stage: StageView) -> bool {
    match stage {
        StageView::ProbingBucket { index } => 0 <= index < bindings,
        StageView::SyncingBucket { index } => 0 <= index < bindings,
        _ => true,
    }
}

/// Every step takes the pipeline further and none takes it back: validation,
/// the site's binding, the buckets in the order of their bindings, packaging,
/// upload, exposure, the end. So a pipeline over a descriptor with n bindings
/// ends after 6 + 2n steps at most.
pub proof fn lemma_pipeline_advances(target: TargetView, stage: StageView, event: EventView)
    requires
        names_a_binding(target.kv_namespaces.len() as int, stage),
        !(stage is Finished),
    ensures
        ({
            let after = step_target(target, stage, event).kv_namespaces.len() as int;
            let next = step(target, stage, event).0;
            &&& names_a_binding(after, next)
            &&& progress(after, next) > progress(target.kv_namespaces.len() as int, stage)
            &&& progress(after, next) <= 6 + 2 * after
        }),
{
    let after = step_target(target, stage, event);
    lemma_next_bucket(after.kv_namespaces, 0);
    match stage {
        StageView::SyncingBucket { index } => {
            lemma_next_bucket(target.kv_namespaces, index + 1);
        },
        _ => {},
    }
}

} // verus!
