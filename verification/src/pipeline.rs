//! The publish pipeline as a state machine: what is pending, what came back, and
//! what to do next.
//!
//! The stages follow one another strictly: validate, bind the site's storage if
//! the descriptor has a site, synchronise each bucket, package and upload the
//! script, expose it on a route or on the subdomain, report. A failure at any
//! stage ends the pipeline; nothing done before it is undone.

use crate::error::{PublishError, PublishErrorView};
use crate::json::subdomain_request;
use crate::route::{route_of, Route, RouteView};
use crate::target::{KvNamespaceView, SiteView, TargetView};
use crate::upload_form::{upload_form, UploadForm, UploadFormView};
use crate::validate::validation;
use vstd::prelude::*;

verus! {

/// What a look at a path on disk found.
#[derive(Debug, Clone, Copy, PartialEq, Eq, Structural)]
pub enum PathKind {
    /// Nothing is there.
    Missing,
    /// Something is there that is no directory.
    File,
    /// A directory.
    Directory,
}

/// Where the pipeline stands: which action it handed out last.
#[derive(Debug, Clone, PartialEq, Eq)]
pub enum Stage {
    /// Nothing has happened yet.
    Start,
    /// The site's storage namespace was asked for.
    BindingSite,
    /// The bucket path of the binding at `index` is being looked at.
    ProbingBucket { index: usize },
    /// The bucket of the binding at `index` is being synchronised.
    SyncingBucket { index: usize },
    /// The script's content was asked for.
    Packaging,
    /// The upload call is under way.
    Uploading,
    /// The route with this pattern is being registered.
    RegisteringRoute { pattern: String },
    /// The account's subdomain is being looked up.
    FindingSubdomain,
    /// The script is being enabled on this subdomain.
    EnablingSubdomain { subdomain: String },
    /// The pipeline has ended, with a report or a failure.
    Finished,
}

/// The mathematical content of a [`Stage`].
pub enum StageView {
    Start,
    BindingSite,
    ProbingBucket { index: int },
    SyncingBucket { index: int },
    Packaging,
    Uploading,
    RegisteringRoute { pattern: Seq<char> },
    FindingSubdomain,
    EnablingSubdomain { subdomain: Seq<char> },
    Finished,
}

impl View for Stage {
    type V = StageView;

    open spec fn view(&self) -> StageView {
        match self {
            Stage::Start => StageView::Start,
            Stage::BindingSite => StageView::BindingSite,
            Stage::ProbingBucket { index } => StageView::ProbingBucket { index: *index as int },
            Stage::SyncingBucket { index } => StageView::SyncingBucket { index: *index as int },
            Stage::Packaging => StageView::Packaging,
            Stage::Uploading => StageView::Uploading,
            Stage::RegisteringRoute { pattern } => StageView::RegisteringRoute {
                pattern: pattern@,
            },
            Stage::FindingSubdomain => StageView::FindingSubdomain,
            Stage::EnablingSubdomain { subdomain } => StageView::EnablingSubdomain {
                subdomain: subdomain@,
            },
            Stage::Finished => StageView::Finished,
        }
    }
}

/// What the outside world answered to the pending action.
#[derive(Debug, Clone, PartialEq, Eq)]
pub enum Event {
    /// The caller starts the pipeline.
    Begin,
    /// The storage namespace for the site's assets exists and has this identifier.
    NamespaceReady { id: String },
    /// The bucket path was looked at.
    PathProbed { kind: PathKind },
    /// The bucket's directory was written into its namespace.
    BucketSynced,
    /// The script was built and this is its content.
    ScriptReady { script: Vec<u8> },
    /// The platform answered a call.
    Responded { status: u16, body: String },
    /// The account's subdomain was looked up; `None` when none is registered.
    SubdomainLooked { subdomain: Option<String> },
    /// The collaborator that carried out the action failed, with these words.
    Failed { message: String },
}

/// The mathematical content of an [`Event`].
pub enum EventView {
    Begin,
    NamespaceReady { id: Seq<char> },
    PathProbed { kind: PathKind },
    BucketSynced,
    ScriptReady { script: Seq<u8> },
    Responded { status: u16, body: Seq<char> },
    SubdomainLooked { subdomain: Option<Seq<char>> },
    Failed { message: Seq<char> },
}

impl View for Event {
    type V = EventView;

    open spec fn view(&self) -> EventView {
        match self {
            Event::Begin => EventView::Begin,
            Event::NamespaceReady { id } => EventView::NamespaceReady { id: id@ },
            Event::PathProbed { kind } => EventView::PathProbed { kind: *kind },
            Event::BucketSynced => EventView::BucketSynced,
            Event::ScriptReady { script } => EventView::ScriptReady { script: script@ },
            Event::Responded { status, body } => EventView::Responded {
                status: *status,
                body: body@,
            },
            Event::SubdomainLooked { subdomain } => EventView::SubdomainLooked {
                subdomain: match subdomain {
                    Some(name) => Some(name@),
                    None => None,
                },
            },
            Event::Failed { message } => EventView::Failed { message: message@ },
        }
    }
}

/// What the caller is to do next.
#[derive(Debug, Clone, PartialEq, Eq)]
pub enum Action {
    /// Get, or create, the storage namespace that serves this purpose for this script.
    ProvisionNamespace { account_id: String, script_name: String, purpose: String, preview: bool },
    /// Look at this path on disk.
    ProbePath { path: String },
    /// Write the directory's files into the namespace.
    SyncDirectory { account_id: String, namespace_id: String, path: String, preview: bool },
    /// Build the script and hand over its content.
    LoadScript,
    /// Send the form to this address with `PUT`.
    UploadScript { url: String, form: UploadForm },
    /// Register the route; one that is registered already is no error.
    RegisterRoute { route: Route },
    /// Look up the subdomain that the account has registered.
    LookupSubdomain { account_id: String },
    /// Send the body to this address with `POST` and this content type.
    EnableSubdomain { url: String, content_type: String, body: String },
    /// The script is published and reachable at `pattern`.
    Report { pattern: String, message: String },
    /// The pipeline stops with this error.
    Fail { error: PublishError },
}

/// The mathematical content of an [`Action`].
pub enum ActionView {
    ProvisionNamespace {
        account_id: Seq<char>,
        script_name: Seq<char>,
        purpose: Seq<char>,
        preview: bool,
    },
    ProbePath { path: Seq<char> },
    SyncDirectory {
        account_id: Seq<char>,
        namespace_id: Seq<char>,
        path: Seq<char>,
        preview: bool,
    },
    LoadScript,
    UploadScript { url: Seq<char>, form: UploadFormView },
    RegisterRoute { route: RouteView },
    LookupSubdomain { account_id: Seq<char> },
    EnableSubdomain { url: Seq<char>, content_type: Seq<char>, body: Seq<char> },
    Report { pattern: Seq<char>, message: Seq<char> },
    Fail { error: PublishErrorView },
}

impl View for Action {
    type V = ActionView;

    open spec fn view(&self) -> ActionView {
        match self {
            Action::ProvisionNamespace {
                account_id,
                script_name,
                purpose,
                preview,
            } => ActionView::ProvisionNamespace {
                account_id: account_id@,
                script_name: script_name@,
                purpose: purpose@,
                preview: *preview,
            },
            Action::ProbePath { path } => ActionView::ProbePath { path: path@ },
            Action::SyncDirectory {
                account_id,
                namespace_id,
                path,
                preview,
            } => ActionView::SyncDirectory {
                account_id: account_id@,
                namespace_id: namespace_id@,
                path: path@,
                preview: *preview,
            },
            Action::LoadScript => ActionView::LoadScript,
            Action::UploadScript { url, form } => ActionView::UploadScript {
                url: url@,
                form: form@,
            },
            Action::RegisterRoute { route } => ActionView::RegisterRoute { route: route@ },
            Action::LookupSubdomain { account_id } => ActionView::LookupSubdomain {
                account_id: account_id@,
            },
            Action::EnableSubdomain { url, content_type, body } => ActionView::EnableSubdomain {
                url: url@,
                content_type: content_type@,
                body: body@,
            },
            Action::Report { pattern, message } => ActionView::Report {
                pattern: pattern@,
                message: message@,
            },
            Action::Fail { error } => ActionView::Fail { error: error@ },
        }
    }
}

/// The next stage and the action that leads there.
pub type Move = (StageView, ActionView);

/// A status that the platform gives to a call that succeeded.
pub open spec fn is_success(status: u16) -> bool {
    200 <= status < 300
}

/// The pipeline ends with this error.
pub open spec fn stop(error: PublishErrorView) -> Move {
    (StageView::Finished, ActionView::Fail { error })
}

/// The event does not answer what was pending.
pub open spec fn out_of_sequence() -> Move {
    stop(PublishErrorView::OutOfSequence)
}

/// A collaborator failed: its words are passed on as they are.
pub open spec fn collaborator_failed(message: Seq<char>) -> Move {
    stop(PublishErrorView::Collaborator { message })
}

/// The binding name under which a script finds its site's assets.
pub open spec fn static_content_name() -> Seq<char> {
    "__STATIC_CONTENT"@
}

/// The binding for a site's assets: the reserved name, the namespace that was
/// provisioned, and the site's bucket.
pub open spec fn static_content_binding(site: SiteView, id: Seq<char>) -> KvNamespaceView {
    KvNamespaceView { binding: static_content_name(), id, bucket: Some(site.bucket) }
}

/// The address of a script on the platform.
pub open spec fn script_url(target: TargetView) -> Seq<char> {
    "https://api.cloudflare.com/client/v4/accounts/"@ + target.account_id + "/workers/scripts/"@
        + target.name
}

/// The address that switches a script's exposure on its subdomain.
pub open spec fn subdomain_url(target: TargetView) -> Seq<char> {
    script_url(target) + "/subdomain"@
}

/// The address at which a script answers on a subdomain.
pub open spec fn subdomain_pattern(name: Seq<char>, subdomain: Seq<char>) -> Seq<char> {
    "https://"@ + name + "."@ + subdomain + ".workers.dev"@
}

/// The sentence that reports where the script was published.
pub open spec fn success_message(pattern: Seq<char>) -> Seq<char> {
    "Successfully published your script to "@ + pattern
}

/// The pipeline ends well: the script is reachable at `pattern`.
pub open spec fn report(pattern: Seq<char>) -> Move {
    (StageView::Finished, ActionView::Report { pattern, message: success_message(pattern) })
}

/// The bucket path of a binding; nothing for a binding without a bucket.
pub open spec fn text_of_bucket(binding: KvNamespaceView) -> Seq<char> {
    match binding.bucket {
        Some(path) => path,
        None => Seq::empty(),
    }
}

/// The index of the first binding at or after `from` that declares a bucket, or
/// the number of bindings if there is none.
pub open spec fn next_bucket(bindings: Seq<KvNamespaceView>, from: int) -> int
    decreases bindings.len() - from,
{
    if 0 <= from < bindings.len() {
        if bindings[from].bucket is Some {
            from
        } else {
            next_bucket(bindings, from + 1)
        }
    } else {
        bindings.len() as int
    }
}

/// Bucket synchronisation from the binding at `from` on: the next binding with
/// a bucket has its path looked at, unless the path is empty, which is an error
/// that comes before any look at the disk. With no bucket left, packaging begins.
pub open spec fn buckets_from(target: TargetView, from: int) -> Move {
    let index = next_bucket(target.kv_namespaces, from);
    if 0 <= index < target.kv_namespaces.len() {
        let path = text_of_bucket(target.kv_namespaces[index]);
        if path.len() == 0 {
            stop(PublishErrorView::BucketPathEmpty)
        } else {
            (StageView::ProbingBucket { index }, ActionView::ProbePath { path })
        }
    } else {
        (StageView::Packaging, ActionView::LoadScript)
    }
}

/// The decision on the bucket of the binding at `index`, given what is at its
/// path. The checks come in this order: the path is not empty, something is
/// there, it is a directory. Only then is the directory synchronised.
pub open spec fn bucket_probed(target: TargetView, index: int, kind: PathKind) -> Move {
    if 0 <= index < target.kv_namespaces.len() && target.kv_namespaces[index].bucket is Some {
        let binding = target.kv_namespaces[index];
        let path = text_of_bucket(binding);
        if path.len() == 0 {
            stop(PublishErrorView::BucketPathEmpty)
        } else {
            match kind {
                PathKind::Missing => stop(PublishErrorView::BucketMissing { path }),
                PathKind::File => stop(PublishErrorView::BucketNotDirectory { path }),
                PathKind::Directory => (
                    StageView::SyncingBucket { index },
                    ActionView::SyncDirectory {
                        account_id: target.account_id,
                        namespace_id: binding.id,
                        path,
                        preview: false,
                    },
                ),
            }
        }
    } else {
        out_of_sequence()
    }
}

/// After the bucket of the binding at `index` was synchronised, the bindings
/// behind it have their turn.
pub open spec fn bucket_synced(target: TargetView, index: int) -> Move {
    if 0 <= index < target.kv_namespaces.len() {
        buckets_from(target, index + 1)
    } else {
        out_of_sequence()
    }
}

/// The request for the storage namespace that holds a site's assets: it is
/// scoped to the account, the script, that purpose and the preview flag.
pub open spec fn site_namespace(target: TargetView, preview: bool) -> ActionView {
    ActionView::ProvisionNamespace {
        account_id: target.account_id,
        script_name: target.name,
        purpose: "site assets"@,
        preview,
    }
}

/// The first move: validate, then provision the site's storage if there is a
/// site, else go on to the buckets.
pub open spec fn begin(target: TargetView) -> Move {
    match validation(target) {
        Err(error) => stop(error),
        Ok(_) => match target.site {
            Some(_) => (StageView::BindingSite, site_namespace(target, false)),
            None => buckets_from(target, 0),
        },
    }
}

/// The descriptor after the site's storage namespace is known: the site's
/// binding is appended. A descriptor without a site stays as it is.
pub open spec fn site_bound(target: TargetView, id: Seq<char>) -> TargetView {
    match target.site {
        Some(site) => target.with_binding(static_content_binding(site, id)),
        None => target,
    }
}

/// The exposure that the descriptor asks for: a route to register, or the
/// account's subdomain, which is looked up first.
pub open spec fn expose(target: TargetView) -> Move {
    if target.workers_dev {
        (StageView::FindingSubdomain, ActionView::LookupSubdomain { account_id: target.account_id })
    } else {
        match route_of(target) {
            Ok(route) => (
                StageView::RegisteringRoute { pattern: route.pattern },
                ActionView::RegisterRoute { route },
            ),
            Err(error) => stop(error),
        }
    }
}

/// The call that enables the script on a subdomain.
pub open spec fn enable_subdomain(target: TargetView, subdomain: Seq<char>) -> Move {
    (
        StageView::EnablingSubdomain { subdomain },
        ActionView::EnableSubdomain {
            url: subdomain_url(target),
            content_type: "application/json"@,
            body: subdomain_request(),
        },
    )
}

/// The subdomain branch of the exposure: the lookup's answer, then the answer
/// to the call that enables the script.
pub open spec fn subdomain_step(target: TargetView, stage: StageView, event: EventView) -> Move {
    match stage {
        StageView::FindingSubdomain => match event {
            EventView::SubdomainLooked { subdomain: Some(subdomain) } => enable_subdomain(
                target,
                subdomain,
            ),
            EventView::SubdomainLooked { subdomain: None } => stop(
                PublishErrorView::SubdomainUnregistered,
            ),
            EventView::Failed { message } => collaborator_failed(message),
            _ => out_of_sequence(),
        },
        StageView::EnablingSubdomain { subdomain } => match event {
            EventView::Responded { status, body } => if is_success(status) {
                report(subdomain_pattern(target.name, subdomain))
            } else {
                stop(PublishErrorView::Remote { status, body })
            },
            EventView::Failed { message } => collaborator_failed(message),
            _ => out_of_sequence(),
        },
        _ => out_of_sequence(),
    }
}

/// Packaging, upload and exposure: the script's content goes into the upload
/// call; only an upload that succeeded is followed by the exposure; the route
/// branch ends with the answer to the registration.
pub open spec fn script_step(target: TargetView, stage: StageView, event: EventView) -> Move {
    match stage {
        StageView::Packaging => match event {
            EventView::ScriptReady { script } => (
                StageView::Uploading,
                ActionView::UploadScript {
                    url: script_url(target),
                    form: upload_form(target, script),
                },
            ),
            EventView::Failed { message } => collaborator_failed(message),
            _ => out_of_sequence(),
        },
        StageView::Uploading => match event {
            EventView::Responded { status, body } => if is_success(status) {
                expose(target)
            } else {
                stop(PublishErrorView::Remote { status, body })
            },
            EventView::Failed { message } => collaborator_failed(message),
            _ => out_of_sequence(),
        },
        StageView::RegisteringRoute { pattern } => match event {
            EventView::Responded { status, body } => if is_success(status) {
                report(pattern)
            } else {
                stop(PublishErrorView::Remote { status, body })
            },
            EventView::Failed { message } => collaborator_failed(message),
            _ => out_of_sequence(),
        },
        StageView::FindingSubdomain | StageView::EnablingSubdomain { .. } => subdomain_step(
            target,
            stage,
            event,
        ),
        _ => out_of_sequence(),
    }
}

/// The descriptor after a step. Only the answer to the provisioning of the
/// site's storage changes it.
pub open spec fn step_target(target: TargetView, stage: StageView, event: EventView) -> TargetView {
    match (stage, event) {
        (StageView::BindingSite, EventView::NamespaceReady { id }) => site_bound(target, id),
        _ => target,
    }
}

/// One step of the pipeline: the stage that follows and the action to carry out.
pub open spec fn step(target: TargetView, stage: StageView, event: EventView) -> Move {
    match stage {
        StageView::Start => match event {
            EventView::Begin => begin(target),
            _ => out_of_sequence(),
        },
        StageView::BindingSite => match event {
            EventView::NamespaceReady { id } => match target.site {
                Some(_) => buckets_from(site_bound(target, id), 0),
                None => out_of_sequence(),
            },
            EventView::Failed { message } => collaborator_failed(message),
            _ => out_of_sequence(),
        },
        StageView::ProbingBucket { index } => match event {
            EventView::PathProbed { kind } => bucket_probed(target, index, kind),
            EventView::Failed { message } => collaborator_failed(message),
            _ => out_of_sequence(),
        },
        StageView::SyncingBucket { index } => match event {
            EventView::BucketSynced => bucket_synced(target, index),
            EventView::Failed { message } => collaborator_failed(message),
            _ => out_of_sequence(),
        },
        StageView::Finished => out_of_sequence(),
        _ => script_step(target, stage, event),
    }
}

} // verus!
