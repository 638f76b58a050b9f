//! Publishing a script to a serverless platform, as a sequence of verified decisions.
//!
//! The crate performs no I/O. A caller owns the transport and the filesystem: it
//! feeds [`publish`] one [`Event`] at a time and carries out the [`Action`] that
//! comes back, until the action is a report or a failure.
//!
//! Every decision has a mathematical statement in [`pipeline`] and
//! [`validate`], which the functions are proved to follow; [`laws`] holds what
//! follows from those statements for every descriptor, stage and event.

pub mod error;
pub mod json;
pub mod laws;
pub mod pipeline;
pub mod publish;
pub mod route;
pub mod target;
pub mod text;
pub mod upload_form;
pub mod validate;

pub use error::{Destination, Field, PublishError, PublishErrorView};
pub use json::build_subdomain_request;
pub use pipeline::{Action, ActionView, Event, EventView, PathKind, Stage, StageView};
pub use publish::{
    bind_static_site_contents, build_and_publish_script, publish, publish_to_subdomain,
    site_namespace_request, sync_bucket, upload_buckets,
};
pub use route::{Route, RouteView};
pub use target::{KvNamespace, KvNamespaceView, Site, SiteView, Target, TargetView};
pub use upload_form::{build_upload_form, BindingEntry, BindingEntryView, UploadForm, UploadFormView};
pub use validate::validate_target_required_fields_present;
