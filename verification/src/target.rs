//! The deployment descriptor: what is published, and where to.

use vstd::prelude::*;

verus! {

/// A key/value storage namespace that the script reaches under a binding name.
#[derive(Debug, Clone, PartialEq, Eq)]
pub struct KvNamespace {
    /// The identifier by which the script refers to the namespace.
    pub binding: String,
    /// The identifier that the storage platform gave the namespace.
    pub id: String,
    /// A local directory whose files are mirrored into the namespace.
    pub bucket: Option<String>,
}

/// The mathematical content of a [`KvNamespace`].
pub struct KvNamespaceView {
    pub binding: Seq<char>,
    pub id: Seq<char>,
    pub bucket: Option<Seq<char>>,
}

/// Where the static assets of a site live on disk.
#[derive(Debug, Clone, PartialEq, Eq)]
pub struct Site {
    pub bucket: String,
}

/// The mathematical content of a [`Site`].
pub struct SiteView {
    pub bucket: Seq<char>,
}

/// A deployment descriptor.
///
/// With `workers_dev` set the script is exposed on the account's subdomain and
/// `zone_id` and `route` are unused; otherwise both must be present and non-empty,
/// which validation checks.
#[derive(Debug, Clone, PartialEq, Eq)]
pub struct Target {
    pub account_id: String,
    pub name: String,
    pub zone_id: Option<String>,
    pub route: Option<String>,
    pub workers_dev: bool,
    pub kv_namespaces: Vec<KvNamespace>,
    pub site: Option<Site>,
}

/// The mathematical content of a [`Target`].
pub struct TargetView {
    pub account_id: Seq<char>,
    pub name: Seq<char>,
    pub zone_id: Option<Seq<char>>,
    pub route: Option<Seq<char>>,
    pub workers_dev: bool,
    pub kv_namespaces: Seq<KvNamespaceView>,
    pub site: Option<SiteView>,
}

/// The characters of an optional string.
pub open spec fn optional_text(text: Option<String>) -> Option<Seq<char>> {
    match text {
        Some(s) => Some(s@),
        None => None,
    }
}

/// The characters of an optional string, with nothing for an absent one.
pub open spec fn text_or_empty(text: Option<Seq<char>>) -> Seq<char> {
    match text {
        Some(s) => s,
        None => Seq::empty(),
    }
}

/// The views of a list of bindings, in order.
pub open spec fn bindings_view(bindings: Seq<KvNamespace>) -> Seq<KvNamespaceView> {
    bindings.map_values(|b: KvNamespace| b@)
}

impl View for KvNamespace {
    type V = KvNamespaceView;

    open spec fn view(&self) -> KvNamespaceView {
        KvNamespaceView {
            binding: self.binding@,
            id: self.id@,
            bucket: optional_text(self.bucket),
        }
    }
}

impl View for Site {
    type V = SiteView;

    open spec fn view(&self) -> SiteView {
        SiteView { bucket: self.bucket@ }
    }
}

impl View for Target {
    type V = TargetView;

    open spec fn view(&self) -> TargetView {
        TargetView {
            account_id: self.account_id@,
            name: self.name@,
            zone_id: optional_text(self.zone_id),
            route: optional_text(self.route),
            workers_dev: self.workers_dev,
            kv_namespaces: bindings_view(self.kv_namespaces@),
            site: match self.site {
                Some(site) => Some(site@),
                None => None,
            },
        }
    }
}

impl TargetView {
    /// This descriptor with one more binding at the end of its list.
    pub open spec fn with_binding(self, binding: KvNamespaceView) -> TargetView {
        TargetView { kv_namespaces: self.kv_namespaces.push(binding), ..self }
    }
}

/// Pushing a binding and then viewing the list is viewing it and then pushing the view.
pub proof fn lemma_bindings_view_push(bindings: Seq<KvNamespace>, binding: KvNamespace)
    ensures
        bindings_view(bindings.push(binding)) == bindings_view(bindings).push(binding@),
{
    assert(bindings_view(bindings.push(binding)) =~= bindings_view(bindings).push(binding@));
}

impl Target {
    /// Appends a binding to the descriptor's list. Bindings already present stay,
    /// in their order, also one with the same binding name.
    pub fn add_kv_namespace(&mut self, kv_namespace: KvNamespace)
        ensures
            final(self)@ == old(self)@.with_binding(kv_namespace@),
    {
        proof {
            lemma_bindings_view_push(self.kv_namespaces@, kv_namespace);
        }
        self.kv_namespaces.push(kv_namespace);
    }
}

} // verus!
