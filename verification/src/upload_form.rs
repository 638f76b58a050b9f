//! The payload of the upload call: the script and the bindings it is to see.

use crate::target::{KvNamespace, KvNamespaceView, Target, TargetView};
use vstd::prelude::*;

verus! {

/// One line of the upload's metadata: a binding name and the namespace behind it.
#[derive(Debug, Clone, PartialEq, Eq)]
pub struct BindingEntry {
    pub name: String,
    pub namespace_id: String,
}

/// The mathematical content of a [`BindingEntry`].
pub struct BindingEntryView {
    pub name: Seq<char>,
    pub namespace_id: Seq<char>,
}

impl View for BindingEntry {
    type V = BindingEntryView;

    open spec fn view(&self) -> BindingEntryView {
        BindingEntryView { name: self.name@, namespace_id: self.namespace_id@ }
    }
}

/// What one upload call carries. It is built for that call and not kept.
#[derive(Debug, Clone, PartialEq, Eq)]
pub struct UploadForm {
    /// The script's content.
    pub script: Vec<u8>,
    /// The bindings that the metadata names, in the descriptor's order.
    pub metadata: Vec<BindingEntry>,
}

/// The mathematical content of an [`UploadForm`].
pub struct UploadFormView {
    pub script: Seq<u8>,
    pub metadata: Seq<BindingEntryView>,
}

/// The views of a list of entries, in order.
pub open spec fn entries_view(entries: Seq<BindingEntry>) -> Seq<BindingEntryView> {
    entries.map_values(|e: BindingEntry| e@)
}

impl View for UploadForm {
    type V = UploadFormView;

    open spec fn view(&self) -> UploadFormView {
        UploadFormView { script: self.script@, metadata: entries_view(self.metadata@) }
    }
}

/// The metadata line of a binding.
pub open spec fn entry_of(binding: KvNamespaceView) -> BindingEntryView {
    BindingEntryView { name: binding.binding, namespace_id: binding.id }
}

/// The form for a descriptor and a script: the script as it is, and one metadata
/// line for each binding that the descriptor holds now, in order.
pub open spec fn upload_form(target: TargetView, script: Seq<u8>) -> UploadFormView {
    UploadFormView {
        script,
        metadata: target.kv_namespaces.map_values(|b: KvNamespaceView| entry_of(b)),
    }
}

/// A binding added to the descriptor shows as the last line of the metadata of a
/// form built afterwards; the lines before it are those of a form built before.
pub proof fn lemma_form_follows_bindings(
    target: TargetView,
    binding: KvNamespaceView,
    script: Seq<u8>,
)
    ensures
        upload_form(target.with_binding(binding), script).metadata == upload_form(
            target,
            script,
        ).metadata.push(entry_of(binding)),
        upload_form(target.with_binding(binding), script).script == script,
{
    assert(upload_form(target.with_binding(binding), script).metadata =~= upload_form(
        target,
        script,
    ).metadata.push(entry_of(binding)));
}

/// Builds the upload form from the descriptor as it stands and the script's content.
pub fn build_upload_form(target: &Target, script: Vec<u8>) -> (form: UploadForm)
    ensures
        form@ == upload_form(target@, script@),
{
    let mut metadata: Vec<BindingEntry> = Vec::new();
    let mut i: usize = 0;
    while i < target.kv_namespaces.len()
        invariant
            i <= target.kv_namespaces.len(),
            metadata@.len() == i,
            entries_view(metadata@) == target@.kv_namespaces.take(i as int).map_values(
                |b: KvNamespaceView| entry_of(b),
            ),
        decreases target.kv_namespaces.len() - i,
    {
        let kv: &KvNamespace = &target.kv_namespaces[i];
        let entry = BindingEntry { name: kv.binding.clone(), namespace_id: kv.id.clone() };
        let ghost before = metadata@;
        metadata.push(entry);
        proof {
            assert(target@.kv_namespaces[i as int] == kv@);
            assert(metadata@ == before.push(entry));
            assert(entries_view(metadata@) =~= entries_view(before).push(entry@));
            assert(entries_view(metadata@) =~= target@.kv_namespaces.take(i + 1).map_values(
                |b: KvNamespaceView| entry_of(b),
            ));
        }
        i += 1;
    }
    assert(target@.kv_namespaces.take(i as int) =~= target@.kv_namespaces);
    UploadForm { script, metadata }
}

} // verus!
