//! The check that a descriptor holds every field its destination needs.
//!
//! Validation looks at all requirements and reports every field that is missing,
//! never only the first. It touches neither the network nor the disk.

use crate::error::{Destination, Field, PublishError, PublishErrorView};
use crate::target::{bindings_view, text_or_empty, KvNamespaceView, Target, TargetView};
use vstd::prelude::*;

verus! {

/// The field, if it is missing.
pub open spec fn gap(missing: bool, field: Field) -> Seq<Field> {
    if missing {
        seq![field]
    } else {
        Seq::empty()
    }
}

/// What one binding lacks: its binding name, then its namespace identifier.
pub open spec fn binding_gaps(binding: KvNamespaceView) -> Seq<Field> {
    gap(binding.binding.len() == 0, Field::KvNamespaceBinding) + gap(
        binding.id.len() == 0,
        Field::KvNamespaceId,
    )
}

/// What the bindings lack, binding by binding in their order.
pub open spec fn bindings_gaps(bindings: Seq<KvNamespaceView>) -> Seq<Field>
    decreases bindings.len(),
{
    if bindings.len() == 0 {
        Seq::empty()
    } else {
        bindings_gaps(bindings.drop_last()) + binding_gaps(bindings.last())
    }
}

/// What exposure on a route needs and the descriptor lacks: the zone, then the
/// route pattern. An absent field counts as an empty one.
pub open spec fn route_requirements(target: TargetView) -> Seq<Field> {
    gap(text_or_empty(target.zone_id).len() == 0, Field::ZoneId) + gap(
        text_or_empty(target.route).len() == 0,
        Field::Route,
    )
}

/// What the destination adds to the missing fields. Exposure on a subdomain
/// needs neither zone nor route.
pub open spec fn route_gaps(target: TargetView) -> Seq<Field> {
    if target.workers_dev {
        Seq::empty()
    } else {
        route_requirements(target)
    }
}

/// Every field that the descriptor lacks: account, script name, the bindings'
/// fields, then what the destination adds.
pub open spec fn missing_fields(target: TargetView) -> Seq<Field> {
    gap(target.account_id.len() == 0, Field::AccountId) + gap(target.name.len() == 0, Field::Name)
        + bindings_gaps(target.kv_namespaces) + route_gaps(target)
}

/// The destination that the descriptor asks for.
pub open spec fn destination_of(target: TargetView) -> Destination {
    if target.workers_dev {
        Destination::Subdomain
    } else {
        Destination::Route
    }
}

/// The decision on a descriptor: accepted when nothing is missing, else one error
/// that lists all that is.
pub open spec fn validation(target: TargetView) -> Result<(), PublishErrorView> {
    if missing_fields(target).len() == 0 {
        Ok(())
    } else {
        Err(
            PublishErrorView::MissingFields {
                fields: missing_fields(target),
                destination: destination_of(target),
            },
        )
    }
}

/// An outcome with the error taken by its view.
pub open spec fn outcome_view(outcome: Result<(), PublishError>) -> Result<(), PublishErrorView> {
    match outcome {
        Ok(()) => Ok(()),
        Err(error) => Err(error@),
    }
}

/// Checks that the descriptor holds every field that its destination needs.
///
/// Accepts the descriptor exactly when nothing is missing. Otherwise the one
/// error lists every missing field and names the destination.
pub fn validate_target_required_fields_present(target: &Target) -> (outcome: Result<
    (),
    PublishError,
>)
    ensures
        outcome_view(outcome) == validation(target@),
{
    let mut missing: Vec<Field> = Vec::new();
    if target.account_id.as_str().is_empty() {
        missing.push(Field::AccountId);
    }
    if target.name.as_str().is_empty() {
        missing.push(Field::Name);
    }
    let ghost head = missing@;
    assert(head =~= gap(target@.account_id.len() == 0, Field::AccountId) + gap(
        target@.name.len() == 0,
        Field::Name,
    ));
    let ghost bindings = bindings_view(target.kv_namespaces@);
    let mut i: usize = 0;
    while i < target.kv_namespaces.len()
        invariant
            i <= target.kv_namespaces.len(),
            bindings == bindings_view(target.kv_namespaces@),
            missing@ == head + bindings_gaps(bindings.take(i as int)),
        decreases target.kv_namespaces.len() - i,
    {
        let kv = &target.kv_namespaces[i];
        let ghost before = missing@;
        if kv.binding.as_str().is_empty() {
            missing.push(Field::KvNamespaceBinding);
        }
        if kv.id.as_str().is_empty() {
            missing.push(Field::KvNamespaceId);
        }
        proof {
            let next = bindings.take(i + 1);
            assert(next.drop_last() =~= bindings.take(i as int));
            assert(next.last() == kv@);
            assert(missing@ =~= before + binding_gaps(kv@));
            assert(missing@ =~= head + bindings_gaps(next));
        }
        i += 1;
    }
    assert(bindings.take(i as int) =~= bindings);
    let ghost middle = missing@;
    let destination = if !target.workers_dev {
        let zone_missing = match &target.zone_id {
            Some(zone) => zone.as_str().is_empty(),
            None => true,
        };
        if zone_missing {
            missing.push(Field::ZoneId);
        }
        let route_missing = match &target.route {
            Some(route) => route.as_str().is_empty(),
            None => true,
        };
        if route_missing {
            missing.push(Field::Route);
        }
        Destination::Route
    } else {
        Destination::Subdomain
    };
    assert(missing@ =~= middle + route_gaps(target@));
    assert(missing@ =~= missing_fields(target@));
    if missing.len() == 0 {
        Ok(())
    } else {
        Err(PublishError::MissingFields { fields: missing, destination })
    }
}

/// A binding with a binding name and a namespace identifier.
pub open spec fn binding_complete(binding: KvNamespaceView) -> bool {
    binding.binding.len() > 0 && binding.id.len() > 0
}

/// What a descriptor must hold to be published: an account, a script name,
/// complete bindings, and for exposure on a route a zone and a route pattern.
pub open spec fn well_formed(target: TargetView) -> bool {
    &&& target.account_id.len() > 0
    &&& target.name.len() > 0
    &&& forall|i: int|
        0 <= i < target.kv_namespaces.len() ==> binding_complete(#[trigger] target.kv_namespaces[i])
    &&& !target.workers_dev ==> text_or_empty(target.zone_id).len() > 0 && text_or_empty(
        target.route,
    ).len() > 0
}

proof fn lemma_bindings_gaps_empty(bindings: Seq<KvNamespaceView>)
    ensures
        bindings_gaps(bindings).len() == 0 <==> forall|i: int|
            0 <= i < bindings.len() ==> binding_complete(#[trigger] bindings[i]),
    decreases bindings.len(),
{
    if bindings.len() > 0 {
        let front = bindings.drop_last();
        lemma_bindings_gaps_empty(front);
        assert(forall|i: int| 0 <= i < front.len() ==> front[i] == bindings[i]);
        assert(bindings.last() == bindings[bindings.len() - 1]);
        if bindings_gaps(bindings).len() == 0 {
            assert forall|i: int| 0 <= i < bindings.len() implies binding_complete(
                #[trigger] bindings[i],
            ) by {
                if i < front.len() {
                    assert(binding_complete(front[i]));
                }
            }
        }
        if forall|i: int| 0 <= i < bindings.len() ==> binding_complete(#[trigger] bindings[i]) {
            assert forall|i: int| 0 <= i < front.len() implies binding_complete(
                #[trigger] front[i],
            ) by {
                assert(binding_complete(bindings[i]));
            }
        }
    }
}

/// Validation accepts a descriptor exactly when it is well formed.
pub proof fn lemma_accepted_iff_well_formed(target: TargetView)
    ensures
        validation(target) is Ok <==> well_formed(target),
{
    lemma_bindings_gaps_empty(target.kv_namespaces);
}

/// A descriptor for a subdomain with account, script name and complete bindings
/// is accepted, whatever its zone and route hold.
pub proof fn lemma_complete_subdomain_descriptor_is_accepted(target: TargetView)
    requires
        target.workers_dev,
        target.account_id.len() > 0,
        target.name.len() > 0,
        forall|i: int|
            0 <= i < target.kv_namespaces.len() ==> binding_complete(#[trigger] target.kv_namespaces[i]),
    ensures
        validation(target) == Ok::<(), PublishErrorView>(()),
{
    lemma_accepted_iff_well_formed(target);
}

/// A descriptor for a route that lacks zone and route pattern and nothing else
/// is refused with exactly these two fields, in this order, for a route.
pub proof fn lemma_route_descriptor_without_zone_and_route(target: TargetView)
    requires
        !target.workers_dev,
        target.account_id.len() > 0,
        target.name.len() > 0,
        forall|i: int|
            0 <= i < target.kv_namespaces.len() ==> binding_complete(#[trigger] target.kv_namespaces[i]),
        text_or_empty(target.zone_id).len() == 0,
        text_or_empty(target.route).len() == 0,
    ensures
        validation(target) == Err::<(), PublishErrorView>(
            PublishErrorView::MissingFields {
                fields: seq![Field::ZoneId, Field::Route],
                destination: Destination::Route,
            },
        ),
{
    lemma_bindings_gaps_empty(target.kv_namespaces);
    assert(missing_fields(target) =~= seq![Field::ZoneId, Field::Route]);
}

/// The number of bindings without a binding name.
pub open spec fn unnamed_bindings(bindings: Seq<KvNamespaceView>) -> nat {
    bindings.filter(|b: KvNamespaceView| b.binding.len() == 0).len()
}

/// The number of bindings without a namespace identifier.
pub open spec fn unidentified_bindings(bindings: Seq<KvNamespaceView>) -> nat {
    bindings.filter(|b: KvNamespaceView| b.id.len() == 0).len()
}

/// How often a field stands in a list.
pub open spec fn occurrences(fields: Seq<Field>, field: Field) -> nat {
    fields.filter(|f: Field| f == field).len()
}

/// Counting in a concatenation is counting in both parts.
proof fn lemma_occurrences_add(left: Seq<Field>, right: Seq<Field>, field: Field)
    ensures
        occurrences(left + right, field) == occurrences(left, field) + occurrences(right, field),
{
    Seq::filter_distributes_over_add(left, right, |f: Field| f == field);
}

proof fn lemma_occurrences_gap(missing: bool, listed: Field, field: Field)
    ensures
        occurrences(gap(missing, listed), field) == if missing && listed == field {
            1nat
        } else {
            0nat
        },
{
    let pred = |f: Field| f == field;
    if missing {
        let one = seq![listed];
        assert(one.drop_last() =~= Seq::<Field>::empty());
        reveal_with_fuel(Seq::filter, 2);
        assert(Seq::<Field>::empty().filter(pred) =~= Seq::<Field>::empty());
        assert(one.filter(pred).len() == if pred(listed) { 1nat } else { 0nat });
    } else {
        assert(Seq::<Field>::empty().filter(pred) =~= Seq::<Field>::empty());
    }
}

proof fn lemma_bindings_gaps_occurrences(bindings: Seq<KvNamespaceView>, field: Field)
    ensures
        occurrences(bindings_gaps(bindings), field) == if field == Field::KvNamespaceBinding {
            unnamed_bindings(bindings)
        } else if field == Field::KvNamespaceId {
            unidentified_bindings(bindings)
        } else {
            0nat
        },
    decreases bindings.len(),
{
    let unnamed = |b: KvNamespaceView| b.binding.len() == 0;
    let unidentified = |b: KvNamespaceView| b.id.len() == 0;
    if bindings.len() == 0 {
        assert(Seq::<Field>::empty().filter(|f: Field| f == field) =~= Seq::<Field>::empty());
        assert(bindings.filter(unnamed) =~= Seq::<KvNamespaceView>::empty());
        assert(bindings.filter(unidentified) =~= Seq::<KvNamespaceView>::empty());
    } else {
        let front = bindings.drop_last();
        let last = bindings.last();
        lemma_bindings_gaps_occurrences(front, field);
        lemma_occurrences_add(bindings_gaps(front), binding_gaps(last), field);
        lemma_occurrences_add(
            gap(last.binding.len() == 0, Field::KvNamespaceBinding),
            gap(last.id.len() == 0, Field::KvNamespaceId),
            field,
        );
        lemma_occurrences_gap(last.binding.len() == 0, Field::KvNamespaceBinding, field);
        lemma_occurrences_gap(last.id.len() == 0, Field::KvNamespaceId, field);
        assert(bindings =~= front.push(last));
        front.lemma_filter_len_push(unnamed, last);
        front.lemma_filter_len_push(unidentified, last);
    }
}

/// How often validation is to report a field: once for each requirement on it
/// that the descriptor does not meet.
pub open spec fn expected_reports(target: TargetView, field: Field) -> nat {
    match field {
        Field::AccountId => if target.account_id.len() == 0 {
            1
        } else {
            0
        },
        Field::Name => if target.name.len() == 0 {
            1
        } else {
            0
        },
        Field::KvNamespaceBinding => unnamed_bindings(target.kv_namespaces),
        Field::KvNamespaceId => unidentified_bindings(target.kv_namespaces),
        Field::ZoneId => if !target.workers_dev && text_or_empty(target.zone_id).len() == 0 {
            1
        } else {
            0
        },
        Field::Route => if !target.workers_dev && text_or_empty(target.route).len() == 0 {
            1
        } else {
            0
        },
    }
}

/// The list of missing fields names each field exactly as often as the
/// descriptor fails a requirement on it: never more, never fewer.
pub proof fn lemma_missing_fields_exact(target: TargetView, field: Field)
    ensures
        occurrences(missing_fields(target), field) == expected_reports(target, field),
{
    let account = gap(target.account_id.len() == 0, Field::AccountId);
    let name = gap(target.name.len() == 0, Field::Name);
    let bindings = bindings_gaps(target.kv_namespaces);
    let zone = gap(text_or_empty(target.zone_id).len() == 0, Field::ZoneId);
    let route = gap(text_or_empty(target.route).len() == 0, Field::Route);
    lemma_occurrences_add(account + name + bindings, route_gaps(target), field);
    lemma_occurrences_add(account + name, bindings, field);
    lemma_occurrences_add(account, name, field);
    lemma_occurrences_gap(target.account_id.len() == 0, Field::AccountId, field);
    lemma_occurrences_gap(target.name.len() == 0, Field::Name, field);
    lemma_bindings_gaps_occurrences(target.kv_namespaces, field);
    if target.workers_dev {
        assert(Seq::<Field>::empty().filter(|f: Field| f == field) =~= Seq::<Field>::empty());
    } else {
        lemma_occurrences_add(zone, route, field);
        lemma_occurrences_gap(text_or_empty(target.zone_id).len() == 0, Field::ZoneId, field);
        lemma_occurrences_gap(text_or_empty(target.route).len() == 0, Field::Route, field);
    }
}

/// The number of requirements that a descriptor does not meet.
pub open spec fn violations(target: TargetView) -> nat {
    expected_reports(target, Field::AccountId) + expected_reports(target, Field::Name)
        + expected_reports(target, Field::KvNamespaceBinding) + expected_reports(
        target,
        Field::KvNamespaceId,
    ) + expected_reports(target, Field::ZoneId) + expected_reports(target, Field::Route)
}

proof fn lemma_bindings_gaps_len(bindings: Seq<KvNamespaceView>)
    ensures
        bindings_gaps(bindings).len() == unnamed_bindings(bindings) + unidentified_bindings(
            bindings,
        ),
    decreases bindings.len(),
{
    let unnamed = |b: KvNamespaceView| b.binding.len() == 0;
    let unidentified = |b: KvNamespaceView| b.id.len() == 0;
    if bindings.len() == 0 {
        assert(bindings.filter(unnamed) =~= Seq::<KvNamespaceView>::empty());
        assert(bindings.filter(unidentified) =~= Seq::<KvNamespaceView>::empty());
    } else {
        let front = bindings.drop_last();
        let last = bindings.last();
        lemma_bindings_gaps_len(front);
        assert(bindings =~= front.push(last));
        front.lemma_filter_len_push(unnamed, last);
        front.lemma_filter_len_push(unidentified, last);
    }
}

/// A descriptor that fails N requirements has N fields reported, and it is
/// accepted exactly when N is zero.
pub proof fn lemma_missing_fields_count(target: TargetView)
    ensures
        missing_fields(target).len() == violations(target),
        validation(target) is Ok <==> violations(target) == 0,
        validation(target) matches Err(error) ==> error == (PublishErrorView::MissingFields {
            fields: missing_fields(target),
            destination: destination_of(target),
        }),
{
    lemma_bindings_gaps_len(target.kv_namespaces);
}

/// For exposure on a subdomain validation does not look at zone and route:
/// whatever the two hold, the outcome is the same.
pub proof fn lemma_subdomain_mode_ignores_route(
    target: TargetView,
    zone_id: Option<Seq<char>>,
    route: Option<Seq<char>>,
)
    requires
        target.workers_dev,
    ensures
        validation(TargetView { zone_id, route, ..target }) == validation(target),
{
}

} // verus!
