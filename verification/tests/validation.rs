use wrangler_publish::error::field_list_text;
use wrangler_publish::{
    validate_target_required_fields_present, Destination, Field, KvNamespace, PublishError, Site,
    Target,
};

fn target(workers_dev: bool) -> Target {
    Target {
        account_id: "A".to_string(),
        name: "S".to_string(),
        zone_id: None,
        route: None,
        workers_dev,
        kv_namespaces: Vec::new(),
        site: None,
    }
}

fn binding(binding: &str, id: &str) -> KvNamespace {
    KvNamespace { binding: binding.to_string(), id: id.to_string(), bucket: None }
}

fn names(fields: &[Field]) -> Vec<&'static str> {
    fields.iter().map(|f| f.name()).collect()
}

#[test]
fn route_mode_without_zone_and_route_lists_both() {
    let outcome = validate_target_required_fields_present(&target(false));
    match outcome {
        Err(PublishError::MissingFields { fields, destination }) => {
            assert_eq!(names(&fields), vec!["zone_id", "route"]);
            assert_eq!(destination, Destination::Route);
            assert_eq!(destination.phrase(), "a route");
        }
        other => panic!("unexpected outcome: {:?}", other),
    }
}

#[test]
fn route_mode_message_is_plural() {
    let error = validate_target_required_fields_present(&target(false)).unwrap_err();
    assert_eq!(
        error.message(),
        "Your wrangler.toml is missing the fields [\"zone_id\", \"route\"] which are required to publish to a route!"
    );
}

#[test]
fn one_missing_field_is_singular() {
    let mut t = target(true);
    t.name = String::new();
    let error = validate_target_required_fields_present(&t).unwrap_err();
    assert_eq!(
        error,
        PublishError::MissingFields { fields: vec![Field::Name], destination: Destination::Subdomain }
    );
    assert_eq!(
        error.message(),
        "Your wrangler.toml is missing the field [\"name\"] which is required to publish to your subdomain!"
    );
}

#[test]
fn empty_zone_and_route_count_as_missing() {
    let mut t = target(false);
    t.zone_id = Some(String::new());
    t.route = Some(String::new());
    let error = validate_target_required_fields_present(&t).unwrap_err();
    assert_eq!(
        error,
        PublishError::MissingFields {
            fields: vec![Field::ZoneId, Field::Route],
            destination: Destination::Route
        }
    );
}

#[test]
fn route_mode_with_zone_and_route_is_accepted() {
    let mut t = target(false);
    t.zone_id = Some("Z".to_string());
    t.route = Some("example.com/*".to_string());
    assert_eq!(validate_target_required_fields_present(&t), Ok(()));
}

#[test]
fn route_mode_missing_only_route() {
    let mut t = target(false);
    t.zone_id = Some("Z".to_string());
    let error = validate_target_required_fields_present(&t).unwrap_err();
    assert_eq!(
        error.message(),
        "Your wrangler.toml is missing the field [\"route\"] which is required to publish to a route!"
    );
}

#[test]
fn subdomain_mode_ignores_zone_and_route() {
    let mut t = target(true);
    assert_eq!(validate_target_required_fields_present(&t), Ok(()));
    t.zone_id = Some(String::new());
    t.route = Some(String::new());
    assert_eq!(validate_target_required_fields_present(&t), Ok(()));
    t.zone_id = Some("Z".to_string());
    t.route = None;
    assert_eq!(validate_target_required_fields_present(&t), Ok(()));
}

#[test]
fn every_violation_is_reported_in_order() {
    let t = Target {
        account_id: String::new(),
        name: String::new(),
        zone_id: None,
        route: Some("example.com/*".to_string()),
        workers_dev: false,
        kv_namespaces: vec![binding("", "1"), binding("B", "2"), binding("", ""), binding("C", "")],
        site: Some(Site { bucket: "./public".to_string() }),
    };
    let error = validate_target_required_fields_present(&t).unwrap_err();
    match &error {
        PublishError::MissingFields { fields, destination } => {
            assert_eq!(
                names(fields),
                vec![
                    "account_id",
                    "name",
                    "kv-namespace binding",
                    "kv-namespace binding",
                    "kv-namespace id",
                    "kv-namespace id",
                    "zone_id"
                ]
            );
            assert_eq!(*destination, Destination::Route);
        }
        other => panic!("unexpected error: {:?}", other),
    }
    assert_eq!(
        error.message(),
        "Your wrangler.toml is missing the fields [\"account_id\", \"name\", \"kv-namespace binding\", \"kv-namespace binding\", \"kv-namespace id\", \"kv-namespace id\", \"zone_id\"] which are required to publish to a route!"
    );
}

#[test]
fn incomplete_binding_fails_in_subdomain_mode_too() {
    let mut t = target(true);
    t.kv_namespaces = vec![binding("B", "")];
    let error = validate_target_required_fields_present(&t).unwrap_err();
    assert_eq!(
        error.message(),
        "Your wrangler.toml is missing the field [\"kv-namespace id\"] which is required to publish to your subdomain!"
    );
}

#[test]
fn complete_bindings_are_accepted() {
    let mut t = target(true);
    t.kv_namespaces = vec![binding("B", "1"), binding("C", "2")];
    assert_eq!(validate_target_required_fields_present(&t), Ok(()));
}

#[test]
fn field_names_are_those_of_the_descriptor() {
    assert_eq!(Field::AccountId.name(), "account_id");
    assert_eq!(Field::Name.name(), "name");
    assert_eq!(Field::KvNamespaceBinding.name(), "kv-namespace binding");
    assert_eq!(Field::KvNamespaceId.name(), "kv-namespace id");
    assert_eq!(Field::ZoneId.name(), "zone_id");
    assert_eq!(Field::Route.name(), "route");
    assert_eq!(Destination::Subdomain.phrase(), "your subdomain");
}

#[test]
fn field_list_is_bracketed_and_quoted() {
    assert_eq!(field_list_text(&vec![]), "[]");
    assert_eq!(field_list_text(&vec![Field::Route]), "[\"route\"]");
    assert_eq!(
        field_list_text(&vec![Field::AccountId, Field::Name, Field::ZoneId]),
        "[\"account_id\", \"name\", \"zone_id\"]"
    );
}

#[test]
fn message_without_fields_has_neither_noun_nor_verb() {
    let error =
        PublishError::MissingFields { fields: vec![], destination: Destination::Subdomain };
    assert_eq!(
        error.message(),
        "Your wrangler.toml is missing the  [] which  required to publish to your subdomain!"
    );
}
