use account_gateway::identity::{lookup_request_for, validate_token_request};
use account_gateway::model::Account;
use account_gateway::mutations::{
    add_decision, add_precheck, remove_decision, remove_precheck, AddDecision, RemoveDecision,
};
use account_gateway::aggregation::{list_decision, ListDecision};

fn identity_with_legacy() -> Account {
    Account {
        id: "acc-1".to_string(),
        discord_id: Some("legacy-42".to_string()),
        first_name: Some("Alex".to_string()),
    }
}

fn identity_without_legacy() -> Account {
    Account {
        id: "acc-2".to_string(),
        discord_id: None,
        first_name: None,
    }
}

#[test]
fn token_request_carries_token() {
    let req = validate_token_request("tok-abc");
    assert_eq!(req.token, "tok-abc");
}

#[test]
fn no_account_id_stops_resolution() {
    assert!(lookup_request_for(None).is_none());
}

#[test]
fn account_id_becomes_lookup_request() {
    let req = lookup_request_for(Some("acc-1".to_string())).unwrap();
    assert_eq!(req.account_id, Some("acc-1".to_string()));
}

#[test]
fn unknown_token_is_not_found_for_all_operations() {
    let resolved: Option<Account> = None;
    assert!(matches!(
        add_decision(&resolved, "steve", &None),
        AddDecision::NotFound
    ));
    assert!(matches!(
        remove_decision(&resolved, "550e8400-e29b-41d4-a716-446655440000"),
        RemoveDecision::NotFound
    ));
    assert!(matches!(list_decision(&resolved), ListDecision::NotFound));
}

#[test]
fn no_legacy_identifier_skips_backend_everywhere() {
    let resolved = Some(identity_without_legacy());
    assert!(matches!(
        add_decision(&resolved, "steve", &None),
        AddDecision::NoBackend
    ));
    assert!(matches!(
        remove_decision(&resolved, "550e8400-e29b-41d4-a716-446655440000"),
        RemoveDecision::NoBackend
    ));
    assert!(matches!(list_decision(&resolved), ListDecision::NoBackend));
}

#[test]
fn empty_username_rejected_before_backend() {
    assert_eq!(
        add_precheck(""),
        Some("Minecraft account name empty".to_string())
    );
    assert_eq!(add_precheck("steve"), None);
}

#[test]
fn no_legacy_identifier_is_a_no_op_whatever_the_name() {
    let resolved = Some(identity_without_legacy());
    assert!(matches!(
        add_decision(&resolved, "", &None),
        AddDecision::NoBackend
    ));
}

#[test]
fn add_builds_request_keyed_on_legacy_identifier() {
    let resolved = Some(identity_with_legacy());
    let uuid = Some("550e8400-e29b-41d4-a716-446655440000".to_string());
    match add_decision(&resolved, "steve", &uuid) {
        AddDecision::Backend(req) => {
            assert_eq!(req.user_id, Some("acc-1".to_string()));
            assert_eq!(req.deprecated_discord_id, Some("legacy-42".to_string()));
            assert_eq!(req.minecraft_uuid, uuid);
            assert_eq!(req.minecraft_username, "steve");
            assert_eq!(req.first_name, "Alex");
        }
        _ => panic!("expected a backend request"),
    }
}

#[test]
fn add_fills_missing_first_name_with_empty_string() {
    let resolved = Some(Account {
        id: "acc-3".to_string(),
        discord_id: Some("legacy-7".to_string()),
        first_name: None,
    });
    match add_decision(&resolved, "steve", &None) {
        AddDecision::Backend(req) => assert_eq!(req.first_name, ""),
        _ => panic!("expected a backend request"),
    }
}

#[test]
fn malformed_key_rejected_before_any_call() {
    let err = remove_precheck("not-a-uuid");
    assert_eq!(err, Some("Could not parse UUID".to_string()));
}

#[test]
fn well_formed_key_passes_precheck() {
    assert_eq!(remove_precheck("550e8400-e29b-41d4-a716-446655440000"), None);
    assert_eq!(remove_precheck("550e8400e29b41d4a716446655440000"), None);
    assert_eq!(remove_precheck("550e8400-e29b-41d4-a716-44665544000"), Some("Could not parse UUID".to_string()));
}

#[test]
fn remove_builds_request_keyed_on_legacy_identifier() {
    let resolved = Some(identity_with_legacy());
    match remove_decision(&resolved, "550e8400-e29b-41d4-a716-446655440000") {
        RemoveDecision::Backend(req) => {
            assert_eq!(req.user_id, "legacy-42");
            assert_eq!(
                req.minecraft_uuid,
                Some("550e8400-e29b-41d4-a716-446655440000".to_string())
            );
        }
        _ => panic!("expected a backend request"),
    }
}

#[test]
fn list_builds_request_keyed_on_legacy_identifier() {
    let resolved = Some(identity_with_legacy());
    match list_decision(&resolved) {
        ListDecision::Backend(req) => assert_eq!(req.user_id, "legacy-42"),
        _ => panic!("expected a backend request"),
    }
}
