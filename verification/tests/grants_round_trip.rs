use firebolt_gateway::grants::{
    CapabilityRole, GrantEntry, GrantLifespan, GrantState, GrantStateModify, GrantStatus,
};

fn gated_store() -> GrantState {
    GrantState::new(vec!["device:info".to_owned(), "a:b".to_owned(), "c:d".to_owned()])
}

#[test]
fn grant_then_entries_contains_allowed() {
    let mut store = gated_store();
    let granted = store.grant_modify(
        GrantStateModify::Grant,
        Some("com.x.y".to_owned()),
        CapabilityRole::Use,
        "device:info".to_owned(),
        1000,
    );
    assert!(granted);
    let entries = store.get_grant_entries_for_app_id("com.x.y".to_owned());
    assert_eq!(entries.len(), 1);
    assert_eq!(entries[0].capability, "device:info");
    assert_eq!(entries[0].role, CapabilityRole::Use);
    assert_eq!(entries[0].status, Some(GrantStatus::Allowed));
    assert_eq!(entries[0].last_modified_time, 1000);
}

#[test]
fn grant_then_deny_leaves_only_denied() {
    let mut store = gated_store();
    assert!(store.grant_modify(
        GrantStateModify::Grant,
        Some("com.x.y".to_owned()),
        CapabilityRole::Use,
        "device:info".to_owned(),
        1000,
    ));
    assert!(store.grant_modify(
        GrantStateModify::Deny,
        Some("com.x.y".to_owned()),
        CapabilityRole::Use,
        "device:info".to_owned(),
        2000,
    ));
    let entries = store.get_grant_entries_for_app_id("com.x.y".to_owned());
    let denied: Vec<_> = entries
        .iter()
        .filter(|e| e.capability == "device:info" && e.role == CapabilityRole::Use)
        .collect();
    assert_eq!(denied.len(), 1);
    assert_eq!(denied[0].status, Some(GrantStatus::Denied));
    assert!(!entries.iter().any(|e| e.status == Some(GrantStatus::Allowed)));
}

#[test]
fn clear_removes_the_key() {
    let mut store = gated_store();
    assert!(store.grant_modify(
        GrantStateModify::Grant,
        Some("com.x.y".to_owned()),
        CapabilityRole::Use,
        "device:info".to_owned(),
        1000,
    ));
    assert!(store.grant_modify(
        GrantStateModify::Clear,
        Some("com.x.y".to_owned()),
        CapabilityRole::Use,
        "device:info".to_owned(),
        2000,
    ));
    let entries = store.get_grant_entries_for_app_id("com.x.y".to_owned());
    assert!(!entries
        .iter()
        .any(|e| e.capability == "device:info" && e.role == CapabilityRole::Use));
}

#[test]
fn mutation_refused_for_ungated_capability() {
    let mut store = gated_store();
    let granted = store.grant_modify(
        GrantStateModify::Grant,
        Some("com.x.y".to_owned()),
        CapabilityRole::Use,
        "not:gated".to_owned(),
        1000,
    );
    assert!(!granted);
    assert!(store.get_grant_entries_for_app_id("com.x.y".to_owned()).is_empty());
}

#[test]
fn device_scope_is_separate_from_apps() {
    let mut store = gated_store();
    assert!(store.grant_modify(
        GrantStateModify::Grant,
        None,
        CapabilityRole::Use,
        "a:b".to_owned(),
        5,
    ));
    assert_eq!(store.get_device_entries().len(), 1);
    assert!(store.get_grant_entries_for_app_id("com.x.y".to_owned()).is_empty());
}

#[test]
fn entries_by_capability_groups_apps() {
    let mut store = gated_store();
    assert!(store.grant_modify(
        GrantStateModify::Grant,
        Some("app.one".to_owned()),
        CapabilityRole::Use,
        "a:b".to_owned(),
        1,
    ));
    assert!(store.grant_modify(
        GrantStateModify::Deny,
        Some("app.two".to_owned()),
        CapabilityRole::Use,
        "a:b".to_owned(),
        2,
    ));
    assert!(store.grant_modify(
        GrantStateModify::Grant,
        Some("app.one".to_owned()),
        CapabilityRole::Use,
        "c:d".to_owned(),
        3,
    ));
    let groups = store.get_grant_entries_for_capability("a:b");
    assert_eq!(groups.len(), 2);
    for (_, entries) in &groups {
        assert_eq!(entries.len(), 1);
        assert_eq!(entries[0].capability, "a:b");
    }
}

#[test]
fn grant_with_ttl_is_honored_until_the_ttl_elapses() {
    let entry = GrantEntry {
        role: CapabilityRole::Use,
        capability: "device:info".to_owned(),
        status: Some(GrantStatus::Allowed),
        lifespan: Some(GrantLifespan::Seconds),
        last_modified_time: 1000,
        lifespan_ttl_in_secs: Some(60),
    };
    assert!(entry.is_honored(1000));
    assert!(entry.is_honored(1060));
    assert!(!entry.is_honored(1061));
    assert!(entry.has_expired(1061));
}

#[test]
fn grant_without_ttl_never_expires_by_time() {
    let entry = GrantEntry {
        role: CapabilityRole::Use,
        capability: "device:info".to_owned(),
        status: Some(GrantStatus::Allowed),
        lifespan: Some(GrantLifespan::Forever),
        last_modified_time: 0,
        lifespan_ttl_in_secs: None,
    };
    assert!(entry.is_honored(u64::MAX));
}
