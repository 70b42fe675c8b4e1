use web_ops::admin_clients::client_update;
use web_ops::admin_configuration::{
    kind_wire, parse_kind_filter, parse_scope, scope_wire, ScopeLevel,
};
use web_ops::admin_integrations::owner_mappings::{
    configuration_request, mapping_status_label, optional_id_value, parse_optional_id,
    parse_status as parse_mapping_status, text_filter as mapping_text_filter,
};
use web_ops::admin_integrations::{
    compact_time, detail_refresh_is_current, parse_status, processing_status_class,
    processing_status_label, scope_label, should_reconcile_detail, MonitorTab,
};
use web_ops::administration::{optional_text, selected_id, set_membership};
use web_ops::contract::{
    DecisionRuleKind, IntegrationOrderOwnerMappingStatus, IntegrationOrderProcessingStatus,
    OutboundDeliveryStatus,
};

#[test]
fn client_update_normalizes_optional_text() {
    let request = client_update(7, " Acme ", " dispatch@acme.test ");
    assert_eq!(request.inventory_owner_id, 7);
    assert_eq!(request.name.as_deref(), Some("Acme"));
    assert_eq!(request.email.as_deref(), Some("dispatch@acme.test"));
}

#[test]
fn every_rule_and_scope_wire_value_round_trips() {
    for kind in [
        DecisionRuleKind::Receipt,
        DecisionRuleKind::Putaway,
        DecisionRuleKind::Allocation,
        DecisionRuleKind::Replenishment,
        DecisionRuleKind::Wave,
        DecisionRuleKind::Pick,
        DecisionRuleKind::Pack,
        DecisionRuleKind::Count,
        DecisionRuleKind::Document,
        DecisionRuleKind::Billing,
    ] {
        assert_eq!(parse_kind_filter(kind_wire(kind)), Some(kind));
    }
    for scope in [
        ScopeLevel::Tenant,
        ScopeLevel::InventoryOwner,
        ScopeLevel::Facility,
        ScopeLevel::OwnerFacility,
    ] {
        assert_eq!(parse_scope(scope_wire(scope)), scope);
    }
}

#[test]
fn tab_status_and_scope_labels_are_exact() {
    assert_eq!(
        parse_status("dead_lettered"),
        Some(OutboundDeliveryStatus::DeadLettered)
    );
    assert_eq!(parse_status("all"), None);
    assert_eq!(scope_label(Some("Client"), Some("West")), "Client / West");
}

#[test]
fn compact_time_is_dense() {
    assert_eq!(
        compact_time("2026-08-10T11:22:33+00:00"),
        "2026-08-10 11:22:33"
    );
}

#[test]
fn inbound_processing_labels_distinguish_actionable_quarantine() {
    assert_eq!(
        processing_status_label(IntegrationOrderProcessingStatus::Quarantined),
        "Quarantined"
    );
    assert_eq!(
        processing_status_class(IntegrationOrderProcessingStatus::Quarantined),
        "status held"
    );
    assert_eq!(
        processing_status_label(IntegrationOrderProcessingStatus::Processed),
        "Processed"
    );
}

#[test]
fn detail_refresh_reconciliation_rejects_changed_selection_or_newer_request() {
    assert!(detail_refresh_is_current(Some(41), Some(41), Some(7), 7));
    assert!(!detail_refresh_is_current(Some(41), Some(42), Some(7), 7));
    assert!(!detail_refresh_is_current(Some(41), Some(41), Some(7), 8));
    assert!(!detail_refresh_is_current(None, None, None, 7));
}

#[test]
fn detail_refresh_reconciliation_rejects_a_direction_switch() {
    assert!(should_reconcile_detail(
        MonitorTab::Inbound,
        MonitorTab::Inbound
    ));
    assert!(!should_reconcile_detail(
        MonitorTab::Outbound,
        MonitorTab::Inbound
    ));
    assert!(!should_reconcile_detail(
        MonitorTab::Mappings,
        MonitorTab::Outbound
    ));
}

#[test]
fn filters_and_status_labels_are_exact() {
    assert_eq!(parse_optional_id("17"), Some(17));
    assert_eq!(mapping_text_filter(" partner-api "), Some("partner-api".into()));
    assert_eq!(
        parse_mapping_status("retired"),
        IntegrationOrderOwnerMappingStatus::Retired
    );
    assert_eq!(
        mapping_status_label(IntegrationOrderOwnerMappingStatus::Active),
        "Active"
    );
}

#[test]
fn option_helpers_reject_empty_or_invalid_values() {
    assert_eq!(optional_text("  "), None);
    assert_eq!(optional_text(" Dock lead "), Some("Dock lead".to_owned()));
    assert_eq!(selected_id("0"), None);
    assert_eq!(selected_id("abc"), None);
    assert_eq!(selected_id("19"), Some(19));
}

#[test]
fn membership_is_sorted_and_unique() {
    let mut ids = vec![5, 9];
    set_membership(&mut ids, 3, true);
    set_membership(&mut ids, 5, true);
    assert_eq!(ids, vec![3, 5, 9]);
    set_membership(&mut ids, 5, false);
    assert_eq!(ids, vec![3, 9]);
}

#[test]
fn owner_mapping_id_value_reads_back() {
    assert_eq!(optional_id_value(Some(17)), "17");
    assert_eq!(optional_id_value(None), "");
    assert_eq!(parse_optional_id(&optional_id_value(Some(17))), Some(17));
    assert_eq!(parse_optional_id(&optional_id_value(None)), None);
    assert_eq!(parse_optional_id("-3"), None);
    assert_eq!(parse_optional_id(" 4"), None);
}

#[test]
fn owner_mapping_status_reads_back_from_its_wire_value() {
    assert_eq!(
        parse_mapping_status("active"),
        IntegrationOrderOwnerMappingStatus::Active
    );
    assert_eq!(
        parse_mapping_status("anything"),
        IntegrationOrderOwnerMappingStatus::Active
    );
}

#[test]
fn owner_mapping_configuration_trims_keys_and_expects_active_revision() {
    let request = configuration_request(
        " partner ",
        " EXT-9 ",
        "12",
        true,
        Some((IntegrationOrderOwnerMappingStatus::Active, 4)),
    )
    .unwrap();
    assert_eq!(request.source_key, "partner");
    assert_eq!(request.external_inventory_owner_key, "EXT-9");
    assert_eq!(request.inventory_owner_id, 12);
    assert_eq!(request.expected_revision, Some(4));

    let retired = configuration_request(
        "partner",
        "EXT-9",
        "12",
        true,
        Some((IntegrationOrderOwnerMappingStatus::Retired, 4)),
    )
    .unwrap();
    assert_eq!(retired.expected_revision, None);

    let creating = configuration_request(
        "partner",
        "EXT-9",
        "12",
        false,
        Some((IntegrationOrderOwnerMappingStatus::Active, 4)),
    )
    .unwrap();
    assert_eq!(creating.expected_revision, None);

    assert_eq!(
        configuration_request("partner", "EXT-9", "x", false, None).unwrap_err(),
        "Select a Wareboxes client."
    );
    assert_eq!(
        configuration_request("  ", "EXT-9", "12", false, None).unwrap_err(),
        "Source and external owner key are required."
    );
    assert_eq!(
        configuration_request("partner", "", "12", false, None).unwrap_err(),
        "Source and external owner key are required."
    );
}

#[test]
fn compact_time_keeps_values_without_a_time() {
    assert_eq!(compact_time("2026-08-10"), "2026-08-10");
    assert_eq!(compact_time("2026-08-10T11:22"), "2026-08-10 11:22");
}

#[test]
fn scope_label_covers_each_known_part() {
    assert_eq!(scope_label(Some("Client"), None), "Client");
    assert_eq!(scope_label(None, Some("West")), "West");
    assert_eq!(scope_label(None, None), "Organization");
}
