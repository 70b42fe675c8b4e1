use web_ops::admin_billing::{
    billing_metrics, contract_effective_label, facility_option_label, rate_request,
    run_period_label, EventSelection, RateVersion, RunSummary,
};
use web_ops::admin_configuration::lifecycle::{
    can_retire_without_activation, can_rollback, can_run_primary, lifecycle_action,
    needs_other_approver, primary_label, rollback_request,
};
use web_ops::admin_configuration::draft::LifecycleAction;
use web_ops::admin_configuration::{billing_event_caption, kind_options, status_options};
use web_ops::admin_count_plans::{count_save, CountLine, CountSave};
use web_ops::admin_integrations::owner_mappings::owner_mapping_filters;
use web_ops::admin_integrations::{
    can_replay, correction_editor_payload, correction_initial_payload, inbound_filters,
    outbound_filters, PreviewEncoding,
};
use web_ops::admin_roles::permission_grant_path;
use web_ops::admin_users::{role_assignment_path, role_change_notice, role_refused_message};
use web_ops::administration::{
    active_facilities, selection_after_state_change, state_change_path,
};
use web_ops::contract::{
    BillableEventType, BillingRunStatus, BillingUnit, ConfigurationStatus,
    IntegrationOrderOwnerMappingStatus, OutboundDeliveryStatus,
};
use web_ops::models::Facility;

#[test]
fn lifecycle_steps_follow_the_status() {
    assert_eq!(lifecycle_action(ConfigurationStatus::Draft), Some(LifecycleAction::Submit));
    assert_eq!(lifecycle_action(ConfigurationStatus::PendingApproval), Some(LifecycleAction::Approve));
    assert_eq!(lifecycle_action(ConfigurationStatus::Approved), Some(LifecycleAction::Activate));
    assert_eq!(lifecycle_action(ConfigurationStatus::Active), Some(LifecycleAction::Retire));
    assert_eq!(lifecycle_action(ConfigurationStatus::Retired), None);
    assert_eq!(primary_label(ConfigurationStatus::Approved), "Activate version");
    assert!(!can_run_primary(ConfigurationStatus::PendingApproval, 7, 7));
    assert!(can_run_primary(ConfigurationStatus::PendingApproval, 7, 8));
    assert!(can_run_primary(ConfigurationStatus::Draft, 7, 7));
    assert!(!can_run_primary(ConfigurationStatus::Retired, 7, 8));
    assert!(needs_other_approver(ConfigurationStatus::PendingApproval, 7, 7));
    assert!(!can_rollback(ConfigurationStatus::Draft));
    assert!(can_rollback(ConfigurationStatus::Retired));
    assert!(can_retire_without_activation(ConfigurationStatus::Approved));
    assert!(!can_retire_without_activation(ConfigurationStatus::Active));
    assert_eq!(
        rollback_request(5, 3, " ").unwrap_err(),
        "Enter the effective timestamp for the rollback draft."
    );
    let rollback = rollback_request(5, 3, " 2026-09-01T00:00:00Z ").unwrap();
    assert_eq!(rollback.effective_from, "2026-09-01T00:00:00Z");
    assert_eq!(rollback.expected_source_revision, 3);
}

#[test]
fn pickers_list_every_choice_in_order() {
    assert_eq!(kind_options().len(), 10);
    assert_eq!(status_options()[1], ConfigurationStatus::PendingApproval);
    assert_eq!(billing_event_caption(BillableEventType::ValueAddedServiceUnit), "value added service unit");
    assert_eq!(billing_event_caption(BillableEventType::Accessorial), "accessorial");
}

#[test]
fn billing_metrics_count_pending_runs_and_unbilled_events() {
    let runs = vec![
        RunSummary { status: BillingRunStatus::PendingReview, unmatched_event_count: 2, charge_count: 5 },
        RunSummary { status: BillingRunStatus::Approved, unmatched_event_count: 9, charge_count: -1 },
        RunSummary { status: BillingRunStatus::PendingReview, unmatched_event_count: 1, charge_count: 3 },
    ];
    let metrics = billing_metrics(4, 10, &runs);
    assert_eq!(metrics.contracts, 4);
    assert_eq!(metrics.pending_review, 2);
    assert_eq!(metrics.unmatched_events, 3);
    assert_eq!(metrics.unbilled_events, 2);
    assert_eq!(billing_metrics(0, 3, &runs).unbilled_events, 0);
}

#[test]
fn billing_labels_and_rate_requests_are_exact() {
    assert_eq!(contract_effective_label("2026-01-01", None), "2026-01-01 → Open");
    assert_eq!(contract_effective_label("a", Some("b")), "a → b");
    assert_eq!(
        run_period_label("2026-01-01T00:00:00Z", "2026-01-31T23:59:59Z"),
        "2026-01-01 → 2026-01-31"
    );
    let facility = Facility { id: 6, name: None, deleted: None };
    assert_eq!(facility_option_label(&facility), "Facility #6");
    let rates = vec![RateVersion { contract_id: 2, event_type: BillableEventType::KitUnit, revision: 4 }];
    let request = rate_request(
        2,
        "EUR",
        EventSelection { event_type: BillableEventType::KitUnit, unit: BillingUnit::Each },
        300,
        50,
        "2026-02-01T00:00:00Z",
        &rates,
    );
    assert_eq!(request.currency, "EUR");
    assert_eq!(request.expected_revision, Some(4));
}

#[test]
fn count_saves_update_an_edited_line_or_add_a_new_one() {
    let line = || CountLine { location_id: 1, item_id: 2, count: 12, uom: "case".to_owned() };
    match count_save(Some((9, 4)), 3, line(), "L1", "") {
        CountSave::Update { audit_location_count_id, expected_revision, count } => {
            assert_eq!((audit_location_count_id, expected_revision, count), (9, 4, 12));
        }
        CountSave::Add { .. } => panic!("an edited line is updated"),
    }
    match count_save(None, 3, line(), " L1 ", " ") {
        CountSave::Add { audit_wave_id, lot, serial, uom, .. } => {
            assert_eq!(audit_wave_id, 3);
            assert_eq!(lot.as_deref(), Some("L1"));
            assert_eq!(serial, None);
            assert_eq!(uom, "case");
        }
        CountSave::Update { .. } => panic!("a new line is added"),
    }
}

#[test]
fn monitor_payloads_and_replays_are_decided_exactly() {
    assert_eq!(correction_initial_payload(PreviewEncoding::Utf8, false, "{}"), "{}");
    assert_eq!(correction_initial_payload(PreviewEncoding::Hex, false, "7b7d"), "");
    assert_eq!(correction_initial_payload(PreviewEncoding::Utf8, true, "{"), "");
    assert_eq!(correction_editor_payload(true, false, Some("{\"a\":1}"), "{}"), "{\"a\":1}");
    assert_eq!(correction_editor_payload(true, true, Some("{\"a\""), "{}"), "");
    assert_eq!(correction_editor_payload(false, false, None, "{}"), "{}");
    assert!(can_replay(OutboundDeliveryStatus::DeadLettered));
    assert!(!can_replay(OutboundDeliveryStatus::Published));
}

#[test]
fn administration_commands_are_exact() {
    assert_eq!(state_change_path("inventory-owners", true), "/api/inventory-owners/restore");
    assert_eq!(state_change_path("audits", false), "/api/audits/delete");
    assert_eq!(selection_after_state_change(Some(4), 4, false), None);
    assert_eq!(selection_after_state_change(Some(4), 4, true), Some(4));
    assert_eq!(selection_after_state_change(Some(4), 5, false), Some(4));
    let facilities = vec![
        Facility { id: 1, name: None, deleted: Some("2026-01-01".to_owned()) },
        Facility { id: 2, name: Some("West".to_owned()), deleted: None },
    ];
    assert_eq!(active_facilities(facilities).iter().map(|f| f.id).collect::<Vec<_>>(), vec![2]);
    assert_eq!(role_assignment_path(false), "/api/users/roles/delete");
    assert_eq!(role_change_notice(true), "Role assigned.");
    assert_eq!(role_refused_message(false), "That direct role assignment was not found.");
    assert_eq!(permission_grant_path(true), "/api/roles/permissions/add");
}

#[test]
fn monitor_filters_trim_and_drop_blank_texts() {
    let inbound = inbound_filters(" order 7 ", "  ");
    assert_eq!(inbound.query.as_deref(), Some("order 7"));
    assert_eq!(inbound.source_key, None);
    let outbound = outbound_filters("", " shipment.created ", Some(OutboundDeliveryStatus::Pending));
    assert_eq!(outbound.query, None);
    assert_eq!(outbound.event_type.as_deref(), Some("shipment.created"));
    assert_eq!(outbound.status, Some(OutboundDeliveryStatus::Pending));
    let mappings = owner_mapping_filters(Some(3), " partner ", IntegrationOrderOwnerMappingStatus::Retired);
    assert_eq!(mappings.inventory_owner_id, Some(3));
    assert_eq!(mappings.source_key.as_deref(), Some("partner"));
    assert_eq!(mappings.status, Some(IntegrationOrderOwnerMappingStatus::Retired));
}
