use web_ops::admin_billing::{
    can_approve_run, create_contract_request, default_selection, event_label, event_options,
    has_text, money, nonblank as billing_nonblank, parse_event, parse_id, parse_unit,
    rate_expected_revision, rate_label, required_facility, set_event_defaults, short_date,
    unit_options, EventSelection, RateVersion,
};
use web_ops::admin_clients::{client_form, facilities_after_create, filter_clients, sort_clients, ClientSort};
use web_ops::admin_configuration::draft::{
    build_create_request, reset_draft, simulation_request, success_message, ConfigurationCommand,
    ConfigurationDraft, LifecycleAction,
};
use web_ops::admin_configuration::rules::{
    build_rule, reset_rule_defaults, rule_summary, DecisionRule, RuleDraft,
};
use web_ops::admin_configuration::{ConfigurationScope, ScopeLevel};
use web_ops::admin_count_plans::{
    count_line, filter_plans, item_label, location_label, plan_request, sort_plans, AuditWave, Item,
    Location, PlanSort,
};
use web_ops::admin_integrations::correction::{correction_reason, correction_request};
use web_ops::admin_integrations::{
    change_inbound_sort, discard_reason, page_detail_action, reprocess_notice, replay_notice,
    DetailAction, MonitorTab,
};
use web_ops::admin_permissions::{permission_form, sort_permissions, Permission, PermissionSort};
use web_ops::admin_roles::{
    filter_roles, hierarchy_change, role_name, sort_roles, HierarchyChange, Role, RoleSort,
};
use web_ops::admin_users::{filter_users, sort_users, user_display_name, user_update, User, UserSort};
use web_ops::admin_workforce::{
    add_employee_request, employee_name, filter_employees, sort_employees, Employee, EmployeeDraft,
    EmployeeSort,
};
use web_ops::administration::{saved_notice, state_notice};
use web_ops::api::ApiError;
use web_ops::command::{
    failure_handling, next_generation, next_page, previous_page, receive_page, retry_message,
    start_page, FailureHandling, PageList, PageOutcome,
};
use web_ops::contract::{
    BillableEventType, BillingUnit, DecisionRuleKind, InboundIntegrationSort,
    IntegrationOrderProcessingStatus, IntegrationSortDirection, InventoryRotation,
};
use web_ops::listing::SortSpec;
use web_ops::models::InventoryOwner;
use web_ops::sorting::SortDirection;

fn rule_draft(kind: DecisionRuleKind) -> RuleDraft {
    RuleDraft {
        kind,
        first_flag: false,
        second_flag: false,
        third_flag: false,
        first_number: 0,
        second_number: 0,
        third_number: 0,
        rotation: InventoryRotation::Fifo,
        event_type: BillableEventType::PickLine,
        billing_unit: BillingUnit::Event,
        currency: " usd ".to_owned(),
    }
}

fn client(id: i64, name: &str, email: &str) -> InventoryOwner {
    InventoryOwner {
        id,
        name: name.to_owned(),
        email: email.to_owned(),
        deleted: None,
        facility_ids: Vec::new(),
    }
}

#[test]
fn every_kind_builds_from_its_defaults() {
    for kind in [
        DecisionRuleKind::Receipt,
        DecisionRuleKind::Putaway,
        DecisionRuleKind::Allocation,
        DecisionRuleKind::Replenishment,
        DecisionRuleKind::Wave,
        DecisionRuleKind::Pick,
        DecisionRuleKind::Pack,
        DecisionRuleKind::Count,
        DecisionRuleKind::Document,
        DecisionRuleKind::Billing,
    ] {
        let mut draft = rule_draft(kind);
        draft.first_number = -5;
        draft.second_number = 70000;
        reset_rule_defaults(&mut draft, kind);
        assert!(build_rule(&draft).is_ok());
    }
}

#[test]
fn rule_defaults_are_exact() {
    let mut draft = rule_draft(DecisionRuleKind::Replenishment);
    reset_rule_defaults(&mut draft, DecisionRuleKind::Replenishment);
    assert_eq!((draft.first_number, draft.second_number, draft.third_number), (30, 80, 0));
    assert!(draft.first_flag && !draft.second_flag && !draft.third_flag);
    let mut billing = rule_draft(DecisionRuleKind::Billing);
    reset_rule_defaults(&mut billing, DecisionRuleKind::Billing);
    assert_eq!(billing.event_type, BillableEventType::ReceivedUnit);
    assert_eq!(billing.billing_unit, BillingUnit::Each);
    assert_eq!(billing.currency, "USD");
    assert_eq!(billing.first_number, 1);
    let mut allocation = rule_draft(DecisionRuleKind::Allocation);
    reset_rule_defaults(&mut allocation, DecisionRuleKind::Allocation);
    assert_eq!(allocation.rotation, InventoryRotation::Fefo);
}

#[test]
fn rule_numbers_outside_their_fields_are_refused() {
    let mut receipt = rule_draft(DecisionRuleKind::Receipt);
    receipt.first_number = 65536;
    assert_eq!(
        build_rule(&receipt).unwrap_err(),
        "The first numeric value is outside its supported range."
    );
    let mut replenishment = rule_draft(DecisionRuleKind::Replenishment);
    replenishment.first_number = 256;
    assert_eq!(build_rule(&replenishment).unwrap_err(), "Minimum percent is invalid.");
    replenishment.first_number = 30;
    replenishment.second_number = -1;
    assert_eq!(build_rule(&replenishment).unwrap_err(), "Target percent is invalid.");
    let mut wave = rule_draft(DecisionRuleKind::Wave);
    wave.first_number = -1;
    assert_eq!(build_rule(&wave).unwrap_err(), "Maximum orders is invalid.");
    let mut count = rule_draft(DecisionRuleKind::Count);
    count.second_number = 70000;
    assert_eq!(build_rule(&count).unwrap_err(), "Count tolerance is invalid.");
    let mut billing = rule_draft(DecisionRuleKind::Billing);
    billing.first_number = -1;
    assert_eq!(build_rule(&billing).unwrap_err(), "Billing rate is invalid.");
    billing.first_number = 5;
    billing.second_number = -1;
    assert_eq!(build_rule(&billing).unwrap_err(), "Minimum charge is invalid.");
}

#[test]
fn billing_rule_upper_cases_its_trimmed_currency() {
    let mut billing = rule_draft(DecisionRuleKind::Billing);
    billing.first_number = 250;
    billing.second_number = 1000;
    match build_rule(&billing).unwrap() {
        DecisionRule::Billing { currency, rate_minor, minimum_charge_minor, .. } => {
            assert_eq!(currency, "USD");
            assert_eq!(rate_minor, 250);
            assert_eq!(minimum_charge_minor, 1000);
        }
        _ => panic!("a billing draft builds a billing rule"),
    }
}

#[test]
fn rule_summaries_are_exact() {
    assert_eq!(
        rule_summary(&DecisionRule::Receipt {
            allow_unexpected: false,
            quarantine_unmapped_items: true,
            over_receipt_tolerance_basis_points: 250,
        }),
        "Unexpected: false; quarantine unmapped: true; tolerance: 250 bp"
    );
    assert_eq!(
        rule_summary(&DecisionRule::Allocation {
            rotation: InventoryRotation::Fefo,
            allow_partial: true,
            require_complete_line: false,
        }),
        "Fefo; partial: true; complete line: false"
    );
    assert_eq!(
        rule_summary(&DecisionRule::Count {
            absolute_tolerance: -2,
            percentage_tolerance_basis_points: 15,
            approval_threshold: 1,
        }),
        "Absolute tolerance -2; percentage 15 bp; approval threshold 1"
    );
    assert_eq!(
        rule_summary(&DecisionRule::Billing {
            event_type: BillableEventType::ReceivedUnit,
            unit: BillingUnit::Each,
            currency: "USD".to_owned(),
            rate_minor: 125,
            minimum_charge_minor: 0,
        }),
        "ReceivedUnit per Each: USD 125 minor units; minimum 0"
    );
}

fn configuration_draft() -> ConfigurationDraft {
    ConfigurationDraft {
        open: true,
        scope: ScopeLevel::OwnerFacility,
        owner_id: Some(4),
        facility_id: Some(9),
        effective_from: " 2026-09-01T00:00:00Z ".to_owned(),
        effective_until: "  ".to_owned(),
        expected_revision: " 3 ".to_owned(),
        rule: rule_draft(DecisionRuleKind::Pick),
    }
}

#[test]
fn configuration_request_checks_fields_in_order() {
    let request = build_create_request(&configuration_draft()).unwrap();
    assert!(matches!(
        request.scope,
        ConfigurationScope::OwnerFacility { inventory_owner_id: 4, facility_id: 9 }
    ));
    assert_eq!(request.effective_from, "2026-09-01T00:00:00Z");
    assert_eq!(request.effective_until, None);
    assert_eq!(request.expected_revision, Some(3));

    let mut draft = configuration_draft();
    draft.owner_id = None;
    draft.facility_id = None;
    assert_eq!(build_create_request(&draft).unwrap_err(), "Select a client.");
    draft.owner_id = Some(4);
    assert_eq!(build_create_request(&draft).unwrap_err(), "Select a facility.");
    draft.facility_id = Some(9);
    draft.effective_from = " ".to_owned();
    assert_eq!(build_create_request(&draft).unwrap_err(), "Enter an effective timestamp.");
    draft.effective_from = "2026-09-01T00:00:00Z".to_owned();
    draft.expected_revision = "0".to_owned();
    assert_eq!(
        build_create_request(&draft).unwrap_err(),
        "Expected revision must be a positive integer."
    );
    draft.expected_revision = "two".to_owned();
    assert_eq!(
        build_create_request(&draft).unwrap_err(),
        "Expected revision must be a positive integer."
    );
}

#[test]
fn reset_draft_empties_the_editor() {
    let mut draft = configuration_draft();
    reset_draft(&mut draft);
    assert!(!draft.open);
    assert_eq!(draft.scope, ScopeLevel::Tenant);
    assert_eq!(draft.owner_id, None);
    assert_eq!(draft.rule.kind, DecisionRuleKind::Receipt);
    assert!(draft.rule.second_flag && !draft.rule.first_flag);
    assert!(draft.effective_from.is_empty() && draft.expected_revision.is_empty());
}

#[test]
fn simulation_needs_scope_and_moment() {
    assert_eq!(
        simulation_request(DecisionRuleKind::Wave, None, Some(2), "now").unwrap_err(),
        "Select both a client and facility."
    );
    assert_eq!(
        simulation_request(DecisionRuleKind::Wave, Some(1), Some(2), "  ").unwrap_err(),
        "Enter the effective timestamp to evaluate."
    );
    let request = simulation_request(DecisionRuleKind::Wave, Some(1), Some(2), " t ").unwrap();
    assert_eq!(request.effective_at, "t");
    assert_eq!(
        success_message(ConfigurationCommand::Lifecycle(LifecycleAction::Submit)),
        "Configuration submitted for approval."
    );
    assert_eq!(success_message(ConfigurationCommand::Rollback), "Rollback draft created.");
}

#[test]
fn billing_amounts_and_dates_are_exact() {
    assert_eq!(money(1205, "USD"), "USD 12.05");
    assert_eq!(money(7, "EUR"), "EUR 0.07");
    assert_eq!(money(0, "USD"), "USD 0.00");
    assert_eq!(short_date("2026-08-10T11:22:33Z"), "2026-08-10");
    assert_eq!(short_date("2026-08"), "2026-08");
    assert_eq!(short_date("2026-08-1é"), "2026-08-1é");
    assert_eq!(parse_id("12"), Some(12));
    assert_eq!(parse_id("0"), None);
    assert_eq!(billing_nonblank(" note ".to_owned()), Some(" note ".to_owned()));
    assert_eq!(billing_nonblank("   ".to_owned()), None);
}

#[test]
fn billing_events_pick_their_default_unit() {
    let mut selection = EventSelection {
        event_type: BillableEventType::Accessorial,
        unit: BillingUnit::Event,
    };
    set_event_defaults(&mut selection, "pallet_day");
    assert_eq!(selection.event_type, BillableEventType::PalletDay);
    assert_eq!(selection.unit, BillingUnit::Pallet);
    set_event_defaults(&mut selection, "kit_unit");
    assert_eq!(selection.unit, BillingUnit::Each);
    set_event_defaults(&mut selection, "nothing");
    assert_eq!(selection.event_type, BillableEventType::KitUnit);
    assert_eq!(parse_event("detention_hour"), Some(BillableEventType::DetentionHour));
    assert_eq!(parse_unit("carton"), Some(BillingUnit::Carton));
    assert_eq!(event_label(BillableEventType::ValueAddedServiceUnit), "Value-added service");
    assert_eq!(event_options(true).len(), 7);
    assert_eq!(event_options(false).len(), 15);
    assert_eq!(unit_options().len(), 7);
}

#[test]
fn rate_revision_is_the_latest_of_the_card() {
    let rates = vec![
        RateVersion { contract_id: 1, event_type: BillableEventType::PickLine, revision: 2 },
        RateVersion { contract_id: 1, event_type: BillableEventType::PickLine, revision: 5 },
        RateVersion { contract_id: 2, event_type: BillableEventType::PickLine, revision: 9 },
        RateVersion { contract_id: 1, event_type: BillableEventType::KitUnit, revision: 7 },
    ];
    assert_eq!(rate_expected_revision(&rates, 1, BillableEventType::PickLine), Some(5));
    assert_eq!(rate_expected_revision(&rates, 1, BillableEventType::Accessorial), None);
    assert_eq!(
        rate_label(BillableEventType::PickLine, 150, "USD", BillingUnit::Event, 5),
        "Pick line · USD 1.50 event · rev 5"
    );
}

#[test]
fn billing_commands_need_their_pickers() {
    assert_eq!(create_contract_request(None, "C-1", "USD", "t").unwrap_err(), "Select a client.");
    let contract = create_contract_request(Some(3), "C-1", "USD", "t").unwrap();
    assert_eq!(contract.inventory_owner_id, 3);
    assert_eq!(required_facility(None).unwrap_err(), "Select a facility.");
    assert_eq!(required_facility(Some(8)).unwrap(), 8);
    assert!(!can_approve_run(4, 4, 0));
    assert!(!can_approve_run(4, 5, 1));
    assert!(can_approve_run(4, 5, 0));
    assert!(!has_text("  "));
    assert_eq!(default_selection(None, Some(3)), Some(3));
    assert_eq!(default_selection(Some(1), Some(3)), Some(1));
}

#[test]
fn failed_commands_are_handled_by_kind() {
    let error = |unauthorized, ambiguous_outcome| ApiError {
        message: "Busy.".to_owned(),
        unauthorized,
        ambiguous_outcome,
    };
    assert_eq!(failure_handling(&error(true, true)), FailureHandling::SignOut);
    assert_eq!(failure_handling(&error(false, true)), FailureHandling::KeepForRetry);
    assert_eq!(failure_handling(&error(false, false)), FailureHandling::Discard);
    assert_eq!(
        retry_message("Busy.", "Retry sends the exact saved command."),
        "Busy. Retry sends the exact saved command."
    );
    assert_eq!(next_generation(4), 5);
    assert_eq!(next_generation(u64::MAX), 0);
}

#[test]
fn previous_page_undoes_next_page() {
    let history = vec![None, Some("a".to_owned())];
    let (cursor, forward) = next_page(Some("b".to_owned()), history.clone(), Some("c".to_owned())).unwrap();
    assert_eq!(cursor, Some("c".to_owned()));
    let (back, restored) = previous_page(forward).unwrap();
    assert_eq!(back, Some("b".to_owned()));
    assert_eq!(restored, history);
    assert!(next_page(None, Vec::new(), None).is_none());
    assert!(previous_page(Vec::new()).is_none());
}

#[test]
fn correction_and_discard_reasons_are_checked() {
    assert_eq!(correction_reason("  ").unwrap_err(), "Correction reason is required.");
    assert_eq!(correction_reason(" fixed item ").unwrap(), "fixed item");
    assert_eq!(
        correction_reason(&"x".repeat(501)).unwrap_err(),
        "Correction reason must be 500 characters or fewer."
    );
    assert_eq!(
        correction_reason("a\u{7}b").unwrap_err(),
        "Correction reason must be 500 characters or fewer."
    );
    let request = correction_request(2, "fixed item", Ok::<u8, String>(1)).unwrap();
    assert_eq!(request.expected_revision, 2);
    assert_eq!(request.reason, "fixed item");
    assert_eq!(
        correction_request::<u8>(2, "fixed item", Err("missing field".to_owned())).unwrap_err(),
        "Corrected order JSON is invalid: missing field"
    );
    assert_eq!(
        correction_request::<u8>(2, "", Err("missing field".to_owned())).unwrap_err(),
        "Correction reason is required."
    );
    assert_eq!(discard_reason("").unwrap_err(), "Discard reason is required.");
    assert_eq!(
        discard_reason(&"y".repeat(1001)).unwrap_err(),
        "Discard reason must be at most 1000 control-free characters."
    );
    assert_eq!(discard_reason(" duplicate ").unwrap(), "duplicate");
}

#[test]
fn monitor_decisions_are_exact() {
    assert_eq!(
        page_detail_action(Some(4), Some(4), Some(2), 2, true, MonitorTab::Inbound, MonitorTab::Inbound),
        DetailAction::Reselect(4)
    );
    assert_eq!(
        page_detail_action(Some(4), Some(4), Some(2), 2, true, MonitorTab::Outbound, MonitorTab::Inbound),
        DetailAction::RestorePrevious
    );
    assert_eq!(
        page_detail_action(Some(4), Some(4), Some(2), 2, false, MonitorTab::Inbound, MonitorTab::Inbound),
        DetailAction::ClearSelection
    );
    assert_eq!(
        page_detail_action(Some(4), Some(5), Some(2), 2, true, MonitorTab::Inbound, MonitorTab::Inbound),
        DetailAction::Keep
    );
    assert_eq!(
        change_inbound_sort(
            InboundIntegrationSort::Source,
            IntegrationSortDirection::Ascending,
            InboundIntegrationSort::Source
        ),
        (InboundIntegrationSort::Source, IntegrationSortDirection::Descending)
    );
    assert_eq!(
        change_inbound_sort(
            InboundIntegrationSort::Source,
            IntegrationSortDirection::Descending,
            InboundIntegrationSort::PayloadSize
        ),
        (InboundIntegrationSort::PayloadSize, IntegrationSortDirection::Ascending)
    );
    assert_eq!(
        reprocess_notice(IntegrationOrderProcessingStatus::Processed, Some(81), 1),
        "Inbound order processed as order #81."
    );
    assert_eq!(
        reprocess_notice(IntegrationOrderProcessingStatus::Quarantined, None, 3),
        "Reprocess attempt 3 remains quarantined."
    );
    assert_eq!(replay_notice(2, "order.shipped"), "Replay 2 queued for order.shipped.");
}

#[test]
fn clients_sort_by_column_then_id() {
    let mut clients = vec![
        client(3, "beta", "b@x.test"),
        client(1, "Alpha", "z@x.test"),
        client(2, "alpha", "a@x.test"),
    ];
    sort_clients(&mut clients, SortSpec { key: ClientSort::Name, direction: SortDirection::Ascending });
    assert_eq!(clients.iter().map(|c| c.id).collect::<Vec<_>>(), vec![1, 2, 3]);
    sort_clients(&mut clients, SortSpec { key: ClientSort::Name, direction: SortDirection::Descending });
    assert_eq!(clients.iter().map(|c| c.id).collect::<Vec<_>>(), vec![3, 2, 1]);
    sort_clients(&mut clients, SortSpec { key: ClientSort::Email, direction: SortDirection::Ascending });
    assert_eq!(clients.iter().map(|c| c.id).collect::<Vec<_>>(), vec![2, 3, 1]);
    let shown = filter_clients(clients, "ALPHA".to_ascii_lowercase().as_str());
    assert_eq!(shown.iter().map(|c| c.id).collect::<Vec<_>>(), vec![2, 1]);
}

#[test]
fn permissions_sort_by_description_with_absent_first() {
    let permission = |id, name: &str, description: Option<&str>| Permission {
        id,
        name: name.to_owned(),
        description: description.map(str::to_owned),
        deleted: None,
    };
    let mut rows = vec![
        permission(1, "b", Some("Zeta")),
        permission(2, "a", None),
        permission(3, "c", Some("alpha")),
    ];
    sort_permissions(&mut rows, SortSpec { key: PermissionSort::Description, direction: SortDirection::Ascending });
    assert_eq!(rows.iter().map(|p| p.id).collect::<Vec<_>>(), vec![2, 3, 1]);
}

#[test]
fn forms_check_their_fields() {
    assert_eq!(
        client_form(" Ac ", "ops@acme.test").unwrap_err(),
        "Enter a client name of at least three characters and a valid email."
    );
    assert!(client_form("Aé", "ops@acme.test").is_ok());
    assert_eq!(role_name("  ").unwrap_err(), "Enter a role name.");
    assert_eq!(role_name(" Dock ").unwrap(), "Dock");
    assert_eq!(
        permission_form("view", "ab").unwrap_err(),
        "Permission names and descriptions must be at least three characters."
    );
    assert!(permission_form("view", " ").unwrap().description.is_none());
    assert_eq!(hierarchy_change(Some(2), Some(2), 9), None);
    assert_eq!(hierarchy_change(Some(3), Some(2), 9), Some(HierarchyChange::AddUnder(3)));
    assert_eq!(hierarchy_change(None, Some(2), 9), Some(HierarchyChange::RemoveFrom(2)));
    assert_eq!(hierarchy_change(None, None, 9), None);
    assert_eq!(
        user_update(1, " ", "", "  ", "").unwrap_err(),
        "Enter at least one profile value."
    );
    assert_eq!(user_update(1, " Ana ", "", "", "").unwrap().first_name.as_deref(), Some("Ana"));
    assert_eq!(
        plan_request("0", "2", "Wave", "", false).unwrap_err(),
        "Choose a facility."
    );
    assert_eq!(plan_request("1", "x", "Wave", "", false).unwrap_err(), "Choose a client.");
    assert_eq!(plan_request("1", "2", " ", "", false).unwrap_err(), "Enter a plan name.");
    assert_eq!(plan_request("1", "2", " Wave ", "", false).unwrap().name, "Wave");
    assert_eq!(count_line("5", "6", "1.5", "ea", false).unwrap_err(), "Enter a whole-number count.");
    assert_eq!(
        count_line("5", "6", "-1", "ea", false).unwrap_err(),
        "Count cannot be negative and UOM is required."
    );
    assert_eq!(count_line("5", "6", "12", " case ", false).unwrap().uom, "case");
}

#[test]
fn names_and_labels_are_exact() {
    let user = User {
        id: 4,
        nick_name: Some("  ".to_owned()),
        first_name: Some("Ana".to_owned()),
        last_name: None,
        email: "ana@x.test".to_owned(),
        role_names: Vec::new(),
        deleted: None,
    };
    assert_eq!(user_display_name(&user), "Ana");
    let nobody = User { first_name: None, ..user };
    assert_eq!(user_display_name(&nobody), "ana@x.test");
    let employee = Employee {
        id: 1,
        first_name: "".to_owned(),
        last_name: "Lee".to_owned(),
        title: "Lead".to_owned(),
        employee_type: "Full time".to_owned(),
        email: None,
        phone: None,
        facility_ids: vec![2],
        deleted: None,
    };
    assert_eq!(employee_name(&employee), "Lee");
    let mut draft = EmployeeDraft::new();
    assert!(!draft.valid());
    draft.load(&employee);
    assert!(!draft.valid());
    draft.first_name = " Kim ".to_owned();
    let request = add_employee_request(&draft).unwrap();
    assert_eq!(request.first_name, "Kim");
    assert_eq!(request.facility_ids, vec![2]);
    assert_eq!(request.hired, None);
    draft.clear();
    assert!(add_employee_request(&draft).is_err());
    assert_eq!(
        location_label(&Location { id: 7, name: None, barcode: Some("B-7".to_owned()) }),
        "B-7"
    );
    assert_eq!(location_label(&Location { id: 7, name: None, barcode: None }), "Location #7");
    assert_eq!(
        item_label(&Item { id: 3, sku_names: Vec::new(), description: None }),
        "Item #3"
    );
    assert_eq!(state_notice("Acme", false), "Acme deactivated.");
    assert_eq!(saved_notice("Acme", "created"), "Acme created.");
}

#[test]
fn roles_users_employees_and_plans_sort_and_filter() {
    let role = |id, name: &str, parent: Option<i64>, permissions: &[&str]| Role {
        id,
        name: name.to_owned(),
        description: None,
        parent_id: parent,
        permission_names: permissions.iter().map(|p| p.to_string()).collect(),
        deleted: None,
    };
    let mut roles = vec![
        role(1, "Dock", Some(4), &["receive"]),
        role(2, "Admin", None, &["all", "users"]),
        role(3, "Pick", Some(2), &[]),
    ];
    sort_roles(&mut roles, SortSpec { key: RoleSort::Parent, direction: SortDirection::Ascending });
    assert_eq!(roles.iter().map(|r| r.id).collect::<Vec<_>>(), vec![2, 3, 1]);
    sort_roles(&mut roles, SortSpec { key: RoleSort::Permissions, direction: SortDirection::Descending });
    assert_eq!(roles.iter().map(|r| r.id).collect::<Vec<_>>(), vec![2, 1, 3]);
    let shown = filter_roles(roles, "recei");
    assert_eq!(shown.iter().map(|r| r.id).collect::<Vec<_>>(), vec![1]);

    let user = |id, nick: Option<&str>, email: &str, deleted: bool| User {
        id,
        nick_name: nick.map(str::to_owned),
        first_name: None,
        last_name: None,
        email: email.to_owned(),
        role_names: Vec::new(),
        deleted: deleted.then(|| "2026-01-01".to_owned()),
    };
    let mut users = vec![
        user(1, Some("zed"), "a@x.test", true),
        user(2, None, "b@x.test", false),
        user(3, Some("Amy"), "c@x.test", false),
    ];
    sort_users(&mut users, SortSpec { key: UserSort::Name, direction: SortDirection::Ascending });
    assert_eq!(users.iter().map(|u| u.id).collect::<Vec<_>>(), vec![3, 2, 1]);
    sort_users(&mut users, SortSpec { key: UserSort::Status, direction: SortDirection::Ascending });
    assert_eq!(users.iter().map(|u| u.id).collect::<Vec<_>>(), vec![2, 3, 1]);
    assert_eq!(filter_users(users, "b@").iter().map(|u| u.id).collect::<Vec<_>>(), vec![2]);

    let employee = |id, first: &str, facilities: Vec<i64>| Employee {
        id,
        first_name: first.to_owned(),
        last_name: "Lee".to_owned(),
        title: "Picker".to_owned(),
        employee_type: "Seasonal".to_owned(),
        email: None,
        phone: None,
        facility_ids: facilities,
        deleted: None,
    };
    let mut employees = vec![employee(1, "Bo", vec![1, 2]), employee(2, "Al", vec![3])];
    sort_employees(&mut employees, SortSpec { key: EmployeeSort::Name, direction: SortDirection::Ascending });
    assert_eq!(employees.iter().map(|e| e.id).collect::<Vec<_>>(), vec![2, 1]);
    sort_employees(&mut employees, SortSpec { key: EmployeeSort::Facilities, direction: SortDirection::Descending });
    assert_eq!(employees.iter().map(|e| e.id).collect::<Vec<_>>(), vec![1, 2]);
    assert_eq!(filter_employees(employees, "seasonal").len(), 2);

    let plan = |id, name: Option<&str>, facility| AuditWave {
        id,
        name: name.map(str::to_owned),
        description: None,
        facility_id: facility,
        inventory_owner_id: 1,
        deleted: None,
    };
    let mut plans = vec![plan(1, Some("West"), 9), plan(2, None, 3), plan(3, Some("east"), 3)];
    sort_plans(&mut plans, SortSpec { key: PlanSort::Facility, direction: SortDirection::Ascending });
    assert_eq!(plans.iter().map(|p| p.id).collect::<Vec<_>>(), vec![2, 3, 1]);
    sort_plans(&mut plans, SortSpec { key: PlanSort::Name, direction: SortDirection::Ascending });
    assert_eq!(plans.iter().map(|p| p.id).collect::<Vec<_>>(), vec![2, 3, 1]);
    assert_eq!(filter_plans(plans, "").len(), 3);
}

#[test]
fn permissions_sorted_descending_are_the_reverse_of_ascending() {
    let permission = |id, name: &str| Permission {
        id,
        name: name.to_owned(),
        description: None,
        deleted: None,
    };
    let rows = vec![permission(4, "pick"), permission(1, "Pack"), permission(2, "pack"), permission(3, "audit")];
    let mut ascending = rows.clone();
    sort_permissions(&mut ascending, SortSpec { key: PermissionSort::Name, direction: SortDirection::Ascending });
    let mut descending = rows;
    sort_permissions(&mut descending, SortSpec { key: PermissionSort::Name, direction: SortDirection::Descending });
    let up: Vec<i64> = ascending.iter().map(|p| p.id).collect();
    let mut down: Vec<i64> = descending.iter().map(|p| p.id).collect();
    assert_eq!(up, vec![3, 1, 2, 4]);
    down.reverse();
    assert_eq!(down, up);
}

#[test]
fn plans_sorted_descending_are_the_reverse_of_ascending() {
    let plan = |id, facility_id| AuditWave {
        id,
        name: None,
        description: None,
        facility_id,
        inventory_owner_id: 1,
        deleted: None,
    };
    let rows = vec![plan(5, 2), plan(1, 9), plan(3, 2)];
    let mut ascending = rows.clone();
    sort_plans(&mut ascending, SortSpec { key: PlanSort::Facility, direction: SortDirection::Ascending });
    let mut descending = rows;
    sort_plans(&mut descending, SortSpec { key: PlanSort::Facility, direction: SortDirection::Descending });
    let up: Vec<i64> = ascending.iter().map(|p| p.id).collect();
    let mut down: Vec<i64> = descending.iter().map(|p| p.id).collect();
    assert_eq!(up, vec![3, 5, 1]);
    down.reverse();
    assert_eq!(down, up);
}

#[test]
fn superseded_page_response_changes_nothing() {
    let mut list = PageList {
        generation: 0,
        page: vec![1i64],
        cursor: None,
        history: Vec::new(),
        loading: false,
        error: None,
    };
    let first = start_page(&mut list);
    let second = start_page(&mut list);
    assert_eq!(second, first + 1);
    let stale = receive_page(&mut list, first, Some("c".to_owned()), vec![None], Ok(vec![9]));
    assert_eq!(stale, PageOutcome::Stale);
    assert_eq!(list.page, vec![1]);
    assert!(list.loading);
    assert_eq!(list.cursor, None);
    let failed = receive_page(
        &mut list,
        first,
        None,
        Vec::new(),
        Err(ApiError { message: "gone".to_owned(), unauthorized: true, ambiguous_outcome: false }),
    );
    assert_eq!(failed, PageOutcome::Stale);
    assert!(list.loading);
    let loaded = receive_page(&mut list, second, Some("c".to_owned()), vec![None], Ok(vec![9]));
    assert_eq!(loaded, PageOutcome::Loaded);
    assert_eq!(list.page, vec![9]);
    assert_eq!(list.cursor, Some("c".to_owned()));
    assert_eq!(list.history, vec![None]);
    assert!(!list.loading);
    let _ = start_page(&mut list);
    let current = list.generation;
    let outcome = receive_page(
        &mut list,
        current,
        None,
        Vec::new(),
        Err(ApiError { message: "down".to_owned(), unauthorized: false, ambiguous_outcome: false }),
    );
    assert_eq!(outcome, PageOutcome::Failed);
    assert_eq!(list.error, Some("down".to_owned()));
    assert_eq!(list.page, vec![9]);
}

#[test]
fn facilities_are_assigned_after_create_only_when_chosen() {
    assert!(facilities_after_create(7, Vec::new()).is_none());
    let assign = facilities_after_create(7, vec![2, 5]).unwrap();
    assert_eq!(assign.inventory_owner_id, 7);
    assert_eq!(assign.facility_ids, vec![2, 5]);
}
