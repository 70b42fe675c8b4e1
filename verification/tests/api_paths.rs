use web_ops::api::automation;
use web_ops::api::order::order_entry_items_path;
use web_ops::api::billing::{self, BillingFilters};
use web_ops::api::carrier;
use web_ops::api::configuration::{self, ConfigurationFilters};
use web_ops::api::customer_portal::{self, CustomerPortalFilters};
use web_ops::api::customer_return::{self, CustomerReturnFilters};
use web_ops::api::cycle_count;
use web_ops::api::data_cells::{self, DataCellEventPageRequest, DataCellPageRequest};
use web_ops::api::dynamic_release;
use web_ops::api::expected_receiving;
use web_ops::api::inbound_asn::{self, InboundAsnFilters};
use web_ops::api::integration_mapping::{
    self, IntegrationMappingFilters, IntegrationOwnerMappingFilters,
};
use web_ops::api::integration_monitor::{self, OutboundIntegrationFilters};
use web_ops::api::inventory_integrity::{self, AgingFilters, JournalFilters};
use web_ops::api::item_storage_policy;
use web_ops::api::item_substitution;
use web_ops::api::item_traceability_policy::{self, ItemTraceabilityPolicyFilters};
use web_ops::api::labor::{
    self, LaborFilters, LaborReferenceCandidatePageRequest, LaborRosterPageRequest,
};
use web_ops::api::pick_cluster;
use web_ops::api::pick_wave;
use web_ops::api::pick_zone;
use web_ops::api::purchase_order::{self, PurchaseOrderFilters};
use web_ops::api::putaway;
use web_ops::api::service_accounts::{
    self, ServiceAccountEventPageRequest, ServiceAccountPageRequest,
};
use web_ops::api::shipping_printing;
use web_ops::api::slotting::{
    self, SlottingProfilePageRequest, SlottingRecommendationPageRequest,
};
use web_ops::api::storage_zone;
use web_ops::api::support_access::{
    self, SupportAccessEventPageRequest, SupportAccessPageRequest,
};
use web_ops::api::tenant_lifecycle::{
    self, TenantLifecycleEventPageRequest, TenantLifecyclePageRequest,
};
use web_ops::api::{
    pick_confirmation_history_path, pick_reversal_path, pick_shortage_page_path,
    replenishment_cancellation_path, replenishment_policy_page_path,
    replenishment_queue_page_path, PickShortageFilters, ReplenishmentPolicyFilters,
    ReplenishmentQueueFilters,
};
use web_ops::contract::{
    ConfigurationStatus, CustomerReturnStatus, CycleCountCandidateSort, CycleCountSortDirection,
    CycleCountWorkSort, CycleCountWorkStatus, DataCellStatus, DecisionRuleKind, InboundAsnStatus,
    IntegrationOrderItemMappingStatus, IntegrationOrderOwnerMappingStatus,
    IntegrationSortDirection, InventoryAgingBucket, InventoryAgingSort, InventoryBalanceStatus,
    InventoryJournalSort, InventoryRecallStatus, InventorySortDirection,
    ItemStoragePolicyStatus, ItemTraceabilityPolicyStatus, LaborActivityKind, LaborQuantityBasis,
    OutboundDeliveryStatus, OutboundIntegrationSort, PickShortageQueueSort,
    PickShortageQueueSortDirection, PickShortageStatus, PickWaveSort, PickWaveSortDirection,
    PickWaveStatus, PurchaseOrderStatus, PutawayCandidateSort, PutawaySortDirection,
    PutawayWorkSort, PutawayWorkStatus, PutawayWorkflow, ReplenishmentPolicySort,
    ReplenishmentPolicySortDirection, ReplenishmentWorkSort, ReplenishmentWorkSortDirection,
    ReplenishmentWorkStatus, ServiceAccountStatus, SlottingRecommendationStatus,
    StorageZonePurpose, StorageZoneStatus, SupportAccessStatus, TenantStatus,
    TraceabilityRequirement,
};

#[test]
fn replenishment_policy_cursor_is_encoded_and_filters_are_stable() {
    let cursor = "rp2.a.2.a.a.g.d.0000000000000001";
    assert_eq!(
        replenishment_policy_page_path(
            ReplenishmentPolicyFilters {
                facility_id: Some(3),
                inventory_owner_id: Some(4),
                item_id: Some(5),
                pick_face_location_id: Some(6),
                sort: ReplenishmentPolicySort::Outcome,
                direction: ReplenishmentPolicySortDirection::Ascending,
            },
            Some(cursor),
        ),
        "/api/v1/replenishment-policies?limit=100&sort=outcome&direction=ascending&facility_id=3&inventory_owner_id=4&item_id=5&pick_face_location_id=6&cursor=rp2.a.2.a.a.g.d.0000000000000001"
    );
}

#[test]
fn replenishment_queue_omits_status_for_the_open_work_default() {
    assert_eq!(
        replenishment_queue_page_path(ReplenishmentQueueFilters::default(), None,),
        "/api/v1/replenishment-queue?limit=100&sort=priority&direction=descending"
    );
    let claimed = replenishment_queue_page_path(
        ReplenishmentQueueFilters {
            status: Some(ReplenishmentWorkStatus::Claimed),
            sort: ReplenishmentWorkSort::Lease,
            direction: ReplenishmentWorkSortDirection::Ascending,
            ..ReplenishmentQueueFilters::default()
        },
        None,
    );
    assert!(claimed.contains("sort=lease&direction=ascending"));
    assert!(claimed.ends_with("&status=claimed"));
}

#[test]
fn replenishment_cancellation_targets_one_typed_work_resource() {
    assert_eq!(
        replenishment_cancellation_path(42),
        "/api/v1/replenishment-tasks/42/cancellations"
    );
}

#[test]
fn pick_shortage_path_uses_business_order_key_and_server_sort() {
    let cursor = "ps3.cursor";
    let path = pick_shortage_page_path(
        &PickShortageFilters {
            facility_id: Some(3),
            inventory_owner_id: Some(4),
            order_id: None,
            order_key: Some("ORDER 5/BLUE".to_owned()),
            status: Some(PickShortageStatus::RecoveryInProgress),
            sort: PickShortageQueueSort::RemainingQuantity,
            direction: PickShortageQueueSortDirection::Ascending,
        },
        Some(cursor),
    );
    assert_eq!(
        path,
        "/api/v1/pick-shortages?limit=100&sort=remaining_quantity&direction=ascending&facility_id=3&inventory_owner_id=4&order_key=ORDER%205%2FBLUE&status=recovery_in_progress&cursor=ps3.cursor"
    );
}

#[test]
fn pick_history_cursor_and_reversal_paths_are_stable() {
    let cursor = "pc1.encoded";
    assert_eq!(
        pick_confirmation_history_path(17, Some(cursor)),
        "/api/v1/orders/17/pick-confirmations?limit=50&cursor=pc1.encoded"
    );
    assert_eq!(
        pick_reversal_path(23),
        "/api/v1/pick-confirmations/23/reversals"
    );
}

#[test]
fn workspace_path_binds_exact_facility_and_history() {
    assert_eq!(
        automation::workspace_path(Some(17), true),
        "/api/v1/automation/workspace?include_history=true&facility_id=17"
    );
    assert_eq!(
        automation::workspace_path(None, false),
        "/api/v1/automation/workspace?include_history=false"
    );
}

#[test]
fn workspace_path_binds_owner_and_contract() {
    assert_eq!(
        billing::workspace_path(BillingFilters {
            inventory_owner_id: Some(7),
            contract_id: Some(9),
        }),
        "/api/v1/billing/workspace?limit=100&inventory_owner_id=7&contract_id=9"
    );
}

#[test]
fn carrier_history_paths_bind_exact_scopes_and_cursors() {
    let cursor = "cmj1.0001.0002";
    assert_eq!(
        carrier::account_page_path(3, 4, true, None, 20),
        "/api/v1/carrier-accounts?inventory_owner_id=3&facility_id=4&include_disabled=true&limit=20"
    );
    assert_eq!(
        carrier::job_page_path(7, Some(cursor), 10),
        "/api/v1/shipments/7/carrier-manifest-jobs?limit=10&cursor=cmj1.0001.0002"
    );
}

#[test]
fn page_path_binds_every_filter_and_encodes_cursor() {
    let cursor = "cfg1.filter/next";
    assert_eq!(
        configuration::page_path(
            ConfigurationFilters {
                kind: Some(DecisionRuleKind::Billing),
                status: Some(ConfigurationStatus::Active),
                inventory_owner_id: Some(2),
                facility_id: Some(3),
            },
            Some(cursor),
        ),
        "/api/v1/configurations?limit=100&kind=billing&status=active&inventory_owner_id=2&facility_id=3&cursor=cfg1.filter%2Fnext"
    );
}

#[test]
fn paths_bind_scope_history_and_encoded_search() {
    let filters = CustomerPortalFilters {
        inventory_owner_id: Some(5),
        facility_id: Some(8),
        search: Some("SO 10/2".into()),
        include_history: true,
    };
    assert_eq!(
        customer_portal::customer_portal_path(&filters),
        "/api/v1/portal/workspace?include_history=true&inventory_owner_id=5&facility_id=8&search=SO%2010%2F2"
    );
    assert!(customer_portal::customer_portal_inventory_report_path(&filters)
        .starts_with("/api/v1/portal/reports/inventory.csv?include_history=true"));
}

#[test]
fn return_page_path_binds_filters_and_cursor() {
    let cursor = "cr1.cursor+/=";
    assert_eq!(
        customer_return::page_path(
            &CustomerReturnFilters {
                facility_id: Some(7),
                inventory_owner_id: Some(9),
                status: Some(CustomerReturnStatus::Open),
                search: Some("RMA 100/2".into()),
            },
            Some(cursor),
        ),
        "/api/v1/customer-returns?limit=100&facility_id=7&inventory_owner_id=9&status=open&search=RMA%20100%2F2&cursor=cr1.cursor%2B%2F%3D"
    );
}

#[test]
fn candidate_path_keeps_sort_and_filters_server_side() {
    let cursor = "cc1.cursor";
    let path = cycle_count::candidate_page_path(
        Some(7),
        Some(9),
        Some(InventoryBalanceStatus::Quarantine),
        CycleCountCandidateSort::Quantity,
        CycleCountSortDirection::Desc,
        Some(cursor),
    );
    assert!(path.contains("sort=quantity&direction=desc"));
    assert!(path.contains("facility_id=7"));
    assert!(path.contains("inventory_owner_id=9"));
    assert!(path.contains("inventory_status=quarantine"));
    assert!(path.contains("cursor=cc1.cursor"));
}

#[test]
fn work_path_encodes_explicit_history_status() {
    let path = cycle_count::work_page_path(
        None,
        None,
        Some(CycleCountWorkStatus::Completed),
        CycleCountWorkSort::Variance,
        CycleCountSortDirection::Asc,
        None,
    );
    assert!(path.contains("sort=variance&direction=asc"));
    assert!(path.contains("status=completed"));
}

#[test]
fn paths_bind_filters_and_cursors() {
    let path = data_cells::page_path(&DataCellPageRequest {
        status: Some(DataCellStatus::Active),
        region: Some("us-west-2".into()),
        cursor: Some("dcp1.a/b+c".to_owned()),
        limit: 25,
    });
    assert_eq!(
        path,
        "/api/v1/platform/data-cells?limit=25&status=active&region=us-west-2&cursor=dcp1.a%2Fb%2Bc"
    );
    let events = data_cells::event_path(
        42,
        &DataCellEventPageRequest {
            cursor: Some("dce1.a/b+c".to_owned()),
            limit: 10,
        },
    );
    assert_eq!(
        events,
        "/api/v1/platform/data-cells/42/events?limit=10&cursor=dce1.a%2Fb%2Bc"
    );
}

#[test]
fn readiness_path_preserves_exact_owner_facility_scope() {
    assert_eq!(
        dynamic_release::readiness_path(17, 23),
        "/api/v1/dynamic-releases/readiness?facility_id=17&inventory_owner_id=23"
    );
}

#[test]
fn session_path_targets_the_scoped_v1_read_model() {
    assert_eq!(
        expected_receiving::expected_receiving_session_path(42),
        "/api/v1/expected-receiving/loads/42"
    );
}

#[test]
fn inbound_asn_page_path_binds_filters_and_cursor() {
    let cursor = "ia1.cursor+/=";
    let path = inbound_asn::inbound_asn_page_path(
        &InboundAsnFilters {
            facility_id: Some(7),
            inventory_owner_id: Some(9),
            status: Some(InboundAsnStatus::Open),
            search: Some("ASN 100/2".into()),
        },
        Some(cursor),
    );
    assert_eq!(
        path,
        "/api/v1/inbound-asns?limit=100&facility_id=7&inventory_owner_id=9&status=open&search=ASN%20100%2F2&cursor=ia1.cursor%2B%2F%3D"
    );
}

#[test]
fn page_path_encodes_scope_and_cursor() {
    let filters = IntegrationMappingFilters {
        inventory_owner_id: Some(7),
        source_key: Some("retail api".into()),
        item_id: Some(11),
        status: Some(IntegrationOrderItemMappingStatus::Retired),
    };
    let cursor = "iom1.filter.0000000000000009";
    assert_eq!(
        integration_mapping::mapping_page_path(&filters, Some(cursor)),
        "/api/v1/integration-order-item-mappings?limit=100&inventory_owner_id=7&source_key=retail%20api&item_id=11&status=retired&cursor=iom1.filter.0000000000000009"
    );
}

#[test]
fn owner_page_path_encodes_scope_and_cursor() {
    let filters = IntegrationOwnerMappingFilters {
        inventory_owner_id: Some(7),
        source_key: Some("retail api".into()),
        status: Some(IntegrationOrderOwnerMappingStatus::Retired),
    };
    let cursor = "ioo1.filter.0000000000000009";
    assert_eq!(
        integration_mapping::owner_mapping_page_path(&filters, Some(cursor)),
        "/api/v1/integration-order-owner-mappings?limit=100&inventory_owner_id=7&source_key=retail%20api&status=retired&cursor=ioo1.filter.0000000000000009"
    );
}

#[test]
fn outbound_path_binds_server_sort_filters_and_cursor() {
    let cursor = "imo1.filter.0000000000000064";
    let path = integration_monitor::outbound_path(
        &OutboundIntegrationFilters {
            query: Some("shipping event".to_owned()),
            status: Some(OutboundDeliveryStatus::DeadLettered),
            facility_id: Some(4),
            inventory_owner_id: Some(8),
            ..Default::default()
        },
        OutboundIntegrationSort::Attempts,
        IntegrationSortDirection::Descending,
        Some(cursor),
    );
    assert_eq!(
        path,
        "/api/v1/integration-monitor/outbound?limit=100&sort=attempts&direction=descending&query=shipping%20event&status=dead_lettered&facility_id=4&inventory_owner_id=8&cursor=imo1.filter.0000000000000064"
    );
}

#[test]
fn replay_path_is_event_scoped() {
    assert_eq!(
        format!("/api/v1/integration-monitor/outbound/{}/replays", 44),
        "/api/v1/integration-monitor/outbound/44/replays"
    );
    assert_eq!(
        web_ops::api::resource_path("/api/v1/integration-monitor/outbound/", 44, "/replays"),
        "/api/v1/integration-monitor/outbound/44/replays"
    );
}

#[test]
fn discard_path_is_event_scoped() {
    assert_eq!(
        format!("/api/v1/integration-monitor/outbound/{}/discards", 44),
        "/api/v1/integration-monitor/outbound/44/discards"
    );
    assert_eq!(
        web_ops::api::resource_path("/api/v1/integration-monitor/outbound/", 44, "/discards"),
        "/api/v1/integration-monitor/outbound/44/discards"
    );
}

#[test]
fn inbound_payload_download_is_receipt_scoped() {
    assert_eq!(
        integration_monitor::inbound_payload_download_path(37),
        "/api/v1/integration-monitor/inbound/37/payload"
    );
}

#[test]
fn inbound_reprocessing_is_receipt_scoped() {
    assert_eq!(
        format!("/api/v1/integration-monitor/inbound/{}/reprocessings", 37),
        "/api/v1/integration-monitor/inbound/37/reprocessings"
    );
    assert_eq!(
        web_ops::api::resource_path("/api/v1/integration-monitor/inbound/", 37, "/reprocessings"),
        "/api/v1/integration-monitor/inbound/37/reprocessings"
    );
}

#[test]
fn journal_paths_encode_trace_filters_sort_and_cursor() {
    let cursor = "ij1.cursor";
    let path = inventory_integrity::journal_path(
        &JournalFilters {
            query: Some("LOT A/1".to_owned()),
            facility_id: Some(7),
            item_batch_id: Some(9),
            ..Default::default()
        },
        InventoryJournalSort::NetQuantity,
        InventorySortDirection::Ascending,
        Some(cursor),
    );
    assert!(path.contains("query=LOT%20A%2F1"));
    assert!(path.contains("facility_id=7"));
    assert!(path.contains("item_batch_id=9"));
    assert!(path.contains("sort=net_quantity&direction=ascending"));
    assert!(path.contains("cursor=ij1.cursor"));
}

#[test]
fn aging_paths_bind_risk_sort_and_search() {
    let path = inventory_integrity::aging_path(
        &AgingFilters {
            query: Some("LOT A/1".to_owned()),
            facility_id: Some(7),
            bucket: Some(InventoryAgingBucket::DueWithin30Days),
            ..Default::default()
        },
        InventoryAgingSort::Expiration,
        InventorySortDirection::Ascending,
        None,
    );
    assert!(path.contains("query=LOT%20A%2F1"));
    assert!(path.contains("facility_id=7"));
    assert!(path.contains("bucket=due_within_30_days"));
    assert!(path.contains("sort=expiration&direction=ascending"));
}

#[test]
fn recall_paths_bind_scope_status_and_cursor() {
    let cursor = "ir1.cursor";
    let path = inventory_integrity::recall_path(
        Some(7),
        Some(8),
        Some(InventoryRecallStatus::Active),
        Some(cursor),
    );
    assert_eq!(
        path,
        "/api/v1/inventory/recalls?limit=100&facility_id=7&inventory_owner_id=8&status=active&cursor=ir1.cursor"
    );
}

#[test]
fn page_path_binds_every_filter_to_the_cursor_request() {
    let cursor = "isp1.filter.0000000000000001";
    assert_eq!(
        item_storage_policy::page_path(
            Some(2),
            Some(3),
            Some(4),
            Some(StorageZonePurpose::Pick),
            ItemStoragePolicyStatus::Retired,
            Some(cursor),
        ),
        "/api/v1/item-storage-policies?limit=100&status=retired&inventory_owner_id=2&facility_id=3&item_id=4&purpose=pick&cursor=isp1.filter.0000000000000001"
    );
}

#[test]
fn policy_list_path_binds_scope_source_and_lifecycle() {
    assert_eq!(
        item_substitution::policy_list_path(2, 3, 4, true),
        "/api/v1/item-substitution-policies?inventory_owner_id=2&facility_id=3&source_item_id=4&active_only=true"
    );
}

#[test]
fn page_path_includes_identity_filters_and_cursor() {
    let cursor = "itp1.filter.0000000000000001";
    assert_eq!(
        item_traceability_policy::page_path(
            ItemTraceabilityPolicyFilters {
                inventory_owner_id: Some(2),
                facility_id: Some(3),
                item_id: Some(4),
                lot: Some(TraceabilityRequirement::Required),
                serial: None,
                expiration: Some(TraceabilityRequirement::Required),
                status: ItemTraceabilityPolicyStatus::Retired,
            },
            Some(cursor),
        ),
        "/api/v1/item-traceability-policies?limit=100&status=retired&inventory_owner_id=2&facility_id=3&item_id=4&lot=required&expiration=required&cursor=itp1.filter.0000000000000001"
    );
}

#[test]
fn workspace_path_binds_scope_employee_window_and_history() {
    assert_eq!(
        labor::workspace_path(&LaborFilters {
            facility_id: Some(7),
            inventory_owner_id: Some(9),
            employee_id: Some(11),
            from: Some("2026-08-14T07:00:00Z".into()),
            until: Some("2026-08-15T07:00:00Z".into()),
            include_history: true,
        }),
        "/api/v1/labor/workspace?include_history=true&facility_id=7&inventory_owner_id=9&employee_id=11&from=2026-08-14T07%3A00%3A00Z&until=2026-08-15T07%3A00%3A00Z"
    );
}

#[test]
fn workspace_path_keeps_server_default_window_when_dates_are_absent() {
    assert_eq!(
        labor::workspace_path(&LaborFilters::default()),
        "/api/v1/labor/workspace?include_history=false"
    );
}

#[test]
fn candidate_paths_preserve_typed_scope_and_cursor() {
    let cursor = "lr1.abc".to_owned();
    assert_eq!(
        labor::roster_path(&LaborRosterPageRequest {
            facility_id: 7,
            inventory_owner_id: Some(9),
            limit: 25,
            cursor: Some(cursor),
        }),
        "/api/v1/labor/roster?facility_id=7&limit=25&inventory_owner_id=9&cursor=lr1.abc"
    );
    assert_eq!(
        labor::reference_candidates_path(&LaborReferenceCandidatePageRequest {
            facility_id: 7,
            inventory_owner_id: Some(9),
            employee_id: 11,
            activity_kind: LaborActivityKind::Picking,
            quantity_basis: LaborQuantityBasis::Unit,
            limit: 50,
            cursor: None,
        }),
        "/api/v1/labor/reference-candidates?facility_id=7&employee_id=11&activity_kind=picking&quantity_basis=unit&limit=50&inventory_owner_id=9"
    );
}

#[test]
fn mod_workspace_path_keeps_exact_owner_and_facility_scope() {
    assert_eq!(
        pick_cluster::workspace_path(4, 9, true),
        "/api/v1/pick-clusters/workspace?facility_id=4&inventory_owner_id=9&include_history=true"
    );
    assert_eq!(
        pick_zone::workspace_path(4, 9),
        "/api/v1/pick-zones/workspace?facility_id=4&inventory_owner_id=9"
    );
}

#[test]
fn page_path_preserves_global_sort_filters_and_cursor() {
    let cursor = "pw1.a.p.units.desc.0000000000000064";
    assert_eq!(
        pick_wave::pick_wave_page_path(
            Some(4),
            Some(PickWaveStatus::Planned),
            PickWaveSort::Units,
            PickWaveSortDirection::Desc,
            Some(cursor),
        ),
        "/api/v1/pick-waves?limit=100&sort=units&direction=desc&facility_id=4&status=planned&cursor=pw1.a.p.units.desc.0000000000000064"
    );
}

#[test]
fn purchase_order_page_path_binds_filters_and_cursor() {
    let cursor = "po1.cursor+/=";
    let path = purchase_order::purchase_order_page_path(
        &PurchaseOrderFilters {
            facility_id: Some(7),
            inventory_owner_id: Some(9),
            status: Some(PurchaseOrderStatus::Draft),
            search: Some("PO 100/2".into()),
        },
        Some(cursor),
    );
    assert_eq!(
        path,
        "/api/v1/purchase-orders?limit=100&facility_id=7&inventory_owner_id=9&status=draft&search=PO%20100%2F2&cursor=po1.cursor%2B%2F%3D"
    );
}

#[test]
fn candidate_path_preserves_server_sort_and_cursor() {
    let cursor = "pc1.0000000000000004.a.l.quantity.desc.0000000000000064";
    let path = putaway::candidate_page_path(
        Some(4),
        None,
        Some(PutawayWorkflow::Loose),
        PutawayCandidateSort::Quantity,
        PutawaySortDirection::Desc,
        Some(cursor),
    );
    assert!(path.contains("sort=quantity&direction=desc"));
    assert!(path.contains("facility_id=4&workflow=loose"));
    assert!(path.contains(cursor));
}

#[test]
fn work_path_preserves_lifecycle_and_server_sort() {
    let path = putaway::work_page_path(
        None,
        Some(8),
        Some(PutawayWorkflow::LicensePlate),
        Some(PutawayWorkStatus::Claimed),
        PutawayWorkSort::Priority,
        PutawaySortDirection::Asc,
        None,
    );
    assert!(path.contains("sort=priority&direction=asc"));
    assert!(path.contains("inventory_owner_id=8&workflow=license_plate"));
    assert!(path.contains("status=claimed"));
}

#[test]
fn service_account_paths_bind_status_account_and_cursor() {
    let page = service_accounts::page_path(&ServiceAccountPageRequest {
        status: Some(ServiceAccountStatus::Disabled),
        cursor: Some("sac1.a/b+c".to_owned()),
        limit: 25,
    });
    assert_eq!(
        page,
        "/api/v1/service-accounts?limit=25&status=disabled&cursor=sac1.a%2Fb%2Bc"
    );
    let events = service_accounts::event_page_path(
        41,
        &ServiceAccountEventPageRequest {
            cursor: Some("sae1.a/b+c".to_owned()),
            limit: 50,
        },
    );
    assert_eq!(
        events,
        "/api/v1/service-accounts/41/events?limit=50&cursor=sae1.a%2Fb%2Bc"
    );
}

#[test]
fn print_history_path_binds_document_cursor_and_limit() {
    let cursor = "sdp1.0000000000000001.0000000000000002";
    assert_eq!(
        shipping_printing::print_job_page_path(7, Some(cursor), 25),
        "/api/v1/shipment-documents/7/print-jobs?limit=25&cursor=sdp1.0000000000000001.0000000000000002"
    );
}

#[test]
fn profile_path_preserves_scope_history_and_cursor() {
    let request = SlottingProfilePageRequest {
        inventory_owner_id: Some(12),
        facility_id: Some(8),
        include_history: true,
        cursor: Some("sp1.scope/a+b".to_owned()),
        limit: 75,
    };
    assert_eq!(
        slotting::profile_page_path(&request),
        "/api/v1/slotting/profiles?limit=75&include_history=true&inventory_owner_id=12&facility_id=8&cursor=sp1.scope%2Fa%2Bb"
    );
}

#[test]
fn recommendation_path_preserves_decision_filters() {
    let request = SlottingRecommendationPageRequest {
        inventory_owner_id: Some(12),
        facility_id: Some(8),
        slotting_run_id: Some(99),
        status: Some(SlottingRecommendationStatus::Dismissed),
        cursor: None,
        limit: 25,
    };
    assert_eq!(
        slotting::recommendation_page_path(&request),
        "/api/v1/slotting/recommendations?limit=25&inventory_owner_id=12&facility_id=8&slotting_run_id=99&status=dismissed"
    );
}

#[test]
fn page_path_contains_stable_filter_identity() {
    let cursor = "sz1.filter.00000000.0000000000000001";
    assert_eq!(
        storage_zone::page_path(
            Some(4),
            Some(StorageZonePurpose::Pick),
            Some(StorageZoneStatus::Retired),
            Some(cursor),
        ),
        "/api/v1/storage-zones?limit=100&facility_id=4&purpose=pick&status=retired&cursor=sz1.filter.00000000.0000000000000001"
    );
}

#[test]
fn support_paths_bind_every_filter_and_cursor() {
    assert_eq!(
        support_access::page_path(&SupportAccessPageRequest {
            tenant_id: Some(9),
            status: Some(SupportAccessStatus::Active),
            cursor: Some("sag1.a/b+c".to_owned()),
            limit: 25,
        }),
        "/api/v1/platform/support-access?limit=25&tenant_id=9&status=active&cursor=sag1.a%2Fb%2Bc"
    );
    assert_eq!(
        support_access::event_path(
            4,
            &SupportAccessEventPageRequest {
                cursor: None,
                limit: 50,
            }
        ),
        "/api/v1/platform/support-access/4/events?limit=50"
    );
}

#[test]
fn lifecycle_paths_bind_filters_target_and_cursor() {
    let path = tenant_lifecycle::page_path(&TenantLifecyclePageRequest {
        status: Some(TenantStatus::Suspended),
        search: Some("North west/3PL".into()),
        cursor: Some("tlc1.a/b+c".to_owned()),
        limit: 25,
    });
    assert_eq!(
        path,
        "/api/v1/platform/tenants?limit=25&status=suspended&search=North%20west%2F3PL&cursor=tlc1.a%2Fb%2Bc"
    );
    assert_eq!(
        tenant_lifecycle::event_page_path(
            9,
            &TenantLifecycleEventPageRequest {
                cursor: None,
                limit: 50,
            }
        ),
        "/api/v1/platform/tenants/9/events?limit=50"
    );
}

#[test]
fn order_entry_items_path_trims_and_encodes_the_search() {
    assert_eq!(
        order_entry_items_path(7, "  red tape "),
        "/api/v1/inventory-owners/7/order-entry-items?limit=50&search=red%20tape"
    );
    assert_eq!(order_entry_items_path(7, "   "), "/api/v1/inventory-owners/7/order-entry-items?limit=50");
    assert_eq!(order_entry_items_path(-3, ""), "/api/v1/inventory-owners/-3/order-entry-items?limit=50");
}
