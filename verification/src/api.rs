//! Request paths of the browser API client, the error it reports, and the
//! keys that make commands idempotent.
pub mod automation;
pub mod billing;
pub mod carrier;
pub mod configuration;
pub mod customer_portal;
pub mod customer_return;
pub mod cycle_count;
pub mod data_cells;
pub mod dynamic_release;
pub mod expected_receiving;
pub mod inbound_asn;
pub mod integration_mapping;
pub mod integration_monitor;
pub mod inventory_integrity;
pub mod item_storage_policy;
pub mod item_substitution;
pub mod item_traceability_policy;
pub mod order;
pub mod labor;
pub mod pick_cluster;
pub mod pick_wave;
pub mod pick_zone;
pub mod purchase_order;
pub mod putaway;
pub mod service_accounts;
pub mod shipping_printing;
pub mod slotting;
pub mod storage_zone;
pub mod support_access;
pub mod tenant_cell_moves;
pub mod tenant_lifecycle;

use vstd::prelude::*;
use crate::contract::{
    InventoryBalanceSort, InventoryHoldStatus, InventorySortDirection, PickShortageQueueSort,
    PickShortageQueueSortDirection, PickShortageStatus, ReplenishmentPolicySort,
    ReplenishmentPolicySortDirection, ReplenishmentWorkSort, ReplenishmentWorkSortDirection,
    ReplenishmentWorkStatus,
};
use crate::text::{decimal, push_i64, push_digits, digits};
use crate::url::{
    append_optional_encoded, append_optional_id, append_optional_nonempty, append_optional_raw,
    has_param, opt_encoded_param, opt_id_param, opt_nonempty_param, opt_raw_param, opt_str_view,
    opt_string_view, url_encoded,
};

verus! {

/// An error of the API client, as the screens show it.
#[derive(Debug, Clone, PartialEq, Eq)]
pub struct ApiError {
    pub message: String,
    pub unauthorized: bool,
    /// The request may have reached the server, so an idempotent command must reuse its key.
    pub ambiguous_outcome: bool,
}

/// Whether an HTTP status is a success (`200..300`).
pub open spec fn is_success_status(status: u16) -> bool {
    200 <= status < 300
}

/// The message shown when the server rejects a request: the server's own
/// message (with its request id, when it gave one), or a note with the
/// HTTP status when the body could not be read.
pub open spec fn rejection_message(
    status: u16,
    wire_message: Option<Seq<char>>,
    request_id: Seq<char>,
) -> Seq<char> {
    match wire_message {
        Some(m) => if request_id.len() == 0 {
            m
        } else {
            m + " (request "@ + request_id + ")"@
        },
        None => "The server rejected the request with HTTP "@ + decimal(status as int) + "."@,
    }
}

impl ApiError {
    /// The error of every request made while the page is rendered on the server.
    pub fn unavailable() -> (r: ApiError)
        ensures
            r.message@ == "The browser API client is unavailable during server rendering."@,
            !r.unauthorized,
            !r.ambiguous_outcome,
    {
        ApiError {
            message: String::from_str(
                "The browser API client is unavailable during server rendering.",
            ),
            unauthorized: false,
            ambiguous_outcome: false,
        }
    }

    /// The error of a request that never got an answer: it may have reached
    /// the server, so its outcome is ambiguous.
    pub fn unreachable(detail: &str) -> (r: ApiError)
        ensures
            r.message@ == "Wareboxes could not reach the server: "@ + detail@,
            !r.unauthorized,
            r.ambiguous_outcome,
    {
        let mut message = String::from_str("Wareboxes could not reach the server: ");
        message.append(detail);
        ApiError { message, unauthorized: false, ambiguous_outcome: true }
    }

    /// The error of a successful status whose body could not be read: the
    /// command may have been applied, so its outcome is ambiguous.
    pub fn unreadable_response(detail: &str) -> (r: ApiError)
        ensures
            r.message@ == "The server returned an unreadable response: "@ + detail@,
            !r.unauthorized,
            r.ambiguous_outcome,
    {
        let mut message = String::from_str("The server returned an unreadable response: ");
        message.append(detail);
        ApiError { message, unauthorized: false, ambiguous_outcome: true }
    }

    /// The error of a request that could not be built, so it was never sent.
    pub fn unprepared(context: &str, detail: &str) -> (r: ApiError)
        ensures
            r.message@ == context@ + ": "@ + detail@,
            !r.unauthorized,
            !r.ambiguous_outcome,
    {
        let mut message = String::from_str(context);
        message.append(": ");
        message.append(detail);
        ApiError { message, unauthorized: false, ambiguous_outcome: false }
    }

    /// The error of a request that the server answered with a status outside
    /// `200..300`: unauthorized exactly on 401, never ambiguous.
    pub fn rejected(status: u16, wire_message: Option<&str>, request_id: &str) -> (r: ApiError)
        ensures
            r.message@ == rejection_message(status, opt_str_view(wire_message), request_id@),
            r.unauthorized == (status == 401),
            !r.ambiguous_outcome,
    {
        let message = match wire_message {
            Some(m) => {
                let mut text = String::from_str(m);
                if request_id.unicode_len() > 0 {
                    text.append(" (request ");
                    text.append(request_id);
                    text.append(")");
                }
                text
            },
            None => {
                let mut text = String::from_str("The server rejected the request with HTTP ");
                push_digits(&mut text, status as u64);
                text.append(".");
                assert(decimal(status as int) == digits(status as nat));
                text
            },
        };
        ApiError { message, unauthorized: status == 401, ambiguous_outcome: false }
    }
}

/// The address a request goes to: the path itself, on the page's own
/// origin.
pub fn url(path: &str) -> (r: String)
    ensures
        r@ == path@,
{
    String::from_str(path)
}

/// Whether a response status means success.
pub fn is_success(status: u16) -> (r: bool)
    ensures
        r == is_success_status(status),
{
    200 <= status && status < 300
}

/// The path of a command on one resource: `prefix`, the id, `suffix`.
pub open spec fn spec_resource_path(prefix: Seq<char>, id: i64, suffix: Seq<char>) -> Seq<char> {
    prefix + decimal(id as int) + suffix
}

/// Builds the path of a command or read on one resource, such as
/// `/api/v1/orders/{id}/releases`.
pub fn resource_path(prefix: &str, id: i64, suffix: &str) -> (r: String)
    ensures
        r@ == spec_resource_path(prefix@, id, suffix@),
{
    let mut path = String::from_str(prefix);
    push_i64(&mut path, id);
    path.append(suffix);
    path
}

/// The path of a command on a resource nested in another:
/// `prefix`, the outer id, `middle`, the inner id, `suffix`.
pub open spec fn spec_nested_resource_path(
    prefix: Seq<char>,
    outer: i64,
    middle: Seq<char>,
    inner: i64,
    suffix: Seq<char>,
) -> Seq<char> {
    prefix + decimal(outer as int) + middle + decimal(inner as int) + suffix
}

/// Builds the path of a command on a nested resource, such as
/// `/api/v1/orders/{order}/holds/{hold}/releases`.
pub fn nested_resource_path(
    prefix: &str,
    outer: i64,
    middle: &str,
    inner: i64,
    suffix: &str,
) -> (r: String)
    ensures
        r@ == spec_nested_resource_path(prefix@, outer, middle@, inner, suffix@),
{
    let mut path = String::from_str(prefix);
    push_i64(&mut path, outer);
    path.append(middle);
    push_i64(&mut path, inner);
    path.append(suffix);
    path
}

/// Filters of the replenishment queue.
#[derive(Clone, Copy)]
pub struct ReplenishmentQueueFilters {
    pub facility_id: Option<i64>,
    pub inventory_owner_id: Option<i64>,
    pub item_id: Option<i64>,
    pub pick_face_location_id: Option<i64>,
    pub status: Option<ReplenishmentWorkStatus>,
    pub sort: ReplenishmentWorkSort,
    pub direction: ReplenishmentWorkSortDirection,
}

/// Filters of the pick-shortage queue.
#[derive(Clone)]
pub struct PickShortageFilters {
    pub facility_id: Option<i64>,
    pub inventory_owner_id: Option<i64>,
    pub order_id: Option<i64>,
    pub order_key: Option<String>,
    pub status: Option<PickShortageStatus>,
    pub sort: PickShortageQueueSort,
    pub direction: PickShortageQueueSortDirection,
}

/// Filters of the replenishment policy list.
#[derive(Clone, Copy)]
pub struct ReplenishmentPolicyFilters {
    pub facility_id: Option<i64>,
    pub inventory_owner_id: Option<i64>,
    pub item_id: Option<i64>,
    pub pick_face_location_id: Option<i64>,
    pub sort: ReplenishmentPolicySort,
    pub direction: ReplenishmentPolicySortDirection,
}

impl Default for ReplenishmentPolicyFilters {
    /// No scope, largest target gap first.
    fn default() -> (r: Self)
        ensures
            r.facility_id is None,
            r.inventory_owner_id is None,
            r.item_id is None,
            r.pick_face_location_id is None,
            r.sort == ReplenishmentPolicySort::TargetGap,
            r.direction == ReplenishmentPolicySortDirection::Descending,
    {
        ReplenishmentPolicyFilters {
            facility_id: None,
            inventory_owner_id: None,
            item_id: None,
            pick_face_location_id: None,
            sort: ReplenishmentPolicySort::TargetGap,
            direction: ReplenishmentPolicySortDirection::Descending,
        }
    }
}

impl Default for ReplenishmentQueueFilters {
    /// Open work of every scope, highest priority first.
    fn default() -> (r: Self)
        ensures
            r.facility_id is None,
            r.inventory_owner_id is None,
            r.item_id is None,
            r.pick_face_location_id is None,
            r.status is None,
            r.sort == ReplenishmentWorkSort::Priority,
            r.direction == ReplenishmentWorkSortDirection::Descending,
    {
        ReplenishmentQueueFilters {
            facility_id: None,
            inventory_owner_id: None,
            item_id: None,
            pick_face_location_id: None,
            status: None,
            sort: ReplenishmentWorkSort::Priority,
            direction: ReplenishmentWorkSortDirection::Descending,
        }
    }
}

/// The wire value of an optional replenishment work status.
pub open spec fn work_status_wire(status: Option<ReplenishmentWorkStatus>) -> Option<Seq<char>> {
    match status {
        Some(s) => Some(s.wire()),
        None => None,
    }
}

/// The wire value of an optional pick shortage status.
pub open spec fn shortage_status_wire(status: Option<PickShortageStatus>) -> Option<Seq<char>> {
    match status {
        Some(s) => Some(s.wire()),
        None => None,
    }
}

/// The path of one page of replenishment policies.
pub open spec fn spec_replenishment_policy_page_path(
    filters: ReplenishmentPolicyFilters,
    cursor: Option<Seq<char>>,
) -> Seq<char> {
    "/api/v1/replenishment-policies?limit=100&sort="@ + filters.sort.wire() + "&direction="@
        + filters.direction.wire() + opt_id_param("facility_id"@, filters.facility_id)
        + opt_id_param("inventory_owner_id"@, filters.inventory_owner_id) + opt_id_param(
        "item_id"@,
        filters.item_id,
    ) + opt_id_param("pick_face_location_id"@, filters.pick_face_location_id)
        + opt_encoded_param("cursor"@, cursor)
}

/// Builds the path of one page of replenishment policies: sort and
/// direction first, then each scope filter that is set, then the
/// percent-encoded cursor.
pub fn replenishment_policy_page_path(
    filters: ReplenishmentPolicyFilters,
    cursor: Option<&str>,
) -> (r: String)
    ensures
        r@ == spec_replenishment_policy_page_path(filters, opt_str_view(cursor)),
{
    let mut path = String::from_str("/api/v1/replenishment-policies?limit=100&sort=");
    path.append(filters.sort.as_wire());
    path.append("&direction=");
    path.append(filters.direction.as_wire());
    append_optional_id(&mut path, "facility_id", filters.facility_id);
    append_optional_id(&mut path, "inventory_owner_id", filters.inventory_owner_id);
    append_optional_id(&mut path, "item_id", filters.item_id);
    append_optional_id(&mut path, "pick_face_location_id", filters.pick_face_location_id);
    append_optional_encoded(&mut path, "cursor", cursor);
    path
}

/// The path of one page of the replenishment queue.
pub open spec fn spec_replenishment_queue_page_path(
    filters: ReplenishmentQueueFilters,
    cursor: Option<Seq<char>>,
) -> Seq<char> {
    "/api/v1/replenishment-queue?limit=100&sort="@ + filters.sort.wire() + "&direction="@
        + filters.direction.wire() + opt_id_param("facility_id"@, filters.facility_id)
        + opt_id_param("inventory_owner_id"@, filters.inventory_owner_id) + opt_id_param(
        "item_id"@,
        filters.item_id,
    ) + opt_id_param("pick_face_location_id"@, filters.pick_face_location_id)
        + opt_raw_param("status"@, work_status_wire(filters.status)) + opt_encoded_param(
        "cursor"@,
        cursor,
    )
}

/// Builds the path of one page of the replenishment queue; the status is
/// left out when no status is chosen, so the server shows open work.
pub fn replenishment_queue_page_path(
    filters: ReplenishmentQueueFilters,
    cursor: Option<&str>,
) -> (r: String)
    ensures
        r@ == spec_replenishment_queue_page_path(filters, opt_str_view(cursor)),
{
    let mut path = String::from_str("/api/v1/replenishment-queue?limit=100&sort=");
    path.append(filters.sort.as_wire());
    path.append("&direction=");
    path.append(filters.direction.as_wire());
    append_optional_id(&mut path, "facility_id", filters.facility_id);
    append_optional_id(&mut path, "inventory_owner_id", filters.inventory_owner_id);
    append_optional_id(&mut path, "item_id", filters.item_id);
    append_optional_id(&mut path, "pick_face_location_id", filters.pick_face_location_id);
    let status = match filters.status {
        Some(s) => Some(s.as_wire()),
        None => None,
    };
    append_optional_raw(&mut path, "status", status);
    append_optional_encoded(&mut path, "cursor", cursor);
    path
}

/// Every filter of the replenishment queue that is set is sent: the path
/// carries `facility_id`, `inventory_owner_id`, `item_id` and
/// `pick_face_location_id` with their ids, the status with its wire value,
/// and the cursor percent-encoded.
pub proof fn lemma_replenishment_queue_filters_are_sent(
    filters: ReplenishmentQueueFilters,
    cursor: Option<Seq<char>>,
)
    ensures
        ({
            let path = spec_replenishment_queue_page_path(filters, cursor);
            &&& filters.facility_id matches Some(v) ==> has_param(path, "facility_id"@, decimal(v as int))
            &&& filters.inventory_owner_id matches Some(v) ==> has_param(
                path,
                "inventory_owner_id"@,
                decimal(v as int),
            )
            &&& filters.item_id matches Some(v) ==> has_param(path, "item_id"@, decimal(v as int))
            &&& filters.pick_face_location_id matches Some(v) ==> has_param(
                path,
                "pick_face_location_id"@,
                decimal(v as int),
            )
            &&& filters.status matches Some(st) ==> has_param(path, "status"@, st.wire())
            &&& cursor matches Some(c) ==> has_param(path, "cursor"@, url_encoded(c))
        }),
{
    broadcast use crate::url::lemma_contains_appended, crate::url::lemma_contains_extended, crate::url::lemma_contains_prefix;

}

/// The path of one page of the pick-shortage queue.
pub open spec fn spec_pick_shortage_page_path(
    filters: PickShortageFilters,
    cursor: Option<Seq<char>>,
) -> Seq<char> {
    "/api/v1/pick-shortages?limit=100&sort="@ + filters.sort.wire() + "&direction="@
        + filters.direction.wire() + opt_id_param("facility_id"@, filters.facility_id)
        + opt_id_param("inventory_owner_id"@, filters.inventory_owner_id) + opt_id_param(
        "order_id"@,
        filters.order_id,
    ) + opt_encoded_param("order_key"@, opt_string_view(filters.order_key)) + opt_raw_param(
        "status"@,
        shortage_status_wire(filters.status),
    ) + opt_encoded_param("cursor"@, cursor)
}

/// Builds the path of one page of the pick-shortage queue; the business
/// order key is percent-encoded.
pub fn pick_shortage_page_path(filters: &PickShortageFilters, cursor: Option<&str>) -> (r: String)
    ensures
        r@ == spec_pick_shortage_page_path(*filters, opt_str_view(cursor)),
{
    let mut path = String::from_str("/api/v1/pick-shortages?limit=100&sort=");
    path.append(filters.sort.as_wire());
    path.append("&direction=");
    path.append(filters.direction.as_wire());
    append_optional_id(&mut path, "facility_id", filters.facility_id);
    append_optional_id(&mut path, "inventory_owner_id", filters.inventory_owner_id);
    append_optional_id(&mut path, "order_id", filters.order_id);
    let order_key = match &filters.order_key {
        Some(k) => Some(k.as_str()),
        None => None,
    };
    append_optional_encoded(&mut path, "order_key", order_key);
    let status = match filters.status {
        Some(s) => Some(s.as_wire()),
        None => None,
    };
    append_optional_raw(&mut path, "status", status);
    append_optional_encoded(&mut path, "cursor", cursor);
    path
}

/// Builds the path that cancels one replenishment task.
pub fn replenishment_cancellation_path(work_id: i64) -> (r: String)
    ensures
        r@ == "/api/v1/replenishment-tasks/"@ + decimal(work_id as int) + "/cancellations"@,
{
    resource_path("/api/v1/replenishment-tasks/", work_id, "/cancellations")
}

/// Builds the path of one page of an order's pick confirmations.
pub fn pick_confirmation_history_path(order_id: i64, cursor: Option<&str>) -> (r: String)
    ensures
        r@ == "/api/v1/orders/"@ + decimal(order_id as int) + "/pick-confirmations?limit=50"@
            + opt_encoded_param("cursor"@, opt_str_view(cursor)),
{
    let mut path = resource_path("/api/v1/orders/", order_id, "/pick-confirmations?limit=50");
    append_optional_encoded(&mut path, "cursor", cursor);
    path
}

/// Builds the path that reverses one pick confirmation.
pub fn pick_reversal_path(confirmation_id: i64) -> (r: String)
    ensures
        r@ == "/api/v1/pick-confirmations/"@ + decimal(confirmation_id as int) + "/reversals"@,
{
    resource_path("/api/v1/pick-confirmations/", confirmation_id, "/reversals")
}

/// The path of one page of inventory balances.
pub open spec fn spec_balance_page_path(
    query: Option<Seq<char>>,
    sort: InventoryBalanceSort,
    direction: InventorySortDirection,
    cursor: Option<Seq<char>>,
    movable_only: bool,
) -> Seq<char> {
    "/api/v1/inventory/balances?limit=100&sort="@ + sort.wire() + "&direction="@
        + direction.wire() + (if movable_only {
        "&movable_only=true"@
    } else {
        seq![]
    }) + opt_nonempty_param("query"@, query) + opt_raw_param("cursor"@, cursor)
}

/// Builds the path of one page of inventory balances: a search text is
/// percent-encoded and left out when empty; the cursor is passed as it is.
pub fn balance_page_path(
    query: Option<&str>,
    sort: InventoryBalanceSort,
    direction: InventorySortDirection,
    cursor: Option<&str>,
    movable_only: bool,
) -> (r: String)
    ensures
        r@ == spec_balance_page_path(
            opt_str_view(query),
            sort,
            direction,
            opt_str_view(cursor),
            movable_only,
        ),
{
    let mut path = String::from_str("/api/v1/inventory/balances?limit=100&sort=");
    path.append(sort.as_wire());
    path.append("&direction=");
    path.append(direction.as_wire());
    let ghost before = path@;
    if movable_only {
        path.append("&movable_only=true");
    } else {
        assert(path@ =~= before + seq![]);
    }
    append_optional_nonempty(&mut path, "query", query);
    append_optional_raw(&mut path, "cursor", cursor);
    path
}

/// Builds the path of one page of inventory holds in one status; the cursor
/// is passed as it is.
pub fn holds_page_path(status: InventoryHoldStatus, cursor: Option<&str>) -> (r: String)
    ensures
        r@ == "/api/v1/inventory/holds?limit=100&status="@ + status.wire() + opt_raw_param(
            "cursor"@,
            opt_str_view(cursor),
        ),
{
    let mut path = String::from_str("/api/v1/inventory/holds?limit=100&status=");
    path.append(status.as_wire());
    append_optional_raw(&mut path, "cursor", cursor);
    path
}

/// Builds the path of one page of the packing queue.
pub fn packing_queue_path(facility_id: Option<i64>, cursor: Option<&str>) -> (r: String)
    ensures
        r@ == "/api/v1/packing-queue?limit=100"@ + opt_id_param("facility_id"@, facility_id)
            + opt_encoded_param("cursor"@, opt_str_view(cursor)),
{
    let mut path = String::from_str("/api/v1/packing-queue?limit=100");
    append_optional_id(&mut path, "facility_id", facility_id);
    append_optional_encoded(&mut path, "cursor", cursor);
    path
}

/// Builds the path that reads an order's allocation readiness in one facility.
pub fn order_allocation_readiness_path(order_id: i64, facility_id: i64) -> (r: String)
    ensures
        r@ == "/api/v1/orders/"@ + decimal(order_id as int) + "/allocation-readiness?facility_id="@
            + decimal(facility_id as int),
{
    let mut path = resource_path("/api/v1/orders/", order_id, "/allocation-readiness?facility_id=");
    push_i64(&mut path, facility_id);
    path
}

/// A lower-case hexadecimal digit.
pub open spec fn is_lower_hex(c: char) -> bool {
    ('0' <= c && c <= '9') || ('a' <= c && c <= 'f')
}

/// The shape of a hyphenated version-4 UUID: 36 characters, hyphens at
/// positions 8, 13, 18 and 23, lower-case hexadecimal digits elsewhere, the
/// version digit `4` at position 14 and a variant digit `8`, `9`, `a` or `b`
/// at position 19.
pub open spec fn is_hyphenated_v4(s: Seq<char>) -> bool {
    &&& s.len() == 36
    &&& forall|i: int|
        0 <= i < 36 ==> if i == 8 || i == 13 || i == 18 || i == 23 {
            #[trigger] s[i] == '-'
        } else {
            is_lower_hex(s[i])
        }
    &&& s[14] == '4'
    &&& (s[19] == '8' || s[19] == '9' || s[19] == 'a' || s[19] == 'b')
}

/// The shape of a version-4 UUID written without hyphens: 32 lower-case
/// hexadecimal digits, version digit `4` at position 12 and a variant digit
/// `8`, `9`, `a` or `b` at position 16.
pub open spec fn is_simple_v4(s: Seq<char>) -> bool {
    &&& s.len() == 32
    &&& forall|i: int| 0 <= i < 32 ==> is_lower_hex(#[trigger] s[i])
    &&& s[12] == '4'
    &&& (s[16] == '8' || s[16] == '9' || s[16] == 'a' || s[16] == 'b')
}

/// `uuid::Uuid::new_v4` written by its `Display` impl: a random UUID in the
/// hyphenated lower-case form. Only its shape is stated: the digits are
/// random, so nothing ties two calls together.
#[verifier::external_body]
pub(crate) fn random_hyphenated_uuid() -> (r: String)
    ensures
        is_hyphenated_v4(r@),
{
    uuid::Uuid::new_v4().to_string()
}

/// `uuid::Uuid::new_v4` written by `Uuid::simple`: a random UUID as 32
/// lower-case hexadecimal digits. Only its shape is stated: the digits are
/// random.
#[verifier::external_body]
pub(crate) fn random_simple_uuid() -> (r: String)
    ensures
        is_simple_v4(r@),
{
    uuid::Uuid::new_v4().simple().to_string()
}

/// A fresh key for one command: a random version-4 UUID, hyphenated.
pub fn new_idempotency_key() -> (r: String)
    ensures
        is_hyphenated_v4(r@),
{
    random_hyphenated_uuid()
}

} // verus!

verus! {

/// Every parameter of `spec_replenishment_policy_page_path` whose value is given is sent: facility_id, inventory_owner_id, item_id, pick_face_location_id, cursor.
pub proof fn lemma_replenishment_policy_page_path_sends_what_is_set(filters: ReplenishmentPolicyFilters, cursor: Option<Seq<char>>,)
    ensures
        ({
            let path = spec_replenishment_policy_page_path(filters, cursor);
            &&& (filters.facility_id) matches Some(v) ==> crate::url::has_param(path, "facility_id"@, crate::text::decimal(v as int))
            &&& (filters.inventory_owner_id) matches Some(v) ==> crate::url::has_param(path, "inventory_owner_id"@, crate::text::decimal(v as int))
            &&& (filters.item_id) matches Some(v) ==> crate::url::has_param(path, "item_id"@, crate::text::decimal(v as int))
            &&& (filters.pick_face_location_id) matches Some(v) ==> crate::url::has_param(path, "pick_face_location_id"@, crate::text::decimal(v as int))
            &&& (cursor) matches Some(v) ==> crate::url::has_param(path, "cursor"@, crate::url::url_encoded(v))
        }),
{
    broadcast use crate::url::lemma_contains_appended, crate::url::lemma_contains_extended, crate::url::lemma_contains_prefix;

}

/// Every parameter of `spec_pick_shortage_page_path` whose value is given is sent: facility_id, inventory_owner_id, order_id, order_key, status, cursor.
pub proof fn lemma_pick_shortage_page_path_sends_what_is_set(filters: PickShortageFilters, cursor: Option<Seq<char>>,)
    ensures
        ({
            let path = spec_pick_shortage_page_path(filters, cursor);
            &&& (filters.facility_id) matches Some(v) ==> crate::url::has_param(path, "facility_id"@, crate::text::decimal(v as int))
            &&& (filters.inventory_owner_id) matches Some(v) ==> crate::url::has_param(path, "inventory_owner_id"@, crate::text::decimal(v as int))
            &&& (filters.order_id) matches Some(v) ==> crate::url::has_param(path, "order_id"@, crate::text::decimal(v as int))
            &&& (opt_string_view(filters.order_key)) matches Some(v) ==> crate::url::has_param(path, "order_key"@, crate::url::url_encoded(v))
            &&& (shortage_status_wire(filters.status)) matches Some(v) ==> crate::url::has_param(path, "status"@, v)
            &&& (cursor) matches Some(v) ==> crate::url::has_param(path, "cursor"@, crate::url::url_encoded(v))
        }),
{
    broadcast use crate::url::lemma_contains_appended, crate::url::lemma_contains_extended, crate::url::lemma_contains_prefix;

}

/// Every parameter of `spec_balance_page_path` whose value is given is sent: query, cursor.
pub proof fn lemma_balance_page_path_sends_what_is_set(query: Option<Seq<char>>, sort: InventoryBalanceSort, direction: InventorySortDirection, cursor: Option<Seq<char>>, movable_only: bool,)
    ensures
        ({
            let path = spec_balance_page_path(query, sort, direction, cursor, movable_only);
            &&& (query) matches Some(v) ==> (v.len() > 0 ==> crate::url::has_param(path, "query"@, crate::url::url_encoded(v)))
            &&& (cursor) matches Some(v) ==> crate::url::has_param(path, "cursor"@, v)
        }),
{
    broadcast use crate::url::lemma_contains_appended, crate::url::lemma_contains_extended, crate::url::lemma_contains_prefix;

}

} // verus!
