//! Helpers of the configuration workbench: form parsing, scope wire values
//! and the labels of scopes, effective windows and audit entries.
pub mod draft;
pub mod lifecycle;
pub mod rules;

use vstd::prelude::*;
use crate::contract::{
    BillableEventType, BillingUnit, ConfigurationStatus, DecisionRuleKind, InventoryRotation,
};
use crate::models::{
    find_facility, find_facility_at, find_owner, find_owner_at, Facility, InventoryOwner,
};
use crate::text::{decimal, parsed_i64, parse_i64, push_i64, text_equals, trim, trimmed};

verus! {

/// A form text without outer white space, or nothing when it is blank.
pub open spec fn spec_nonblank(value: Seq<char>) -> Option<Seq<char>> {
    if trimmed(value).len() > 0 {
        Some(trimmed(value))
    } else {
        None
    }
}

/// A form text without outer white space, or `None` when it is blank.
pub fn nonblank(value: String) -> (r: Option<String>)
    ensures
        match r {
            Some(t) => spec_nonblank(value@) == Some(t@),
            None => spec_nonblank(value@) is None,
        },
{
    let t = trim(value.as_str());
    if t.unicode_len() > 0 {
        Some(String::from_str(t))
    } else {
        None
    }
}

/// A positive id read from a picker's value (without trimming).
pub open spec fn spec_positive_id(value: Seq<char>) -> Option<int> {
    match parsed_i64(value) {
        Some(v) => if v > 0 {
            Some(v)
        } else {
            None
        },
        None => None,
    }
}

/// Reads a picker's value as a positive id.
pub fn parse_optional_id(value: &str) -> (r: Option<i64>)
    ensures
        match r {
            Some(v) => spec_positive_id(value@) == Some(v as int),
            None => spec_positive_id(value@) is None,
        },
{
    match parse_i64(value) {
        Some(v) => if v > 0 {
            Some(v)
        } else {
            None
        },
        None => None,
    }
}

/// The level a configuration applies at, as the scope picker offers it.
#[derive(Clone, Copy, Debug, PartialEq, Eq, Structural)]
pub enum ScopeLevel {
    Tenant,
    InventoryOwner,
    Facility,
    OwnerFacility,
}

impl ScopeLevel {
    /// The value that stands for this variant in query strings and forms.
    pub open spec fn wire(self) -> Seq<char> {
        match self {
            ScopeLevel::Tenant => "tenant"@,
            ScopeLevel::InventoryOwner => "inventory_owner"@,
            ScopeLevel::Facility => "facility"@,
            ScopeLevel::OwnerFacility => "owner_facility"@,
        }
    }

    /// The wire value of this variant.
    pub fn as_wire(self) -> (r: &'static str)
        ensures
            r@ == self.wire(),
    {
        match self {
            ScopeLevel::Tenant => "tenant",
            ScopeLevel::InventoryOwner => "inventory_owner",
            ScopeLevel::Facility => "facility",
            ScopeLevel::OwnerFacility => "owner_facility",
        }
    }
}

/// The scope level a picker value names; anything unknown is the tenant
/// default.
pub open spec fn spec_parse_scope(value: Seq<char>) -> ScopeLevel {
    if value == "inventory_owner"@ {
        ScopeLevel::InventoryOwner
    } else if value == "facility"@ {
        ScopeLevel::Facility
    } else if value == "owner_facility"@ {
        ScopeLevel::OwnerFacility
    } else {
        ScopeLevel::Tenant
    }
}

/// Reads the scope level a picker value names.
pub fn parse_scope(value: &str) -> (r: ScopeLevel)
    ensures
        r == spec_parse_scope(value@),
{
    if text_equals(value, "inventory_owner") {
        ScopeLevel::InventoryOwner
    } else if text_equals(value, "facility") {
        ScopeLevel::Facility
    } else if text_equals(value, "owner_facility") {
        ScopeLevel::OwnerFacility
    } else {
        ScopeLevel::Tenant
    }
}

/// The wire value of a scope level.
pub fn scope_wire(value: ScopeLevel) -> (r: &'static str)
    ensures
        r@ == value.wire(),
{
    value.as_wire()
}

/// Reading back the wire value of any scope level gives that level.
pub proof fn lemma_scope_round_trip(level: ScopeLevel)
    ensures
        spec_parse_scope(level.wire()) == level,
{
    reveal_strlit("tenant");
    reveal_strlit("inventory_owner");
    reveal_strlit("facility");
    reveal_strlit("owner_facility");
    assert("tenant"@.len() != "inventory_owner"@.len());
    assert("tenant"@[0] != "facility"@[0]);
    assert("tenant"@.len() != "owner_facility"@.len());
    assert("inventory_owner"@.len() != "facility"@.len());
    assert("inventory_owner"@.len() != "owner_facility"@.len());
    assert("facility"@.len() != "owner_facility"@.len());
}

/// Where a configuration applies.
#[derive(Clone, Copy, Debug, PartialEq, Eq, Structural)]
pub enum ConfigurationScope {
    Tenant,
    InventoryOwner { inventory_owner_id: i64 },
    Facility { facility_id: i64 },
    OwnerFacility { inventory_owner_id: i64, facility_id: i64 },
}

/// The label of a scope's level.
pub open spec fn spec_scope_level_label(value: ConfigurationScope) -> Seq<char> {
    match value {
        ConfigurationScope::Tenant => "Tenant default"@,
        ConfigurationScope::InventoryOwner { .. } => "Client"@,
        ConfigurationScope::Facility { .. } => "Facility"@,
        ConfigurationScope::OwnerFacility { .. } => "Client + facility"@,
    }
}

/// The label of a scope's level.
pub fn scope_level_label(value: ConfigurationScope) -> (r: &'static str)
    ensures
        r@ == spec_scope_level_label(value),
{
    match value {
        ConfigurationScope::Tenant => "Tenant default",
        ConfigurationScope::InventoryOwner { .. } => "Client",
        ConfigurationScope::Facility { .. } => "Facility",
        ConfigurationScope::OwnerFacility { .. } => "Client + facility",
    }
}

/// The name of the client with the id, or `Client #` and the id.
pub open spec fn spec_client_name(clients: Seq<InventoryOwner>, id: i64) -> Seq<char> {
    match find_owner(clients, id) {
        Some(c) => c.name@,
        None => "Client #"@ + decimal(id as int),
    }
}

/// The name of the client with the id.
pub fn client_name(clients: &[InventoryOwner], id: i64) -> (r: String)
    ensures
        r@ == spec_client_name(clients@, id),
{
    match find_owner_at(clients, id) {
        Some(i) => clients[i].name.clone(),
        None => {
            let mut name = String::from_str("Client #");
            push_i64(&mut name, id);
            name
        },
    }
}

/// The name of the facility with the id, or `Facility #` and the id when
/// there is no such facility or it has no name.
pub open spec fn spec_facility_name(facilities: Seq<Facility>, id: i64) -> Seq<char> {
    match find_facility(facilities, id) {
        Some(f) => match f.name {
            Some(n) => n@,
            None => "Facility #"@ + decimal(id as int),
        },
        None => "Facility #"@ + decimal(id as int),
    }
}

/// The name of the facility with the id.
pub fn facility_name(facilities: &[Facility], id: i64) -> (r: String)
    ensures
        r@ == spec_facility_name(facilities@, id),
{
    let found = match find_facility_at(facilities, id) {
        Some(i) => match &facilities[i].name {
            Some(n) => Some(n.clone()),
            None => None,
        },
        None => None,
    };
    match found {
        Some(n) => n,
        None => {
            let mut name = String::from_str("Facility #");
            push_i64(&mut name, id);
            name
        },
    }
}

/// The label of a scope: the tenant default, the client, the facility, or
/// both joined by ` \u{b7} `.
pub open spec fn spec_scope_label(
    value: ConfigurationScope,
    clients: Seq<InventoryOwner>,
    facilities: Seq<Facility>,
) -> Seq<char> {
    match value {
        ConfigurationScope::Tenant => "Tenant default"@,
        ConfigurationScope::InventoryOwner { inventory_owner_id } => spec_client_name(
            clients,
            inventory_owner_id,
        ),
        ConfigurationScope::Facility { facility_id } => spec_facility_name(facilities, facility_id),
        ConfigurationScope::OwnerFacility { inventory_owner_id, facility_id } => spec_client_name(
            clients,
            inventory_owner_id,
        ) + " \u{b7} "@ + spec_facility_name(facilities, facility_id),
    }
}

/// The label of a scope.
pub fn scope_label(
    value: ConfigurationScope,
    clients: &[InventoryOwner],
    facilities: &[Facility],
) -> (r: String)
    ensures
        r@ == spec_scope_label(value, clients@, facilities@),
{
    match value {
        ConfigurationScope::Tenant => String::from_str("Tenant default"),
        ConfigurationScope::InventoryOwner { inventory_owner_id } => client_name(
            clients,
            inventory_owner_id,
        ),
        ConfigurationScope::Facility { facility_id } => facility_name(facilities, facility_id),
        ConfigurationScope::OwnerFacility { inventory_owner_id, facility_id } => {
            let mut label = client_name(clients, inventory_owner_id);
            label.append(" \u{b7} ");
            let f = facility_name(facilities, facility_id);
            label.append(f.as_str());
            label
        },
    }
}

/// The effective window of a configuration: its start, an arrow, and its
/// end or `open`.
pub open spec fn spec_effective_label(effective_from: Seq<char>, effective_until: Option<Seq<char>>) -> Seq<char> {
    match effective_until {
        Some(until) => effective_from + " \u{2192} "@ + until,
        None => effective_from + " \u{2192} open"@,
    }
}

/// The effective window of a configuration.
pub fn effective_label(effective_from: &str, effective_until: Option<&str>) -> (r: String)
    ensures
        r@ == spec_effective_label(effective_from@, crate::url::opt_str_view(effective_until)),
{
    let mut label = String::from_str(effective_from);
    match effective_until {
        Some(until) => {
            label.append(" \u{2192} ");
            label.append(until);
        },
        None => {
            label.append(" \u{2192} open");
        },
    }
    label
}

/// `User #` and the user's id, a middle dot, and the time.
pub open spec fn spec_audit_label(user: i64, at: Seq<char>) -> Seq<char> {
    "User #"@ + decimal(user as int) + " \u{b7} "@ + at
}

/// The label of an audit entry.
pub fn audit_label(user: i64, at: &str) -> (r: String)
    ensures
        r@ == spec_audit_label(user, at@),
{
    let mut label = String::from_str("User #");
    push_i64(&mut label, user);
    label.append(" \u{b7} ");
    label.append(at);
    label
}

/// The label of an audit entry that may be missing: a dash unless both the
/// user and the time are known.
pub fn optional_audit(user: Option<i64>, at: Option<&str>) -> (r: String)
    ensures
        r@ == (match (user, at) {
            (Some(u), Some(a)) => spec_audit_label(u, a@),
            _ => "\u{2014}"@,
        }),
{
    match (user, at) {
        (Some(u), Some(a)) => audit_label(u, a),
        _ => String::from_str("\u{2014}"),
    }
}

} // verus!

verus! {

/// The status-chip class of a configuration status.
pub fn status_class(value: ConfigurationStatus) -> (r: &'static str)
    ensures
        r@ == value.css_class(),
{
    value.as_css_class()
}

/// The label of a configuration status.
pub fn status_label(value: ConfigurationStatus) -> (r: &'static str)
    ensures
        r@ == value.label(),
{
    value.as_label()
}

/// The wire value of a configuration status.
pub fn status_wire(value: ConfigurationStatus) -> (r: &'static str)
    ensures
        r@ == value.wire(),
{
    value.as_wire()
}

/// Reads the status filter; anything but a status's wire value is no filter.
pub fn parse_status_filter(value: &str) -> (r: Option<ConfigurationStatus>)
    ensures
        r == ConfigurationStatus::from_wire(value@),
{
    ConfigurationStatus::parse_wire(value)
}

/// The wire value of a kind of rule.
pub fn kind_wire(value: DecisionRuleKind) -> (r: &'static str)
    ensures
        r@ == value.wire(),
{
    value.as_wire()
}

/// The label of a kind of rule.
pub fn kind_label(value: DecisionRuleKind) -> (r: &'static str)
    ensures
        r@ == value.label(),
{
    value.as_label()
}

/// Reads the kind filter; anything but a kind's wire value is no filter.
pub fn parse_kind_filter(value: &str) -> (r: Option<DecisionRuleKind>)
    ensures
        r == DecisionRuleKind::from_wire(value@),
{
    DecisionRuleKind::parse_wire(value)
}

/// The wire value of a rotation.
pub fn rotation_wire(value: InventoryRotation) -> (r: &'static str)
    ensures
        r@ == value.wire(),
{
    value.as_wire()
}

/// The wire value of a billable event.
pub fn event_wire(value: BillableEventType) -> (r: &'static str)
    ensures
        r@ == value.wire(),
{
    value.as_wire()
}

/// Reads a billable event from its wire value.
pub fn parse_event(value: &str) -> (r: Option<BillableEventType>)
    ensures
        r == BillableEventType::from_wire(value@),
{
    BillableEventType::parse_wire(value)
}

/// The wire value of a billing unit.
pub fn unit_wire(value: BillingUnit) -> (r: &'static str)
    ensures
        r@ == value.wire(),
{
    value.as_wire()
}

/// Reads a billing unit from its wire value.
pub fn parse_unit(value: &str) -> (r: Option<BillingUnit>)
    ensures
        r == BillingUnit::from_wire(value@),
{
    BillingUnit::parse_wire(value)
}

/// Every kind of rule, in the order the kind picker lists them.
pub open spec fn all_kinds() -> Seq<DecisionRuleKind> {
    seq![
        DecisionRuleKind::Receipt,
        DecisionRuleKind::Putaway,
        DecisionRuleKind::Allocation,
        DecisionRuleKind::Replenishment,
        DecisionRuleKind::Wave,
        DecisionRuleKind::Pick,
        DecisionRuleKind::Pack,
        DecisionRuleKind::Count,
        DecisionRuleKind::Document,
        DecisionRuleKind::Billing,
    ]
}

/// The kinds the kind picker offers.
pub fn kind_options() -> (r: Vec<DecisionRuleKind>)
    ensures
        r@ == all_kinds(),
{
    let r = vec![
        DecisionRuleKind::Receipt,
        DecisionRuleKind::Putaway,
        DecisionRuleKind::Allocation,
        DecisionRuleKind::Replenishment,
        DecisionRuleKind::Wave,
        DecisionRuleKind::Pick,
        DecisionRuleKind::Pack,
        DecisionRuleKind::Count,
        DecisionRuleKind::Document,
        DecisionRuleKind::Billing,
    ];
    assert(r@ =~= all_kinds());
    r
}

/// Every configuration status, in the order the status picker lists them.
pub open spec fn all_statuses() -> Seq<ConfigurationStatus> {
    seq![
        ConfigurationStatus::Draft,
        ConfigurationStatus::PendingApproval,
        ConfigurationStatus::Approved,
        ConfigurationStatus::Active,
        ConfigurationStatus::Retired,
    ]
}

/// The statuses the status picker offers.
pub fn status_options() -> (r: Vec<ConfigurationStatus>)
    ensures
        r@ == all_statuses(),
{
    let r = vec![
        ConfigurationStatus::Draft,
        ConfigurationStatus::PendingApproval,
        ConfigurationStatus::Approved,
        ConfigurationStatus::Active,
        ConfigurationStatus::Retired,
    ];
    assert(r@ =~= all_statuses());
    r
}

/// A wire value with its underscores read as spaces.
pub open spec fn spaced(s: Seq<char>) -> Seq<char> {
    s.map_values(|c: char| if c == '_' { ' ' } else { c })
}

/// The caption of a billable event in the rule editor: its wire value
/// with spaces for underscores.
pub fn billing_event_caption(value: BillableEventType) -> (r: String)
    ensures
        r@ == spaced(value.wire()),
{
    let w = value.as_wire();
    let n = w.unicode_len();
    let mut out = String::new();
    let mut i: usize = 0;
    while i < n
        invariant
            n == w@.len(),
            w@ == value.wire(),
            i <= n,
            out@ == spaced(w@.take(i as int)),
        decreases n - i,
    {
        if w.get_char(i) == '_' {
            out.append(" ");
            proof {
                reveal_strlit(" ");
            }
        } else {
            out.append(w.substring_char(i, i + 1));
        }
        assert(spaced(w@.take(i + 1)) =~= spaced(w@.take(i as int)).push(
            if w@[i as int] == '_' {
                ' '
            } else {
                w@[i as int]
            },
        ));
        i = i + 1;
    }
    assert(w@.take(n as int) =~= w@);
    out
}

/// Every kind of rule and every scope level reads back from its own wire
/// value.
pub proof fn lemma_rule_and_scope_wire_round_trip(kind: DecisionRuleKind, level: ScopeLevel)
    ensures
        DecisionRuleKind::from_wire(kind.wire()) == Some(kind),
        spec_parse_scope(level.wire()) == level,
{
    kind.lemma_wire_round_trip();
    lemma_scope_round_trip(level);
}

} // verus!
