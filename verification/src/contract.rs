//! The enumerations that the server's request vocabulary is made of, each
//! with the value that stands for it on the wire.
use vstd::prelude::*;
use crate::text::text_equals;

verus! {

/// A sort direction written in full on the wire (`ascending`, `descending`).
#[derive(Clone, Copy, Debug, PartialEq, Eq, Structural)]
pub enum SortOrder {
    Ascending,
    Descending,
}

impl SortOrder {
    /// The value that stands for this variant in query strings and forms.
    pub open spec fn wire(self) -> Seq<char> {
        match self {
            SortOrder::Ascending => "ascending"@,
            SortOrder::Descending => "descending"@,
        }
    }

    /// The wire value of this variant.
    pub fn as_wire(self) -> (r: &'static str)
        ensures
            r@ == self.wire(),
    {
        match self {
            SortOrder::Ascending => "ascending",
            SortOrder::Descending => "descending",
        }
    }
}

/// A sort direction written short on the wire (`asc`, `desc`).
#[derive(Clone, Copy, Debug, PartialEq, Eq, Structural)]
pub enum ShortSortOrder {
    Asc,
    Desc,
}

impl ShortSortOrder {
    /// The value that stands for this variant in query strings and forms.
    pub open spec fn wire(self) -> Seq<char> {
        match self {
            ShortSortOrder::Asc => "asc"@,
            ShortSortOrder::Desc => "desc"@,
        }
    }

    /// The wire value of this variant.
    pub fn as_wire(self) -> (r: &'static str)
        ensures
            r@ == self.wire(),
    {
        match self {
            ShortSortOrder::Asc => "asc",
            ShortSortOrder::Desc => "desc",
        }
    }
}

/// Lifecycle of replenishment work.
#[derive(Clone, Copy, Debug, PartialEq, Eq, Structural)]
pub enum ReplenishmentWorkStatus {
    Pending,
    Claimed,
    Completed,
    Cancelled,
}

impl ReplenishmentWorkStatus {
    /// The value that stands for this variant in query strings and forms.
    pub open spec fn wire(self) -> Seq<char> {
        match self {
            ReplenishmentWorkStatus::Pending => "pending"@,
            ReplenishmentWorkStatus::Claimed => "claimed"@,
            ReplenishmentWorkStatus::Completed => "completed"@,
            ReplenishmentWorkStatus::Cancelled => "cancelled"@,
        }
    }

    /// The wire value of this variant.
    pub fn as_wire(self) -> (r: &'static str)
        ensures
            r@ == self.wire(),
    {
        match self {
            ReplenishmentWorkStatus::Pending => "pending",
            ReplenishmentWorkStatus::Claimed => "claimed",
            ReplenishmentWorkStatus::Completed => "completed",
            ReplenishmentWorkStatus::Cancelled => "cancelled",
        }
    }
}

/// Server-side sort keys of the replenishment queue.
#[derive(Clone, Copy, Debug, PartialEq, Eq, Structural)]
pub enum ReplenishmentWorkSort {
    Created,
    Priority,
    InventoryOwner,
    Facility,
    Item,
    Source,
    Destination,
    Quantity,
    Status,
    Lease,
}

impl ReplenishmentWorkSort {
    /// The value that stands for this variant in query strings and forms.
    pub open spec fn wire(self) -> Seq<char> {
        match self {
            ReplenishmentWorkSort::Created => "created"@,
            ReplenishmentWorkSort::Priority => "priority"@,
            ReplenishmentWorkSort::InventoryOwner => "inventory_owner"@,
            ReplenishmentWorkSort::Facility => "facility"@,
            ReplenishmentWorkSort::Item => "item"@,
            ReplenishmentWorkSort::Source => "source"@,
            ReplenishmentWorkSort::Destination => "destination"@,
            ReplenishmentWorkSort::Quantity => "quantity"@,
            ReplenishmentWorkSort::Status => "status"@,
            ReplenishmentWorkSort::Lease => "lease"@,
        }
    }

    /// The wire value of this variant.
    pub fn as_wire(self) -> (r: &'static str)
        ensures
            r@ == self.wire(),
    {
        match self {
            ReplenishmentWorkSort::Created => "created",
            ReplenishmentWorkSort::Priority => "priority",
            ReplenishmentWorkSort::InventoryOwner => "inventory_owner",
            ReplenishmentWorkSort::Facility => "facility",
            ReplenishmentWorkSort::Item => "item",
            ReplenishmentWorkSort::Source => "source",
            ReplenishmentWorkSort::Destination => "destination",
            ReplenishmentWorkSort::Quantity => "quantity",
            ReplenishmentWorkSort::Status => "status",
            ReplenishmentWorkSort::Lease => "lease",
        }
    }
}

/// Lifecycle of a pick shortage.
#[derive(Clone, Copy, Debug, PartialEq, Eq, Structural)]
pub enum PickShortageStatus {
    AwaitingInventory,
    RecoveryInProgress,
    Resolved,
}

impl PickShortageStatus {
    /// The value that stands for this variant in query strings and forms.
    pub open spec fn wire(self) -> Seq<char> {
        match self {
            PickShortageStatus::AwaitingInventory => "awaiting_inventory"@,
            PickShortageStatus::RecoveryInProgress => "recovery_in_progress"@,
            PickShortageStatus::Resolved => "resolved"@,
        }
    }

    /// The wire value of this variant.
    pub fn as_wire(self) -> (r: &'static str)
        ensures
            r@ == self.wire(),
    {
        match self {
            PickShortageStatus::AwaitingInventory => "awaiting_inventory",
            PickShortageStatus::RecoveryInProgress => "recovery_in_progress",
            PickShortageStatus::Resolved => "resolved",
        }
    }
}

/// Server-side sort keys of the pick-shortage queue.
#[derive(Clone, Copy, Debug, PartialEq, Eq, Structural)]
pub enum PickShortageQueueSort {
    Reported,
    Order,
    Status,
    ShortQuantity,
    RemainingQuantity,
    InventoryOwner,
    Item,
    Facility,
}

impl PickShortageQueueSort {
    /// The value that stands for this variant in query strings and forms.
    pub open spec fn wire(self) -> Seq<char> {
        match self {
            PickShortageQueueSort::Reported => "reported"@,
            PickShortageQueueSort::Order => "order"@,
            PickShortageQueueSort::Status => "status"@,
            PickShortageQueueSort::ShortQuantity => "short_quantity"@,
            PickShortageQueueSort::RemainingQuantity => "remaining_quantity"@,
            PickShortageQueueSort::InventoryOwner => "inventory_owner"@,
            PickShortageQueueSort::Item => "item"@,
            PickShortageQueueSort::Facility => "facility"@,
        }
    }

    /// The wire value of this variant.
    pub fn as_wire(self) -> (r: &'static str)
        ensures
            r@ == self.wire(),
    {
        match self {
            PickShortageQueueSort::Reported => "reported",
            PickShortageQueueSort::Order => "order",
            PickShortageQueueSort::Status => "status",
            PickShortageQueueSort::ShortQuantity => "short_quantity",
            PickShortageQueueSort::RemainingQuantity => "remaining_quantity",
            PickShortageQueueSort::InventoryOwner => "inventory_owner",
            PickShortageQueueSort::Item => "item",
            PickShortageQueueSort::Facility => "facility",
        }
    }
}

/// Server-side sort keys of replenishment policies.
#[derive(Clone, Copy, Debug, PartialEq, Eq, Structural)]
pub enum ReplenishmentPolicySort {
    InventoryOwner,
    Facility,
    Item,
    PickFace,
    Projected,
    Demand,
    Reserve,
    TargetGap,
    Outcome,
    ActiveWork,
}

impl ReplenishmentPolicySort {
    /// The value that stands for this variant in query strings and forms.
    pub open spec fn wire(self) -> Seq<char> {
        match self {
            ReplenishmentPolicySort::InventoryOwner => "inventory_owner"@,
            ReplenishmentPolicySort::Facility => "facility"@,
            ReplenishmentPolicySort::Item => "item"@,
            ReplenishmentPolicySort::PickFace => "pick_face"@,
            ReplenishmentPolicySort::Projected => "projected"@,
            ReplenishmentPolicySort::Demand => "demand"@,
            ReplenishmentPolicySort::Reserve => "reserve"@,
            ReplenishmentPolicySort::TargetGap => "target_gap"@,
            ReplenishmentPolicySort::Outcome => "outcome"@,
            ReplenishmentPolicySort::ActiveWork => "active_work"@,
        }
    }

    /// The wire value of this variant.
    pub fn as_wire(self) -> (r: &'static str)
        ensures
            r@ == self.wire(),
    {
        match self {
            ReplenishmentPolicySort::InventoryOwner => "inventory_owner",
            ReplenishmentPolicySort::Facility => "facility",
            ReplenishmentPolicySort::Item => "item",
            ReplenishmentPolicySort::PickFace => "pick_face",
            ReplenishmentPolicySort::Projected => "projected",
            ReplenishmentPolicySort::Demand => "demand",
            ReplenishmentPolicySort::Reserve => "reserve",
            ReplenishmentPolicySort::TargetGap => "target_gap",
            ReplenishmentPolicySort::Outcome => "outcome",
            ReplenishmentPolicySort::ActiveWork => "active_work",
        }
    }
}

/// Server-side sort keys of inventory balances.
#[derive(Clone, Copy, Debug, PartialEq, Eq, Structural)]
pub enum InventoryBalanceSort {
    Position,
    Facility,
    Client,
    Location,
    Item,
    Tracking,
    LicensePlate,
    Status,
    OnHand,
    Reserved,
    Held,
    Available,
}

impl InventoryBalanceSort {
    /// The value that stands for this variant in query strings and forms.
    pub open spec fn wire(self) -> Seq<char> {
        match self {
            InventoryBalanceSort::Position => "position"@,
            InventoryBalanceSort::Facility => "facility"@,
            InventoryBalanceSort::Client => "client"@,
            InventoryBalanceSort::Location => "location"@,
            InventoryBalanceSort::Item => "item"@,
            InventoryBalanceSort::Tracking => "tracking"@,
            InventoryBalanceSort::LicensePlate => "license_plate"@,
            InventoryBalanceSort::Status => "status"@,
            InventoryBalanceSort::OnHand => "on_hand"@,
            InventoryBalanceSort::Reserved => "reserved"@,
            InventoryBalanceSort::Held => "held"@,
            InventoryBalanceSort::Available => "available"@,
        }
    }

    /// The wire value of this variant.
    pub fn as_wire(self) -> (r: &'static str)
        ensures
            r@ == self.wire(),
    {
        match self {
            InventoryBalanceSort::Position => "position",
            InventoryBalanceSort::Facility => "facility",
            InventoryBalanceSort::Client => "client",
            InventoryBalanceSort::Location => "location",
            InventoryBalanceSort::Item => "item",
            InventoryBalanceSort::Tracking => "tracking",
            InventoryBalanceSort::LicensePlate => "license_plate",
            InventoryBalanceSort::Status => "status",
            InventoryBalanceSort::OnHand => "on_hand",
            InventoryBalanceSort::Reserved => "reserved",
            InventoryBalanceSort::Held => "held",
            InventoryBalanceSort::Available => "available",
        }
    }
}

/// Lifecycle of an inventory hold.
#[derive(Clone, Copy, Debug, PartialEq, Eq, Structural)]
pub enum InventoryHoldStatus {
    Active,
    Released,
}

impl InventoryHoldStatus {
    /// The value that stands for this variant in query strings and forms.
    pub open spec fn wire(self) -> Seq<char> {
        match self {
            InventoryHoldStatus::Active => "active"@,
            InventoryHoldStatus::Released => "released"@,
        }
    }

    /// The wire value of this variant.
    pub fn as_wire(self) -> (r: &'static str)
        ensures
            r@ == self.wire(),
    {
        match self {
            InventoryHoldStatus::Active => "active",
            InventoryHoldStatus::Released => "released",
        }
    }
}

/// Lifecycle of an advance ship notice.
#[derive(Clone, Copy, Debug, PartialEq, Eq, Structural)]
pub enum InboundAsnStatus {
    Open,
    Planned,
}

impl InboundAsnStatus {
    /// The value that stands for this variant in query strings and forms.
    pub open spec fn wire(self) -> Seq<char> {
        match self {
            InboundAsnStatus::Open => "open"@,
            InboundAsnStatus::Planned => "planned"@,
        }
    }

    /// The wire value of this variant.
    pub fn as_wire(self) -> (r: &'static str)
        ensures
            r@ == self.wire(),
    {
        match self {
            InboundAsnStatus::Open => "open",
            InboundAsnStatus::Planned => "planned",
        }
    }
}

/// Lifecycle of a purchase order.
#[derive(Clone, Copy, Debug, PartialEq, Eq, Structural)]
pub enum PurchaseOrderStatus {
    Draft,
    Released,
    Cancelled,
}

impl PurchaseOrderStatus {
    /// The value that stands for this variant in query strings and forms.
    pub open spec fn wire(self) -> Seq<char> {
        match self {
            PurchaseOrderStatus::Draft => "draft"@,
            PurchaseOrderStatus::Released => "released"@,
            PurchaseOrderStatus::Cancelled => "cancelled"@,
        }
    }

    /// The wire value of this variant.
    pub fn as_wire(self) -> (r: &'static str)
        ensures
            r@ == self.wire(),
    {
        match self {
            PurchaseOrderStatus::Draft => "draft",
            PurchaseOrderStatus::Released => "released",
            PurchaseOrderStatus::Cancelled => "cancelled",
        }
    }
}

/// Lifecycle of a customer return.
#[derive(Clone, Copy, Debug, PartialEq, Eq, Structural)]
pub enum CustomerReturnStatus {
    Open,
    Planned,
    Cancelled,
}

impl CustomerReturnStatus {
    /// The value that stands for this variant in query strings and forms.
    pub open spec fn wire(self) -> Seq<char> {
        match self {
            CustomerReturnStatus::Open => "open"@,
            CustomerReturnStatus::Planned => "planned"@,
            CustomerReturnStatus::Cancelled => "cancelled"@,
        }
    }

    /// The wire value of this variant.
    pub fn as_wire(self) -> (r: &'static str)
        ensures
            r@ == self.wire(),
    {
        match self {
            CustomerReturnStatus::Open => "open",
            CustomerReturnStatus::Planned => "planned",
            CustomerReturnStatus::Cancelled => "cancelled",
        }
    }
}

/// Server-side sort keys of pick waves.
#[derive(Clone, Copy, Debug, PartialEq, Eq, Structural)]
pub enum PickWaveSort {
    Name,
    Status,
    Orders,
    Tasks,
    Units,
    PlannedAt,
}

impl PickWaveSort {
    /// The value that stands for this variant in query strings and forms.
    pub open spec fn wire(self) -> Seq<char> {
        match self {
            PickWaveSort::Name => "name"@,
            PickWaveSort::Status => "status"@,
            PickWaveSort::Orders => "orders"@,
            PickWaveSort::Tasks => "tasks"@,
            PickWaveSort::Units => "units"@,
            PickWaveSort::PlannedAt => "planned_at"@,
        }
    }

    /// The wire value of this variant.
    pub fn as_wire(self) -> (r: &'static str)
        ensures
            r@ == self.wire(),
    {
        match self {
            PickWaveSort::Name => "name",
            PickWaveSort::Status => "status",
            PickWaveSort::Orders => "orders",
            PickWaveSort::Tasks => "tasks",
            PickWaveSort::Units => "units",
            PickWaveSort::PlannedAt => "planned_at",
        }
    }
}

/// Lifecycle of a pick wave.
#[derive(Clone, Copy, Debug, PartialEq, Eq, Structural)]
pub enum PickWaveStatus {
    Planned,
    Released,
    Cancelled,
}

impl PickWaveStatus {
    /// The value that stands for this variant in query strings and forms.
    pub open spec fn wire(self) -> Seq<char> {
        match self {
            PickWaveStatus::Planned => "planned"@,
            PickWaveStatus::Released => "released"@,
            PickWaveStatus::Cancelled => "cancelled"@,
        }
    }

    /// The wire value of this variant.
    pub fn as_wire(self) -> (r: &'static str)
        ensures
            r@ == self.wire(),
    {
        match self {
            PickWaveStatus::Planned => "planned",
            PickWaveStatus::Released => "released",
            PickWaveStatus::Cancelled => "cancelled",
        }
    }
}

/// Lifecycle of an item traceability policy.
#[derive(Clone, Copy, Debug, PartialEq, Eq, Structural)]
pub enum ItemTraceabilityPolicyStatus {
    Active,
    Retired,
}

impl ItemTraceabilityPolicyStatus {
    /// The value that stands for this variant in query strings and forms.
    pub open spec fn wire(self) -> Seq<char> {
        match self {
            ItemTraceabilityPolicyStatus::Active => "active"@,
            ItemTraceabilityPolicyStatus::Retired => "retired"@,
        }
    }

    /// The wire value of this variant.
    pub fn as_wire(self) -> (r: &'static str)
        ensures
            r@ == self.wire(),
    {
        match self {
            ItemTraceabilityPolicyStatus::Active => "active",
            ItemTraceabilityPolicyStatus::Retired => "retired",
        }
    }
}

/// Whether a trace attribute is required.
#[derive(Clone, Copy, Debug, PartialEq, Eq, Structural)]
pub enum TraceabilityRequirement {
    NotTracked,
    Required,
}

impl TraceabilityRequirement {
    /// The value that stands for this variant in query strings and forms.
    pub open spec fn wire(self) -> Seq<char> {
        match self {
            TraceabilityRequirement::NotTracked => "not_tracked"@,
            TraceabilityRequirement::Required => "required"@,
        }
    }

    /// The wire value of this variant.
    pub fn as_wire(self) -> (r: &'static str)
        ensures
            r@ == self.wire(),
    {
        match self {
            TraceabilityRequirement::NotTracked => "not_tracked",
            TraceabilityRequirement::Required => "required",
        }
    }
}

/// Decision state of a slotting recommendation.
#[derive(Clone, Copy, Debug, PartialEq, Eq, Structural)]
pub enum SlottingRecommendationStatus {
    Pending,
    Accepted,
    Dismissed,
}

impl SlottingRecommendationStatus {
    /// The value that stands for this variant in query strings and forms.
    pub open spec fn wire(self) -> Seq<char> {
        match self {
            SlottingRecommendationStatus::Pending => "pending"@,
            SlottingRecommendationStatus::Accepted => "accepted"@,
            SlottingRecommendationStatus::Dismissed => "dismissed"@,
        }
    }

    /// The wire value of this variant.
    pub fn as_wire(self) -> (r: &'static str)
        ensures
            r@ == self.wire(),
    {
        match self {
            SlottingRecommendationStatus::Pending => "pending",
            SlottingRecommendationStatus::Accepted => "accepted",
            SlottingRecommendationStatus::Dismissed => "dismissed",
        }
    }
}

/// Lifecycle of a service account.
#[derive(Clone, Copy, Debug, PartialEq, Eq, Structural)]
pub enum ServiceAccountStatus {
    Active,
    Disabled,
}

impl ServiceAccountStatus {
    /// The value that stands for this variant in query strings and forms.
    pub open spec fn wire(self) -> Seq<char> {
        match self {
            ServiceAccountStatus::Active => "active"@,
            ServiceAccountStatus::Disabled => "disabled"@,
        }
    }

    /// The wire value of this variant.
    pub fn as_wire(self) -> (r: &'static str)
        ensures
            r@ == self.wire(),
    {
        match self {
            ServiceAccountStatus::Active => "active",
            ServiceAccountStatus::Disabled => "disabled",
        }
    }
}

/// The kind of a configurable decision rule.
#[derive(Clone, Copy, Debug, PartialEq, Eq, Structural)]
pub enum DecisionRuleKind {
    Receipt,
    Putaway,
    Allocation,
    Replenishment,
    Wave,
    Pick,
    Pack,
    Count,
    Document,
    Billing,
}

impl DecisionRuleKind {
    /// The value that stands for this variant in query strings and forms.
    pub open spec fn wire(self) -> Seq<char> {
        match self {
            DecisionRuleKind::Receipt => "receipt"@,
            DecisionRuleKind::Putaway => "putaway"@,
            DecisionRuleKind::Allocation => "allocation"@,
            DecisionRuleKind::Replenishment => "replenishment"@,
            DecisionRuleKind::Wave => "wave"@,
            DecisionRuleKind::Pick => "pick"@,
            DecisionRuleKind::Pack => "pack"@,
            DecisionRuleKind::Count => "count"@,
            DecisionRuleKind::Document => "document"@,
            DecisionRuleKind::Billing => "billing"@,
        }
    }

    /// The wire value of this variant.
    pub fn as_wire(self) -> (r: &'static str)
        ensures
            r@ == self.wire(),
    {
        match self {
            DecisionRuleKind::Receipt => "receipt",
            DecisionRuleKind::Putaway => "putaway",
            DecisionRuleKind::Allocation => "allocation",
            DecisionRuleKind::Replenishment => "replenishment",
            DecisionRuleKind::Wave => "wave",
            DecisionRuleKind::Pick => "pick",
            DecisionRuleKind::Pack => "pack",
            DecisionRuleKind::Count => "count",
            DecisionRuleKind::Document => "document",
            DecisionRuleKind::Billing => "billing",
        }
    }

    /// The label shown for this kind.
    pub open spec fn label(self) -> Seq<char> {
        match self {
            DecisionRuleKind::Receipt => "Receipt"@,
            DecisionRuleKind::Putaway => "Putaway"@,
            DecisionRuleKind::Allocation => "Allocation"@,
            DecisionRuleKind::Replenishment => "Replenishment"@,
            DecisionRuleKind::Wave => "Wave"@,
            DecisionRuleKind::Pick => "Pick"@,
            DecisionRuleKind::Pack => "Pack"@,
            DecisionRuleKind::Count => "Count"@,
            DecisionRuleKind::Document => "Document"@,
            DecisionRuleKind::Billing => "Billing"@,
        }
    }

    /// The label shown for this kind.
    pub fn as_label(self) -> (r: &'static str)
        ensures
            r@ == self.label(),
    {
        match self {
            DecisionRuleKind::Receipt => "Receipt",
            DecisionRuleKind::Putaway => "Putaway",
            DecisionRuleKind::Allocation => "Allocation",
            DecisionRuleKind::Replenishment => "Replenishment",
            DecisionRuleKind::Wave => "Wave",
            DecisionRuleKind::Pick => "Pick",
            DecisionRuleKind::Pack => "Pack",
            DecisionRuleKind::Count => "Count",
            DecisionRuleKind::Document => "Document",
            DecisionRuleKind::Billing => "Billing",
        }
    }

    /// The variant whose wire value is the text, if any.
    pub open spec fn from_wire(text: Seq<char>) -> Option<DecisionRuleKind> {
        if text == "receipt"@ {
            Some(DecisionRuleKind::Receipt)
        } else if text == "putaway"@ {
            Some(DecisionRuleKind::Putaway)
        } else if text == "allocation"@ {
            Some(DecisionRuleKind::Allocation)
        } else if text == "replenishment"@ {
            Some(DecisionRuleKind::Replenishment)
        } else if text == "wave"@ {
            Some(DecisionRuleKind::Wave)
        } else if text == "pick"@ {
            Some(DecisionRuleKind::Pick)
        } else if text == "pack"@ {
            Some(DecisionRuleKind::Pack)
        } else if text == "count"@ {
            Some(DecisionRuleKind::Count)
        } else if text == "document"@ {
            Some(DecisionRuleKind::Document)
        } else if text == "billing"@ {
            Some(DecisionRuleKind::Billing)
        } else {
            None
        }
    }

    /// Reads a wire value back into its variant.
    pub fn parse_wire(text: &str) -> (r: Option<DecisionRuleKind>)
        ensures
            r == DecisionRuleKind::from_wire(text@),
    {
        if text_equals(text, "receipt") {
            Some(DecisionRuleKind::Receipt)
        } else if text_equals(text, "putaway") {
            Some(DecisionRuleKind::Putaway)
        } else if text_equals(text, "allocation") {
            Some(DecisionRuleKind::Allocation)
        } else if text_equals(text, "replenishment") {
            Some(DecisionRuleKind::Replenishment)
        } else if text_equals(text, "wave") {
            Some(DecisionRuleKind::Wave)
        } else if text_equals(text, "pick") {
            Some(DecisionRuleKind::Pick)
        } else if text_equals(text, "pack") {
            Some(DecisionRuleKind::Pack)
        } else if text_equals(text, "count") {
            Some(DecisionRuleKind::Count)
        } else if text_equals(text, "document") {
            Some(DecisionRuleKind::Document)
        } else if text_equals(text, "billing") {
            Some(DecisionRuleKind::Billing)
        } else {
            None
        }
    }

    /// Reading back the wire value of any variant gives that variant.
    pub proof fn lemma_wire_round_trip(self)
        ensures
            DecisionRuleKind::from_wire(self.wire()) == Some(self),
    {
        match self {
            DecisionRuleKind::Receipt => {
                reveal_strlit("receipt");
            },
            DecisionRuleKind::Putaway => {
                reveal_strlit("putaway");
                reveal_strlit("receipt");
                assert("receipt"@[0] != "putaway"@[0]);
            },
            DecisionRuleKind::Allocation => {
                reveal_strlit("allocation");
                reveal_strlit("receipt");
                assert("receipt"@.len() != "allocation"@.len());
                reveal_strlit("putaway");
                assert("putaway"@.len() != "allocation"@.len());
            },
            DecisionRuleKind::Replenishment => {
                reveal_strlit("replenishment");
                reveal_strlit("receipt");
                assert("receipt"@.len() != "replenishment"@.len());
                reveal_strlit("putaway");
                assert("putaway"@.len() != "replenishment"@.len());
                reveal_strlit("allocation");
                assert("allocation"@.len() != "replenishment"@.len());
            },
            DecisionRuleKind::Wave => {
                reveal_strlit("wave");
                reveal_strlit("receipt");
                assert("receipt"@.len() != "wave"@.len());
                reveal_strlit("putaway");
                assert("putaway"@.len() != "wave"@.len());
                reveal_strlit("allocation");
                assert("allocation"@.len() != "wave"@.len());
                reveal_strlit("replenishment");
                assert("replenishment"@.len() != "wave"@.len());
            },
            DecisionRuleKind::Pick => {
                reveal_strlit("pick");
                reveal_strlit("receipt");
                assert("receipt"@.len() != "pick"@.len());
                reveal_strlit("putaway");
                assert("putaway"@.len() != "pick"@.len());
                reveal_strlit("allocation");
                assert("allocation"@.len() != "pick"@.len());
                reveal_strlit("replenishment");
                assert("replenishment"@.len() != "pick"@.len());
                reveal_strlit("wave");
                assert("wave"@[0] != "pick"@[0]);
            },
            DecisionRuleKind::Pack => {
                reveal_strlit("pack");
                reveal_strlit("receipt");
                assert("receipt"@.len() != "pack"@.len());
                reveal_strlit("putaway");
                assert("putaway"@.len() != "pack"@.len());
                reveal_strlit("allocation");
                assert("allocation"@.len() != "pack"@.len());
                reveal_strlit("replenishment");
                assert("replenishment"@.len() != "pack"@.len());
                reveal_strlit("wave");
                assert("wave"@[0] != "pack"@[0]);
                reveal_strlit("pick");
                assert("pick"@[1] != "pack"@[1]);
            },
            DecisionRuleKind::Count => {
                reveal_strlit("count");
                reveal_strlit("receipt");
                assert("receipt"@.len() != "count"@.len());
                reveal_strlit("putaway");
                assert("putaway"@.len() != "count"@.len());
                reveal_strlit("allocation");
                assert("allocation"@.len() != "count"@.len());
                reveal_strlit("replenishment");
                assert("replenishment"@.len() != "count"@.len());
                reveal_strlit("wave");
                assert("wave"@.len() != "count"@.len());
                reveal_strlit("pick");
                assert("pick"@.len() != "count"@.len());
                reveal_strlit("pack");
                assert("pack"@.len() != "count"@.len());
            },
            DecisionRuleKind::Document => {
                reveal_strlit("document");
                reveal_strlit("receipt");
                assert("receipt"@.len() != "document"@.len());
                reveal_strlit("putaway");
                assert("putaway"@.len() != "document"@.len());
                reveal_strlit("allocation");
                assert("allocation"@.len() != "document"@.len());
                reveal_strlit("replenishment");
                assert("replenishment"@.len() != "document"@.len());
                reveal_strlit("wave");
                assert("wave"@.len() != "document"@.len());
                reveal_strlit("pick");
                assert("pick"@.len() != "document"@.len());
                reveal_strlit("pack");
                assert("pack"@.len() != "document"@.len());
                reveal_strlit("count");
                assert("count"@.len() != "document"@.len());
            },
            DecisionRuleKind::Billing => {
                reveal_strlit("billing");
                reveal_strlit("receipt");
                assert("receipt"@[0] != "billing"@[0]);
                reveal_strlit("putaway");
                assert("putaway"@[0] != "billing"@[0]);
                reveal_strlit("allocation");
                assert("allocation"@.len() != "billing"@.len());
                reveal_strlit("replenishment");
                assert("replenishment"@.len() != "billing"@.len());
                reveal_strlit("wave");
                assert("wave"@.len() != "billing"@.len());
                reveal_strlit("pick");
                assert("pick"@.len() != "billing"@.len());
                reveal_strlit("pack");
                assert("pack"@.len() != "billing"@.len());
                reveal_strlit("count");
                assert("count"@.len() != "billing"@.len());
                reveal_strlit("document");
                assert("document"@.len() != "billing"@.len());
            },
        }
    }
}

/// Lifecycle of a configuration version.
#[derive(Clone, Copy, Debug, PartialEq, Eq, Structural)]
pub enum ConfigurationStatus {
    Draft,
    PendingApproval,
    Approved,
    Active,
    Retired,
}

impl ConfigurationStatus {
    /// The value that stands for this variant in query strings and forms.
    pub open spec fn wire(self) -> Seq<char> {
        match self {
            ConfigurationStatus::Draft => "draft"@,
            ConfigurationStatus::PendingApproval => "pending_approval"@,
            ConfigurationStatus::Approved => "approved"@,
            ConfigurationStatus::Active => "active"@,
            ConfigurationStatus::Retired => "retired"@,
        }
    }

    /// The wire value of this variant.
    pub fn as_wire(self) -> (r: &'static str)
        ensures
            r@ == self.wire(),
    {
        match self {
            ConfigurationStatus::Draft => "draft",
            ConfigurationStatus::PendingApproval => "pending_approval",
            ConfigurationStatus::Approved => "approved",
            ConfigurationStatus::Active => "active",
            ConfigurationStatus::Retired => "retired",
        }
    }

    /// The label shown for this status.
    pub open spec fn label(self) -> Seq<char> {
        match self {
            ConfigurationStatus::Draft => "Draft"@,
            ConfigurationStatus::PendingApproval => "Pending approval"@,
            ConfigurationStatus::Approved => "Approved"@,
            ConfigurationStatus::Active => "Active"@,
            ConfigurationStatus::Retired => "Retired"@,
        }
    }

    /// The label shown for this status.
    pub fn as_label(self) -> (r: &'static str)
        ensures
            r@ == self.label(),
    {
        match self {
            ConfigurationStatus::Draft => "Draft",
            ConfigurationStatus::PendingApproval => "Pending approval",
            ConfigurationStatus::Approved => "Approved",
            ConfigurationStatus::Active => "Active",
            ConfigurationStatus::Retired => "Retired",
        }
    }

    /// The status-chip class shown for this status.
    pub open spec fn css_class(self) -> Seq<char> {
        match self {
            ConfigurationStatus::Draft => "status-chip neutral"@,
            ConfigurationStatus::PendingApproval => "status-chip warning"@,
            ConfigurationStatus::Approved => "status-chip warning"@,
            ConfigurationStatus::Active => "status-chip success"@,
            ConfigurationStatus::Retired => "status-chip neutral"@,
        }
    }

    /// The status-chip class shown for this status.
    pub fn as_css_class(self) -> (r: &'static str)
        ensures
            r@ == self.css_class(),
    {
        match self {
            ConfigurationStatus::Draft => "status-chip neutral",
            ConfigurationStatus::PendingApproval => "status-chip warning",
            ConfigurationStatus::Approved => "status-chip warning",
            ConfigurationStatus::Active => "status-chip success",
            ConfigurationStatus::Retired => "status-chip neutral",
        }
    }

    /// The variant whose wire value is the text, if any.
    pub open spec fn from_wire(text: Seq<char>) -> Option<ConfigurationStatus> {
        if text == "draft"@ {
            Some(ConfigurationStatus::Draft)
        } else if text == "pending_approval"@ {
            Some(ConfigurationStatus::PendingApproval)
        } else if text == "approved"@ {
            Some(ConfigurationStatus::Approved)
        } else if text == "active"@ {
            Some(ConfigurationStatus::Active)
        } else if text == "retired"@ {
            Some(ConfigurationStatus::Retired)
        } else {
            None
        }
    }

    /// Reads a wire value back into its variant.
    pub fn parse_wire(text: &str) -> (r: Option<ConfigurationStatus>)
        ensures
            r == ConfigurationStatus::from_wire(text@),
    {
        if text_equals(text, "draft") {
            Some(ConfigurationStatus::Draft)
        } else if text_equals(text, "pending_approval") {
            Some(ConfigurationStatus::PendingApproval)
        } else if text_equals(text, "approved") {
            Some(ConfigurationStatus::Approved)
        } else if text_equals(text, "active") {
            Some(ConfigurationStatus::Active)
        } else if text_equals(text, "retired") {
            Some(ConfigurationStatus::Retired)
        } else {
            None
        }
    }

    /// Reading back the wire value of any variant gives that variant.
    pub proof fn lemma_wire_round_trip(self)
        ensures
            ConfigurationStatus::from_wire(self.wire()) == Some(self),
    {
        match self {
            ConfigurationStatus::Draft => {
                reveal_strlit("draft");
            },
            ConfigurationStatus::PendingApproval => {
                reveal_strlit("pending_approval");
                reveal_strlit("draft");
                assert("draft"@.len() != "pending_approval"@.len());
            },
            ConfigurationStatus::Approved => {
                reveal_strlit("approved");
                reveal_strlit("draft");
                assert("draft"@.len() != "approved"@.len());
                reveal_strlit("pending_approval");
                assert("pending_approval"@.len() != "approved"@.len());
            },
            ConfigurationStatus::Active => {
                reveal_strlit("active");
                reveal_strlit("draft");
                assert("draft"@.len() != "active"@.len());
                reveal_strlit("pending_approval");
                assert("pending_approval"@.len() != "active"@.len());
                reveal_strlit("approved");
                assert("approved"@.len() != "active"@.len());
            },
            ConfigurationStatus::Retired => {
                reveal_strlit("retired");
                reveal_strlit("draft");
                assert("draft"@.len() != "retired"@.len());
                reveal_strlit("pending_approval");
                assert("pending_approval"@.len() != "retired"@.len());
                reveal_strlit("approved");
                assert("approved"@.len() != "retired"@.len());
                reveal_strlit("active");
                assert("active"@.len() != "retired"@.len());
            },
        }
    }
}

/// Lifecycle of an item storage policy.
#[derive(Clone, Copy, Debug, PartialEq, Eq, Structural)]
pub enum ItemStoragePolicyStatus {
    Active,
    Retired,
}

impl ItemStoragePolicyStatus {
    /// The value that stands for this variant in query strings and forms.
    pub open spec fn wire(self) -> Seq<char> {
        match self {
            ItemStoragePolicyStatus::Active => "active"@,
            ItemStoragePolicyStatus::Retired => "retired"@,
        }
    }

    /// The wire value of this variant.
    pub fn as_wire(self) -> (r: &'static str)
        ensures
            r@ == self.wire(),
    {
        match self {
            ItemStoragePolicyStatus::Active => "active",
            ItemStoragePolicyStatus::Retired => "retired",
        }
    }
}

/// What a storage zone is used for.
#[derive(Clone, Copy, Debug, PartialEq, Eq, Structural)]
pub enum StorageZonePurpose {
    Receiving,
    Reserve,
    Pick,
    Staging,
    Packing,
    Shipping,
    Quarantine,
    Damage,
}

impl StorageZonePurpose {
    /// The value that stands for this variant in query strings and forms.
    pub open spec fn wire(self) -> Seq<char> {
        match self {
            StorageZonePurpose::Receiving => "receiving"@,
            StorageZonePurpose::Reserve => "reserve"@,
            StorageZonePurpose::Pick => "pick"@,
            StorageZonePurpose::Staging => "staging"@,
            StorageZonePurpose::Packing => "packing"@,
            StorageZonePurpose::Shipping => "shipping"@,
            StorageZonePurpose::Quarantine => "quarantine"@,
            StorageZonePurpose::Damage => "damage"@,
        }
    }

    /// The wire value of this variant.
    pub fn as_wire(self) -> (r: &'static str)
        ensures
            r@ == self.wire(),
    {
        match self {
            StorageZonePurpose::Receiving => "receiving",
            StorageZonePurpose::Reserve => "reserve",
            StorageZonePurpose::Pick => "pick",
            StorageZonePurpose::Staging => "staging",
            StorageZonePurpose::Packing => "packing",
            StorageZonePurpose::Shipping => "shipping",
            StorageZonePurpose::Quarantine => "quarantine",
            StorageZonePurpose::Damage => "damage",
        }
    }
}

/// Lifecycle of a storage zone.
#[derive(Clone, Copy, Debug, PartialEq, Eq, Structural)]
pub enum StorageZoneStatus {
    Active,
    Retired,
}

impl StorageZoneStatus {
    /// The value that stands for this variant in query strings and forms.
    pub open spec fn wire(self) -> Seq<char> {
        match self {
            StorageZoneStatus::Active => "active"@,
            StorageZoneStatus::Retired => "retired"@,
        }
    }

    /// The wire value of this variant.
    pub fn as_wire(self) -> (r: &'static str)
        ensures
            r@ == self.wire(),
    {
        match self {
            StorageZoneStatus::Active => "active",
            StorageZoneStatus::Retired => "retired",
        }
    }
}

/// Server-side sort keys of cycle-count candidates.
#[derive(Clone, Copy, Debug, PartialEq, Eq, Structural)]
pub enum CycleCountCandidateSort {
    LastCounted,
    Client,
    Facility,
    Location,
    Item,
    Quantity,
    InventoryStatus,
}

impl CycleCountCandidateSort {
    /// The value that stands for this variant in query strings and forms.
    pub open spec fn wire(self) -> Seq<char> {
        match self {
            CycleCountCandidateSort::LastCounted => "last_counted"@,
            CycleCountCandidateSort::Client => "client"@,
            CycleCountCandidateSort::Facility => "facility"@,
            CycleCountCandidateSort::Location => "location"@,
            CycleCountCandidateSort::Item => "item"@,
            CycleCountCandidateSort::Quantity => "quantity"@,
            CycleCountCandidateSort::InventoryStatus => "inventory_status"@,
        }
    }

    /// The wire value of this variant.
    pub fn as_wire(self) -> (r: &'static str)
        ensures
            r@ == self.wire(),
    {
        match self {
            CycleCountCandidateSort::LastCounted => "last_counted",
            CycleCountCandidateSort::Client => "client",
            CycleCountCandidateSort::Facility => "facility",
            CycleCountCandidateSort::Location => "location",
            CycleCountCandidateSort::Item => "item",
            CycleCountCandidateSort::Quantity => "quantity",
            CycleCountCandidateSort::InventoryStatus => "inventory_status",
        }
    }
}

/// Server-side sort keys of cycle-count work.
#[derive(Clone, Copy, Debug, PartialEq, Eq, Structural)]
pub enum CycleCountWorkSort {
    Priority,
    CreatedAt,
    Client,
    Facility,
    Location,
    Item,
    Quantity,
    Variance,
    Status,
}

impl CycleCountWorkSort {
    /// The value that stands for this variant in query strings and forms.
    pub open spec fn wire(self) -> Seq<char> {
        match self {
            CycleCountWorkSort::Priority => "priority"@,
            CycleCountWorkSort::CreatedAt => "created_at"@,
            CycleCountWorkSort::Client => "client"@,
            CycleCountWorkSort::Facility => "facility"@,
            CycleCountWorkSort::Location => "location"@,
            CycleCountWorkSort::Item => "item"@,
            CycleCountWorkSort::Quantity => "quantity"@,
            CycleCountWorkSort::Variance => "variance"@,
            CycleCountWorkSort::Status => "status"@,
        }
    }

    /// The wire value of this variant.
    pub fn as_wire(self) -> (r: &'static str)
        ensures
            r@ == self.wire(),
    {
        match self {
            CycleCountWorkSort::Priority => "priority",
            CycleCountWorkSort::CreatedAt => "created_at",
            CycleCountWorkSort::Client => "client",
            CycleCountWorkSort::Facility => "facility",
            CycleCountWorkSort::Location => "location",
            CycleCountWorkSort::Item => "item",
            CycleCountWorkSort::Quantity => "quantity",
            CycleCountWorkSort::Variance => "variance",
            CycleCountWorkSort::Status => "status",
        }
    }
}

/// Condition of an inventory balance.
#[derive(Clone, Copy, Debug, PartialEq, Eq, Structural)]
pub enum InventoryBalanceStatus {
    Available,
    Hold,
    Damaged,
    Quarantine,
}

impl InventoryBalanceStatus {
    /// The value that stands for this variant in query strings and forms.
    pub open spec fn wire(self) -> Seq<char> {
        match self {
            InventoryBalanceStatus::Available => "available"@,
            InventoryBalanceStatus::Hold => "hold"@,
            InventoryBalanceStatus::Damaged => "damaged"@,
            InventoryBalanceStatus::Quarantine => "quarantine"@,
        }
    }

    /// The wire value of this variant.
    pub fn as_wire(self) -> (r: &'static str)
        ensures
            r@ == self.wire(),
    {
        match self {
            InventoryBalanceStatus::Available => "available",
            InventoryBalanceStatus::Hold => "hold",
            InventoryBalanceStatus::Damaged => "damaged",
            InventoryBalanceStatus::Quarantine => "quarantine",
        }
    }
}

/// Lifecycle of cycle-count work.
#[derive(Clone, Copy, Debug, PartialEq, Eq, Structural)]
pub enum CycleCountWorkStatus {
    Pending,
    Claimed,
    Completed,
    Cancelled,
}

impl CycleCountWorkStatus {
    /// The value that stands for this variant in query strings and forms.
    pub open spec fn wire(self) -> Seq<char> {
        match self {
            CycleCountWorkStatus::Pending => "pending"@,
            CycleCountWorkStatus::Claimed => "claimed"@,
            CycleCountWorkStatus::Completed => "completed"@,
            CycleCountWorkStatus::Cancelled => "cancelled"@,
        }
    }

    /// The wire value of this variant.
    pub fn as_wire(self) -> (r: &'static str)
        ensures
            r@ == self.wire(),
    {
        match self {
            CycleCountWorkStatus::Pending => "pending",
            CycleCountWorkStatus::Claimed => "claimed",
            CycleCountWorkStatus::Completed => "completed",
            CycleCountWorkStatus::Cancelled => "cancelled",
        }
    }
}

/// The kind of a labor activity.
#[derive(Clone, Copy, Debug, PartialEq, Eq, Structural)]
pub enum LaborActivityKind {
    Receiving,
    Putaway,
    Replenishment,
    Picking,
    Packing,
    Shipping,
    CycleCount,
    InventoryRelocation,
    CrossDock,
    Yard,
    CustomerReturn,
    VendorReturn,
    ValueAddedWork,
    Break,
    Meeting,
    Training,
    Maintenance,
    Delay,
    OtherIndirect,
}

impl LaborActivityKind {
    /// The value that stands for this variant in query strings and forms.
    pub open spec fn wire(self) -> Seq<char> {
        match self {
            LaborActivityKind::Receiving => "receiving"@,
            LaborActivityKind::Putaway => "putaway"@,
            LaborActivityKind::Replenishment => "replenishment"@,
            LaborActivityKind::Picking => "picking"@,
            LaborActivityKind::Packing => "packing"@,
            LaborActivityKind::Shipping => "shipping"@,
            LaborActivityKind::CycleCount => "cycle_count"@,
            LaborActivityKind::InventoryRelocation => "inventory_relocation"@,
            LaborActivityKind::CrossDock => "cross_dock"@,
            LaborActivityKind::Yard => "yard"@,
            LaborActivityKind::CustomerReturn => "customer_return"@,
            LaborActivityKind::VendorReturn => "vendor_return"@,
            LaborActivityKind::ValueAddedWork => "value_added_work"@,
            LaborActivityKind::Break => "break"@,
            LaborActivityKind::Meeting => "meeting"@,
            LaborActivityKind::Training => "training"@,
            LaborActivityKind::Maintenance => "maintenance"@,
            LaborActivityKind::Delay => "delay"@,
            LaborActivityKind::OtherIndirect => "other_indirect"@,
        }
    }

    /// The wire value of this variant.
    pub fn as_wire(self) -> (r: &'static str)
        ensures
            r@ == self.wire(),
    {
        match self {
            LaborActivityKind::Receiving => "receiving",
            LaborActivityKind::Putaway => "putaway",
            LaborActivityKind::Replenishment => "replenishment",
            LaborActivityKind::Picking => "picking",
            LaborActivityKind::Packing => "packing",
            LaborActivityKind::Shipping => "shipping",
            LaborActivityKind::CycleCount => "cycle_count",
            LaborActivityKind::InventoryRelocation => "inventory_relocation",
            LaborActivityKind::CrossDock => "cross_dock",
            LaborActivityKind::Yard => "yard",
            LaborActivityKind::CustomerReturn => "customer_return",
            LaborActivityKind::VendorReturn => "vendor_return",
            LaborActivityKind::ValueAddedWork => "value_added_work",
            LaborActivityKind::Break => "break",
            LaborActivityKind::Meeting => "meeting",
            LaborActivityKind::Training => "training",
            LaborActivityKind::Maintenance => "maintenance",
            LaborActivityKind::Delay => "delay",
            LaborActivityKind::OtherIndirect => "other_indirect",
        }
    }
}

/// The unit a labor quantity is counted in.
#[derive(Clone, Copy, Debug, PartialEq, Eq, Structural)]
pub enum LaborQuantityBasis {
    Unit,
    Line,
    Container,
    Task,
    WeightGram,
}

impl LaborQuantityBasis {
    /// The value that stands for this variant in query strings and forms.
    pub open spec fn wire(self) -> Seq<char> {
        match self {
            LaborQuantityBasis::Unit => "unit"@,
            LaborQuantityBasis::Line => "line"@,
            LaborQuantityBasis::Container => "container"@,
            LaborQuantityBasis::Task => "task"@,
            LaborQuantityBasis::WeightGram => "weight_gram"@,
        }
    }

    /// The wire value of this variant.
    pub fn as_wire(self) -> (r: &'static str)
        ensures
            r@ == self.wire(),
    {
        match self {
            LaborQuantityBasis::Unit => "unit",
            LaborQuantityBasis::Line => "line",
            LaborQuantityBasis::Container => "container",
            LaborQuantityBasis::Task => "task",
            LaborQuantityBasis::WeightGram => "weight_gram",
        }
    }
}

/// Lifecycle of a tenant.
#[derive(Clone, Copy, Debug, PartialEq, Eq, Structural)]
pub enum TenantStatus {
    Active,
    Suspended,
}

impl TenantStatus {
    /// The value that stands for this variant in query strings and forms.
    pub open spec fn wire(self) -> Seq<char> {
        match self {
            TenantStatus::Active => "active"@,
            TenantStatus::Suspended => "suspended"@,
        }
    }

    /// The wire value of this variant.
    pub fn as_wire(self) -> (r: &'static str)
        ensures
            r@ == self.wire(),
    {
        match self {
            TenantStatus::Active => "active",
            TenantStatus::Suspended => "suspended",
        }
    }
}

/// Lifecycle of an integration item mapping.
#[derive(Clone, Copy, Debug, PartialEq, Eq, Structural)]
pub enum IntegrationOrderItemMappingStatus {
    Active,
    Retired,
}

impl IntegrationOrderItemMappingStatus {
    /// The value that stands for this variant in query strings and forms.
    pub open spec fn wire(self) -> Seq<char> {
        match self {
            IntegrationOrderItemMappingStatus::Active => "active"@,
            IntegrationOrderItemMappingStatus::Retired => "retired"@,
        }
    }

    /// The wire value of this variant.
    pub fn as_wire(self) -> (r: &'static str)
        ensures
            r@ == self.wire(),
    {
        match self {
            IntegrationOrderItemMappingStatus::Active => "active",
            IntegrationOrderItemMappingStatus::Retired => "retired",
        }
    }
}

/// Lifecycle of an integration owner mapping.
#[derive(Clone, Copy, Debug, PartialEq, Eq, Structural)]
pub enum IntegrationOrderOwnerMappingStatus {
    Active,
    Retired,
}

impl IntegrationOrderOwnerMappingStatus {
    /// The value that stands for this variant in query strings and forms.
    pub open spec fn wire(self) -> Seq<char> {
        match self {
            IntegrationOrderOwnerMappingStatus::Active => "active"@,
            IntegrationOrderOwnerMappingStatus::Retired => "retired"@,
        }
    }

    /// The wire value of this variant.
    pub fn as_wire(self) -> (r: &'static str)
        ensures
            r@ == self.wire(),
    {
        match self {
            IntegrationOrderOwnerMappingStatus::Active => "active",
            IntegrationOrderOwnerMappingStatus::Retired => "retired",
        }
    }

    /// The label shown for this status.
    pub open spec fn label(self) -> Seq<char> {
        match self {
            IntegrationOrderOwnerMappingStatus::Active => "Active"@,
            IntegrationOrderOwnerMappingStatus::Retired => "Retired"@,
        }
    }

    /// The label shown for this status.
    pub fn as_label(self) -> (r: &'static str)
        ensures
            r@ == self.label(),
    {
        match self {
            IntegrationOrderOwnerMappingStatus::Active => "Active",
            IntegrationOrderOwnerMappingStatus::Retired => "Retired",
        }
    }

    /// The status class shown for this status.
    pub open spec fn css_class(self) -> Seq<char> {
        match self {
            IntegrationOrderOwnerMappingStatus::Active => "status shipped"@,
            IntegrationOrderOwnerMappingStatus::Retired => "status muted"@,
        }
    }

    /// The status class shown for this status.
    pub fn as_css_class(self) -> (r: &'static str)
        ensures
            r@ == self.css_class(),
    {
        match self {
            IntegrationOrderOwnerMappingStatus::Active => "status shipped",
            IntegrationOrderOwnerMappingStatus::Retired => "status muted",
        }
    }
}

/// Lifecycle of a data cell.
#[derive(Clone, Copy, Debug, PartialEq, Eq, Structural)]
pub enum DataCellStatus {
    Provisioning,
    Active,
    Draining,
    Retired,
}

impl DataCellStatus {
    /// The value that stands for this variant in query strings and forms.
    pub open spec fn wire(self) -> Seq<char> {
        match self {
            DataCellStatus::Provisioning => "provisioning"@,
            DataCellStatus::Active => "active"@,
            DataCellStatus::Draining => "draining"@,
            DataCellStatus::Retired => "retired"@,
        }
    }

    /// The wire value of this variant.
    pub fn as_wire(self) -> (r: &'static str)
        ensures
            r@ == self.wire(),
    {
        match self {
            DataCellStatus::Provisioning => "provisioning",
            DataCellStatus::Active => "active",
            DataCellStatus::Draining => "draining",
            DataCellStatus::Retired => "retired",
        }
    }
}

/// How received stock is put away.
#[derive(Clone, Copy, Debug, PartialEq, Eq, Structural)]
pub enum PutawayWorkflow {
    Loose,
    LicensePlate,
}

impl PutawayWorkflow {
    /// The value that stands for this variant in query strings and forms.
    pub open spec fn wire(self) -> Seq<char> {
        match self {
            PutawayWorkflow::Loose => "loose"@,
            PutawayWorkflow::LicensePlate => "license_plate"@,
        }
    }

    /// The wire value of this variant.
    pub fn as_wire(self) -> (r: &'static str)
        ensures
            r@ == self.wire(),
    {
        match self {
            PutawayWorkflow::Loose => "loose",
            PutawayWorkflow::LicensePlate => "license_plate",
        }
    }
}

/// Lifecycle of putaway work.
#[derive(Clone, Copy, Debug, PartialEq, Eq, Structural)]
pub enum PutawayWorkStatus {
    Pending,
    Claimed,
    Completed,
    Cancelled,
}

impl PutawayWorkStatus {
    /// The value that stands for this variant in query strings and forms.
    pub open spec fn wire(self) -> Seq<char> {
        match self {
            PutawayWorkStatus::Pending => "pending"@,
            PutawayWorkStatus::Claimed => "claimed"@,
            PutawayWorkStatus::Completed => "completed"@,
            PutawayWorkStatus::Cancelled => "cancelled"@,
        }
    }

    /// The wire value of this variant.
    pub fn as_wire(self) -> (r: &'static str)
        ensures
            r@ == self.wire(),
    {
        match self {
            PutawayWorkStatus::Pending => "pending",
            PutawayWorkStatus::Claimed => "claimed",
            PutawayWorkStatus::Completed => "completed",
            PutawayWorkStatus::Cancelled => "cancelled",
        }
    }
}

/// Server-side sort keys of putaway candidates.
#[derive(Clone, Copy, Debug, PartialEq, Eq, Structural)]
pub enum PutawayCandidateSort {
    ReceivedAt,
    Client,
    Facility,
    Source,
    Item,
    Quantity,
    Workflow,
}

impl PutawayCandidateSort {
    /// The value that stands for this variant in query strings and forms.
    pub open spec fn wire(self) -> Seq<char> {
        match self {
            PutawayCandidateSort::ReceivedAt => "received_at"@,
            PutawayCandidateSort::Client => "client"@,
            PutawayCandidateSort::Facility => "facility"@,
            PutawayCandidateSort::Source => "source"@,
            PutawayCandidateSort::Item => "item"@,
            PutawayCandidateSort::Quantity => "quantity"@,
            PutawayCandidateSort::Workflow => "workflow"@,
        }
    }

    /// The wire value of this variant.
    pub fn as_wire(self) -> (r: &'static str)
        ensures
            r@ == self.wire(),
    {
        match self {
            PutawayCandidateSort::ReceivedAt => "received_at",
            PutawayCandidateSort::Client => "client",
            PutawayCandidateSort::Facility => "facility",
            PutawayCandidateSort::Source => "source",
            PutawayCandidateSort::Item => "item",
            PutawayCandidateSort::Quantity => "quantity",
            PutawayCandidateSort::Workflow => "workflow",
        }
    }
}

/// Server-side sort keys of putaway work.
#[derive(Clone, Copy, Debug, PartialEq, Eq, Structural)]
pub enum PutawayWorkSort {
    Priority,
    CreatedAt,
    Client,
    Facility,
    Source,
    Destination,
    Quantity,
    Status,
    Workflow,
}

impl PutawayWorkSort {
    /// The value that stands for this variant in query strings and forms.
    pub open spec fn wire(self) -> Seq<char> {
        match self {
            PutawayWorkSort::Priority => "priority"@,
            PutawayWorkSort::CreatedAt => "created_at"@,
            PutawayWorkSort::Client => "client"@,
            PutawayWorkSort::Facility => "facility"@,
            PutawayWorkSort::Source => "source"@,
            PutawayWorkSort::Destination => "destination"@,
            PutawayWorkSort::Quantity => "quantity"@,
            PutawayWorkSort::Status => "status"@,
            PutawayWorkSort::Workflow => "workflow"@,
        }
    }

    /// The wire value of this variant.
    pub fn as_wire(self) -> (r: &'static str)
        ensures
            r@ == self.wire(),
    {
        match self {
            PutawayWorkSort::Priority => "priority",
            PutawayWorkSort::CreatedAt => "created_at",
            PutawayWorkSort::Client => "client",
            PutawayWorkSort::Facility => "facility",
            PutawayWorkSort::Source => "source",
            PutawayWorkSort::Destination => "destination",
            PutawayWorkSort::Quantity => "quantity",
            PutawayWorkSort::Status => "status",
            PutawayWorkSort::Workflow => "workflow",
        }
    }
}

/// Server-side sort keys of inbound integration receipts.
#[derive(Clone, Copy, Debug, PartialEq, Eq, Structural)]
pub enum InboundIntegrationSort {
    ReceivedAt,
    Source,
    PayloadSize,
}

impl InboundIntegrationSort {
    /// The value that stands for this variant in query strings and forms.
    pub open spec fn wire(self) -> Seq<char> {
        match self {
            InboundIntegrationSort::ReceivedAt => "received_at"@,
            InboundIntegrationSort::Source => "source"@,
            InboundIntegrationSort::PayloadSize => "payload_size"@,
        }
    }

    /// The wire value of this variant.
    pub fn as_wire(self) -> (r: &'static str)
        ensures
            r@ == self.wire(),
    {
        match self {
            InboundIntegrationSort::ReceivedAt => "received_at",
            InboundIntegrationSort::Source => "source",
            InboundIntegrationSort::PayloadSize => "payload_size",
        }
    }
}

/// Server-side sort keys of outbound integration events.
#[derive(Clone, Copy, Debug, PartialEq, Eq, Structural)]
pub enum OutboundIntegrationSort {
    CreatedAt,
    EventType,
    Status,
    Attempts,
}

impl OutboundIntegrationSort {
    /// The value that stands for this variant in query strings and forms.
    pub open spec fn wire(self) -> Seq<char> {
        match self {
            OutboundIntegrationSort::CreatedAt => "created_at"@,
            OutboundIntegrationSort::EventType => "event_type"@,
            OutboundIntegrationSort::Status => "status"@,
            OutboundIntegrationSort::Attempts => "attempts"@,
        }
    }

    /// The wire value of this variant.
    pub fn as_wire(self) -> (r: &'static str)
        ensures
            r@ == self.wire(),
    {
        match self {
            OutboundIntegrationSort::CreatedAt => "created_at",
            OutboundIntegrationSort::EventType => "event_type",
            OutboundIntegrationSort::Status => "status",
            OutboundIntegrationSort::Attempts => "attempts",
        }
    }
}

/// Delivery state of an outbound integration event.
#[derive(Clone, Copy, Debug, PartialEq, Eq, Structural)]
pub enum OutboundDeliveryStatus {
    Pending,
    Claimed,
    RetryScheduled,
    DeadLettered,
    Published,
    Discarded,
}

impl OutboundDeliveryStatus {
    /// The value that stands for this variant in query strings and forms.
    pub open spec fn wire(self) -> Seq<char> {
        match self {
            OutboundDeliveryStatus::Pending => "pending"@,
            OutboundDeliveryStatus::Claimed => "claimed"@,
            OutboundDeliveryStatus::RetryScheduled => "retry_scheduled"@,
            OutboundDeliveryStatus::DeadLettered => "dead_lettered"@,
            OutboundDeliveryStatus::Published => "published"@,
            OutboundDeliveryStatus::Discarded => "discarded"@,
        }
    }

    /// The wire value of this variant.
    pub fn as_wire(self) -> (r: &'static str)
        ensures
            r@ == self.wire(),
    {
        match self {
            OutboundDeliveryStatus::Pending => "pending",
            OutboundDeliveryStatus::Claimed => "claimed",
            OutboundDeliveryStatus::RetryScheduled => "retry_scheduled",
            OutboundDeliveryStatus::DeadLettered => "dead_lettered",
            OutboundDeliveryStatus::Published => "published",
            OutboundDeliveryStatus::Discarded => "discarded",
        }
    }

    /// The label shown for this status.
    pub open spec fn label(self) -> Seq<char> {
        match self {
            OutboundDeliveryStatus::Pending => "Pending"@,
            OutboundDeliveryStatus::Claimed => "Claimed"@,
            OutboundDeliveryStatus::RetryScheduled => "Retry scheduled"@,
            OutboundDeliveryStatus::DeadLettered => "Dead lettered"@,
            OutboundDeliveryStatus::Published => "Published"@,
            OutboundDeliveryStatus::Discarded => "Discarded"@,
        }
    }

    /// The label shown for this status.
    pub fn as_label(self) -> (r: &'static str)
        ensures
            r@ == self.label(),
    {
        match self {
            OutboundDeliveryStatus::Pending => "Pending",
            OutboundDeliveryStatus::Claimed => "Claimed",
            OutboundDeliveryStatus::RetryScheduled => "Retry scheduled",
            OutboundDeliveryStatus::DeadLettered => "Dead lettered",
            OutboundDeliveryStatus::Published => "Published",
            OutboundDeliveryStatus::Discarded => "Discarded",
        }
    }

    /// The status class shown for this status.
    pub open spec fn css_class(self) -> Seq<char> {
        match self {
            OutboundDeliveryStatus::Pending => "status open"@,
            OutboundDeliveryStatus::Claimed => "status open"@,
            OutboundDeliveryStatus::RetryScheduled => "status processing"@,
            OutboundDeliveryStatus::DeadLettered => "status held"@,
            OutboundDeliveryStatus::Published => "status shipped"@,
            OutboundDeliveryStatus::Discarded => "status muted"@,
        }
    }

    /// The status class shown for this status.
    pub fn as_css_class(self) -> (r: &'static str)
        ensures
            r@ == self.css_class(),
    {
        match self {
            OutboundDeliveryStatus::Pending => "status open",
            OutboundDeliveryStatus::Claimed => "status open",
            OutboundDeliveryStatus::RetryScheduled => "status processing",
            OutboundDeliveryStatus::DeadLettered => "status held",
            OutboundDeliveryStatus::Published => "status shipped",
            OutboundDeliveryStatus::Discarded => "status muted",
        }
    }

    /// The variant whose wire value is the text, if any.
    pub open spec fn from_wire(text: Seq<char>) -> Option<OutboundDeliveryStatus> {
        if text == "pending"@ {
            Some(OutboundDeliveryStatus::Pending)
        } else if text == "claimed"@ {
            Some(OutboundDeliveryStatus::Claimed)
        } else if text == "retry_scheduled"@ {
            Some(OutboundDeliveryStatus::RetryScheduled)
        } else if text == "dead_lettered"@ {
            Some(OutboundDeliveryStatus::DeadLettered)
        } else if text == "published"@ {
            Some(OutboundDeliveryStatus::Published)
        } else if text == "discarded"@ {
            Some(OutboundDeliveryStatus::Discarded)
        } else {
            None
        }
    }

    /// Reads a wire value back into its variant.
    pub fn parse_wire(text: &str) -> (r: Option<OutboundDeliveryStatus>)
        ensures
            r == OutboundDeliveryStatus::from_wire(text@),
    {
        if text_equals(text, "pending") {
            Some(OutboundDeliveryStatus::Pending)
        } else if text_equals(text, "claimed") {
            Some(OutboundDeliveryStatus::Claimed)
        } else if text_equals(text, "retry_scheduled") {
            Some(OutboundDeliveryStatus::RetryScheduled)
        } else if text_equals(text, "dead_lettered") {
            Some(OutboundDeliveryStatus::DeadLettered)
        } else if text_equals(text, "published") {
            Some(OutboundDeliveryStatus::Published)
        } else if text_equals(text, "discarded") {
            Some(OutboundDeliveryStatus::Discarded)
        } else {
            None
        }
    }

    /// Reading back the wire value of any variant gives that variant.
    pub proof fn lemma_wire_round_trip(self)
        ensures
            OutboundDeliveryStatus::from_wire(self.wire()) == Some(self),
    {
        match self {
            OutboundDeliveryStatus::Pending => {
                reveal_strlit("pending");
            },
            OutboundDeliveryStatus::Claimed => {
                reveal_strlit("claimed");
                reveal_strlit("pending");
                assert("pending"@[0] != "claimed"@[0]);
            },
            OutboundDeliveryStatus::RetryScheduled => {
                reveal_strlit("retry_scheduled");
                reveal_strlit("pending");
                assert("pending"@.len() != "retry_scheduled"@.len());
                reveal_strlit("claimed");
                assert("claimed"@.len() != "retry_scheduled"@.len());
            },
            OutboundDeliveryStatus::DeadLettered => {
                reveal_strlit("dead_lettered");
                reveal_strlit("pending");
                assert("pending"@.len() != "dead_lettered"@.len());
                reveal_strlit("claimed");
                assert("claimed"@.len() != "dead_lettered"@.len());
                reveal_strlit("retry_scheduled");
                assert("retry_scheduled"@.len() != "dead_lettered"@.len());
            },
            OutboundDeliveryStatus::Published => {
                reveal_strlit("published");
                reveal_strlit("pending");
                assert("pending"@.len() != "published"@.len());
                reveal_strlit("claimed");
                assert("claimed"@.len() != "published"@.len());
                reveal_strlit("retry_scheduled");
                assert("retry_scheduled"@.len() != "published"@.len());
                reveal_strlit("dead_lettered");
                assert("dead_lettered"@.len() != "published"@.len());
            },
            OutboundDeliveryStatus::Discarded => {
                reveal_strlit("discarded");
                reveal_strlit("pending");
                assert("pending"@.len() != "discarded"@.len());
                reveal_strlit("claimed");
                assert("claimed"@.len() != "discarded"@.len());
                reveal_strlit("retry_scheduled");
                assert("retry_scheduled"@.len() != "discarded"@.len());
                reveal_strlit("dead_lettered");
                assert("dead_lettered"@.len() != "discarded"@.len());
                reveal_strlit("published");
                assert("published"@[0] != "discarded"@[0]);
            },
        }
    }
}

/// Lifecycle of a tenant move between data cells.
#[derive(Clone, Copy, Debug, PartialEq, Eq, Structural)]
pub enum TenantCellMoveStatus {
    Planned,
    Copying,
    Frozen,
    Validated,
    CutOver,
    Completed,
    Cancelled,
    RolledBack,
}

impl TenantCellMoveStatus {
    /// The value that stands for this variant in query strings and forms.
    pub open spec fn wire(self) -> Seq<char> {
        match self {
            TenantCellMoveStatus::Planned => "planned"@,
            TenantCellMoveStatus::Copying => "copying"@,
            TenantCellMoveStatus::Frozen => "frozen"@,
            TenantCellMoveStatus::Validated => "validated"@,
            TenantCellMoveStatus::CutOver => "cut_over"@,
            TenantCellMoveStatus::Completed => "completed"@,
            TenantCellMoveStatus::Cancelled => "cancelled"@,
            TenantCellMoveStatus::RolledBack => "rolled_back"@,
        }
    }

    /// The wire value of this variant.
    pub fn as_wire(self) -> (r: &'static str)
        ensures
            r@ == self.wire(),
    {
        match self {
            TenantCellMoveStatus::Planned => "planned",
            TenantCellMoveStatus::Copying => "copying",
            TenantCellMoveStatus::Frozen => "frozen",
            TenantCellMoveStatus::Validated => "validated",
            TenantCellMoveStatus::CutOver => "cut_over",
            TenantCellMoveStatus::Completed => "completed",
            TenantCellMoveStatus::Cancelled => "cancelled",
            TenantCellMoveStatus::RolledBack => "rolled_back",
        }
    }
}

/// Lifecycle of a support access grant.
#[derive(Clone, Copy, Debug, PartialEq, Eq, Structural)]
pub enum SupportAccessStatus {
    Pending,
    Active,
    Rejected,
    Revoked,
    Expired,
}

impl SupportAccessStatus {
    /// The value that stands for this variant in query strings and forms.
    pub open spec fn wire(self) -> Seq<char> {
        match self {
            SupportAccessStatus::Pending => "pending"@,
            SupportAccessStatus::Active => "active"@,
            SupportAccessStatus::Rejected => "rejected"@,
            SupportAccessStatus::Revoked => "revoked"@,
            SupportAccessStatus::Expired => "expired"@,
        }
    }

    /// The wire value of this variant.
    pub fn as_wire(self) -> (r: &'static str)
        ensures
            r@ == self.wire(),
    {
        match self {
            SupportAccessStatus::Pending => "pending",
            SupportAccessStatus::Active => "active",
            SupportAccessStatus::Rejected => "rejected",
            SupportAccessStatus::Revoked => "revoked",
            SupportAccessStatus::Expired => "expired",
        }
    }
}

/// Server-side sort keys of the inventory journal.
#[derive(Clone, Copy, Debug, PartialEq, Eq, Structural)]
pub enum InventoryJournalSort {
    OccurredAt,
    Transaction,
    Type,
    Client,
    NetQuantity,
}

impl InventoryJournalSort {
    /// The value that stands for this variant in query strings and forms.
    pub open spec fn wire(self) -> Seq<char> {
        match self {
            InventoryJournalSort::OccurredAt => "occurred_at"@,
            InventoryJournalSort::Transaction => "transaction"@,
            InventoryJournalSort::Type => "type"@,
            InventoryJournalSort::Client => "client"@,
            InventoryJournalSort::NetQuantity => "net_quantity"@,
        }
    }

    /// The wire value of this variant.
    pub fn as_wire(self) -> (r: &'static str)
        ensures
            r@ == self.wire(),
    {
        match self {
            InventoryJournalSort::OccurredAt => "occurred_at",
            InventoryJournalSort::Transaction => "transaction",
            InventoryJournalSort::Type => "type",
            InventoryJournalSort::Client => "client",
            InventoryJournalSort::NetQuantity => "net_quantity",
        }
    }
}

/// Server-side sort keys of integrity issues.
#[derive(Clone, Copy, Debug, PartialEq, Eq, Structural)]
pub enum InventoryIntegritySort {
    Severity,
    Facility,
    Client,
    Item,
}

impl InventoryIntegritySort {
    /// The value that stands for this variant in query strings and forms.
    pub open spec fn wire(self) -> Seq<char> {
        match self {
            InventoryIntegritySort::Severity => "severity"@,
            InventoryIntegritySort::Facility => "facility"@,
            InventoryIntegritySort::Client => "client"@,
            InventoryIntegritySort::Item => "item"@,
        }
    }

    /// The wire value of this variant.
    pub fn as_wire(self) -> (r: &'static str)
        ensures
            r@ == self.wire(),
    {
        match self {
            InventoryIntegritySort::Severity => "severity",
            InventoryIntegritySort::Facility => "facility",
            InventoryIntegritySort::Client => "client",
            InventoryIntegritySort::Item => "item",
        }
    }
}

/// Server-side sort keys of the aging report.
#[derive(Clone, Copy, Debug, PartialEq, Eq, Structural)]
pub enum InventoryAgingSort {
    Age,
    Expiration,
    Quantity,
    Facility,
    Client,
    Item,
}

impl InventoryAgingSort {
    /// The value that stands for this variant in query strings and forms.
    pub open spec fn wire(self) -> Seq<char> {
        match self {
            InventoryAgingSort::Age => "age"@,
            InventoryAgingSort::Expiration => "expiration"@,
            InventoryAgingSort::Quantity => "quantity"@,
            InventoryAgingSort::Facility => "facility"@,
            InventoryAgingSort::Client => "client"@,
            InventoryAgingSort::Item => "item"@,
        }
    }

    /// The wire value of this variant.
    pub fn as_wire(self) -> (r: &'static str)
        ensures
            r@ == self.wire(),
    {
        match self {
            InventoryAgingSort::Age => "age",
            InventoryAgingSort::Expiration => "expiration",
            InventoryAgingSort::Quantity => "quantity",
            InventoryAgingSort::Facility => "facility",
            InventoryAgingSort::Client => "client",
            InventoryAgingSort::Item => "item",
        }
    }
}

/// Expiration window of aging inventory.
#[derive(Clone, Copy, Debug, PartialEq, Eq, Structural)]
pub enum InventoryAgingBucket {
    Expired,
    DueWithin7Days,
    DueWithin30Days,
    DueWithin90Days,
    Beyond90Days,
    NoExpiration,
}

impl InventoryAgingBucket {
    /// The value that stands for this variant in query strings and forms.
    pub open spec fn wire(self) -> Seq<char> {
        match self {
            InventoryAgingBucket::Expired => "expired"@,
            InventoryAgingBucket::DueWithin7Days => "due_within_7_days"@,
            InventoryAgingBucket::DueWithin30Days => "due_within_30_days"@,
            InventoryAgingBucket::DueWithin90Days => "due_within_90_days"@,
            InventoryAgingBucket::Beyond90Days => "beyond_90_days"@,
            InventoryAgingBucket::NoExpiration => "no_expiration"@,
        }
    }

    /// The wire value of this variant.
    pub fn as_wire(self) -> (r: &'static str)
        ensures
            r@ == self.wire(),
    {
        match self {
            InventoryAgingBucket::Expired => "expired",
            InventoryAgingBucket::DueWithin7Days => "due_within_7_days",
            InventoryAgingBucket::DueWithin30Days => "due_within_30_days",
            InventoryAgingBucket::DueWithin90Days => "due_within_90_days",
            InventoryAgingBucket::Beyond90Days => "beyond_90_days",
            InventoryAgingBucket::NoExpiration => "no_expiration",
        }
    }
}

/// The kind of an inventory integrity issue.
#[derive(Clone, Copy, Debug, PartialEq, Eq, Structural)]
pub enum InventoryIntegrityIssueKind {
    JournalProjection,
    Commitments,
}

impl InventoryIntegrityIssueKind {
    /// The value that stands for this variant in query strings and forms.
    pub open spec fn wire(self) -> Seq<char> {
        match self {
            InventoryIntegrityIssueKind::JournalProjection => "journal_projection"@,
            InventoryIntegrityIssueKind::Commitments => "commitments"@,
        }
    }

    /// The wire value of this variant.
    pub fn as_wire(self) -> (r: &'static str)
        ensures
            r@ == self.wire(),
    {
        match self {
            InventoryIntegrityIssueKind::JournalProjection => "journal_projection",
            InventoryIntegrityIssueKind::Commitments => "commitments",
        }
    }
}

/// Lifecycle of an inventory recall.
#[derive(Clone, Copy, Debug, PartialEq, Eq, Structural)]
pub enum InventoryRecallStatus {
    Active,
    Released,
}

impl InventoryRecallStatus {
    /// The value that stands for this variant in query strings and forms.
    pub open spec fn wire(self) -> Seq<char> {
        match self {
            InventoryRecallStatus::Active => "active"@,
            InventoryRecallStatus::Released => "released"@,
        }
    }

    /// The wire value of this variant.
    pub fn as_wire(self) -> (r: &'static str)
        ensures
            r@ == self.wire(),
    {
        match self {
            InventoryRecallStatus::Active => "active",
            InventoryRecallStatus::Released => "released",
        }
    }
}

/// A billable warehouse event.
#[derive(Clone, Copy, Debug, PartialEq, Eq, Structural)]
pub enum BillableEventType {
    ReceiptLine,
    ReceivedUnit,
    PalletDay,
    PickLine,
    PickedUnit,
    PackedCarton,
    ShippedUnit,
    ReturnUnit,
    RelabelUnit,
    RefurbishmentUnit,
    KitUnit,
    AssemblyUnit,
    Accessorial,
    DetentionHour,
    ValueAddedServiceUnit,
}

impl BillableEventType {
    /// The value that stands for this variant in query strings and forms.
    pub open spec fn wire(self) -> Seq<char> {
        match self {
            BillableEventType::ReceiptLine => "receipt_line"@,
            BillableEventType::ReceivedUnit => "received_unit"@,
            BillableEventType::PalletDay => "pallet_day"@,
            BillableEventType::PickLine => "pick_line"@,
            BillableEventType::PickedUnit => "picked_unit"@,
            BillableEventType::PackedCarton => "packed_carton"@,
            BillableEventType::ShippedUnit => "shipped_unit"@,
            BillableEventType::ReturnUnit => "return_unit"@,
            BillableEventType::RelabelUnit => "relabel_unit"@,
            BillableEventType::RefurbishmentUnit => "refurbishment_unit"@,
            BillableEventType::KitUnit => "kit_unit"@,
            BillableEventType::AssemblyUnit => "assembly_unit"@,
            BillableEventType::Accessorial => "accessorial"@,
            BillableEventType::DetentionHour => "detention_hour"@,
            BillableEventType::ValueAddedServiceUnit => "value_added_service_unit"@,
        }
    }

    /// The wire value of this variant.
    pub fn as_wire(self) -> (r: &'static str)
        ensures
            r@ == self.wire(),
    {
        match self {
            BillableEventType::ReceiptLine => "receipt_line",
            BillableEventType::ReceivedUnit => "received_unit",
            BillableEventType::PalletDay => "pallet_day",
            BillableEventType::PickLine => "pick_line",
            BillableEventType::PickedUnit => "picked_unit",
            BillableEventType::PackedCarton => "packed_carton",
            BillableEventType::ShippedUnit => "shipped_unit",
            BillableEventType::ReturnUnit => "return_unit",
            BillableEventType::RelabelUnit => "relabel_unit",
            BillableEventType::RefurbishmentUnit => "refurbishment_unit",
            BillableEventType::KitUnit => "kit_unit",
            BillableEventType::AssemblyUnit => "assembly_unit",
            BillableEventType::Accessorial => "accessorial",
            BillableEventType::DetentionHour => "detention_hour",
            BillableEventType::ValueAddedServiceUnit => "value_added_service_unit",
        }
    }

    /// The label shown for this event.
    pub open spec fn label(self) -> Seq<char> {
        match self {
            BillableEventType::ReceiptLine => "Receipt line"@,
            BillableEventType::ReceivedUnit => "Received unit"@,
            BillableEventType::PalletDay => "Pallet day"@,
            BillableEventType::PickLine => "Pick line"@,
            BillableEventType::PickedUnit => "Picked unit"@,
            BillableEventType::PackedCarton => "Packed carton"@,
            BillableEventType::ShippedUnit => "Shipped unit"@,
            BillableEventType::ReturnUnit => "Return unit"@,
            BillableEventType::RelabelUnit => "Relabel unit"@,
            BillableEventType::RefurbishmentUnit => "Refurbishment unit"@,
            BillableEventType::KitUnit => "Kit unit"@,
            BillableEventType::AssemblyUnit => "Assembly unit"@,
            BillableEventType::Accessorial => "Accessorial"@,
            BillableEventType::DetentionHour => "Detention hour"@,
            BillableEventType::ValueAddedServiceUnit => "Value-added service"@,
        }
    }

    /// The label shown for this event.
    pub fn as_label(self) -> (r: &'static str)
        ensures
            r@ == self.label(),
    {
        match self {
            BillableEventType::ReceiptLine => "Receipt line",
            BillableEventType::ReceivedUnit => "Received unit",
            BillableEventType::PalletDay => "Pallet day",
            BillableEventType::PickLine => "Pick line",
            BillableEventType::PickedUnit => "Picked unit",
            BillableEventType::PackedCarton => "Packed carton",
            BillableEventType::ShippedUnit => "Shipped unit",
            BillableEventType::ReturnUnit => "Return unit",
            BillableEventType::RelabelUnit => "Relabel unit",
            BillableEventType::RefurbishmentUnit => "Refurbishment unit",
            BillableEventType::KitUnit => "Kit unit",
            BillableEventType::AssemblyUnit => "Assembly unit",
            BillableEventType::Accessorial => "Accessorial",
            BillableEventType::DetentionHour => "Detention hour",
            BillableEventType::ValueAddedServiceUnit => "Value-added service",
        }
    }

    /// The variant's name, as `Debug` writes it.
    pub open spec fn debug_name(self) -> Seq<char> {
        match self {
            BillableEventType::ReceiptLine => "ReceiptLine"@,
            BillableEventType::ReceivedUnit => "ReceivedUnit"@,
            BillableEventType::PalletDay => "PalletDay"@,
            BillableEventType::PickLine => "PickLine"@,
            BillableEventType::PickedUnit => "PickedUnit"@,
            BillableEventType::PackedCarton => "PackedCarton"@,
            BillableEventType::ShippedUnit => "ShippedUnit"@,
            BillableEventType::ReturnUnit => "ReturnUnit"@,
            BillableEventType::RelabelUnit => "RelabelUnit"@,
            BillableEventType::RefurbishmentUnit => "RefurbishmentUnit"@,
            BillableEventType::KitUnit => "KitUnit"@,
            BillableEventType::AssemblyUnit => "AssemblyUnit"@,
            BillableEventType::Accessorial => "Accessorial"@,
            BillableEventType::DetentionHour => "DetentionHour"@,
            BillableEventType::ValueAddedServiceUnit => "ValueAddedServiceUnit"@,
        }
    }

    /// The variant's name, as `Debug` writes it.
    pub fn as_debug_name(self) -> (r: &'static str)
        ensures
            r@ == self.debug_name(),
    {
        match self {
            BillableEventType::ReceiptLine => "ReceiptLine",
            BillableEventType::ReceivedUnit => "ReceivedUnit",
            BillableEventType::PalletDay => "PalletDay",
            BillableEventType::PickLine => "PickLine",
            BillableEventType::PickedUnit => "PickedUnit",
            BillableEventType::PackedCarton => "PackedCarton",
            BillableEventType::ShippedUnit => "ShippedUnit",
            BillableEventType::ReturnUnit => "ReturnUnit",
            BillableEventType::RelabelUnit => "RelabelUnit",
            BillableEventType::RefurbishmentUnit => "RefurbishmentUnit",
            BillableEventType::KitUnit => "KitUnit",
            BillableEventType::AssemblyUnit => "AssemblyUnit",
            BillableEventType::Accessorial => "Accessorial",
            BillableEventType::DetentionHour => "DetentionHour",
            BillableEventType::ValueAddedServiceUnit => "ValueAddedServiceUnit",
        }
    }

    /// The variant whose wire value is the text, if any.
    pub open spec fn from_wire(text: Seq<char>) -> Option<BillableEventType> {
        if text == "receipt_line"@ {
            Some(BillableEventType::ReceiptLine)
        } else if text == "received_unit"@ {
            Some(BillableEventType::ReceivedUnit)
        } else if text == "pallet_day"@ {
            Some(BillableEventType::PalletDay)
        } else if text == "pick_line"@ {
            Some(BillableEventType::PickLine)
        } else if text == "picked_unit"@ {
            Some(BillableEventType::PickedUnit)
        } else if text == "packed_carton"@ {
            Some(BillableEventType::PackedCarton)
        } else if text == "shipped_unit"@ {
            Some(BillableEventType::ShippedUnit)
        } else if text == "return_unit"@ {
            Some(BillableEventType::ReturnUnit)
        } else if text == "relabel_unit"@ {
            Some(BillableEventType::RelabelUnit)
        } else if text == "refurbishment_unit"@ {
            Some(BillableEventType::RefurbishmentUnit)
        } else if text == "kit_unit"@ {
            Some(BillableEventType::KitUnit)
        } else if text == "assembly_unit"@ {
            Some(BillableEventType::AssemblyUnit)
        } else if text == "accessorial"@ {
            Some(BillableEventType::Accessorial)
        } else if text == "detention_hour"@ {
            Some(BillableEventType::DetentionHour)
        } else if text == "value_added_service_unit"@ {
            Some(BillableEventType::ValueAddedServiceUnit)
        } else {
            None
        }
    }

    /// Reads a wire value back into its variant.
    pub fn parse_wire(text: &str) -> (r: Option<BillableEventType>)
        ensures
            r == BillableEventType::from_wire(text@),
    {
        if text_equals(text, "receipt_line") {
            Some(BillableEventType::ReceiptLine)
        } else if text_equals(text, "received_unit") {
            Some(BillableEventType::ReceivedUnit)
        } else if text_equals(text, "pallet_day") {
            Some(BillableEventType::PalletDay)
        } else if text_equals(text, "pick_line") {
            Some(BillableEventType::PickLine)
        } else if text_equals(text, "picked_unit") {
            Some(BillableEventType::PickedUnit)
        } else if text_equals(text, "packed_carton") {
            Some(BillableEventType::PackedCarton)
        } else if text_equals(text, "shipped_unit") {
            Some(BillableEventType::ShippedUnit)
        } else if text_equals(text, "return_unit") {
            Some(BillableEventType::ReturnUnit)
        } else if text_equals(text, "relabel_unit") {
            Some(BillableEventType::RelabelUnit)
        } else if text_equals(text, "refurbishment_unit") {
            Some(BillableEventType::RefurbishmentUnit)
        } else if text_equals(text, "kit_unit") {
            Some(BillableEventType::KitUnit)
        } else if text_equals(text, "assembly_unit") {
            Some(BillableEventType::AssemblyUnit)
        } else if text_equals(text, "accessorial") {
            Some(BillableEventType::Accessorial)
        } else if text_equals(text, "detention_hour") {
            Some(BillableEventType::DetentionHour)
        } else if text_equals(text, "value_added_service_unit") {
            Some(BillableEventType::ValueAddedServiceUnit)
        } else {
            None
        }
    }

    /// Reading back the wire value of any variant gives that variant.
    pub proof fn lemma_wire_round_trip(self)
        ensures
            BillableEventType::from_wire(self.wire()) == Some(self),
    {
        match self {
            BillableEventType::ReceiptLine => {
                reveal_strlit("receipt_line");
            },
            BillableEventType::ReceivedUnit => {
                reveal_strlit("received_unit");
                reveal_strlit("receipt_line");
                assert("receipt_line"@.len() != "received_unit"@.len());
            },
            BillableEventType::PalletDay => {
                reveal_strlit("pallet_day");
                reveal_strlit("receipt_line");
                assert("receipt_line"@.len() != "pallet_day"@.len());
                reveal_strlit("received_unit");
                assert("received_unit"@.len() != "pallet_day"@.len());
            },
            BillableEventType::PickLine => {
                reveal_strlit("pick_line");
                reveal_strlit("receipt_line");
                assert("receipt_line"@.len() != "pick_line"@.len());
                reveal_strlit("received_unit");
                assert("received_unit"@.len() != "pick_line"@.len());
                reveal_strlit("pallet_day");
                assert("pallet_day"@.len() != "pick_line"@.len());
            },
            BillableEventType::PickedUnit => {
                reveal_strlit("picked_unit");
                reveal_strlit("receipt_line");
                assert("receipt_line"@.len() != "picked_unit"@.len());
                reveal_strlit("received_unit");
                assert("received_unit"@.len() != "picked_unit"@.len());
                reveal_strlit("pallet_day");
                assert("pallet_day"@.len() != "picked_unit"@.len());
                reveal_strlit("pick_line");
                assert("pick_line"@.len() != "picked_unit"@.len());
            },
            BillableEventType::PackedCarton => {
                reveal_strlit("packed_carton");
                reveal_strlit("receipt_line");
                assert("receipt_line"@.len() != "packed_carton"@.len());
                reveal_strlit("received_unit");
                assert("received_unit"@[0] != "packed_carton"@[0]);
                reveal_strlit("pallet_day");
                assert("pallet_day"@.len() != "packed_carton"@.len());
                reveal_strlit("pick_line");
                assert("pick_line"@.len() != "packed_carton"@.len());
                reveal_strlit("picked_unit");
                assert("picked_unit"@.len() != "packed_carton"@.len());
            },
            BillableEventType::ShippedUnit => {
                reveal_strlit("shipped_unit");
                reveal_strlit("receipt_line");
                assert("receipt_line"@[0] != "shipped_unit"@[0]);
                reveal_strlit("received_unit");
                assert("received_unit"@.len() != "shipped_unit"@.len());
                reveal_strlit("pallet_day");
                assert("pallet_day"@.len() != "shipped_unit"@.len());
                reveal_strlit("pick_line");
                assert("pick_line"@.len() != "shipped_unit"@.len());
                reveal_strlit("picked_unit");
                assert("picked_unit"@.len() != "shipped_unit"@.len());
                reveal_strlit("packed_carton");
                assert("packed_carton"@.len() != "shipped_unit"@.len());
            },
            BillableEventType::ReturnUnit => {
                reveal_strlit("return_unit");
                reveal_strlit("receipt_line");
                assert("receipt_line"@.len() != "return_unit"@.len());
                reveal_strlit("received_unit");
                assert("received_unit"@.len() != "return_unit"@.len());
                reveal_strlit("pallet_day");
                assert("pallet_day"@.len() != "return_unit"@.len());
                reveal_strlit("pick_line");
                assert("pick_line"@.len() != "return_unit"@.len());
                reveal_strlit("picked_unit");
                assert("picked_unit"@[0] != "return_unit"@[0]);
                reveal_strlit("packed_carton");
                assert("packed_carton"@.len() != "return_unit"@.len());
                reveal_strlit("shipped_unit");
                assert("shipped_unit"@.len() != "return_unit"@.len());
            },
            BillableEventType::RelabelUnit => {
                reveal_strlit("relabel_unit");
                reveal_strlit("receipt_line");
                assert("receipt_line"@[2] != "relabel_unit"@[2]);
                reveal_strlit("received_unit");
                assert("received_unit"@.len() != "relabel_unit"@.len());
                reveal_strlit("pallet_day");
                assert("pallet_day"@.len() != "relabel_unit"@.len());
                reveal_strlit("pick_line");
                assert("pick_line"@.len() != "relabel_unit"@.len());
                reveal_strlit("picked_unit");
                assert("picked_unit"@.len() != "relabel_unit"@.len());
                reveal_strlit("packed_carton");
                assert("packed_carton"@.len() != "relabel_unit"@.len());
                reveal_strlit("shipped_unit");
                assert("shipped_unit"@[0] != "relabel_unit"@[0]);
                reveal_strlit("return_unit");
                assert("return_unit"@.len() != "relabel_unit"@.len());
            },
            BillableEventType::RefurbishmentUnit => {
                reveal_strlit("refurbishment_unit");
                reveal_strlit("receipt_line");
                assert("receipt_line"@.len() != "refurbishment_unit"@.len());
                reveal_strlit("received_unit");
                assert("received_unit"@.len() != "refurbishment_unit"@.len());
                reveal_strlit("pallet_day");
                assert("pallet_day"@.len() != "refurbishment_unit"@.len());
                reveal_strlit("pick_line");
                assert("pick_line"@.len() != "refurbishment_unit"@.len());
                reveal_strlit("picked_unit");
                assert("picked_unit"@.len() != "refurbishment_unit"@.len());
                reveal_strlit("packed_carton");
                assert("packed_carton"@.len() != "refurbishment_unit"@.len());
                reveal_strlit("shipped_unit");
                assert("shipped_unit"@.len() != "refurbishment_unit"@.len());
                reveal_strlit("return_unit");
                assert("return_unit"@.len() != "refurbishment_unit"@.len());
                reveal_strlit("relabel_unit");
                assert("relabel_unit"@.len() != "refurbishment_unit"@.len());
            },
            BillableEventType::KitUnit => {
                reveal_strlit("kit_unit");
                reveal_strlit("receipt_line");
                assert("receipt_line"@.len() != "kit_unit"@.len());
                reveal_strlit("received_unit");
                assert("received_unit"@.len() != "kit_unit"@.len());
                reveal_strlit("pallet_day");
                assert("pallet_day"@.len() != "kit_unit"@.len());
                reveal_strlit("pick_line");
                assert("pick_line"@.len() != "kit_unit"@.len());
                reveal_strlit("picked_unit");
                assert("picked_unit"@.len() != "kit_unit"@.len());
                reveal_strlit("packed_carton");
                assert("packed_carton"@.len() != "kit_unit"@.len());
                reveal_strlit("shipped_unit");
                assert("shipped_unit"@.len() != "kit_unit"@.len());
                reveal_strlit("return_unit");
                assert("return_unit"@.len() != "kit_unit"@.len());
                reveal_strlit("relabel_unit");
                assert("relabel_unit"@.len() != "kit_unit"@.len());
                reveal_strlit("refurbishment_unit");
                assert("refurbishment_unit"@.len() != "kit_unit"@.len());
            },
            BillableEventType::AssemblyUnit => {
                reveal_strlit("assembly_unit");
                reveal_strlit("receipt_line");
                assert("receipt_line"@.len() != "assembly_unit"@.len());
                reveal_strlit("received_unit");
                assert("received_unit"@[0] != "assembly_unit"@[0]);
                reveal_strlit("pallet_day");
                assert("pallet_day"@.len() != "assembly_unit"@.len());
                reveal_strlit("pick_line");
                assert("pick_line"@.len() != "assembly_unit"@.len());
                reveal_strlit("picked_unit");
                assert("picked_unit"@.len() != "assembly_unit"@.len());
                reveal_strlit("packed_carton");
                assert("packed_carton"@[0] != "assembly_unit"@[0]);
                reveal_strlit("shipped_unit");
                assert("shipped_unit"@.len() != "assembly_unit"@.len());
                reveal_strlit("return_unit");
                assert("return_unit"@.len() != "assembly_unit"@.len());
                reveal_strlit("relabel_unit");
                assert("relabel_unit"@.len() != "assembly_unit"@.len());
                reveal_strlit("refurbishment_unit");
                assert("refurbishment_unit"@.len() != "assembly_unit"@.len());
                reveal_strlit("kit_unit");
                assert("kit_unit"@.len() != "assembly_unit"@.len());
            },
            BillableEventType::Accessorial => {
                reveal_strlit("accessorial");
                reveal_strlit("receipt_line");
                assert("receipt_line"@.len() != "accessorial"@.len());
                reveal_strlit("received_unit");
                assert("received_unit"@.len() != "accessorial"@.len());
                reveal_strlit("pallet_day");
                assert("pallet_day"@.len() != "accessorial"@.len());
                reveal_strlit("pick_line");
                assert("pick_line"@.len() != "accessorial"@.len());
                reveal_strlit("picked_unit");
                assert("picked_unit"@[0] != "accessorial"@[0]);
                reveal_strlit("packed_carton");
                assert("packed_carton"@.len() != "accessorial"@.len());
                reveal_strlit("shipped_unit");
                assert("shipped_unit"@.len() != "accessorial"@.len());
                reveal_strlit("return_unit");
                assert("return_unit"@[0] != "accessorial"@[0]);
                reveal_strlit("relabel_unit");
                assert("relabel_unit"@.len() != "accessorial"@.len());
                reveal_strlit("refurbishment_unit");
                assert("refurbishment_unit"@.len() != "accessorial"@.len());
                reveal_strlit("kit_unit");
                assert("kit_unit"@.len() != "accessorial"@.len());
                reveal_strlit("assembly_unit");
                assert("assembly_unit"@.len() != "accessorial"@.len());
            },
            BillableEventType::DetentionHour => {
                reveal_strlit("detention_hour");
                reveal_strlit("receipt_line");
                assert("receipt_line"@.len() != "detention_hour"@.len());
                reveal_strlit("received_unit");
                assert("received_unit"@.len() != "detention_hour"@.len());
                reveal_strlit("pallet_day");
                assert("pallet_day"@.len() != "detention_hour"@.len());
                reveal_strlit("pick_line");
                assert("pick_line"@.len() != "detention_hour"@.len());
                reveal_strlit("picked_unit");
                assert("picked_unit"@.len() != "detention_hour"@.len());
                reveal_strlit("packed_carton");
                assert("packed_carton"@.len() != "detention_hour"@.len());
                reveal_strlit("shipped_unit");
                assert("shipped_unit"@.len() != "detention_hour"@.len());
                reveal_strlit("return_unit");
                assert("return_unit"@.len() != "detention_hour"@.len());
                reveal_strlit("relabel_unit");
                assert("relabel_unit"@.len() != "detention_hour"@.len());
                reveal_strlit("refurbishment_unit");
                assert("refurbishment_unit"@.len() != "detention_hour"@.len());
                reveal_strlit("kit_unit");
                assert("kit_unit"@.len() != "detention_hour"@.len());
                reveal_strlit("assembly_unit");
                assert("assembly_unit"@.len() != "detention_hour"@.len());
                reveal_strlit("accessorial");
                assert("accessorial"@.len() != "detention_hour"@.len());
            },
            BillableEventType::ValueAddedServiceUnit => {
                reveal_strlit("value_added_service_unit");
                reveal_strlit("receipt_line");
                assert("receipt_line"@.len() != "value_added_service_unit"@.len());
                reveal_strlit("received_unit");
                assert("received_unit"@.len() != "value_added_service_unit"@.len());
                reveal_strlit("pallet_day");
                assert("pallet_day"@.len() != "value_added_service_unit"@.len());
                reveal_strlit("pick_line");
                assert("pick_line"@.len() != "value_added_service_unit"@.len());
                reveal_strlit("picked_unit");
                assert("picked_unit"@.len() != "value_added_service_unit"@.len());
                reveal_strlit("packed_carton");
                assert("packed_carton"@.len() != "value_added_service_unit"@.len());
                reveal_strlit("shipped_unit");
                assert("shipped_unit"@.len() != "value_added_service_unit"@.len());
                reveal_strlit("return_unit");
                assert("return_unit"@.len() != "value_added_service_unit"@.len());
                reveal_strlit("relabel_unit");
                assert("relabel_unit"@.len() != "value_added_service_unit"@.len());
                reveal_strlit("refurbishment_unit");
                assert("refurbishment_unit"@.len() != "value_added_service_unit"@.len());
                reveal_strlit("kit_unit");
                assert("kit_unit"@.len() != "value_added_service_unit"@.len());
                reveal_strlit("assembly_unit");
                assert("assembly_unit"@.len() != "value_added_service_unit"@.len());
                reveal_strlit("accessorial");
                assert("accessorial"@.len() != "value_added_service_unit"@.len());
                reveal_strlit("detention_hour");
                assert("detention_hour"@.len() != "value_added_service_unit"@.len());
            },
        }
    }
}

/// The unit a billing rate is charged per.
#[derive(Clone, Copy, Debug, PartialEq, Eq, Structural)]
pub enum BillingUnit {
    Event,
    Each,
    Case,
    Pallet,
    Carton,
    Hour,
    Day,
}

impl BillingUnit {
    /// The value that stands for this variant in query strings and forms.
    pub open spec fn wire(self) -> Seq<char> {
        match self {
            BillingUnit::Event => "event"@,
            BillingUnit::Each => "each"@,
            BillingUnit::Case => "case"@,
            BillingUnit::Pallet => "pallet"@,
            BillingUnit::Carton => "carton"@,
            BillingUnit::Hour => "hour"@,
            BillingUnit::Day => "day"@,
        }
    }

    /// The wire value of this variant.
    pub fn as_wire(self) -> (r: &'static str)
        ensures
            r@ == self.wire(),
    {
        match self {
            BillingUnit::Event => "event",
            BillingUnit::Each => "each",
            BillingUnit::Case => "case",
            BillingUnit::Pallet => "pallet",
            BillingUnit::Carton => "carton",
            BillingUnit::Hour => "hour",
            BillingUnit::Day => "day",
        }
    }

    /// The label shown for this unit.
    pub open spec fn label(self) -> Seq<char> {
        match self {
            BillingUnit::Event => "event"@,
            BillingUnit::Each => "each"@,
            BillingUnit::Case => "case"@,
            BillingUnit::Pallet => "pallet"@,
            BillingUnit::Carton => "carton"@,
            BillingUnit::Hour => "hour"@,
            BillingUnit::Day => "day"@,
        }
    }

    /// The label shown for this unit.
    pub fn as_label(self) -> (r: &'static str)
        ensures
            r@ == self.label(),
    {
        match self {
            BillingUnit::Event => "event",
            BillingUnit::Each => "each",
            BillingUnit::Case => "case",
            BillingUnit::Pallet => "pallet",
            BillingUnit::Carton => "carton",
            BillingUnit::Hour => "hour",
            BillingUnit::Day => "day",
        }
    }

    /// The variant's name, as `Debug` writes it.
    pub open spec fn debug_name(self) -> Seq<char> {
        match self {
            BillingUnit::Event => "Event"@,
            BillingUnit::Each => "Each"@,
            BillingUnit::Case => "Case"@,
            BillingUnit::Pallet => "Pallet"@,
            BillingUnit::Carton => "Carton"@,
            BillingUnit::Hour => "Hour"@,
            BillingUnit::Day => "Day"@,
        }
    }

    /// The variant's name, as `Debug` writes it.
    pub fn as_debug_name(self) -> (r: &'static str)
        ensures
            r@ == self.debug_name(),
    {
        match self {
            BillingUnit::Event => "Event",
            BillingUnit::Each => "Each",
            BillingUnit::Case => "Case",
            BillingUnit::Pallet => "Pallet",
            BillingUnit::Carton => "Carton",
            BillingUnit::Hour => "Hour",
            BillingUnit::Day => "Day",
        }
    }

    /// The variant whose wire value is the text, if any.
    pub open spec fn from_wire(text: Seq<char>) -> Option<BillingUnit> {
        if text == "event"@ {
            Some(BillingUnit::Event)
        } else if text == "each"@ {
            Some(BillingUnit::Each)
        } else if text == "case"@ {
            Some(BillingUnit::Case)
        } else if text == "pallet"@ {
            Some(BillingUnit::Pallet)
        } else if text == "carton"@ {
            Some(BillingUnit::Carton)
        } else if text == "hour"@ {
            Some(BillingUnit::Hour)
        } else if text == "day"@ {
            Some(BillingUnit::Day)
        } else {
            None
        }
    }

    /// Reads a wire value back into its variant.
    pub fn parse_wire(text: &str) -> (r: Option<BillingUnit>)
        ensures
            r == BillingUnit::from_wire(text@),
    {
        if text_equals(text, "event") {
            Some(BillingUnit::Event)
        } else if text_equals(text, "each") {
            Some(BillingUnit::Each)
        } else if text_equals(text, "case") {
            Some(BillingUnit::Case)
        } else if text_equals(text, "pallet") {
            Some(BillingUnit::Pallet)
        } else if text_equals(text, "carton") {
            Some(BillingUnit::Carton)
        } else if text_equals(text, "hour") {
            Some(BillingUnit::Hour)
        } else if text_equals(text, "day") {
            Some(BillingUnit::Day)
        } else {
            None
        }
    }

    /// Reading back the wire value of any variant gives that variant.
    pub proof fn lemma_wire_round_trip(self)
        ensures
            BillingUnit::from_wire(self.wire()) == Some(self),
    {
        match self {
            BillingUnit::Event => {
                reveal_strlit("event");
            },
            BillingUnit::Each => {
                reveal_strlit("each");
                reveal_strlit("event");
                assert("event"@.len() != "each"@.len());
            },
            BillingUnit::Case => {
                reveal_strlit("case");
                reveal_strlit("event");
                assert("event"@.len() != "case"@.len());
                reveal_strlit("each");
                assert("each"@[0] != "case"@[0]);
            },
            BillingUnit::Pallet => {
                reveal_strlit("pallet");
                reveal_strlit("event");
                assert("event"@.len() != "pallet"@.len());
                reveal_strlit("each");
                assert("each"@.len() != "pallet"@.len());
                reveal_strlit("case");
                assert("case"@.len() != "pallet"@.len());
            },
            BillingUnit::Carton => {
                reveal_strlit("carton");
                reveal_strlit("event");
                assert("event"@.len() != "carton"@.len());
                reveal_strlit("each");
                assert("each"@.len() != "carton"@.len());
                reveal_strlit("case");
                assert("case"@.len() != "carton"@.len());
                reveal_strlit("pallet");
                assert("pallet"@[0] != "carton"@[0]);
            },
            BillingUnit::Hour => {
                reveal_strlit("hour");
                reveal_strlit("event");
                assert("event"@.len() != "hour"@.len());
                reveal_strlit("each");
                assert("each"@[0] != "hour"@[0]);
                reveal_strlit("case");
                assert("case"@[0] != "hour"@[0]);
                reveal_strlit("pallet");
                assert("pallet"@.len() != "hour"@.len());
                reveal_strlit("carton");
                assert("carton"@.len() != "hour"@.len());
            },
            BillingUnit::Day => {
                reveal_strlit("day");
                reveal_strlit("event");
                assert("event"@.len() != "day"@.len());
                reveal_strlit("each");
                assert("each"@.len() != "day"@.len());
                reveal_strlit("case");
                assert("case"@.len() != "day"@.len());
                reveal_strlit("pallet");
                assert("pallet"@.len() != "day"@.len());
                reveal_strlit("carton");
                assert("carton"@.len() != "day"@.len());
                reveal_strlit("hour");
                assert("hour"@.len() != "day"@.len());
            },
        }
    }
}

/// How stock is rotated when it is allocated.
#[derive(Clone, Copy, Debug, PartialEq, Eq, Structural)]
pub enum InventoryRotation {
    Fifo,
    Fefo,
}

impl InventoryRotation {
    /// The value that stands for this variant in query strings and forms.
    pub open spec fn wire(self) -> Seq<char> {
        match self {
            InventoryRotation::Fifo => "fifo"@,
            InventoryRotation::Fefo => "fefo"@,
        }
    }

    /// The wire value of this variant.
    pub fn as_wire(self) -> (r: &'static str)
        ensures
            r@ == self.wire(),
    {
        match self {
            InventoryRotation::Fifo => "fifo",
            InventoryRotation::Fefo => "fefo",
        }
    }

    /// The variant's name, as `Debug` writes it.
    pub open spec fn debug_name(self) -> Seq<char> {
        match self {
            InventoryRotation::Fifo => "Fifo"@,
            InventoryRotation::Fefo => "Fefo"@,
        }
    }

    /// The variant's name, as `Debug` writes it.
    pub fn as_debug_name(self) -> (r: &'static str)
        ensures
            r@ == self.debug_name(),
    {
        match self {
            InventoryRotation::Fifo => "Fifo",
            InventoryRotation::Fefo => "Fefo",
        }
    }
}

/// Lifecycle of a billing contract.
#[derive(Clone, Copy, Debug, PartialEq, Eq, Structural)]
pub enum BillingContractStatus {
    Draft,
    Active,
    Closed,
}

impl BillingContractStatus {

    /// The label shown for this status.
    pub open spec fn label(self) -> Seq<char> {
        match self {
            BillingContractStatus::Draft => "Draft"@,
            BillingContractStatus::Active => "Active"@,
            BillingContractStatus::Closed => "Closed"@,
        }
    }

    /// The label shown for this status.
    pub fn as_label(self) -> (r: &'static str)
        ensures
            r@ == self.label(),
    {
        match self {
            BillingContractStatus::Draft => "Draft",
            BillingContractStatus::Active => "Active",
            BillingContractStatus::Closed => "Closed",
        }
    }

    /// The status-chip class shown for this status.
    pub open spec fn css_class(self) -> Seq<char> {
        match self {
            BillingContractStatus::Draft => "status-chip warning"@,
            BillingContractStatus::Active => "status-chip success"@,
            BillingContractStatus::Closed => "status-chip neutral"@,
        }
    }

    /// The status-chip class shown for this status.
    pub fn as_css_class(self) -> (r: &'static str)
        ensures
            r@ == self.css_class(),
    {
        match self {
            BillingContractStatus::Draft => "status-chip warning",
            BillingContractStatus::Active => "status-chip success",
            BillingContractStatus::Closed => "status-chip neutral",
        }
    }
}

/// Lifecycle of a billing reconciliation run.
#[derive(Clone, Copy, Debug, PartialEq, Eq, Structural)]
pub enum BillingRunStatus {
    PendingReview,
    Approved,
    Rejected,
    Exported,
}

impl BillingRunStatus {

    /// The label shown for this status.
    pub open spec fn label(self) -> Seq<char> {
        match self {
            BillingRunStatus::PendingReview => "Pending review"@,
            BillingRunStatus::Approved => "Approved"@,
            BillingRunStatus::Rejected => "Rejected"@,
            BillingRunStatus::Exported => "Exported"@,
        }
    }

    /// The label shown for this status.
    pub fn as_label(self) -> (r: &'static str)
        ensures
            r@ == self.label(),
    {
        match self {
            BillingRunStatus::PendingReview => "Pending review",
            BillingRunStatus::Approved => "Approved",
            BillingRunStatus::Rejected => "Rejected",
            BillingRunStatus::Exported => "Exported",
        }
    }

    /// The status-chip class shown for this status.
    pub open spec fn css_class(self) -> Seq<char> {
        match self {
            BillingRunStatus::PendingReview => "status-chip warning"@,
            BillingRunStatus::Approved => "status-chip success"@,
            BillingRunStatus::Rejected => "status-chip danger"@,
            BillingRunStatus::Exported => "status-chip success"@,
        }
    }

    /// The status-chip class shown for this status.
    pub fn as_css_class(self) -> (r: &'static str)
        ensures
            r@ == self.css_class(),
    {
        match self {
            BillingRunStatus::PendingReview => "status-chip warning",
            BillingRunStatus::Approved => "status-chip success",
            BillingRunStatus::Rejected => "status-chip danger",
            BillingRunStatus::Exported => "status-chip success",
        }
    }
}

/// Processing state of an inbound integration order.
#[derive(Clone, Copy, Debug, PartialEq, Eq, Structural)]
pub enum IntegrationOrderProcessingStatus {
    Quarantined,
    Processed,
}

impl IntegrationOrderProcessingStatus {

    /// The label shown for this state.
    pub open spec fn label(self) -> Seq<char> {
        match self {
            IntegrationOrderProcessingStatus::Quarantined => "Quarantined"@,
            IntegrationOrderProcessingStatus::Processed => "Processed"@,
        }
    }

    /// The label shown for this state.
    pub fn as_label(self) -> (r: &'static str)
        ensures
            r@ == self.label(),
    {
        match self {
            IntegrationOrderProcessingStatus::Quarantined => "Quarantined",
            IntegrationOrderProcessingStatus::Processed => "Processed",
        }
    }

    /// The status class shown for this state.
    pub open spec fn css_class(self) -> Seq<char> {
        match self {
            IntegrationOrderProcessingStatus::Quarantined => "status held"@,
            IntegrationOrderProcessingStatus::Processed => "status shipped"@,
        }
    }

    /// The status class shown for this state.
    pub fn as_css_class(self) -> (r: &'static str)
        ensures
            r@ == self.css_class(),
    {
        match self {
            IntegrationOrderProcessingStatus::Quarantined => "status held",
            IntegrationOrderProcessingStatus::Processed => "status shipped",
        }
    }
}

/// Outcome of one delivery attempt of an outbound event.
#[derive(Clone, Copy, Debug, PartialEq, Eq, Structural)]
pub enum OutboundDeliveryAttemptOutcome {
    Published,
    RetryScheduled,
    PermanentFailure,
    RetryExhausted,
    LeaseLost,
}

impl OutboundDeliveryAttemptOutcome {

    /// The label shown for this outcome.
    pub open spec fn label(self) -> Seq<char> {
        match self {
            OutboundDeliveryAttemptOutcome::Published => "Published"@,
            OutboundDeliveryAttemptOutcome::RetryScheduled => "Retry scheduled"@,
            OutboundDeliveryAttemptOutcome::PermanentFailure => "Permanent failure"@,
            OutboundDeliveryAttemptOutcome::RetryExhausted => "Retry exhausted"@,
            OutboundDeliveryAttemptOutcome::LeaseLost => "Lease lost"@,
        }
    }

    /// The label shown for this outcome.
    pub fn as_label(self) -> (r: &'static str)
        ensures
            r@ == self.label(),
    {
        match self {
            OutboundDeliveryAttemptOutcome::Published => "Published",
            OutboundDeliveryAttemptOutcome::RetryScheduled => "Retry scheduled",
            OutboundDeliveryAttemptOutcome::PermanentFailure => "Permanent failure",
            OutboundDeliveryAttemptOutcome::RetryExhausted => "Retry exhausted",
            OutboundDeliveryAttemptOutcome::LeaseLost => "Lease lost",
        }
    }
}

/// Sort direction of this listing.
pub type ReplenishmentPolicySortDirection = SortOrder;

/// Sort direction of this listing.
pub type ReplenishmentWorkSortDirection = SortOrder;

/// Sort direction of this listing.
pub type PickShortageQueueSortDirection = SortOrder;

/// Sort direction of this listing.
pub type InventorySortDirection = SortOrder;

/// Sort direction of this listing.
pub type IntegrationSortDirection = SortOrder;

/// Sort direction of this listing.
pub type CycleCountSortDirection = ShortSortOrder;

/// Sort direction of this listing.
pub type PutawaySortDirection = ShortSortOrder;

/// Sort direction of this listing.
pub type PickWaveSortDirection = ShortSortOrder;

} // verus!
