//! Decision rules of the configuration workbench: the rule that an editor's
//! draft builds, the defaults each kind of rule starts from, and the
//! one-line summary of a rule.
use vstd::prelude::*;
use crate::contract::{BillableEventType, BillingUnit, DecisionRuleKind, InventoryRotation};
use crate::text::{
    ascii_uppercase, bool_text, decimal, push_bool, push_count, push_i64, to_ascii_uppercase, trim,
    trimmed,
};

verus! {

/// A decision rule of one of the ten kinds, with its settings.
#[derive(Clone, Debug)]
pub enum DecisionRule {
    Receipt {
        allow_unexpected: bool,
        quarantine_unmapped_items: bool,
        over_receipt_tolerance_basis_points: u16,
    },
    Putaway {
        require_zone_compatibility: bool,
        enforce_location_capacity: bool,
        allow_mixed_lots: bool,
    },
    Allocation { rotation: InventoryRotation, allow_partial: bool, require_complete_line: bool },
    Replenishment { minimum_percent: u8, target_percent: u8, include_inbound_projection: bool },
    Wave { max_orders: u32, require_complete_allocation: bool },
    Pick {
        require_source_location_scan: bool,
        require_item_scan: bool,
        require_destination_container_scan: bool,
    },
    Pack { require_station_scan: bool, require_weight: bool, allow_mixed_orders: bool },
    Count {
        absolute_tolerance: i64,
        percentage_tolerance_basis_points: u16,
        approval_threshold: i64,
    },
    Document {
        generate_packing_slip: bool,
        generate_carton_label: bool,
        require_tracking_barcode: bool,
    },
    Billing {
        event_type: BillableEventType,
        unit: BillingUnit,
        currency: String,
        rate_minor: u64,
        minimum_charge_minor: u64,
    },
}

/// The rule editor's fields: a kind, three switches, three numbers, and the
/// settings that only some kinds read.
#[derive(Clone, Debug)]
pub struct RuleDraft {
    pub kind: DecisionRuleKind,
    pub first_flag: bool,
    pub second_flag: bool,
    pub third_flag: bool,
    pub first_number: i64,
    pub second_number: i64,
    pub third_number: i64,
    pub rotation: InventoryRotation,
    pub event_type: BillableEventType,
    pub billing_unit: BillingUnit,
    pub currency: String,
}

/// The message of a draft whose numbers do not fit its kind of rule, or
/// `None` when they fit.
pub open spec fn rule_error(d: RuleDraft) -> Option<Seq<char>> {
    let first = d.first_number as int;
    let second = d.second_number as int;
    match d.kind {
        DecisionRuleKind::Receipt => if 0 <= first <= u16::MAX {
            None
        } else {
            Some("The first numeric value is outside its supported range."@)
        },
        DecisionRuleKind::Replenishment => if !(0 <= first <= u8::MAX) {
            Some("Minimum percent is invalid."@)
        } else if !(0 <= second <= u8::MAX) {
            Some("Target percent is invalid."@)
        } else {
            None
        },
        DecisionRuleKind::Wave => if 0 <= first <= u32::MAX {
            None
        } else {
            Some("Maximum orders is invalid."@)
        },
        DecisionRuleKind::Count => if 0 <= second <= u16::MAX {
            None
        } else {
            Some("Count tolerance is invalid."@)
        },
        DecisionRuleKind::Billing => if first < 0 {
            Some("Billing rate is invalid."@)
        } else if second < 0 {
            Some("Minimum charge is invalid."@)
        } else {
            None
        },
        _ => None,
    }
}

/// Whether a rule is the one that a draft builds: the kind of the draft,
/// its switches in order, its numbers in order, and (for billing) the
/// currency trimmed and in upper case.
pub open spec fn rule_of_draft(d: RuleDraft, rule: DecisionRule) -> bool {
    let first = d.first_number as int;
    let second = d.second_number as int;
    match rule {
        DecisionRule::Receipt {
            allow_unexpected,
            quarantine_unmapped_items,
            over_receipt_tolerance_basis_points,
        } => d.kind == DecisionRuleKind::Receipt && allow_unexpected == d.first_flag
            && quarantine_unmapped_items == d.second_flag && over_receipt_tolerance_basis_points
            == first,
        DecisionRule::Putaway {
            require_zone_compatibility,
            enforce_location_capacity,
            allow_mixed_lots,
        } => d.kind == DecisionRuleKind::Putaway && require_zone_compatibility == d.first_flag
            && enforce_location_capacity == d.second_flag && allow_mixed_lots == d.third_flag,
        DecisionRule::Allocation { rotation, allow_partial, require_complete_line } => d.kind
            == DecisionRuleKind::Allocation && rotation == d.rotation && allow_partial
            == d.first_flag && require_complete_line == d.second_flag,
        DecisionRule::Replenishment {
            minimum_percent,
            target_percent,
            include_inbound_projection,
        } => d.kind == DecisionRuleKind::Replenishment && minimum_percent == first
            && target_percent == second && include_inbound_projection == d.first_flag,
        DecisionRule::Wave { max_orders, require_complete_allocation } => d.kind
            == DecisionRuleKind::Wave && max_orders == first && require_complete_allocation
            == d.first_flag,
        DecisionRule::Pick {
            require_source_location_scan,
            require_item_scan,
            require_destination_container_scan,
        } => d.kind == DecisionRuleKind::Pick && require_source_location_scan == d.first_flag
            && require_item_scan == d.second_flag && require_destination_container_scan
            == d.third_flag,
        DecisionRule::Pack { require_station_scan, require_weight, allow_mixed_orders } => d.kind
            == DecisionRuleKind::Pack && require_station_scan == d.first_flag && require_weight
            == d.second_flag && allow_mixed_orders == d.third_flag,
        DecisionRule::Count {
            absolute_tolerance,
            percentage_tolerance_basis_points,
            approval_threshold,
        } => d.kind == DecisionRuleKind::Count && absolute_tolerance == d.first_number
            && percentage_tolerance_basis_points == second && approval_threshold
            == d.third_number,
        DecisionRule::Document {
            generate_packing_slip,
            generate_carton_label,
            require_tracking_barcode,
        } => d.kind == DecisionRuleKind::Document && generate_packing_slip == d.first_flag
            && generate_carton_label == d.second_flag && require_tracking_barcode
            == d.third_flag,
        DecisionRule::Billing { event_type, unit, currency, rate_minor, minimum_charge_minor } => d.kind
            == DecisionRuleKind::Billing && event_type == d.event_type && unit == d.billing_unit
            && currency@ == ascii_uppercase(trimmed(d.currency@)) && rate_minor == first
            && minimum_charge_minor == second,
    }
}

/// Builds the rule that a draft describes, or the message of the first
/// number that does not fit its field.
pub fn build_rule(d: &RuleDraft) -> (r: Result<DecisionRule, String>)
    ensures
        r is Ok <==> rule_error(*d) is None,
        match r {
            Ok(rule) => rule_of_draft(*d, rule),
            Err(m) => rule_error(*d) == Some(m@),
        },
{
    let first = d.first_number;
    let second = d.second_number;
    let third = d.third_number;
    match d.kind {
        DecisionRuleKind::Receipt => {
            if first < 0 || first > 65535 {
                return Err(
                    String::from_str("The first numeric value is outside its supported range."),
                );
            }
            Ok(
                DecisionRule::Receipt {
                    allow_unexpected: d.first_flag,
                    quarantine_unmapped_items: d.second_flag,
                    over_receipt_tolerance_basis_points: first as u16,
                },
            )
        },
        DecisionRuleKind::Putaway => Ok(
            DecisionRule::Putaway {
                require_zone_compatibility: d.first_flag,
                enforce_location_capacity: d.second_flag,
                allow_mixed_lots: d.third_flag,
            },
        ),
        DecisionRuleKind::Allocation => Ok(
            DecisionRule::Allocation {
                rotation: d.rotation,
                allow_partial: d.first_flag,
                require_complete_line: d.second_flag,
            },
        ),
        DecisionRuleKind::Replenishment => {
            if first < 0 || first > 255 {
                return Err(String::from_str("Minimum percent is invalid."));
            }
            if second < 0 || second > 255 {
                return Err(String::from_str("Target percent is invalid."));
            }
            Ok(
                DecisionRule::Replenishment {
                    minimum_percent: first as u8,
                    target_percent: second as u8,
                    include_inbound_projection: d.first_flag,
                },
            )
        },
        DecisionRuleKind::Wave => {
            if first < 0 || first > 4294967295 {
                return Err(String::from_str("Maximum orders is invalid."));
            }
            Ok(
                DecisionRule::Wave {
                    max_orders: first as u32,
                    require_complete_allocation: d.first_flag,
                },
            )
        },
        DecisionRuleKind::Pick => Ok(
            DecisionRule::Pick {
                require_source_location_scan: d.first_flag,
                require_item_scan: d.second_flag,
                require_destination_container_scan: d.third_flag,
            },
        ),
        DecisionRuleKind::Pack => Ok(
            DecisionRule::Pack {
                require_station_scan: d.first_flag,
                require_weight: d.second_flag,
                allow_mixed_orders: d.third_flag,
            },
        ),
        DecisionRuleKind::Count => {
            if second < 0 || second > 65535 {
                return Err(String::from_str("Count tolerance is invalid."));
            }
            Ok(
                DecisionRule::Count {
                    absolute_tolerance: first,
                    percentage_tolerance_basis_points: second as u16,
                    approval_threshold: third,
                },
            )
        },
        DecisionRuleKind::Document => Ok(
            DecisionRule::Document {
                generate_packing_slip: d.first_flag,
                generate_carton_label: d.second_flag,
                require_tracking_barcode: d.third_flag,
            },
        ),
        DecisionRuleKind::Billing => {
            let currency = to_ascii_uppercase(trim(d.currency.as_str()));
            if first < 0 {
                return Err(String::from_str("Billing rate is invalid."));
            }
            if second < 0 {
                return Err(String::from_str("Minimum charge is invalid."));
            }
            Ok(
                DecisionRule::Billing {
                    event_type: d.event_type,
                    unit: d.billing_unit,
                    currency,
                    rate_minor: first as u64,
                    minimum_charge_minor: second as u64,
                },
            )
        },
    }
}

/// The switches that a kind of rule starts with.
pub open spec fn default_flags(kind: DecisionRuleKind) -> (bool, bool, bool) {
    match kind {
        DecisionRuleKind::Receipt => (false, true, false),
        DecisionRuleKind::Putaway => (true, true, false),
        DecisionRuleKind::Allocation => (true, false, false),
        DecisionRuleKind::Replenishment => (true, false, false),
        DecisionRuleKind::Wave => (true, false, false),
        DecisionRuleKind::Pick => (true, true, true),
        DecisionRuleKind::Pack => (true, true, false),
        DecisionRuleKind::Count => (false, false, false),
        DecisionRuleKind::Document => (true, true, true),
        DecisionRuleKind::Billing => (false, false, false),
    }
}

/// The numbers that a kind of rule starts with.
pub open spec fn default_numbers(kind: DecisionRuleKind) -> (i64, i64, i64) {
    match kind {
        DecisionRuleKind::Replenishment => (30, 80, 0),
        DecisionRuleKind::Wave => (100, 0, 0),
        DecisionRuleKind::Count => (0, 0, 1),
        DecisionRuleKind::Billing => (1, 0, 0),
        _ => (0, 0, 0),
    }
}

/// Puts the rule editor's settings back to the defaults of a kind: its
/// switches and numbers, first-expiry rotation for allocation, and a
/// received-unit charge per each in US dollars for billing. The other
/// settings, and the draft's kind, stay as they were.
pub fn reset_rule_defaults(draft: &mut RuleDraft, kind: DecisionRuleKind)
    ensures
        (final(draft).first_flag, final(draft).second_flag, final(draft).third_flag)
            == default_flags(kind),
        (final(draft).first_number, final(draft).second_number, final(draft).third_number)
            == default_numbers(kind),
        final(draft).kind == old(draft).kind,
        final(draft).rotation == (if kind == DecisionRuleKind::Allocation {
            InventoryRotation::Fefo
        } else {
            old(draft).rotation
        }),
        final(draft).event_type == (if kind == DecisionRuleKind::Billing {
            BillableEventType::ReceivedUnit
        } else {
            old(draft).event_type
        }),
        final(draft).billing_unit == (if kind == DecisionRuleKind::Billing {
            BillingUnit::Each
        } else {
            old(draft).billing_unit
        }),
        final(draft).currency@ == (if kind == DecisionRuleKind::Billing {
            "USD"@
        } else {
            old(draft).currency@
        }),
{
    draft.first_flag = false;
    draft.second_flag = false;
    draft.third_flag = false;
    draft.first_number = 0;
    draft.second_number = 0;
    draft.third_number = 0;
    match kind {
        DecisionRuleKind::Receipt => {
            draft.second_flag = true;
        },
        DecisionRuleKind::Putaway => {
            draft.first_flag = true;
            draft.second_flag = true;
        },
        DecisionRuleKind::Allocation => {
            draft.first_flag = true;
            draft.rotation = InventoryRotation::Fefo;
        },
        DecisionRuleKind::Replenishment => {
            draft.first_number = 30;
            draft.second_number = 80;
            draft.first_flag = true;
        },
        DecisionRuleKind::Wave => {
            draft.first_number = 100;
            draft.first_flag = true;
        },
        DecisionRuleKind::Pick => {
            draft.first_flag = true;
            draft.second_flag = true;
            draft.third_flag = true;
        },
        DecisionRuleKind::Pack => {
            draft.first_flag = true;
            draft.second_flag = true;
        },
        DecisionRuleKind::Count => {
            draft.first_number = 0;
            draft.second_number = 0;
            draft.third_number = 1;
        },
        DecisionRuleKind::Document => {
            draft.first_flag = true;
            draft.second_flag = true;
            draft.third_flag = true;
        },
        DecisionRuleKind::Billing => {
            draft.event_type = BillableEventType::ReceivedUnit;
            draft.billing_unit = BillingUnit::Each;
            draft.currency = String::from_str("USD");
            draft.first_number = 1;
        },
    }
}

/// The kind of a rule.
pub open spec fn rule_kind(rule: DecisionRule) -> DecisionRuleKind {
    match rule {
        DecisionRule::Receipt { .. } => DecisionRuleKind::Receipt,
        DecisionRule::Putaway { .. } => DecisionRuleKind::Putaway,
        DecisionRule::Allocation { .. } => DecisionRuleKind::Allocation,
        DecisionRule::Replenishment { .. } => DecisionRuleKind::Replenishment,
        DecisionRule::Wave { .. } => DecisionRuleKind::Wave,
        DecisionRule::Pick { .. } => DecisionRuleKind::Pick,
        DecisionRule::Pack { .. } => DecisionRuleKind::Pack,
        DecisionRule::Count { .. } => DecisionRuleKind::Count,
        DecisionRule::Document { .. } => DecisionRuleKind::Document,
        DecisionRule::Billing { .. } => DecisionRuleKind::Billing,
    }
}

/// A draft builds a rule of its own kind.
pub proof fn lemma_built_rule_kind(d: RuleDraft, rule: DecisionRule)
    requires
        rule_of_draft(d, rule),
    ensures
        rule_kind(rule) == d.kind,
{
}

/// The defaults of every kind of rule build a rule: a draft reset to its
/// kind's defaults never fails on its numbers.
pub proof fn lemma_defaults_build(d: RuleDraft)
    requires
        (d.first_flag, d.second_flag, d.third_flag) == default_flags(d.kind),
        (d.first_number, d.second_number, d.third_number) == default_numbers(d.kind),
    ensures
        rule_error(d) is None,
{
}

/// The one-line summary of a rule shown in the simulation's result.
pub open spec fn spec_rule_summary(rule: DecisionRule) -> Seq<char> {
    match rule {
        DecisionRule::Receipt {
            allow_unexpected,
            quarantine_unmapped_items,
            over_receipt_tolerance_basis_points,
        } => "Unexpected: "@ + bool_text(allow_unexpected) + "; quarantine unmapped: "@
            + bool_text(quarantine_unmapped_items) + "; tolerance: "@ + decimal(
            over_receipt_tolerance_basis_points as int,
        ) + " bp"@,
        DecisionRule::Putaway {
            require_zone_compatibility,
            enforce_location_capacity,
            allow_mixed_lots,
        } => "Zone compatibility: "@ + bool_text(require_zone_compatibility) + "; capacity: "@
            + bool_text(enforce_location_capacity) + "; mixed lots: "@ + bool_text(
            allow_mixed_lots,
        ),
        DecisionRule::Allocation { rotation, allow_partial, require_complete_line } => rotation.debug_name()
            + "; partial: "@ + bool_text(allow_partial) + "; complete line: "@ + bool_text(
            require_complete_line,
        ),
        DecisionRule::Replenishment {
            minimum_percent,
            target_percent,
            include_inbound_projection,
        } => "Minimum "@ + decimal(minimum_percent as int) + "%; target "@ + decimal(
            target_percent as int,
        ) + "%; inbound projection: "@ + bool_text(include_inbound_projection),
        DecisionRule::Wave { max_orders, require_complete_allocation } => "Maximum "@ + decimal(
            max_orders as int,
        ) + " orders; complete allocation: "@ + bool_text(require_complete_allocation),
        DecisionRule::Pick {
            require_source_location_scan,
            require_item_scan,
            require_destination_container_scan,
        } => "Source scan: "@ + bool_text(require_source_location_scan) + "; item scan: "@
            + bool_text(require_item_scan) + "; destination scan: "@ + bool_text(
            require_destination_container_scan,
        ),
        DecisionRule::Pack { require_station_scan, require_weight, allow_mixed_orders } =>
            "Station scan: "@ + bool_text(require_station_scan) + "; weight: "@ + bool_text(
            require_weight,
        ) + "; mixed orders: "@ + bool_text(allow_mixed_orders),
        DecisionRule::Count {
            absolute_tolerance,
            percentage_tolerance_basis_points,
            approval_threshold,
        } => "Absolute tolerance "@ + decimal(absolute_tolerance as int) + "; percentage "@
            + decimal(percentage_tolerance_basis_points as int) + " bp; approval threshold "@
            + decimal(approval_threshold as int),
        DecisionRule::Document {
            generate_packing_slip,
            generate_carton_label,
            require_tracking_barcode,
        } => "Packing slip: "@ + bool_text(generate_packing_slip) + "; carton label: "@
            + bool_text(generate_carton_label) + "; tracking scan: "@ + bool_text(
            require_tracking_barcode,
        ),
        DecisionRule::Billing { event_type, unit, currency, rate_minor, minimum_charge_minor } =>
            event_type.debug_name() + " per "@ + unit.debug_name() + ": "@ + currency@ + " "@
            + decimal(rate_minor as int) + " minor units; minimum "@ + decimal(
            minimum_charge_minor as int,
        ),
    }
}

/// The one-line summary of a rule.
pub fn rule_summary(rule: &DecisionRule) -> (r: String)
    ensures
        r@ == spec_rule_summary(*rule),
{
    let mut out = String::new();
    match rule {
        DecisionRule::Receipt {
            allow_unexpected,
            quarantine_unmapped_items,
            over_receipt_tolerance_basis_points,
        } => {
            out.append("Unexpected: ");
            push_bool(&mut out, *allow_unexpected);
            out.append("; quarantine unmapped: ");
            push_bool(&mut out, *quarantine_unmapped_items);
            out.append("; tolerance: ");
            push_count(&mut out, *over_receipt_tolerance_basis_points as u64);
            out.append(" bp");
        },
        DecisionRule::Putaway {
            require_zone_compatibility,
            enforce_location_capacity,
            allow_mixed_lots,
        } => {
            out.append("Zone compatibility: ");
            push_bool(&mut out, *require_zone_compatibility);
            out.append("; capacity: ");
            push_bool(&mut out, *enforce_location_capacity);
            out.append("; mixed lots: ");
            push_bool(&mut out, *allow_mixed_lots);
        },
        DecisionRule::Allocation { rotation, allow_partial, require_complete_line } => {
            out.append(rotation.as_debug_name());
            out.append("; partial: ");
            push_bool(&mut out, *allow_partial);
            out.append("; complete line: ");
            push_bool(&mut out, *require_complete_line);
        },
        DecisionRule::Replenishment {
            minimum_percent,
            target_percent,
            include_inbound_projection,
        } => {
            out.append("Minimum ");
            push_count(&mut out, *minimum_percent as u64);
            out.append("%; target ");
            push_count(&mut out, *target_percent as u64);
            out.append("%; inbound projection: ");
            push_bool(&mut out, *include_inbound_projection);
        },
        DecisionRule::Wave { max_orders, require_complete_allocation } => {
            out.append("Maximum ");
            push_count(&mut out, *max_orders as u64);
            out.append(" orders; complete allocation: ");
            push_bool(&mut out, *require_complete_allocation);
        },
        DecisionRule::Pick {
            require_source_location_scan,
            require_item_scan,
            require_destination_container_scan,
        } => {
            out.append("Source scan: ");
            push_bool(&mut out, *require_source_location_scan);
            out.append("; item scan: ");
            push_bool(&mut out, *require_item_scan);
            out.append("; destination scan: ");
            push_bool(&mut out, *require_destination_container_scan);
        },
        DecisionRule::Pack { require_station_scan, require_weight, allow_mixed_orders } => {
            out.append("Station scan: ");
            push_bool(&mut out, *require_station_scan);
            out.append("; weight: ");
            push_bool(&mut out, *require_weight);
            out.append("; mixed orders: ");
            push_bool(&mut out, *allow_mixed_orders);
        },
        DecisionRule::Count {
            absolute_tolerance,
            percentage_tolerance_basis_points,
            approval_threshold,
        } => {
            out.append("Absolute tolerance ");
            push_i64(&mut out, *absolute_tolerance);
            out.append("; percentage ");
            push_count(&mut out, *percentage_tolerance_basis_points as u64);
            out.append(" bp; approval threshold ");
            push_i64(&mut out, *approval_threshold);
        },
        DecisionRule::Document {
            generate_packing_slip,
            generate_carton_label,
            require_tracking_barcode,
        } => {
            out.append("Packing slip: ");
            push_bool(&mut out, *generate_packing_slip);
            out.append("; carton label: ");
            push_bool(&mut out, *generate_carton_label);
            out.append("; tracking scan: ");
            push_bool(&mut out, *require_tracking_barcode);
        },
        DecisionRule::Billing { event_type, unit, currency, rate_minor, minimum_charge_minor } => {
            out.append(event_type.as_debug_name());
            out.append(" per ");
            out.append(unit.as_debug_name());
            out.append(": ");
            out.append(currency.as_str());
            out.append(" ");
            push_count(&mut out, *rate_minor);
            out.append(" minor units; minimum ");
            push_count(&mut out, *minimum_charge_minor);
        },
    }
    proof {
        assert(out@ =~= spec_rule_summary(*rule));
    }
    out
}

} // verus!
