//! The configuration editor's draft: what it submits, what it starts from,
//! and the simulation request of the rule browser.
use vstd::prelude::*;
use super::rules::{
    build_rule, reset_rule_defaults, rule_error, rule_of_draft, DecisionRule, RuleDraft,
};
use super::rules::{default_flags, default_numbers};
use super::{nonblank, spec_nonblank, ConfigurationScope, ScopeLevel};
use crate::contract::{DecisionRuleKind};
use crate::text::{parse_i64, parsed_i64, trim, trimmed};

verus! {

/// The fields of the configuration editor.
#[derive(Clone, Debug)]
pub struct ConfigurationDraft {
    pub open: bool,
    pub scope: ScopeLevel,
    pub owner_id: Option<i64>,
    pub facility_id: Option<i64>,
    pub effective_from: String,
    pub effective_until: String,
    pub expected_revision: String,
    pub rule: RuleDraft,
}

/// A new configuration, as the editor submits it.
#[derive(Clone, Debug)]
pub struct CreateConfigurationRequest {
    pub scope: ConfigurationScope,
    pub effective_from: String,
    pub effective_until: Option<String>,
    pub rule: DecisionRule,
    pub expected_revision: Option<i64>,
}

/// The scope that a draft selects, or the message of the missing picker:
/// the client is asked for before the facility.
pub open spec fn draft_scope(d: ConfigurationDraft) -> Result<ConfigurationScope, Seq<char>> {
    match d.scope {
        ScopeLevel::Tenant => Ok(ConfigurationScope::Tenant),
        ScopeLevel::InventoryOwner => match d.owner_id {
            Some(o) => Ok(ConfigurationScope::InventoryOwner { inventory_owner_id: o }),
            None => Err("Select a client."@),
        },
        ScopeLevel::Facility => match d.facility_id {
            Some(f) => Ok(ConfigurationScope::Facility { facility_id: f }),
            None => Err("Select a facility."@),
        },
        ScopeLevel::OwnerFacility => match (d.owner_id, d.facility_id) {
            (Some(o), Some(f)) => Ok(
                ConfigurationScope::OwnerFacility { inventory_owner_id: o, facility_id: f },
            ),
            (None, _) => Err("Select a client."@),
            (Some(_), None) => Err("Select a facility."@),
        },
    }
}

/// The message when a typed revision is not a positive integer.
pub open spec fn revision_message() -> Seq<char> {
    "Expected revision must be a positive integer."@
}

/// The revision that a draft expects: none when its field is blank, else
/// the positive integer typed there (after trimming).
pub open spec fn draft_revision(text: Seq<char>) -> Result<Option<i64>, Seq<char>> {
    match spec_nonblank(text) {
        None => Ok(None),
        Some(t) => match parsed_i64(t) {
            Some(v) => if v >= 1 {
                Ok(Some(v as i64))
            } else {
                Err(revision_message())
            },
            None => Err(revision_message()),
        },
    }
}

/// The message of the first field of a draft that cannot be submitted, in
/// the order the editor checks them: scope, effective start, revision,
/// then the rule's numbers.
pub open spec fn draft_error(d: ConfigurationDraft) -> Option<Seq<char>> {
    match draft_scope(d) {
        Err(m) => Some(m),
        Ok(_) => if trimmed(d.effective_from@).len() == 0 {
            Some("Enter an effective timestamp."@)
        } else {
            match draft_revision(d.expected_revision@) {
                Err(m) => Some(m),
                Ok(_) => rule_error(d.rule),
            }
        },
    }
}

/// Turns the editor's draft into the configuration to create: the scope it
/// selects, the effective window trimmed (an empty end is open), the rule
/// it describes and the revision it expects; or the message of the first
/// field that cannot be submitted.
///
/// The checks are those of this library: the rule's own validation and the
/// revision type of the API contract, whose source this library does not
/// have, are not run here. So which drafts that validation would refuse
/// besides these, and the exact message of a refused revision, are not
/// stated; the server checks the request again.
pub fn build_create_request(d: &ConfigurationDraft) -> (r: Result<CreateConfigurationRequest, String>)
    ensures
        r is Ok <==> draft_error(*d) is None,
        match r {
            Ok(c) => {
                &&& draft_scope(*d) == Ok::<ConfigurationScope, Seq<char>>(c.scope)
                &&& c.effective_from@ == trimmed(d.effective_from@)
                &&& match c.effective_until {
                    Some(u) => spec_nonblank(d.effective_until@) == Some(u@),
                    None => spec_nonblank(d.effective_until@) is None,
                }
                &&& draft_revision(d.expected_revision@) == Ok::<Option<i64>, Seq<char>>(
                    c.expected_revision,
                )
                &&& rule_of_draft(d.rule, c.rule)
            },
            Err(m) => draft_error(*d) == Some(m@),
        },
{
    let scope = match d.scope {
        ScopeLevel::Tenant => ConfigurationScope::Tenant,
        ScopeLevel::InventoryOwner => match d.owner_id {
            Some(o) => ConfigurationScope::InventoryOwner { inventory_owner_id: o },
            None => return Err(String::from_str("Select a client.")),
        },
        ScopeLevel::Facility => match d.facility_id {
            Some(f) => ConfigurationScope::Facility { facility_id: f },
            None => return Err(String::from_str("Select a facility.")),
        },
        ScopeLevel::OwnerFacility => {
            let o = match d.owner_id {
                Some(o) => o,
                None => return Err(String::from_str("Select a client.")),
            };
            let f = match d.facility_id {
                Some(f) => f,
                None => return Err(String::from_str("Select a facility.")),
            };
            ConfigurationScope::OwnerFacility { inventory_owner_id: o, facility_id: f }
        },
    };
    let from = trim(d.effective_from.as_str());
    if from.unicode_len() == 0 {
        return Err(String::from_str("Enter an effective timestamp."));
    }
    let effective_from = String::from_str(from);
    let effective_until = nonblank(String::from_str(d.effective_until.as_str()));
    let expected_revision = match nonblank(String::from_str(d.expected_revision.as_str())) {
        None => None,
        Some(t) => match parse_i64(t.as_str()) {
            Some(v) => {
                if v >= 1 {
                    Some(v)
                } else {
                    return Err(String::from_str("Expected revision must be a positive integer."));
                }
            },
            None => return Err(String::from_str("Expected revision must be a positive integer.")),
        },
    };
    let rule = match build_rule(&d.rule) {
        Ok(rule) => rule,
        Err(m) => return Err(m),
    };
    Ok(CreateConfigurationRequest { scope, effective_from, effective_until, rule, expected_revision })
}

/// Empties the editor: closed, a receipt rule at tenant scope with no
/// pickers chosen, blank texts, and the receipt rule's defaults.
pub fn reset_draft(d: &mut ConfigurationDraft)
    ensures
        !final(d).open,
        final(d).scope == ScopeLevel::Tenant,
        final(d).owner_id is None,
        final(d).facility_id is None,
        final(d).effective_from@.len() == 0,
        final(d).effective_until@.len() == 0,
        final(d).expected_revision@.len() == 0,
        final(d).rule.kind == DecisionRuleKind::Receipt,
        (final(d).rule.first_flag, final(d).rule.second_flag, final(d).rule.third_flag)
            == default_flags(DecisionRuleKind::Receipt),
        (final(d).rule.first_number, final(d).rule.second_number, final(d).rule.third_number)
            == default_numbers(DecisionRuleKind::Receipt),
        final(d).rule.rotation == old(d).rule.rotation,
        final(d).rule.event_type == old(d).rule.event_type,
        final(d).rule.billing_unit == old(d).rule.billing_unit,
        final(d).rule.currency@ == old(d).rule.currency@,
{
    d.open = false;
    d.rule.kind = DecisionRuleKind::Receipt;
    d.scope = ScopeLevel::Tenant;
    d.owner_id = None;
    d.facility_id = None;
    d.effective_from = String::new();
    d.effective_until = String::new();
    d.expected_revision = String::new();
    reset_rule_defaults(&mut d.rule, DecisionRuleKind::Receipt);
}

/// A request to find the configuration that would apply to a client at a
/// facility at a moment.
#[derive(Clone, Debug)]
pub struct SimulationRequest {
    pub kind: DecisionRuleKind,
    pub inventory_owner_id: i64,
    pub facility_id: i64,
    pub effective_at: String,
}

/// The simulation to run: it needs both a client and a facility, and a
/// moment that is not blank (sent trimmed).
pub fn simulation_request(
    kind: DecisionRuleKind,
    owner_id: Option<i64>,
    facility_id: Option<i64>,
    effective_at: &str,
) -> (r: Result<SimulationRequest, String>)
    ensures
        r is Ok <==> (owner_id is Some && facility_id is Some && trimmed(effective_at@).len()
            > 0),
        match r {
            Ok(s) => s.kind == kind && owner_id == Some(s.inventory_owner_id) && facility_id
                == Some(s.facility_id) && s.effective_at@ == trimmed(effective_at@),
            Err(m) => m@ == if owner_id is None || facility_id is None {
                "Select both a client and facility."@
            } else {
                "Enter the effective timestamp to evaluate."@
            },
        },
{
    let (inventory_owner_id, facility) = match (owner_id, facility_id) {
        (Some(o), Some(f)) => (o, f),
        _ => return Err(String::from_str("Select both a client and facility.")),
    };
    let at = trim(effective_at);
    if at.unicode_len() == 0 {
        return Err(String::from_str("Enter the effective timestamp to evaluate."));
    }
    Ok(
        SimulationRequest {
            kind,
            inventory_owner_id,
            facility_id: facility,
            effective_at: String::from_str(at),
        },
    )
}

/// The lifecycle steps of a configuration.
#[derive(Clone, Copy, Debug, PartialEq, Eq, Structural)]
pub enum LifecycleAction {
    Submit,
    Approve,
    Activate,
    Retire,
}

/// The commands of the configuration workbench.
#[derive(Clone, Copy, Debug, PartialEq, Eq, Structural)]
pub enum ConfigurationCommand {
    Create,
    Lifecycle(LifecycleAction),
    Rollback,
}

/// What the workbench announces when a command succeeds.
pub open spec fn spec_success_message(command: ConfigurationCommand) -> Seq<char> {
    match command {
        ConfigurationCommand::Create => "Configuration draft created."@,
        ConfigurationCommand::Lifecycle(LifecycleAction::Submit) => "Configuration submitted for approval."@,
        ConfigurationCommand::Lifecycle(LifecycleAction::Approve) => "Configuration approved."@,
        ConfigurationCommand::Lifecycle(LifecycleAction::Activate) => "Configuration activated."@,
        ConfigurationCommand::Lifecycle(LifecycleAction::Retire) => "Configuration retired."@,
        ConfigurationCommand::Rollback => "Rollback draft created."@,
    }
}

/// The announcement of a command that succeeded.
pub fn success_message(command: ConfigurationCommand) -> (r: &'static str)
    ensures
        r@ == spec_success_message(command),
{
    match command {
        ConfigurationCommand::Create => "Configuration draft created.",
        ConfigurationCommand::Lifecycle(LifecycleAction::Submit) => "Configuration submitted for approval.",
        ConfigurationCommand::Lifecycle(LifecycleAction::Approve) => "Configuration approved.",
        ConfigurationCommand::Lifecycle(LifecycleAction::Activate) => "Configuration activated.",
        ConfigurationCommand::Lifecycle(LifecycleAction::Retire) => "Configuration retired.",
        ConfigurationCommand::Rollback => "Rollback draft created.",
    }
}

} // verus!
