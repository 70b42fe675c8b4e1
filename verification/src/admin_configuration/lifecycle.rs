//! The lifecycle of a configuration version: which step the detail offers,
//! who may take it, and the rollback that copies an approved version.
use vstd::prelude::*;
use super::draft::LifecycleAction;
use crate::contract::ConfigurationStatus;
use crate::text::{trim, trimmed};

verus! {

/// The step that takes a version on: submit a draft, approve a pending
/// version, activate an approved one, retire an active one; a retired
/// version has none.
pub open spec fn spec_lifecycle_action(status: ConfigurationStatus) -> Option<LifecycleAction> {
    match status {
        ConfigurationStatus::Draft => Some(LifecycleAction::Submit),
        ConfigurationStatus::PendingApproval => Some(LifecycleAction::Approve),
        ConfigurationStatus::Approved => Some(LifecycleAction::Activate),
        ConfigurationStatus::Active => Some(LifecycleAction::Retire),
        ConfigurationStatus::Retired => None,
    }
}

/// The step the detail's main button takes.
pub fn lifecycle_action(status: ConfigurationStatus) -> (r: Option<LifecycleAction>)
    ensures
        r == spec_lifecycle_action(status),
{
    match status {
        ConfigurationStatus::Draft => Some(LifecycleAction::Submit),
        ConfigurationStatus::PendingApproval => Some(LifecycleAction::Approve),
        ConfigurationStatus::Approved => Some(LifecycleAction::Activate),
        ConfigurationStatus::Active => Some(LifecycleAction::Retire),
        ConfigurationStatus::Retired => None,
    }
}

/// The caption of the detail's main button.
pub fn primary_label(status: ConfigurationStatus) -> (r: &'static str)
    ensures
        r@ == (match status {
            ConfigurationStatus::Draft => "Submit for approval"@,
            ConfigurationStatus::PendingApproval => "Approve version"@,
            ConfigurationStatus::Approved => "Activate version"@,
            ConfigurationStatus::Active => "Retire version"@,
            ConfigurationStatus::Retired => "No lifecycle action"@,
        }),
{
    match status {
        ConfigurationStatus::Draft => "Submit for approval",
        ConfigurationStatus::PendingApproval => "Approve version",
        ConfigurationStatus::Approved => "Activate version",
        ConfigurationStatus::Active => "Retire version",
        ConfigurationStatus::Retired => "No lifecycle action",
    }
}

/// Whether the current administrator may take the main step: never on a
/// retired version, and a pending version is approved by someone other
/// than its creator.
pub open spec fn spec_can_run_primary(
    status: ConfigurationStatus,
    created_by: i64,
    current_user: i64,
) -> bool {
    status != ConfigurationStatus::Retired && !(status == ConfigurationStatus::PendingApproval
        && created_by == current_user)
}

/// Tells whether the current administrator may take the main step.
pub fn can_run_primary(status: ConfigurationStatus, created_by: i64, current_user: i64) -> (r: bool)
    ensures
        r == spec_can_run_primary(status, created_by, current_user),
{
    status != ConfigurationStatus::Retired && !(status == ConfigurationStatus::PendingApproval
        && created_by == current_user)
}

/// Whether the detail asks for a second administrator: the version waits
/// for approval and the current administrator created it.
pub fn needs_other_approver(status: ConfigurationStatus, created_by: i64, current_user: i64) -> (r: bool)
    ensures
        r == (status == ConfigurationStatus::PendingApproval && created_by == current_user),
{
    status == ConfigurationStatus::PendingApproval && created_by == current_user
}

/// Whether a version may be copied into a rollback draft: it has been
/// approved (and may since have been activated or retired).
pub fn can_rollback(status: ConfigurationStatus) -> (r: bool)
    ensures
        r == (status == ConfigurationStatus::Approved || status == ConfigurationStatus::Active
            || status == ConfigurationStatus::Retired),
{
    match status {
        ConfigurationStatus::Approved | ConfigurationStatus::Active
        | ConfigurationStatus::Retired => true,
        _ => false,
    }
}

/// Whether an approved version may be retired without being activated.
pub fn can_retire_without_activation(status: ConfigurationStatus) -> (r: bool)
    ensures
        r == (status == ConfigurationStatus::Approved),
{
    status == ConfigurationStatus::Approved
}

/// The two-person rule: whoever may take the main step on a pending
/// version did not create it, and every step offered is one the version's
/// status has.
pub proof fn lemma_two_person_rule(status: ConfigurationStatus, created_by: i64, current_user: i64)
    ensures
        spec_can_run_primary(status, created_by, current_user) ==> spec_lifecycle_action(status) is Some,
        spec_can_run_primary(status, created_by, current_user) && status
            == ConfigurationStatus::PendingApproval ==> created_by != current_user,
        spec_lifecycle_action(status) is None <==> status == ConfigurationStatus::Retired,
{
}

/// A rollback draft of an approved version.
#[derive(Clone, Debug)]
pub struct RollbackRequest {
    pub configuration_id: i64,
    pub expected_source_revision: u64,
    pub effective_from: String,
}

/// The rollback draft to create: it needs an effective timestamp that is
/// not blank (sent trimmed) and expects the source's revision.
pub fn rollback_request(
    configuration_id: i64,
    revision: u64,
    effective_from: &str,
) -> (r: Result<RollbackRequest, String>)
    ensures
        trimmed(effective_from@).len() == 0 ==> (r matches Err(m) && m@
            == "Enter the effective timestamp for the rollback draft."@),
        trimmed(effective_from@).len() > 0 ==> (r matches Ok(q) && q.configuration_id
            == configuration_id && q.expected_source_revision == revision && q.effective_from@
            == trimmed(effective_from@)),
{
    let t = trim(effective_from);
    if t.unicode_len() == 0 {
        return Err(String::from_str("Enter the effective timestamp for the rollback draft."));
    }
    Ok(
        RollbackRequest {
            configuration_id,
            expected_source_revision: revision,
            effective_from: String::from_str(t),
        },
    )
}

} // verus!
