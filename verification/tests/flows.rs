use web_ops::admin_clients::{clients_step, ClientsEvent, ClientsFlow, ClientsRequest};
use web_ops::admin_count_plans::{plans_step, CountForm, CountSave, PlansEvent, PlansFlow, PlansRequest};
use web_ops::admin_permissions::{permissions_step, PermissionsEvent, PermissionsFlow, PermissionsRequest};
use web_ops::admin_roles::{roles_step, RolesEvent, RolesFlow, RolesRequest};
use web_ops::admin_users::{users_step, User, UsersEvent, UsersFlow, UsersRequest};
use web_ops::admin_workforce::{employees_step, EmployeeDraft, EmployeesEvent, EmployeesFlow, EmployeesRequest};
use web_ops::api::ApiError;
use web_ops::admin_integrations::{
    monitor_command_step, MonitorCommand, MonitorCommandEffect, MonitorCommandEvent, MonitorCommands,
};
use web_ops::command::{
    dispatch_step, receive_detail, select_detail, CommandEffect, CommandEvent, CommandState, DetailPane,
    PageOutcome,
};
use web_ops::workbench::{Effect, Workbench};

fn idle<F>(flow: F) -> Workbench<F> {
    Workbench { pending: false, error: None, selected: Some(7), flow }
}

fn error(message: &str, unauthorized: bool, ambiguous_outcome: bool) -> ApiError {
    ApiError { message: message.to_owned(), unauthorized, ambiguous_outcome }
}

#[test]
fn client_creation_assigns_facilities_only_when_chosen() {
    let (state, effect) = clients_step(
        idle(ClientsFlow::Idle),
        ClientsEvent::SubmitCreate { name: " Acme ".to_owned(), email: "ops@acme.test".to_owned(), facility_ids: vec![3] },
    );
    assert!(state.pending);
    match effect {
        Effect::Send(ClientsRequest::Add(form)) => assert_eq!(form.name, "Acme"),
        other => panic!("{other:?}"),
    }
    let (state, effect) = clients_step(state, ClientsEvent::Created(Ok(41)));
    match effect {
        Effect::Send(ClientsRequest::Facilities(assign)) => {
            assert_eq!(assign.inventory_owner_id, 41);
            assert_eq!(assign.facility_ids, vec![3]);
        },
        other => panic!("{other:?}"),
    }
    let (state, effect) = clients_step(state, ClientsEvent::Answered(Ok(false)));
    assert!(!state.pending);
    assert_eq!(state.error.as_deref(), Some("The client was created but facilities were not assigned."));
    assert!(matches!(effect, Effect::Failed(m) if m == "The client was created but facilities were not assigned."));

    let (state, effect) = clients_step(
        idle(ClientsFlow::Idle),
        ClientsEvent::SubmitCreate { name: "Acme".to_owned(), email: "ops@acme.test".to_owned(), facility_ids: vec![] },
    );
    assert!(matches!(effect, Effect::Send(ClientsRequest::Add(_))));
    let (state, effect) = clients_step(state, ClientsEvent::Created(Ok(41)));
    assert!(!state.pending);
    assert!(matches!(effect, Effect::Created(m) if m == "Acme created."));
}

#[test]
fn client_commands_wait_for_the_one_in_flight() {
    let busy = Workbench { pending: true, error: None, selected: None, flow: ClientsFlow::Idle };
    let (state, effect) = clients_step(busy, ClientsEvent::SetActive { id: 1, name: "A".to_owned(), active: false });
    assert!(state.pending);
    assert!(matches!(effect, Effect::Nothing));
    let (state, effect) = clients_step(
        idle(ClientsFlow::Idle),
        ClientsEvent::SubmitSave { id: 7, name: "Ab".to_owned(), email: "x@y".to_owned(), facility_ids: vec![] },
    );
    assert!(!state.pending);
    assert_eq!(
        state.error.as_deref(),
        Some("Enter a client name of at least three characters and a valid email.")
    );
    assert!(matches!(effect, Effect::Nothing));
}

#[test]
fn deactivating_the_selected_client_unselects_it() {
    let (state, effect) =
        clients_step(idle(ClientsFlow::Idle), ClientsEvent::SetActive { id: 7, name: "Acme".to_owned(), active: false });
    match effect {
        Effect::Send(ClientsRequest::State { path, inventory_owner_id }) => {
            assert_eq!(path, "/api/inventory-owners/delete");
            assert_eq!(inventory_owner_id, 7);
        },
        other => panic!("{other:?}"),
    }
    let (state, effect) = clients_step(state, ClientsEvent::Answered(Ok(true)));
    assert_eq!(state.selected, None);
    assert!(matches!(effect, Effect::Succeeded(m) if m == "Acme deactivated."));
    let (state, effect) = clients_step(
        idle(ClientsFlow::Saving { id: 7, name: "Acme".to_owned(), facility_ids: vec![] }),
        ClientsEvent::Answered(Err(error("signed out", true, false))),
    );
    assert!(matches!(effect, Effect::SignOut));
    assert!(!state.pending);
}

#[test]
fn saving_a_role_then_changes_its_parent() {
    let (state, effect) = roles_step(
        idle(RolesFlow::Idle),
        RolesEvent::SubmitSave {
            id: 5,
            name: " Dock ".to_owned(),
            description: String::new(),
            parent: "2".to_owned(),
            prior_parent: None,
        },
    );
    assert!(matches!(effect, Effect::Send(RolesRequest::Update(ref u)) if u.role_id == 5));
    let (state, effect) = roles_step(state, RolesEvent::Answered(Ok(true)));
    match effect {
        Effect::Send(RolesRequest::Child { path, role_id, child_role_id }) => {
            assert_eq!(path, "/api/roles/children/add");
            assert_eq!((role_id, child_role_id), (2, 5));
        },
        other => panic!("{other:?}"),
    }
    let (_, effect) = roles_step(state, RolesEvent::Answered(Ok(false)));
    assert!(matches!(effect, Effect::Failed(m) if m == "The role was updated but its hierarchy could not be changed."));
    let (state, effect) = roles_step(
        idle(RolesFlow::Idle),
        RolesEvent::SubmitSave { id: 5, name: "Dock".to_owned(), description: String::new(), parent: String::new(), prior_parent: None },
    );
    let (_, effect2) = roles_step(state, RolesEvent::Answered(Ok(true)));
    assert!(matches!(effect, Effect::Send(_)));
    assert!(matches!(effect2, Effect::Succeeded(m) if m == "Dock updated."));
    let (state, effect) = roles_step(
        idle(RolesFlow::Idle),
        RolesEvent::ChangePermission { role_id: 5, choice: "x".to_owned(), grant: true },
    );
    assert_eq!(state.error.as_deref(), Some("Choose a permission."));
    assert!(matches!(effect, Effect::Nothing));
    let (_, effect) = roles_step(
        idle(RolesFlow::Idle),
        RolesEvent::Answered(Ok(true)),
    );
    assert!(matches!(effect, Effect::Nothing));
    let (_, effect) = roles_step(
        idle(RolesFlow::Idle),
        RolesEvent::SetActive { id: 1, name: "Me".to_owned(), active: false, self_role: true },
    );
    assert!(matches!(effect, Effect::Nothing));
}

#[test]
fn count_lines_save_and_report_conflicts() {
    let form = |editing| CountForm {
        location: "4".to_owned(),
        item: "9".to_owned(),
        quantity: "12".to_owned(),
        uom: " EA ".to_owned(),
        lot: String::new(),
        serial: "S1".to_owned(),
        editing,
    };
    let (state, effect) = plans_step(idle(PlansFlow::Idle), PlansEvent::SubmitCount { audit_wave_id: 7, form: form(None) });
    match effect {
        Effect::Send(PlansRequest::SaveCount(CountSave::Add { uom, lot, serial, count, .. })) => {
            assert_eq!(uom, "EA");
            assert_eq!(lot, None);
            assert_eq!(serial.as_deref(), Some("S1"));
            assert_eq!(count, 12);
        },
        other => panic!("{other:?}"),
    }
    let (_, effect) = plans_step(state, PlansEvent::Created(Ok(3)));
    assert!(matches!(effect, Effect::LinesChanged { notice, clear_form: true } if notice == "Count line saved."));
    let (state, _) = plans_step(idle(PlansFlow::Idle), PlansEvent::SubmitCount { audit_wave_id: 7, form: form(Some((3, 2))) });
    let (_, effect) = plans_step(state, PlansEvent::Answered(Ok(false)));
    assert!(matches!(effect, Effect::Failed(m) if m == "The count line changed elsewhere. Refresh and try again."));
    let busy = Workbench { pending: true, ..idle(PlansFlow::Idle) };
    let (state, effect) = plans_step(busy, PlansEvent::SubmitSave { id: 7, name: "Q3".to_owned(), description: String::new() });
    assert_eq!(state.error.as_deref(), Some("Enter a plan name."));
    assert!(matches!(effect, Effect::Nothing));
    let (state, _) = plans_step(idle(PlansFlow::Idle), PlansEvent::SetActive { id: 7, name: None, active: false });
    let (state, effect) = plans_step(state, PlansEvent::Answered(Ok(true)));
    assert_eq!(state.selected, None);
    assert!(matches!(effect, Effect::Succeeded(m) if m == "Plan #7 deactivated."));
}

#[test]
fn permission_users_and_employee_commands_report_their_outcome() {
    let (state, _) = permissions_step(
        idle(PermissionsFlow::Idle),
        PermissionsEvent::SubmitSave { id: 7, name: "pick".to_owned(), description: " ".to_owned() },
    );
    let (_, effect) = permissions_step(state, PermissionsEvent::Answered(Ok(false)));
    assert!(matches!(effect, Effect::Failed(m) if m == "The selected permission no longer exists."));
    let (_, effect) = permissions_step(
        idle(PermissionsFlow::Idle),
        PermissionsEvent::SubmitCreate { name: "pick".to_owned(), description: String::new() },
    );
    assert!(matches!(effect, Effect::Send(PermissionsRequest::Add(ref f)) if f.description.is_none()));

    let (state, effect) = users_step(
        idle(UsersFlow::Idle),
        UsersEvent::ChangeRole { user_id: 7, choice: "3".to_owned(), assign: false },
    );
    assert!(matches!(effect, Effect::Send(UsersRequest::Role { ref path, role_id: 3, .. }) if path == "/api/users/roles/delete"));
    let (_, effect) = users_step(state, UsersEvent::Answered(Ok(false)));
    assert!(matches!(effect, Effect::Failed(m) if m == "That direct role assignment was not found."));
    let user = User {
        id: 7,
        email: "kim@acme.test".to_owned(),
        first_name: Some("Kim".to_owned()),
        last_name: None,
        nick_name: None,
        role_names: Vec::new(),
        deleted: None,
    };
    let (state, _) = users_step(idle(UsersFlow::Idle), UsersEvent::SetActive { user, active: true });
    let (_, effect) = users_step(state, UsersEvent::Answered(Ok(true)));
    assert!(matches!(effect, Effect::Succeeded(m) if m == "Kim reactivated."));

    let mut draft = EmployeeDraft::new();
    draft.first_name = " Kim ".to_owned();
    draft.last_name = "Lee".to_owned();
    draft.title = "Lead".to_owned();
    draft.employee_type = "Full".to_owned();
    draft.facility_ids = vec![2];
    let (state, effect) = employees_step(idle(EmployeesFlow::Idle), EmployeesEvent::SubmitCreate { draft });
    assert!(matches!(effect, Effect::Send(EmployeesRequest::Add(ref a)) if a.first_name == "Kim"));
    let (_, effect) = employees_step(state, EmployeesEvent::Created(Ok(9)));
    assert!(matches!(effect, Effect::Created(m) if m == "Kim Lee added to the workforce."));
    let (state, effect) = employees_step(idle(EmployeesFlow::Idle), EmployeesEvent::SubmitCreate { draft: EmployeeDraft::new() });
    assert_eq!(state.error.as_deref(), Some("Enter a name, title, employee type, and at least one facility."));
    assert!(matches!(effect, Effect::Nothing));
}

#[test]
fn ambiguous_commands_are_kept_for_an_exact_retry() {
    let state: CommandState<(&str, &str)> = CommandState { pending: false, error: None, retry: None };
    let (state, effect) = dispatch_step::<_, u8>(state, CommandEvent::Dispatch(("approve", "key-1")));
    assert!(state.pending);
    assert!(matches!(effect, CommandEffect::Send));
    let (busy, effect) = dispatch_step::<_, u8>(state, CommandEvent::Dispatch(("retire", "key-2")));
    assert!(matches!(effect, CommandEffect::Nothing));
    assert_eq!(busy.retry, Some(("approve", "key-1")));
    let (state, effect) = dispatch_step::<_, u8>(busy, CommandEvent::Answered(Err(error("timed out", false, true))));
    assert!(!state.pending);
    assert_eq!(state.retry, Some(("approve", "key-1")));
    assert_eq!(state.error.as_deref(), Some("timed out"));
    assert!(matches!(effect, CommandEffect::Failed(m) if m == "timed out"));
    let (state, effect) = dispatch_step::<_, u8>(state, CommandEvent::Retry);
    assert!(matches!(effect, CommandEffect::Send));
    assert_eq!(state.retry, Some(("approve", "key-1")));
    let (state, effect) = dispatch_step::<_, u8>(state, CommandEvent::Answered(Err(error("refused", false, false))));
    assert_eq!(state.retry, None);
    assert!(matches!(effect, CommandEffect::Failed(_)));
    let (state, _) = dispatch_step::<_, u8>(state, CommandEvent::Dispatch(("approve", "key-3")));
    let (state, effect) = dispatch_step::<_, u8>(state, CommandEvent::Answered(Ok(4)));
    assert_eq!(state.retry, None);
    assert!(matches!(effect, CommandEffect::Done(4)));
}

#[test]
fn monitor_commands_keep_an_unknown_outcome_for_an_exact_retry() {
    let state: MonitorCommands<&str> = MonitorCommands { pending: false, error: None, in_flight: None, retry: None };
    let (same, effect) = monitor_command_step::<_, u8>(
        MonitorCommand::Reprocess,
        state,
        MonitorCommandEvent::Execute { command: "reprocess", target: 0 },
    );
    assert!(matches!(effect, MonitorCommandEffect::Nothing));
    assert!(!same.pending);
    let (state, effect) = monitor_command_step::<_, u8>(
        MonitorCommand::Replay,
        same,
        MonitorCommandEvent::Execute { command: "replay", target: 4 },
    );
    assert!(matches!(effect, MonitorCommandEffect::Send));
    let (state, effect) = monitor_command_step::<_, u8>(
        MonitorCommand::Replay,
        state,
        MonitorCommandEvent::Answered(Err(error("Gateway timeout", false, true))),
    );
    assert!(matches!(effect, MonitorCommandEffect::Unknown));
    assert_eq!(state.retry, Some("replay"));
    assert_eq!(
        state.error.as_deref(),
        Some("Gateway timeout Retry the exact saved replay to reconcile the outcome.")
    );
    let (state, _) = monitor_command_step::<_, u8>(
        MonitorCommand::Replay,
        state,
        MonitorCommandEvent::Execute { command: "replay", target: 4 },
    );
    let (state, effect) = monitor_command_step::<_, u8>(MonitorCommand::Replay, state, MonitorCommandEvent::Answered(Ok(2)));
    assert!(matches!(effect, MonitorCommandEffect::Done(2)));
    assert_eq!(state.retry, None);
}

#[test]
fn a_detail_for_an_older_selection_changes_nothing() {
    let mut pane: DetailPane<&str> = DetailPane { generation: 0, selected: None, detail: None, loading: false, error: None };
    let first = select_detail(&mut pane, 3);
    let second = select_detail(&mut pane, 4);
    assert_eq!(receive_detail(&mut pane, first, 3, Ok("old")), PageOutcome::Stale);
    assert_eq!(pane.detail, None);
    assert!(pane.loading);
    assert_eq!(receive_detail(&mut pane, second, 4, Ok("new")), PageOutcome::Loaded);
    assert_eq!(pane.detail, Some("new"));
    assert!(!pane.loading);
}
