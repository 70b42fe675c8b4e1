//! The roles workbench: the filter and sort of its table, the checks of
//! its forms, and the change of a role's place in the hierarchy.
use vstd::prelude::*;
use crate::sorting::{counts_in_order, flags_in_order, options_in_order, texts_in_order};
use crate::administration::{
    optional_text, selected_id, selection_after_state_change, spec_optional_text, spec_selected_id,
    state_change_path, state_notice,
};
use crate::api::ApiError;
use crate::url::opt_string_view;
use crate::workbench::{
    created_notice, finished, halt, refused_form, settle, settle_created, stopped_by, updated_notice,
    Effect, Settled, Workbench,
};
use crate::listing::{
    any_field_matches, field_matches, matches_any, matches_field, matches_optional, text_or_empty,
    SortSpec,
};
use crate::sorting::{field_key, rows_sorted, sort_by_keys, SortField, SortValue};
use crate::text::{ascii_lowercase, to_ascii_lowercase, trim, trimmed};

verus! {

/// A role with the fields its table and editor read.
#[derive(Clone, Debug)]
pub struct Role {
    pub id: i64,
    pub name: String,
    pub description: Option<String>,
    pub parent_id: Option<i64>,
    /// The names of the permissions granted to the role.
    pub permission_names: Vec<String>,
    /// When the role was deactivated, if it was.
    pub deleted: Option<String>,
}

/// The columns the roles table sorts by.
#[derive(Clone, Copy, Debug, PartialEq, Eq, Structural)]
pub enum RoleSort {
    Name,
    Parent,
    Permissions,
    Status,
}

/// An optional id as a sort value.
pub open spec fn optional_id_value(id: Option<i64>) -> Option<int> {
    match id {
        Some(v) => Some(v as int),
        None => None,
    }
}

/// The value a role is sorted by in a column: its name ignoring ASCII
/// case, its parent (roles without one first), its number of permissions,
/// or whether it is inactive.
pub open spec fn role_value(r: Role, key: RoleSort) -> SortValue {
    match key {
        RoleSort::Name => SortValue::Text(ascii_lowercase(r.name@)),
        RoleSort::Parent => SortValue::Maybe(optional_id_value(r.parent_id)),
        RoleSort::Permissions => SortValue::Count(r.permission_names@.len() as int),
        RoleSort::Status => SortValue::Flag(r.deleted is Some),
    }
}

/// The key a role is sorted by: its column value, then its id.
pub open spec fn role_key(key: RoleSort) -> spec_fn(Role) -> (SortValue, int) {
    |r: Role| (role_value(r, key), r.id as int)
}

fn role_field(r: &Role, key: RoleSort) -> (f: SortField)
    ensures
        f.value() == role_value(*r, key),
{
    match key {
        RoleSort::Name => SortField::Text(to_ascii_lowercase(r.name.as_str())),
        RoleSort::Parent => SortField::Maybe(r.parent_id),
        RoleSort::Permissions => SortField::Count(r.permission_names.len() as u64),
        RoleSort::Status => SortField::Flag(r.deleted.is_some()),
    }
}

/// Sorts roles by a column, then by id, in the given direction; every role stays.
pub fn sort_roles(rows: &mut Vec<Role>, spec: SortSpec<RoleSort>)
    ensures
        final(rows)@.to_multiset() == old(rows)@.to_multiset(),
        rows_sorted(final(rows)@, role_key(spec.key), spec.direction),
{
    let mut taken: Vec<Role> = Vec::new();
    std::mem::swap(&mut taken, rows);
    let mut keys: Vec<(SortField, i64)> = Vec::new();
    let mut i: usize = 0;
    while i < taken.len()
        invariant
            i <= taken@.len(),
            keys@.len() == i,
            forall|j: int| 0 <= j < i ==> field_key(#[trigger] keys@[j]) == (role_key(spec.key))(taken@[j]),
        decreases taken@.len() - i,
    {
        let field = role_field(&taken[i], spec.key);
        keys.push((field, taken[i].id));
        i = i + 1;
    }
    let sorted = sort_by_keys(taken, keys, spec.direction, Ghost(role_key(spec.key)));
    *rows = sorted;
}

/// Whether a role shows for a query: an empty query shows every role,
/// another one the roles whose name, description or one of whose
/// permissions holds it.
pub open spec fn role_shown(query: Seq<char>, r: Role) -> bool {
    query.len() == 0 || field_matches(query, r.name@) || field_matches(query, text_or_empty(r.description))
        || any_field_matches(query, r.permission_names@)
}

/// Tells whether a role shows for a query.
pub fn role_matches(query: &str, r: &Role) -> (b: bool)
    ensures
        b == role_shown(query@, *r),
{
    query.unicode_len() == 0 || matches_field(query, r.name.as_str()) || matches_optional(query, &r.description)
        || matches_any(query, &r.permission_names)
}

/// Keeps the roles that show for a query, in their order.
pub fn filter_roles(rows: Vec<Role>, query: &str) -> (r: Vec<Role>)
    ensures
        r@ == rows@.filter(|x: Role| role_shown(query@, x)),
{
    let mut kept: Vec<Role> = Vec::new();
    let mut rest = rows;
    let ghost all = rest@;
    let mut i: usize = 0;
    proof {
        reveal(Seq::filter);
        assert(all.take(0) =~= Seq::<Role>::empty());
    }
    let n = rest.len();
    while i < n
        invariant
            n == all.len(),
            i <= n,
            rest@ == all.skip(i as int),
            kept@ == all.take(i as int).filter(|x: Role| role_shown(query@, x)),
        decreases n - i,
    {
        proof {
            reveal(Seq::filter);
            assert(all.take(i + 1).drop_last() =~= all.take(i as int));
            assert(all.skip(i as int)[0] == all[i as int]);
        }
        let row = rest.remove(0);
        proof {
            assert(rest@ =~= all.skip(i + 1));
        }
        if role_matches(query, &row) {
            kept.push(row);
        }
        i = i + 1;
    }
    proof {
        assert(all.take(n as int) =~= all);
    }
    kept
}

/// Checks a role's name: trimmed, and not blank.
pub fn role_name(name: &str) -> (r: Result<String, String>)
    ensures
        match r {
            Ok(n) => n@ == trimmed(name@) && n@.len() > 0,
            Err(m) => trimmed(name@).len() == 0 && m@ == "Enter a role name."@,
        },
{
    let t = trim(name);
    if t.unicode_len() == 0 {
        Err(String::from_str("Enter a role name."))
    } else {
        Ok(String::from_str(t))
    }
}

/// A change of a role's parent.
#[derive(Clone, Copy, Debug, PartialEq, Eq, Structural)]
pub enum HierarchyChange {
    /// Make the role a child of this role.
    AddUnder(i64),
    /// Take the role from under this role.
    RemoveFrom(i64),
}

/// The change of hierarchy that saving a role makes: none when its parent
/// stays, a move under the new parent, or a removal from the old one (the
/// role itself standing for an unknown old parent).
pub fn hierarchy_change(requested: Option<i64>, prior: Option<i64>, role_id: i64) -> (r: Option<HierarchyChange>)
    ensures
        requested == prior ==> r is None,
        requested != prior ==> r == Some(
            match requested {
                Some(p) => HierarchyChange::AddUnder(p),
                None => HierarchyChange::RemoveFrom(
                    match prior {
                        Some(q) => q,
                        None => role_id,
                    },
                ),
            },
        ),
{
    if requested == prior {
        return None;
    }
    match requested {
        Some(p) => Some(HierarchyChange::AddUnder(p)),
        None => Some(
            HierarchyChange::RemoveFrom(
                match prior {
                    Some(q) => q,
                    None => role_id,
                },
            ),
        ),
    }
}

/// The permission chosen for a grant or a removal.
pub fn permission_choice(value: &str) -> (r: Result<i64, String>)
    ensures
        match r {
            Ok(id) => spec_selected_id(value@) == Some(id as int),
            Err(m) => spec_selected_id(value@) is None && m@ == "Choose a permission."@,
        },
{
    match selected_id(value) {
        Some(id) => Ok(id),
        None => Err(String::from_str("Choose a permission.")),
    }
}

/// The notice after a direct permission was granted or removed.
pub fn permission_change_notice(grant: bool) -> (r: &'static str)
    ensures
        r@ == if grant {
            "Direct permission granted."@
        } else {
            "Direct permission removed."@
        },
{
    if grant {
        "Direct permission granted."
    } else {
        "Direct permission removed."
    }
}

/// The message when the server made no change to a role's permissions.
pub fn permission_refused_message(grant: bool) -> (r: &'static str)
    ensures
        r@ == if grant {
            "The permission could not be granted."@
        } else {
            "No direct grant exists for that permission."@
        },
{
    if grant {
        "The permission could not be granted."
    } else {
        "No direct grant exists for that permission."
    }
}

/// The endpoint that grants a permission to a role or removes it.
pub fn permission_grant_path(grant: bool) -> (r: &'static str)
    ensures
        r@ == if grant {
            "/api/roles/permissions/add"@
        } else {
            "/api/roles/permissions/delete"@
        },
{
    if grant {
        "/api/roles/permissions/add"
    } else {
        "/api/roles/permissions/delete"
    }
}

} // verus!

verus! {

/// Sorting roles descending by a column gives exactly the reverse of
/// sorting them ascending by it, when no two share an id; and in either
/// order each row comes strictly before the next.
pub proof fn lemma_roles_descending_reverses_ascending(
    rows: Seq<Role>,
    ascending: Seq<Role>,
    descending: Seq<Role>,
    key: RoleSort,
)
    requires
        forall|i: int, j: int| 0 <= i < j < rows.len() ==> #[trigger] rows[i].id != #[trigger] rows[j].id,
        ascending.to_multiset() == rows.to_multiset(),
        descending.to_multiset() == rows.to_multiset(),
        rows_sorted(ascending, role_key(key), crate::sorting::SortDirection::Ascending),
        rows_sorted(descending, role_key(key), crate::sorting::SortDirection::Descending),
    ensures
        descending == ascending.reverse(),
        crate::sorting::strictly_sorted(ascending, role_key(key), crate::sorting::SortDirection::Ascending),
        crate::sorting::strictly_sorted(descending, role_key(key), crate::sorting::SortDirection::Descending),
{
    crate::sorting::lemma_descending_reverses_ascending(rows, ascending, descending, role_key(key));
    crate::sorting::lemma_sorted_distinct_is_strict(
        rows,
        ascending,
        role_key(key),
        crate::sorting::SortDirection::Ascending,
    );
    crate::sorting::lemma_sorted_distinct_is_strict(
        rows,
        descending,
        role_key(key),
        crate::sorting::SortDirection::Descending,
    );
}

} // verus!

verus! {

/// An optional id as an optional integer.
pub open spec fn id_view(id: Option<i64>) -> Option<int> {
    match id {
        Some(v) => Some(v as int),
        None => None,
    }
}

/// The change of hierarchy that saving a role with a requested parent makes.
pub open spec fn spec_hierarchy_change(requested: Option<int>, prior: Option<i64>, role_id: i64) -> Option<
    HierarchyChange,
> {
    if requested == id_view(prior) {
        None
    } else {
        Some(
            match requested {
                Some(p) => HierarchyChange::AddUnder(p as i64),
                None => HierarchyChange::RemoveFrom(
                    match prior {
                        Some(q) => q,
                        None => role_id,
                    },
                ),
            },
        )
    }
}

/// A new role.
#[derive(Clone, Debug)]
pub struct AddRole {
    pub name: String,
    pub description: Option<String>,
}

/// The update of a role's name and description.
#[derive(Clone, Debug)]
pub struct UpdateRole {
    pub role_id: i64,
    pub name: Option<String>,
    pub description: Option<String>,
}

/// What a command of the roles workbench is doing. After a role was saved,
/// its parent as saved is the one its edit form named.
#[derive(Clone, Debug)]
pub enum RolesFlow {
    Idle,
    Creating { name: String },
    Saving { id: i64, name: String, change: Option<HierarchyChange> },
    ChangingHierarchy { name: String },
    ChangingPermission { grant: bool },
    ChangingState { id: i64, name: String, active: bool },
}

/// The posts of the roles workbench.
#[derive(Clone, Debug)]
pub enum RolesRequest {
    /// `/api/roles/add`, answered with the new id.
    Add(AddRole),
    /// `/api/roles/update`.
    Update(UpdateRole),
    /// `/api/roles/children/add` or `/api/roles/children/delete`: the child
    /// role under or from under the parent role.
    Child { path: String, role_id: i64, child_role_id: i64 },
    /// `/api/roles/permissions/add` or `/api/roles/permissions/delete`.
    Permission { path: String, role_id: i64, permission_id: i64 },
    /// The restore or delete endpoint, for one role.
    State { path: String, role_id: i64 },
}

/// What happens in the roles workbench.
#[derive(Debug)]
pub enum RolesEvent {
    SubmitCreate { name: String, description: String },
    /// The edit form: the parent typed into it, and the parent it was
    /// loaded with.
    SubmitSave { id: i64, name: String, description: String, parent: String, prior_parent: Option<i64> },
    /// A direct permission is granted to or removed from the selected role.
    ChangePermission { role_id: i64, choice: String, grant: bool },
    /// A row's deactivate or reactivate button; a user's own role is not
    /// changed.
    SetActive { id: i64, name: String, active: bool, self_role: bool },
    /// The answer to `Add`.
    Created(Result<i64, ApiError>),
    /// The answer to any other post.
    Answered(Result<bool, ApiError>),
}

/// One step of the roles workbench. While a command is in flight a new
/// one is ignored (a permission change without a chosen permission still
/// says so). Saving posts the role, then the change of its parent when
/// there is one. A refused post stops the command with its message; the
/// last accepted post shows the notice and reloads the table, and
/// deactivating the selected role unselects it.
pub open spec fn spec_roles_step(
    state: Workbench<RolesFlow>,
    event: RolesEvent,
    next: Workbench<RolesFlow>,
    effect: Effect<RolesRequest>,
) -> bool {
    match event {
        RolesEvent::SubmitCreate { name, description } => if state.pending {
            next == state && effect is Nothing
        } else if trimmed(name@).len() == 0 {
            refused_form(state, "Enter a role name."@, next) && effect is Nothing
        } else {
            &&& next.pending && next.error is None && next.selected == state.selected
            &&& next.flow matches RolesFlow::Creating { name: n } && n@ == trimmed(name@)
            &&& effect matches Effect::Send(RolesRequest::Add(a)) && a.name@ == trimmed(name@)
                && opt_string_view(a.description) == spec_optional_text(description@)
        },
        RolesEvent::SubmitSave { id, name, description, parent, prior_parent } => if state.pending {
            next == state && effect is Nothing
        } else if trimmed(name@).len() == 0 {
            refused_form(state, "Enter a role name."@, next) && effect is Nothing
        } else {
            &&& next.pending && next.error is None && next.selected == state.selected
            &&& next.flow matches RolesFlow::Saving { id: i, name: n, change } && i == id && n@ == trimmed(
                name@,
            ) && change == spec_hierarchy_change(spec_selected_id(parent@), prior_parent, id)
            &&& effect matches Effect::Send(RolesRequest::Update(u)) && u.role_id == id && opt_string_view(
                u.name,
            ) == Some(trimmed(name@)) && opt_string_view(u.description) == spec_optional_text(description@)
        },
        RolesEvent::ChangePermission { role_id, choice, grant } => if spec_selected_id(choice@) is None {
            refused_form(state, "Choose a permission."@, next) && effect is Nothing
        } else if state.pending {
            next == state && effect is Nothing
        } else {
            &&& next.pending && next.error is None && next.selected == state.selected
            &&& next.flow == RolesFlow::ChangingPermission { grant }
            &&& effect matches Effect::Send(RolesRequest::Permission { path, role_id: r, permission_id })
                && path@ == (if grant {
                "/api/roles/permissions/add"@
            } else {
                "/api/roles/permissions/delete"@
            }) && r == role_id && spec_selected_id(choice@) == Some(permission_id as int)
        },
        RolesEvent::SetActive { id, name, active, self_role } => if state.pending || self_role {
            next == state && effect is Nothing
        } else {
            &&& next.pending && next.error is None && next.selected == state.selected
            &&& next.flow matches RolesFlow::ChangingState { id: i, name: n, active: a } && i == id && n@
                == name@ && a == active
            &&& effect matches Effect::Send(RolesRequest::State { path, role_id }) && path@ == "/api/roles"@
                + (if active {
                "/restore"@
            } else {
                "/delete"@
            }) && role_id == id
        },
        RolesEvent::Created(answer) => match state.flow {
            RolesFlow::Creating { name } => match answer {
                Ok(_) => next == finished(state, RolesFlow::Idle, state.selected) && (effect matches Effect::Created(m)
                    && m@ == name@ + " created."@),
                Err(e) => stopped_by(state, Err(e), Seq::empty(), RolesFlow::Idle, next, effect),
            },
            _ => next == state && effect is Nothing,
        },
        RolesEvent::Answered(answer) => match state.flow {
            RolesFlow::Saving { id, name, change } => if answer == Ok::<bool, ApiError>(true) {
                match change {
                    None => next == finished(state, RolesFlow::Idle, state.selected) && (effect matches Effect::Succeeded(
                        m,
                    ) && m@ == name@ + " updated."@),
                    Some(c) => {
                        &&& next.pending && next.error == state.error && next.selected == state.selected
                        &&& next.flow matches RolesFlow::ChangingHierarchy { name: n } && n@ == name@
                        &&& effect matches Effect::Send(RolesRequest::Child { path, role_id, child_role_id })
                            && child_role_id == id && match c {
                            HierarchyChange::AddUnder(p) => path@ == "/api/roles/children/add"@ && role_id == p,
                            HierarchyChange::RemoveFrom(q) => path@ == "/api/roles/children/delete"@ && role_id
                                == q,
                        }
                    },
                }
            } else {
                stopped_by(state, answer, "The selected role no longer exists."@, RolesFlow::Idle, next, effect)
            },
            RolesFlow::ChangingHierarchy { name } => if answer == Ok::<bool, ApiError>(true) {
                next == finished(state, RolesFlow::Idle, state.selected) && (effect matches Effect::Succeeded(m)
                    && m@ == name@ + " updated."@)
            } else {
                stopped_by(
                    state,
                    answer,
                    "The role was updated but its hierarchy could not be changed."@,
                    RolesFlow::Idle,
                    next,
                    effect,
                )
            },
            RolesFlow::ChangingPermission { grant } => if answer == Ok::<bool, ApiError>(true) {
                next == finished(state, RolesFlow::Idle, state.selected) && (effect matches Effect::Succeeded(m)
                    && m@ == (if grant {
                    "Direct permission granted."@
                } else {
                    "Direct permission removed."@
                }))
            } else {
                stopped_by(
                    state,
                    answer,
                    if grant {
                        "The permission could not be granted."@
                    } else {
                        "No direct grant exists for that permission."@
                    },
                    RolesFlow::Idle,
                    next,
                    effect,
                )
            },
            RolesFlow::ChangingState { id, name, active } => if answer == Ok::<bool, ApiError>(true) {
                &&& next == finished(
                    state,
                    RolesFlow::Idle,
                    if !active && state.selected == Some(id) {
                        None
                    } else {
                        state.selected
                    },
                )
                &&& effect matches Effect::Succeeded(m) && m@ == name@ + (if active {
                    " reactivated."@
                } else {
                    " deactivated."@
                })
            } else {
                stopped_by(state, answer, "The selected role is not editable."@, RolesFlow::Idle, next, effect)
            },
            _ => next == state && effect is Nothing,
        },
    }
}

/// Takes one step of the roles workbench.
pub fn roles_step(state: Workbench<RolesFlow>, event: RolesEvent) -> (r: (
    Workbench<RolesFlow>,
    Effect<RolesRequest>,
))
    ensures
        spec_roles_step(state, event, r.0, r.1),
{
    match event {
        RolesEvent::SubmitCreate { name, description } => {
            if state.pending {
                return (state, Effect::Nothing);
            }
            match role_name(name.as_str()) {
                Err(m) => (Workbench { error: Some(m), ..state }, Effect::Nothing),
                Ok(n) => {
                    let kept = n.clone();
                    (
                        Workbench { pending: true, error: None, flow: RolesFlow::Creating { name: kept }, ..state },
                        Effect::Send(RolesRequest::Add(AddRole { name: n, description: optional_text(description.as_str()) })),
                    )
                },
            }
        },
        RolesEvent::SubmitSave { id, name, description, parent, prior_parent } => {
            if state.pending {
                return (state, Effect::Nothing);
            }
            match role_name(name.as_str()) {
                Err(m) => (Workbench { error: Some(m), ..state }, Effect::Nothing),
                Ok(n) => {
                    let kept = n.clone();
                    let requested = selected_id(parent.as_str());
                    let change = hierarchy_change(requested, prior_parent, id);
                    (
                        Workbench { pending: true, error: None, flow: RolesFlow::Saving { id, name: kept, change }, ..state },
                        Effect::Send(
                            RolesRequest::Update(
                                UpdateRole { role_id: id, name: Some(n), description: optional_text(description.as_str()) },
                            ),
                        ),
                    )
                },
            }
        },
        RolesEvent::ChangePermission { role_id, choice, grant } => {
            let permission_id = match permission_choice(choice.as_str()) {
                Err(m) => return (Workbench { error: Some(m), ..state }, Effect::Nothing),
                Ok(p) => p,
            };
            if state.pending {
                return (state, Effect::Nothing);
            }
            (
                Workbench { pending: true, error: None, flow: RolesFlow::ChangingPermission { grant }, ..state },
                Effect::Send(
                    RolesRequest::Permission {
                        path: String::from_str(permission_grant_path(grant)),
                        role_id,
                        permission_id,
                    },
                ),
            )
        },
        RolesEvent::SetActive { id, name, active, self_role } => {
            if state.pending || self_role {
                return (state, Effect::Nothing);
            }
            let path = state_change_path("roles", active);
            proof {
                reveal_strlit("roles");
                reveal_strlit("/api/");
                reveal_strlit("/api/roles");
                assert("/api/"@ + "roles"@ =~= "/api/roles"@);
            }
            (
                Workbench { pending: true, error: None, flow: RolesFlow::ChangingState { id, name, active }, ..state },
                Effect::Send(RolesRequest::State { path, role_id: id }),
            )
        },
        RolesEvent::Created(answer) => {
            let Workbench { pending, error, selected, flow } = state;
            let state = Workbench { pending, error, selected, flow: RolesFlow::Idle };
            match flow {
                RolesFlow::Creating { name } => match answer {
                    Ok(_) => (Workbench { pending: false, ..state }, Effect::Created(created_notice(name.as_str()))),
                    Err(e) => {
                        let ghost ge = e;
                        let s = settle_created(Err(e));
                        halt(state, s, RolesFlow::Idle, Ghost(Err::<bool, ApiError>(ge)), Ghost(Seq::empty()))
                    },
                },
                other => (Workbench { flow: other, ..state }, Effect::Nothing),
            }
        },
        RolesEvent::Answered(answer) => {
            let Workbench { pending, error, selected, flow } = state;
            let state = Workbench { pending, error, selected, flow: RolesFlow::Idle };
            let ghost ans = answer;
            match flow {
                RolesFlow::Saving { id, name, change } => {
                    let s = settle(answer, "The selected role no longer exists.");
                    match s {
                        Settled::Accepted => match change {
                            None => (Workbench { pending: false, ..state }, Effect::Succeeded(updated_notice(name.as_str()))),
                            Some(c) => {
                                let (path, role_id) = match c {
                                    HierarchyChange::AddUnder(p) => (String::from_str("/api/roles/children/add"), p),
                                    HierarchyChange::RemoveFrom(q) => (String::from_str("/api/roles/children/delete"), q),
                                };
                                (
                                    Workbench { pending: true, flow: RolesFlow::ChangingHierarchy { name }, ..state },
                                    Effect::Send(RolesRequest::Child { path, role_id, child_role_id: id }),
                                )
                            },
                        },
                        _ => halt(state, s, RolesFlow::Idle, Ghost(ans), Ghost("The selected role no longer exists."@)),
                    }
                },
                RolesFlow::ChangingHierarchy { name } => {
                    let s = settle(answer, "The role was updated but its hierarchy could not be changed.");
                    match s {
                        Settled::Accepted => (Workbench { pending: false, ..state }, Effect::Succeeded(updated_notice(name.as_str()))),
                        _ => halt(
                            state,
                            s,
                            RolesFlow::Idle,
                            Ghost(ans),
                            Ghost("The role was updated but its hierarchy could not be changed."@),
                        ),
                    }
                },
                RolesFlow::ChangingPermission { grant } => {
                    let refused = permission_refused_message(grant);
                    let s = settle(answer, refused);
                    match s {
                        Settled::Accepted => (
                            Workbench { pending: false, ..state },
                            Effect::Succeeded(String::from_str(permission_change_notice(grant))),
                        ),
                        _ => halt(state, s, RolesFlow::Idle, Ghost(ans), Ghost(refused@)),
                    }
                },
                RolesFlow::ChangingState { id, name, active } => {
                    let s = settle(answer, "The selected role is not editable.");
                    match s {
                        Settled::Accepted => {
                            let selected = selection_after_state_change(state.selected, id, active);
                            (Workbench { pending: false, selected, ..state }, Effect::Succeeded(state_notice(name.as_str(), active)))
                        },
                        _ => halt(state, s, RolesFlow::Idle, Ghost(ans), Ghost("The selected role is not editable."@)),
                    }
                },
                other => (Workbench { flow: other, ..state }, Effect::Nothing),
            }
        },
    }
}

} // verus!

verus! {

/// Rows sorted by a column come in the column's order, by name ignoring ASCII case, by parent id (roles without a parent first), by the number of permissions, or with active roles first; ties keep
/// no particular order here.
pub proof fn lemma_roles_sorted_by_column(
    rows: Seq<Role>,
    key: RoleSort,
    direction: crate::sorting::SortDirection,
)
    requires
        rows_sorted(rows, role_key(key), direction),
    ensures
        forall|i: int, j: int|
            #![trigger rows[i], rows[j]]
            0 <= i < j < rows.len() ==> match key {
                RoleSort::Name => {
                    let (a, b) = (rows[i], rows[j]);
                    texts_in_order(ascii_lowercase(a.name@), ascii_lowercase(b.name@), direction)
                },
                RoleSort::Parent => {
                    let (a, b) = (rows[i], rows[j]);
                    options_in_order(id_view(a.parent_id), id_view(b.parent_id), direction)
                },
                RoleSort::Permissions => {
                    let (a, b) = (rows[i], rows[j]);
                    counts_in_order(a.permission_names@.len() as int, b.permission_names@.len() as int, direction)
                },
                RoleSort::Status => {
                    let (a, b) = (rows[i], rows[j]);
                    flags_in_order(a.deleted is Some, b.deleted is Some, direction)
                },
            },
{
    crate::sorting::lemma_sorted_rows_values_in_order(rows, role_key(key), direction);
    assert forall|i: int, j: int| 0 <= i < j < rows.len() implies #[trigger] crate::sorting::values_in_order(
        role_key(key)(rows[i]).0,
        role_key(key)(#[trigger] rows[j]).0,
        direction,
    ) by {}
}

} // verus!

verus! {

/// The filter box keeps exactly the rows that hold the query, ignoring the
/// row's ASCII case, in its name, its description or the name of one of its permissions; an empty query keeps every row.
pub proof fn lemma_roles_filter_matches(query: Seq<char>)
    ensures
        forall|x: Role| #[trigger] role_shown(query, x) <==> (
            query.len() == 0
            || crate::text::text_contains(ascii_lowercase(x.name@), query)
            || crate::text::text_contains(ascii_lowercase(text_or_empty(x.description)), query)
            || (exists|k: int| 0 <= k < x.permission_names@.len() && crate::text::text_contains(ascii_lowercase(#[trigger] x.permission_names@[k]@), query))
        ),
{
}

} // verus!

verus! {

/// While a command is in flight, another form or button changes nothing
/// and posts nothing.
pub proof fn lemma_roles_one_command_at_a_time(
    state: Workbench<RolesFlow>,
    event: RolesEvent,
    next: Workbench<RolesFlow>,
    effect: Effect<RolesRequest>,
)
    requires
        spec_roles_step(state, event, next, effect),
        state.pending,
        event is SubmitCreate || event is SubmitSave || event is ChangePermission || event is SetActive,
    ensures
        effect is Nothing,
        next.pending,
        next.flow == state.flow,
        next.selected == state.selected,
{
}

/// A command reports success only on an accepted answer, and then nothing
/// is pending.
pub proof fn lemma_roles_success_only_when_accepted(
    state: Workbench<RolesFlow>,
    event: RolesEvent,
    next: Workbench<RolesFlow>,
    effect: Effect<RolesRequest>,
)
    requires
        spec_roles_step(state, event, next, effect),
        effect is Succeeded || effect is Created || effect is LinesChanged,
    ensures
        !next.pending,
        next.error == state.error,
        (event is Answered && event->Answered_0 == Ok::<bool, ApiError>(true)) || (event is Created && event->Created_0 is Ok),
{
}

/// A refused post stops the command and shows why: nothing is pending,
/// and the message in the notice is the one under the forms.
pub proof fn lemma_roles_refusal_is_shown(
    state: Workbench<RolesFlow>,
    next: Workbench<RolesFlow>,
    effect: Effect<RolesRequest>,
)
    requires
        spec_roles_step(state, RolesEvent::Answered(Ok(false)), next, effect),
        state.flow is Saving || state.flow is ChangingHierarchy || state.flow is ChangingPermission || state.flow is ChangingState,
    ensures
        !next.pending,
        next.flow is Idle,
        next.selected == state.selected,
        effect matches Effect::Failed(m) && next.error matches Some(e) && e@ == m@,
{
}

/// An ended session signs out, whatever the command was doing, with
/// nothing left pending.
pub proof fn lemma_roles_sign_out(
    state: Workbench<RolesFlow>,
    error: ApiError,
    next: Workbench<RolesFlow>,
    effect: Effect<RolesRequest>,
)
    requires
        spec_roles_step(state, RolesEvent::Answered(Err(error)), next, effect),
        error.unauthorized,
        state.flow is Saving || state.flow is ChangingHierarchy || state.flow is ChangingPermission || state.flow is ChangingState,
    ensures
        effect is SignOut,
        !next.pending,
        next.flow is Idle,
        next.error == state.error,
{
}

/// Another error stops the command and shows the error's message.
pub proof fn lemma_roles_error_is_shown(
    state: Workbench<RolesFlow>,
    error: ApiError,
    next: Workbench<RolesFlow>,
    effect: Effect<RolesRequest>,
)
    requires
        spec_roles_step(state, RolesEvent::Answered(Err(error)), next, effect),
        !error.unauthorized,
        state.flow is Saving || state.flow is ChangingHierarchy || state.flow is ChangingPermission || state.flow is ChangingState,
    ensures
        !next.pending,
        next.flow is Idle,
        effect matches Effect::Failed(m) && m@ == error.message@,
        next.error matches Some(e) && e@ == error.message@,
{
}

/// Deactivating the selected row unselects it; any other accepted change
/// of state leaves the selection.
pub proof fn lemma_roles_deactivation_unselects(
    state: Workbench<RolesFlow>,
    next: Workbench<RolesFlow>,
    effect: Effect<RolesRequest>,
)
    requires
        spec_roles_step(state, RolesEvent::Answered(Ok(true)), next, effect),
        state.flow is ChangingState,
    ensures
        next.selected == (if !state.flow->ChangingState_active && state.selected == Some(
            state.flow->ChangingState_id,
        ) {
            None
        } else {
            state.selected
        }),
{
}

} // verus!

verus! {

/// Once a role's name and description are saved, a change of its parent
/// is posted next when there is one (under the new parent, or from under
/// the old one), and the save is reported only when there is none.
pub proof fn lemma_saved_role_parent_change_follows(
    state: Workbench<RolesFlow>,
    next: Workbench<RolesFlow>,
    effect: Effect<RolesRequest>,
)
    requires
        spec_roles_step(state, RolesEvent::Answered(Ok(true)), next, effect),
        state.flow is Saving,
    ensures
        state.flow->Saving_change is None ==> !next.pending && (effect matches Effect::Succeeded(m) && m@
            == state.flow->Saving_name@ + " updated."@),
        state.flow->Saving_change matches Some(HierarchyChange::AddUnder(p)) ==> next.pending && (effect matches Effect::Send(
            RolesRequest::Child { path, role_id, child_role_id },
        ) && path@ == "/api/roles/children/add"@ && role_id == p && child_role_id == state.flow->Saving_id),
        state.flow->Saving_change matches Some(HierarchyChange::RemoveFrom(q)) ==> next.pending && (effect matches Effect::Send(
            RolesRequest::Child { path, role_id, child_role_id },
        ) && path@ == "/api/roles/children/delete"@ && role_id == q && child_role_id == state.flow->Saving_id),
{
}

/// Saving a role changes its parent exactly when the parent typed into the
/// form differs from the one it was loaded with: a new parent puts the role
/// under it, no parent takes it from under the old one.
pub proof fn lemma_role_parent_change(requested: Option<int>, prior: Option<i64>, role_id: i64)
    requires
        requested matches Some(p) ==> i64::MIN <= p <= i64::MAX,
    ensures
        requested == id_view(prior) ==> spec_hierarchy_change(requested, prior, role_id) is None,
        requested != id_view(prior) && requested is Some ==> spec_hierarchy_change(requested, prior, role_id)
            == Some(HierarchyChange::AddUnder(requested->0 as i64)),
        requested is None && prior is Some ==> spec_hierarchy_change(requested, prior, role_id) == Some(
            HierarchyChange::RemoveFrom(prior->0),
        ),
{
}

} // verus!
