//! The permissions workbench: the filter and sort of its table, and the
//! check of its forms.
use vstd::prelude::*;
use crate::sorting::{flags_in_order, texts_in_order};
use crate::administration::{
    optional_text, selection_after_state_change, spec_optional_text, state_change_path, state_notice,
};
use crate::api::ApiError;
use crate::url::opt_string_view;
use crate::workbench::{
    created_notice, finished, halt, refused_form, settle, settle_created, stopped_by, updated_notice,
    Effect, Settled, Workbench,
};
use crate::listing::{field_matches, matches_field, matches_optional, text_or_empty, SortSpec};
use crate::sorting::{field_key, rows_sorted, sort_by_keys, SortField, SortValue};
use crate::text::{ascii_lowercase, byte_len_below, to_ascii_lowercase, trim, trimmed};
use vstd::utf8::encode_utf8;

verus! {

/// A permission with the fields its table and editor read.
#[derive(Clone, Debug)]
pub struct Permission {
    pub id: i64,
    pub name: String,
    pub description: Option<String>,
    /// When the permission was deactivated, if it was.
    pub deleted: Option<String>,
}

/// The columns the permissions table sorts by.
#[derive(Clone, Copy, Debug, PartialEq, Eq, Structural)]
pub enum PermissionSort {
    Name,
    Description,
    Status,
}

/// The value a permission is sorted by in a column: its name or its
/// description (empty when absent) ignoring ASCII case, or whether it is
/// inactive.
pub open spec fn permission_value(p: Permission, key: PermissionSort) -> SortValue {
    match key {
        PermissionSort::Name => SortValue::Text(ascii_lowercase(p.name@)),
        PermissionSort::Description => SortValue::Text(ascii_lowercase(text_or_empty(p.description))),
        PermissionSort::Status => SortValue::Flag(p.deleted is Some),
    }
}

/// The key a permission is sorted by: its column value, then its id.
pub open spec fn permission_key(key: PermissionSort) -> spec_fn(Permission) -> (SortValue, int) {
    |p: Permission| (permission_value(p, key), p.id as int)
}

fn permission_field(p: &Permission, key: PermissionSort) -> (f: SortField)
    ensures
        f.value() == permission_value(*p, key),
{
    match key {
        PermissionSort::Name => SortField::Text(to_ascii_lowercase(p.name.as_str())),
        PermissionSort::Description => match &p.description {
            Some(d) => SortField::Text(to_ascii_lowercase(d.as_str())),
            None => {
                proof {
                    reveal_strlit("");
                    assert(ascii_lowercase(""@) =~= ascii_lowercase(Seq::<char>::empty()));
                }
                SortField::Text(to_ascii_lowercase(""))
            },
        },
        PermissionSort::Status => SortField::Flag(p.deleted.is_some()),
    }
}

/// Sorts permissions by a column, then by id, in the given direction; every permission stays.
pub fn sort_permissions(rows: &mut Vec<Permission>, spec: SortSpec<PermissionSort>)
    ensures
        final(rows)@.to_multiset() == old(rows)@.to_multiset(),
        rows_sorted(final(rows)@, permission_key(spec.key), spec.direction),
{
    let mut taken: Vec<Permission> = Vec::new();
    std::mem::swap(&mut taken, rows);
    let mut keys: Vec<(SortField, i64)> = Vec::new();
    let mut i: usize = 0;
    while i < taken.len()
        invariant
            i <= taken@.len(),
            keys@.len() == i,
            forall|j: int| 0 <= j < i ==> field_key(#[trigger] keys@[j]) == (permission_key(spec.key))(taken@[j]),
        decreases taken@.len() - i,
    {
        let field = permission_field(&taken[i], spec.key);
        keys.push((field, taken[i].id));
        i = i + 1;
    }
    let sorted = sort_by_keys(taken, keys, spec.direction, Ghost(permission_key(spec.key)));
    *rows = sorted;
}

/// Whether a permission shows for a query: an empty query shows every
/// permission, another one those whose name or description holds it.
pub open spec fn permission_shown(query: Seq<char>, p: Permission) -> bool {
    query.len() == 0 || field_matches(query, p.name@) || field_matches(query, text_or_empty(p.description))
}

/// Tells whether a permission shows for a query.
pub fn permission_matches(query: &str, p: &Permission) -> (b: bool)
    ensures
        b == permission_shown(query@, *p),
{
    query.unicode_len() == 0 || matches_field(query, p.name.as_str()) || matches_optional(query, &p.description)
}

/// Keeps the permissions that show for a query, in their order.
pub fn filter_permissions(rows: Vec<Permission>, query: &str) -> (r: Vec<Permission>)
    ensures
        r@ == rows@.filter(|x: Permission| permission_shown(query@, x)),
{
    let mut kept: Vec<Permission> = Vec::new();
    let mut rest = rows;
    let ghost all = rest@;
    let mut i: usize = 0;
    proof {
        reveal(Seq::filter);
        assert(all.take(0) =~= Seq::<Permission>::empty());
    }
    let n = rest.len();
    while i < n
        invariant
            n == all.len(),
            i <= n,
            rest@ == all.skip(i as int),
            kept@ == all.take(i as int).filter(|x: Permission| permission_shown(query@, x)),
        decreases n - i,
    {
        proof {
            reveal(Seq::filter);
            assert(all.take(i + 1).drop_last() =~= all.take(i as int));
            assert(all.skip(i as int)[0] == all[i as int]);
        }
        let row = rest.remove(0);
        proof {
            assert(rest@ =~= all.skip(i + 1));
        }
        if permission_matches(query, &row) {
            kept.push(row);
        }
        i = i + 1;
    }
    proof {
        assert(all.take(n as int) =~= all);
    }
    kept
}

/// A permission as its forms submit it.
#[derive(Clone, Debug)]
pub struct PermissionForm {
    pub name: String,
    pub description: Option<String>,
}

/// The message of a permission form that cannot be submitted.
pub open spec fn permission_form_message() -> Seq<char> {
    "Permission names and descriptions must be at least three characters."@
}

/// Checks a permission form: the trimmed name must take at least three
/// bytes, and so must the trimmed description when it is given.
pub fn permission_form(name: &str, description: &str) -> (r: Result<PermissionForm, String>)
    ensures
        r is Ok <==> (encode_utf8(trimmed(name@)).len() >= 3 && match spec_optional_text(description@) {
            Some(d) => encode_utf8(d).len() >= 3,
            None => true,
        }),
        match r {
            Ok(f) => f.name@ == trimmed(name@) && match f.description {
                Some(d) => spec_optional_text(description@) == Some(d@),
                None => spec_optional_text(description@) is None,
            },
            Err(m) => m@ == permission_form_message(),
        },
{
    let n = trim(name);
    let d = optional_text(description);
    let short_description = match &d {
        Some(text) => byte_len_below(text.as_str(), 3),
        None => false,
    };
    if byte_len_below(n, 3) || short_description {
        return Err(String::from_str("Permission names and descriptions must be at least three characters."));
    }
    Ok(PermissionForm { name: String::from_str(n), description: d })
}

} // verus!

verus! {

/// Sorting permissions descending by a column gives exactly the reverse of
/// sorting them ascending by it, when no two share an id; and in either
/// order each row comes strictly before the next.
pub proof fn lemma_permissions_descending_reverses_ascending(
    rows: Seq<Permission>,
    ascending: Seq<Permission>,
    descending: Seq<Permission>,
    key: PermissionSort,
)
    requires
        forall|i: int, j: int| 0 <= i < j < rows.len() ==> #[trigger] rows[i].id != #[trigger] rows[j].id,
        ascending.to_multiset() == rows.to_multiset(),
        descending.to_multiset() == rows.to_multiset(),
        rows_sorted(ascending, permission_key(key), crate::sorting::SortDirection::Ascending),
        rows_sorted(descending, permission_key(key), crate::sorting::SortDirection::Descending),
    ensures
        descending == ascending.reverse(),
        crate::sorting::strictly_sorted(ascending, permission_key(key), crate::sorting::SortDirection::Ascending),
        crate::sorting::strictly_sorted(descending, permission_key(key), crate::sorting::SortDirection::Descending),
{
    crate::sorting::lemma_descending_reverses_ascending(rows, ascending, descending, permission_key(key));
    crate::sorting::lemma_sorted_distinct_is_strict(
        rows,
        ascending,
        permission_key(key),
        crate::sorting::SortDirection::Ascending,
    );
    crate::sorting::lemma_sorted_distinct_is_strict(
        rows,
        descending,
        permission_key(key),
        crate::sorting::SortDirection::Descending,
    );
}

} // verus!

verus! {

/// Whether a permission form checks: a name of at least three bytes, and a
/// description of at least three bytes when one is given.
pub open spec fn permission_form_checks(name: Seq<char>, description: Seq<char>) -> bool {
    encode_utf8(trimmed(name)).len() >= 3 && match spec_optional_text(description) {
        Some(d) => encode_utf8(d).len() >= 3,
        None => true,
    }
}

/// The update of a permission.
#[derive(Clone, Debug)]
pub struct UpdatePermission {
    pub permission_id: i64,
    pub name: Option<String>,
    pub description: Option<String>,
}

/// What a command of the permissions workbench is doing.
#[derive(Clone, Debug)]
pub enum PermissionsFlow {
    Idle,
    Creating { name: String },
    Saving { name: String },
    ChangingState { id: i64, name: String, active: bool },
}

/// The posts of the permissions workbench.
#[derive(Clone, Debug)]
pub enum PermissionsRequest {
    /// `/api/permissions/add`, answered with the new id.
    Add(PermissionForm),
    /// `/api/permissions/update`.
    Update(UpdatePermission),
    /// The restore or delete endpoint, for one permission.
    State { path: String, permission_id: i64 },
}

/// What happens in the permissions workbench.
#[derive(Debug)]
pub enum PermissionsEvent {
    SubmitCreate { name: String, description: String },
    SubmitSave { id: i64, name: String, description: String },
    SetActive { id: i64, name: String, active: bool },
    /// The answer to `Add`.
    Created(Result<i64, ApiError>),
    /// The answer to any other post.
    Answered(Result<bool, ApiError>),
}

/// One step of the permissions workbench: while a command is in flight a
/// new one is ignored; a form that does not check shows its message; a
/// refused post stops the command with its message; an accepted one shows
/// its notice and reloads the table, and deactivating the selected
/// permission unselects it.
pub open spec fn spec_permissions_step(
    state: Workbench<PermissionsFlow>,
    event: PermissionsEvent,
    next: Workbench<PermissionsFlow>,
    effect: Effect<PermissionsRequest>,
) -> bool {
    match event {
        PermissionsEvent::SubmitCreate { name, description } => if state.pending {
            next == state && effect is Nothing
        } else if !permission_form_checks(name@, description@) {
            refused_form(state, permission_form_message(), next) && effect is Nothing
        } else {
            &&& next.pending && next.error is None && next.selected == state.selected
            &&& next.flow matches PermissionsFlow::Creating { name: n } && n@ == trimmed(name@)
            &&& effect matches Effect::Send(PermissionsRequest::Add(f)) && f.name@ == trimmed(name@)
                && opt_string_view(f.description) == spec_optional_text(description@)
        },
        PermissionsEvent::SubmitSave { id, name, description } => if state.pending {
            next == state && effect is Nothing
        } else if !permission_form_checks(name@, description@) {
            refused_form(state, permission_form_message(), next) && effect is Nothing
        } else {
            &&& next.pending && next.error is None && next.selected == state.selected
            &&& next.flow matches PermissionsFlow::Saving { name: n } && n@ == trimmed(name@)
            &&& effect matches Effect::Send(PermissionsRequest::Update(u)) && u.permission_id == id
                && opt_string_view(u.name) == Some(trimmed(name@)) && opt_string_view(u.description)
                == spec_optional_text(description@)
        },
        PermissionsEvent::SetActive { id, name, active } => if state.pending {
            next == state && effect is Nothing
        } else {
            &&& next.pending && next.error is None && next.selected == state.selected
            &&& next.flow matches PermissionsFlow::ChangingState { id: i, name: n, active: a } && i == id
                && n@ == name@ && a == active
            &&& effect matches Effect::Send(PermissionsRequest::State { path, permission_id }) && path@
                == "/api/permissions"@ + (if active {
                "/restore"@
            } else {
                "/delete"@
            }) && permission_id == id
        },
        PermissionsEvent::Created(answer) => match state.flow {
            PermissionsFlow::Creating { name } => match answer {
                Ok(_) => next == finished(state, PermissionsFlow::Idle, state.selected) && (effect matches Effect::Created(m)
                    && m@ == name@ + " created."@),
                Err(e) => stopped_by(state, Err(e), Seq::empty(), PermissionsFlow::Idle, next, effect),
            },
            _ => next == state && effect is Nothing,
        },
        PermissionsEvent::Answered(answer) => match state.flow {
            PermissionsFlow::Saving { name } => if answer == Ok::<bool, ApiError>(true) {
                next == finished(state, PermissionsFlow::Idle, state.selected) && (effect matches Effect::Succeeded(m)
                    && m@ == name@ + " updated."@)
            } else {
                stopped_by(state, answer, "The selected permission no longer exists."@, PermissionsFlow::Idle, next, effect)
            },
            PermissionsFlow::ChangingState { id, name, active } => if answer == Ok::<bool, ApiError>(true) {
                &&& next == finished(
                    state,
                    PermissionsFlow::Idle,
                    if !active && state.selected == Some(id) {
                        None
                    } else {
                        state.selected
                    },
                )
                &&& effect matches Effect::Succeeded(m) && m@ == name@ + (if active {
                    " reactivated."@
                } else {
                    " deactivated."@
                })
            } else {
                stopped_by(state, answer, "The selected permission no longer exists."@, PermissionsFlow::Idle, next, effect)
            },
            _ => next == state && effect is Nothing,
        },
    }
}

/// Takes one step of the permissions workbench.
pub fn permissions_step(state: Workbench<PermissionsFlow>, event: PermissionsEvent) -> (r: (
    Workbench<PermissionsFlow>,
    Effect<PermissionsRequest>,
))
    ensures
        spec_permissions_step(state, event, r.0, r.1),
{
    match event {
        PermissionsEvent::SubmitCreate { name, description } => {
            if state.pending {
                return (state, Effect::Nothing);
            }
            match permission_form(name.as_str(), description.as_str()) {
                Err(m) => (Workbench { error: Some(m), ..state }, Effect::Nothing),
                Ok(f) => {
                    let n = f.name.clone();
                    (
                        Workbench { pending: true, error: None, flow: PermissionsFlow::Creating { name: n }, ..state },
                        Effect::Send(PermissionsRequest::Add(f)),
                    )
                },
            }
        },
        PermissionsEvent::SubmitSave { id, name, description } => {
            if state.pending {
                return (state, Effect::Nothing);
            }
            match permission_form(name.as_str(), description.as_str()) {
                Err(m) => (Workbench { error: Some(m), ..state }, Effect::Nothing),
                Ok(f) => {
                    let n = f.name.clone();
                    (
                        Workbench { pending: true, error: None, flow: PermissionsFlow::Saving { name: n }, ..state },
                        Effect::Send(
                            PermissionsRequest::Update(
                                UpdatePermission { permission_id: id, name: Some(f.name), description: f.description },
                            ),
                        ),
                    )
                },
            }
        },
        PermissionsEvent::SetActive { id, name, active } => {
            if state.pending {
                return (state, Effect::Nothing);
            }
            let path = state_change_path("permissions", active);
            proof {
                reveal_strlit("permissions");
                reveal_strlit("/api/");
                reveal_strlit("/api/permissions");
                assert("/api/"@ + "permissions"@ =~= "/api/permissions"@);
            }
            (
                Workbench { pending: true, error: None, flow: PermissionsFlow::ChangingState { id, name, active }, ..state },
                Effect::Send(PermissionsRequest::State { path, permission_id: id }),
            )
        },
        PermissionsEvent::Created(answer) => {
            let Workbench { pending, error, selected, flow } = state;
            let state = Workbench { pending, error, selected, flow: PermissionsFlow::Idle };
            match flow {
                PermissionsFlow::Creating { name } => match answer {
                    Ok(_) => (Workbench { pending: false, ..state }, Effect::Created(created_notice(name.as_str()))),
                    Err(e) => {
                        let ghost ge = e;
                        let s = settle_created(Err(e));
                        halt(state, s, PermissionsFlow::Idle, Ghost(Err::<bool, ApiError>(ge)), Ghost(Seq::empty()))
                    },
                },
                other => (Workbench { flow: other, ..state }, Effect::Nothing),
            }
        },
        PermissionsEvent::Answered(answer) => {
            let Workbench { pending, error, selected, flow } = state;
            let state = Workbench { pending, error, selected, flow: PermissionsFlow::Idle };
            let ghost ans = answer;
            match flow {
                PermissionsFlow::Saving { name } => {
                    let s = settle(answer, "The selected permission no longer exists.");
                    match s {
                        Settled::Accepted => (Workbench { pending: false, ..state }, Effect::Succeeded(updated_notice(name.as_str()))),
                        _ => halt(state, s, PermissionsFlow::Idle, Ghost(ans), Ghost("The selected permission no longer exists."@)),
                    }
                },
                PermissionsFlow::ChangingState { id, name, active } => {
                    let s = settle(answer, "The selected permission no longer exists.");
                    match s {
                        Settled::Accepted => {
                            let selected = selection_after_state_change(state.selected, id, active);
                            (Workbench { pending: false, selected, ..state }, Effect::Succeeded(state_notice(name.as_str(), active)))
                        },
                        _ => halt(state, s, PermissionsFlow::Idle, Ghost(ans), Ghost("The selected permission no longer exists."@)),
                    }
                },
                other => (Workbench { flow: other, ..state }, Effect::Nothing),
            }
        },
    }
}

} // verus!

verus! {

/// Rows sorted by a column come in the column's order, by name or description ignoring ASCII case (no description as empty), or with active permissions first; ties keep
/// no particular order here.
pub proof fn lemma_permissions_sorted_by_column(
    rows: Seq<Permission>,
    key: PermissionSort,
    direction: crate::sorting::SortDirection,
)
    requires
        rows_sorted(rows, permission_key(key), direction),
    ensures
        forall|i: int, j: int|
            #![trigger rows[i], rows[j]]
            0 <= i < j < rows.len() ==> match key {
                PermissionSort::Name => {
                    let (a, b) = (rows[i], rows[j]);
                    texts_in_order(ascii_lowercase(a.name@), ascii_lowercase(b.name@), direction)
                },
                PermissionSort::Description => {
                    let (a, b) = (rows[i], rows[j]);
                    texts_in_order(ascii_lowercase(text_or_empty(a.description)), ascii_lowercase(text_or_empty(b.description)), direction)
                },
                PermissionSort::Status => {
                    let (a, b) = (rows[i], rows[j]);
                    flags_in_order(a.deleted is Some, b.deleted is Some, direction)
                },
            },
{
    crate::sorting::lemma_sorted_rows_values_in_order(rows, permission_key(key), direction);
    assert forall|i: int, j: int| 0 <= i < j < rows.len() implies #[trigger] crate::sorting::values_in_order(
        permission_key(key)(rows[i]).0,
        permission_key(key)(#[trigger] rows[j]).0,
        direction,
    ) by {}
}

} // verus!

verus! {

/// The filter box keeps exactly the rows that hold the query, ignoring the
/// row's ASCII case, in its name or description; an empty query keeps every row.
pub proof fn lemma_permissions_filter_matches(query: Seq<char>)
    ensures
        forall|x: Permission| #[trigger] permission_shown(query, x) <==> (
            query.len() == 0
            || crate::text::text_contains(ascii_lowercase(x.name@), query)
            || crate::text::text_contains(ascii_lowercase(text_or_empty(x.description)), query)
        ),
{
}

} // verus!

verus! {

/// While a command is in flight, another form or button changes nothing
/// and posts nothing.
pub proof fn lemma_permissions_one_command_at_a_time(
    state: Workbench<PermissionsFlow>,
    event: PermissionsEvent,
    next: Workbench<PermissionsFlow>,
    effect: Effect<PermissionsRequest>,
)
    requires
        spec_permissions_step(state, event, next, effect),
        state.pending,
        event is SubmitCreate || event is SubmitSave || event is SetActive,
    ensures
        effect is Nothing,
        next.pending,
        next.flow == state.flow,
        next.selected == state.selected,
{
}

/// A command reports success only on an accepted answer, and then nothing
/// is pending.
pub proof fn lemma_permissions_success_only_when_accepted(
    state: Workbench<PermissionsFlow>,
    event: PermissionsEvent,
    next: Workbench<PermissionsFlow>,
    effect: Effect<PermissionsRequest>,
)
    requires
        spec_permissions_step(state, event, next, effect),
        effect is Succeeded || effect is Created || effect is LinesChanged,
    ensures
        !next.pending,
        next.error == state.error,
        (event is Answered && event->Answered_0 == Ok::<bool, ApiError>(true)) || (event is Created && event->Created_0 is Ok),
{
}

/// A refused post stops the command and shows why: nothing is pending,
/// and the message in the notice is the one under the forms.
pub proof fn lemma_permissions_refusal_is_shown(
    state: Workbench<PermissionsFlow>,
    next: Workbench<PermissionsFlow>,
    effect: Effect<PermissionsRequest>,
)
    requires
        spec_permissions_step(state, PermissionsEvent::Answered(Ok(false)), next, effect),
        state.flow is Saving || state.flow is ChangingState,
    ensures
        !next.pending,
        next.flow is Idle,
        next.selected == state.selected,
        effect matches Effect::Failed(m) && next.error matches Some(e) && e@ == m@,
{
}

/// An ended session signs out, whatever the command was doing, with
/// nothing left pending.
pub proof fn lemma_permissions_sign_out(
    state: Workbench<PermissionsFlow>,
    error: ApiError,
    next: Workbench<PermissionsFlow>,
    effect: Effect<PermissionsRequest>,
)
    requires
        spec_permissions_step(state, PermissionsEvent::Answered(Err(error)), next, effect),
        error.unauthorized,
        state.flow is Saving || state.flow is ChangingState,
    ensures
        effect is SignOut,
        !next.pending,
        next.flow is Idle,
        next.error == state.error,
{
}

/// Another error stops the command and shows the error's message.
pub proof fn lemma_permissions_error_is_shown(
    state: Workbench<PermissionsFlow>,
    error: ApiError,
    next: Workbench<PermissionsFlow>,
    effect: Effect<PermissionsRequest>,
)
    requires
        spec_permissions_step(state, PermissionsEvent::Answered(Err(error)), next, effect),
        !error.unauthorized,
        state.flow is Saving || state.flow is ChangingState,
    ensures
        !next.pending,
        next.flow is Idle,
        effect matches Effect::Failed(m) && m@ == error.message@,
        next.error matches Some(e) && e@ == error.message@,
{
}

/// Deactivating the selected row unselects it; any other accepted change
/// of state leaves the selection.
pub proof fn lemma_permissions_deactivation_unselects(
    state: Workbench<PermissionsFlow>,
    next: Workbench<PermissionsFlow>,
    effect: Effect<PermissionsRequest>,
)
    requires
        spec_permissions_step(state, PermissionsEvent::Answered(Ok(true)), next, effect),
        state.flow is ChangingState,
    ensures
        next.selected == (if !state.flow->ChangingState_active && state.selected == Some(
            state.flow->ChangingState_id,
        ) {
            None
        } else {
            state.selected
        }),
{
}

} // verus!
