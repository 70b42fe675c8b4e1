//! The users workbench: the name a user goes by, the filter and sort of
//! its table, and the checks of its forms.
use vstd::prelude::*;
use crate::sorting::{counts_in_order, flags_in_order, texts_in_order};
use crate::administration::{
    optional_text, selection_after_state_change, spec_optional_text, state_change_path, state_notice,
};
use crate::api::ApiError;
use crate::workbench::{halt, refused_form, settle, stopped_by, finished, Effect, Settled, Workbench};
use crate::listing::{any_field_matches, field_matches, matches_any, matches_field, SortSpec};
use crate::sorting::{field_key, rows_sorted, sort_by_keys, SortField, SortValue};
use crate::text::{ascii_lowercase, to_ascii_lowercase, trim, trimmed};

verus! {

/// A user with the fields its table and editor read.
#[derive(Clone, Debug)]
pub struct User {
    pub id: i64,
    pub nick_name: Option<String>,
    pub first_name: Option<String>,
    pub last_name: Option<String>,
    pub email: String,
    /// The names of the user's roles.
    pub role_names: Vec<String>,
    /// When the user was deactivated, if it was.
    pub deleted: Option<String>,
}

/// An optional name part that is not blank.
pub open spec fn present(value: Option<String>) -> Option<Seq<char>> {
    match value {
        Some(s) => if trimmed(s@).len() > 0 {
            Some(s@)
        } else {
            None
        },
        None => None,
    }
}

/// The name a user goes by: the nickname when it is not blank, else the
/// first and last names that are not blank joined by a space, else the
/// email.
pub open spec fn spec_user_display_name(u: User) -> Seq<char> {
    match present(u.nick_name) {
        Some(n) => n,
        None => match (present(u.first_name), present(u.last_name)) {
            (Some(f), Some(l)) => f + " "@ + l,
            (Some(f), None) => f,
            (None, Some(l)) => l,
            (None, None) => u.email@,
        },
    }
}

/// The optional name part when it is not blank.
fn present_part(value: &Option<String>) -> (r: Option<&str>)
    ensures
        match r {
            Some(s) => present(*value) == Some(s@),
            None => present(*value) is None,
        },
{
    match value {
        Some(s) => if trim(s.as_str()).unicode_len() > 0 {
            Some(s.as_str())
        } else {
            None
        },
        None => None,
    }
}

/// Renders the name a user goes by.
pub fn user_display_name(u: &User) -> (r: String)
    ensures
        r@ == spec_user_display_name(*u),
{
    if let Some(n) = present_part(&u.nick_name) {
        return String::from_str(n);
    }
    match (present_part(&u.first_name), present_part(&u.last_name)) {
        (Some(f), Some(l)) => {
            let mut out = String::from_str(f);
            out.append(" ");
            out.append(l);
            out
        },
        (Some(f), None) => String::from_str(f),
        (None, Some(l)) => String::from_str(l),
        (None, None) => String::from_str(u.email.as_str()),
    }
}

/// The columns the users table sorts by.
#[derive(Clone, Copy, Debug, PartialEq, Eq, Structural)]
pub enum UserSort {
    Name,
    Email,
    Roles,
    Status,
}

/// The value a user is sorted by in a column: the name it goes by or its
/// email ignoring ASCII case, its number of roles, or whether it is
/// inactive.
pub open spec fn user_value(u: User, key: UserSort) -> SortValue {
    match key {
        UserSort::Name => SortValue::Text(ascii_lowercase(spec_user_display_name(u))),
        UserSort::Email => SortValue::Text(ascii_lowercase(u.email@)),
        UserSort::Roles => SortValue::Count(u.role_names@.len() as int),
        UserSort::Status => SortValue::Flag(u.deleted is Some),
    }
}

/// The key a user is sorted by: its column value, then its id.
pub open spec fn user_key(key: UserSort) -> spec_fn(User) -> (SortValue, int) {
    |u: User| (user_value(u, key), u.id as int)
}

fn user_field(u: &User, key: UserSort) -> (f: SortField)
    ensures
        f.value() == user_value(*u, key),
{
    match key {
        UserSort::Name => {
            let name = user_display_name(u);
            SortField::Text(to_ascii_lowercase(name.as_str()))
        },
        UserSort::Email => SortField::Text(to_ascii_lowercase(u.email.as_str())),
        UserSort::Roles => SortField::Count(u.role_names.len() as u64),
        UserSort::Status => SortField::Flag(u.deleted.is_some()),
    }
}

/// Sorts users by a column, then by id, in the given direction; every user stays.
pub fn sort_users(rows: &mut Vec<User>, spec: SortSpec<UserSort>)
    ensures
        final(rows)@.to_multiset() == old(rows)@.to_multiset(),
        rows_sorted(final(rows)@, user_key(spec.key), spec.direction),
{
    let mut taken: Vec<User> = Vec::new();
    std::mem::swap(&mut taken, rows);
    let mut keys: Vec<(SortField, i64)> = Vec::new();
    let mut i: usize = 0;
    while i < taken.len()
        invariant
            i <= taken@.len(),
            keys@.len() == i,
            forall|j: int| 0 <= j < i ==> field_key(#[trigger] keys@[j]) == (user_key(spec.key))(taken@[j]),
        decreases taken@.len() - i,
    {
        let field = user_field(&taken[i], spec.key);
        keys.push((field, taken[i].id));
        i = i + 1;
    }
    let sorted = sort_by_keys(taken, keys, spec.direction, Ghost(user_key(spec.key)));
    *rows = sorted;
}

/// Whether a user shows for a query: an empty query shows every user,
/// another one the users whose name, email or one of whose roles holds it.
pub open spec fn user_shown(query: Seq<char>, u: User) -> bool {
    query.len() == 0 || field_matches(query, spec_user_display_name(u)) || field_matches(query, u.email@)
        || any_field_matches(query, u.role_names@)
}

/// Tells whether a user shows for a query.
pub fn user_matches(query: &str, u: &User) -> (b: bool)
    ensures
        b == user_shown(query@, *u),
{
    if query.unicode_len() == 0 {
        return true;
    }
    let name = user_display_name(u);
    matches_field(query, name.as_str()) || matches_field(query, u.email.as_str()) || matches_any(query, &u.role_names)
}

/// Keeps the users that show for a query, in their order.
pub fn filter_users(rows: Vec<User>, query: &str) -> (r: Vec<User>)
    ensures
        r@ == rows@.filter(|x: User| user_shown(query@, x)),
{
    let mut kept: Vec<User> = Vec::new();
    let mut rest = rows;
    let ghost all = rest@;
    let mut i: usize = 0;
    proof {
        reveal(Seq::filter);
        assert(all.take(0) =~= Seq::<User>::empty());
    }
    let n = rest.len();
    while i < n
        invariant
            n == all.len(),
            i <= n,
            rest@ == all.skip(i as int),
            kept@ == all.take(i as int).filter(|x: User| user_shown(query@, x)),
        decreases n - i,
    {
        proof {
            reveal(Seq::filter);
            assert(all.take(i + 1).drop_last() =~= all.take(i as int));
            assert(all.skip(i as int)[0] == all[i as int]);
        }
        let row = rest.remove(0);
        proof {
            assert(rest@ =~= all.skip(i + 1));
        }
        if user_matches(query, &row) {
            kept.push(row);
        }
        i = i + 1;
    }
    proof {
        assert(all.take(n as int) =~= all);
    }
    kept
}

/// The update of a user's profile.
#[derive(Clone, Debug)]
pub struct UserUpdate {
    pub user_id: i64,
    pub first_name: Option<String>,
    pub last_name: Option<String>,
    pub nick_name: Option<String>,
    pub phone: Option<String>,
}

/// Whether an optional text is the trimmed form text, or absent when blank.
pub open spec fn optional_of(value: Option<String>, text: Seq<char>) -> bool {
    match value {
        Some(t) => spec_optional_text(text) == Some(t@),
        None => spec_optional_text(text) is None,
    }
}

/// Builds the update of a user's profile: each text trimmed, a blank one
/// not sent; at least one must be given.
pub fn user_update(
    user_id: i64,
    first_name: &str,
    last_name: &str,
    nick_name: &str,
    phone: &str,
) -> (r: Result<UserUpdate, String>)
    ensures
        r is Ok <==> !(spec_optional_text(first_name@) is None && spec_optional_text(last_name@) is None
            && spec_optional_text(nick_name@) is None && spec_optional_text(phone@) is None),
        match r {
            Ok(u) => u.user_id == user_id && optional_of(u.first_name, first_name@) && optional_of(
                u.last_name,
                last_name@,
            ) && optional_of(u.nick_name, nick_name@) && optional_of(u.phone, phone@),
            Err(m) => m@ == "Enter at least one profile value."@,
        },
{
    let request = UserUpdate {
        user_id,
        first_name: optional_text(first_name),
        last_name: optional_text(last_name),
        nick_name: optional_text(nick_name),
        phone: optional_text(phone),
    };
    if request.first_name.is_none() && request.last_name.is_none() && request.nick_name.is_none()
        && request.phone.is_none() {
        return Err(String::from_str("Enter at least one profile value."));
    }
    Ok(request)
}

/// The role chosen for a grant or a removal: a positive id, untrimmed.
pub fn role_choice(value: &str) -> (r: Result<i64, String>)
    ensures
        match r {
            Ok(id) => crate::admin_configuration::spec_positive_id(value@) == Some(id as int),
            Err(m) => crate::admin_configuration::spec_positive_id(value@) is None && m@
                == "Choose a role."@,
        },
{
    match crate::admin_configuration::parse_optional_id(value) {
        Some(id) => Ok(id),
        None => Err(String::from_str("Choose a role.")),
    }
}

/// The notice after a role was assigned to or removed from a user.
pub fn role_change_notice(assign: bool) -> (r: &'static str)
    ensures
        r@ == if assign {
            "Role assigned."@
        } else {
            "Role removed."@
        },
{
    if assign {
        "Role assigned."
    } else {
        "Role removed."
    }
}

/// The message when the server made no change to a user's roles.
pub fn role_refused_message(assign: bool) -> (r: &'static str)
    ensures
        r@ == if assign {
            "The role could not be assigned."@
        } else {
            "That direct role assignment was not found."@
        },
{
    if assign {
        "The role could not be assigned."
    } else {
        "That direct role assignment was not found."
    }
}

/// The endpoint that assigns a role to a user or removes it.
pub fn role_assignment_path(assign: bool) -> (r: &'static str)
    ensures
        r@ == if assign {
            "/api/users/roles/add"@
        } else {
            "/api/users/roles/delete"@
        },
{
    if assign {
        "/api/users/roles/add"
    } else {
        "/api/users/roles/delete"
    }
}

} // verus!

verus! {

/// Sorting users descending by a column gives exactly the reverse of
/// sorting them ascending by it, when no two share an id; and in either
/// order each row comes strictly before the next.
pub proof fn lemma_users_descending_reverses_ascending(
    rows: Seq<User>,
    ascending: Seq<User>,
    descending: Seq<User>,
    key: UserSort,
)
    requires
        forall|i: int, j: int| 0 <= i < j < rows.len() ==> #[trigger] rows[i].id != #[trigger] rows[j].id,
        ascending.to_multiset() == rows.to_multiset(),
        descending.to_multiset() == rows.to_multiset(),
        rows_sorted(ascending, user_key(key), crate::sorting::SortDirection::Ascending),
        rows_sorted(descending, user_key(key), crate::sorting::SortDirection::Descending),
    ensures
        descending == ascending.reverse(),
        crate::sorting::strictly_sorted(ascending, user_key(key), crate::sorting::SortDirection::Ascending),
        crate::sorting::strictly_sorted(descending, user_key(key), crate::sorting::SortDirection::Descending),
{
    crate::sorting::lemma_descending_reverses_ascending(rows, ascending, descending, user_key(key));
    crate::sorting::lemma_sorted_distinct_is_strict(
        rows,
        ascending,
        user_key(key),
        crate::sorting::SortDirection::Ascending,
    );
    crate::sorting::lemma_sorted_distinct_is_strict(
        rows,
        descending,
        user_key(key),
        crate::sorting::SortDirection::Descending,
    );
}

} // verus!

verus! {

/// What a command of the users workbench is doing.
#[derive(Clone, Debug)]
pub enum UsersFlow {
    Idle,
    SavingProfile,
    ChangingRole { assign: bool },
    ChangingState { id: i64, label: String, active: bool },
}

/// The posts of the users workbench.
#[derive(Clone, Debug)]
pub enum UsersRequest {
    /// `/api/users/update`.
    Update(UserUpdate),
    /// `/api/users/roles/add` or `/api/users/roles/delete`.
    Role { path: String, user_id: i64, role_id: i64 },
    /// The restore or delete endpoint, for one user.
    State { path: String, user_id: i64 },
}

/// What happens in the users workbench.
#[derive(Debug)]
pub enum UsersEvent {
    /// The profile form of the selected user is submitted.
    SubmitProfile { user_id: i64, first_name: String, last_name: String, nick_name: String, phone: String },
    /// A direct role is assigned to or removed from the selected user.
    ChangeRole { user_id: i64, choice: String, assign: bool },
    /// A row's deactivate or reactivate button.
    SetActive { user: User, active: bool },
    /// The answer to a post.
    Answered(Result<bool, ApiError>),
}

/// One step of the users workbench. While a command is in flight a new one
/// is ignored (a role change without a chosen role still says so). A
/// profile with no value, or no chosen role, shows its message. A refused
/// post stops the command with its message; an accepted one shows its
/// notice and reloads the table, and deactivating the selected user
/// unselects them.
pub open spec fn spec_users_step(
    state: Workbench<UsersFlow>,
    event: UsersEvent,
    next: Workbench<UsersFlow>,
    effect: Effect<UsersRequest>,
) -> bool {
    match event {
        UsersEvent::SubmitProfile { user_id, first_name, last_name, nick_name, phone } => if state.pending {
            next == state && effect is Nothing
        } else if spec_optional_text(first_name@) is None && spec_optional_text(last_name@) is None
            && spec_optional_text(nick_name@) is None && spec_optional_text(phone@) is None {
            refused_form(state, "Enter at least one profile value."@, next) && effect is Nothing
        } else {
            &&& next.pending && next.error is None && next.selected == state.selected
            &&& next.flow == UsersFlow::SavingProfile
            &&& effect matches Effect::Send(UsersRequest::Update(u)) && u.user_id == user_id && optional_of(
                u.first_name,
                first_name@,
            ) && optional_of(u.last_name, last_name@) && optional_of(u.nick_name, nick_name@)
                && optional_of(u.phone, phone@)
        },
        UsersEvent::ChangeRole { user_id, choice, assign } => if crate::admin_configuration::spec_positive_id(
            choice@,
        ) is None {
            refused_form(state, "Choose a role."@, next) && effect is Nothing
        } else if state.pending {
            next == state && effect is Nothing
        } else {
            &&& next.pending && next.error is None && next.selected == state.selected
            &&& next.flow == UsersFlow::ChangingRole { assign }
            &&& effect matches Effect::Send(UsersRequest::Role { path, user_id: u, role_id }) && path@
                == (if assign {
                "/api/users/roles/add"@
            } else {
                "/api/users/roles/delete"@
            }) && u == user_id && crate::admin_configuration::spec_positive_id(choice@) == Some(
                role_id as int,
            )
        },
        UsersEvent::SetActive { user, active } => if state.pending {
            next == state && effect is Nothing
        } else {
            &&& next.pending && next.error is None && next.selected == state.selected
            &&& next.flow matches UsersFlow::ChangingState { id, label, active: a } && id == user.id && label@
                == spec_user_display_name(user) && a == active
            &&& effect matches Effect::Send(UsersRequest::State { path, user_id }) && path@ == "/api/users"@
                + (if active {
                "/restore"@
            } else {
                "/delete"@
            }) && user_id == user.id
        },
        UsersEvent::Answered(answer) => match state.flow {
            UsersFlow::SavingProfile => if answer == Ok::<bool, ApiError>(true) {
                next == finished(state, UsersFlow::Idle, state.selected) && (effect matches Effect::Succeeded(m)
                    && m@ == "User profile updated."@)
            } else {
                stopped_by(
                    state,
                    answer,
                    "The selected user is no longer active in this organization."@,
                    UsersFlow::Idle,
                    next,
                    effect,
                )
            },
            UsersFlow::ChangingRole { assign } => if answer == Ok::<bool, ApiError>(true) {
                next == finished(state, UsersFlow::Idle, state.selected) && (effect matches Effect::Succeeded(m)
                    && m@ == (if assign {
                    "Role assigned."@
                } else {
                    "Role removed."@
                }))
            } else {
                stopped_by(
                    state,
                    answer,
                    if assign {
                        "The role could not be assigned."@
                    } else {
                        "That direct role assignment was not found."@
                    },
                    UsersFlow::Idle,
                    next,
                    effect,
                )
            },
            UsersFlow::ChangingState { id, label, active } => if answer == Ok::<bool, ApiError>(true) {
                &&& next == finished(
                    state,
                    UsersFlow::Idle,
                    if !active && state.selected == Some(id) {
                        None
                    } else {
                        state.selected
                    },
                )
                &&& effect matches Effect::Succeeded(m) && m@ == label@ + (if active {
                    " reactivated."@
                } else {
                    " deactivated."@
                })
            } else {
                stopped_by(
                    state,
                    answer,
                    "The selected user is no longer in this organization."@,
                    UsersFlow::Idle,
                    next,
                    effect,
                )
            },
            UsersFlow::Idle => next == state && effect is Nothing,
        },
    }
}

/// Takes one step of the users workbench.
pub fn users_step(state: Workbench<UsersFlow>, event: UsersEvent) -> (r: (
    Workbench<UsersFlow>,
    Effect<UsersRequest>,
))
    ensures
        spec_users_step(state, event, r.0, r.1),
{
    match event {
        UsersEvent::SubmitProfile { user_id, first_name, last_name, nick_name, phone } => {
            if state.pending {
                return (state, Effect::Nothing);
            }
            match user_update(user_id, first_name.as_str(), last_name.as_str(), nick_name.as_str(), phone.as_str()) {
                Err(m) => (Workbench { error: Some(m), ..state }, Effect::Nothing),
                Ok(u) => (
                    Workbench { pending: true, error: None, flow: UsersFlow::SavingProfile, ..state },
                    Effect::Send(UsersRequest::Update(u)),
                ),
            }
        },
        UsersEvent::ChangeRole { user_id, choice, assign } => {
            let role_id = match role_choice(choice.as_str()) {
                Err(m) => return (Workbench { error: Some(m), ..state }, Effect::Nothing),
                Ok(r) => r,
            };
            if state.pending {
                return (state, Effect::Nothing);
            }
            (
                Workbench { pending: true, error: None, flow: UsersFlow::ChangingRole { assign }, ..state },
                Effect::Send(
                    UsersRequest::Role { path: String::from_str(role_assignment_path(assign)), user_id, role_id },
                ),
            )
        },
        UsersEvent::SetActive { user, active } => {
            if state.pending {
                return (state, Effect::Nothing);
            }
            let label = user_display_name(&user);
            let path = state_change_path("users", active);
            proof {
                reveal_strlit("users");
                reveal_strlit("/api/");
                reveal_strlit("/api/users");
                assert("/api/"@ + "users"@ =~= "/api/users"@);
            }
            (
                Workbench {
                    pending: true,
                    error: None,
                    flow: UsersFlow::ChangingState { id: user.id, label, active },
                    ..state
                },
                Effect::Send(UsersRequest::State { path, user_id: user.id }),
            )
        },
        UsersEvent::Answered(answer) => {
            let Workbench { pending, error, selected, flow } = state;
            let state = Workbench { pending, error, selected, flow: UsersFlow::Idle };
            let ghost ans = answer;
            match flow {
                UsersFlow::SavingProfile => {
                    let s = settle(answer, "The selected user is no longer active in this organization.");
                    match s {
                        Settled::Accepted => (
                            Workbench { pending: false, ..state },
                            Effect::Succeeded(String::from_str("User profile updated.")),
                        ),
                        _ => halt(
                            state,
                            s,
                            UsersFlow::Idle,
                            Ghost(ans),
                            Ghost("The selected user is no longer active in this organization."@),
                        ),
                    }
                },
                UsersFlow::ChangingRole { assign } => {
                    let refused = role_refused_message(assign);
                    let s = settle(answer, refused);
                    match s {
                        Settled::Accepted => (
                            Workbench { pending: false, ..state },
                            Effect::Succeeded(String::from_str(role_change_notice(assign))),
                        ),
                        _ => halt(state, s, UsersFlow::Idle, Ghost(ans), Ghost(refused@)),
                    }
                },
                UsersFlow::ChangingState { id, label, active } => {
                    let s = settle(answer, "The selected user is no longer in this organization.");
                    match s {
                        Settled::Accepted => {
                            let selected = selection_after_state_change(state.selected, id, active);
                            (Workbench { pending: false, selected, ..state }, Effect::Succeeded(state_notice(label.as_str(), active)))
                        },
                        _ => halt(
                            state,
                            s,
                            UsersFlow::Idle,
                            Ghost(ans),
                            Ghost("The selected user is no longer in this organization."@),
                        ),
                    }
                },
                UsersFlow::Idle => (state, Effect::Nothing),
            }
        },
    }
}

} // verus!

verus! {

/// Rows sorted by a column come in the column's order, by the name they go by or their email ignoring ASCII case, by the number of roles, or with active users first; ties keep
/// no particular order here.
pub proof fn lemma_users_sorted_by_column(
    rows: Seq<User>,
    key: UserSort,
    direction: crate::sorting::SortDirection,
)
    requires
        rows_sorted(rows, user_key(key), direction),
    ensures
        forall|i: int, j: int|
            #![trigger rows[i], rows[j]]
            0 <= i < j < rows.len() ==> match key {
                UserSort::Name => {
                    let (a, b) = (rows[i], rows[j]);
                    texts_in_order(ascii_lowercase(spec_user_display_name(a)), ascii_lowercase(spec_user_display_name(b)), direction)
                },
                UserSort::Email => {
                    let (a, b) = (rows[i], rows[j]);
                    texts_in_order(ascii_lowercase(a.email@), ascii_lowercase(b.email@), direction)
                },
                UserSort::Roles => {
                    let (a, b) = (rows[i], rows[j]);
                    counts_in_order(a.role_names@.len() as int, b.role_names@.len() as int, direction)
                },
                UserSort::Status => {
                    let (a, b) = (rows[i], rows[j]);
                    flags_in_order(a.deleted is Some, b.deleted is Some, direction)
                },
            },
{
    crate::sorting::lemma_sorted_rows_values_in_order(rows, user_key(key), direction);
    assert forall|i: int, j: int| 0 <= i < j < rows.len() implies #[trigger] crate::sorting::values_in_order(
        user_key(key)(rows[i]).0,
        user_key(key)(#[trigger] rows[j]).0,
        direction,
    ) by {}
}

} // verus!

verus! {

/// The filter box keeps exactly the rows that hold the query, ignoring the
/// row's ASCII case, in the name they go by, their email or the name of one of their roles; an empty query keeps every row.
pub proof fn lemma_users_filter_matches(query: Seq<char>)
    ensures
        forall|x: User| #[trigger] user_shown(query, x) <==> (
            query.len() == 0
            || crate::text::text_contains(ascii_lowercase(spec_user_display_name(x)), query)
            || crate::text::text_contains(ascii_lowercase(x.email@), query)
            || (exists|k: int| 0 <= k < x.role_names@.len() && crate::text::text_contains(ascii_lowercase(#[trigger] x.role_names@[k]@), query))
        ),
{
}

} // verus!

verus! {

/// The name a user goes by: a nickname that is not blank; else the first
/// and last names that are not blank, joined by a space when both are;
/// else the email.
pub proof fn lemma_user_display_name(u: User)
    ensures
        (u.nick_name is Some && trimmed(u.nick_name->0@).len() > 0) ==> spec_user_display_name(u)
            == u.nick_name->0@,
        !(u.nick_name is Some && trimmed(u.nick_name->0@).len() > 0) ==> {
            let first = u.first_name is Some && trimmed(u.first_name->0@).len() > 0;
            let last = u.last_name is Some && trimmed(u.last_name->0@).len() > 0;
            &&& first && last ==> spec_user_display_name(u) == u.first_name->0@ + " "@ + u.last_name->0@
            &&& first && !last ==> spec_user_display_name(u) == u.first_name->0@
            &&& !first && last ==> spec_user_display_name(u) == u.last_name->0@
            &&& !first && !last ==> spec_user_display_name(u) == u.email@
        },
{
}

} // verus!

verus! {

/// While a command is in flight, another form or button changes nothing
/// and posts nothing.
pub proof fn lemma_users_one_command_at_a_time(
    state: Workbench<UsersFlow>,
    event: UsersEvent,
    next: Workbench<UsersFlow>,
    effect: Effect<UsersRequest>,
)
    requires
        spec_users_step(state, event, next, effect),
        state.pending,
        event is SubmitProfile || event is ChangeRole || event is SetActive,
    ensures
        effect is Nothing,
        next.pending,
        next.flow == state.flow,
        next.selected == state.selected,
{
}

/// A command reports success only on an accepted answer, and then nothing
/// is pending.
pub proof fn lemma_users_success_only_when_accepted(
    state: Workbench<UsersFlow>,
    event: UsersEvent,
    next: Workbench<UsersFlow>,
    effect: Effect<UsersRequest>,
)
    requires
        spec_users_step(state, event, next, effect),
        effect is Succeeded || effect is Created || effect is LinesChanged,
    ensures
        !next.pending,
        next.error == state.error,
        (event is Answered && event->Answered_0 == Ok::<bool, ApiError>(true)),
{
}

/// A refused post stops the command and shows why: nothing is pending,
/// and the message in the notice is the one under the forms.
pub proof fn lemma_users_refusal_is_shown(
    state: Workbench<UsersFlow>,
    next: Workbench<UsersFlow>,
    effect: Effect<UsersRequest>,
)
    requires
        spec_users_step(state, UsersEvent::Answered(Ok(false)), next, effect),
        state.flow is SavingProfile || state.flow is ChangingRole || state.flow is ChangingState,
    ensures
        !next.pending,
        next.flow is Idle,
        next.selected == state.selected,
        effect matches Effect::Failed(m) && next.error matches Some(e) && e@ == m@,
{
}

/// An ended session signs out, whatever the command was doing, with
/// nothing left pending.
pub proof fn lemma_users_sign_out(
    state: Workbench<UsersFlow>,
    error: ApiError,
    next: Workbench<UsersFlow>,
    effect: Effect<UsersRequest>,
)
    requires
        spec_users_step(state, UsersEvent::Answered(Err(error)), next, effect),
        error.unauthorized,
        state.flow is SavingProfile || state.flow is ChangingRole || state.flow is ChangingState,
    ensures
        effect is SignOut,
        !next.pending,
        next.flow is Idle,
        next.error == state.error,
{
}

/// Another error stops the command and shows the error's message.
pub proof fn lemma_users_error_is_shown(
    state: Workbench<UsersFlow>,
    error: ApiError,
    next: Workbench<UsersFlow>,
    effect: Effect<UsersRequest>,
)
    requires
        spec_users_step(state, UsersEvent::Answered(Err(error)), next, effect),
        !error.unauthorized,
        state.flow is SavingProfile || state.flow is ChangingRole || state.flow is ChangingState,
    ensures
        !next.pending,
        next.flow is Idle,
        effect matches Effect::Failed(m) && m@ == error.message@,
        next.error matches Some(e) && e@ == error.message@,
{
}

/// Deactivating the selected row unselects it; any other accepted change
/// of state leaves the selection.
pub proof fn lemma_users_deactivation_unselects(
    state: Workbench<UsersFlow>,
    next: Workbench<UsersFlow>,
    effect: Effect<UsersRequest>,
)
    requires
        spec_users_step(state, UsersEvent::Answered(Ok(true)), next, effect),
        state.flow is ChangingState,
    ensures
        next.selected == (if !state.flow->ChangingState_active && state.selected == Some(
            state.flow->ChangingState_id,
        ) {
            None
        } else {
            state.selected
        }),
{
}

} // verus!
