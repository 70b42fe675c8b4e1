//! The clients workbench: the filter and sort of its table, and the forms
//! that create and update a client.
use vstd::prelude::*;
use crate::sorting::{counts_in_order, flags_in_order, texts_in_order};
use crate::administration::{
    optional_text, selection_after_state_change, spec_optional_text, state_change_path,
    state_notice,
};
use crate::api::ApiError;
use crate::url::opt_string_view;
use crate::workbench::{
    created_notice, finished, halt, refused_form, settle, settle_created, stopped_by, updated_notice, Effect,
    Settled, Workbench,
};
use crate::listing::{field_matches, matches_field, SortSpec};
use crate::models::InventoryOwner;
use crate::sorting::{rows_sorted, sort_by_keys, SortField, SortValue};
use crate::text::{ascii_lowercase, byte_len_below, to_ascii_lowercase, trim, trimmed};
use vstd::utf8::encode_utf8;

verus! {

/// The columns the clients table sorts by.
#[derive(Clone, Copy, Debug, PartialEq, Eq, Structural)]
pub enum ClientSort {
    Name,
    Email,
    Facilities,
    Status,
}

/// The value a client is sorted by in a column: name or email ignoring
/// ASCII case, the number of facilities, or whether it is inactive.
pub open spec fn client_value(c: InventoryOwner, key: ClientSort) -> SortValue {
    match key {
        ClientSort::Name => SortValue::Text(ascii_lowercase(c.name@)),
        ClientSort::Email => SortValue::Text(ascii_lowercase(c.email@)),
        ClientSort::Facilities => SortValue::Count(c.facility_ids@.len() as int),
        ClientSort::Status => SortValue::Flag(c.deleted is Some),
    }
}

/// The key a client is sorted by: its column value, then its id.
pub open spec fn client_key(key: ClientSort) -> spec_fn(InventoryOwner) -> (SortValue, int) {
    |c: InventoryOwner| (client_value(c, key), c.id as int)
}

/// The sort field of a client in a column.
fn client_field(c: &InventoryOwner, key: ClientSort) -> (r: SortField)
    ensures
        r.value() == client_value(*c, key),
{
    match key {
        ClientSort::Name => SortField::Text(to_ascii_lowercase(c.name.as_str())),
        ClientSort::Email => SortField::Text(to_ascii_lowercase(c.email.as_str())),
        ClientSort::Facilities => SortField::Count(c.facility_ids.len() as u64),
        ClientSort::Status => SortField::Flag(c.deleted.is_some()),
    }
}

/// Sorts clients by a column, then by id, in the given direction; every
/// client stays.
pub fn sort_clients(clients: &mut Vec<InventoryOwner>, spec: SortSpec<ClientSort>)
    ensures
        final(clients)@.to_multiset() == old(clients)@.to_multiset(),
        rows_sorted(final(clients)@, client_key(spec.key), spec.direction),
{
    let mut rows: Vec<InventoryOwner> = Vec::new();
    std::mem::swap(&mut rows, clients);
    let mut keys: Vec<(SortField, i64)> = Vec::new();
    let mut i: usize = 0;
    while i < rows.len()
        invariant
            i <= rows@.len(),
            keys@.len() == i,
            forall|j: int| 0 <= j < i ==> crate::sorting::field_key(#[trigger] keys@[j]) == (client_key(spec.key))(rows@[j]),
        decreases rows@.len() - i,
    {
        let field = client_field(&rows[i], spec.key);
        keys.push((field, rows[i].id));
        i = i + 1;
    }
    let sorted = sort_by_keys(rows, keys, spec.direction, Ghost(client_key(spec.key)));
    *clients = sorted;
}

/// Whether a client shows for a query: an empty query shows every client,
/// another one the clients whose name or email holds it.
pub open spec fn client_shown(query: Seq<char>, c: InventoryOwner) -> bool {
    query.len() == 0 || field_matches(query, c.name@) || field_matches(query, c.email@)
}

/// Tells whether a client shows for a query.
pub fn client_matches(query: &str, c: &InventoryOwner) -> (r: bool)
    ensures
        r == client_shown(query@, *c),
{
    query.unicode_len() == 0 || matches_field(query, c.name.as_str()) || matches_field(
        query,
        c.email.as_str(),
    )
}

/// Keeps the clients that show for a query, in their order.
pub fn filter_clients(rows: Vec<InventoryOwner>, query: &str) -> (r: Vec<InventoryOwner>)
    ensures
        r@ == rows@.filter(|x: InventoryOwner| client_shown(query@, x)),
{
    let mut kept: Vec<InventoryOwner> = Vec::new();
    let mut rest = rows;
    let ghost all = rest@;
    let mut i: usize = 0;
    proof {
        reveal(Seq::filter);
        assert(all.take(0) =~= Seq::<InventoryOwner>::empty());
    }
    let n = rest.len();
    while i < n
        invariant
            n == all.len(),
            i <= n,
            rest@ == all.skip(i as int),
            kept@ == all.take(i as int).filter(|x: InventoryOwner| client_shown(query@, x)),
        decreases n - i,
    {
        proof {
            reveal(Seq::filter);
            assert(all.take(i + 1).drop_last() =~= all.take(i as int));
            assert(all.skip(i as int)[0] == all[i as int]);
        }
        let row = rest.remove(0);
        proof {
            assert(rest@ =~= all.skip(i + 1));
        }
        if client_matches(query, &row) {
            kept.push(row);
        }
        i = i + 1;
    }
    proof {
        assert(all.take(n as int) =~= all);
    }
    kept
}

/// A client's name and email as a form submits them.
#[derive(Clone, Debug)]
pub struct ClientForm {
    pub name: String,
    pub email: String,
}

/// The message of a client form that cannot be submitted.
pub open spec fn client_form_message() -> Seq<char> {
    "Enter a client name of at least three characters and a valid email."@
}

/// Checks a client form: the trimmed name must take at least three bytes
/// and the trimmed email must not be empty; both are sent trimmed.
pub fn client_form(name: &str, email: &str) -> (r: Result<ClientForm, String>)
    ensures
        r is Ok <==> (encode_utf8(trimmed(name@)).len() >= 3 && trimmed(email@).len() > 0),
        match r {
            Ok(f) => f.name@ == trimmed(name@) && f.email@ == trimmed(email@),
            Err(m) => m@ == client_form_message(),
        },
{
    let n = trim(name);
    let e = trim(email);
    if byte_len_below(n, 3) || e.unicode_len() == 0 {
        return Err(String::from_str("Enter a client name of at least three characters and a valid email."));
    }
    Ok(ClientForm { name: String::from_str(n), email: String::from_str(e) })
}

/// The update of a client's profile: blank texts are left as they were.
#[derive(Clone, Debug)]
pub struct InventoryOwnerUpdate {
    pub inventory_owner_id: i64,
    pub name: Option<String>,
    pub email: Option<String>,
}

/// Builds the update of a client's profile from a form's texts: each is
/// trimmed, and a blank one is not sent.
pub fn client_update(inventory_owner_id: i64, name: &str, email: &str) -> (r: InventoryOwnerUpdate)
    ensures
        r.inventory_owner_id == inventory_owner_id,
        match r.name {
            Some(t) => spec_optional_text(name@) == Some(t@),
            None => spec_optional_text(name@) is None,
        },
        match r.email {
            Some(t) => spec_optional_text(email@) == Some(t@),
            None => spec_optional_text(email@) is None,
        },
{
    InventoryOwnerUpdate {
        inventory_owner_id,
        name: optional_text(name),
        email: optional_text(email),
    }
}

/// The facilities to assign to a client.
#[derive(Clone, Debug)]
pub struct ReplaceInventoryOwnerFacilities {
    pub inventory_owner_id: i64,
    pub facility_ids: Vec<i64>,
}

/// The assignment to send after a client was created: the chosen
/// facilities for the new client, or nothing when none was chosen.
pub fn facilities_after_create(
    inventory_owner_id: i64,
    facility_ids: Vec<i64>,
) -> (r: Option<ReplaceInventoryOwnerFacilities>)
    ensures
        facility_ids@.len() == 0 ==> r is None,
        facility_ids@.len() > 0 ==> (r matches Some(a) && a.inventory_owner_id == inventory_owner_id
            && a.facility_ids@ == facility_ids@),
{
    if facility_ids.len() == 0 {
        None
    } else {
        Some(ReplaceInventoryOwnerFacilities { inventory_owner_id, facility_ids })
    }
}

} // verus!

verus! {

/// Sorting clients descending by a column gives exactly the reverse of
/// sorting them ascending by it, when no two share an id; and in either
/// order each row comes strictly before the next.
pub proof fn lemma_clients_descending_reverses_ascending(
    rows: Seq<InventoryOwner>,
    ascending: Seq<InventoryOwner>,
    descending: Seq<InventoryOwner>,
    key: ClientSort,
)
    requires
        forall|i: int, j: int| 0 <= i < j < rows.len() ==> #[trigger] rows[i].id != #[trigger] rows[j].id,
        ascending.to_multiset() == rows.to_multiset(),
        descending.to_multiset() == rows.to_multiset(),
        rows_sorted(ascending, client_key(key), crate::sorting::SortDirection::Ascending),
        rows_sorted(descending, client_key(key), crate::sorting::SortDirection::Descending),
    ensures
        descending == ascending.reverse(),
        crate::sorting::strictly_sorted(ascending, client_key(key), crate::sorting::SortDirection::Ascending),
        crate::sorting::strictly_sorted(descending, client_key(key), crate::sorting::SortDirection::Descending),
{
    crate::sorting::lemma_descending_reverses_ascending(rows, ascending, descending, client_key(key));
    crate::sorting::lemma_sorted_distinct_is_strict(
        rows,
        ascending,
        client_key(key),
        crate::sorting::SortDirection::Ascending,
    );
    crate::sorting::lemma_sorted_distinct_is_strict(
        rows,
        descending,
        client_key(key),
        crate::sorting::SortDirection::Descending,
    );
}

} // verus!

verus! {

/// What a command of the clients workbench is doing.
#[derive(Clone, Debug)]
pub enum ClientsFlow {
    Idle,
    /// A client is being created; the facilities to assign follow.
    Creating { name: String, facility_ids: Vec<i64> },
    /// The new client's facilities are being assigned.
    AssigningCreated { name: String },
    /// A client's profile is being saved; its facilities follow.
    Saving { id: i64, name: String, facility_ids: Vec<i64> },
    /// The saved client's facilities are being replaced.
    AssigningSaved { name: String },
    /// A client is being deactivated or reactivated.
    ChangingState { id: i64, name: String, active: bool },
}

/// The posts of the clients workbench.
#[derive(Clone, Debug)]
pub enum ClientsRequest {
    /// `/api/inventory-owners/add`, answered with the new id.
    Add(ClientForm),
    /// `/api/inventory-owners/facilities`.
    Facilities(ReplaceInventoryOwnerFacilities),
    /// `/api/inventory-owners/update`.
    Update(InventoryOwnerUpdate),
    /// The restore or delete endpoint, for one client.
    State { path: String, inventory_owner_id: i64 },
}

/// What happens in the clients workbench.
#[derive(Debug)]
pub enum ClientsEvent {
    /// The create form is submitted.
    SubmitCreate { name: String, email: String, facility_ids: Vec<i64> },
    /// The edit form of the selected client is submitted.
    SubmitSave { id: i64, name: String, email: String, facility_ids: Vec<i64> },
    /// A row's deactivate or reactivate button is pressed.
    SetActive { id: i64, name: String, active: bool },
    /// The answer to `Add`.
    Created(Result<i64, ApiError>),
    /// The answer to any other post.
    Answered(Result<bool, ApiError>),
}

/// One step of the clients workbench.
///
/// While a command is in flight a new one is ignored. A form that does not
/// check shows its message and sends nothing. Creating posts the client,
/// then its facilities only when some were chosen; saving posts the
/// profile, then the facilities. A refused post stops the command with
/// its message; the last accepted post shows the notice and reloads the
/// table, and deactivating the selected client unselects it.
pub open spec fn spec_clients_step(
    state: Workbench<ClientsFlow>,
    event: ClientsEvent,
    next: Workbench<ClientsFlow>,
    effect: Effect<ClientsRequest>,
) -> bool {
    match event {
        ClientsEvent::SubmitCreate { name, email, facility_ids } => if state.pending {
            next == state && effect is Nothing
        } else if !(encode_utf8(trimmed(name@)).len() >= 3 && trimmed(email@).len() > 0) {
            refused_form(state, client_form_message(), next) && effect is Nothing
        } else {
            &&& next.pending && next.error is None && next.selected == state.selected
            &&& next.flow matches ClientsFlow::Creating { name: n, facility_ids: ids } && n@ == trimmed(name@)
                && ids@ == facility_ids@
            &&& effect matches Effect::Send(ClientsRequest::Add(f)) && f.name@ == trimmed(name@) && f.email@
                == trimmed(email@)
        },
        ClientsEvent::SubmitSave { id, name, email, facility_ids } => if state.pending {
            next == state && effect is Nothing
        } else if !(encode_utf8(trimmed(name@)).len() >= 3 && trimmed(email@).len() > 0) {
            refused_form(state, client_form_message(), next) && effect is Nothing
        } else {
            &&& next.pending && next.error is None && next.selected == state.selected
            &&& next.flow matches ClientsFlow::Saving { id: i, name: n, facility_ids: ids } && i == id && n@
                == trimmed(name@) && ids@ == facility_ids@
            &&& effect matches Effect::Send(ClientsRequest::Update(u)) && u.inventory_owner_id == id
                && opt_string_view(u.name) == Some(trimmed(name@)) && opt_string_view(u.email) == Some(
                trimmed(email@),
            )
        },
        ClientsEvent::SetActive { id, name, active } => if state.pending {
            next == state && effect is Nothing
        } else {
            &&& next.pending && next.error is None && next.selected == state.selected
            &&& next.flow matches ClientsFlow::ChangingState { id: i, name: n, active: a } && i == id && n@
                == name@ && a == active
            &&& effect matches Effect::Send(ClientsRequest::State { path, inventory_owner_id }) && path@
                == "/api/inventory-owners"@ + (if active {
                "/restore"@
            } else {
                "/delete"@
            }) && inventory_owner_id == id
        },
        ClientsEvent::Created(answer) => match state.flow {
            ClientsFlow::Creating { name, facility_ids } => match answer {
                Ok(id) => if facility_ids@.len() == 0 {
                    next == finished(state, ClientsFlow::Idle, state.selected) && (effect matches Effect::Created(
                        m,
                    ) && m@ == name@ + " created."@)
                } else {
                    &&& next.pending && next.error == state.error && next.selected == state.selected
                    &&& next.flow matches ClientsFlow::AssigningCreated { name: n } && n@ == name@
                    &&& effect matches Effect::Send(ClientsRequest::Facilities(a)) && a.inventory_owner_id == id
                        && a.facility_ids@ == facility_ids@
                },
                Err(e) => stopped_by(state, Err(e), Seq::empty(), ClientsFlow::Idle, next, effect),
            },
            _ => next == state && effect is Nothing,
        },
        ClientsEvent::Answered(answer) => match state.flow {
            ClientsFlow::AssigningCreated { name } => if answer == Ok::<bool, ApiError>(true) {
                next == finished(state, ClientsFlow::Idle, state.selected) && (effect matches Effect::Created(m)
                    && m@ == name@ + " created."@)
            } else {
                stopped_by(
                    state,
                    answer,
                    "The client was created but facilities were not assigned."@,
                    ClientsFlow::Idle,
                    next,
                    effect,
                )
            },
            ClientsFlow::Saving { id, name, facility_ids } => if answer == Ok::<bool, ApiError>(true) {
                &&& next.pending && next.error == state.error && next.selected == state.selected
                &&& next.flow matches ClientsFlow::AssigningSaved { name: n } && n@ == name@
                &&& effect matches Effect::Send(ClientsRequest::Facilities(a)) && a.inventory_owner_id == id
                    && a.facility_ids@ == facility_ids@
            } else {
                stopped_by(state, answer, "The selected client no longer exists."@, ClientsFlow::Idle, next, effect)
            },
            ClientsFlow::AssigningSaved { name } => if answer == Ok::<bool, ApiError>(true) {
                next == finished(state, ClientsFlow::Idle, state.selected) && (effect matches Effect::Succeeded(m)
                    && m@ == name@ + " updated."@)
            } else {
                stopped_by(state, answer, "Facility assignments could not be saved."@, ClientsFlow::Idle, next, effect)
            },
            ClientsFlow::ChangingState { id, name, active } => if answer == Ok::<bool, ApiError>(true) {
                &&& next == finished(
                    state,
                    ClientsFlow::Idle,
                    if !active && state.selected == Some(id) {
                        None
                    } else {
                        state.selected
                    },
                )
                &&& effect matches Effect::Succeeded(m) && m@ == name@ + (if active {
                    " reactivated."@
                } else {
                    " deactivated."@
                })
            } else {
                stopped_by(state, answer, "The selected client no longer exists."@, ClientsFlow::Idle, next, effect)
            },
            _ => next == state && effect is Nothing,
        },
    }
}

/// Takes one step of the clients workbench.
pub fn clients_step(state: Workbench<ClientsFlow>, event: ClientsEvent) -> (r: (
    Workbench<ClientsFlow>,
    Effect<ClientsRequest>,
))
    ensures
        spec_clients_step(state, event, r.0, r.1),
{
    match event {
        ClientsEvent::SubmitCreate { name, email, facility_ids } => {
            if state.pending {
                return (state, Effect::Nothing);
            }
            match client_form(name.as_str(), email.as_str()) {
                Err(m) => (Workbench { error: Some(m), ..state }, Effect::Nothing),
                Ok(f) => {
                    let n = f.name.clone();
                    (
                        Workbench { pending: true, error: None, flow: ClientsFlow::Creating { name: n, facility_ids }, ..state },
                        Effect::Send(ClientsRequest::Add(f)),
                    )
                },
            }
        },
        ClientsEvent::SubmitSave { id, name, email, facility_ids } => {
            if state.pending {
                return (state, Effect::Nothing);
            }
            match client_form(name.as_str(), email.as_str()) {
                Err(m) => (Workbench { error: Some(m), ..state }, Effect::Nothing),
                Ok(f) => {
                    let n = f.name.clone();
                    (
                        Workbench {
                            pending: true,
                            error: None,
                            flow: ClientsFlow::Saving { id, name: n, facility_ids },
                            ..state
                        },
                        Effect::Send(
                            ClientsRequest::Update(
                                InventoryOwnerUpdate { inventory_owner_id: id, name: Some(f.name), email: Some(f.email) },
                            ),
                        ),
                    )
                },
            }
        },
        ClientsEvent::SetActive { id, name, active } => {
            if state.pending {
                return (state, Effect::Nothing);
            }
            let path = state_change_path("inventory-owners", active);
            proof {
                reveal_strlit("inventory-owners");
                reveal_strlit("/api/");
                reveal_strlit("/api/inventory-owners");
                assert("/api/"@ + "inventory-owners"@ =~= "/api/inventory-owners"@);
            }
            (
                Workbench { pending: true, error: None, flow: ClientsFlow::ChangingState { id, name, active }, ..state },
                Effect::Send(ClientsRequest::State { path, inventory_owner_id: id }),
            )
        },
        ClientsEvent::Created(answer) => {
            let Workbench { pending, error, selected, flow } = state;
            let state = Workbench { pending, error, selected, flow: ClientsFlow::Idle };
            match flow {
                ClientsFlow::Creating { name, facility_ids } => {
                    match answer {
                        Ok(id) => {
                            if facility_ids.len() == 0 {
                                (Workbench { pending: false, ..state }, Effect::Created(created_notice(name.as_str())))
                            } else {
                                (
                                    Workbench { pending: true, flow: ClientsFlow::AssigningCreated { name }, ..state },
                                    Effect::Send(
                                        ClientsRequest::Facilities(
                                            ReplaceInventoryOwnerFacilities { inventory_owner_id: id, facility_ids },
                                        ),
                                    ),
                                )
                            }
                        },
                        Err(e) => {
                            let ghost ge = e;
                            let s = settle_created(Err(e));
                            halt(state, s, ClientsFlow::Idle, Ghost(Err::<bool, ApiError>(ge)), Ghost(Seq::empty()))
                        },
                    }
                },
                other => (Workbench { flow: other, ..state }, Effect::Nothing),
            }
        },
        ClientsEvent::Answered(answer) => {
            let Workbench { pending, error, selected, flow } = state;
            let state = Workbench { pending, error, selected, flow: ClientsFlow::Idle };
            let ghost ans = answer;
            match flow {
                ClientsFlow::AssigningCreated { name } => {
                    let s = settle(answer, "The client was created but facilities were not assigned.");
                    match s {
                        Settled::Accepted => (Workbench { pending: false, ..state }, Effect::Created(created_notice(name.as_str()))),
                        _ => halt(state, s, ClientsFlow::Idle, Ghost(ans), Ghost("The client was created but facilities were not assigned."@)),
                    }
                },
                ClientsFlow::Saving { id, name, facility_ids } => {
                    let s = settle(answer, "The selected client no longer exists.");
                    match s {
                        Settled::Accepted => (
                            Workbench { pending: true, flow: ClientsFlow::AssigningSaved { name }, ..state },
                            Effect::Send(
                                ClientsRequest::Facilities(
                                    ReplaceInventoryOwnerFacilities { inventory_owner_id: id, facility_ids },
                                ),
                            ),
                        ),
                        _ => halt(state, s, ClientsFlow::Idle, Ghost(ans), Ghost("The selected client no longer exists."@)),
                    }
                },
                ClientsFlow::AssigningSaved { name } => {
                    let s = settle(answer, "Facility assignments could not be saved.");
                    match s {
                        Settled::Accepted => (Workbench { pending: false, ..state }, Effect::Succeeded(updated_notice(name.as_str()))),
                        _ => halt(state, s, ClientsFlow::Idle, Ghost(ans), Ghost("Facility assignments could not be saved."@)),
                    }
                },
                ClientsFlow::ChangingState { id, name, active } => {
                    let s = settle(answer, "The selected client no longer exists.");
                    match s {
                        Settled::Accepted => {
                            let selected = selection_after_state_change(state.selected, id, active);
                            (Workbench { pending: false, selected, ..state }, Effect::Succeeded(state_notice(name.as_str(), active)))
                        },
                        _ => halt(state, s, ClientsFlow::Idle, Ghost(ans), Ghost("The selected client no longer exists."@)),
                    }
                },
                other => (Workbench { flow: other, ..state }, Effect::Nothing),
            }
        },
    }
}

} // verus!

verus! {

/// Rows sorted by a column come in the column's order, by name or email ignoring ASCII case, by the number of facilities assigned, or with active clients first; ties keep
/// no particular order here.
pub proof fn lemma_clients_sorted_by_column(
    rows: Seq<InventoryOwner>,
    key: ClientSort,
    direction: crate::sorting::SortDirection,
)
    requires
        rows_sorted(rows, client_key(key), direction),
    ensures
        forall|i: int, j: int|
            #![trigger rows[i], rows[j]]
            0 <= i < j < rows.len() ==> match key {
                ClientSort::Name => {
                    let (a, b) = (rows[i], rows[j]);
                    texts_in_order(ascii_lowercase(a.name@), ascii_lowercase(b.name@), direction)
                },
                ClientSort::Email => {
                    let (a, b) = (rows[i], rows[j]);
                    texts_in_order(ascii_lowercase(a.email@), ascii_lowercase(b.email@), direction)
                },
                ClientSort::Facilities => {
                    let (a, b) = (rows[i], rows[j]);
                    counts_in_order(a.facility_ids@.len() as int, b.facility_ids@.len() as int, direction)
                },
                ClientSort::Status => {
                    let (a, b) = (rows[i], rows[j]);
                    flags_in_order(a.deleted is Some, b.deleted is Some, direction)
                },
            },
{
    crate::sorting::lemma_sorted_rows_values_in_order(rows, client_key(key), direction);
    assert forall|i: int, j: int| 0 <= i < j < rows.len() implies #[trigger] crate::sorting::values_in_order(
        client_key(key)(rows[i]).0,
        client_key(key)(#[trigger] rows[j]).0,
        direction,
    ) by {}
}

} // verus!

verus! {

/// While a command is in flight, a new create, save or (de)activation
/// changes nothing and posts nothing.
pub proof fn lemma_clients_one_command_at_a_time(
    state: Workbench<ClientsFlow>,
    event: ClientsEvent,
    next: Workbench<ClientsFlow>,
    effect: Effect<ClientsRequest>,
)
    requires
        spec_clients_step(state, event, next, effect),
        state.pending,
        !(event is Created || event is Answered),
    ensures
        effect is Nothing,
        next.pending,
        next.flow == state.flow,
        next.selected == state.selected,
{
}

/// Once a client's profile update is accepted, the facilities chosen in the
/// edit form are posted for that client next, and nothing is reported yet.
pub proof fn lemma_saved_client_facilities_are_posted(
    state: Workbench<ClientsFlow>,
    next: Workbench<ClientsFlow>,
    effect: Effect<ClientsRequest>,
)
    requires
        spec_clients_step(state, ClientsEvent::Answered(Ok(true)), next, effect),
        state.flow is Saving,
    ensures
        next.pending,
        effect matches Effect::Send(ClientsRequest::Facilities(a)) && a.inventory_owner_id
            == state.flow->Saving_id && a.facility_ids@ == state.flow->Saving_facility_ids@,
{
}

/// Once a client is created, the chosen facilities are posted for the new
/// id; when none were chosen, the creation is reported at once.
pub proof fn lemma_created_client_facilities_are_posted_when_chosen(
    state: Workbench<ClientsFlow>,
    id: i64,
    next: Workbench<ClientsFlow>,
    effect: Effect<ClientsRequest>,
)
    requires
        spec_clients_step(state, ClientsEvent::Created(Ok(id)), next, effect),
        state.flow is Creating,
    ensures
        state.flow->Creating_facility_ids@.len() > 0 ==> next.pending && (effect matches Effect::Send(
            ClientsRequest::Facilities(a),
        ) && a.inventory_owner_id == id && a.facility_ids@ == state.flow->Creating_facility_ids@),
        state.flow->Creating_facility_ids@.len() == 0 ==> !next.pending && (effect matches Effect::Created(m)
            && m@ == state.flow->Creating_name@ + " created."@),
{
}

/// A client command reports success only when its last post was accepted:
/// the facilities after a creation or a save, or the change of state; a
/// creation without facilities is done when the client is.
pub proof fn lemma_clients_success_only_when_done(
    state: Workbench<ClientsFlow>,
    event: ClientsEvent,
    next: Workbench<ClientsFlow>,
    effect: Effect<ClientsRequest>,
)
    requires
        spec_clients_step(state, event, next, effect),
        effect is Succeeded || effect is Created,
    ensures
        !next.pending,
        next.error == state.error,
        (event == ClientsEvent::Answered(Ok(true)) && (state.flow is AssigningCreated
            || state.flow is AssigningSaved || state.flow is ChangingState)) || (event is Created
            && event->Created_0 is Ok && state.flow is Creating && state.flow->Creating_facility_ids@.len()
            == 0),
{
}

/// A refused post stops the command and shows why: nothing is pending,
/// the message is under the forms and in the notice.
pub proof fn lemma_clients_refusal_is_shown(
    state: Workbench<ClientsFlow>,
    next: Workbench<ClientsFlow>,
    effect: Effect<ClientsRequest>,
)
    requires
        spec_clients_step(state, ClientsEvent::Answered(Ok(false)), next, effect),
        !(state.flow is Idle || state.flow is Creating),
    ensures
        !next.pending,
        next.flow is Idle,
        effect matches Effect::Failed(m) && next.error matches Some(e) && e@ == m@ && m@.len() > 0,
{
    reveal_strlit("The client was created but facilities were not assigned.");
    reveal_strlit("The selected client no longer exists.");
    reveal_strlit("Facility assignments could not be saved.");
}

/// An ended session signs out whatever the command was doing, with nothing
/// left pending.
pub proof fn lemma_clients_sign_out(
    state: Workbench<ClientsFlow>,
    error: ApiError,
    next: Workbench<ClientsFlow>,
    effect: Effect<ClientsRequest>,
)
    requires
        spec_clients_step(state, ClientsEvent::Answered(Err(error)), next, effect),
        error.unauthorized,
        !(state.flow is Idle || state.flow is Creating),
    ensures
        effect is SignOut,
        !next.pending,
        next.flow is Idle,
{
}

/// Deactivating the selected client unselects it; any other accepted
/// change of state leaves the selection.
pub proof fn lemma_clients_deactivation_unselects(
    state: Workbench<ClientsFlow>,
    next: Workbench<ClientsFlow>,
    effect: Effect<ClientsRequest>,
)
    requires
        spec_clients_step(state, ClientsEvent::Answered(Ok(true)), next, effect),
        state.flow is ChangingState,
    ensures
        next.selected == (if !state.flow->ChangingState_active && state.selected == Some(
            state.flow->ChangingState_id,
        ) {
            None
        } else {
            state.selected
        }),
{
}

} // verus!

verus! {

/// The filter box keeps exactly the rows that hold the query, ignoring the
/// row's ASCII case, in its name or email; an empty query keeps every row.
pub proof fn lemma_clients_filter_matches(query: Seq<char>)
    ensures
        forall|x: InventoryOwner| #[trigger] client_shown(query, x) <==> (
            query.len() == 0
            || crate::text::text_contains(ascii_lowercase(x.name@), query)
            || crate::text::text_contains(ascii_lowercase(x.email@), query)
        ),
{
}

} // verus!

verus! {

/// An error other than an ended session stops a client command and shows
/// the error's message.
pub proof fn lemma_clients_error_is_shown(
    state: Workbench<ClientsFlow>,
    error: ApiError,
    next: Workbench<ClientsFlow>,
    effect: Effect<ClientsRequest>,
)
    requires
        spec_clients_step(state, ClientsEvent::Answered(Err(error)), next, effect),
        !error.unauthorized,
        !(state.flow is Idle || state.flow is Creating),
    ensures
        !next.pending,
        next.flow is Idle,
        effect matches Effect::Failed(m) && m@ == error.message@,
        next.error matches Some(e) && e@ == error.message@,
{
}

} // verus!
