//! The workforce workbench: an employee's name, the filter and sort of
//! its table, and the editor's draft.
use vstd::prelude::*;
use crate::sorting::{counts_in_order, flags_in_order, texts_in_order};
use crate::administration::{
    optional_text, selection_after_state_change, spec_optional_text, state_change_path, state_notice,
};
use crate::api::ApiError;
use crate::url::opt_string_view;
use crate::workbench::{
    finished, halt, refused_form, settle, settle_created, stopped_by, updated_notice, Effect,
    Settled, Workbench,
};
use crate::listing::{field_matches, matches_field, matches_optional, text_or_empty, SortSpec};
use crate::sorting::{field_key, rows_sorted, sort_by_keys, SortField, SortValue};
use crate::text::{ascii_lowercase, to_ascii_lowercase, trim, trimmed};

verus! {

/// An employee with the fields its table and editor read.
#[derive(Clone, Debug)]
pub struct Employee {
    pub id: i64,
    pub first_name: String,
    pub last_name: String,
    pub title: String,
    pub employee_type: String,
    pub email: Option<String>,
    pub phone: Option<String>,
    pub facility_ids: Vec<i64>,
    /// When the employee left, if they did.
    pub deleted: Option<String>,
}

/// An employee's name: first and last name joined by a space, trimmed.
pub open spec fn spec_employee_name(e: Employee) -> Seq<char> {
    trimmed(e.first_name@ + " "@ + e.last_name@)
}

/// Renders an employee's name.
pub fn employee_name(e: &Employee) -> (r: String)
    ensures
        r@ == spec_employee_name(*e),
{
    let mut joined = String::from_str(e.first_name.as_str());
    joined.append(" ");
    joined.append(e.last_name.as_str());
    String::from_str(trim(joined.as_str()))
}

/// The columns the employees table sorts by.
#[derive(Clone, Copy, Debug, PartialEq, Eq, Structural)]
pub enum EmployeeSort {
    Name,
    Title,
    Type,
    Facilities,
    Status,
}

/// The value an employee is sorted by in a column: name, title or type
/// ignoring ASCII case, the number of facilities, or whether they left.
pub open spec fn employee_value(e: Employee, key: EmployeeSort) -> SortValue {
    match key {
        EmployeeSort::Name => SortValue::Text(ascii_lowercase(spec_employee_name(e))),
        EmployeeSort::Title => SortValue::Text(ascii_lowercase(e.title@)),
        EmployeeSort::Type => SortValue::Text(ascii_lowercase(e.employee_type@)),
        EmployeeSort::Facilities => SortValue::Count(e.facility_ids@.len() as int),
        EmployeeSort::Status => SortValue::Flag(e.deleted is Some),
    }
}

/// The key an employee is sorted by: its column value, then its id.
pub open spec fn employee_key(key: EmployeeSort) -> spec_fn(Employee) -> (SortValue, int) {
    |e: Employee| (employee_value(e, key), e.id as int)
}

fn employee_field(e: &Employee, key: EmployeeSort) -> (f: SortField)
    ensures
        f.value() == employee_value(*e, key),
{
    match key {
        EmployeeSort::Name => {
            let name = employee_name(e);
            SortField::Text(to_ascii_lowercase(name.as_str()))
        },
        EmployeeSort::Title => SortField::Text(to_ascii_lowercase(e.title.as_str())),
        EmployeeSort::Type => SortField::Text(to_ascii_lowercase(e.employee_type.as_str())),
        EmployeeSort::Facilities => SortField::Count(e.facility_ids.len() as u64),
        EmployeeSort::Status => SortField::Flag(e.deleted.is_some()),
    }
}

/// Sorts employees by a column, then by id, in the given direction; every employee stays.
pub fn sort_employees(rows: &mut Vec<Employee>, spec: SortSpec<EmployeeSort>)
    ensures
        final(rows)@.to_multiset() == old(rows)@.to_multiset(),
        rows_sorted(final(rows)@, employee_key(spec.key), spec.direction),
{
    let mut taken: Vec<Employee> = Vec::new();
    std::mem::swap(&mut taken, rows);
    let mut keys: Vec<(SortField, i64)> = Vec::new();
    let mut i: usize = 0;
    while i < taken.len()
        invariant
            i <= taken@.len(),
            keys@.len() == i,
            forall|j: int| 0 <= j < i ==> field_key(#[trigger] keys@[j]) == (employee_key(spec.key))(taken@[j]),
        decreases taken@.len() - i,
    {
        let field = employee_field(&taken[i], spec.key);
        keys.push((field, taken[i].id));
        i = i + 1;
    }
    let sorted = sort_by_keys(taken, keys, spec.direction, Ghost(employee_key(spec.key)));
    *rows = sorted;
}

/// Whether an employee shows for a query: an empty query shows everyone,
/// another one the employees whose name, title, type or email holds it.
pub open spec fn employee_shown(query: Seq<char>, e: Employee) -> bool {
    query.len() == 0 || field_matches(query, spec_employee_name(e)) || field_matches(query, e.title@)
        || field_matches(query, e.employee_type@) || field_matches(query, text_or_empty(e.email))
}

/// Tells whether an employee shows for a query.
pub fn employee_matches(query: &str, e: &Employee) -> (b: bool)
    ensures
        b == employee_shown(query@, *e),
{
    if query.unicode_len() == 0 {
        return true;
    }
    let name = employee_name(e);
    matches_field(query, name.as_str()) || matches_field(query, e.title.as_str()) || matches_field(
        query,
        e.employee_type.as_str(),
    ) || matches_optional(query, &e.email)
}

/// Keeps the employees that show for a query, in their order.
pub fn filter_employees(rows: Vec<Employee>, query: &str) -> (r: Vec<Employee>)
    ensures
        r@ == rows@.filter(|x: Employee| employee_shown(query@, x)),
{
    let mut kept: Vec<Employee> = Vec::new();
    let mut rest = rows;
    let ghost all = rest@;
    let mut i: usize = 0;
    proof {
        reveal(Seq::filter);
        assert(all.take(0) =~= Seq::<Employee>::empty());
    }
    let n = rest.len();
    while i < n
        invariant
            n == all.len(),
            i <= n,
            rest@ == all.skip(i as int),
            kept@ == all.take(i as int).filter(|x: Employee| employee_shown(query@, x)),
        decreases n - i,
    {
        proof {
            reveal(Seq::filter);
            assert(all.take(i + 1).drop_last() =~= all.take(i as int));
            assert(all.skip(i as int)[0] == all[i as int]);
        }
        let row = rest.remove(0);
        proof {
            assert(rest@ =~= all.skip(i + 1));
        }
        if employee_matches(query, &row) {
            kept.push(row);
        }
        i = i + 1;
    }
    proof {
        assert(all.take(n as int) =~= all);
    }
    kept
}

/// The fields of the employee editor.
#[derive(Clone, Debug)]
pub struct EmployeeDraft {
    pub first_name: String,
    pub last_name: String,
    pub title: String,
    pub employee_type: String,
    pub email: String,
    pub phone: String,
    pub facility_ids: Vec<i64>,
}

impl EmployeeDraft {
    /// An empty editor.
    pub fn new() -> (r: Self)
        ensures
            r.first_name@.len() == 0,
            r.last_name@.len() == 0,
            r.title@.len() == 0,
            r.employee_type@.len() == 0,
            r.email@.len() == 0,
            r.phone@.len() == 0,
            r.facility_ids@.len() == 0,
    {
        EmployeeDraft {
            first_name: String::new(),
            last_name: String::new(),
            title: String::new(),
            employee_type: String::new(),
            email: String::new(),
            phone: String::new(),
            facility_ids: Vec::new(),
        }
    }

    /// Fills the editor with an employee's fields (an absent email or phone
    /// as empty text).
    pub fn load(&mut self, e: &Employee)
        ensures
            final(self).first_name@ == e.first_name@,
            final(self).last_name@ == e.last_name@,
            final(self).title@ == e.title@,
            final(self).employee_type@ == e.employee_type@,
            final(self).email@ == text_or_empty(e.email),
            final(self).phone@ == text_or_empty(e.phone),
            final(self).facility_ids@ == e.facility_ids@,
    {
        self.first_name = String::from_str(e.first_name.as_str());
        self.last_name = String::from_str(e.last_name.as_str());
        self.title = String::from_str(e.title.as_str());
        self.employee_type = String::from_str(e.employee_type.as_str());
        self.email = match &e.email {
            Some(s) => String::from_str(s.as_str()),
            None => String::new(),
        };
        self.phone = match &e.phone {
            Some(s) => String::from_str(s.as_str()),
            None => String::new(),
        };
        let mut ids: Vec<i64> = Vec::new();
        let mut i: usize = 0;
        while i < e.facility_ids.len()
            invariant
                i <= e.facility_ids@.len(),
                ids@ == e.facility_ids@.take(i as int),
            decreases e.facility_ids@.len() - i,
        {
            ids.push(e.facility_ids[i]);
            assert(e.facility_ids@.take(i + 1) =~= e.facility_ids@.take(i as int).push(e.facility_ids@[i as int]));
            i = i + 1;
        }
        assert(e.facility_ids@.take(e.facility_ids@.len() as int) =~= e.facility_ids@);
        self.facility_ids = ids;
    }

    /// Empties the editor.
    pub fn clear(&mut self)
        ensures
            final(self).first_name@.len() == 0,
            final(self).last_name@.len() == 0,
            final(self).title@.len() == 0,
            final(self).employee_type@.len() == 0,
            final(self).email@.len() == 0,
            final(self).phone@.len() == 0,
            final(self).facility_ids@.len() == 0,
    {
        *self = EmployeeDraft::new();
    }

    /// Whether the editor may be submitted: name, title and type are not
    /// blank, and at least one facility is chosen.
    pub fn valid(&self) -> (r: bool)
        ensures
            r == (trimmed(self.first_name@).len() > 0 && trimmed(self.last_name@).len() > 0
                && trimmed(self.title@).len() > 0 && trimmed(self.employee_type@).len() > 0
                && self.facility_ids@.len() > 0),
    {
        trim(self.first_name.as_str()).unicode_len() > 0 && trim(self.last_name.as_str()).unicode_len() > 0
            && trim(self.title.as_str()).unicode_len() > 0 && trim(self.employee_type.as_str()).unicode_len() > 0
            && self.facility_ids.len() > 0
    }
}

/// The message of an employee editor that cannot be submitted.
pub open spec fn employee_form_message() -> Seq<char> {
    "Enter a name, title, employee type, and at least one facility."@
}

/// A new employee as the create form submits it.
#[derive(Clone, Debug)]
pub struct AddEmployee {
    pub first_name: String,
    pub last_name: String,
    pub title: String,
    pub employee_type: String,
    pub email: Option<String>,
    pub phone: Option<String>,
    /// The hiring date; the create form never sets one.
    pub hired: Option<String>,
    pub facility_ids: Vec<i64>,
}

/// The new employee that the create form submits: names, title and type
/// trimmed, a blank email or phone not sent; or the message when the draft
/// is not valid.
pub fn add_employee_request(d: &EmployeeDraft) -> (r: Result<AddEmployee, String>)
    ensures
        r is Ok <==> (trimmed(d.first_name@).len() > 0 && trimmed(d.last_name@).len() > 0
            && trimmed(d.title@).len() > 0 && trimmed(d.employee_type@).len() > 0
            && d.facility_ids@.len() > 0),
        match r {
            Ok(a) => {
                &&& a.first_name@ == trimmed(d.first_name@)
                &&& a.last_name@ == trimmed(d.last_name@)
                &&& a.title@ == trimmed(d.title@)
                &&& a.employee_type@ == trimmed(d.employee_type@)
                &&& match a.email {
                    Some(t) => spec_optional_text(d.email@) == Some(t@),
                    None => spec_optional_text(d.email@) is None,
                }
                &&& match a.phone {
                    Some(t) => spec_optional_text(d.phone@) == Some(t@),
                    None => spec_optional_text(d.phone@) is None,
                }
                &&& a.hired is None
                &&& a.facility_ids@ == d.facility_ids@
            },
            Err(m) => m@ == employee_form_message(),
        },
{
    if !d.valid() {
        return Err(String::from_str("Enter a name, title, employee type, and at least one facility."));
    }
    let mut ids: Vec<i64> = Vec::new();
    let mut i: usize = 0;
    while i < d.facility_ids.len()
        invariant
            i <= d.facility_ids@.len(),
            ids@ == d.facility_ids@.take(i as int),
        decreases d.facility_ids@.len() - i,
    {
        ids.push(d.facility_ids[i]);
        assert(d.facility_ids@.take(i + 1) =~= d.facility_ids@.take(i as int).push(d.facility_ids@[i as int]));
        i = i + 1;
    }
    assert(d.facility_ids@.take(d.facility_ids@.len() as int) =~= d.facility_ids@);
    Ok(
        AddEmployee {
            first_name: String::from_str(trim(d.first_name.as_str())),
            last_name: String::from_str(trim(d.last_name.as_str())),
            title: String::from_str(trim(d.title.as_str())),
            employee_type: String::from_str(trim(d.employee_type.as_str())),
            email: optional_text(d.email.as_str()),
            phone: optional_text(d.phone.as_str()),
            hired: None,
            facility_ids: ids,
        },
    )
}

} // verus!

verus! {

/// Sorting employees descending by a column gives exactly the reverse of
/// sorting them ascending by it, when no two share an id; and in either
/// order each row comes strictly before the next.
pub proof fn lemma_employees_descending_reverses_ascending(
    rows: Seq<Employee>,
    ascending: Seq<Employee>,
    descending: Seq<Employee>,
    key: EmployeeSort,
)
    requires
        forall|i: int, j: int| 0 <= i < j < rows.len() ==> #[trigger] rows[i].id != #[trigger] rows[j].id,
        ascending.to_multiset() == rows.to_multiset(),
        descending.to_multiset() == rows.to_multiset(),
        rows_sorted(ascending, employee_key(key), crate::sorting::SortDirection::Ascending),
        rows_sorted(descending, employee_key(key), crate::sorting::SortDirection::Descending),
    ensures
        descending == ascending.reverse(),
        crate::sorting::strictly_sorted(ascending, employee_key(key), crate::sorting::SortDirection::Ascending),
        crate::sorting::strictly_sorted(descending, employee_key(key), crate::sorting::SortDirection::Descending),
{
    crate::sorting::lemma_descending_reverses_ascending(rows, ascending, descending, employee_key(key));
    crate::sorting::lemma_sorted_distinct_is_strict(
        rows,
        ascending,
        employee_key(key),
        crate::sorting::SortDirection::Ascending,
    );
    crate::sorting::lemma_sorted_distinct_is_strict(
        rows,
        descending,
        employee_key(key),
        crate::sorting::SortDirection::Descending,
    );
}

} // verus!

verus! {

/// The update of an employee as the edit form submits it: each text
/// trimmed and left out when blank, the facilities replaced.
#[derive(Clone, Debug)]
pub struct EmployeeUpdate {
    pub employee_id: i64,
    pub first_name: Option<String>,
    pub last_name: Option<String>,
    pub title: Option<String>,
    pub employee_type: Option<String>,
    pub email: Option<String>,
    pub phone: Option<String>,
    /// When the employee left; the edit form never sets it.
    pub terminated: Option<String>,
    pub facility_ids: Option<Vec<i64>>,
}

/// What a command of the workforce workbench is doing.
#[derive(Clone, Debug)]
pub enum EmployeesFlow {
    Idle,
    Creating { name: String },
    Saving { name: String },
    ChangingState { id: i64, name: String, active: bool },
}

/// The posts of the workforce workbench.
#[derive(Clone, Debug)]
pub enum EmployeesRequest {
    /// `/api/employees/add`, answered with the new id.
    Add(AddEmployee),
    /// `/api/employees/update`.
    Update(EmployeeUpdate),
    /// The restore or delete endpoint, for one employee.
    State { path: String, employee_id: i64 },
}

/// What happens in the workforce workbench.
#[derive(Debug)]
pub enum EmployeesEvent {
    SubmitCreate { draft: EmployeeDraft },
    SubmitSave { id: i64, draft: EmployeeDraft },
    /// A row's deactivate or reactivate button; only employees the user
    /// may manage are changed.
    SetActive { employee: Employee, can_manage: bool, active: bool },
    /// The answer to `Add`.
    Created(Result<i64, ApiError>),
    /// The answer to any other post.
    Answered(Result<bool, ApiError>),
}

/// Whether a draft has every field the forms need.
pub open spec fn draft_valid(d: EmployeeDraft) -> bool {
    trimmed(d.first_name@).len() > 0 && trimmed(d.last_name@).len() > 0 && trimmed(d.title@).len() > 0
        && trimmed(d.employee_type@).len() > 0 && d.facility_ids@.len() > 0
}

/// The name a draft's notices use: the trimmed first and last names.
pub open spec fn draft_name(d: EmployeeDraft) -> Seq<char> {
    trimmed(d.first_name@) + " "@ + trimmed(d.last_name@)
}

/// One step of the workforce workbench. A form is refused, with its
/// message, while a command is in flight or when the draft lacks a field;
/// a row's button is ignored then. A refused post stops the command with
/// its message; an accepted one shows its notice and reloads the table
/// (a created employee empties the create form), and deactivating the
/// selected employee unselects them.
pub open spec fn spec_employees_step(
    state: Workbench<EmployeesFlow>,
    event: EmployeesEvent,
    next: Workbench<EmployeesFlow>,
    effect: Effect<EmployeesRequest>,
) -> bool {
    match event {
        EmployeesEvent::SubmitCreate { draft } => if state.pending || !draft_valid(draft) {
            refused_form(state, employee_form_message(), next) && effect is Nothing
        } else {
            &&& next.pending && next.error is None && next.selected == state.selected
            &&& next.flow matches EmployeesFlow::Creating { name } && name@ == draft_name(draft)
            &&& effect matches Effect::Send(EmployeesRequest::Add(a)) && a.first_name@ == trimmed(
                draft.first_name@,
            ) && a.last_name@ == trimmed(draft.last_name@) && a.title@ == trimmed(draft.title@)
                && a.employee_type@ == trimmed(draft.employee_type@) && opt_string_view(a.email)
                == spec_optional_text(draft.email@) && opt_string_view(a.phone) == spec_optional_text(
                draft.phone@,
            ) && a.hired is None && a.facility_ids@ == draft.facility_ids@
        },
        EmployeesEvent::SubmitSave { id, draft } => if state.pending || !draft_valid(draft) {
            refused_form(state, employee_form_message(), next) && effect is Nothing
        } else {
            &&& next.pending && next.error is None && next.selected == state.selected
            &&& next.flow matches EmployeesFlow::Saving { name } && name@ == draft_name(draft)
            &&& effect matches Effect::Send(EmployeesRequest::Update(u)) && u.employee_id == id
                && opt_string_view(u.first_name) == spec_optional_text(draft.first_name@) && opt_string_view(
                u.last_name,
            ) == spec_optional_text(draft.last_name@) && opt_string_view(u.title) == spec_optional_text(
                draft.title@,
            ) && opt_string_view(u.employee_type) == spec_optional_text(draft.employee_type@)
                && opt_string_view(u.email) == spec_optional_text(draft.email@) && opt_string_view(u.phone)
                == spec_optional_text(draft.phone@) && u.terminated is None && (u.facility_ids matches Some(
                ids,
            ) && ids@ == draft.facility_ids@)
        },
        EmployeesEvent::SetActive { employee, can_manage, active } => if state.pending || !can_manage {
            next == state && effect is Nothing
        } else {
            &&& next.pending && next.error is None && next.selected == state.selected
            &&& next.flow matches EmployeesFlow::ChangingState { id, name, active: a } && id == employee.id
                && name@ == spec_employee_name(employee) && a == active
            &&& effect matches Effect::Send(EmployeesRequest::State { path, employee_id }) && path@
                == "/api/employees"@ + (if active {
                "/restore"@
            } else {
                "/delete"@
            }) && employee_id == employee.id
        },
        EmployeesEvent::Created(answer) => match state.flow {
            EmployeesFlow::Creating { name } => match answer {
                Ok(_) => next == finished(state, EmployeesFlow::Idle, state.selected) && (effect matches Effect::Created(m)
                    && m@ == name@ + " added to the workforce."@),
                Err(e) => stopped_by(state, Err(e), Seq::empty(), EmployeesFlow::Idle, next, effect),
            },
            _ => next == state && effect is Nothing,
        },
        EmployeesEvent::Answered(answer) => match state.flow {
            EmployeesFlow::Saving { name } => if answer == Ok::<bool, ApiError>(true) {
                next == finished(state, EmployeesFlow::Idle, state.selected) && (effect matches Effect::Succeeded(m)
                    && m@ == name@ + " updated."@)
            } else {
                stopped_by(state, answer, "The selected employee no longer exists."@, EmployeesFlow::Idle, next, effect)
            },
            EmployeesFlow::ChangingState { id, name, active } => if answer == Ok::<bool, ApiError>(true) {
                &&& next == finished(
                    state,
                    EmployeesFlow::Idle,
                    if !active && state.selected == Some(id) {
                        None
                    } else {
                        state.selected
                    },
                )
                &&& effect matches Effect::Succeeded(m) && m@ == name@ + (if active {
                    " reactivated."@
                } else {
                    " deactivated."@
                })
            } else {
                stopped_by(
                    state,
                    answer,
                    "The selected employee is no longer manageable."@,
                    EmployeesFlow::Idle,
                    next,
                    effect,
                )
            },
            _ => next == state && effect is Nothing,
        },
    }
}

/// Joins a first and a last name with a space.
fn joined_name(first: &str, last: &str) -> (r: String)
    ensures
        r@ == first@ + " "@ + last@,
{
    let mut out = String::from_str(first);
    out.append(" ");
    out.append(last);
    out
}

/// Takes one step of the workforce workbench.
pub fn employees_step(state: Workbench<EmployeesFlow>, event: EmployeesEvent) -> (r: (
    Workbench<EmployeesFlow>,
    Effect<EmployeesRequest>,
))
    ensures
        spec_employees_step(state, event, r.0, r.1),
{
    match event {
        EmployeesEvent::SubmitCreate { draft } => {
            if state.pending || !draft.valid() {
                return (
                    Workbench {
                        error: Some(String::from_str("Enter a name, title, employee type, and at least one facility.")),
                        ..state
                    },
                    Effect::Nothing,
                );
            }
            match add_employee_request(&draft) {
                Ok(a) => {
                    let name = joined_name(a.first_name.as_str(), a.last_name.as_str());
                    (
                        Workbench { pending: true, error: None, flow: EmployeesFlow::Creating { name }, ..state },
                        Effect::Send(EmployeesRequest::Add(a)),
                    )
                },
                Err(m) => (Workbench { error: Some(m), ..state }, Effect::Nothing),
            }
        },
        EmployeesEvent::SubmitSave { id, draft } => {
            if state.pending || !draft.valid() {
                return (
                    Workbench {
                        error: Some(String::from_str("Enter a name, title, employee type, and at least one facility.")),
                        ..state
                    },
                    Effect::Nothing,
                );
            }
            let name = joined_name(trim(draft.first_name.as_str()), trim(draft.last_name.as_str()));
            let first_name = optional_text(draft.first_name.as_str());
            let last_name = optional_text(draft.last_name.as_str());
            let title = optional_text(draft.title.as_str());
            let employee_type = optional_text(draft.employee_type.as_str());
            let email = optional_text(draft.email.as_str());
            let phone = optional_text(draft.phone.as_str());
            let EmployeeDraft { facility_ids, .. } = draft;
            (
                Workbench { pending: true, error: None, flow: EmployeesFlow::Saving { name }, ..state },
                Effect::Send(
                    EmployeesRequest::Update(
                        EmployeeUpdate {
                            employee_id: id,
                            first_name,
                            last_name,
                            title,
                            employee_type,
                            email,
                            phone,
                            terminated: None,
                            facility_ids: Some(facility_ids),
                        },
                    ),
                ),
            )
        },
        EmployeesEvent::SetActive { employee, can_manage, active } => {
            if state.pending || !can_manage {
                return (state, Effect::Nothing);
            }
            let name = employee_name(&employee);
            let path = state_change_path("employees", active);
            proof {
                reveal_strlit("employees");
                reveal_strlit("/api/");
                reveal_strlit("/api/employees");
                assert("/api/"@ + "employees"@ =~= "/api/employees"@);
            }
            (
                Workbench {
                    pending: true,
                    error: None,
                    flow: EmployeesFlow::ChangingState { id: employee.id, name, active },
                    ..state
                },
                Effect::Send(EmployeesRequest::State { path, employee_id: employee.id }),
            )
        },
        EmployeesEvent::Created(answer) => {
            let Workbench { pending, error, selected, flow } = state;
            let state = Workbench { pending, error, selected, flow: EmployeesFlow::Idle };
            match flow {
                EmployeesFlow::Creating { name } => match answer {
                    Ok(_) => {
                        let mut notice = name;
                        notice.append(" added to the workforce.");
                        (Workbench { pending: false, ..state }, Effect::Created(notice))
                    },
                    Err(e) => {
                        let ghost ge = e;
                        let s = settle_created(Err(e));
                        halt(state, s, EmployeesFlow::Idle, Ghost(Err::<bool, ApiError>(ge)), Ghost(Seq::empty()))
                    },
                },
                other => (Workbench { flow: other, ..state }, Effect::Nothing),
            }
        },
        EmployeesEvent::Answered(answer) => {
            let Workbench { pending, error, selected, flow } = state;
            let state = Workbench { pending, error, selected, flow: EmployeesFlow::Idle };
            let ghost ans = answer;
            match flow {
                EmployeesFlow::Saving { name } => {
                    let s = settle(answer, "The selected employee no longer exists.");
                    match s {
                        Settled::Accepted => (Workbench { pending: false, ..state }, Effect::Succeeded(updated_notice(name.as_str()))),
                        _ => halt(state, s, EmployeesFlow::Idle, Ghost(ans), Ghost("The selected employee no longer exists."@)),
                    }
                },
                EmployeesFlow::ChangingState { id, name, active } => {
                    let s = settle(answer, "The selected employee is no longer manageable.");
                    match s {
                        Settled::Accepted => {
                            let selected = selection_after_state_change(state.selected, id, active);
                            (Workbench { pending: false, selected, ..state }, Effect::Succeeded(state_notice(name.as_str(), active)))
                        },
                        _ => halt(
                            state,
                            s,
                            EmployeesFlow::Idle,
                            Ghost(ans),
                            Ghost("The selected employee is no longer manageable."@),
                        ),
                    }
                },
                other => (Workbench { flow: other, ..state }, Effect::Nothing),
            }
        },
    }
}

} // verus!

verus! {

/// Rows sorted by a column come in the column's order, by name, title or type ignoring ASCII case, by the number of facilities, or with active employees first; ties keep
/// no particular order here.
pub proof fn lemma_employees_sorted_by_column(
    rows: Seq<Employee>,
    key: EmployeeSort,
    direction: crate::sorting::SortDirection,
)
    requires
        rows_sorted(rows, employee_key(key), direction),
    ensures
        forall|i: int, j: int|
            #![trigger rows[i], rows[j]]
            0 <= i < j < rows.len() ==> match key {
                EmployeeSort::Name => {
                    let (a, b) = (rows[i], rows[j]);
                    texts_in_order(ascii_lowercase(spec_employee_name(a)), ascii_lowercase(spec_employee_name(b)), direction)
                },
                EmployeeSort::Title => {
                    let (a, b) = (rows[i], rows[j]);
                    texts_in_order(ascii_lowercase(a.title@), ascii_lowercase(b.title@), direction)
                },
                EmployeeSort::Type => {
                    let (a, b) = (rows[i], rows[j]);
                    texts_in_order(ascii_lowercase(a.employee_type@), ascii_lowercase(b.employee_type@), direction)
                },
                EmployeeSort::Facilities => {
                    let (a, b) = (rows[i], rows[j]);
                    counts_in_order(a.facility_ids@.len() as int, b.facility_ids@.len() as int, direction)
                },
                EmployeeSort::Status => {
                    let (a, b) = (rows[i], rows[j]);
                    flags_in_order(a.deleted is Some, b.deleted is Some, direction)
                },
            },
{
    crate::sorting::lemma_sorted_rows_values_in_order(rows, employee_key(key), direction);
    assert forall|i: int, j: int| 0 <= i < j < rows.len() implies #[trigger] crate::sorting::values_in_order(
        employee_key(key)(rows[i]).0,
        employee_key(key)(#[trigger] rows[j]).0,
        direction,
    ) by {}
}

} // verus!

verus! {

/// The filter box keeps exactly the rows that hold the query, ignoring the
/// row's ASCII case, in its name, title, type or email; an empty query keeps every row.
pub proof fn lemma_employees_filter_matches(query: Seq<char>)
    ensures
        forall|x: Employee| #[trigger] employee_shown(query, x) <==> (
            query.len() == 0
            || crate::text::text_contains(ascii_lowercase(spec_employee_name(x)), query)
            || crate::text::text_contains(ascii_lowercase(x.title@), query)
            || crate::text::text_contains(ascii_lowercase(x.employee_type@), query)
            || crate::text::text_contains(ascii_lowercase(text_or_empty(x.email)), query)
        ),
{
}

} // verus!

verus! {

/// While a command is in flight, another form or button changes nothing
/// and posts nothing.
pub proof fn lemma_employees_one_command_at_a_time(
    state: Workbench<EmployeesFlow>,
    event: EmployeesEvent,
    next: Workbench<EmployeesFlow>,
    effect: Effect<EmployeesRequest>,
)
    requires
        spec_employees_step(state, event, next, effect),
        state.pending,
        event is SubmitCreate || event is SubmitSave || event is SetActive,
    ensures
        effect is Nothing,
        next.pending,
        next.flow == state.flow,
        next.selected == state.selected,
{
}

/// A command reports success only on an accepted answer, and then nothing
/// is pending.
pub proof fn lemma_employees_success_only_when_accepted(
    state: Workbench<EmployeesFlow>,
    event: EmployeesEvent,
    next: Workbench<EmployeesFlow>,
    effect: Effect<EmployeesRequest>,
)
    requires
        spec_employees_step(state, event, next, effect),
        effect is Succeeded || effect is Created || effect is LinesChanged,
    ensures
        !next.pending,
        next.error == state.error,
        (event is Answered && event->Answered_0 == Ok::<bool, ApiError>(true)) || (event is Created && event->Created_0 is Ok),
{
}

/// A refused post stops the command and shows why: nothing is pending,
/// and the message in the notice is the one under the forms.
pub proof fn lemma_employees_refusal_is_shown(
    state: Workbench<EmployeesFlow>,
    next: Workbench<EmployeesFlow>,
    effect: Effect<EmployeesRequest>,
)
    requires
        spec_employees_step(state, EmployeesEvent::Answered(Ok(false)), next, effect),
        state.flow is Saving || state.flow is ChangingState,
    ensures
        !next.pending,
        next.flow is Idle,
        next.selected == state.selected,
        effect matches Effect::Failed(m) && next.error matches Some(e) && e@ == m@,
{
}

/// An ended session signs out, whatever the command was doing, with
/// nothing left pending.
pub proof fn lemma_employees_sign_out(
    state: Workbench<EmployeesFlow>,
    error: ApiError,
    next: Workbench<EmployeesFlow>,
    effect: Effect<EmployeesRequest>,
)
    requires
        spec_employees_step(state, EmployeesEvent::Answered(Err(error)), next, effect),
        error.unauthorized,
        state.flow is Saving || state.flow is ChangingState,
    ensures
        effect is SignOut,
        !next.pending,
        next.flow is Idle,
        next.error == state.error,
{
}

/// Another error stops the command and shows the error's message.
pub proof fn lemma_employees_error_is_shown(
    state: Workbench<EmployeesFlow>,
    error: ApiError,
    next: Workbench<EmployeesFlow>,
    effect: Effect<EmployeesRequest>,
)
    requires
        spec_employees_step(state, EmployeesEvent::Answered(Err(error)), next, effect),
        !error.unauthorized,
        state.flow is Saving || state.flow is ChangingState,
    ensures
        !next.pending,
        next.flow is Idle,
        effect matches Effect::Failed(m) && m@ == error.message@,
        next.error matches Some(e) && e@ == error.message@,
{
}

/// Deactivating the selected row unselects it; any other accepted change
/// of state leaves the selection.
pub proof fn lemma_employees_deactivation_unselects(
    state: Workbench<EmployeesFlow>,
    next: Workbench<EmployeesFlow>,
    effect: Effect<EmployeesRequest>,
)
    requires
        spec_employees_step(state, EmployeesEvent::Answered(Ok(true)), next, effect),
        state.flow is ChangingState,
    ensures
        next.selected == (if !state.flow->ChangingState_active && state.selected == Some(
            state.flow->ChangingState_id,
        ) {
            None
        } else {
            state.selected
        }),
{
}

} // verus!

verus! {

/// An employee's name holds the first name, a space and the last name as
/// they are, when neither begins or ends the whole with white space.
pub proof fn lemma_employee_name_joins_names(e: Employee)
    requires
        e.first_name@.len() > 0,
        e.last_name@.len() > 0,
        !crate::text::is_white_space(e.first_name@[0]),
        !crate::text::is_white_space(e.last_name@.last()),
    ensures
        spec_employee_name(e) == e.first_name@ + " "@ + e.last_name@,
{
    reveal_strlit(" ");
    let s = e.first_name@ + " "@ + e.last_name@;
    assert(s[0] == e.first_name@[0]);
    assert(s.last() == e.last_name@.last());
    assert(crate::text::trim_start(s) == s);
    assert(crate::text::trim_end(s) == s);
}

} // verus!
