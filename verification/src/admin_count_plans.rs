//! The count plans workbench: labels of locations and items, the filter
//! and sort of its table, and the checks of its forms.
use vstd::prelude::*;
use crate::sorting::{counts_in_order, flags_in_order, texts_in_order};
use crate::administration::{
    optional_text, selected_id, selection_after_state_change, spec_optional_text, spec_selected_id,
    state_change_path, state_notice,
};
use crate::api::ApiError;
use crate::url::opt_string_view;
use crate::workbench::{
    created_notice, finished, halt, refused_form, settle, settle_created, stopped_by, updated_notice,
    Effect, Settled, Workbench,
};
use crate::listing::{field_matches, matches_optional, text_or_empty, SortSpec};
use crate::sorting::{field_key, rows_sorted, sort_by_keys, SortField, SortValue};
use crate::text::{
    ascii_lowercase, decimal, parse_i64, parsed_i64, push_i64, to_ascii_lowercase, trim, trimmed,
};

verus! {

/// A count plan (an audit wave) with the fields its table reads.
#[derive(Clone, Debug)]
pub struct AuditWave {
    pub id: i64,
    pub name: Option<String>,
    pub description: Option<String>,
    pub facility_id: i64,
    pub inventory_owner_id: i64,
    /// When the plan was deactivated, if it was.
    pub deleted: Option<String>,
}

/// A storage location, as far as its label needs it.
#[derive(Clone, Debug)]
pub struct Location {
    pub id: i64,
    pub name: Option<String>,
    pub barcode: Option<String>,
}

/// An item, as far as its label needs it.
#[derive(Clone, Debug)]
pub struct Item {
    pub id: i64,
    /// The names of the item's SKUs, in order.
    pub sku_names: Vec<String>,
    pub description: Option<String>,
}

/// The label of a location: its name, else its barcode, else its number.
pub open spec fn spec_location_label(l: Location) -> Seq<char> {
    match (l.name, l.barcode) {
        (Some(n), _) => n@,
        (None, Some(b)) => b@,
        (None, None) => "Location #"@ + decimal(l.id as int),
    }
}

/// Renders the label of a location.
pub fn location_label(l: &Location) -> (r: String)
    ensures
        r@ == spec_location_label(*l),
{
    match (&l.name, &l.barcode) {
        (Some(n), _) => String::from_str(n.as_str()),
        (None, Some(b)) => String::from_str(b.as_str()),
        (None, None) => {
            let mut out = String::from_str("Location #");
            push_i64(&mut out, l.id);
            out
        },
    }
}

/// The label of an item: its first SKU's name, else its description, else
/// its number.
pub open spec fn spec_item_label(i: Item) -> Seq<char> {
    if i.sku_names@.len() > 0 {
        i.sku_names@[0]@
    } else {
        match i.description {
            Some(d) => d@,
            None => "Item #"@ + decimal(i.id as int),
        }
    }
}

/// Renders the label of an item.
pub fn item_label(i: &Item) -> (r: String)
    ensures
        r@ == spec_item_label(*i),
{
    if i.sku_names.len() > 0 {
        String::from_str(i.sku_names[0].as_str())
    } else {
        match &i.description {
            Some(d) => String::from_str(d.as_str()),
            None => {
                let mut out = String::from_str("Item #");
                push_i64(&mut out, i.id);
                out
            },
        }
    }
}

/// The columns the count plans table sorts by.
#[derive(Clone, Copy, Debug, PartialEq, Eq, Structural)]
pub enum PlanSort {
    Name,
    Facility,
    Client,
    Status,
}

/// The value a plan is sorted by in a column: its name (empty when absent)
/// ignoring ASCII case, its facility or client id, or whether it is
/// inactive.
pub open spec fn plan_value(p: AuditWave, key: PlanSort) -> SortValue {
    match key {
        PlanSort::Name => SortValue::Text(ascii_lowercase(text_or_empty(p.name))),
        PlanSort::Facility => SortValue::Number(p.facility_id as int),
        PlanSort::Client => SortValue::Number(p.inventory_owner_id as int),
        PlanSort::Status => SortValue::Flag(p.deleted is Some),
    }
}

/// The key a plan is sorted by: its column value, then its id.
pub open spec fn plan_key(key: PlanSort) -> spec_fn(AuditWave) -> (SortValue, int) {
    |p: AuditWave| (plan_value(p, key), p.id as int)
}

fn plan_field(p: &AuditWave, key: PlanSort) -> (f: SortField)
    ensures
        f.value() == plan_value(*p, key),
{
    match key {
        PlanSort::Name => match &p.name {
            Some(n) => SortField::Text(to_ascii_lowercase(n.as_str())),
            None => {
                proof {
                    reveal_strlit("");
                    assert(ascii_lowercase(""@) =~= ascii_lowercase(Seq::<char>::empty()));
                }
                SortField::Text(to_ascii_lowercase(""))
            },
        },
        PlanSort::Facility => SortField::Number(p.facility_id),
        PlanSort::Client => SortField::Number(p.inventory_owner_id),
        PlanSort::Status => SortField::Flag(p.deleted.is_some()),
    }
}

/// Sorts count plans by a column, then by id, in the given direction; every plan stays.
pub fn sort_plans(rows: &mut Vec<AuditWave>, spec: SortSpec<PlanSort>)
    ensures
        final(rows)@.to_multiset() == old(rows)@.to_multiset(),
        rows_sorted(final(rows)@, plan_key(spec.key), spec.direction),
{
    let mut taken: Vec<AuditWave> = Vec::new();
    std::mem::swap(&mut taken, rows);
    let mut keys: Vec<(SortField, i64)> = Vec::new();
    let mut i: usize = 0;
    while i < taken.len()
        invariant
            i <= taken@.len(),
            keys@.len() == i,
            forall|j: int| 0 <= j < i ==> field_key(#[trigger] keys@[j]) == (plan_key(spec.key))(taken@[j]),
        decreases taken@.len() - i,
    {
        let field = plan_field(&taken[i], spec.key);
        keys.push((field, taken[i].id));
        i = i + 1;
    }
    let sorted = sort_by_keys(taken, keys, spec.direction, Ghost(plan_key(spec.key)));
    *rows = sorted;
}

/// Whether a plan shows for a query: an empty query shows every plan,
/// another one the plans whose name or description holds it.
pub open spec fn plan_shown(query: Seq<char>, p: AuditWave) -> bool {
    query.len() == 0 || field_matches(query, text_or_empty(p.name)) || field_matches(query, text_or_empty(p.description))
}

/// Tells whether a plan shows for a query.
pub fn plan_matches(query: &str, p: &AuditWave) -> (b: bool)
    ensures
        b == plan_shown(query@, *p),
{
    query.unicode_len() == 0 || matches_optional(query, &p.name) || matches_optional(query, &p.description)
}

/// Keeps the count plans that show for a query, in their order.
pub fn filter_plans(rows: Vec<AuditWave>, query: &str) -> (r: Vec<AuditWave>)
    ensures
        r@ == rows@.filter(|x: AuditWave| plan_shown(query@, x)),
{
    let mut kept: Vec<AuditWave> = Vec::new();
    let mut rest = rows;
    let ghost all = rest@;
    let mut i: usize = 0;
    proof {
        reveal(Seq::filter);
        assert(all.take(0) =~= Seq::<AuditWave>::empty());
    }
    let n = rest.len();
    while i < n
        invariant
            n == all.len(),
            i <= n,
            rest@ == all.skip(i as int),
            kept@ == all.take(i as int).filter(|x: AuditWave| plan_shown(query@, x)),
        decreases n - i,
    {
        proof {
            reveal(Seq::filter);
            assert(all.take(i + 1).drop_last() =~= all.take(i as int));
            assert(all.skip(i as int)[0] == all[i as int]);
        }
        let row = rest.remove(0);
        proof {
            assert(rest@ =~= all.skip(i + 1));
        }
        if plan_matches(query, &row) {
            kept.push(row);
        }
        i = i + 1;
    }
    proof {
        assert(all.take(n as int) =~= all);
    }
    kept
}

/// A new count plan as the create form submits it.
#[derive(Clone, Debug)]
pub struct AddAuditWave {
    pub facility_id: i64,
    pub inventory_owner_id: i64,
    pub name: String,
    pub description: Option<String>,
}

/// The new plan that the create form submits: a facility, then a client,
/// must be chosen, and the trimmed name must not be blank (nor may another
/// command be pending).
pub fn plan_request(
    facility: &str,
    client: &str,
    name: &str,
    description: &str,
    pending: bool,
) -> (r: Result<AddAuditWave, String>)
    ensures
        match (spec_selected_id(facility@), spec_selected_id(client@)) {
            (None, _) => r matches Err(m) && m@ == "Choose a facility."@,
            (Some(_), None) => r matches Err(m) && m@ == "Choose a client."@,
            (Some(f), Some(c)) => if trimmed(name@).len() == 0 || pending {
                r matches Err(m) && m@ == "Enter a plan name."@
            } else {
                r matches Ok(a) && a.facility_id == f && a.inventory_owner_id == c && a.name@
                    == trimmed(name@) && match a.description {
                    Some(t) => spec_optional_text(description@) == Some(t@),
                    None => spec_optional_text(description@) is None,
                }
            },
        },
{
    let facility_id = match selected_id(facility) {
        Some(f) => f,
        None => return Err(String::from_str("Choose a facility.")),
    };
    let inventory_owner_id = match selected_id(client) {
        Some(c) => c,
        None => return Err(String::from_str("Choose a client.")),
    };
    let n = trim(name);
    if n.unicode_len() == 0 || pending {
        return Err(String::from_str("Enter a plan name."));
    }
    Ok(
        AddAuditWave {
            facility_id,
            inventory_owner_id,
            name: String::from_str(n),
            description: optional_text(description),
        },
    )
}

/// A counted line of a plan as its form submits it.
#[derive(Clone, Debug)]
pub struct CountLine {
    pub location_id: i64,
    pub item_id: i64,
    pub count: i64,
    pub uom: String,
}

/// The counted line that the count form submits: a location, then an item,
/// must be chosen; the count must read as a whole number, not negative,
/// and the trimmed unit of measure must not be blank (nor may another
/// command be pending).
pub fn count_line(
    location: &str,
    item: &str,
    quantity: &str,
    uom: &str,
    pending: bool,
) -> (r: Result<CountLine, String>)
    ensures
        match (spec_selected_id(location@), spec_selected_id(item@), parsed_i64(quantity@)) {
            (None, _, _) => r matches Err(m) && m@ == "Choose a location."@,
            (Some(_), None, _) => r matches Err(m) && m@ == "Choose an item."@,
            (Some(_), Some(_), None) => r matches Err(m) && m@ == "Enter a whole-number count."@,
            (Some(l), Some(i), Some(q)) => if q < 0 || trimmed(uom@).len() == 0 || pending {
                r matches Err(m) && m@ == "Count cannot be negative and UOM is required."@
            } else {
                r matches Ok(c) && c.location_id == l && c.item_id == i && c.count == q && c.uom@
                    == trimmed(uom@)
            },
        },
{
    let location_id = match selected_id(location) {
        Some(l) => l,
        None => return Err(String::from_str("Choose a location.")),
    };
    let item_id = match selected_id(item) {
        Some(i) => i,
        None => return Err(String::from_str("Choose an item.")),
    };
    let count = match parse_i64(quantity) {
        Some(q) => q,
        None => return Err(String::from_str("Enter a whole-number count.")),
    };
    let u = trim(uom);
    if count < 0 || u.unicode_len() == 0 || pending {
        return Err(String::from_str("Count cannot be negative and UOM is required."));
    }
    Ok(CountLine { location_id, item_id, count, uom: String::from_str(u) })
}

/// What saving the count form sends.
#[derive(Clone, Debug)]
pub enum CountSave {
    /// A new counted line of the plan.
    Add {
        audit_wave_id: i64,
        location_id: i64,
        item_id: i64,
        uom: String,
        lot: Option<String>,
        serial: Option<String>,
        count: i64,
    },
    /// A new count for a line being edited, expecting its revision.
    Update { audit_location_count_id: i64, expected_revision: u64, count: i64 },
}

/// The command that saving the count form sends: the new count of the line
/// being edited, else a new line with its lot and serial (blank ones not
/// sent).
pub fn count_save(
    editing: Option<(i64, u64)>,
    audit_wave_id: i64,
    line: CountLine,
    lot: &str,
    serial: &str,
) -> (r: CountSave)
    ensures
        match editing {
            Some((id, revision)) => r matches CountSave::Update {
                audit_location_count_id,
                expected_revision,
                count,
            } && audit_location_count_id == id && expected_revision == revision && count == line.count,
            None => r matches CountSave::Add {
                audit_wave_id: w,
                location_id,
                item_id,
                uom,
                lot: l,
                serial: s,
                count,
            } && w == audit_wave_id && location_id == line.location_id && item_id == line.item_id
                && uom@ == line.uom@ && count == line.count && (match l {
                Some(t) => spec_optional_text(lot@) == Some(t@),
                None => spec_optional_text(lot@) is None,
            }) && (match s {
                Some(t) => spec_optional_text(serial@) == Some(t@),
                None => spec_optional_text(serial@) is None,
            }),
        },
{
    match editing {
        Some((id, revision)) => CountSave::Update {
            audit_location_count_id: id,
            expected_revision: revision,
            count: line.count,
        },
        None => CountSave::Add {
            audit_wave_id,
            location_id: line.location_id,
            item_id: line.item_id,
            uom: line.uom,
            lot: optional_text(lot),
            serial: optional_text(serial),
            count: line.count,
        },
    }
}

/// The notice after a count line was restored or removed.
pub fn count_line_notice(active: bool) -> (r: &'static str)
    ensures
        r@ == if active {
            "Count line restored."@
        } else {
            "Count line removed."@
        },
{
    if active {
        "Count line restored."
    } else {
        "Count line removed."
    }
}

} // verus!

verus! {

/// Sorting count plans descending by a column gives exactly the reverse of
/// sorting them ascending by it, when no two share an id; and in either
/// order each row comes strictly before the next.
pub proof fn lemma_plans_descending_reverses_ascending(
    rows: Seq<AuditWave>,
    ascending: Seq<AuditWave>,
    descending: Seq<AuditWave>,
    key: PlanSort,
)
    requires
        forall|i: int, j: int| 0 <= i < j < rows.len() ==> #[trigger] rows[i].id != #[trigger] rows[j].id,
        ascending.to_multiset() == rows.to_multiset(),
        descending.to_multiset() == rows.to_multiset(),
        rows_sorted(ascending, plan_key(key), crate::sorting::SortDirection::Ascending),
        rows_sorted(descending, plan_key(key), crate::sorting::SortDirection::Descending),
    ensures
        descending == ascending.reverse(),
        crate::sorting::strictly_sorted(ascending, plan_key(key), crate::sorting::SortDirection::Ascending),
        crate::sorting::strictly_sorted(descending, plan_key(key), crate::sorting::SortDirection::Descending),
{
    crate::sorting::lemma_descending_reverses_ascending(rows, ascending, descending, plan_key(key));
    crate::sorting::lemma_sorted_distinct_is_strict(
        rows,
        ascending,
        plan_key(key),
        crate::sorting::SortDirection::Ascending,
    );
    crate::sorting::lemma_sorted_distinct_is_strict(
        rows,
        descending,
        plan_key(key),
        crate::sorting::SortDirection::Descending,
    );
}

} // verus!

verus! {

/// The name a plan goes by: its name, or `Plan #` and its id.
pub open spec fn spec_plan_label(name: Option<String>, id: i64) -> Seq<char> {
    match name {
        Some(n) => n@,
        None => "Plan #"@ + decimal(id as int),
    }
}

/// The name a plan goes by.
pub fn plan_label(name: &Option<String>, id: i64) -> (r: String)
    ensures
        r@ == spec_plan_label(*name, id),
{
    match name {
        Some(n) => n.clone(),
        None => {
            let mut out = String::from_str("Plan #");
            push_i64(&mut out, id);
            out
        },
    }
}

/// The update of a plan's name and description.
#[derive(Clone, Debug)]
pub struct AuditWaveUpdate {
    pub audit_wave_id: i64,
    pub name: Option<String>,
    pub description: Option<String>,
}

/// What a command of the count plans workbench is doing.
#[derive(Clone, Debug)]
pub enum PlansFlow {
    Idle,
    Creating { name: String },
    Saving { name: String },
    ChangingState { id: i64, name: String, active: bool },
    /// A count line is being saved: a new one (answered with its id) or a
    /// new count for the line being edited.
    SavingCount { adding: bool },
    ChangingCount { active: bool },
}

/// The posts of the count plans workbench.
#[derive(Clone, Debug)]
pub enum PlansRequest {
    /// `/api/audits/add`, answered with the new id.
    Add(AddAuditWave),
    /// `/api/audits/update`.
    Update(AuditWaveUpdate),
    /// The restore or delete endpoint, for one plan.
    State { path: String, audit_wave_id: i64 },
    /// `/api/audits/counts/add` (answered with the new id) or
    /// `/api/audits/counts/update`.
    SaveCount(CountSave),
    /// The restore or delete endpoint of count lines, for one line at a revision.
    CountState { path: String, audit_location_count_id: i64, expected_revision: u64 },
}

/// The count form as it is submitted.
#[derive(Clone, Debug)]
pub struct CountForm {
    pub location: String,
    pub item: String,
    pub quantity: String,
    pub uom: String,
    pub lot: String,
    pub serial: String,
    /// The line being edited and its revision, if one is.
    pub editing: Option<(i64, u64)>,
}

/// What happens in the count plans workbench.
#[derive(Debug)]
pub enum PlansEvent {
    SubmitCreate { facility: String, client: String, name: String, description: String },
    SubmitSave { id: i64, name: String, description: String },
    SetActive { id: i64, name: Option<String>, active: bool },
    SubmitCount { audit_wave_id: i64, form: CountForm },
    SetCountActive { audit_location_count_id: i64, revision: u64, active: bool },
    /// The answer to a post that creates a plan or a count line.
    Created(Result<i64, ApiError>),
    /// The answer to any other post.
    Answered(Result<bool, ApiError>),
}

/// The message when a count line changed since it was read.
pub open spec fn count_changed_message() -> Seq<char> {
    "The count line changed elsewhere. Refresh and try again."@
}

/// One step of the count plans workbench. The create, save and count forms
/// are refused while a command is in flight, with their checks' message;
/// the row buttons are ignored then. A refused post stops the command with
/// its message; an accepted one shows its notice and reloads the table
/// (deactivating the selected plan unselects it), or, for count lines,
/// reloads the plan's lines (a saved line empties the count form).
pub open spec fn spec_plans_step(
    state: Workbench<PlansFlow>,
    event: PlansEvent,
    next: Workbench<PlansFlow>,
    effect: Effect<PlansRequest>,
) -> bool {
    match event {
        PlansEvent::SubmitCreate { facility, client, name, description } => match (
            spec_selected_id(facility@),
            spec_selected_id(client@),
        ) {
            (None, _) => refused_form(state, "Choose a facility."@, next) && effect is Nothing,
            (Some(_), None) => refused_form(state, "Choose a client."@, next) && effect is Nothing,
            (Some(f), Some(c)) => if trimmed(name@).len() == 0 || state.pending {
                refused_form(state, "Enter a plan name."@, next) && effect is Nothing
            } else {
                &&& next.pending && next.error is None && next.selected == state.selected
                &&& next.flow matches PlansFlow::Creating { name: n } && n@ == trimmed(name@)
                &&& effect matches Effect::Send(PlansRequest::Add(a)) && a.facility_id == f
                    && a.inventory_owner_id == c && a.name@ == trimmed(name@) && opt_string_view(
                    a.description,
                ) == spec_optional_text(description@)
            },
        },
        PlansEvent::SubmitSave { id, name, description } => if trimmed(name@).len() == 0 || state.pending {
            refused_form(state, "Enter a plan name."@, next) && effect is Nothing
        } else {
            &&& next.pending && next.error is None && next.selected == state.selected
            &&& next.flow matches PlansFlow::Saving { name: n } && n@ == trimmed(name@)
            &&& effect matches Effect::Send(PlansRequest::Update(u)) && u.audit_wave_id == id && opt_string_view(
                u.name,
            ) == Some(trimmed(name@)) && opt_string_view(u.description) == spec_optional_text(description@)
        },
        PlansEvent::SetActive { id, name, active } => if state.pending {
            next == state && effect is Nothing
        } else {
            &&& next.pending && next.error is None && next.selected == state.selected
            &&& next.flow matches PlansFlow::ChangingState { id: i, name: n, active: a } && i == id && n@
                == spec_plan_label(name, id) && a == active
            &&& effect matches Effect::Send(PlansRequest::State { path, audit_wave_id }) && path@
                == "/api/audits"@ + (if active {
                "/restore"@
            } else {
                "/delete"@
            }) && audit_wave_id == id
        },
        PlansEvent::SubmitCount { audit_wave_id, form } => match (
            spec_selected_id(form.location@),
            spec_selected_id(form.item@),
            parsed_i64(form.quantity@),
        ) {
            (None, _, _) => refused_form(state, "Choose a location."@, next) && effect is Nothing,
            (Some(_), None, _) => refused_form(state, "Choose an item."@, next) && effect is Nothing,
            (Some(_), Some(_), None) => refused_form(state, "Enter a whole-number count."@, next)
                && effect is Nothing,
            (Some(l), Some(i), Some(q)) => if q < 0 || trimmed(form.uom@).len() == 0 || state.pending {
                refused_form(state, "Count cannot be negative and UOM is required."@, next)
                    && effect is Nothing
            } else {
                &&& next.pending && next.error is None && next.selected == state.selected
                &&& next.flow == PlansFlow::SavingCount { adding: form.editing is None }
                &&& effect matches Effect::Send(PlansRequest::SaveCount(c)) && match form.editing {
                    Some((id, revision)) => c matches CountSave::Update {
                        audit_location_count_id,
                        expected_revision,
                        count,
                    } && audit_location_count_id == id && expected_revision == revision && count == q,
                    None => c matches CountSave::Add {
                        audit_wave_id: w,
                        location_id,
                        item_id,
                        uom,
                        lot,
                        serial,
                        count,
                    } && w == audit_wave_id && location_id == l && item_id == i && uom@ == trimmed(
                        form.uom@,
                    ) && count == q && opt_string_view(lot) == spec_optional_text(form.lot@)
                        && opt_string_view(serial) == spec_optional_text(form.serial@),
                }
            },
        },
        PlansEvent::SetCountActive { audit_location_count_id, revision, active } => if state.pending {
            next == state && effect is Nothing
        } else {
            &&& next.pending && next.error is None && next.selected == state.selected
            &&& next.flow == PlansFlow::ChangingCount { active }
            &&& effect matches Effect::Send(
                PlansRequest::CountState { path, audit_location_count_id: i, expected_revision },
            ) && path@ == "/api/audits/counts"@ + (if active {
                "/restore"@
            } else {
                "/delete"@
            }) && i == audit_location_count_id && expected_revision == revision
        },
        PlansEvent::Created(answer) => match state.flow {
            PlansFlow::Creating { name } => match answer {
                Ok(_) => next == finished(state, PlansFlow::Idle, state.selected) && (effect matches Effect::Created(m)
                    && m@ == name@ + " created."@),
                Err(e) => stopped_by(state, Err(e), Seq::empty(), PlansFlow::Idle, next, effect),
            },
            PlansFlow::SavingCount { adding } => if adding {
                match answer {
                    Ok(_) => next == finished(state, PlansFlow::Idle, state.selected) && (effect matches Effect::LinesChanged {
                        notice,
                        clear_form,
                    } && notice@ == "Count line saved."@ && clear_form),
                    Err(e) => stopped_by(state, Err(e), Seq::empty(), PlansFlow::Idle, next, effect),
                }
            } else {
                next == state && effect is Nothing
            },
            _ => next == state && effect is Nothing,
        },
        PlansEvent::Answered(answer) => match state.flow {
            PlansFlow::Saving { name } => if answer == Ok::<bool, ApiError>(true) {
                next == finished(state, PlansFlow::Idle, state.selected) && (effect matches Effect::Succeeded(m)
                    && m@ == name@ + " updated."@)
            } else {
                stopped_by(state, answer, "The selected count plan no longer exists."@, PlansFlow::Idle, next, effect)
            },
            PlansFlow::ChangingState { id, name, active } => if answer == Ok::<bool, ApiError>(true) {
                &&& next == finished(
                    state,
                    PlansFlow::Idle,
                    if !active && state.selected == Some(id) {
                        None
                    } else {
                        state.selected
                    },
                )
                &&& effect matches Effect::Succeeded(m) && m@ == name@ + (if active {
                    " reactivated."@
                } else {
                    " deactivated."@
                })
            } else {
                stopped_by(state, answer, "The selected count plan no longer exists."@, PlansFlow::Idle, next, effect)
            },
            PlansFlow::SavingCount { adding } => if adding {
                next == state && effect is Nothing
            } else if answer == Ok::<bool, ApiError>(true) {
                next == finished(state, PlansFlow::Idle, state.selected) && (effect matches Effect::LinesChanged {
                    notice,
                    clear_form,
                } && notice@ == "Count line saved."@ && clear_form)
            } else {
                stopped_by(state, answer, count_changed_message(), PlansFlow::Idle, next, effect)
            },
            PlansFlow::ChangingCount { active } => if answer == Ok::<bool, ApiError>(true) {
                next == finished(state, PlansFlow::Idle, state.selected) && (effect matches Effect::LinesChanged {
                    notice,
                    clear_form,
                } && notice@ == (if active {
                    "Count line restored."@
                } else {
                    "Count line removed."@
                }) && !clear_form)
            } else {
                stopped_by(state, answer, count_changed_message(), PlansFlow::Idle, next, effect)
            },
            _ => next == state && effect is Nothing,
        },
    }
}

/// Takes one step of the count plans workbench.
pub fn plans_step(state: Workbench<PlansFlow>, event: PlansEvent) -> (r: (
    Workbench<PlansFlow>,
    Effect<PlansRequest>,
))
    ensures
        spec_plans_step(state, event, r.0, r.1),
{
    match event {
        PlansEvent::SubmitCreate { facility, client, name, description } => {
            match plan_request(facility.as_str(), client.as_str(), name.as_str(), description.as_str(), state.pending) {
                Err(m) => (Workbench { error: Some(m), ..state }, Effect::Nothing),
                Ok(a) => {
                    let n = a.name.clone();
                    (
                        Workbench { pending: true, error: None, flow: PlansFlow::Creating { name: n }, ..state },
                        Effect::Send(PlansRequest::Add(a)),
                    )
                },
            }
        },
        PlansEvent::SubmitSave { id, name, description } => {
            let n = trim(name.as_str());
            if n.unicode_len() == 0 || state.pending {
                return (Workbench { error: Some(String::from_str("Enter a plan name.")), ..state }, Effect::Nothing);
            }
            let kept = String::from_str(n);
            (
                Workbench { pending: true, error: None, flow: PlansFlow::Saving { name: kept }, ..state },
                Effect::Send(
                    PlansRequest::Update(
                        AuditWaveUpdate {
                            audit_wave_id: id,
                            name: Some(String::from_str(n)),
                            description: optional_text(description.as_str()),
                        },
                    ),
                ),
            )
        },
        PlansEvent::SetActive { id, name, active } => {
            if state.pending {
                return (state, Effect::Nothing);
            }
            let label = plan_label(&name, id);
            let path = state_change_path("audits", active);
            proof {
                reveal_strlit("audits");
                reveal_strlit("/api/");
                reveal_strlit("/api/audits");
                assert("/api/"@ + "audits"@ =~= "/api/audits"@);
            }
            (
                Workbench { pending: true, error: None, flow: PlansFlow::ChangingState { id, name: label, active }, ..state },
                Effect::Send(PlansRequest::State { path, audit_wave_id: id }),
            )
        },
        PlansEvent::SubmitCount { audit_wave_id, form } => {
            let CountForm { location, item, quantity, uom, lot, serial, editing } = form;
            match count_line(location.as_str(), item.as_str(), quantity.as_str(), uom.as_str(), state.pending) {
                Err(m) => (Workbench { error: Some(m), ..state }, Effect::Nothing),
                Ok(line) => {
                    let adding = editing.is_none();
                    let save = count_save(editing, audit_wave_id, line, lot.as_str(), serial.as_str());
                    (
                        Workbench { pending: true, error: None, flow: PlansFlow::SavingCount { adding }, ..state },
                        Effect::Send(PlansRequest::SaveCount(save)),
                    )
                },
            }
        },
        PlansEvent::SetCountActive { audit_location_count_id, revision, active } => {
            if state.pending {
                return (state, Effect::Nothing);
            }
            let path = if active {
                String::from_str("/api/audits/counts/restore")
            } else {
                String::from_str("/api/audits/counts/delete")
            };
            proof {
                reveal_strlit("/api/audits/counts/restore");
                reveal_strlit("/api/audits/counts/delete");
                reveal_strlit("/api/audits/counts");
                reveal_strlit("/restore");
                reveal_strlit("/delete");
                assert("/api/audits/counts"@ + "/restore"@ =~= "/api/audits/counts/restore"@);
                assert("/api/audits/counts"@ + "/delete"@ =~= "/api/audits/counts/delete"@);
            }
            (
                Workbench { pending: true, error: None, flow: PlansFlow::ChangingCount { active }, ..state },
                Effect::Send(
                    PlansRequest::CountState { path, audit_location_count_id, expected_revision: revision },
                ),
            )
        },
        PlansEvent::Created(answer) => {
            let Workbench { pending, error, selected, flow } = state;
            let state = Workbench { pending, error, selected, flow: PlansFlow::Idle };
            match flow {
                PlansFlow::Creating { name } => match answer {
                    Ok(_) => (Workbench { pending: false, ..state }, Effect::Created(created_notice(name.as_str()))),
                    Err(e) => {
                        let ghost ge = e;
                        let s = settle_created(Err(e));
                        halt(state, s, PlansFlow::Idle, Ghost(Err::<bool, ApiError>(ge)), Ghost(Seq::empty()))
                    },
                },
                PlansFlow::SavingCount { adding } => {
                    if !adding {
                        return (Workbench { flow: PlansFlow::SavingCount { adding }, ..state }, Effect::Nothing);
                    }
                    match answer {
                        Ok(_) => (
                            Workbench { pending: false, ..state },
                            Effect::LinesChanged { notice: String::from_str("Count line saved."), clear_form: true },
                        ),
                        Err(e) => {
                            let ghost ge = e;
                            let s = settle_created(Err(e));
                            halt(state, s, PlansFlow::Idle, Ghost(Err::<bool, ApiError>(ge)), Ghost(Seq::empty()))
                        },
                    }
                },
                other => (Workbench { flow: other, ..state }, Effect::Nothing),
            }
        },
        PlansEvent::Answered(answer) => {
            let Workbench { pending, error, selected, flow } = state;
            let state = Workbench { pending, error, selected, flow: PlansFlow::Idle };
            let ghost ans = answer;
            match flow {
                PlansFlow::Saving { name } => {
                    let s = settle(answer, "The selected count plan no longer exists.");
                    match s {
                        Settled::Accepted => (Workbench { pending: false, ..state }, Effect::Succeeded(updated_notice(name.as_str()))),
                        _ => halt(state, s, PlansFlow::Idle, Ghost(ans), Ghost("The selected count plan no longer exists."@)),
                    }
                },
                PlansFlow::ChangingState { id, name, active } => {
                    let s = settle(answer, "The selected count plan no longer exists.");
                    match s {
                        Settled::Accepted => {
                            let selected = selection_after_state_change(state.selected, id, active);
                            (Workbench { pending: false, selected, ..state }, Effect::Succeeded(state_notice(name.as_str(), active)))
                        },
                        _ => halt(state, s, PlansFlow::Idle, Ghost(ans), Ghost("The selected count plan no longer exists."@)),
                    }
                },
                PlansFlow::SavingCount { adding } => {
                    if adding {
                        return (Workbench { flow: PlansFlow::SavingCount { adding }, ..state }, Effect::Nothing);
                    }
                    let s = settle(answer, "The count line changed elsewhere. Refresh and try again.");
                    match s {
                        Settled::Accepted => (
                            Workbench { pending: false, ..state },
                            Effect::LinesChanged { notice: String::from_str("Count line saved."), clear_form: true },
                        ),
                        _ => halt(state, s, PlansFlow::Idle, Ghost(ans), Ghost(count_changed_message())),
                    }
                },
                PlansFlow::ChangingCount { active } => {
                    let s = settle(answer, "The count line changed elsewhere. Refresh and try again.");
                    match s {
                        Settled::Accepted => (
                            Workbench { pending: false, ..state },
                            Effect::LinesChanged { notice: String::from_str(count_line_notice(active)), clear_form: false },
                        ),
                        _ => halt(state, s, PlansFlow::Idle, Ghost(ans), Ghost(count_changed_message())),
                    }
                },
                other => (Workbench { flow: other, ..state }, Effect::Nothing),
            }
        },
    }
}

} // verus!

verus! {

/// Rows sorted by a column come in the column's order, by name ignoring ASCII case (an unnamed plan as empty), by facility id, by client id, or with active plans first; ties keep
/// no particular order here.
pub proof fn lemma_plans_sorted_by_column(
    rows: Seq<AuditWave>,
    key: PlanSort,
    direction: crate::sorting::SortDirection,
)
    requires
        rows_sorted(rows, plan_key(key), direction),
    ensures
        forall|i: int, j: int|
            #![trigger rows[i], rows[j]]
            0 <= i < j < rows.len() ==> match key {
                PlanSort::Name => {
                    let (a, b) = (rows[i], rows[j]);
                    texts_in_order(ascii_lowercase(text_or_empty(a.name)), ascii_lowercase(text_or_empty(b.name)), direction)
                },
                PlanSort::Facility => {
                    let (a, b) = (rows[i], rows[j]);
                    counts_in_order(a.facility_id as int, b.facility_id as int, direction)
                },
                PlanSort::Client => {
                    let (a, b) = (rows[i], rows[j]);
                    counts_in_order(a.inventory_owner_id as int, b.inventory_owner_id as int, direction)
                },
                PlanSort::Status => {
                    let (a, b) = (rows[i], rows[j]);
                    flags_in_order(a.deleted is Some, b.deleted is Some, direction)
                },
            },
{
    crate::sorting::lemma_sorted_rows_values_in_order(rows, plan_key(key), direction);
    assert forall|i: int, j: int| 0 <= i < j < rows.len() implies #[trigger] crate::sorting::values_in_order(
        plan_key(key)(rows[i]).0,
        plan_key(key)(#[trigger] rows[j]).0,
        direction,
    ) by {}
}

} // verus!

verus! {

/// The filter box keeps exactly the rows that hold the query, ignoring the
/// row's ASCII case, in its name or description; an empty query keeps every row.
pub proof fn lemma_plans_filter_matches(query: Seq<char>)
    ensures
        forall|x: AuditWave| #[trigger] plan_shown(query, x) <==> (
            query.len() == 0
            || crate::text::text_contains(ascii_lowercase(text_or_empty(x.name)), query)
            || crate::text::text_contains(ascii_lowercase(text_or_empty(x.description)), query)
        ),
{
}

} // verus!

verus! {

/// While a command is in flight, another form or button changes nothing
/// and posts nothing.
pub proof fn lemma_plans_one_command_at_a_time(
    state: Workbench<PlansFlow>,
    event: PlansEvent,
    next: Workbench<PlansFlow>,
    effect: Effect<PlansRequest>,
)
    requires
        spec_plans_step(state, event, next, effect),
        state.pending,
        event is SubmitCreate || event is SubmitSave || event is SetActive || event is SubmitCount || event is SetCountActive,
    ensures
        effect is Nothing,
        next.pending,
        next.flow == state.flow,
        next.selected == state.selected,
{
}

/// A command reports success only on an accepted answer, and then nothing
/// is pending.
pub proof fn lemma_plans_success_only_when_accepted(
    state: Workbench<PlansFlow>,
    event: PlansEvent,
    next: Workbench<PlansFlow>,
    effect: Effect<PlansRequest>,
)
    requires
        spec_plans_step(state, event, next, effect),
        effect is Succeeded || effect is Created || effect is LinesChanged,
    ensures
        !next.pending,
        next.error == state.error,
        (event is Answered && event->Answered_0 == Ok::<bool, ApiError>(true)) || (event is Created && event->Created_0 is Ok),
{
}

/// A refused post stops the command and shows why: nothing is pending,
/// and the message in the notice is the one under the forms.
pub proof fn lemma_plans_refusal_is_shown(
    state: Workbench<PlansFlow>,
    next: Workbench<PlansFlow>,
    effect: Effect<PlansRequest>,
)
    requires
        spec_plans_step(state, PlansEvent::Answered(Ok(false)), next, effect),
        state.flow is Saving || state.flow is ChangingState || state.flow is ChangingCount,
    ensures
        !next.pending,
        next.flow is Idle,
        next.selected == state.selected,
        effect matches Effect::Failed(m) && next.error matches Some(e) && e@ == m@,
{
}

/// An ended session signs out, whatever the command was doing, with
/// nothing left pending.
pub proof fn lemma_plans_sign_out(
    state: Workbench<PlansFlow>,
    error: ApiError,
    next: Workbench<PlansFlow>,
    effect: Effect<PlansRequest>,
)
    requires
        spec_plans_step(state, PlansEvent::Answered(Err(error)), next, effect),
        error.unauthorized,
        state.flow is Saving || state.flow is ChangingState || state.flow is ChangingCount,
    ensures
        effect is SignOut,
        !next.pending,
        next.flow is Idle,
        next.error == state.error,
{
}

/// Another error stops the command and shows the error's message.
pub proof fn lemma_plans_error_is_shown(
    state: Workbench<PlansFlow>,
    error: ApiError,
    next: Workbench<PlansFlow>,
    effect: Effect<PlansRequest>,
)
    requires
        spec_plans_step(state, PlansEvent::Answered(Err(error)), next, effect),
        !error.unauthorized,
        state.flow is Saving || state.flow is ChangingState || state.flow is ChangingCount,
    ensures
        !next.pending,
        next.flow is Idle,
        effect matches Effect::Failed(m) && m@ == error.message@,
        next.error matches Some(e) && e@ == error.message@,
{
}

/// Deactivating the selected row unselects it; any other accepted change
/// of state leaves the selection.
pub proof fn lemma_plans_deactivation_unselects(
    state: Workbench<PlansFlow>,
    next: Workbench<PlansFlow>,
    effect: Effect<PlansRequest>,
)
    requires
        spec_plans_step(state, PlansEvent::Answered(Ok(true)), next, effect),
        state.flow is ChangingState,
    ensures
        next.selected == (if !state.flow->ChangingState_active && state.selected == Some(
            state.flow->ChangingState_id,
        ) {
            None
        } else {
            state.selected
        }),
{
}

} // verus!

verus! {

/// A count line that was saved empties the count form and reloads the
/// plan's lines; a line changed elsewhere since it was read is reported as
/// such and nothing is saved.
pub proof fn lemma_count_line_save_outcome(
    state: Workbench<PlansFlow>,
    event: PlansEvent,
    next: Workbench<PlansFlow>,
    effect: Effect<PlansRequest>,
)
    requires
        spec_plans_step(state, event, next, effect),
        state.flow is SavingCount,
    ensures
        (state.flow->SavingCount_adding && event is Created && event->Created_0 is Ok) || (
        !state.flow->SavingCount_adding && event == PlansEvent::Answered(Ok(true))) ==> !next.pending && (effect matches Effect::LinesChanged {
            notice,
            clear_form,
        } && clear_form && notice@ == "Count line saved."@),
        !state.flow->SavingCount_adding && event == PlansEvent::Answered(Ok(false)) ==> !next.pending && (effect matches Effect::Failed(
            m,
        ) && m@ == count_changed_message()),
{
}

} // verus!

verus! {

/// A location shows its name; without one, its barcode; without either,
/// `Location #` and its id.
pub proof fn lemma_location_label(l: Location)
    ensures
        l.name is Some ==> spec_location_label(l) == l.name->0@,
        l.name is None && l.barcode is Some ==> spec_location_label(l) == l.barcode->0@,
        l.name is None && l.barcode is None ==> spec_location_label(l) == "Location #"@ + decimal(l.id as int),
{
}

/// An item shows the name of its first SKU; without SKUs, its description;
/// without either, `Item #` and its id.
pub proof fn lemma_item_label(i: Item)
    ensures
        i.sku_names@.len() > 0 ==> spec_item_label(i) == i.sku_names@[0]@,
        i.sku_names@.len() == 0 && i.description is Some ==> spec_item_label(i) == i.description->0@,
        i.sku_names@.len() == 0 && i.description is None ==> spec_item_label(i) == "Item #"@ + decimal(
            i.id as int,
        ),
{
}

/// A plan goes by its name; without one, by `Plan #` and its id.
pub proof fn lemma_plan_label(name: Option<String>, id: i64)
    ensures
        name is Some ==> spec_plan_label(name, id) == name->0@,
        name is None ==> spec_plan_label(name, id) == "Plan #"@ + decimal(id as int),
{
}

} // verus!
