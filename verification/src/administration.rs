//! Shared helpers of the administration screens: form text, id selection,
//! facility membership and labels.
use vstd::prelude::*;
use vstd::relations::{sorted_by, total_ordering};
use crate::models::{find_facility, find_facility_at, Facility, InventoryOwner};
use crate::text::{
    decimal, lemma_decimal_trimmed, lemma_parse_decimal_round_trip, parsed_i64, parse_i64, push_i64,
    trim, trimmed,
};

verus! {

/// The areas of the administration workspace.
#[derive(Clone, Copy, Debug, PartialEq, Eq, Structural)]
pub enum AdministrationArea {
    Clients,
    Users,
    Roles,
    Permissions,
    Employees,
    CountPlans,
}

impl AdministrationArea {

    /// The heading of the area.
    pub open spec fn title_text(self) -> Seq<char> {
        match self {
            AdministrationArea::Clients => "Clients"@,
            AdministrationArea::Users => "Users"@,
            AdministrationArea::Roles => "Roles"@,
            AdministrationArea::Permissions => "Permissions"@,
            AdministrationArea::Employees => "Employees"@,
            AdministrationArea::CountPlans => "Count plans"@,
        }
    }

    /// The heading of the area.
    pub fn title(self) -> (r: &'static str)
        ensures
            r@ == self.title_text(),
    {
        match self {
            AdministrationArea::Clients => "Clients",
            AdministrationArea::Users => "Users",
            AdministrationArea::Roles => "Roles",
            AdministrationArea::Permissions => "Permissions",
            AdministrationArea::Employees => "Employees",
            AdministrationArea::CountPlans => "Count plans",
        }
    }

    /// The group the area belongs to.
    pub open spec fn eyebrow_text(self) -> Seq<char> {
        match self {
            AdministrationArea::Clients => "Warehouse network"@,
            AdministrationArea::Users => "Organization security"@,
            AdministrationArea::Roles => "Organization security"@,
            AdministrationArea::Permissions => "Organization security"@,
            AdministrationArea::Employees => "Warehouse workforce"@,
            AdministrationArea::CountPlans => "Inventory accuracy"@,
        }
    }

    /// The group the area belongs to.
    pub fn eyebrow(self) -> (r: &'static str)
        ensures
            r@ == self.eyebrow_text(),
    {
        match self {
            AdministrationArea::Clients => "Warehouse network",
            AdministrationArea::Users => "Organization security",
            AdministrationArea::Roles => "Organization security",
            AdministrationArea::Permissions => "Organization security",
            AdministrationArea::Employees => "Warehouse workforce",
            AdministrationArea::CountPlans => "Inventory accuracy",
        }
    }

    /// The sentence that introduces the area.
    pub open spec fn description_text(self) -> Seq<char> {
        match self {
            AdministrationArea::Clients => "Maintain client contacts and the facilities where their stock may operate."@,
            AdministrationArea::Users => "Maintain organization members and assign operational roles."@,
            AdministrationArea::Roles => "Compose warehouse responsibilities from permissions and role hierarchy."@,
            AdministrationArea::Permissions => "Maintain the permission catalog used by organization roles."@,
            AdministrationArea::Employees => "Maintain warehouse employees and their facility assignments."@,
            AdministrationArea::CountPlans => "Plan facility and client inventory counts and review recorded count lines."@,
        }
    }

    /// The sentence that introduces the area.
    pub fn description(self) -> (r: &'static str)
        ensures
            r@ == self.description_text(),
    {
        match self {
            AdministrationArea::Clients => "Maintain client contacts and the facilities where their stock may operate.",
            AdministrationArea::Users => "Maintain organization members and assign operational roles.",
            AdministrationArea::Roles => "Compose warehouse responsibilities from permissions and role hierarchy.",
            AdministrationArea::Permissions => "Maintain the permission catalog used by organization roles.",
            AdministrationArea::Employees => "Maintain warehouse employees and their facility assignments.",
            AdministrationArea::CountPlans => "Plan facility and client inventory counts and review recorded count lines.",
        }
    }
}

/// The sentence that introduces an administration area.
pub fn area_description(area: AdministrationArea) -> (r: &'static str)
    ensures
        r@ == area.description_text(),
{
    area.description()
}

/// The label of a facility: its name, or `Facility` and its id.
pub open spec fn spec_facility_label(facility: Facility) -> Seq<char> {
    match facility.name {
        Some(name) => name@,
        None => "Facility "@ + decimal(facility.id as int),
    }
}

/// The label of a facility.
pub fn facility_label(facility: &Facility) -> (r: String)
    ensures
        r@ == spec_facility_label(*facility),
{
    match &facility.name {
        Some(name) => name.clone(),
        None => {
            let mut label = String::from_str("Facility ");
            push_i64(&mut label, facility.id);
            label
        },
    }
}

/// The labels of the facilities that the ids name, in the order of the ids;
/// ids that name no facility are skipped.
pub open spec fn facility_labels(ids: Seq<i64>, facilities: Seq<Facility>) -> Seq<Seq<char>>
    decreases ids.len(),
{
    if ids.len() == 0 {
        seq![]
    } else {
        let earlier = facility_labels(ids.drop_last(), facilities);
        match find_facility(facilities, ids.last()) {
            Some(f) => earlier.push(spec_facility_label(f)),
            None => earlier,
        }
    }
}

/// The texts joined with a separator between each two.
pub open spec fn joined(list: Seq<Seq<char>>, separator: Seq<char>) -> Seq<char>
    decreases list.len(),
{
    if list.len() == 0 {
        seq![]
    } else if list.len() == 1 {
        list[0]
    } else {
        joined(list.drop_last(), separator) + separator + list.last()
    }
}

/// The names of the facilities that the ids name, joined by `, `, or
/// `No facilities` when none of them names a facility.
pub open spec fn spec_facility_names(ids: Seq<i64>, facilities: Seq<Facility>) -> Seq<char> {
    let labels = facility_labels(ids, facilities);
    if labels.len() == 0 {
        "No facilities"@
    } else {
        joined(labels, ", "@)
    }
}

/// The names of the facilities that the ids name, joined by `, `.
pub fn facility_names(ids: &[i64], facilities: &[Facility]) -> (r: String)
    ensures
        r@ == spec_facility_names(ids@, facilities@),
{
    let mut names = String::new();
    let mut count: usize = 0;
    let mut i: usize = 0;
    while i < ids.len()
        invariant
            i <= ids@.len(),
            count == facility_labels(ids@.take(i as int), facilities@).len(),
            count <= i,
            names@ == joined(facility_labels(ids@.take(i as int), facilities@), ", "@),
        decreases ids@.len() - i,
    {
        let ghost before = facility_labels(ids@.take(i as int), facilities@);
        assert(ids@.take(i + 1).drop_last() =~= ids@.take(i as int));
        match find_facility_at(facilities, ids[i]) {
            Some(at) => {
                let label = facility_label(&facilities[at]);
                if count > 0 {
                    names.append(", ");
                }
                names.append(label.as_str());
                count = count + 1;
                proof {
                    let after = before.push(spec_facility_label(facilities@[at as int]));
                    assert(after.drop_last() =~= before);
                    if before.len() == 0 {
                        assert(names@ =~= joined(after, ", "@));
                    }
                }
            },
            None => {},
        }
        i = i + 1;
    }
    assert(ids@.take(ids@.len() as int) =~= ids@);
    if count == 0 {
        String::from_str("No facilities")
    } else {
        names
    }
}

/// A form text without outer white space, or nothing when it is blank.
pub open spec fn spec_optional_text(value: Seq<char>) -> Option<Seq<char>> {
    if trimmed(value).len() > 0 {
        Some(trimmed(value))
    } else {
        None
    }
}

/// A form text without outer white space, or `None` when it is blank.
pub fn optional_text(value: &str) -> (r: Option<String>)
    ensures
        match r {
            Some(t) => spec_optional_text(value@) == Some(t@),
            None => spec_optional_text(value@) is None,
        },
{
    let t = trim(value);
    if t.unicode_len() > 0 {
        Some(String::from_str(t))
    } else {
        None
    }
}

/// A positive id typed into a form, read after trimming; anything else is
/// no selection.
pub open spec fn spec_selected_id(value: Seq<char>) -> Option<int> {
    match parsed_i64(trimmed(value)) {
        Some(v) => if v > 0 {
            Some(v)
        } else {
            None
        },
        None => None,
    }
}

/// Reads the id chosen in a form: a positive integer after trimming.
pub fn selected_id(value: &str) -> (r: Option<i64>)
    ensures
        match r {
            Some(v) => spec_selected_id(value@) == Some(v as int),
            None => spec_selected_id(value@) is None,
        },
{
    match parse_i64(trim(value)) {
        Some(v) => if v > 0 {
            Some(v)
        } else {
            None
        },
        None => None,
    }
}

/// The id written in a form reads back: a positive id's decimal text is
/// selected as that id.
pub proof fn lemma_selected_id_round_trip(id: i64)
    requires
        id > 0,
    ensures
        spec_selected_id(decimal(id as int)) == Some(id as int),
{
    lemma_decimal_trimmed(id);
    lemma_parse_decimal_round_trip(id);
}

/// The order in which ids are kept.
pub open spec fn id_order() -> spec_fn(i64, i64) -> bool {
    |a: i64, b: i64| a <= b
}

proof fn lemma_id_order_total()
    ensures
        total_ordering(id_order()),
{
}

/// Sorts ids in ascending order.
fn sort_ids(ids: &mut Vec<i64>)
    ensures
        sorted_by(final(ids)@, id_order()),
        final(ids)@.to_multiset() == old(ids)@.to_multiset(),
{
    broadcast use vstd::seq_lib::group_to_multiset_ensures;
    broadcast use vstd::multiset::group_multiset_axioms;

    let mut sorted: Vec<i64> = Vec::new();
    let mut i: usize = 0;
    assert(ids@.take(0) =~= Seq::<i64>::empty());
    while i < ids.len()
        invariant
            i <= ids@.len(),
            sorted_by(sorted@, id_order()),
            sorted@.to_multiset() == ids@.take(i as int).to_multiset(),
        decreases ids@.len() - i,
    {
        let x = ids[i];
        let mut k: usize = 0;
        while k < sorted.len() && sorted[k] <= x
            invariant
                k <= sorted@.len(),
                forall|j: int| 0 <= j < k ==> sorted@[j] <= x,
            decreases sorted@.len() - k,
        {
            k = k + 1;
        }
        let ghost before = sorted@;
        sorted.insert(k, x);
        proof {
            assert forall|a: int, b: int| 0 <= a < b < sorted@.len() implies #[trigger] (id_order())(
                sorted@[a],
                sorted@[b],
            ) by {
                if b < k {
                    assert((id_order())(before[a], before[b]));
                } else if a < k && b == k {
                } else if a < k {
                    assert(before[a] <= x);
                    assert(x < before[k as int] || k == before.len());
                    assert((id_order())(before[k as int], before[b - 1]) || b - 1 == k);
                } else if a == k {
                    assert(x < before[k as int]);
                    assert((id_order())(before[k as int], before[b - 1]) || b - 1 == k);
                } else {
                    assert((id_order())(before[a - 1], before[b - 1]));
                }
            }
            assert(sorted@.remove(k as int) =~= before);
            assert(sorted@[k as int] == x);
            sorted@.to_multiset_ensures();
            before.to_multiset_ensures();
            ids@.take(i as int).to_multiset_ensures();
            assert(sorted@.remove(k as int).to_multiset() =~= sorted@.to_multiset().remove(
                sorted@[k as int],
            ));
            assert(sorted@.contains(x));
            assert(sorted@.to_multiset().count(x) > 0);
            assert(ids@.take(i + 1) =~= ids@.take(i as int).push(x));
            assert(sorted@.to_multiset() =~= before.to_multiset().insert(x));
        }
        i = i + 1;
    }
    assert(ids@.take(ids@.len() as int) =~= ids@);
    *ids = sorted;
}

/// The membership list after a checkbox: with the id added (in order) when
/// it is checked and was missing, without it when unchecked.
pub open spec fn spec_membership(ids: Seq<i64>, id: i64, selected: bool) -> Seq<i64> {
    if selected {
        if ids.contains(id) {
            ids
        } else {
            ids.push(id).sort_by(id_order())
        }
    } else {
        ids.filter(other_than(id))
    }
}

/// The ids other than one.
pub open spec fn other_than(id: i64) -> spec_fn(i64) -> bool {
    |x: i64| x != id
}

/// Ids in ascending order, each once.
pub open spec fn strictly_ascending(ids: Seq<i64>) -> bool {
    forall|i: int, j: int| 0 <= i < j < ids.len() ==> ids[i] < ids[j]
}

proof fn lemma_filter_ascending(s: Seq<i64>, id: i64)
    requires
        strictly_ascending(s),
    ensures
        strictly_ascending(s.filter(other_than(id))),
        forall|x: i64| s.filter(other_than(id)).contains(x) <==> (s.contains(x) && x != id),
    decreases s.len(),
{
    reveal(Seq::filter);
    let pred = other_than(id);
    if s.len() > 0 {
        let rest = s.drop_last();
        assert(strictly_ascending(rest));
        lemma_filter_ascending(rest, id);
        let f = rest.filter(pred);
        assert(s.filter(pred) == if pred(s.last()) {
            f.push(s.last())
        } else {
            f
        });
        assert forall|x: i64| f.contains(x) implies x < s.last() by {
            assert(rest.contains(x));
            let k = choose|k: int| 0 <= k < rest.len() && rest[k] == x;
            assert(s[k] == x);
        }
        assert forall|x: i64| s.contains(x) <==> (rest.contains(x) || x == s.last()) by {
            if s.contains(x) && x != s.last() {
                let k = choose|k: int| 0 <= k < s.len() && s[k] == x;
                assert(k < s.len() - 1);
                assert(rest[k] == x);
            }
            if rest.contains(x) {
                let k = choose|k: int| 0 <= k < rest.len() && rest[k] == x;
                assert(s[k] == x);
            }
            if x == s.last() {
                assert(s[s.len() - 1] == x);
            }
        }
        if pred(s.last()) {
            let g = f.push(s.last());
            assert forall|i: int, j: int| 0 <= i < j < g.len() implies g[i] < g[j] by {
                if j == g.len() - 1 {
                    assert(f.contains(g[i]));
                }
            }
            assert forall|x: i64| g.contains(x) <==> (f.contains(x) || x == s.last()) by {
                if g.contains(x) && x != s.last() {
                    let k = choose|k: int| 0 <= k < g.len() && g[k] == x;
                    assert(f[k] == x);
                }
                if f.contains(x) {
                    let k = choose|k: int| 0 <= k < f.len() && f[k] == x;
                    assert(g[k] == x);
                }
                if x == s.last() {
                    assert(g[g.len() - 1] == x);
                }
            }
        }
    } else {
        assert(s.filter(pred) =~= Seq::<i64>::empty());
    }
}

/// A membership list stays in ascending order without repeats: checking a
/// box adds its id, unchecking removes it, and the other ids stay.
pub proof fn lemma_membership_sorted_unique(ids: Seq<i64>, id: i64, selected: bool)
    requires
        strictly_ascending(ids),
    ensures
        strictly_ascending(spec_membership(ids, id, selected)),
        spec_membership(ids, id, selected).contains(id) == selected,
        forall|x: i64| x != id ==> (spec_membership(ids, id, selected).contains(x) == ids.contains(x)),
{
    broadcast use vstd::seq_lib::group_to_multiset_ensures;

    if selected {
        if !ids.contains(id) {
            let p = ids.push(id);
            let q = p.sort_by(id_order());
            lemma_id_order_total();
            p.lemma_sort_by_ensures(id_order());
            assert(p.no_duplicates()) by {
                assert forall|i: int, j: int| 0 <= i < p.len() && 0 <= j < p.len() && i != j implies p[i] != p[j] by {
                    if i == p.len() - 1 {
                        assert(ids[j] == p[j]);
                    } else if j == p.len() - 1 {
                        assert(ids[i] == p[i]);
                    } else {
                        assert(ids[i] == p[i] && ids[j] == p[j]);
                    }
                }
            }
            p.lemma_multiset_has_no_duplicates();
            assert forall|x: i64| q.to_multiset().contains(x) implies q.to_multiset().count(x) == 1 by {
                assert(p.to_multiset().contains(x));
            }
            q.lemma_multiset_has_no_duplicates_conv();
            assert forall|i: int, j: int| 0 <= i < j < q.len() implies q[i] < q[j] by {
                assert((id_order())(q[i], q[j]));
                assert(q[i] != q[j]);
            }
            assert forall|x: i64| q.contains(x) <==> p.contains(x) by {
                p.to_multiset_ensures();
                q.to_multiset_ensures();
                assert(p.to_multiset().count(x) == q.to_multiset().count(x));
            }
            assert forall|x: i64| p.contains(x) <==> (ids.contains(x) || x == id) by {
                if p.contains(x) && x != id {
                    let k = choose|k: int| 0 <= k < p.len() && p[k] == x;
                    assert(ids[k] == x);
                }
                if ids.contains(x) {
                    let k = choose|k: int| 0 <= k < ids.len() && ids[k] == x;
                    assert(p[k] == x);
                }
                if x == id {
                    assert(p[p.len() - 1] == x);
                }
            }
        }
    } else {
        lemma_filter_ascending(ids, id);
    }
}

/// Adds an id to a membership list (kept sorted, without duplicates) or
/// removes it, as the checkbox says.
pub fn set_membership(ids: &mut Vec<i64>, id: i64, selected: bool)
    ensures
        final(ids)@ == spec_membership(old(ids)@, id, selected),
{
    if selected {
        let mut present = false;
        let mut i: usize = 0;
        while i < ids.len()
            invariant
                i <= ids@.len(),
                present == ids@.take(i as int).contains(id),
            decreases ids@.len() - i,
        {
            let ghost prefix = ids@.take(i as int);
            let ghost next = ids@.take(i + 1);
            assert(next =~= prefix.push(ids@[i as int]));
            if ids[i] == id {
                present = true;
                assert(next[i as int] == id);
            } else {
                assert(next.contains(id) ==> prefix.contains(id)) by {
                    if next.contains(id) {
                        let j = choose|j: int| 0 <= j < next.len() && next[j] == id;
                        assert(prefix[j] == id);
                    }
                }
                assert(prefix.contains(id) ==> next.contains(id)) by {
                    if prefix.contains(id) {
                        let j = choose|j: int| 0 <= j < prefix.len() && prefix[j] == id;
                        assert(next[j] == id);
                    }
                }
            }
            i = i + 1;
        }
        assert(ids@.take(ids@.len() as int) =~= ids@);
        if !present {
            ids.push(id);
            let ghost pushed = ids@;
            sort_ids(ids);
            proof {
                lemma_id_order_total();
                pushed.lemma_sort_by_ensures(id_order());
                vstd::seq_lib::lemma_sorted_unique(ids@, pushed.sort_by(id_order()), id_order());
            }
        }
    } else {
        let mut kept: Vec<i64> = Vec::new();
        let mut i: usize = 0;
        proof {
            reveal(Seq::filter);
        }
        assert(ids@.take(0) =~= Seq::<i64>::empty());
        while i < ids.len()
            invariant
                i <= ids@.len(),
                kept@ == ids@.take(i as int).filter(other_than(id)),
            decreases ids@.len() - i,
        {
            proof {
                reveal(Seq::filter);
                assert(ids@.take(i + 1).drop_last() =~= ids@.take(i as int));
            }
            if ids[i] != id {
                kept.push(ids[i]);
            }
            i = i + 1;
        }
        assert(ids@.take(ids@.len() as int) =~= ids@);
        *ids = kept;
    }
}

/// The notice of a record whose state changed: `{name} reactivated.` or
/// `{name} deactivated.`.
pub fn state_notice(name: &str, active: bool) -> (r: String)
    ensures
        r@ == name@ + (if active {
            " reactivated."@
        } else {
            " deactivated."@
        }),
{
    let mut out = String::from_str(name);
    if active {
        out.append(" reactivated.");
    } else {
        out.append(" deactivated.");
    }
    out
}

/// The notice of a record that was saved: its name, a space, what was
/// done and a full stop (`Acme created.`).
pub fn saved_notice(name: &str, done: &str) -> (r: String)
    ensures
        r@ == name@ + " "@ + done@ + "."@,
{
    let mut out = String::from_str(name);
    out.append(" ");
    out.append(done);
    out.append(".");
    out
}

/// The endpoint that reactivates (`restore`) or deactivates (`delete`) a
/// record of an administration resource: `/api/{resource}/restore`.
pub fn state_change_path(resource: &str, active: bool) -> (r: String)
    ensures
        r@ == "/api/"@ + resource@ + (if active {
            "/restore"@
        } else {
            "/delete"@
        }),
{
    let mut out = String::from_str("/api/");
    out.append(resource);
    if active {
        out.append("/restore");
    } else {
        out.append("/delete");
    }
    out
}

/// The selection after a record's state changed: a deactivated record is
/// no longer selected; anything else stays as it was.
pub fn selection_after_state_change(selected: Option<i64>, changed: i64, active: bool) -> (r: Option<i64>)
    ensures
        r == (if !active && selected == Some(changed) {
            None
        } else {
            selected
        }),
{
    if !active && selected == Some(changed) {
        None
    } else {
        selected
    }
}

/// The facilities a picker offers: those not deactivated, in their order.
pub fn active_facilities(rows: Vec<Facility>) -> (r: Vec<Facility>)
    ensures
        r@ == rows@.filter(|x: Facility| x.deleted is None),
{
    let mut kept: Vec<Facility> = Vec::new();
    let mut rest = rows;
    let ghost all = rest@;
    let mut i: usize = 0;
    proof {
        reveal(Seq::filter);
        assert(all.take(0) =~= Seq::<Facility>::empty());
    }
    let n = rest.len();
    while i < n
        invariant
            n == all.len(),
            i <= n,
            rest@ == all.skip(i as int),
            kept@ == all.take(i as int).filter(|x: Facility| x.deleted is None),
        decreases n - i,
    {
        proof {
            reveal(Seq::filter);
            assert(all.take(i + 1).drop_last() =~= all.take(i as int));
            assert(all.skip(i as int)[0] == all[i as int]);
        }
        let row = rest.remove(0);
        proof {
            assert(rest@ =~= all.skip(i + 1));
        }
        if row.deleted.is_none() {
            kept.push(row);
        }
        i = i + 1;
    }
    proof {
        assert(all.take(n as int) =~= all);
    }
    kept
}

/// The clients a picker offers: those not deactivated, in their order.
pub fn active_clients(rows: Vec<InventoryOwner>) -> (r: Vec<InventoryOwner>)
    ensures
        r@ == rows@.filter(|x: InventoryOwner| x.deleted is None),
{
    let mut kept: Vec<InventoryOwner> = Vec::new();
    let mut rest = rows;
    let ghost all = rest@;
    let mut i: usize = 0;
    proof {
        reveal(Seq::filter);
        assert(all.take(0) =~= Seq::<InventoryOwner>::empty());
    }
    let n = rest.len();
    while i < n
        invariant
            n == all.len(),
            i <= n,
            rest@ == all.skip(i as int),
            kept@ == all.take(i as int).filter(|x: InventoryOwner| x.deleted is None),
        decreases n - i,
    {
        proof {
            reveal(Seq::filter);
            assert(all.take(i + 1).drop_last() =~= all.take(i as int));
            assert(all.skip(i as int)[0] == all[i as int]);
        }
        let row = rest.remove(0);
        proof {
            assert(rest@ =~= all.skip(i + 1));
        }
        if row.deleted.is_none() {
            kept.push(row);
        }
        i = i + 1;
    }
    proof {
        assert(all.take(n as int) =~= all);
    }
    kept
}

/// The class of a row's status chip.
pub fn status_class(inactive: bool) -> (r: &'static str)
    ensures
        r@ == (if inactive {
            "status muted"@
        } else {
            "status open"@
        }),
{
    if inactive {
        "status muted"
    } else {
        "status open"
    }
}

/// The outcome of a command that reports whether its target existed: the
/// given not-found message when it did not.
pub fn command_result(ok: bool, not_found: &str) -> (r: Result<(), String>)
    ensures
        ok ==> r is Ok,
        !ok ==> (r matches Err(m) && m@ == not_found@),
{
    if ok {
        Ok(())
    } else {
        Err(String::from_str(not_found))
    }
}

} // verus!
