//! The 3PL billing workbench: its pickers and labels, the amounts it shows,
//! the default unit of each billable event, and the commands its forms
//! submit.
use vstd::prelude::*;
use vstd::utf8::{decode_utf8, encode_utf8, is_char_boundary};
use vstd::string::StringSliceAdditionalSpecFns;
use crate::admin_configuration::{parse_optional_id, spec_positive_id};
use crate::contract::{BillableEventType, BillingContractStatus, BillingRunStatus, BillingUnit};
use crate::models::Facility;
use crate::text::{decimal, push_count, push_i64, push_two_digits, trimmed, trim, two_digits};

verus! {

/// Reads a picker's value as a positive id.
pub fn parse_id(value: &str) -> (r: Option<i64>)
    ensures
        match r {
            Some(v) => spec_positive_id(value@) == Some(v as int),
            None => spec_positive_id(value@) is None,
        },
{
    parse_optional_id(value)
}

/// A note as it was typed, or `None` when it is blank.
pub fn nonblank(value: String) -> (r: Option<String>)
    ensures
        match r {
            Some(t) => t@ == value@ && trimmed(value@).len() > 0,
            None => trimmed(value@).len() == 0,
        },
{
    if trim(value.as_str()).unicode_len() == 0 {
        None
    } else {
        Some(value)
    }
}

/// The date part of a timestamp: its first ten bytes where they end on a
/// character, else the whole text.
pub open spec fn spec_short_date(value: Seq<char>) -> Seq<char> {
    if is_char_boundary(encode_utf8(value), 10) {
        decode_utf8(encode_utf8(value).take(10))
    } else {
        value
    }
}

/// Takes the date part of a timestamp.
pub fn short_date(value: &str) -> (r: String)
    ensures
        r@ == spec_short_date(value@),
        is_char_boundary(encode_utf8(value@), 10) ==> encode_utf8(r@) == encode_utf8(
            value@,
        ).take(10),
{
    broadcast use vstd::utf8::encode_utf8_valid_utf8;
    broadcast use vstd::utf8::encode_utf8_decode_utf8;

    if value.is_char_boundary(10) {
        let (head, _) = value.split_at(10);
        assert(head.spec_bytes() == encode_utf8(head@));
        assert(encode_utf8(value@).take(10) =~= encode_utf8(value@).subrange(0, 10));
        assert(decode_utf8(encode_utf8(head@)) == head@);
        String::from_str(head)
    } else {
        String::from_str(value)
    }
}

/// An amount in minor units with its currency: `USD 12.05`.
pub open spec fn spec_money(value: u64, currency: Seq<char>) -> Seq<char> {
    currency + " "@ + decimal((value / 100) as int) + "."@ + two_digits((value % 100) as nat)
}

/// Renders an amount in minor units with its currency.
pub fn money(value: u64, currency: &str) -> (r: String)
    ensures
        r@ == spec_money(value, currency@),
{
    let mut out = String::from_str(currency);
    out.append(" ");
    push_count(&mut out, value / 100);
    out.append(".");
    push_two_digits(&mut out, value % 100);
    out
}

/// The label of a contract's status.
pub fn contract_status(value: BillingContractStatus) -> (r: &'static str)
    ensures
        r@ == value.label(),
{
    value.as_label()
}

/// The status-chip class of a contract's status.
pub fn status_class_contract(value: BillingContractStatus) -> (r: &'static str)
    ensures
        r@ == value.css_class(),
{
    value.as_css_class()
}

/// The label of a reconciliation run's status.
pub fn run_status(value: BillingRunStatus) -> (r: &'static str)
    ensures
        r@ == value.label(),
{
    value.as_label()
}

/// The status-chip class of a reconciliation run's status.
pub fn status_class_run(value: BillingRunStatus) -> (r: &'static str)
    ensures
        r@ == value.css_class(),
{
    value.as_css_class()
}

/// The unit a billable event is charged per unless the operator picks
/// another: per event for receipt lines, pick lines and accessorials, per
/// pallet, carton or hour for the events counted so, per each otherwise.
pub open spec fn spec_default_unit(event: BillableEventType) -> BillingUnit {
    match event {
        BillableEventType::ReceiptLine => BillingUnit::Event,
        BillableEventType::PickLine => BillingUnit::Event,
        BillableEventType::Accessorial => BillingUnit::Event,
        BillableEventType::PalletDay => BillingUnit::Pallet,
        BillableEventType::PackedCarton => BillingUnit::Carton,
        BillableEventType::DetentionHour => BillingUnit::Hour,
        _ => BillingUnit::Each,
    }
}

/// The event and unit picked in a billing form.
#[derive(Clone, Copy, Debug, PartialEq, Eq, Structural)]
pub struct EventSelection {
    pub event_type: BillableEventType,
    pub unit: BillingUnit,
}

/// Picks the event whose wire value the event picker gave, with its
/// default unit; an unknown value changes nothing.
pub fn set_event_defaults(selection: &mut EventSelection, value: &str)
    ensures
        match BillableEventType::from_wire(value@) {
            Some(e) => *final(selection) == (EventSelection { event_type: e, unit: spec_default_unit(e) }),
            None => *final(selection) == *old(selection),
        },
{
    if let Some(event) = parse_event(value) {
        selection.event_type = event;
        selection.unit = match event {
            BillableEventType::ReceiptLine | BillableEventType::PickLine
            | BillableEventType::Accessorial => BillingUnit::Event,
            BillableEventType::PalletDay => BillingUnit::Pallet,
            BillableEventType::PackedCarton => BillingUnit::Carton,
            BillableEventType::DetentionHour => BillingUnit::Hour,
            _ => BillingUnit::Each,
        };
    }
}

/// Every billable event, in the order the pickers list them.
pub open spec fn all_events() -> Seq<BillableEventType> {
    seq![
        BillableEventType::ReceiptLine,
        BillableEventType::ReceivedUnit,
        BillableEventType::PalletDay,
        BillableEventType::PickLine,
        BillableEventType::PickedUnit,
        BillableEventType::PackedCarton,
        BillableEventType::ShippedUnit,
        BillableEventType::ReturnUnit,
        BillableEventType::RelabelUnit,
        BillableEventType::RefurbishmentUnit,
        BillableEventType::KitUnit,
        BillableEventType::AssemblyUnit,
        BillableEventType::Accessorial,
        BillableEventType::DetentionHour,
        BillableEventType::ValueAddedServiceUnit,
    ]
}

/// The services an operator may capture by hand, in picker order.
pub open spec fn manual_events() -> Seq<BillableEventType> {
    seq![
        BillableEventType::RelabelUnit,
        BillableEventType::RefurbishmentUnit,
        BillableEventType::KitUnit,
        BillableEventType::AssemblyUnit,
        BillableEventType::Accessorial,
        BillableEventType::DetentionHour,
        BillableEventType::ValueAddedServiceUnit,
    ]
}

/// The events an event picker offers: the manual services for the capture
/// form, every event for the rate card.
pub fn event_options(manual: bool) -> (r: Vec<BillableEventType>)
    ensures
        r@ == if manual {
            manual_events()
        } else {
            all_events()
        },
{
    let r = if manual {
        vec![
            BillableEventType::RelabelUnit,
            BillableEventType::RefurbishmentUnit,
            BillableEventType::KitUnit,
            BillableEventType::AssemblyUnit,
            BillableEventType::Accessorial,
            BillableEventType::DetentionHour,
            BillableEventType::ValueAddedServiceUnit,
        ]
    } else {
        vec![
            BillableEventType::ReceiptLine,
            BillableEventType::ReceivedUnit,
            BillableEventType::PalletDay,
            BillableEventType::PickLine,
            BillableEventType::PickedUnit,
            BillableEventType::PackedCarton,
            BillableEventType::ShippedUnit,
            BillableEventType::ReturnUnit,
            BillableEventType::RelabelUnit,
            BillableEventType::RefurbishmentUnit,
            BillableEventType::KitUnit,
            BillableEventType::AssemblyUnit,
            BillableEventType::Accessorial,
            BillableEventType::DetentionHour,
            BillableEventType::ValueAddedServiceUnit,
        ]
    };
    assert(r@ =~= if manual {
        manual_events()
    } else {
        all_events()
    });
    r
}

/// Every billing unit, in picker order.
pub open spec fn all_units() -> Seq<BillingUnit> {
    seq![
        BillingUnit::Event,
        BillingUnit::Each,
        BillingUnit::Case,
        BillingUnit::Pallet,
        BillingUnit::Carton,
        BillingUnit::Hour,
        BillingUnit::Day,
    ]
}

/// The units the unit picker offers.
pub fn unit_options() -> (r: Vec<BillingUnit>)
    ensures
        r@ == all_units(),
{
    let r = vec![
        BillingUnit::Event,
        BillingUnit::Each,
        BillingUnit::Case,
        BillingUnit::Pallet,
        BillingUnit::Carton,
        BillingUnit::Hour,
        BillingUnit::Day,
    ];
    assert(r@ =~= all_units());
    r
}

/// The label of a billable event.
pub fn event_label(value: BillableEventType) -> (r: &'static str)
    ensures
        r@ == value.label(),
{
    value.as_label()
}

/// The wire value of a billable event.
pub fn event_wire(value: BillableEventType) -> (r: &'static str)
    ensures
        r@ == value.wire(),
{
    value.as_wire()
}

/// Reads a billable event from its wire value.
pub fn parse_event(value: &str) -> (r: Option<BillableEventType>)
    ensures
        r == BillableEventType::from_wire(value@),
{
    BillableEventType::parse_wire(value)
}

/// The wire value of a billing unit.
pub fn unit_wire(value: BillingUnit) -> (r: &'static str)
    ensures
        r@ == value.wire(),
{
    value.as_wire()
}

/// The label of a billing unit.
pub fn unit_label(value: BillingUnit) -> (r: &'static str)
    ensures
        r@ == value.label(),
{
    value.as_label()
}

/// Reads a billing unit from its wire value.
pub fn parse_unit(value: &str) -> (r: Option<BillingUnit>)
    ensures
        r == BillingUnit::from_wire(value@),
{
    BillingUnit::parse_wire(value)
}

/// Every billable event and every unit reads back from its own wire value.
pub proof fn lemma_event_and_unit_wire_round_trip(event: BillableEventType, unit: BillingUnit)
    ensures
        BillableEventType::from_wire(event.wire()) == Some(event),
        BillingUnit::from_wire(unit.wire()) == Some(unit),
{
    event.lemma_wire_round_trip();
    unit.lemma_wire_round_trip();
}

/// A version of a contract's rate card, as far as a new version needs it.
#[derive(Clone, Copy, Debug, PartialEq, Eq, Structural)]
pub struct RateVersion {
    pub contract_id: i64,
    pub event_type: BillableEventType,
    pub revision: u64,
}

/// The highest revision among the rate versions of a contract for an event.
pub open spec fn latest_revision(rates: Seq<RateVersion>, contract_id: i64, event: BillableEventType) -> Option<u64>
    decreases rates.len(),
{
    if rates.len() == 0 {
        None
    } else {
        let rest = latest_revision(rates.drop_last(), contract_id, event);
        let last = rates.last();
        if last.contract_id == contract_id && last.event_type == event {
            match rest {
                Some(r) => if r >= last.revision {
                    Some(r)
                } else {
                    Some(last.revision)
                },
                None => Some(last.revision),
            }
        } else {
            rest
        }
    }
}

/// Whether a revision is at most the one found, when one was found.
pub open spec fn covered(found: Option<u64>, revision: u64) -> bool {
    match found {
        Some(v) => revision <= v,
        None => false,
    }
}

/// Whether a rate version belongs to a contract's card for an event.
pub open spec fn same_card(rate: RateVersion, contract_id: i64, event: BillableEventType) -> bool {
    rate.contract_id == contract_id && rate.event_type == event
}

/// The revision that a new rate version expects: the highest revision of
/// the contract's versions for that event, or none for its first version.
pub fn rate_expected_revision(rates: &Vec<RateVersion>, contract_id: i64, event: BillableEventType) -> (r: Option<u64>)
    ensures
        r == latest_revision(rates@, contract_id, event),
        r matches Some(v) ==> exists|i: int|
            0 <= i < rates@.len() && same_card(#[trigger] rates@[i], contract_id, event)
                && rates@[i].revision == v,
        forall|i: int|
            0 <= i < rates@.len() && same_card(#[trigger] rates@[i], contract_id, event)
                ==> covered(r, rates@[i].revision),
{
    let mut best: Option<u64> = None;
    let mut i: usize = 0;
    while i < rates.len()
        invariant
            i <= rates@.len(),
            best == latest_revision(rates@.take(i as int), contract_id, event),
            best matches Some(v) ==> exists|j: int|
                0 <= j < i && same_card(#[trigger] rates@[j], contract_id, event)
                    && rates@[j].revision == v,
            forall|j: int|
                0 <= j < i && same_card(#[trigger] rates@[j], contract_id, event) ==> covered(
                    best,
                    rates@[j].revision,
                ),
        decreases rates@.len() - i,
    {
        let rate = rates[i];
        assert(rates@.take(i + 1).drop_last() =~= rates@.take(i as int));
        let ghost prev = best;
        if rate.contract_id == contract_id && rate.event_type == event {
            best = match best {
                Some(b) => if b >= rate.revision {
                    Some(b)
                } else {
                    Some(rate.revision)
                },
                None => Some(rate.revision),
            };
        }
        proof {
            if best != prev {
                assert(same_card(rates@[i as int], contract_id, event));
            }
            assert forall|j: int|
                0 <= j < i + 1 && same_card(#[trigger] rates@[j], contract_id, event) implies covered(
                best,
                rates@[j].revision,
            ) by {
                if j < i {
                    assert(covered(prev, rates@[j].revision));
                }
            }
        }
        i = i + 1;
    }
    assert(rates@.take(rates@.len() as int) =~= rates@);
    best
}

/// A new contract, as the create form submits it.
#[derive(Clone, Debug)]
pub struct CreateContractRequest {
    pub inventory_owner_id: i64,
    pub contract_number: String,
    pub currency: String,
    pub effective_from: String,
}

/// The contract that the create form submits: it needs a client; the texts
/// go as they were typed, and the contract is open-ended.
pub fn create_contract_request(
    owner_id: Option<i64>,
    contract_number: &str,
    currency: &str,
    effective_from: &str,
) -> (r: Result<CreateContractRequest, String>)
    ensures
        match owner_id {
            None => r matches Err(m) && m@ == "Select a client."@,
            Some(o) => r matches Ok(c) && c.inventory_owner_id == o && c.contract_number@
                == contract_number@ && c.currency@ == currency@ && c.effective_from@
                == effective_from@,
        },
{
    match owner_id {
        None => Err(String::from_str("Select a client.")),
        Some(o) => Ok(
            CreateContractRequest {
                inventory_owner_id: o,
                contract_number: String::from_str(contract_number),
                currency: String::from_str(currency),
                effective_from: String::from_str(effective_from),
            },
        ),
    }
}

/// The facility that a capture or a storage snapshot is taken at: one must
/// be picked.
pub fn required_facility(facility_id: Option<i64>) -> (r: Result<i64, String>)
    ensures
        match facility_id {
            None => r matches Err(m) && m@ == "Select a facility."@,
            Some(f) => r == Ok::<i64, String>(f),
        },
{
    match facility_id {
        None => Err(String::from_str("Select a facility.")),
        Some(f) => Ok(f),
    }
}

/// Whether the current administrator may approve a run: a run is approved by an
/// administrator other than the one who started it, and only once every
/// event has been matched to a rate.
pub fn can_approve_run(started_by: i64, current_user: i64, unmatched_event_count: u64) -> (r: bool)
    ensures
        r == (started_by != current_user && unmatched_event_count == 0),
{
    started_by != current_user && unmatched_event_count == 0
}

/// Whether a rejection or an export may be sent: its note or batch key must
/// not be blank.
pub fn has_text(value: &str) -> (r: bool)
    ensures
        r == (trimmed(value@).len() > 0),
{
    trim(value).unicode_len() > 0
}

/// The chip of a rate version: event, charge per unit and revision.
pub open spec fn spec_rate_label(
    event: BillableEventType,
    rate_minor: u64,
    currency: Seq<char>,
    unit: BillingUnit,
    revision: u64,
) -> Seq<char> {
    event.label() + " · "@ + spec_money(rate_minor, currency) + " "@ + unit.label() + " · rev "@
        + decimal(revision as int)
}

/// Renders the chip of a rate version.
pub fn rate_label(
    event: BillableEventType,
    rate_minor: u64,
    currency: &str,
    unit: BillingUnit,
    revision: u64,
) -> (r: String)
    ensures
        r@ == spec_rate_label(event, rate_minor, currency@, unit, revision),
{
    let mut out = String::from_str(event.as_label());
    out.append(" · ");
    let m = money(rate_minor, currency);
    out.append(m.as_str());
    out.append(" ");
    out.append(unit.as_label());
    out.append(" · rev ");
    push_count(&mut out, revision);
    out
}

/// The selection after the workspace reloads: what was selected stays
/// selected, and with nothing selected the first row is.
pub fn default_selection(selected: Option<i64>, first: Option<i64>) -> (r: Option<i64>)
    ensures
        r == (if selected is Some {
            selected
        } else {
            first
        }),
{
    match selected {
        Some(s) => Some(s),
        None => first,
    }
}

} // verus!

verus! {

/// A reconciliation run, as far as the billing metrics read it.
#[derive(Clone, Copy, Debug, PartialEq, Eq, Structural)]
pub struct RunSummary {
    pub status: BillingRunStatus,
    pub unmatched_event_count: i64,
    pub charge_count: i64,
}

/// The number of runs that wait for review.
pub open spec fn pending_count(runs: Seq<RunSummary>) -> int
    decreases runs.len(),
{
    if runs.len() == 0 {
        0
    } else {
        pending_count(runs.drop_last()) + if runs.last().status == BillingRunStatus::PendingReview {
            1int
        } else {
            0
        }
    }
}

/// The unmatched events of the runs that wait for review, added up.
pub open spec fn pending_unmatched(runs: Seq<RunSummary>) -> int
    decreases runs.len(),
{
    if runs.len() == 0 {
        0
    } else {
        pending_unmatched(runs.drop_last()) + if runs.last().status
            == BillingRunStatus::PendingReview {
            runs.last().unmatched_event_count as int
        } else {
            0
        }
    }
}

/// The charges of all runs added up, a negative count counting as none.
pub open spec fn charged(runs: Seq<RunSummary>) -> int
    decreases runs.len(),
{
    if runs.len() == 0 {
        0
    } else {
        charged(runs.drop_last()) + if runs.last().charge_count > 0 {
            runs.last().charge_count as int
        } else {
            0
        }
    }
}

/// The figures at the top of the billing workbench.
#[derive(Clone, Copy, Debug, PartialEq, Eq, Structural)]
pub struct BillingMetrics {
    pub contracts: usize,
    pub pending_review: usize,
    pub unmatched_events: i64,
    pub unbilled_events: usize,
}

/// Computes the billing metrics: the contracts, the runs waiting for
/// review and their unmatched events, and the recent events not yet
/// charged (never below zero). The sums must not overflow, as every
/// partial sum of the workbench's own addition fits its type.
pub fn billing_metrics(contract_count: usize, event_count: usize, runs: &Vec<RunSummary>) -> (r: BillingMetrics)
    requires
        forall|k: int| 0 <= k <= runs@.len() ==> i64::MIN <= #[trigger] pending_unmatched(runs@.take(k)) <= i64::MAX,
        forall|k: int| 0 <= k <= runs@.len() ==> #[trigger] charged(runs@.take(k)) <= usize::MAX,
    ensures
        r.contracts == contract_count,
        r.pending_review == pending_count(runs@),
        r.unmatched_events == pending_unmatched(runs@),
        r.unbilled_events == if event_count >= charged(runs@) {
            event_count - charged(runs@)
        } else {
            0
        },
{
    let mut pending: usize = 0;
    let mut unmatched: i64 = 0;
    let mut charges: usize = 0;
    let mut i: usize = 0;
    assert(runs@.take(0) =~= Seq::<RunSummary>::empty());
    while i < runs.len()
        invariant
            i <= runs@.len(),
            pending == pending_count(runs@.take(i as int)),
            pending <= i,
            unmatched == pending_unmatched(runs@.take(i as int)),
            charges == charged(runs@.take(i as int)),
            forall|k: int| 0 <= k <= runs@.len() ==> i64::MIN <= #[trigger] pending_unmatched(runs@.take(k)) <= i64::MAX,
            forall|k: int| 0 <= k <= runs@.len() ==> #[trigger] charged(runs@.take(k)) <= usize::MAX,
        decreases runs@.len() - i,
    {
        let run = runs[i];
        let ghost next = runs@.take(i + 1);
        assert(next.drop_last() =~= runs@.take(i as int));
        assert(next.last() == run);
        assert(i64::MIN <= pending_unmatched(next) <= i64::MAX);
        assert(charged(next) <= usize::MAX);
        if run.status == BillingRunStatus::PendingReview {
            pending = pending + 1;
            unmatched = unmatched + run.unmatched_event_count;
        }
        if run.charge_count > 0 {
            assert(run.charge_count as int <= usize::MAX);
            charges = charges + run.charge_count as usize;
        }
        i = i + 1;
    }
    assert(runs@.take(runs@.len() as int) =~= runs@);
    let unbilled = if event_count >= charges {
        event_count - charges
    } else {
        0
    };
    BillingMetrics {
        contracts: contract_count,
        pending_review: pending,
        unmatched_events: unmatched,
        unbilled_events: unbilled,
    }
}

/// A new version of a contract's rate card, as the rate form submits it.
#[derive(Clone, Debug)]
pub struct RateRequest {
    pub event_type: BillableEventType,
    pub unit: BillingUnit,
    pub currency: String,
    pub rate_minor: u64,
    pub minimum_charge_minor: u64,
    pub effective_from: String,
    pub expected_revision: Option<u64>,
}

/// The rate version that the rate form submits: in the contract's
/// currency, open-ended, and expecting the latest revision of the
/// contract's versions for that event.
pub fn rate_request(
    contract_id: i64,
    contract_currency: &str,
    selection: EventSelection,
    rate_minor: u64,
    minimum_charge_minor: u64,
    effective_from: &str,
    rates: &Vec<RateVersion>,
) -> (r: RateRequest)
    ensures
        r.event_type == selection.event_type,
        r.unit == selection.unit,
        r.currency@ == contract_currency@,
        r.rate_minor == rate_minor,
        r.minimum_charge_minor == minimum_charge_minor,
        r.effective_from@ == effective_from@,
        r.expected_revision == latest_revision(rates@, contract_id, selection.event_type),
{
    RateRequest {
        event_type: selection.event_type,
        unit: selection.unit,
        currency: String::from_str(contract_currency),
        rate_minor,
        minimum_charge_minor,
        effective_from: String::from_str(effective_from),
        expected_revision: rate_expected_revision(rates, contract_id, selection.event_type),
    }
}

/// The effective window of a contract: `{from} → {until}`, `Open` when it
/// has no end.
pub fn contract_effective_label(effective_from: &str, effective_until: Option<&str>) -> (r: String)
    ensures
        r@ == effective_from@ + " → "@ + (match effective_until {
            Some(u) => u@,
            None => "Open"@,
        }),
{
    let mut out = String::from_str(effective_from);
    out.append(" → ");
    match effective_until {
        Some(u) => out.append(u),
        None => out.append("Open"),
    }
    out
}

/// The period of a run: the dates of its start and end, `{from} → {until}`.
pub fn run_period_label(period_from: &str, period_until: &str) -> (r: String)
    ensures
        r@ == spec_short_date(period_from@) + " → "@ + spec_short_date(period_until@),
{
    let from = short_date(period_from);
    let until = short_date(period_until);
    let mut out = String::new();
    out.append(from.as_str());
    out.append(" → ");
    out.append(until.as_str());
    out
}

/// The caption of a facility in the billing pickers: its name, or its
/// number when it has none.
pub fn facility_option_label(facility: &Facility) -> (r: String)
    ensures
        r@ == (match facility.name {
            Some(n) => n@,
            None => "Facility #"@ + decimal(facility.id as int),
        }),
{
    match &facility.name {
        Some(n) => String::from_str(n.as_str()),
        None => {
            let mut out = String::from_str("Facility #");
            push_i64(&mut out, facility.id);
            out
        },
    }
}

} // verus!

verus! {

/// An amount reads back: the currency, a space, then the whole units in
/// digits, a dot and two digits of cents, which together spell the amount
/// in minor units.
pub proof fn lemma_money_reads_back(value: u64, currency: Seq<char>)
    ensures
        ({
            let r = spec_money(value, currency);
            let amount = r.skip(currency.len() as int + 1);
            let n = amount.len() as int;
            &&& r.take(currency.len() as int) == currency
            &&& r[currency.len() as int] == ' '
            &&& n >= 4
            &&& amount[n - 3] == '.'
            &&& crate::text::all_digits(amount.take(n - 3))
            &&& crate::text::all_digits(amount.skip(n - 2))
            &&& crate::text::digits_value(amount.take(n - 3)) * 100 + crate::text::digits_value(amount.skip(n - 2))
                == value
        }),
{
    reveal_strlit(" ");
    reveal_strlit(".");
    let units: nat = (value / 100) as nat;
    let cents: nat = (value % 100) as nat;
    crate::text::lemma_digits_round_trip(units);
    let u = crate::text::digits(units);
    let t = two_digits(cents);
    assert(decimal(units as int) == u);
    let r = spec_money(value, currency);
    assert(r == currency + " "@ + u + "."@ + t);
    let amount = r.skip(currency.len() as int + 1);
    assert(amount =~= u + "."@ + t);
    let n = amount.len() as int;
    assert(amount.take(n - 3) =~= u);
    assert(amount.skip(n - 2) =~= t);
    assert(r.take(currency.len() as int) =~= currency);
    let d1 = (cents / 10) as nat;
    let d0 = (cents % 10) as nat;
    assert(t[0] == crate::text::digit_char(d1));
    assert(t[1] == crate::text::digit_char(d0));
    assert(crate::text::digit_value(t[0]) == d1 % 10);
    assert(crate::text::digit_value(t[1]) == d0 % 10);
    assert(t.drop_last() =~= seq![t[0]]);
    assert(seq![t[0]].drop_last() =~= Seq::<char>::empty());
    assert(crate::text::digits_value(Seq::<char>::empty()) == 0);
    assert(crate::text::digits_value(seq![t[0]]) == d1);
    assert(t.last() == t[1]);
    assert(crate::text::digits_value(t) == d1 * 10 + d0);
    assert(crate::text::is_digit(t[0]));
    assert(crate::text::is_digit(t[1]));
}

} // verus!
