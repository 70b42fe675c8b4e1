//! Decisions and labels of the integration monitor: which detail refresh
//! may be applied, status filters, and the dense labels of its tables.
pub mod correction;
pub mod owner_mappings;

use vstd::prelude::*;
use vstd::utf8::{decode_utf8, encode_utf8, is_char_boundary};
use crate::administration::{optional_text, spec_optional_text};
use crate::api::ApiError;
use crate::contract::{
    InboundIntegrationSort, IntegrationOrderProcessingStatus, IntegrationSortDirection,
    OutboundDeliveryAttemptOutcome, OutboundDeliveryStatus, OutboundIntegrationSort,
};
use correction::{control, is_control};
use crate::text::{
    byte_prefix, decimal, find_char, index_of_char, lemma_encode_skip_len, push_i64, trim, trimmed,
};
use crate::api::integration_monitor::{InboundIntegrationFilters, OutboundIntegrationFilters};
use crate::sorting::SortDirection;
use crate::url::opt_str_view;

verus! {

/// The tabs of the integration monitor.
#[derive(Clone, Copy, Debug, PartialEq, Eq, Structural)]
pub enum MonitorTab {
    Inbound,
    Outbound,
    Mappings,
}

/// Whether a detail refresh that has come back may be shown: the row that
/// was selected when it was requested is still the selected one, and no
/// newer refresh has been requested since.
pub fn detail_refresh_is_current(
    selected_at_request: Option<i64>,
    selected_now: Option<i64>,
    refresh_generation: Option<u64>,
    current_generation: u64,
) -> (r: bool)
    ensures
        r == (selected_at_request is Some && selected_at_request == selected_now
            && refresh_generation == Some(current_generation)),
{
    let same_selection = match (selected_at_request, selected_now) {
        (Some(a), Some(b)) => a == b,
        _ => false,
    };
    let same_generation = match refresh_generation {
        Some(g) => g == current_generation,
        None => false,
    };
    same_selection && same_generation
}

/// Whether a detail that was requested from one tab may be reconciled into
/// the tab now shown: only when it is the same tab.
pub fn should_reconcile_detail(active_tab: MonitorTab, request_tab: MonitorTab) -> (r: bool)
    ensures
        r == (active_tab == request_tab),
{
    active_tab == request_tab
}

/// A search box's text without outer white space, or `None` when blank.
pub fn text_filter(value: &str) -> (r: Option<String>)
    ensures
        match r {
            Some(t) => spec_optional_text(value@) == Some(t@),
            None => spec_optional_text(value@) is None,
        },
{
    optional_text(value)
}

/// The opposite of a sort direction.
pub open spec fn spec_reverse(value: IntegrationSortDirection) -> IntegrationSortDirection {
    match value {
        IntegrationSortDirection::Ascending => IntegrationSortDirection::Descending,
        IntegrationSortDirection::Descending => IntegrationSortDirection::Ascending,
    }
}

/// The opposite sort direction.
pub fn reverse_direction(value: IntegrationSortDirection) -> (r: IntegrationSortDirection)
    ensures
        r == spec_reverse(value),
        r != value,
{
    match value {
        IntegrationSortDirection::Ascending => IntegrationSortDirection::Descending,
        IntegrationSortDirection::Descending => IntegrationSortDirection::Ascending,
    }
}

/// Reversing a sort direction twice gives it back.
pub proof fn lemma_reverse_twice(value: IntegrationSortDirection)
    ensures
        spec_reverse(spec_reverse(value)) == value,
{
}

/// The direction a column header shows for the monitor's sort.
pub fn display_direction(value: IntegrationSortDirection) -> (r: SortDirection)
    ensures
        r == (match value {
            IntegrationSortDirection::Ascending => SortDirection::Ascending,
            IntegrationSortDirection::Descending => SortDirection::Descending,
        }),
{
    match value {
        IntegrationSortDirection::Ascending => SortDirection::Ascending,
        IntegrationSortDirection::Descending => SortDirection::Descending,
    }
}

/// Whether the shown tab is loading: the mappings tab loads on its own.
pub fn active_loading(tab: MonitorTab, inbound_loading: bool, outbound_loading: bool) -> (r: bool)
    ensures
        r == (match tab {
            MonitorTab::Inbound => inbound_loading,
            MonitorTab::Outbound => outbound_loading,
            MonitorTab::Mappings => false,
        }),
{
    match tab {
        MonitorTab::Inbound => inbound_loading,
        MonitorTab::Outbound => outbound_loading,
        MonitorTab::Mappings => false,
    }
}

/// Reads the status filter's value; `all` and anything unknown is no filter.
pub fn parse_status(value: &str) -> (r: Option<OutboundDeliveryStatus>)
    ensures
        r == OutboundDeliveryStatus::from_wire(value@),
{
    OutboundDeliveryStatus::parse_wire(value)
}

/// The status filter's value: the wire value of the status, or empty for
/// no filter.
pub fn status_value(value: Option<OutboundDeliveryStatus>) -> (r: &'static str)
    ensures
        r@ == (match value {
            Some(s) => s.wire(),
            None => ""@,
        }),
{
    match value {
        Some(s) => s.as_wire(),
        None => "",
    }
}

/// The label of a delivery status.
pub fn status_label(value: OutboundDeliveryStatus) -> (r: &'static str)
    ensures
        r@ == value.label(),
{
    value.as_label()
}

/// The status class of a delivery status.
pub fn status_class(value: OutboundDeliveryStatus) -> (r: &'static str)
    ensures
        r@ == value.css_class(),
{
    value.as_css_class()
}

/// The label of an inbound order's processing state.
pub fn processing_status_label(value: IntegrationOrderProcessingStatus) -> (r: &'static str)
    ensures
        r@ == value.label(),
{
    value.as_label()
}

/// The status class of an inbound order's processing state.
pub fn processing_status_class(value: IntegrationOrderProcessingStatus) -> (r: &'static str)
    ensures
        r@ == value.css_class(),
{
    value.as_css_class()
}

/// The label of an attempt's outcome; an attempt without one is in progress.
pub fn attempt_outcome_label(value: Option<OutboundDeliveryAttemptOutcome>) -> (r: &'static str)
    ensures
        r@ == (match value {
            Some(o) => o.label(),
            None => "In progress"@,
        }),
{
    match value {
        Some(o) => o.as_label(),
        None => "In progress",
    }
}

/// The scope of an integration record: client and facility joined by ` / `,
/// whichever of them is known, or the organization.
pub open spec fn spec_scope_label(owner: Option<Seq<char>>, facility: Option<Seq<char>>) -> Seq<
    char,
> {
    match (owner, facility) {
        (Some(o), Some(f)) => o + " / "@ + f,
        (Some(o), None) => o,
        (None, Some(f)) => f,
        (None, None) => "Organization"@,
    }
}

/// The scope of an integration record.
pub fn scope_label(owner: Option<&str>, facility: Option<&str>) -> (r: String)
    ensures
        r@ == spec_scope_label(opt_str_view(owner), opt_str_view(facility)),
{
    match (owner, facility) {
        (Some(o), Some(f)) => {
            let mut label = String::from_str(o);
            label.append(" / ");
            label.append(f);
            label
        },
        (Some(o), None) => String::from_str(o),
        (None, Some(f)) => String::from_str(f),
        (None, None) => String::from_str("Organization"),
    }
}

/// The number of bytes of a time part that a compact time keeps: all of
/// them, up to eight.
pub open spec fn kept_time_bytes(time: Seq<char>) -> int {
    if encode_utf8(time).len() <= 8 {
        encode_utf8(time).len() as int
    } else {
        8
    }
}

/// Whether a timestamp can be compacted: where it has a `T`, the time after
/// it must not have a character cut by its eighth byte.
pub open spec fn compactable(value: Seq<char>) -> bool {
    match index_of_char(value, 'T') {
        Some(i) => is_char_boundary(encode_utf8(value.skip(i + 1)), kept_time_bytes(value.skip(i + 1))),
        None => true,
    }
}

/// The compact form of an ISO timestamp: the date, a space, and the first
/// eight bytes of the time; a value without `T` as it is.
pub open spec fn spec_compact_time(value: Seq<char>) -> Seq<char> {
    match index_of_char(value, 'T') {
        Some(i) => value.take(i) + " "@ + decode_utf8(
            encode_utf8(value.skip(i + 1)).take(kept_time_bytes(value.skip(i + 1))),
        ),
        None => value,
    }
}

/// Compacts an ISO timestamp: the date, a space, and the first eight bytes
/// of the time (`2026-08-10T11:22:33+00:00` becomes `2026-08-10 11:22:33`);
/// a value without `T` is kept as it is.
pub fn compact_time(value: &str) -> (r: String)
    requires
        compactable(value@),
        encode_utf8(value@).len() <= usize::MAX,
    ensures
        r@ == spec_compact_time(value@),
        match index_of_char(value@, 'T') {
            Some(i) => encode_utf8(r@.skip(i + 1)) == encode_utf8(value@.skip(i + 1)).take(
                kept_time_bytes(value@.skip(i + 1)),
            ),
            None => true,
        },
{
    match find_char(value, 'T') {
        Some(i) => {
            let n = value.unicode_len();
            let date = value.substring_char(0, i);
            let time = value.substring_char(i + 1, n);
            assert(time@ =~= value@.skip(i + 1));
            proof {
                lemma_encode_skip_len(value@, i + 1);
            }
            let kept = byte_prefix(time, 8);
            let mut out = String::from_str(date);
            out.append(" ");
            out.append(kept.as_str());
            proof {
                reveal_strlit(" ");
                assert(out@.take(i + 1) =~= value@.take(i as int) + " "@);
                assert(out@.skip(i + 1) =~= kept@);
                assert(decode_utf8(encode_utf8(kept@)) == kept@) by {
                    vstd::utf8::encode_utf8_decode_utf8(kept@);
                }
                assert(out@ =~= value@.take(i as int) + " "@ + kept@);
            }
            out
        },
        None => String::from_str(value),
    }
}

} // verus!

verus! {

/// What becomes of the selected row's detail when a page has loaded.
#[derive(Clone, Copy, Debug, PartialEq, Eq, Structural)]
pub enum DetailAction {
    /// Load the detail of this row again.
    Reselect(i64),
    /// Put back the detail shown before the page was requested.
    RestorePrevious,
    /// The row is gone from the page: drop the selection.
    ClearSelection,
    /// Leave the detail as it is.
    Keep,
}

/// The detail action after a page loaded: only while the detail refresh is
/// current; a row still on the page is loaded again on its own tab and
/// restored on another, a row gone from the page is unselected.
pub open spec fn spec_page_detail_action(
    selected_at_request: Option<i64>,
    selected_now: Option<i64>,
    refresh_generation: Option<u64>,
    current_generation: u64,
    still_visible: bool,
    active_tab: MonitorTab,
    request_tab: MonitorTab,
) -> DetailAction {
    if !(selected_at_request is Some && selected_at_request == selected_now
        && refresh_generation == Some(current_generation)) {
        DetailAction::Keep
    } else if !still_visible {
        DetailAction::ClearSelection
    } else if active_tab == request_tab {
        DetailAction::Reselect(selected_at_request->0)
    } else {
        DetailAction::RestorePrevious
    }
}

/// Decides what becomes of the selected row's detail when a page loaded.
pub fn page_detail_action(
    selected_at_request: Option<i64>,
    selected_now: Option<i64>,
    refresh_generation: Option<u64>,
    current_generation: u64,
    still_visible: bool,
    active_tab: MonitorTab,
    request_tab: MonitorTab,
) -> (r: DetailAction)
    ensures
        r == spec_page_detail_action(
            selected_at_request,
            selected_now,
            refresh_generation,
            current_generation,
            still_visible,
            active_tab,
            request_tab,
        ),
{
    if !detail_refresh_is_current(
        selected_at_request,
        selected_now,
        refresh_generation,
        current_generation,
    ) {
        return DetailAction::Keep;
    }
    match selected_at_request {
        Some(id) => {
            if !still_visible {
                DetailAction::ClearSelection
            } else if should_reconcile_detail(active_tab, request_tab) {
                DetailAction::Reselect(id)
            } else {
                DetailAction::RestorePrevious
            }
        },
        None => DetailAction::Keep,
    }
}

/// What becomes of the detail when a page failed to load.
#[derive(Clone, Copy, Debug, PartialEq, Eq, Structural)]
pub enum FailedDetailAction {
    /// The refresh is not current: leave everything.
    Keep,
    /// Stop the detail's loading state.
    StopLoading,
    /// Put back the previous detail and stop loading: another tab is shown.
    RestoreAndStop,
}

/// Decides what becomes of the detail when a page failed to load.
pub fn failed_page_detail_action(
    selected_at_request: Option<i64>,
    selected_now: Option<i64>,
    refresh_generation: Option<u64>,
    current_generation: u64,
    active_tab: MonitorTab,
    request_tab: MonitorTab,
) -> (r: FailedDetailAction)
    ensures
        r == if !(selected_at_request is Some && selected_at_request == selected_now
            && refresh_generation == Some(current_generation)) {
            FailedDetailAction::Keep
        } else if active_tab != request_tab {
            FailedDetailAction::RestoreAndStop
        } else {
            FailedDetailAction::StopLoading
        },
{
    if !detail_refresh_is_current(
        selected_at_request,
        selected_now,
        refresh_generation,
        current_generation,
    ) {
        FailedDetailAction::Keep
    } else if active_tab != request_tab {
        FailedDetailAction::RestoreAndStop
    } else {
        FailedDetailAction::StopLoading
    }
}

/// The sort after a column header is clicked: the same column flips its
/// direction, another column sorts ascending.
pub fn change_inbound_sort(
    sort: InboundIntegrationSort,
    direction: IntegrationSortDirection,
    clicked: InboundIntegrationSort,
) -> (r: (InboundIntegrationSort, IntegrationSortDirection))
    ensures
        r == if sort == clicked {
            (sort, if direction == IntegrationSortDirection::Ascending {
                IntegrationSortDirection::Descending
            } else {
                IntegrationSortDirection::Ascending
            })
        } else {
            (clicked, IntegrationSortDirection::Ascending)
        },
{
    if sort == clicked {
        (sort, reverse_direction(direction))
    } else {
        (clicked, IntegrationSortDirection::Ascending)
    }
}

/// The sort after a column header of the outbound table is clicked.
pub fn change_outbound_sort(
    sort: OutboundIntegrationSort,
    direction: IntegrationSortDirection,
    clicked: OutboundIntegrationSort,
) -> (r: (OutboundIntegrationSort, IntegrationSortDirection))
    ensures
        r == if sort == clicked {
            (sort, if direction == IntegrationSortDirection::Ascending {
                IntegrationSortDirection::Descending
            } else {
                IntegrationSortDirection::Ascending
            })
        } else {
            (clicked, IntegrationSortDirection::Ascending)
        },
{
    if sort == clicked {
        (sort, reverse_direction(direction))
    } else {
        (clicked, IntegrationSortDirection::Ascending)
    }
}

/// Whether a saved command survives the selection of a row: only a command
/// for that same row.
pub fn retry_survives_selection(saved_for: Option<i64>, selected: i64) -> (r: bool)
    ensures
        r == (saved_for == Some(selected)),
{
    match saved_for {
        Some(id) => id == selected,
        None => false,
    }
}

/// The reason of a discard: trimmed, not blank, at most 1000 characters and
/// free of control characters; otherwise the message shown.
pub open spec fn spec_discard_reason(reason: Seq<char>) -> Result<Seq<char>, Seq<char>> {
    let t = trimmed(reason);
    if t.len() == 0 {
        Err("Discard reason is required."@)
    } else if t.len() > 1000 || exists|i: int| 0 <= i < t.len() && is_control(#[trigger] t[i]) {
        Err("Discard reason must be at most 1000 control-free characters."@)
    } else {
        Ok(t)
    }
}

/// Checks the reason of a discard.
pub fn discard_reason(reason: &str) -> (r: Result<String, String>)
    ensures
        match (r, spec_discard_reason(reason@)) {
            (Ok(t), Ok(s)) => t@ == s,
            (Err(m), Err(s)) => m@ == s,
            _ => false,
        },
{
    let t = trim(reason);
    let n = t.unicode_len();
    if n == 0 {
        return Err(String::from_str("Discard reason is required."));
    }
    if n > 1000 {
        return Err(String::from_str("Discard reason must be at most 1000 control-free characters."));
    }
    let mut i: usize = 0;
    while i < n
        invariant
            n == t@.len(),
            t@ == trimmed(reason@),
            0 < n <= 1000,
            i <= n,
            forall|j: int| 0 <= j < i ==> !is_control(#[trigger] t@[j]),
        decreases n - i,
    {
        if control(t.get_char(i)) {
            assert(is_control(t@[i as int]));
            return Err(
                String::from_str("Discard reason must be at most 1000 control-free characters."),
            );
        }
        i = i + 1;
    }
    assert(!exists|j: int| 0 <= j < t@.len() && is_control(#[trigger] t@[j]));
    Ok(String::from_str(t))
}

/// The notice after an inbound order was reprocessed.
pub open spec fn spec_reprocess_notice(
    status: IntegrationOrderProcessingStatus,
    order_id: Option<i64>,
    attempt_count: i64,
) -> Seq<char> {
    match status {
        IntegrationOrderProcessingStatus::Processed => match order_id {
            Some(id) => "Inbound order processed as order #"@ + decimal(id as int) + "."@,
            None => "Inbound order processed."@,
        },
        IntegrationOrderProcessingStatus::Quarantined => "Reprocess attempt "@ + decimal(
            attempt_count as int,
        ) + " remains quarantined."@,
    }
}

/// Renders the notice after an inbound order was reprocessed.
pub fn reprocess_notice(
    status: IntegrationOrderProcessingStatus,
    order_id: Option<i64>,
    attempt_count: i64,
) -> (r: String)
    ensures
        r@ == spec_reprocess_notice(status, order_id, attempt_count),
{
    match status {
        IntegrationOrderProcessingStatus::Processed => match order_id {
            Some(id) => {
                let mut out = String::from_str("Inbound order processed as order #");
                push_i64(&mut out, id);
                out.append(".");
                out
            },
            None => String::from_str("Inbound order processed."),
        },
        IntegrationOrderProcessingStatus::Quarantined => {
            let mut out = String::from_str("Reprocess attempt ");
            push_i64(&mut out, attempt_count);
            out.append(" remains quarantined.");
            out
        },
    }
}

/// The notice after a quarantined order was corrected.
pub open spec fn spec_correction_notice(
    status: IntegrationOrderProcessingStatus,
    order_id: Option<i64>,
    attempt_count: i64,
) -> Seq<char> {
    match status {
        IntegrationOrderProcessingStatus::Processed => match order_id {
            Some(id) => "Corrected envelope processed as order #"@ + decimal(id as int) + "."@,
            None => "Corrected envelope processed."@,
        },
        IntegrationOrderProcessingStatus::Quarantined => "Correction attempt "@ + decimal(
            attempt_count as int,
        ) + " remains quarantined."@,
    }
}

/// Renders the notice after a quarantined order was corrected.
pub fn correction_notice(
    status: IntegrationOrderProcessingStatus,
    order_id: Option<i64>,
    attempt_count: i64,
) -> (r: String)
    ensures
        r@ == spec_correction_notice(status, order_id, attempt_count),
{
    match status {
        IntegrationOrderProcessingStatus::Processed => match order_id {
            Some(id) => {
                let mut out = String::from_str("Corrected envelope processed as order #");
                push_i64(&mut out, id);
                out.append(".");
                out
            },
            None => String::from_str("Corrected envelope processed."),
        },
        IntegrationOrderProcessingStatus::Quarantined => {
            let mut out = String::from_str("Correction attempt ");
            push_i64(&mut out, attempt_count);
            out.append(" remains quarantined.");
            out
        },
    }
}

/// Renders the notice after a dead letter was queued for replay.
pub fn replay_notice(replay_count: i64, event_type: &str) -> (r: String)
    ensures
        r@ == "Replay "@ + decimal(replay_count as int) + " queued for "@ + event_type@ + "."@,
{
    let mut out = String::from_str("Replay ");
    push_i64(&mut out, replay_count);
    out.append(" queued for ");
    out.append(event_type);
    out.append(".");
    out
}

/// Renders the notice after a dead letter was discarded.
pub fn discard_notice(event_type: &str) -> (r: String)
    ensures
        r@ == event_type@ + " discarded permanently."@,
{
    let mut out = String::from_str(event_type);
    out.append(" discarded permanently.");
    out
}

/// Whether a reprocess command may be sent: none is pending and a receipt
/// is selected.
pub fn can_execute_reprocess(command_pending: bool, receipt_id: i64) -> (r: bool)
    ensures
        r == (!command_pending && receipt_id > 0),
{
    !command_pending && receipt_id > 0
}

} // verus!

verus! {

/// How a payload preview is written.
#[derive(Clone, Copy, Debug, PartialEq, Eq, Structural)]
pub enum PreviewEncoding {
    Utf8,
    Hex,
}

/// The caption of a preview's encoding.
pub fn preview_encoding_label(value: PreviewEncoding) -> (r: &'static str)
    ensures
        r@ == (match value {
            PreviewEncoding::Utf8 => "UTF-8"@,
            PreviewEncoding::Hex => "Hexadecimal"@,
        }),
{
    match value {
        PreviewEncoding::Utf8 => "UTF-8",
        PreviewEncoding::Hex => "Hexadecimal",
    }
}

/// The order JSON a correction starts from when nothing was corrected
/// before: the preview, when it is the whole payload as text, else nothing.
pub fn correction_initial_payload(encoding: PreviewEncoding, truncated: bool, preview: &str) -> (r: String)
    ensures
        r@ == (if encoding == PreviewEncoding::Utf8 && !truncated {
            preview@
        } else {
            Seq::<char>::empty()
        }),
{
    if encoding == PreviewEncoding::Utf8 && !truncated {
        String::from_str(preview)
    } else {
        String::new()
    }
}

/// The order JSON the correction editor opens with: the latest correction
/// when there is one (nothing when it was cut short), else the initial
/// payload.
pub fn correction_editor_payload(
    has_latest_correction: bool,
    latest_truncated: bool,
    latest_payload: Option<&str>,
    initial: &str,
) -> (r: String)
    ensures
        r@ == (if has_latest_correction {
            if latest_truncated {
                Seq::<char>::empty()
            } else {
                match latest_payload {
                    Some(p) => p@,
                    None => Seq::<char>::empty(),
                }
            }
        } else {
            initial@
        }),
{
    if has_latest_correction {
        if latest_truncated {
            String::new()
        } else {
            match latest_payload {
                Some(p) => String::from_str(p),
                None => String::new(),
            }
        }
    } else {
        String::from_str(initial)
    }
}

/// Whether an outbound event may be replayed or discarded: only a dead
/// letter.
pub fn can_replay(status: OutboundDeliveryStatus) -> (r: bool)
    ensures
        r == (status == OutboundDeliveryStatus::DeadLettered),
{
    status == OutboundDeliveryStatus::DeadLettered
}

} // verus!

verus! {

/// The filters of the inbound list: the search and the source, each
/// trimmed and left out when blank; the scope is not narrowed.
pub fn inbound_filters(search: &str, source_key: &str) -> (r: InboundIntegrationFilters)
    ensures
        match r.query {
            Some(t) => spec_optional_text(search@) == Some(t@),
            None => spec_optional_text(search@) is None,
        },
        match r.source_key {
            Some(t) => spec_optional_text(source_key@) == Some(t@),
            None => spec_optional_text(source_key@) is None,
        },
        r.facility_id is None,
        r.inventory_owner_id is None,
{
    InboundIntegrationFilters {
        query: text_filter(search),
        source_key: text_filter(source_key),
        facility_id: None,
        inventory_owner_id: None,
    }
}

/// The filters of the outbound list: the search and the event type, each
/// trimmed and left out when blank, and the status filter; the scope is not
/// narrowed.
pub fn outbound_filters(
    search: &str,
    event_type: &str,
    status: Option<OutboundDeliveryStatus>,
) -> (r: OutboundIntegrationFilters)
    ensures
        match r.query {
            Some(t) => spec_optional_text(search@) == Some(t@),
            None => spec_optional_text(search@) is None,
        },
        match r.event_type {
            Some(t) => spec_optional_text(event_type@) == Some(t@),
            None => spec_optional_text(event_type@) is None,
        },
        r.status == status,
        r.facility_id is None,
        r.inventory_owner_id is None,
{
    OutboundIntegrationFilters {
        query: text_filter(search),
        event_type: text_filter(event_type),
        status,
        facility_id: None,
        inventory_owner_id: None,
    }
}

} // verus!

verus! {

/// The monitor's commands on one record.
#[derive(Clone, Copy, Debug, PartialEq, Eq, Structural)]
pub enum MonitorCommand {
    Reprocess,
    Replay,
    Discard,
}

/// What to do when a monitor command's outcome is unknown.
pub open spec fn spec_retry_advice(kind: MonitorCommand) -> Seq<char> {
    match kind {
        MonitorCommand::Reprocess => "Retry the exact saved reprocess command to reconcile the outcome."@,
        MonitorCommand::Replay => "Retry the exact saved replay to reconcile the outcome."@,
        MonitorCommand::Discard => "Retry the exact saved discard to reconcile the outcome."@,
    }
}

/// What to do when a monitor command's outcome is unknown.
pub fn retry_advice(kind: MonitorCommand) -> (r: &'static str)
    ensures
        r@ == spec_retry_advice(kind),
{
    match kind {
        MonitorCommand::Reprocess => "Retry the exact saved reprocess command to reconcile the outcome.",
        MonitorCommand::Replay => "Retry the exact saved replay to reconcile the outcome.",
        MonitorCommand::Discard => "Retry the exact saved discard to reconcile the outcome.",
    }
}

/// The state of one kind of monitor command: whether a command is in
/// flight (any kind; the monitor runs one at a time), the message shown,
/// the saved command in flight, and the saved command kept for an exact
/// retry.
pub struct MonitorCommands<C> {
    pub pending: bool,
    pub error: Option<String>,
    pub in_flight: Option<C>,
    pub retry: Option<C>,
}

/// What happens to a monitor command.
pub enum MonitorCommandEvent<C, V> {
    /// A saved command (a new one, or the kept one) is to be sent; `target`
    /// is the record it acts on (for a reprocess, the selected receipt or 0).
    Execute { command: C, target: i64 },
    /// The answer to the command in flight.
    Answered(Result<V, ApiError>),
}

/// What the monitor does after a step.
pub enum MonitorCommandEffect<V> {
    /// Post the command in flight.
    Send,
    /// It was applied: close the confirmation, reload the list from its
    /// first page, select the record again and show the notice of this
    /// answer.
    Done(V),
    /// Its outcome is unknown: close the confirmation; the message and the
    /// kept command are in the state.
    Unknown,
    /// It was refused: close the confirmation and select the record again;
    /// the message is in the state.
    Refused,
    /// The session has ended.
    SignOut,
    /// Nothing to do.
    Nothing,
}

/// One step of a monitor command. A command is not sent while another is
/// in flight, nor a reprocess without a selected receipt (an id below one). When
/// it is sent, the message is cleared. An applied command is no longer
/// kept; one whose outcome is unknown is kept as it was sent, key and all,
/// with the error and the advice to retry it; a refused one is dropped and
/// its error shown; an ended session signs out and leaves the rest.
pub open spec fn spec_monitor_command_step<C, V>(
    kind: MonitorCommand,
    state: MonitorCommands<C>,
    event: MonitorCommandEvent<C, V>,
    next: MonitorCommands<C>,
    effect: MonitorCommandEffect<V>,
) -> bool {
    match event {
        MonitorCommandEvent::Execute { command, target } => if state.pending || (kind
            == MonitorCommand::Reprocess && target <= 0) {
            next == state && effect is Nothing
        } else {
            next == MonitorCommands { pending: true, error: None, in_flight: Some(command), ..state }
                && effect is Send
        },
        MonitorCommandEvent::Answered(answer) => if !state.pending {
            next == state && effect is Nothing
        } else {
            match answer {
                Ok(v) => next == MonitorCommands { pending: false, in_flight: None, retry: None, ..state }
                    && effect == MonitorCommandEffect::Done(v),
                Err(e) => if e.unauthorized {
                    next == MonitorCommands { pending: false, in_flight: None, ..state } && effect is SignOut
                } else if e.ambiguous_outcome {
                    &&& !next.pending && next.in_flight is None && next.retry == state.in_flight
                    &&& next.error matches Some(m) && m@ == e.message@ + " "@ + spec_retry_advice(kind)
                    &&& effect is Unknown
                } else {
                    &&& !next.pending && next.in_flight is None && next.retry is None
                    &&& next.error matches Some(m) && m@ == e.message@
                    &&& effect is Refused
                },
            }
        },
    }
}

/// Takes one step of a monitor command.
pub fn monitor_command_step<C, V>(
    kind: MonitorCommand,
    state: MonitorCommands<C>,
    event: MonitorCommandEvent<C, V>,
) -> (r: (MonitorCommands<C>, MonitorCommandEffect<V>))
    ensures
        spec_monitor_command_step(kind, state, event, r.0, r.1),
{
    match event {
        MonitorCommandEvent::Execute { command, target } => {
            if state.pending || (kind == MonitorCommand::Reprocess && target <= 0) {
                (state, MonitorCommandEffect::Nothing)
            } else {
                (
                    MonitorCommands { pending: true, error: None, in_flight: Some(command), ..state },
                    MonitorCommandEffect::Send,
                )
            }
        },
        MonitorCommandEvent::Answered(answer) => {
            if !state.pending {
                return (state, MonitorCommandEffect::Nothing);
            }
            match answer {
                Ok(v) => (
                    MonitorCommands { pending: false, in_flight: None, retry: None, ..state },
                    MonitorCommandEffect::Done(v),
                ),
                Err(e) => {
                    let MonitorCommands { pending, error, in_flight, retry } = state;
                    if e.unauthorized {
                        (MonitorCommands { pending: false, error, in_flight: None, retry }, MonitorCommandEffect::SignOut)
                    } else if e.ambiguous_outcome {
                        let message = crate::command::retry_message(e.message.as_str(), retry_advice(kind));
                        (
                            MonitorCommands { pending: false, error: Some(message), in_flight: None, retry: in_flight },
                            MonitorCommandEffect::Unknown,
                        )
                    } else {
                        (
                            MonitorCommands { pending: false, error: Some(e.message), in_flight: None, retry: None },
                            MonitorCommandEffect::Refused,
                        )
                    }
                },
            }
        },
    }
}

} // verus!

verus! {

/// A monitor command whose outcome is unknown is kept exactly as it was
/// sent, with the error and the advice to retry it; a refused one is
/// dropped with its error; either way nothing is pending.
pub proof fn lemma_monitor_failure_keeps_unknown_outcomes<C, V>(
    kind: MonitorCommand,
    state: MonitorCommands<C>,
    error: ApiError,
    next: MonitorCommands<C>,
    effect: MonitorCommandEffect<V>,
)
    requires
        spec_monitor_command_step(kind, state, MonitorCommandEvent::Answered(Err(error)), next, effect),
        state.pending,
        !error.unauthorized,
    ensures
        !next.pending,
        next.in_flight is None,
        error.ambiguous_outcome ==> next.retry == state.in_flight && (next.error matches Some(m) && m@
            == error.message@ + " "@ + spec_retry_advice(kind)),
        !error.ambiguous_outcome ==> next.retry is None && (next.error matches Some(m) && m@ == error.message@),
{
}

/// While a monitor command is in flight, another one is not sent.
pub proof fn lemma_monitor_one_command_at_a_time<C, V>(
    kind: MonitorCommand,
    state: MonitorCommands<C>,
    command: C,
    target: i64,
    next: MonitorCommands<C>,
    effect: MonitorCommandEffect<V>,
)
    requires
        spec_monitor_command_step(kind, state, MonitorCommandEvent::Execute { command, target }, next, effect),
        state.pending,
    ensures
        next == state,
        effect is Nothing,
{
}

} // verus!
