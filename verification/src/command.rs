//! What a workbench does after a command or a page load: how a failed
//! command is handled, which response is still current, and how paging
//! moves through a cursor history.
use vstd::prelude::*;
use crate::api::ApiError;

verus! {

/// How a workbench handles a command that failed.
#[derive(Clone, Copy, Debug, PartialEq, Eq, Structural)]
pub enum FailureHandling {
    /// The session has ended: sign out.
    SignOut,
    /// The command may have been applied: keep it, to be retried with the
    /// same idempotency key.
    KeepForRetry,
    /// The command was refused: drop it and show why.
    Discard,
}

/// The handling of a failed command: an ended session first, then an
/// outcome that may have been applied.
pub open spec fn spec_failure_handling(unauthorized: bool, ambiguous_outcome: bool) -> FailureHandling {
    if unauthorized {
        FailureHandling::SignOut
    } else if ambiguous_outcome {
        FailureHandling::KeepForRetry
    } else {
        FailureHandling::Discard
    }
}

/// Decides how a failed command is handled.
pub fn failure_handling(error: &ApiError) -> (r: FailureHandling)
    ensures
        r == spec_failure_handling(error.unauthorized, error.ambiguous_outcome),
{
    if error.unauthorized {
        FailureHandling::SignOut
    } else if error.ambiguous_outcome {
        FailureHandling::KeepForRetry
    } else {
        FailureHandling::Discard
    }
}

/// The message of a command whose outcome is unknown: the error's message,
/// a space, and what to do about it.
pub fn retry_message(message: &str, advice: &str) -> (r: String)
    ensures
        r@ == message@ + " "@ + advice@,
{
    let mut out = String::from_str(message);
    out.append(" ");
    out.append(advice);
    out
}

/// The generation of a new request: one more than the last, wrapping.
pub open spec fn spec_next_generation(generation: u64) -> u64 {
    if generation == u64::MAX {
        0
    } else {
        (generation + 1) as u64
    }
}

/// Starts a new request: the generation it carries.
pub fn next_generation(generation: u64) -> (r: u64)
    ensures
        r == spec_next_generation(generation),
        r != generation,
{
    generation.wrapping_add(1)
}

/// Whether a response may be applied: no newer request has started since
/// its own.
pub fn response_is_current(request_generation: u64, current_generation: u64) -> (r: bool)
    ensures
        r == (request_generation == current_generation),
{
    request_generation == current_generation
}

/// A response to an earlier request is never current once a new request
/// has started.
pub proof fn lemma_newer_request_supersedes(generation: u64)
    ensures
        spec_next_generation(generation) != generation,
{
}

/// The list half of a paged table: the generation of its latest request,
/// the page shown with its cursor and the history of cursors before it,
/// whether a page is loading, and the last error shown.
pub struct PageList<P> {
    pub generation: u64,
    pub page: P,
    pub cursor: Option<String>,
    pub history: Vec<Option<String>>,
    pub loading: bool,
    pub error: Option<String>,
}

/// What a page response asks of the workbench beyond the list itself.
#[derive(Clone, Copy, Debug, PartialEq, Eq, Structural)]
pub enum PageOutcome {
    /// A newer request has started: the response is dropped and nothing
    /// else happens, neither to the selection and its detail nor to the
    /// session.
    Stale,
    /// The page is shown: reconcile the selected row's detail.
    Loaded,
    /// The session has ended: settle the detail and sign out.
    SignOut,
    /// The page failed: settle the detail; the error is shown.
    Failed,
}

/// The list after a new page request has started: a new generation,
/// loading, and no error; the page, cursor and history shown stay.
pub open spec fn spec_start_page<P>(list: PageList<P>) -> PageList<P> {
    PageList {
        generation: spec_next_generation(list.generation),
        loading: true,
        error: None,
        ..list
    }
}

/// The list after a response to the request of `generation` came back,
/// and what it asks of the workbench: a stale response changes nothing; a
/// page is shown with the cursor and history it was requested with; an
/// ended session only stops the loading; another error is shown.
pub open spec fn spec_receive_page<P>(
    list: PageList<P>,
    generation: u64,
    cursor: Option<String>,
    history: Vec<Option<String>>,
    response: Result<P, ApiError>,
) -> (PageList<P>, PageOutcome) {
    if list.generation != generation {
        (list, PageOutcome::Stale)
    } else {
        match response {
            Ok(page) => (
                PageList { page, cursor, history, loading: false, ..list },
                PageOutcome::Loaded,
            ),
            Err(e) => if e.unauthorized {
                (PageList { loading: false, ..list }, PageOutcome::SignOut)
            } else {
                (PageList { loading: false, error: Some(e.message), ..list }, PageOutcome::Failed)
            },
        }
    }
}

/// Starts a page request: returns the generation its response will carry.
pub fn start_page<P>(list: &mut PageList<P>) -> (generation: u64)
    ensures
        *final(list) == spec_start_page(*old(list)),
        generation == final(list).generation,
{
    let generation = next_generation(list.generation);
    list.generation = generation;
    list.loading = true;
    list.error = None;
    generation
}

/// Applies the response to the request of `generation`, which was made for
/// `cursor` with `history` behind it.
pub fn receive_page<P>(
    list: &mut PageList<P>,
    generation: u64,
    cursor: Option<String>,
    history: Vec<Option<String>>,
    response: Result<P, ApiError>,
) -> (outcome: PageOutcome)
    ensures
        (*final(list), outcome) == spec_receive_page(*old(list), generation, cursor, history, response),
{
    if !response_is_current(generation, list.generation) {
        return PageOutcome::Stale;
    }
    list.loading = false;
    match response {
        Ok(page) => {
            list.page = page;
            list.cursor = cursor;
            list.history = history;
            PageOutcome::Loaded
        },
        Err(e) => {
            if e.unauthorized {
                PageOutcome::SignOut
            } else {
                list.error = Some(e.message);
                PageOutcome::Failed
            }
        },
    }
}

/// A response overtaken by a newer request changes nothing: after a
/// request and then another one, whatever comes back for the first leaves
/// the list as it is and asks for nothing more.
pub proof fn lemma_superseded_response_changes_nothing<P>(
    list: PageList<P>,
    cursor: Option<String>,
    history: Vec<Option<String>>,
    response: Result<P, ApiError>,
)
    ensures
        ({
            let first = spec_start_page(list);
            let second = spec_start_page(first);
            spec_receive_page(second, first.generation, cursor, history, response) == (
            second,
            PageOutcome::Stale,
            )
        }),
{
}

/// A page and the history of the pages before it, with the history taken
/// by its view.
pub open spec fn page_view(
    r: Option<(Option<String>, Vec<Option<String>>)>,
) -> Option<(Option<String>, Seq<Option<String>>)> {
    match r {
        None => None,
        Some((c, h)) => Some((c, h@)),
    }
}

/// Where "next" leads: the next cursor, with the current one pushed onto
/// the history; nowhere when there is no next page.
pub open spec fn spec_next_page(
    current: Option<String>,
    history: Seq<Option<String>>,
    next_cursor: Option<String>,
) -> Option<(Option<String>, Seq<Option<String>>)> {
    match next_cursor {
        None => None,
        Some(n) => Some((Some(n), history.push(current))),
    }
}

/// Where "previous" leads: the cursor on top of the history, with the
/// history below it; nowhere on the first page.
pub open spec fn spec_previous_page(
    history: Seq<Option<String>>,
) -> Option<(Option<String>, Seq<Option<String>>)> {
    if history.len() == 0 {
        None
    } else {
        Some((history.last(), history.drop_last()))
    }
}

/// The page to load for "next": the next cursor, with the current one
/// pushed onto the history; nothing when there is no next page.
pub fn next_page(
    current: Option<String>,
    history: Vec<Option<String>>,
    next_cursor: Option<String>,
) -> (r: Option<(Option<String>, Vec<Option<String>>)>)
    ensures
        page_view(r) == spec_next_page(current, history@, next_cursor),
{
    match next_cursor {
        None => None,
        Some(n) => {
            let mut h = history;
            h.push(current);
            Some((Some(n), h))
        },
    }
}

/// The page to load for "previous": the cursor on top of the history, with
/// the history below it; nothing on the first page.
pub fn previous_page(history: Vec<Option<String>>) -> (r: Option<(Option<String>, Vec<Option<String>>)>)
    ensures
        page_view(r) == spec_previous_page(history@),
{
    let mut h = history;
    match h.pop() {
        None => None,
        Some(c) => Some((c, h)),
    }
}

/// Going back after going forward returns to the page and history that
/// were shown before.
pub proof fn lemma_previous_undoes_next(
    current: Option<String>,
    history: Seq<Option<String>>,
    next_cursor: String,
)
    ensures
        spec_next_page(current, history, Some(next_cursor)) matches Some((_, forward))
            && spec_previous_page(forward) == Some((current, history)),
{
    assert(history.push(current).drop_last() =~= history);
}

/// Whether the selected row is still on a page that has loaded.
pub fn still_listed(page_ids: &Vec<i64>, selected: i64) -> (r: bool)
    ensures
        r == page_ids@.contains(selected),
{
    let mut i: usize = 0;
    while i < page_ids.len()
        invariant
            i <= page_ids@.len(),
            forall|j: int| 0 <= j < i ==> page_ids@[j] != selected,
        decreases page_ids@.len() - i,
    {
        if page_ids[i] == selected {
            assert(page_ids@[i as int] == selected);
            return true;
        }
        i = i + 1;
    }
    false
}

} // verus!

verus! {

/// The state of a workbench's idempotent commands: whether one is in
/// flight, the message shown, and the command kept (with its idempotency
/// key) to be sent again as it is.
pub struct CommandState<C> {
    pub pending: bool,
    pub error: Option<String>,
    pub retry: Option<C>,
}

/// What happens to a workbench's commands.
pub enum CommandEvent<C, V> {
    /// A new command, with its own idempotency key.
    Dispatch(C),
    /// The kept command is to be sent again, key and all.
    Retry,
    /// The answer to the command in flight.
    Answered(Result<V, ApiError>),
}

/// What the workbench does after a step.
pub enum CommandEffect<V> {
    /// Post the kept command.
    Send,
    /// The command was applied: show its notice and reload, with this answer.
    Done(V),
    /// The command failed: show this message (the state holds it too).
    Failed(String),
    /// The session has ended: sign out.
    SignOut,
    /// Nothing to do.
    Nothing,
}

/// One step of a workbench's idempotent commands. While a command is in
/// flight nothing changes and nothing is sent. A new command, or the kept
/// one, is kept and sent with the message cleared. When the answer comes,
/// nothing is pending: an applied command is no longer kept; an ended
/// session signs out and leaves the rest; another failure shows its
/// message and keeps the command, key and all, exactly when its outcome is
/// unknown.
pub open spec fn spec_dispatch_step<C, V>(
    state: CommandState<C>,
    event: CommandEvent<C, V>,
    next: CommandState<C>,
    effect: CommandEffect<V>,
) -> bool {
    match event {
        CommandEvent::Dispatch(c) => if state.pending {
            next == state && effect is Nothing
        } else {
            next == CommandState { pending: true, error: None, retry: Some(c) } && effect is Send
        },
        CommandEvent::Retry => if state.pending || state.retry is None {
            next == state && effect is Nothing
        } else {
            next == CommandState { pending: true, error: None, ..state } && effect is Send
        },
        CommandEvent::Answered(answer) => if !state.pending {
            next == state && effect is Nothing
        } else {
            match answer {
                Ok(v) => next == CommandState { pending: false, retry: None, ..state } && effect == CommandEffect::Done(v),
                Err(e) => if e.unauthorized {
                    next == CommandState { pending: false, ..state } && effect is SignOut
                } else {
                    &&& !next.pending
                    &&& next.retry == (if e.ambiguous_outcome {
                        state.retry
                    } else {
                        None
                    })
                    &&& next.error matches Some(m) && m@ == e.message@
                    &&& effect matches CommandEffect::Failed(m) && m@ == e.message@
                },
            }
        },
    }
}

/// Takes one step of a workbench's idempotent commands.
pub fn dispatch_step<C, V>(state: CommandState<C>, event: CommandEvent<C, V>) -> (r: (
    CommandState<C>,
    CommandEffect<V>,
))
    ensures
        spec_dispatch_step(state, event, r.0, r.1),
{
    match event {
        CommandEvent::Dispatch(c) => {
            if state.pending {
                (state, CommandEffect::Nothing)
            } else {
                (CommandState { pending: true, error: None, retry: Some(c) }, CommandEffect::Send)
            }
        },
        CommandEvent::Retry => {
            if state.pending || state.retry.is_none() {
                (state, CommandEffect::Nothing)
            } else {
                (CommandState { pending: true, error: None, ..state }, CommandEffect::Send)
            }
        },
        CommandEvent::Answered(answer) => {
            if !state.pending {
                return (state, CommandEffect::Nothing);
            }
            match answer {
                Ok(v) => (CommandState { pending: false, retry: None, ..state }, CommandEffect::Done(v)),
                Err(e) => {
                    if e.unauthorized {
                        (CommandState { pending: false, ..state }, CommandEffect::SignOut)
                    } else {
                        let kept = if e.ambiguous_outcome {
                            state.retry
                        } else {
                            None
                        };
                        let shown = e.message.clone();
                        (CommandState { pending: false, error: Some(e.message), retry: kept }, CommandEffect::Failed(shown))
                    }
                },
            }
        },
    }
}

/// A command whose outcome is unknown is kept to be sent again with the
/// same key, and sending it again posts exactly that command.
pub proof fn lemma_ambiguous_command_is_retried_as_is<C, V>(
    state: CommandState<C>,
    command: C,
    error: ApiError,
)
    requires
        !state.pending,
        !error.unauthorized,
        error.ambiguous_outcome,
    ensures
        ({
            let sent = CommandState { pending: true, error: None, retry: Some(command) };
            let failed = CommandState {
                pending: false,
                error: Some(error.message),
                retry: Some(command),
            };
            &&& spec_dispatch_step(state, CommandEvent::<C, V>::Dispatch(command), sent, CommandEffect::Send)
            &&& spec_dispatch_step(
                sent,
                CommandEvent::<C, V>::Answered(Err(error)),
                failed,
                CommandEffect::Failed(error.message),
            )
            &&& spec_dispatch_step(
                failed,
                CommandEvent::<C, V>::Retry,
                CommandState { pending: true, error: None, retry: Some(command) },
                CommandEffect::Send,
            )
        }),
{
}

} // verus!

verus! {

/// The detail half of a table: the generation of its latest request, the
/// selected row, its detail once loaded, whether it is loading, and the
/// last error shown.
pub struct DetailPane<D> {
    pub generation: u64,
    pub selected: Option<i64>,
    pub detail: Option<D>,
    pub loading: bool,
    pub error: Option<String>,
}

/// The pane after a row was selected: a new generation, the row selected,
/// no detail yet, loading, no error.
pub open spec fn spec_select_detail<D>(pane: DetailPane<D>, id: i64) -> DetailPane<D> {
    DetailPane {
        generation: spec_next_generation(pane.generation),
        selected: Some(id),
        detail: None,
        loading: true,
        error: None,
    }
}

/// The pane after the detail requested for `id` at `generation` came back,
/// and what it asks: a response to an older request, or for a row no
/// longer selected, changes nothing; a detail is shown; an ended session
/// stops the loading and signs out; another error is shown.
pub open spec fn spec_receive_detail<D>(
    pane: DetailPane<D>,
    generation: u64,
    id: i64,
    response: Result<D, ApiError>,
) -> (DetailPane<D>, PageOutcome) {
    if pane.generation != generation || pane.selected != Some(id) {
        (pane, PageOutcome::Stale)
    } else {
        match response {
            Ok(d) => (DetailPane { detail: Some(d), loading: false, ..pane }, PageOutcome::Loaded),
            Err(e) => if e.unauthorized {
                (DetailPane { loading: false, ..pane }, PageOutcome::SignOut)
            } else {
                (DetailPane { loading: false, error: Some(e.message), ..pane }, PageOutcome::Failed)
            },
        }
    }
}

/// Selects a row: returns the generation its detail's response will carry.
pub fn select_detail<D>(pane: &mut DetailPane<D>, id: i64) -> (generation: u64)
    ensures
        *final(pane) == spec_select_detail(*old(pane), id),
        generation == final(pane).generation,
{
    let generation = next_generation(pane.generation);
    pane.generation = generation;
    pane.selected = Some(id);
    pane.detail = None;
    pane.loading = true;
    pane.error = None;
    generation
}

/// Applies the detail requested for `id` at `generation`.
pub fn receive_detail<D>(
    pane: &mut DetailPane<D>,
    generation: u64,
    id: i64,
    response: Result<D, ApiError>,
) -> (outcome: PageOutcome)
    ensures
        (*final(pane), outcome) == spec_receive_detail(*old(pane), generation, id, response),
{
    let current = match pane.selected {
        Some(s) => s == id,
        None => false,
    };
    if !response_is_current(generation, pane.generation) || !current {
        return PageOutcome::Stale;
    }
    pane.loading = false;
    match response {
        Ok(d) => {
            pane.detail = Some(d);
            PageOutcome::Loaded
        },
        Err(e) => {
            if e.unauthorized {
                PageOutcome::SignOut
            } else {
                pane.error = Some(e.message);
                PageOutcome::Failed
            }
        },
    }
}

/// A detail overtaken by the selection of another row, or of the same row
/// again, changes nothing.
pub proof fn lemma_superseded_detail_changes_nothing<D>(
    pane: DetailPane<D>,
    first: i64,
    second: i64,
    response: Result<D, ApiError>,
)
    ensures
        ({
            let a = spec_select_detail(pane, first);
            let b = spec_select_detail(a, second);
            spec_receive_detail(b, a.generation, first, response) == (b, PageOutcome::Stale)
        }),
{
}

} // verus!

verus! {

/// While a command is in flight, neither a new command nor a retry
/// changes anything or sends anything.
pub proof fn lemma_dispatch_one_at_a_time<C, V>(
    state: CommandState<C>,
    event: CommandEvent<C, V>,
    next: CommandState<C>,
    effect: CommandEffect<V>,
)
    requires
        spec_dispatch_step(state, event, next, effect),
        state.pending,
        !(event is Answered),
    ensures
        next == state,
        effect is Nothing,
{
}

/// When a command fails and the session is still valid, nothing is pending
/// any more, its message is shown, and the command, with its key, is kept
/// for a retry exactly when its outcome is unknown.
pub proof fn lemma_failed_command_kept_iff_ambiguous<C, V>(
    state: CommandState<C>,
    error: ApiError,
    next: CommandState<C>,
    effect: CommandEffect<V>,
)
    requires
        spec_dispatch_step(state, CommandEvent::Answered(Err(error)), next, effect),
        state.pending,
        !error.unauthorized,
    ensures
        !next.pending,
        next.error matches Some(m) && m@ == error.message@,
        effect matches CommandEffect::Failed(m) && m@ == error.message@,
        error.ambiguous_outcome ==> next.retry == state.retry,
        !error.ambiguous_outcome ==> next.retry is None,
{
}

/// A new command is kept as sent, so a retry posts that very command.
pub proof fn lemma_dispatched_command_is_kept<C, V>(
    state: CommandState<C>,
    command: C,
    next: CommandState<C>,
    effect: CommandEffect<V>,
)
    requires
        spec_dispatch_step(state, CommandEvent::Dispatch(command), next, effect),
        !state.pending,
    ensures
        next.pending,
        next.error is None,
        next.retry == Some(command),
        effect is Send,
{
}

/// An applied command is no longer kept.
pub proof fn lemma_applied_command_is_dropped<C, V>(
    state: CommandState<C>,
    answer: V,
    next: CommandState<C>,
    effect: CommandEffect<V>,
)
    requires
        spec_dispatch_step(state, CommandEvent::Answered(Ok(answer)), next, effect),
        state.pending,
    ensures
        !next.pending,
        next.retry is None,
        effect == CommandEffect::Done(answer),
{
}

} // verus!
