//! The command flow shared by the administration workbenches: one command
//! at a time, each a short chain of posts; how an answer settles a post,
//! and what the workbench does once the chain is over.
use vstd::prelude::*;
use crate::api::ApiError;
use crate::url::opt_string_view;

verus! {

/// What the answer to one post means for its command.
#[derive(Clone, Debug)]
pub enum Settled {
    /// The post was accepted: the command goes on.
    Accepted,
    /// The post was refused or failed: show this message.
    Show(String),
    /// The session has ended.
    SignOut,
}

/// How an answer settles a post: `true` accepts it, `false` shows the
/// refusal message, an ended session signs out, another error shows its
/// message.
pub open spec fn settled_as(s: Settled, answer: Result<bool, ApiError>, refused: Seq<char>) -> bool {
    match answer {
        Ok(accepted) => if accepted {
            s is Accepted
        } else {
            s matches Settled::Show(m) && m@ == refused
        },
        Err(e) => if e.unauthorized {
            s is SignOut
        } else {
            s matches Settled::Show(m) && m@ == e.message@
        },
    }
}

/// Settles a post from its answer.
pub fn settle(answer: Result<bool, ApiError>, refused: &str) -> (r: Settled)
    ensures
        settled_as(r, answer, refused@),
{
    match answer {
        Ok(accepted) => if accepted {
            Settled::Accepted
        } else {
            Settled::Show(String::from_str(refused))
        },
        Err(e) => if e.unauthorized {
            Settled::SignOut
        } else {
            Settled::Show(e.message)
        },
    }
}

/// How the answer to a post that creates a record settles it: any id
/// accepts it; errors as for any post.
pub open spec fn created_as(s: Settled, answer: Result<i64, ApiError>) -> bool {
    match answer {
        Ok(_) => s is Accepted,
        Err(e) => if e.unauthorized {
            s is SignOut
        } else {
            s matches Settled::Show(m) && m@ == e.message@
        },
    }
}

/// Settles a post that creates a record.
pub fn settle_created(answer: Result<i64, ApiError>) -> (r: Settled)
    ensures
        created_as(r, answer),
{
    match answer {
        Ok(_) => Settled::Accepted,
        Err(e) => if e.unauthorized {
            Settled::SignOut
        } else {
            Settled::Show(e.message)
        },
    }
}

/// What a workbench does after a step.
#[derive(Clone, Debug)]
pub enum Effect<R> {
    /// Post this request; its answer is the next event.
    Send(R),
    /// The command is done: show this notice and reload the table.
    Succeeded(String),
    /// A record was created: empty the create form, show this notice and
    /// reload the table.
    Created(String),
    /// A line of the selected record changed: show this notice and reload
    /// its lines, emptying the line form when asked.
    LinesChanged { notice: String, clear_form: bool },
    /// The command stopped: show this message (the state holds it too).
    Failed(String),
    /// The session has ended: sign out.
    SignOut,
    /// Nothing to do.
    Nothing,
}

/// The state a workbench's commands share: whether one is in flight, the
/// message shown under its forms, the selected row, and what the command
/// in flight is doing.
#[derive(Clone, Debug)]
pub struct Workbench<F> {
    pub pending: bool,
    pub error: Option<String>,
    pub selected: Option<i64>,
    pub flow: F,
}

/// The state and effect that show a message: nothing pending, the flow
/// idle, the message under the forms and in a notice.
pub open spec fn showing<F, R>(state: Workbench<F>, message: Seq<char>, idle: F, next: Workbench<F>, effect: Effect<R>) -> bool {
    &&& !next.pending
    &&& next.flow == idle
    &&& next.selected == state.selected
    &&& opt_string_view(next.error) == Some(message)
    &&& effect matches Effect::Failed(m) && m@ == message
}

/// The state and effect after an answer that stops a command: a refusal
/// shows its message, an ended session signs out (leaving the message
/// shown as it was), another error shows the error's message; either way
/// nothing is pending and the flow is idle.
pub open spec fn stopped_by<F, R>(
    state: Workbench<F>,
    answer: Result<bool, ApiError>,
    refused: Seq<char>,
    idle: F,
    next: Workbench<F>,
    effect: Effect<R>,
) -> bool {
    match answer {
        Ok(accepted) => !accepted && showing(state, refused, idle, next, effect),
        Err(e) => if e.unauthorized {
            next == Workbench { pending: false, flow: idle, ..state } && effect is SignOut
        } else {
            showing(state, e.message@, idle, next, effect)
        },
    }
}

/// Stops a command on a refusal, a failure or an ended session.
pub fn halt<F, R>(
    state: Workbench<F>,
    s: Settled,
    idle: F,
    Ghost(answer): Ghost<Result<bool, ApiError>>,
    Ghost(refused): Ghost<Seq<char>>,
) -> (r: (Workbench<F>, Effect<R>))
    requires
        settled_as(s, answer, refused),
        !(s is Accepted),
    ensures
        stopped_by(state, answer, refused, idle, r.0, r.1),
{
    match s {
        Settled::Show(m) => {
            let shown = m.clone();
            (Workbench { pending: false, error: Some(m), flow: idle, ..state }, Effect::Failed(shown))
        },
        Settled::SignOut => (Workbench { pending: false, flow: idle, ..state }, Effect::SignOut),
        Settled::Accepted => (Workbench { pending: false, flow: idle, ..state }, Effect::Nothing),
    }
}

/// The state after a command's last post was accepted: nothing pending,
/// the flow idle, the selection as given.
pub open spec fn finished<F>(state: Workbench<F>, idle: F, selected: Option<i64>) -> Workbench<F> {
    Workbench { pending: false, flow: idle, selected, ..state }
}

/// The state when a command starts: pending, no message, the flow given.
pub open spec fn started<F>(state: Workbench<F>, flow: F) -> Workbench<F> {
    Workbench { pending: true, error: None, flow, ..state }
}

/// The state when a form is refused before anything is sent: its message
/// is shown.
pub open spec fn refused_form<F>(state: Workbench<F>, message: Seq<char>, next: Workbench<F>) -> bool {
    next.pending == state.pending && next.selected == state.selected && next.flow == state.flow
        && opt_string_view(next.error) == Some(message)
}

/// The notice of a created record: its name and ` created.`.
pub fn created_notice(name: &str) -> (r: String)
    ensures
        r@ == name@ + " created."@,
{
    let mut out = String::from_str(name);
    out.append(" created.");
    out
}

/// The notice of an updated record: its name and ` updated.`.
pub fn updated_notice(name: &str) -> (r: String)
    ensures
        r@ == name@ + " updated."@,
{
    let mut out = String::from_str(name);
    out.append(" updated.");
    out
}

} // verus!
