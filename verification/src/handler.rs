//! The two handlers of the counter resource: reading it and acting on it.
//!
//! A request needs the settings store at most once. A handler therefore
//! answers with a step: the reply itself, or the one store access that the
//! reply waits for. The caller performs the access and hands the store's
//! answer to `after_fetch` or `after_store`, which gives the reply.

use crate::action::{Action, CounterAction, CounterActionView};
use crate::error::{CounterError, ErrorView};
use crate::path::{concat_url, count_of, url_text, CounterState};
use crate::reply::{Pending, PendingView, Reply, ReplyView, Step, StepView};
use crate::store::{default_of, Fetched, FetchedView, Stored, StoredView};
use crate::uri::{check_url, uri_accepts};
use vstd::prelude::*;

verus! {

/// The view of a step or the failure to take one.
pub open spec fn step_view(outcome: Result<Step, CounterError>) -> Result<StepView, ErrorView> {
    match outcome {
        Ok(step) => Ok(step@),
        Err(error) => Err(error@),
    }
}

/// The view of a reply or the failure to give one.
pub open spec fn reply_view(outcome: Result<Reply, CounterError>) -> Result<ReplyView, ErrorView> {
    match outcome {
        Ok(reply) => Ok(reply@),
        Err(error) => Err(error@),
    }
}

/// The first step of reading the counter: the page with the count that the
/// request states, or, where it states none, a read of the default.
pub open spec fn get_step(initial: Option<int>) -> StepView {
    match initial {
        Some(count) => StepView::Respond { reply: ReplyView::Page { count } },
        None => StepView::Fetch { pending: PendingView::Page },
    }
}

/// The reply that tells the client the address `url` and the count that
/// belongs to it. A plain client is sent to the address, where it finds the
/// count; an enhanced client is handed the count itself, with the address
/// to show for it.
pub open spec fn reply_at(boosted: bool, url: Seq<char>, count: int) -> ReplyView {
    if boosted {
        ReplyView::Fragment { push_url: url, count }
    } else {
        ReplyView::Redirect { location: url }
    }
}

/// The first step of taking `action` on `count`, for a reply that tells the
/// client the address `url`. Only an enhanced reply needs the address to be
/// a URI; `accepted` says whether it is one. An address that is refused
/// fails the request before anything is written.
pub open spec fn action_step(
    action: Action,
    count: int,
    boosted: bool,
    url: Seq<char>,
    accepted: bool,
) -> Result<StepView, ErrorView> {
    if boosted && !accepted {
        Err(ErrorView::InvalidUrl)
    } else {
        Ok(
            match action {
                Action::Inc => StepView::Respond { reply: reply_at(boosted, url, count + 1) },
                Action::Dec => StepView::Respond { reply: reply_at(boosted, url, count - 1) },
                Action::Default => if boosted {
                    StepView::Fetch { pending: PendingView::Fragment { push_url: url } }
                } else {
                    StepView::Respond { reply: ReplyView::Redirect { location: url } }
                },
                Action::SetDefault => StepView::Store {
                    value: count,
                    reply: reply_at(boosted, url, count),
                },
            },
        )
    }
}

/// The address that the reply to a submitted form tells the client: the
/// counter below `root`, with the new count where the action makes one.
pub open spec fn post_target(root: Seq<char>, form: CounterActionView) -> Seq<char> {
    match Action::from_label(form.action) {
        Some(action) => url_text(root, action.carried(form.count)),
        None => url_text(root, None),
    }
}

/// The first step of acting on the counter. A label that names no action
/// fails the request; nothing is read or written for it.
pub open spec fn post_step(
    root: Seq<char>,
    form: CounterActionView,
    boosted: bool,
    accepted: bool,
) -> Result<StepView, ErrorView> {
    match Action::from_label(form.action) {
        Some(action) => action_step(
            action,
            form.count,
            boosted,
            post_target(root, form),
            accepted,
        ),
        None => Err(ErrorView::InvalidAction { action: form.action }),
    }
}

/// The reply once the store has answered a read: the default count,
/// displayed as `pending` says, or the failure to get it.
pub open spec fn fetch_reply(pending: PendingView, fetched: FetchedView) -> Result<
    ReplyView,
    ErrorView,
> {
    match default_of(fetched) {
        Ok(count) => Ok(
            match pending {
                PendingView::Page => ReplyView::Page { count },
                PendingView::Fragment { push_url } => ReplyView::Fragment { push_url, count },
            },
        ),
        Err(error) => Err(error),
    }
}

/// The reply once the store has answered a write: the reply that waited
/// for it, or the store's failure.
pub open spec fn store_reply(reply: ReplyView, stored: StoredView) -> Result<
    ReplyView,
    ErrorView,
> {
    match stored {
        StoredView::Done => Ok(reply),
        StoredView::Failed { reason } => Err(ErrorView::Store { reason }),
    }
}

/// Reads the counter. The count that the request states is displayed as it
/// is; a request that states none displays the stored default.
pub fn get_counter(initial_value: Option<CounterState>) -> (step: Step)
    ensures
        step@ == get_step(count_of(initial_value)),
{
    match initial_value {
        Some(CounterState { count }) => Step::Respond { reply: Reply::Page { count } },
        None => Step::Fetch { pending: Pending::Page },
    }
}

/// Replies with the address `url` and the count that belongs to it.
fn reply_with(is_boosted: bool, url: String, count: i64) -> (reply: Reply)
    ensures
        reply@ == reply_at(is_boosted, url@, count as int),
{
    if is_boosted {
        Reply::Fragment { push_url: url, count }
    } else {
        Reply::Redirect { location: url }
    }
}

/// Takes `action` on `count`, for a reply that tells the client the address
/// `url`. `refusal` holds the words with which the address was refused as a
/// URI, and nothing if it was accepted or not looked at; a plain reply
/// never looks at it.
pub fn respond(
    action: Action,
    count: i64,
    is_boosted: bool,
    url: String,
    refusal: Option<String>,
) -> (step: Result<Step, CounterError>)
    requires
        action.fits(count as int),
    ensures
        step_view(step) == action_step(action, count as int, is_boosted, url@, refusal is None),
        step matches Err(CounterError::InvalidUrl { reason }) ==> refusal == Some(reason),
{
    if is_boosted {
        if let Some(reason) = refusal {
            return Err(CounterError::InvalidUrl { reason });
        }
    }
    let step = match action {
        Action::Inc => Step::Respond { reply: reply_with(is_boosted, url, count + 1) },
        Action::Dec => Step::Respond { reply: reply_with(is_boosted, url, count - 1) },
        Action::Default => if is_boosted {
            Step::Fetch { pending: Pending::Fragment { push_url: url } }
        } else {
            Step::Respond { reply: Reply::Redirect { location: url } }
        },
        Action::SetDefault => Step::Store { value: count, reply: reply_with(is_boosted, url, count) },
    };
    Ok(step)
}

/// Acts on the counter. `root` is the prefix below which the application
/// mounts the resource, and `is_boosted` says whether the client is an
/// enhanced one.
///
/// The reply tells the client the address of the counter below `root`; for
/// an enhanced client that address must be a URI, and the request fails
/// where the HTTP library refuses it.
pub fn post_counter(root: &str, is_boosted: bool, action: &CounterAction) -> (step: Result<
    Step,
    CounterError,
>)
    requires
        action@.in_range(),
    ensures
        step_view(step) == post_step(
            root@,
            action@,
            is_boosted,
            uri_accepts(post_target(root@, action@)),
        ),
{
    let kind = match Action::parse(action.action.as_str()) {
        Ok(kind) => kind,
        Err(error) => {
            return Err(error);
        },
    };
    let url = concat_url(root, kind.next_state(action.count));
    let refusal = if is_boosted {
        check_url(url.as_str())
    } else {
        None
    };
    respond(kind, action.count, is_boosted, url, refusal)
}

/// Goes on after a read of the default count: displays it as `pending`
/// says. A store without a default fails the request.
pub fn after_fetch(pending: Pending, fetched: Fetched) -> (reply: Result<Reply, CounterError>)
    ensures
        reply_view(reply) == fetch_reply(pending@, fetched@),
{
    match crate::store::default(fetched) {
        Ok(count) => Ok(
            match pending {
                Pending::Page => Reply::Page { count },
                Pending::Fragment { push_url } => Reply::Fragment { push_url, count },
            },
        ),
        Err(error) => Err(error),
    }
}

/// Goes on after a write of the default count: sends the reply that waited
/// for it. A failed write fails the request.
pub fn after_store(reply: Reply, stored: Stored) -> (sent: Result<Reply, CounterError>)
    ensures
        reply_view(sent) == store_reply(reply@, stored@),
{
    match stored {
        Stored::Done => Ok(reply),
        Stored::Failed { reason } => Err(CounterError::Store { reason }),
    }
}

} // verus!
