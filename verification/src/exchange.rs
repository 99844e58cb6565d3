//! Whole requests against a settings store.
//!
//! The handlers never touch the store; they say which access they need.
//! This module states what a request comes to when the caller performs
//! that access, on a store that answers every read with what it holds and
//! runs every write, and on one that fails, and proves what follows for the
//! counter as a client sees it. The write is an update in place: it sets
//! the value of the setting's row and creates no row.

use crate::action::{Action, CounterActionView};
use crate::error::ErrorView;
use crate::handler::{fetch_reply, get_step, post_step, post_target, reply_at, store_reply};
use crate::path::{carried_count, lemma_url_carries_count, url_text};
use crate::reply::{ReplyView, StepView};
use crate::store::{FetchedView, StoredView};
use crate::uri::uri_accepts;
use vstd::prelude::*;

verus! {

/// What the store holds under the name of the default count.
pub enum Setting {
    /// No row. The schema's set-up creates the row, so this is a store that
    /// was not set up.
    Missing,
    /// A row without a value.
    Blank,
    /// A row with a value.
    Value { value: int },
}

impl Setting {
    /// Whether the store has the setting's row.
    pub open spec fn has_row(self) -> bool {
        !(self is Missing)
    }

    /// The store's answer to a read.
    pub open spec fn fetched(self) -> FetchedView {
        match self {
            Setting::Missing => FetchedView::NoRow,
            Setting::Blank => FetchedView::Row { value: None },
            Setting::Value { value } => FetchedView::Row { value: Some(value) },
        }
    }

    /// The store after a write of `value`.
    pub open spec fn written(self, value: int) -> Setting {
        match self {
            Setting::Missing => Setting::Missing,
            Setting::Blank => Setting::Value { value },
            Setting::Value { .. } => Setting::Value { value },
        }
    }
}

/// A request as it ended: what the store holds afterwards, and the reply or
/// the failure.
pub struct Exchange {
    pub setting: Setting,
    pub outcome: Result<ReplyView, ErrorView>,
}

/// Carries out a handler's first step on the store.
pub open spec fn perform(setting: Setting, step: Result<StepView, ErrorView>) -> Exchange {
    match step {
        Ok(StepView::Respond { reply }) => Exchange { setting, outcome: Ok(reply) },
        Ok(StepView::Fetch { pending }) => Exchange {
            setting,
            outcome: fetch_reply(pending, setting.fetched()),
        },
        Ok(StepView::Store { value, reply }) => Exchange {
            setting: setting.written(value),
            outcome: store_reply(reply, StoredView::Done),
        },
        Err(error) => Exchange { setting, outcome: Err(error) },
    }
}

/// Carries out a handler's first step on a store that fails the access it
/// is asked for, in the words `reason`. A statement that fails changes
/// nothing.
pub open spec fn perform_failing(
    setting: Setting,
    step: Result<StepView, ErrorView>,
    reason: Seq<char>,
) -> Exchange {
    match step {
        Ok(StepView::Respond { reply }) => Exchange { setting, outcome: Ok(reply) },
        Ok(StepView::Fetch { pending }) => Exchange {
            setting,
            outcome: fetch_reply(pending, FetchedView::Failed { reason }),
        },
        Ok(StepView::Store { value, reply }) => Exchange {
            setting,
            outcome: store_reply(reply, StoredView::Failed { reason }),
        },
        Err(error) => Exchange { setting, outcome: Err(error) },
    }
}

/// Reading the counter, with the count that the request states.
pub open spec fn get_exchange(setting: Setting, initial: Option<int>) -> Exchange {
    perform(setting, Ok(get_step(initial)))
}

/// Acting on the counter, with the submitted form.
pub open spec fn post_exchange(
    setting: Setting,
    root: Seq<char>,
    form: CounterActionView,
    boosted: bool,
) -> Exchange {
    perform(setting, post_step(root, form, boosted, uri_accepts(post_target(root, form))))
}

/// What a client gets that goes to an address of the counter below `root`:
/// it reads the counter, with the count that the address carries.
pub open spec fn follow(setting: Setting, root: Seq<char>, url: Seq<char>) -> Exchange {
    get_exchange(setting, carried_count(root, url))
}

/// The form that submits `count` with the button of `action`.
pub open spec fn form_of(count: int, action: Action) -> CounterActionView {
    CounterActionView { count, action: action.label_text() }
}

/// Whether the enhanced reply to `action` on `count` is refused because the
/// address of the counter below `root` is no URI.
pub open spec fn refused(root: Seq<char>, count: int, action: Action, boosted: bool) -> bool {
    boosted && !uri_accepts(url_text(root, action.carried(count)))
}

/// The form of an action is read as that action, and the reply to it tells
/// the client the address that carries what the action makes of the count.
pub proof fn lemma_form_target(root: Seq<char>, count: int, action: Action)
    ensures
        Action::from_label(form_of(count, action).action) == Some(action),
        post_target(root, form_of(count, action)) == url_text(root, action.carried(count)),
{
    crate::action::lemma_label_names_action(action);
}

/// Raising the count `count` displays `count + 1`. A plain client is sent
/// to the address that carries `count + 1`, and the page it finds there
/// displays `count + 1`; an enhanced client is handed `count + 1` with that
/// address. The store is left as it was.
pub proof fn inc_displays_successor(setting: Setting, root: Seq<char>, count: int, boosted: bool)
    requires
        !refused(root, count, Action::Inc, boosted),
    ensures
        ({
            let done = post_exchange(setting, root, form_of(count, Action::Inc), boosted);
            let url = url_text(root, Some(count + 1));
            &&& done.setting == setting
            &&& done.outcome == Ok::<ReplyView, ErrorView>(reply_at(boosted, url, count + 1))
            &&& carried_count(root, url) == Some(count + 1)
            &&& follow(setting, root, url).outcome == Ok::<ReplyView, ErrorView>(
                ReplyView::Page { count: count + 1 },
            )
        }),
{
    lemma_form_target(root, count, Action::Inc);
    lemma_url_carries_count(root, Some(count + 1));
}

/// Lowering the count `count` displays `count - 1`, in the same way as
/// raising it displays `count + 1`.
pub proof fn dec_displays_predecessor(setting: Setting, root: Seq<char>, count: int, boosted: bool)
    requires
        !refused(root, count, Action::Dec, boosted),
    ensures
        ({
            let done = post_exchange(setting, root, form_of(count, Action::Dec), boosted);
            let url = url_text(root, Some(count - 1));
            &&& done.setting == setting
            &&& done.outcome == Ok::<ReplyView, ErrorView>(reply_at(boosted, url, count - 1))
            &&& carried_count(root, url) == Some(count - 1)
            &&& follow(setting, root, url).outcome == Ok::<ReplyView, ErrorView>(
                ReplyView::Page { count: count - 1 },
            )
        }),
{
    lemma_form_target(root, count, Action::Dec);
    lemma_url_carries_count(root, Some(count - 1));
}

/// Asking for the default displays the value that the store holds,
/// whatever count was submitted. A plain client is sent to the address that
/// carries no count, and the page it finds there displays the stored value;
/// an enhanced client is handed the stored value with that address. The
/// store is left as it was.
pub proof fn default_displays_stored_value(
    value: int,
    root: Seq<char>,
    count: int,
    boosted: bool,
)
    requires
        !refused(root, count, Action::Default, boosted),
    ensures
        ({
            let setting = Setting::Value { value };
            let done = post_exchange(setting, root, form_of(count, Action::Default), boosted);
            let url = url_text(root, None);
            &&& done.setting == setting
            &&& done.outcome == Ok::<ReplyView, ErrorView>(reply_at(boosted, url, value))
            &&& follow(setting, root, url).outcome == Ok::<ReplyView, ErrorView>(
                ReplyView::Page { count: value },
            )
        }),
{
    lemma_form_target(root, count, Action::Default);
    lemma_url_carries_count(root, None);
}

/// Setting the default stores the submitted count, and the submitted count
/// is what the counter then displays by default: to a request that reads
/// the counter without a count, and to one that asks for the default,
/// whatever count that one submits. The store must have the setting's row:
/// a write creates none.
pub proof fn set_default_then_default(
    setting: Setting,
    root: Seq<char>,
    count: int,
    boosted: bool,
    later_count: int,
)
    requires
        setting.has_row(),
        !refused(root, count, Action::SetDefault, boosted),
    ensures
        ({
            let done = post_exchange(setting, root, form_of(count, Action::SetDefault), boosted);
            let url = url_text(root, None);
            let again = post_exchange(
                done.setting,
                root,
                form_of(later_count, Action::Default),
                true,
            );
            &&& done.setting == Setting::Value { value: count }
            &&& done.outcome == Ok::<ReplyView, ErrorView>(reply_at(boosted, url, count))
            &&& get_exchange(done.setting, None).outcome == Ok::<ReplyView, ErrorView>(
                ReplyView::Page { count },
            )
            &&& follow(done.setting, root, url).outcome == Ok::<ReplyView, ErrorView>(
                ReplyView::Page { count },
            )
            &&& uri_accepts(url) ==> again.outcome == Ok::<ReplyView, ErrorView>(
                ReplyView::Fragment { push_url: url, count },
            )
        }),
{
    lemma_form_target(root, count, Action::SetDefault);
    lemma_form_target(root, later_count, Action::Default);
    lemma_url_carries_count(root, None);
}

/// Asking for the default twice in a row gives the same outcome both
/// times, whatever the store holds and whatever counts are submitted.
pub proof fn default_twice_is_default_once(
    setting: Setting,
    root: Seq<char>,
    first_count: int,
    second_count: int,
    boosted: bool,
)
    ensures
        ({
            let first = post_exchange(setting, root, form_of(first_count, Action::Default), boosted);
            let second = post_exchange(
                first.setting,
                root,
                form_of(second_count, Action::Default),
                boosted,
            );
            &&& first.setting == setting
            &&& second.setting == setting
            &&& second.outcome == first.outcome
        }),
{
    lemma_form_target(root, first_count, Action::Default);
    lemma_form_target(root, second_count, Action::Default);
}

/// The page that answers a request with a count displays that count, so
/// its form submits it: acting on the page is acting on the count of the
/// request.
pub proof fn page_submits_requested_count(
    setting: Setting,
    root: Seq<char>,
    count: int,
    action: Action,
    boosted: bool,
)
    ensures
        ({
            let page = get_exchange(setting, Some(count));
            &&& page.setting == setting
            &&& page.outcome == Ok::<ReplyView, ErrorView>(ReplyView::Page { count })
            &&& post_exchange(
                page.setting,
                root,
                form_of(page.outcome->Ok_0.displayed()->Some_0, action),
                boosted,
            ) == post_exchange(setting, root, form_of(count, action), boosted)
        }),
{
}

/// An enhanced and a plain client that submit the same form to the same
/// store are told the same address, leave the same store behind, and see
/// the same count: the count of the fragment is the count on the page at
/// that address. Where the form sets the default, the store must have the
/// setting's row.
pub proof fn enhanced_matches_plain(setting: Setting, root: Seq<char>, form: CounterActionView)
    requires
        Action::from_label(form.action) == Some(Action::SetDefault) ==> setting.has_row(),
    ensures
        ({
            let enhanced = post_exchange(setting, root, form, true);
            let plain = post_exchange(setting, root, form, false);
            enhanced.outcome matches Ok(ReplyView::Fragment { push_url, count }) ==> {
                &&& plain.outcome == Ok::<ReplyView, ErrorView>(
                    ReplyView::Redirect { location: push_url },
                )
                &&& plain.setting == enhanced.setting
                &&& follow(plain.setting, root, push_url).outcome == Ok::<ReplyView, ErrorView>(
                    ReplyView::Page { count },
                )
            }
        }),
{
    match Action::from_label(form.action) {
        Some(action) => {
            lemma_url_carries_count(root, action.carried(form.count));
        },
        None => {},
    }
}

/// Reading the counter without a count from a store that holds no default
/// fails with the missing default. It does not display zero.
pub proof fn missing_default_is_reported(setting: Setting)
    requires
        !(setting is Value),
    ensures
        get_exchange(setting, None).outcome == Err::<ReplyView, ErrorView>(
            ErrorView::MissingDefault,
        ),
        get_exchange(setting, None).setting == setting,
{
}

/// A form whose label names no action fails with that label, for either
/// kind of client.
pub proof fn unknown_action_is_refused(
    setting: Setting,
    root: Seq<char>,
    form: CounterActionView,
    boosted: bool,
)
    requires
        Action::from_label(form.action) is None,
    ensures
        post_exchange(setting, root, form, boosted).outcome == Err::<ReplyView, ErrorView>(
            ErrorView::InvalidAction { action: form.action },
        ),
        post_exchange(setting, root, form, boosted).setting == setting,
{
}

/// A request that fails leaves the store as it was.
pub proof fn failure_changes_nothing(
    setting: Setting,
    root: Seq<char>,
    form: CounterActionView,
    boosted: bool,
)
    ensures
        post_exchange(setting, root, form, boosted).outcome is Err ==> post_exchange(
            setting,
            root,
            form,
            boosted,
        ).setting == setting,
        forall|initial: Option<int>| #[trigger] get_exchange(setting, initial).setting == setting,
{
}

/// A request to a store that fails either needs no store, and ends as it
/// would have with a store that works, or fails with the store's words. In
/// both cases the store is left as it was.
pub proof fn store_failure_fails_the_request(
    setting: Setting,
    root: Seq<char>,
    form: CounterActionView,
    boosted: bool,
    reason: Seq<char>,
)
    ensures
        ({
            let step = post_step(root, form, boosted, uri_accepts(post_target(root, form)));
            let done = perform_failing(setting, step, reason);
            &&& done.setting == setting
            &&& if step is Ok && step->Ok_0.needs_store() {
                done.outcome == Err::<ReplyView, ErrorView>(ErrorView::Store { reason })
            } else {
                done == perform(setting, step)
            }
        }),
        ({
            let read = perform_failing(setting, Ok(get_step(None)), reason);
            &&& read.setting == setting
            &&& read.outcome == Err::<ReplyView, ErrorView>(ErrorView::Store { reason })
        }),
        forall|count: int|
            #[trigger] perform_failing(setting, Ok(get_step(Some(count))), reason)
                == get_exchange(setting, Some(count)),
{
}

/// Only setting the default writes to the store: after any other action
/// the store holds what it held.
pub proof fn only_set_default_writes(
    setting: Setting,
    root: Seq<char>,
    form: CounterActionView,
    boosted: bool,
)
    requires
        Action::from_label(form.action) != Some(Action::SetDefault),
    ensures
        post_exchange(setting, root, form, boosted).setting == setting,
{
}

} // verus!
