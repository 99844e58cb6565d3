//! What a handler answers: a reply, or the store access that it needs first.

use vstd::prelude::*;

verus! {

/// The status code of a reply that shows a page or a fragment.
pub const STATUS_OK: u16 = 200;

/// The status code of a redirect: the client is to fetch the location with
/// a GET, whatever the method of its request was.
pub const STATUS_SEE_OTHER: u16 = 303;

/// The reply to a request.
#[derive(Clone, Debug, PartialEq, Eq)]
pub enum Reply {
    /// The full page, displaying `count`. Each button of its form submits
    /// the displayed count together with the button's action.
    Page { count: i64 },
    /// A redirect to `location`, where the client finds the page.
    Redirect { location: String },
    /// The part of the page that displays the count, for a client that
    /// swaps it into the page it already shows, and the address that the
    /// client is to show for it.
    Fragment { push_url: String, count: i64 },
}

/// What a handler still has to do with the default count once the store
/// has answered.
#[derive(Clone, Debug, PartialEq, Eq)]
pub enum Pending {
    /// Display it on the full page.
    Page,
    /// Display it in a fragment, with the address that the client is to show.
    Fragment { push_url: String },
}

/// The next step of a request.
#[derive(Clone, Debug, PartialEq, Eq)]
pub enum Step {
    /// Send the reply. The store is not needed.
    Respond { reply: Reply },
    /// Read the default count from the store, then go on with `pending`.
    Fetch { pending: Pending },
    /// Write `value` to the store as the default count, then send `reply`.
    Store { value: i64, reply: Reply },
}

/// A reply with its addresses as sequences of characters.
pub enum ReplyView {
    Page { count: int },
    Redirect { location: Seq<char> },
    Fragment { push_url: Seq<char>, count: int },
}

/// A pending use of the default count, with its address as a sequence of
/// characters.
pub enum PendingView {
    Page,
    Fragment { push_url: Seq<char> },
}

/// A step with its addresses as sequences of characters.
pub enum StepView {
    Respond { reply: ReplyView },
    Fetch { pending: PendingView },
    Store { value: int, reply: ReplyView },
}

impl View for Reply {
    type V = ReplyView;

    open spec fn view(&self) -> ReplyView {
        match self {
            Reply::Page { count } => ReplyView::Page { count: *count as int },
            Reply::Redirect { location } => ReplyView::Redirect { location: location@ },
            Reply::Fragment { push_url, count } => ReplyView::Fragment {
                push_url: push_url@,
                count: *count as int,
            },
        }
    }
}

impl View for Pending {
    type V = PendingView;

    open spec fn view(&self) -> PendingView {
        match self {
            Pending::Page => PendingView::Page,
            Pending::Fragment { push_url } => PendingView::Fragment { push_url: push_url@ },
        }
    }
}

impl View for Step {
    type V = StepView;

    open spec fn view(&self) -> StepView {
        match self {
            Step::Respond { reply } => StepView::Respond { reply: reply@ },
            Step::Fetch { pending } => StepView::Fetch { pending: pending@ },
            Step::Store { value, reply } => StepView::Store { value: *value as int, reply: reply@ },
        }
    }
}

impl ReplyView {
    /// The count that the reply displays, if it displays one.
    pub open spec fn displayed(self) -> Option<int> {
        match self {
            ReplyView::Page { count } => Some(count),
            ReplyView::Redirect { .. } => None,
            ReplyView::Fragment { count, .. } => Some(count),
        }
    }

    /// The address that the reply gives the client: where to go, or what to
    /// show as the address of what it displays.
    pub open spec fn target(self) -> Option<Seq<char>> {
        match self {
            ReplyView::Page { .. } => None,
            ReplyView::Redirect { location } => Some(location),
            ReplyView::Fragment { push_url, .. } => Some(push_url),
        }
    }

    /// The status code of the reply.
    pub open spec fn status_code(self) -> int {
        match self {
            ReplyView::Page { .. } => 200,
            ReplyView::Redirect { .. } => 303,
            ReplyView::Fragment { .. } => 200,
        }
    }
}

impl StepView {
    /// Whether the step asks for an access to the store.
    pub open spec fn needs_store(self) -> bool {
        !(self is Respond)
    }
}

impl Reply {
    /// The status code with which the reply is sent.
    pub fn status(&self) -> (code: u16)
        ensures
            code == self@.status_code(),
    {
        match self {
            Reply::Page { .. } => STATUS_OK,
            Reply::Redirect { .. } => STATUS_SEE_OTHER,
            Reply::Fragment { .. } => STATUS_OK,
        }
    }

    /// The count that the reply displays, if it displays one.
    pub fn count(&self) -> (count: Option<i64>)
        ensures
            match count {
                Some(count) => self@.displayed() == Some(count as int),
                None => self@.displayed() is None,
            },
    {
        match self {
            Reply::Page { count } => Some(*count),
            Reply::Redirect { .. } => None,
            Reply::Fragment { count, .. } => Some(*count),
        }
    }

    /// The address that the reply gives the client, if it gives one.
    pub fn url(&self) -> (url: Option<&str>)
        ensures
            match url {
                Some(url) => self@.target() == Some(url@),
                None => self@.target() is None,
            },
    {
        match self {
            Reply::Page { .. } => None,
            Reply::Redirect { location } => Some(location.as_str()),
            Reply::Fragment { push_url, .. } => Some(push_url.as_str()),
        }
    }
}

} // verus!
