//! The four actions that the counter's form can submit.

use crate::error::{CounterError, ErrorView};
use crate::path::{count_of, CounterState};
use vstd::prelude::*;

verus! {

/// What a submitted form asks the counter to do.
#[derive(Clone, Copy, Debug, PartialEq, Eq, Structural)]
pub enum Action {
    /// Show the count raised by one.
    Inc,
    /// Show the count lowered by one.
    Dec,
    /// Show the stored default.
    Default,
    /// Store the submitted count as the new default.
    SetDefault,
}

/// A submitted form: the count that the page displayed, and the label of the
/// button that was pressed.
#[derive(Clone, Debug, PartialEq, Eq)]
pub struct CounterAction {
    pub count: i64,
    pub action: String,
}

/// A submitted form with its label as a sequence of characters.
pub struct CounterActionView {
    pub count: int,
    pub action: Seq<char>,
}

impl View for CounterAction {
    type V = CounterActionView;

    open spec fn view(&self) -> CounterActionView {
        CounterActionView { count: self.count as int, action: self.action@ }
    }
}

impl Action {
    /// The label under which the form submits the action.
    pub open spec fn label_text(self) -> Seq<char> {
        match self {
            Action::Inc => "inc"@,
            Action::Dec => "dec"@,
            Action::Default => "default"@,
            Action::SetDefault => "set-default"@,
        }
    }

    /// The action that a label names, if it names one. Labels are compared
    /// character by character: case and surrounding blanks count.
    pub open spec fn from_label(label: Seq<char>) -> Option<Action> {
        if label == "inc"@ {
            Some(Action::Inc)
        } else if label == "dec"@ {
            Some(Action::Dec)
        } else if label == "default"@ {
            Some(Action::Default)
        } else if label == "set-default"@ {
            Some(Action::SetDefault)
        } else {
            None
        }
    }

    /// The count that the action makes of the submitted one, where the
    /// resulting page is to be told it: the successor and the predecessor.
    /// The other two actions tell the page nothing, and the page falls back
    /// on the stored default.
    pub open spec fn carried(self, count: int) -> Option<int> {
        match self {
            Action::Inc => Some(count + 1),
            Action::Dec => Some(count - 1),
            Action::Default => None,
            Action::SetDefault => None,
        }
    }

    /// Whether the action can be taken on `count` within 64 bits.
    pub open spec fn fits(self, count: int) -> bool {
        match self {
            Action::Inc => count < i64::MAX,
            Action::Dec => count > i64::MIN,
            Action::Default => true,
            Action::SetDefault => true,
        }
    }

    /// The state that the resulting page is to be told: what the action
    /// makes of `count`, where it makes anything of it.
    pub fn next_state(&self, count: i64) -> (state: Option<CounterState>)
        requires
            self.fits(count as int),
        ensures
            count_of(state) == self.carried(count as int),
    {
        match self {
            Action::Inc => Some(CounterState { count: count + 1 }),
            Action::Dec => Some(CounterState { count: count - 1 }),
            Action::Default => None,
            Action::SetDefault => None,
        }
    }

    /// The four actions, in the order of their buttons on the page.
    pub fn all() -> (actions: [Action; 4])
        ensures
            actions@ == seq![Action::Inc, Action::Dec, Action::Default, Action::SetDefault],
    {
        [Action::Inc, Action::Dec, Action::Default, Action::SetDefault]
    }

    /// The label under which the form submits the action.
    pub fn label(&self) -> (text: &'static str)
        ensures
            text@ == self.label_text(),
    {
        match self {
            Action::Inc => "inc",
            Action::Dec => "dec",
            Action::Default => "default",
            Action::SetDefault => "set-default",
        }
    }

    /// Reads a submitted label. Any label but the four is refused, and the
    /// error names it.
    pub fn parse(label: &str) -> (parsed: Result<Action, CounterError>)
        ensures
            match Action::from_label(label@) {
                Some(action) => parsed == Ok::<Action, CounterError>(action),
                None => parsed is Err && parsed->Err_0@ == (ErrorView::InvalidAction {
                    action: label@,
                }),
            },
    {
        let label = label.to_owned();
        if label == "inc".to_owned() {
            Ok(Action::Inc)
        } else if label == "dec".to_owned() {
            Ok(Action::Dec)
        } else if label == "default".to_owned() {
            Ok(Action::Default)
        } else if label == "set-default".to_owned() {
            Ok(Action::SetDefault)
        } else {
            Err(CounterError::InvalidAction { action: label })
        }
    }
}

impl CounterActionView {
    /// Whether the submitted action can be taken on the submitted count
    /// within 64 bits. A label that names no action asks for no arithmetic.
    pub open spec fn in_range(self) -> bool {
        match Action::from_label(self.action) {
            Some(action) => action.fits(self.count),
            None => true,
        }
    }
}

impl CounterAction {
    /// The form that a page displaying `count` submits when the button of
    /// `action` is pressed.
    pub fn of(count: i64, action: Action) -> (form: CounterAction)
        ensures
            form@ == (CounterActionView { count: count as int, action: action.label_text() }),
    {
        CounterAction { count, action: action.label().to_owned() }
    }

    /// Whether the submitted action can be taken on the submitted count
    /// within 64 bits: all but raising the largest count and lowering the
    /// smallest.
    pub fn in_range(&self) -> (fits: bool)
        ensures
            fits == self@.in_range(),
    {
        match Action::parse(self.action.as_str()) {
            Ok(Action::Inc) => self.count < i64::MAX,
            Ok(Action::Dec) => self.count > i64::MIN,
            _ => true,
        }
    }
}

/// Every action is read back from its own label, so the four labels differ.
pub proof fn lemma_label_names_action(action: Action)
    ensures
        Action::from_label(action.label_text()) == Some(action),
{
    reveal_strlit("inc");
    reveal_strlit("dec");
    reveal_strlit("default");
    reveal_strlit("set-default");
    assert("inc"@.len() == 3 && "dec"@.len() == 3);
    assert("default"@.len() == 7 && "set-default"@.len() == 11);
    assert("inc"@[0] == 'i' && "dec"@[0] == 'd');
}

} // verus!
