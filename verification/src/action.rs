//! The outbound operation an invocation resolves to.

use vstd::prelude::*;
use vstd::std_specs::cmp::PartialEqSpecImpl;

verus! {

/// The single operation performed by one run.
#[derive(Debug)]
pub enum Action {
    /// Ask the remote service who we are; nothing is sent.
    Probe,
    /// Send a text notification.
    SendText { body: String },
    /// Send a file, optionally captioned.
    SendDocument { path: String, caption: Option<String> },
}

/// Mathematical value of an [`Action`].
pub enum ActionView {
    Probe,
    SendText { body: Seq<char> },
    SendDocument { path: Seq<char>, caption: Option<Seq<char>> },
}

/// Value of an optional string: the characters it holds, if any.
pub open spec fn text_of(s: Option<String>) -> Option<Seq<char>> {
    match s {
        Some(t) => Some(t@),
        None => None,
    }
}

/// Value of an optional string slice.
pub open spec fn str_of(s: Option<&str>) -> Option<Seq<char>> {
    match s {
        Some(t) => Some(t@),
        None => None,
    }
}

impl View for Action {
    type V = ActionView;

    open spec fn view(&self) -> ActionView {
        match *self {
            Action::Probe => ActionView::Probe,
            Action::SendText { body } => ActionView::SendText { body: body@ },
            Action::SendDocument { path, caption } => ActionView::SendDocument {
                path: path@,
                caption: text_of(caption),
            },
        }
    }
}

/// Whether two optional strings hold the same text, or are both absent.
pub(crate) fn same_text(a: &Option<String>, b: &Option<String>) -> (r: bool)
    ensures
        r == (text_of(*a) == text_of(*b)),
{
    match (a, b) {
        (Some(x), Some(y)) => *x == *y,
        (None, None) => true,
        _ => false,
    }
}

/// An equal optional string that owns its own text.
pub(crate) fn duplicate_text(s: &Option<String>) -> (copy: Option<String>)
    ensures
        text_of(copy) == text_of(*s),
{
    match s {
        Some(t) => Some(t.clone()),
        None => None,
    }
}

impl Clone for Action {
    fn clone(&self) -> (copy: Action)
        ensures
            copy@ == self@,
    {
        match self {
            Action::Probe => Action::Probe,
            Action::SendText { body } => Action::SendText { body: body.clone() },
            Action::SendDocument { path, caption } => Action::SendDocument {
                path: path.clone(),
                caption: duplicate_text(caption),
            },
        }
    }
}

impl PartialEq for Action {
    fn eq(&self, other: &Action) -> (r: bool) {
        match (self, other) {
            (Action::Probe, Action::Probe) => true,
            (Action::SendText { body: a }, Action::SendText { body: b }) => *a == *b,
            (
                Action::SendDocument { path: p, caption: c },
                Action::SendDocument { path: q, caption: d },
            ) => *p == *q && same_text(c, d),
            _ => false,
        }
    }
}

impl PartialEqSpecImpl for Action {
    open spec fn obeys_eq_spec() -> bool {
        true
    }

    open spec fn eq_spec(&self, other: &Action) -> bool {
        self@ == other@
    }
}

impl Eq for Action {}

} // verus!
