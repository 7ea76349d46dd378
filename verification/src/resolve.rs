//! Resolution of an invocation into the one action it stands for.
//!
//! Only the presence of the message and of the attachment decides the
//! variant; their contents, and the prefix, only fill its payload.

use crate::action::{str_of, Action, ActionView};
use vstd::prelude::*;
use vstd::std_specs::cmp::PartialEqSpec;
use vstd::string::StringExecFns;

verus! {

/// Text payload: the prefix, if any, directly followed by the message.
/// Nothing is inserted between the two and nothing is trimmed.
pub open spec fn compose_spec(prefix: Option<Seq<char>>, message: Seq<char>) -> Seq<char> {
    match prefix {
        Some(p) => p + message,
        None => message,
    }
}

/// The action that a prefix, a message and an attachment stand for.
pub open spec fn resolve_spec(
    prefix: Option<Seq<char>>,
    message: Option<Seq<char>>,
    attachment: Option<Seq<char>>,
) -> ActionView {
    match (message, attachment) {
        (None, None) => ActionView::Probe,
        (Some(m), None) => ActionView::SendText { body: compose_spec(prefix, m) },
        (None, Some(a)) => ActionView::SendDocument { path: a, caption: prefix },
        (Some(m), Some(a)) => ActionView::SendDocument {
            path: a,
            caption: Some(compose_spec(prefix, m)),
        },
    }
}

/// Builds the text payload of a message under an optional prefix.
pub fn compose(prefix: Option<&str>, message: &str) -> (body: String)
    ensures
        body@ == compose_spec(str_of(prefix), message@),
{
    match prefix {
        Some(p) => {
            let head: String = p.to_owned();
            head.concat(message)
        },
        None => message.to_owned(),
    }
}

/// Selects the single action of a run and composes its payload.
///
/// A message that was supplied counts as present even when it is empty.
pub fn resolve(prefix: Option<&str>, message: Option<&str>, attachment: Option<&str>) -> (action:
    Action)
    ensures
        action@ == resolve_spec(str_of(prefix), str_of(message), str_of(attachment)),
{
    match (message, attachment) {
        (None, None) => Action::Probe,
        (Some(m), None) => Action::SendText { body: compose(prefix, m) },
        (None, Some(a)) => {
            let caption = match prefix {
                Some(p) => Some(p.to_owned()),
                None => None,
            };
            Action::SendDocument { path: a.to_owned(), caption }
        },
        (Some(m), Some(a)) => Action::SendDocument {
            path: a.to_owned(),
            caption: Some(compose(prefix, m)),
        },
    }
}

/// The characters put in front of a message: those of the prefix, or
/// none where there is no prefix.
pub open spec fn leading_text(prefix: Option<Seq<char>>) -> Seq<char> {
    match prefix {
        Some(p) => p,
        None => Seq::empty(),
    }
}

/// A composed payload is the leading text followed by the message,
/// character for character.
pub proof fn lemma_compose_is_concatenation(prefix: Option<Seq<char>>, message: Seq<char>)
    ensures
        compose_spec(prefix, message) == leading_text(prefix) + message,
        compose_spec(prefix, message).len() == leading_text(prefix).len() + message.len(),
{
    assert(Seq::<char>::empty() + message =~= message);
}

/// With neither a message nor an attachment the run only probes,
/// whatever the prefix is.
pub proof fn lemma_nothing_given_probes(
    prefix: Option<Seq<char>>,
    message: Option<Seq<char>>,
    attachment: Option<Seq<char>>,
)
    requires
        message is None,
        attachment is None,
    ensures
        resolve_spec(prefix, message, attachment) == ActionView::Probe,
{
}

/// A message without an attachment is sent as text whose body is the
/// prefix directly followed by the message.
pub proof fn lemma_message_alone_sends_text(
    prefix: Option<Seq<char>>,
    message: Option<Seq<char>>,
    attachment: Option<Seq<char>>,
)
    requires
        message is Some,
        attachment is None,
    ensures
        resolve_spec(prefix, message, attachment) == (ActionView::SendText {
            body: leading_text(prefix) + message->0,
        }),
{
    lemma_compose_is_concatenation(prefix, message->0);
}

/// An attachment without a message is sent with the prefix as its
/// caption, and with no caption where there is no prefix.
pub proof fn lemma_attachment_alone_is_captioned_by_prefix(
    prefix: Option<Seq<char>>,
    message: Option<Seq<char>>,
    attachment: Option<Seq<char>>,
)
    requires
        message is None,
        attachment is Some,
    ensures
        resolve_spec(prefix, message, attachment) == (ActionView::SendDocument {
            path: attachment->0,
            caption: prefix,
        }),
{
}

/// An attachment with a message is sent with the prefix directly
/// followed by the message as its caption.
pub proof fn lemma_attachment_with_message_is_captioned(
    prefix: Option<Seq<char>>,
    message: Option<Seq<char>>,
    attachment: Option<Seq<char>>,
)
    requires
        message is Some,
        attachment is Some,
    ensures
        resolve_spec(prefix, message, attachment) == (ActionView::SendDocument {
            path: attachment->0,
            caption: Some(leading_text(prefix) + message->0),
        }),
{
    lemma_compose_is_concatenation(prefix, message->0);
}

/// Two calls of [`resolve`] on the same inputs return equal actions.
pub proof fn lemma_resolve_is_repeatable(
    prefix: Option<&str>,
    message: Option<&str>,
    attachment: Option<&str>,
    first: Action,
    second: Action,
)
    requires
        call_ensures(resolve, (prefix, message, attachment), first),
        call_ensures(resolve, (prefix, message, attachment), second),
    ensures
        first@ == second@,
        first.eq_spec(&second),
{
}

/// An empty message that was supplied is still a message: the run
/// sends text whose body is the prefix alone, or nothing where there
/// is no prefix. It never probes.
pub proof fn lemma_empty_message_is_sent(prefix: Option<Seq<char>>)
    ensures
        resolve_spec(prefix, Some(Seq::empty()), None) == (ActionView::SendText {
            body: leading_text(prefix),
        }),
        resolve_spec(prefix, Some(Seq::empty()), None) != ActionView::Probe,
{
    assert(leading_text(prefix) + Seq::<char>::empty() =~= leading_text(prefix));
    lemma_compose_is_concatenation(prefix, Seq::empty());
}

} // verus!
