//! The values a run starts from: what the configuration holds and what
//! the command line supplied.

use crate::action::{str_of, text_of, Action};
use crate::resolve::{resolve, resolve_spec};
use vstd::prelude::*;

verus! {

/// Where notifications go: a numeric chat identifier, or the public
/// name of a channel.
#[derive(Debug, PartialEq, Eq)]
pub enum Destination {
    Id(i64),
    ChannelUsername(String),
}

/// Mathematical value of a [`Destination`].
pub enum DestinationView {
    Id(i64),
    ChannelUsername(Seq<char>),
}

impl View for Destination {
    type V = DestinationView;

    open spec fn view(&self) -> DestinationView {
        match *self {
            Destination::Id(id) => DestinationView::Id(id),
            Destination::ChannelUsername(name) => DestinationView::ChannelUsername(name@),
        }
    }
}

impl Clone for Destination {
    fn clone(&self) -> (copy: Destination)
        ensures
            copy@ == self@,
    {
        match self {
            Destination::Id(id) => Destination::Id(*id),
            Destination::ChannelUsername(name) => Destination::ChannelUsername(name.clone()),
        }
    }
}

/// Settings read once per run.
#[derive(Debug, PartialEq, Eq)]
pub struct Configuration {
    /// Secret that authenticates the bot.
    pub credential: String,
    /// Address of an HTTPS proxy to send through, if any.
    pub proxy: Option<String>,
    /// The chat that receives every notification.
    pub destination: Destination,
    /// Text put directly in front of every message, if any.
    pub prefix: Option<String>,
}

/// What the command line supplied.
#[derive(Debug, PartialEq, Eq)]
pub struct InvocationInputs {
    /// The text to send, if one was given.
    pub message: Option<String>,
    /// Path of the file to attach, if one was given.
    pub attachment: Option<String>,
}

/// A borrowed look at an optional owned string.
pub(crate) fn borrowed(s: &Option<String>) -> (r: Option<&str>)
    ensures
        str_of(r) == text_of(*s),
{
    match s {
        Some(t) => Some(t.as_str()),
        None => None,
    }
}

impl InvocationInputs {
    /// The action these inputs stand for under `config`.
    pub fn resolve(&self, config: &Configuration) -> (action: Action)
        ensures
            action@ == resolve_spec(
                text_of(config.prefix),
                text_of(self.message),
                text_of(self.attachment),
            ),
    {
        resolve(borrowed(&config.prefix), borrowed(&self.message), borrowed(&self.attachment))
    }
}

} // verus!
