//! Execution of a resolved action against the messaging service.
//!
//! The service itself is out of reach here. An [`Execution`] says which
//! single call stands for the action, takes what the call returned, and
//! settles the outcome of the run. It never asks for a second call.

use crate::action::{duplicate_text, text_of, Action, ActionView};
use crate::config::{Destination, DestinationView};
use vstd::prelude::*;
use vstd::string::StringExecFns;

verus! {

/// The one call to make on the messaging service.
#[derive(Debug, PartialEq, Eq)]
pub enum Request {
    /// Ask the service for the bot's identity.
    Probe,
    /// Deliver `body` to `destination`.
    SendText { destination: Destination, body: String },
    /// Deliver the file at `path` to `destination`, captioned if `caption` is given.
    SendDocument { destination: Destination, path: String, caption: Option<String> },
}

/// Mathematical value of a [`Request`].
pub enum RequestView {
    Probe,
    SendText { destination: DestinationView, body: Seq<char> },
    SendDocument { destination: DestinationView, path: Seq<char>, caption: Option<Seq<char>> },
}

impl View for Request {
    type V = RequestView;

    open spec fn view(&self) -> RequestView {
        match *self {
            Request::Probe => RequestView::Probe,
            Request::SendText { destination, body } => RequestView::SendText {
                destination: destination@,
                body: body@,
            },
            Request::SendDocument { destination, path, caption } => RequestView::SendDocument {
                destination: destination@,
                path: path@,
                caption: text_of(caption),
            },
        }
    }
}

/// What a successful call hands back.
#[derive(Debug, PartialEq, Eq)]
pub enum Receipt {
    /// The service described the bot.
    Identity(String),
    /// The service accepted the notification.
    Sent,
}

/// Mathematical value of a [`Receipt`].
pub enum ReceiptView {
    Identity(Seq<char>),
    Sent,
}

impl View for Receipt {
    type V = ReceiptView;

    open spec fn view(&self) -> ReceiptView {
        match *self {
            Receipt::Identity(who) => ReceiptView::Identity(who@),
            Receipt::Sent => ReceiptView::Sent,
        }
    }
}

/// A failed call. Its kinds are not told apart: only the text shown
/// to the operator is kept.
#[derive(Debug, PartialEq, Eq)]
pub struct TransportError {
    pub diagnostic: String,
}

impl View for TransportError {
    type V = Seq<char>;

    open spec fn view(&self) -> Seq<char> {
        self.diagnostic@
    }
}

/// How a run ended.
#[derive(Debug, PartialEq, Eq)]
pub enum Outcome {
    /// The call succeeded. `confirmation` holds the bot's identity after
    /// a probe and is absent after a notification.
    Success { confirmation: Option<String> },
    /// The call failed with `error`.
    Failure { error: TransportError },
}

/// Mathematical value of an [`Outcome`].
pub enum OutcomeView {
    Success { confirmation: Option<Seq<char>> },
    Failure { diagnostic: Seq<char> },
}

impl View for Outcome {
    type V = OutcomeView;

    open spec fn view(&self) -> OutcomeView {
        match *self {
            Outcome::Success { confirmation } => OutcomeView::Success {
                confirmation: text_of(confirmation),
            },
            Outcome::Failure { error } => OutcomeView::Failure { diagnostic: error@ },
        }
    }
}

/// Value of what a call returned.
pub open spec fn reply_view(reply: Result<Receipt, TransportError>) -> Result<
    ReceiptView,
    Seq<char>,
> {
    match reply {
        Ok(receipt) => Ok(receipt@),
        Err(error) => Err(error@),
    }
}

/// The call that stands for `action` towards `destination`.
pub open spec fn request_spec(action: ActionView, destination: DestinationView) -> RequestView {
    match action {
        ActionView::Probe => RequestView::Probe,
        ActionView::SendText { body } => RequestView::SendText { destination, body },
        ActionView::SendDocument { path, caption } => RequestView::SendDocument {
            destination,
            path,
            caption,
        },
    }
}

/// The outcome of `action` once its call returned `reply`.
///
/// A failure is passed on as it came. An identity confirms a probe;
/// every other success is silent.
pub open spec fn outcome_spec(action: ActionView, reply: Result<ReceiptView, Seq<char>>) -> OutcomeView {
    match reply {
        Err(diagnostic) => OutcomeView::Failure { diagnostic },
        Ok(ReceiptView::Identity(who)) => OutcomeView::Success {
            confirmation: if action is Probe {
                Some(who)
            } else {
                None
            },
        },
        Ok(ReceiptView::Sent) => OutcomeView::Success { confirmation: None },
    }
}

/// A run: waiting for its one call, or over.
#[derive(Debug, PartialEq, Eq)]
pub enum Execution {
    Pending { action: Action },
    Done { outcome: Outcome },
}

/// Mathematical value of an [`Execution`].
pub enum ExecutionView {
    Pending { action: ActionView },
    Done { outcome: OutcomeView },
}

impl View for Execution {
    type V = ExecutionView;

    open spec fn view(&self) -> ExecutionView {
        match *self {
            Execution::Pending { action } => ExecutionView::Pending { action: action@ },
            Execution::Done { outcome } => ExecutionView::Done { outcome: outcome@ },
        }
    }
}

/// The call a run still has to make, if any.
pub open spec fn pending_request(run: ExecutionView, destination: DestinationView) -> Option<
    RequestView,
> {
    match run {
        ExecutionView::Pending { action } => Some(request_spec(action, destination)),
        ExecutionView::Done { .. } => None,
    }
}

/// The run after a call returned `reply`. A run that is over stays as it is.
pub open spec fn completed(run: ExecutionView, reply: Result<ReceiptView, Seq<char>>) -> ExecutionView {
    match run {
        ExecutionView::Pending { action } => ExecutionView::Done {
            outcome: outcome_spec(action, reply),
        },
        ExecutionView::Done { outcome } => ExecutionView::Done { outcome },
    }
}

impl Action {
    /// The call that carries this action out towards `destination`.
    pub fn request(&self, destination: &Destination) -> (request: Request)
        ensures
            request@ == request_spec(self@, destination@),
    {
        match self {
            Action::Probe => Request::Probe,
            Action::SendText { body } => Request::SendText {
                destination: destination.clone(),
                body: body.clone(),
            },
            Action::SendDocument { path, caption } => Request::SendDocument {
                destination: destination.clone(),
                path: path.clone(),
                caption: duplicate_text(caption),
            },
        }
    }

    /// The outcome of this action once its call returned `reply`.
    pub fn settle(&self, reply: Result<Receipt, TransportError>) -> (outcome: Outcome)
        ensures
            outcome@ == outcome_spec(self@, reply_view(reply)),
    {
        match reply {
            Err(error) => Outcome::Failure { error },
            Ok(Receipt::Identity(who)) => match self {
                Action::Probe => Outcome::Success { confirmation: Some(who) },
                _ => Outcome::Success { confirmation: None },
            },
            Ok(Receipt::Sent) => Outcome::Success { confirmation: None },
        }
    }
}

impl Execution {
    /// A run that has `action` still to carry out.
    pub fn start(action: Action) -> (run: Execution)
        ensures
            run@ == (ExecutionView::Pending { action: action@ }),
    {
        Execution::Pending { action }
    }

    /// The call this run waits for; none once the run is over.
    pub fn request(&self, destination: &Destination) -> (request: Option<Request>)
        ensures
            request_view(request) == pending_request(self@, destination@),
    {
        match self {
            Execution::Pending { action } => Some(action.request(destination)),
            Execution::Done { .. } => None,
        }
    }

    /// Ends the run with what its call returned.
    ///
    /// A run that is already over keeps its outcome, whatever `reply` holds.
    pub fn complete(self, reply: Result<Receipt, TransportError>) -> (run: Execution)
        ensures
            run@ == completed(self@, reply_view(reply)),
    {
        match self {
            Execution::Pending { action } => {
                let outcome = action.settle(reply);
                Execution::Done { outcome }
            },
            Execution::Done { outcome } => Execution::Done { outcome },
        }
    }

    /// The outcome of the run, once it is over.
    pub fn outcome(&self) -> (outcome: Option<&Outcome>)
        ensures
            match self@ {
                ExecutionView::Pending { .. } => outcome is None,
                ExecutionView::Done { outcome: o } => outcome is Some && outcome->0@ == o,
            },
    {
        match self {
            Execution::Pending { .. } => None,
            Execution::Done { outcome } => Some(outcome),
        }
    }
}

/// Value of an optional request.
pub open spec fn request_view(request: Option<Request>) -> Option<RequestView> {
    match request {
        Some(r) => Some(r@),
        None => None,
    }
}

/// What the operator is told about an outcome, line by line.
///
/// A confirmed probe shows the identity and says that the
/// configuration works. A notification that went out is silent. A
/// failure shows its diagnostic.
pub open spec fn report_spec(outcome: OutcomeView) -> Seq<Seq<char>> {
    match outcome {
        OutcomeView::Success { confirmation: Some(who) } => seq![
            "getMe -> "@ + who,
            "Config is fine. Exiting."@,
            "For help use `notify-tg --help`"@,
        ],
        OutcomeView::Success { confirmation: None } => Seq::empty(),
        OutcomeView::Failure { diagnostic } => seq![diagnostic],
    }
}

impl Outcome {
    /// Whether the run succeeded.
    pub fn is_success(&self) -> (r: bool)
        ensures
            r == (self@ is Success),
    {
        match self {
            Outcome::Success { .. } => true,
            Outcome::Failure { .. } => false,
        }
    }

    /// The lines to show the operator.
    pub fn report(&self) -> (lines: Vec<String>)
        ensures
            lines.deep_view() == report_spec(self@),
    {
        let mut lines: Vec<String> = Vec::new();
        match self {
            Outcome::Success { confirmation: Some(who) } => {
                let head: String = "getMe -> ".to_owned();
                lines.push(head.concat(who.as_str()));
                lines.push("Config is fine. Exiting.".to_owned());
                lines.push("For help use `notify-tg --help`".to_owned());
            },
            Outcome::Success { confirmation: None } => {},
            Outcome::Failure { error } => {
                lines.push(error.diagnostic.clone());
            },
        }
        assert(lines.deep_view() =~= report_spec(self@));
        lines
    }
}

/// A failed call ends the run in failure, with the diagnostic as it
/// came, and the run asks for no further call.
pub proof fn lemma_failure_is_final(
    action: ActionView,
    diagnostic: Seq<char>,
    destination: DestinationView,
)
    ensures
        completed(ExecutionView::Pending { action }, Err(diagnostic)) == (ExecutionView::Done {
            outcome: OutcomeView::Failure { diagnostic },
        }),
        pending_request(
            completed(ExecutionView::Pending { action }, Err(diagnostic)),
            destination,
        ) is None,
{
}

/// A run makes at most one call: once a reply has been taken, the run
/// is over, asks for nothing, and a later reply changes nothing.
pub proof fn lemma_single_attempt(
    run: ExecutionView,
    reply: Result<ReceiptView, Seq<char>>,
    later: Result<ReceiptView, Seq<char>>,
    destination: DestinationView,
)
    ensures
        completed(run, reply) is Done,
        pending_request(completed(run, reply), destination) is None,
        completed(completed(run, reply), later) == completed(run, reply),
{
}

/// A run succeeds exactly when its call did, and only a failure or a
/// confirmed probe is reported.
pub proof fn lemma_outcome_follows_reply(action: ActionView, reply: Result<ReceiptView, Seq<char>>)
    ensures
        outcome_spec(action, reply) is Success <==> reply is Ok,
        report_spec(outcome_spec(action, reply)).len() > 0 <==> (reply is Err || (action is Probe
            && reply matches Ok(ReceiptView::Identity(_)))),
{
}

} // verus!
