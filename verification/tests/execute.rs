use notify_tg::action::Action;
use notify_tg::config::{Configuration, Destination, InvocationInputs};
use notify_tg::execute::{Execution, Outcome, Receipt, Request, TransportError};
use notify_tg::resolve::resolve;

fn failure(diagnostic: &str) -> TransportError {
    TransportError { diagnostic: diagnostic.to_string() }
}

#[test]
fn failed_send_ends_in_failure_without_retry() {
    let destination = Destination::Id(42);
    let run = Execution::start(resolve(None, Some("hello"), None));
    assert_eq!(
        run.request(&destination),
        Some(Request::SendText { destination: Destination::Id(42), body: "hello".to_string() })
    );
    let run = run.complete(Err(failure("network unreachable")));
    assert_eq!(run.request(&destination), None);
    let outcome = run.outcome().expect("the run is over");
    assert!(!outcome.is_success());
    assert_eq!(outcome, &Outcome::Failure { error: failure("network unreachable") });
    assert_eq!(outcome.report(), vec!["network unreachable".to_string()]);
}

#[test]
fn pending_run_has_no_outcome() {
    let run = Execution::start(Action::Probe);
    assert_eq!(run.outcome(), None);
    assert_eq!(run, Execution::Pending { action: Action::Probe });
}

#[test]
fn probe_asks_for_identity() {
    let run = Execution::start(Action::Probe);
    assert_eq!(run.request(&Destination::Id(7)), Some(Request::Probe));
}

#[test]
fn confirmed_probe_reports_identity() {
    let run = Execution::start(Action::Probe).complete(Ok(Receipt::Identity("Me { id: 1 }".to_string())));
    let outcome = run.outcome().expect("the run is over");
    assert!(outcome.is_success());
    assert_eq!(outcome, &Outcome::Success { confirmation: Some("Me { id: 1 }".to_string()) });
    assert_eq!(
        outcome.report(),
        vec![
            "getMe -> Me { id: 1 }".to_string(),
            "Config is fine. Exiting.".to_string(),
            "For help use `notify-tg --help`".to_string(),
        ]
    );
}

#[test]
fn delivered_notification_is_silent() {
    let run = Execution::start(resolve(Some("p"), Some("m"), None)).complete(Ok(Receipt::Sent));
    let outcome = run.outcome().expect("the run is over");
    assert!(outcome.is_success());
    assert_eq!(outcome, &Outcome::Success { confirmation: None });
    assert!(outcome.report().is_empty());
}

#[test]
fn identity_confirms_only_a_probe() {
    let sent = Action::SendText { body: "m".to_string() };
    assert_eq!(
        sent.settle(Ok(Receipt::Identity("bot".to_string()))),
        Outcome::Success { confirmation: None }
    );
    assert_eq!(
        Action::Probe.settle(Ok(Receipt::Identity("bot".to_string()))),
        Outcome::Success { confirmation: Some("bot".to_string()) }
    );
    assert_eq!(Action::Probe.settle(Ok(Receipt::Sent)), Outcome::Success { confirmation: None });
}

#[test]
fn failure_is_passed_on_for_every_action() {
    let actions = [
        Action::Probe,
        Action::SendText { body: "m".to_string() },
        Action::SendDocument { path: "f".to_string(), caption: None },
    ];
    for action in actions {
        assert_eq!(action.settle(Err(failure("401"))), Outcome::Failure { error: failure("401") });
    }
}

#[test]
fn document_request_carries_path_and_caption() {
    let destination = Destination::ChannelUsername("@builds".to_string());
    let action = resolve(Some("CI: "), None, Some("out.zip"));
    assert_eq!(
        action.request(&destination),
        Request::SendDocument {
            destination: Destination::ChannelUsername("@builds".to_string()),
            path: "out.zip".to_string(),
            caption: Some("CI: ".to_string()),
        }
    );
    let bare = resolve(None, None, Some("report.log"));
    assert_eq!(
        bare.request(&Destination::Id(-100)),
        Request::SendDocument {
            destination: Destination::Id(-100),
            path: "report.log".to_string(),
            caption: None,
        }
    );
}

#[test]
fn finished_run_ignores_later_replies() {
    let run = Execution::start(Action::Probe).complete(Err(failure("first")));
    let again = run.complete(Ok(Receipt::Sent));
    assert_eq!(again, Execution::Done { outcome: Outcome::Failure { error: failure("first") } });
    let third = again.complete(Err(failure("second")));
    assert_eq!(third.outcome(), Some(&Outcome::Failure { error: failure("first") }));
    assert_eq!(third.request(&Destination::Id(1)), None);
}

#[test]
fn destination_clone_is_equal() {
    for destination in [Destination::Id(i64::MIN), Destination::ChannelUsername("@c".to_string())] {
        assert_eq!(destination.clone(), destination);
    }
}

#[test]
fn inputs_resolve_under_configuration() {
    let config = Configuration {
        credential: "123:abc".to_string(),
        proxy: None,
        destination: Destination::Id(99),
        prefix: Some("[bot] ".to_string()),
    };
    let text = InvocationInputs { message: Some("build ok".to_string()), attachment: None };
    assert_eq!(text.resolve(&config), Action::SendText { body: "[bot] build ok".to_string() });
    let nothing = InvocationInputs { message: None, attachment: None };
    assert_eq!(nothing.resolve(&config), Action::Probe);
    let file = InvocationInputs { message: None, attachment: Some("a.log".to_string()) };
    assert_eq!(
        file.resolve(&config),
        Action::SendDocument { path: "a.log".to_string(), caption: Some("[bot] ".to_string()) }
    );
    let both = InvocationInputs {
        message: Some("see file".to_string()),
        attachment: Some("a.log".to_string()),
    };
    assert_eq!(
        both.resolve(&config),
        Action::SendDocument {
            path: "a.log".to_string(),
            caption: Some("[bot] see file".to_string()),
        }
    );
}
