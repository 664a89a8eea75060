use fbapi::codec::parse;
use fbapi::error::{ErrorKind, FbapiError};
use fbapi::exchange::{Action, Request};
use fbapi::json::Json;
use fbapi::poll::{
    class_of, judge, FailureRule, Guard, PollConfig, PollLoop, PollStart, PollStep, StatusClass,
    Verdict,
};

struct PollTrace {
    polls: usize,
    sleeps: Vec<usize>,
    observed: usize,
    result: Option<Result<(), FbapiError>>,
}

fn poll_config(max_iterations: usize, retry_per_poll: usize, failure: FailureRule) -> PollConfig {
    PollConfig {
        path: "https://example.test/17?fields=status_code".to_string(),
        field_path: vec!["status_code".to_string()],
        classes: vec![
            ("FINISHED".to_string(), StatusClass::Success),
            ("IN_PROGRESS".to_string(), StatusClass::Transient),
        ],
        interval: 5,
        max_iterations,
        retry_per_poll,
        failure,
        guard: Guard::Nothing,
    }
}

fn poll_status(token: &str) -> Result<Json, FbapiError> {
    Ok(Json::Object(vec![("status_code".to_string(), Json::String(token.to_string()))]))
}

fn poll_note(trace: &mut PollTrace, actions: Vec<Action>) {
    for action in actions {
        match action {
            Action::Observe(_) => trace.observed += 1,
            Action::Sleep(seconds) => trace.sleeps.push(seconds),
        }
    }
}

fn poll_check(request: &Request) {
    assert_eq!(request.url, "https://example.test/17?fields=status_code");
}

fn poll_run(config: PollConfig, replies: Vec<Result<Json, FbapiError>>) -> PollTrace {
    let mut trace = PollTrace { polls: 0, sleeps: vec![], observed: 0, result: None };
    let mut poll = match PollLoop::start(Vec::new(), config) {
        PollStart::Polling { poll, actions, request } => {
            poll_note(&mut trace, actions);
            poll_check(&request);
            trace.polls += 1;
            poll
        }
        PollStart::TimedOut { actions } => {
            poll_note(&mut trace, actions);
            trace.result = Some(Err(FbapiError::VideoTimeout));
            return trace;
        }
    };
    for reply in replies {
        match poll.absorb(reply) {
            PollStep::Continue { poll: next, actions, request } => {
                poll_note(&mut trace, actions);
                poll_check(&request);
                trace.polls += 1;
                poll = next;
            }
            PollStep::Succeeded { actions } => {
                poll_note(&mut trace, actions);
                trace.result = Some(Ok(()));
                return trace;
            }
            PollStep::Failed { actions, error } => {
                poll_note(&mut trace, actions);
                trace.result = Some(Err(error));
                return trace;
            }
        }
    }
    trace
}

#[test]
fn poll_succeeds_after_three_polls_and_two_sleeps() {
    let trace = poll_run(
        poll_config(3, 0, FailureRule::Container),
        vec![poll_status("IN_PROGRESS"), poll_status("IN_PROGRESS"), poll_status("FINISHED")],
    );
    assert!(matches!(trace.result, Some(Ok(()))));
    assert_eq!(trace.polls, 3);
    assert_eq!(trace.sleeps, vec![5, 5]);
    assert_eq!(trace.observed, 6);
}

#[test]
fn poll_times_out_when_the_budget_is_used_up() {
    let trace = poll_run(
        poll_config(2, 0, FailureRule::Container),
        vec![poll_status("IN_PROGRESS"), poll_status("IN_PROGRESS"), poll_status("FINISHED")],
    );
    match trace.result {
        Some(Err(e)) => {
            assert!(matches!(e, FbapiError::VideoTimeout));
            assert_eq!(e.kind(), ErrorKind::PollTimeout);
        }
        other => panic!("{:?}", other),
    }
    assert_eq!(trace.polls, 2);
    assert_eq!(trace.sleeps, vec![5, 5]);
}

#[test]
fn poll_fails_at_once_on_an_unknown_token() {
    let trace = poll_run(
        poll_config(10, 0, FailureRule::Container),
        vec![poll_status("WEIRD"), poll_status("FINISHED")],
    );
    match trace.result {
        Some(Err(e)) => {
            assert_eq!(e.kind(), ErrorKind::PollTerminalFailure);
            match e {
                FbapiError::IgVideoError(doc) => assert_eq!(Some(doc), poll_status("WEIRD").ok()),
                other => panic!("{:?}", other),
            }
        }
        other => panic!("{:?}", other),
    }
    assert_eq!(trace.polls, 1);
    assert!(trace.sleeps.is_empty());

    let trace = poll_run(poll_config(10, 0, FailureRule::Video), vec![poll_status("WEIRD")]);
    assert!(matches!(trace.result, Some(Err(FbapiError::VideoError))));
    assert_eq!(trace.polls, 1);
}

#[test]
fn poll_without_a_status_is_of_unexpected_shape() {
    let trace = poll_run(poll_config(3, 0, FailureRule::Video), vec![Ok(parse("{\"id\":\"1\"}").unwrap())]);
    match trace.result {
        Some(Err(FbapiError::UnExpected(doc))) => assert_eq!(Some(doc), parse("{\"id\":\"1\"}")),
        other => panic!("{:?}", other),
    }
    let trace = poll_run(
        poll_config(3, 0, FailureRule::Container),
        vec![Ok(parse("{\"status_code\":3}").unwrap())],
    );
    match trace.result {
        Some(Err(e)) => assert_eq!(e.kind(), ErrorKind::UnexpectedShape),
        other => panic!("{:?}", other),
    }
    assert_eq!(trace.polls, 1);
}

#[test]
fn poll_without_budget_sends_nothing() {
    let trace = poll_run(poll_config(0, 3, FailureRule::Video), vec![poll_status("FINISHED")]);
    assert!(matches!(trace.result, Some(Err(FbapiError::VideoTimeout))));
    assert_eq!(trace.polls, 0);
    assert_eq!(trace.observed, 0);
    assert!(trace.sleeps.is_empty());
}

#[test]
fn each_poll_has_its_own_attempts() {
    let lost = || Err(FbapiError::Reqwest("x".to_string()));
    let trace = poll_run(
        poll_config(2, 2, FailureRule::Video),
        vec![lost(), poll_status("IN_PROGRESS"), lost(), poll_status("FINISHED")],
    );
    assert!(matches!(trace.result, Some(Ok(()))));
    assert_eq!(trace.polls, 4);
    assert_eq!(trace.sleeps, vec![5]);

    let trace = poll_run(poll_config(2, 2, FailureRule::Video), vec![lost(), lost(), poll_status("FINISHED")]);
    assert!(matches!(trace.result, Some(Err(FbapiError::Reqwest(_)))));
    assert_eq!(trace.polls, 2);
    assert!(trace.sleeps.is_empty());
}

#[test]
fn poll_ends_on_a_report_of_the_platform() {
    let trace = poll_run(
        poll_config(5, 3, FailureRule::Video),
        vec![Ok(parse("{\"error\":{\"code\":4}}").unwrap()), poll_status("FINISHED")],
    );
    assert!(matches!(trace.result, Some(Err(FbapiError::Facebook(_)))));
    assert_eq!(trace.polls, 1);
}

#[test]
fn first_entry_of_a_token_decides_its_class() {
    let classes = vec![
        ("a".to_string(), StatusClass::Transient),
        ("b".to_string(), StatusClass::Success),
        ("a".to_string(), StatusClass::Success),
    ];
    assert_eq!(class_of(&classes, "a"), StatusClass::Transient);
    assert_eq!(class_of(&classes, "b"), StatusClass::Success);
    assert_eq!(class_of(&classes, "c"), StatusClass::Failure);
    assert_eq!(class_of(&classes, ""), StatusClass::Failure);
    assert_eq!(class_of(&Vec::new(), "a"), StatusClass::Failure);
}

#[test]
fn guards_turn_success_and_transience_into_failure() {
    let mut config = poll_config(3, 0, FailureRule::Phase("copyright_check_status".to_string()));
    config.field_path = vec!["status".to_string(), "c".to_string(), "status".to_string()];
    config.classes = vec![
        ("complete".to_string(), StatusClass::Success),
        ("in_progress".to_string(), StatusClass::Transient),
    ];
    config.guard = Guard::Matches(vec!["status".to_string(), "c".to_string(), "matches_found".to_string()]);
    let found = parse("{\"status\":{\"c\":{\"status\":\"complete\",\"matches_found\":true}}}").unwrap();
    assert!(matches!(judge(&config, found), Verdict::Fail(FbapiError::CopyRight)));
    let clean = parse("{\"status\":{\"c\":{\"status\":\"complete\",\"matches_found\":false}}}").unwrap();
    assert!(matches!(judge(&config, clean), Verdict::Success));
    let silent = parse("{\"status\":{\"c\":{\"status\":\"complete\"}}}").unwrap();
    assert!(matches!(judge(&config, silent), Verdict::Success));
    let early = parse("{\"status\":{\"c\":{\"status\":\"in_progress\",\"matches_found\":true}}}").unwrap();
    assert!(matches!(judge(&config, early), Verdict::Transient));

    config.guard = Guard::ErrorObject(vec!["status".to_string(), "c".to_string(), "error".to_string()]);
    let broken = "{\"status\":{\"c\":{\"error\":{\"code\":1},\"status\":\"in_progress\"}}}";
    match judge(&config, parse(broken).unwrap()) {
        Verdict::Fail(FbapiError::PhaseError(doc)) => {
            assert_eq!(doc.text_of("error"), Some("copyright_check_status"));
            assert_eq!(doc.member("status").map(|d| d.duplicate()), parse(broken));
        }
        _ => panic!("the error object was not seen"),
    }
    let fine = parse("{\"status\":{\"c\":{\"error\":\"none\",\"status\":\"in_progress\"}}}").unwrap();
    assert!(matches!(judge(&config, fine), Verdict::Transient));
}

#[test]
fn phase_rule_tells_a_failure_from_a_missing_status() {
    let mut config = poll_config(3, 0, FailureRule::Phase("uploading_phase".to_string()));
    config.classes.push(("failed".to_string(), StatusClass::Failure));
    for token in ["failed", "WEIRD"] {
        let doc = poll_status(token).unwrap();
        match judge(&config, poll_status(token).unwrap()) {
            Verdict::Fail(e) => {
                assert_eq!(e.kind(), ErrorKind::PollTerminalFailure);
                match e {
                    FbapiError::PhaseError(report) => {
                        assert_eq!(report.text_of("error"), Some("uploading_phase"));
                        assert_eq!(report.member("status"), Some(&doc));
                    }
                    other => panic!("{:?}", other),
                }
            }
            _ => panic!("no failure"),
        }
    }
    match judge(&config, parse("{\"id\":\"1\"}").unwrap()) {
        Verdict::Fail(e) => {
            assert_eq!(e.kind(), ErrorKind::UnexpectedShape);
            assert!(matches!(e, FbapiError::UnExpected(_)));
        }
        _ => panic!("no failure"),
    }
}
