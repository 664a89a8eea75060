use fbapi::codec::parse;
use fbapi::error::{ErrorKind, FbapiError};
use fbapi::exchange::{decode, LogParams, Outcome, Payload, Request, Verb};
use fbapi::json::Json;
use fbapi::retry::{Ended, Executor, FormCall, Settled};

struct RetryTrace {
    sends: usize,
    records: Vec<LogParams>,
    result: Option<Result<Json, FbapiError>>,
}

fn retry_lost() -> Result<Json, FbapiError> {
    Err(FbapiError::Reqwest("connection reset".to_string()))
}

fn retry_doc(text: &str) -> Result<Json, FbapiError> {
    Ok(parse(text).unwrap())
}

fn retry_run(retry_count: usize, replies: Vec<Result<Json, FbapiError>>) -> RetryTrace {
    let request = Request::get("https://example.test/me");
    let base = LogParams::new("https://example.test/me", &[("fields", "id")]);
    let started = Executor::begin(retry_count, request, base);
    let mut trace = RetryTrace { sends: 1, records: vec![started.record], result: None };
    assert_eq!(started.request.url, "https://example.test/me");
    let mut executor = started.executor;
    for reply in replies {
        match executor.settle(reply) {
            Settled::Again { executor: next, record, request } => {
                assert_eq!(request.url, "https://example.test/me");
                assert_eq!(request.verb, Verb::Get);
                assert!(matches!(request.payload, Payload::Empty));
                trace.sends += 1;
                trace.records.push(record);
                executor = next;
            }
            Settled::Finished(Ended { notice, result }) => {
                trace.records.extend(notice);
                trace.result = Some(result);
                return trace;
            }
        }
    }
    trace
}

#[test]
fn at_most_max_attempts_are_made() {
    for retry_count in 1..6usize {
        let replies: Vec<_> = (0..10).map(|_| retry_lost()).collect();
        let trace = retry_run(retry_count, replies);
        assert_eq!(trace.sends, retry_count);
        assert!(matches!(trace.result, Some(Err(FbapiError::Reqwest(_)))));
        let counts: Vec<usize> = trace.records.iter().map(|r| r.count).collect();
        assert_eq!(counts, (0..retry_count).collect::<Vec<_>>());
        assert!(trace.records.iter().all(|r| r.result.is_none()));
    }
}

#[test]
fn zero_budget_means_exactly_one_attempt() {
    let trace = retry_run(0, vec![retry_lost(), retry_lost()]);
    assert_eq!(trace.sends, 1);
    assert!(matches!(trace.result, Some(Err(FbapiError::Reqwest(_)))));
    let trace = retry_run(0, vec![retry_doc("{\"id\":\"7\"}")]);
    assert_eq!(trace.sends, 1);
    assert_eq!(trace.result.unwrap().ok(), parse("{\"id\":\"7\"}"));
}

#[test]
fn api_error_is_never_retried() {
    let report = "{\"error\":{\"code\":100,\"message\":\"no\"}}";
    let trace = retry_run(5, vec![retry_doc(report), retry_doc("{}")]);
    assert_eq!(trace.sends, 1);
    assert_eq!(trace.records.len(), 1);
    match trace.result {
        Some(Err(FbapiError::Facebook(doc))) => assert_eq!(Some(doc), parse(report)),
        other => panic!("{:?}", other),
    }
    let trace = retry_run(5, vec![retry_lost(), retry_doc(report), retry_doc("{}")]);
    assert_eq!(trace.sends, 2);
    assert!(matches!(trace.result, Some(Err(FbapiError::Facebook(_)))));
}

#[test]
fn success_is_observed_with_index_and_result() {
    let trace = retry_run(3, vec![retry_lost(), retry_lost(), retry_doc("{\"id\":\"9\"}")]);
    assert_eq!(trace.sends, 3);
    assert_eq!(trace.result.unwrap().ok(), parse("{\"id\":\"9\"}"));
    assert_eq!(trace.records.len(), 4);
    let counts: Vec<usize> = trace.records.iter().map(|r| r.count).collect();
    assert_eq!(counts, vec![0, 1, 2, 2]);
    assert!(trace.records[..3].iter().all(|r| r.result.is_none()));
    assert_eq!(trace.records[3].result, parse("{\"id\":\"9\"}"));
    for record in &trace.records {
        assert_eq!(record.path, "https://example.test/me");
        assert_eq!(record.params, vec![("fields".to_string(), "id".to_string())]);
    }
}

#[test]
fn a_call_in_flight_has_no_result_yet() {
    let trace = retry_run(4, vec![retry_lost()]);
    assert_eq!(trace.sends, 2);
    assert!(trace.result.is_none());
}

#[test]
fn decode_failure_is_retried_like_a_lost_request() {
    let unreadable = decode(Outcome::Body(b"<html>".to_vec()));
    assert!(matches!(unreadable, Err(FbapiError::Json(_))));
    let trace = retry_run(2, vec![unreadable, decode(Outcome::Body(b"{\"ok\":true}".to_vec()))]);
    assert_eq!(trace.sends, 2);
    assert_eq!(trace.result.unwrap().ok(), parse("{\"ok\":true}"));
    let trace = retry_run(
        2,
        vec![decode(Outcome::Body(b"[1,".to_vec())), decode(Outcome::Body(b"".to_vec()))],
    );
    assert_eq!(trace.sends, 2);
    match trace.result {
        Some(Err(e)) => assert_eq!(e.kind(), ErrorKind::DecodeFailure),
        other => panic!("{:?}", other),
    }
}

#[test]
fn decode_tells_the_three_outcomes_apart() {
    match decode(Outcome::Lost("timed out".to_string())) {
        Err(FbapiError::Reqwest(message)) => assert_eq!(message, "timed out"),
        other => panic!("{:?}", other),
    }
    assert_eq!(
        decode(Outcome::Body(b" {\"a\": [1, -2, 1.5, null]} ".to_vec())).ok(),
        parse("{\"a\":[1,-2,1.5,null]}")
    );
    assert!(matches!(decode(Outcome::Body(vec![0xff, 0xfe])), Err(FbapiError::Json(_))));
}

#[test]
fn error_member_that_is_no_object_is_no_report() {
    let trace = retry_run(1, vec![retry_doc("{\"error\":\"just a word\"}")]);
    assert_eq!(trace.result.unwrap().ok(), parse("{\"error\":\"just a word\"}"));
    let trace = retry_run(1, vec![retry_doc("[{\"error\":{}}]")]);
    assert!(matches!(trace.result, Some(Ok(_))));
}

#[test]
fn form_call_observes_the_reply_even_when_it_reports_an_error() {
    let base = LogParams::new("https://example.test/photos", &[("published", "true")]);
    let (form, first) = FormCall::begin(base);
    assert_eq!(first.count, 0);
    assert!(first.result.is_none());
    let report = "{\"error\":{\"code\":1}}";
    let ended = form.settle(retry_doc(report));
    assert_eq!(ended.notice.unwrap().result, parse(report));
    assert!(matches!(ended.result, Err(FbapiError::Facebook(_))));
}

#[test]
fn form_call_has_one_attempt() {
    let (form, _) = FormCall::begin(LogParams::bare("https://example.test/photos"));
    let ended = form.settle(retry_lost());
    assert!(ended.notice.is_none());
    assert!(matches!(ended.result, Err(FbapiError::Reqwest(_))));
    let (form, _) = FormCall::begin(LogParams::bare("https://example.test/photos"));
    let ended = form.settle(retry_doc("{\"id\":\"1\"}"));
    let notice = ended.notice.unwrap();
    assert_eq!(notice.path, "https://example.test/photos");
    assert_eq!(notice.result, parse("{\"id\":\"1\"}"));
    assert_eq!(ended.result.ok(), parse("{\"id\":\"1\"}"));
}

#[test]
fn only_failures_of_transport_and_decoding_are_retried() {
    assert!(FbapiError::Reqwest(String::new()).retryable());
    assert!(FbapiError::IO(String::new()).retryable());
    assert!(!FbapiError::VideoError.retryable());
    assert!(!FbapiError::CopyRight.retryable());
    assert!(!FbapiError::UnExpected(Json::Null).retryable());
    assert!(!FbapiError::PhaseError(Json::Null).retryable());
    let trace = retry_run(5, vec![Err(FbapiError::UnExpected(Json::Null)), retry_doc("{}")]);
    assert_eq!(trace.sends, 1);
    assert!(matches!(trace.result, Some(Err(FbapiError::UnExpected(Json::Null)))));
    let trace = retry_run(5, vec![Err(FbapiError::Facebook(Json::Null)), retry_doc("{}")]);
    assert_eq!(trace.sends, 1);
}

#[test]
fn an_attempt_is_observed_without_a_reply() {
    let mut base = LogParams::new("p", &[("a", "b")]);
    base.count = 7;
    base.result = Some(Json::Null);
    let started = Executor::begin(2, Request::get("p"), base);
    assert_eq!(started.record.count, 0);
    assert!(started.record.result.is_none());
    match started.executor.settle(retry_lost()) {
        Settled::Again { record, .. } => {
            assert_eq!(record.count, 1);
            assert!(record.result.is_none());
            assert_eq!(record.params, vec![("a".to_string(), "b".to_string())]);
        }
        Settled::Finished(_) => panic!("the budget had an attempt left"),
    }
}
