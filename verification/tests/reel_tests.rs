use fbapi::api::Fbapi;
use fbapi::apis::post_video_reel::{config_of, Phase, ReelStage, ReelUpload};
use fbapi::codec::parse;
use fbapi::error::{ErrorKind, FbapiError};
use fbapi::exchange::{Action, Channel, LogParams, Next, Payload, Request, Turn, Verb};
use fbapi::json::Json;
use fbapi::poll::{FailureRule, Guard, StatusClass};

struct ReelTrace {
    requests: Vec<Request>,
    records: Vec<LogParams>,
    sleeps: Vec<usize>,
    result: Option<Result<Json, FbapiError>>,
    stage: Option<ReelStage>,
}

fn reel_doc(text: &str) -> Result<Json, FbapiError> {
    Ok(parse(text).unwrap())
}

fn reel_status(phase: &str, status: &str) -> Result<Json, FbapiError> {
    reel_doc(&format!("{{\"status\":{{\"{}\":{{\"status\":\"{}\"}}}}}}", phase, status))
}

fn reel_run(thumb: bool, max_checks: usize, replies: Vec<Result<Json, FbapiError>>) -> ReelTrace {
    let api = Fbapi::new("v19.0", 10, false).unwrap();
    let mut turn: Turn<ReelUpload, Json> =
        api.post_video_reel("TOKEN", "PAGE", "https://cdn.test/v.mp4", "hello", thumb, max_checks);
    let mut trace =
        ReelTrace { requests: vec![], records: vec![], sleeps: vec![], result: None, stage: None };
    let mut replies = replies.into_iter();
    loop {
        for action in turn.actions {
            match action {
                Action::Observe(record) => trace.records.push(record),
                Action::Sleep(seconds) => trace.sleeps.push(seconds),
            }
        }
        match turn.next {
            Next::Done(result) => {
                trace.result = Some(result);
                return trace;
            }
            Next::Send { request, state } => {
                trace.requests.push(request);
                match replies.next() {
                    Some(reply) => turn = state.advance(reply),
                    None => {
                        trace.stage = Some(state.stage);
                        return trace;
                    }
                }
            }
        }
    }
}

fn reel_session() -> Result<Json, FbapiError> {
    reel_doc("{\"upload_url\":\"https://rupload.test/up/55\",\"video_id\":\"55\"}")
}

fn reel_published() -> Result<Json, FbapiError> {
    reel_doc("{\"success\":true,\"post_id\":\"900\"}")
}

fn reel_pairs(pairs: &[(&str, &str)]) -> Vec<(String, String)> {
    pairs.iter().map(|(k, v)| (k.to_string(), v.to_string())).collect()
}

#[test]
fn reel_goes_through_every_stage_in_order() {
    let trace = reel_run(
        true,
        10,
        vec![
            reel_session(),
            reel_doc("{\"success\":true}"),
            reel_status("uploading_phase", "in_progress"),
            reel_status("uploading_phase", "complete"),
            reel_status("copyright_check_status", "in_progress"),
            reel_status("copyright_check_status", "complete"),
            reel_doc("{\"success\":true}"),
            reel_published(),
            reel_status("processing_phase", "not_started"),
            reel_status("processing_phase", "in_progress"),
            reel_status("processing_phase", "complete"),
            reel_status("publishing_phase", "not_started"),
            reel_status("publishing_phase", "complete"),
        ],
    );
    assert_eq!(trace.result.unwrap().ok(), parse("{\"success\":true,\"post_id\":\"900\"}"));
    let check = "https://graph.facebook.com/v19.0/55?fields=status&access_token=TOKEN";
    let reels = "https://graph.facebook.com/v19.0/PAGE/video_reels";
    let urls: Vec<&str> = trace.requests.iter().map(|r| r.url.as_str()).collect();
    assert_eq!(
        urls,
        vec![
            reels,
            "https://rupload.test/up/55",
            check,
            check,
            check,
            check,
            "https://graph.facebook.com/v19.0/55/thumbnails",
            reels,
            check,
            check,
            check,
            check,
            check,
        ]
    );
    assert_eq!(trace.sleeps, vec![1, 2, 2, 2, 2]);

    let start = &trace.requests[0];
    assert_eq!(start.verb, Verb::Post);
    assert_eq!(start.channel, Channel::Long);
    match &start.payload {
        Payload::Form(fields) => {
            assert_eq!(fields, &reel_pairs(&[("access_token", "TOKEN"), ("upload_phase", "start")]))
        }
        other => panic!("{:?}", other),
    }
    let upload = &trace.requests[1];
    assert_eq!(upload.verb, Verb::Post);
    assert_eq!(upload.channel, Channel::Long);
    assert!(matches!(upload.payload, Payload::Empty));
    assert_eq!(
        upload.headers,
        reel_pairs(&[("Authorization", "OAuth TOKEN"), ("file_url", "https://cdn.test/v.mp4")])
    );
    let poll = &trace.requests[2];
    assert_eq!(poll.verb, Verb::Get);
    assert_eq!(poll.channel, Channel::Standard);
    match &trace.requests[6].payload {
        Payload::Multipart { fields, file_name } => {
            assert_eq!(fields, &reel_pairs(&[("access_token", "TOKEN"), ("is_preferred", "true")]));
            assert_eq!(file_name, "thumnail");
        }
        other => panic!("{:?}", other),
    }
    match &trace.requests[7].payload {
        Payload::Form(fields) => assert_eq!(
            fields,
            &reel_pairs(&[
                ("access_token", "TOKEN"),
                ("video_id", "55"),
                ("upload_phase", "finish"),
                ("video_state", "PUBLISHED"),
                ("description", "hello"),
            ])
        ),
        other => panic!("{:?}", other),
    }
    assert_eq!(trace.requests[7].channel, Channel::Long);

    // every request is observed before it is sent, every document after it came
    assert_eq!(trace.records.len(), 26);
    assert_eq!(trace.records[0].path, reels);
    assert!(trace.records[0].result.is_none());
    assert_eq!(trace.records[1].result, reel_session().ok());
    assert_eq!(trace.records[2].path, "https://rupload.test/up/55");
    assert_eq!(trace.records[2].params, reel_pairs(&[("file_url", "https://cdn.test/v.mp4")]));
    assert_eq!(
        trace.records[12].params,
        reel_pairs(&[("access_token", "TOKEN"), ("video_id", "55")])
    );
}

#[test]
fn reel_without_thumbnail_skips_that_call() {
    let trace = reel_run(
        false,
        3,
        vec![
            reel_session(),
            reel_doc("{\"success\":true}"),
            reel_status("uploading_phase", "complete"),
            reel_status("copyright_check_status", "complete"),
            reel_published(),
            reel_status("processing_phase", "complete"),
            reel_status("publishing_phase", "complete"),
        ],
    );
    assert!(matches!(trace.result, Some(Ok(_))));
    assert_eq!(trace.requests.len(), 7);
    assert!(trace.requests.iter().all(|r| !r.url.ends_with("/thumbnails")));
    assert!(trace.sleeps.is_empty());
}

#[test]
fn copyright_match_fails_the_reel_though_the_check_is_complete() {
    let found =
        "{\"status\":{\"copyright_check_status\":{\"status\":\"complete\",\"matches_found\":true}}}";
    let trace = reel_run(
        true,
        5,
        vec![
            reel_session(),
            reel_doc("{\"success\":true}"),
            reel_status("uploading_phase", "complete"),
            reel_doc(found),
            reel_published(),
        ],
    );
    match trace.result {
        Some(Err(e)) => {
            assert!(matches!(e, FbapiError::CopyRight));
            assert_eq!(e.kind(), ErrorKind::CopyrightViolation);
        }
        other => panic!("{:?}", other),
    }
    assert_eq!(trace.requests.len(), 4);
    assert_eq!(trace.records.last().unwrap().result, parse(found));
}

#[test]
fn copyright_check_without_match_lets_the_reel_through() {
    let clean =
        "{\"status\":{\"copyright_check_status\":{\"status\":\"complete\",\"matches_found\":false}}}";
    let trace = reel_run(
        false,
        5,
        vec![
            reel_session(),
            reel_doc("{\"success\":true}"),
            reel_status("uploading_phase", "complete"),
            reel_doc(clean),
        ],
    );
    assert!(trace.result.is_none());
    assert!(matches!(trace.stage, Some(ReelStage::Finish { .. })));
}

#[test]
fn session_without_url_or_id_is_of_unexpected_shape() {
    for reply in ["{\"video_id\":\"55\"}", "{\"upload_url\":\"u\"}", "{\"upload_url\":\"u\",\"video_id\":55}", "[]"] {
        let trace = reel_run(true, 5, vec![reel_doc(reply)]);
        match trace.result {
            Some(Err(FbapiError::UnExpected(doc))) => assert_eq!(Some(doc), parse(reply)),
            other => panic!("{:?}", other),
        }
        assert_eq!(trace.requests.len(), 1);
    }
}

#[test]
fn upload_must_say_success() {
    for reply in ["{\"success\":false}", "{}", "{\"success\":\"true\"}"] {
        let trace = reel_run(true, 5, vec![reel_session(), reel_doc(reply)]);
        match trace.result {
            Some(Err(FbapiError::UnExpected(doc))) => assert_eq!(Some(doc), parse(reply)),
            other => panic!("{:?}", other),
        }
        assert_eq!(trace.requests.len(), 2);
    }
}

#[test]
fn publication_must_say_success_and_name_the_post() {
    for reply in ["{\"success\":true}", "{\"success\":false,\"post_id\":\"1\"}", "{\"post_id\":\"1\"}", "{\"success\":true,\"post_id\":1}"] {
        let trace = reel_run(
            false,
            5,
            vec![
                reel_session(),
                reel_doc("{\"success\":true}"),
                reel_status("uploading_phase", "complete"),
                reel_status("copyright_check_status", "complete"),
                reel_doc(reply),
            ],
        );
        match trace.result {
            Some(Err(FbapiError::UnExpected(doc))) => assert_eq!(Some(doc), parse(reply)),
            other => panic!("{:?}", other),
        }
        assert_eq!(trace.requests.len(), 5);
    }
}

#[test]
fn failed_phase_reports_its_name_with_the_status() {
    let trace = reel_run(
        true,
        5,
        vec![reel_session(), reel_doc("{\"success\":true}"), reel_status("uploading_phase", "failed")],
    );
    match trace.result {
        Some(Err(e)) => {
            assert_eq!(e.kind(), ErrorKind::PollTerminalFailure);
            match e {
                FbapiError::PhaseError(doc) => {
                    assert_eq!(doc.text_of("error"), Some("uploading_phase"));
                    assert_eq!(
                        doc.member("status").map(|d| d.duplicate()),
                        reel_status("uploading_phase", "failed").ok()
                    );
                }
                other => panic!("{:?}", other),
            }
        }
        other => panic!("{:?}", other),
    }
    assert_eq!(trace.requests.len(), 3);
    assert!(trace.sleeps.is_empty());
}

#[test]
fn every_phase_fails_at_once_on_error_and_on_failed() {
    let before = |phase: &str| -> Vec<Result<Json, FbapiError>> {
        let mut replies = vec![reel_session(), reel_doc("{\"success\":true}")];
        for done in ["uploading_phase", "copyright_check_status"] {
            if done == phase {
                return replies;
            }
            replies.push(reel_status(done, "complete"));
        }
        replies.push(reel_published());
        if phase == "publishing_phase" {
            replies.push(reel_status("processing_phase", "complete"));
        }
        replies
    };
    for phase in ["uploading_phase", "copyright_check_status", "processing_phase", "publishing_phase"] {
        for status in ["error", "failed"] {
            let mut replies = before(phase);
            let sent = replies.len() + 1;
            replies.push(reel_status(phase, status));
            replies.push(reel_status(phase, "complete"));
            let trace = reel_run(false, 5, replies);
            match trace.result {
                Some(Err(FbapiError::PhaseError(doc))) => {
                    assert_eq!(doc.text_of("error"), Some(phase));
                    assert_eq!(
                        doc.member("status").map(|d| d.duplicate()),
                        reel_status(phase, status).ok()
                    );
                }
                other => panic!("{} {}: {:?}", phase, status, other),
            }
            assert_eq!(trace.requests.len(), sent);
            assert!(trace.sleeps.is_empty());
        }
    }
}

#[test]
fn phase_without_a_status_is_of_unexpected_shape() {
    let trace = reel_run(
        true,
        5,
        vec![reel_session(), reel_doc("{\"success\":true}"), reel_doc("{\"status\":{}}")],
    );
    match trace.result {
        Some(Err(e)) => {
            assert_eq!(e.kind(), ErrorKind::UnexpectedShape);
            match e {
                FbapiError::UnExpected(doc) => {
                    assert_eq!(doc.text_of("error"), Some("uploading_phase"));
                    assert_eq!(doc.member("status").map(|d| d.duplicate()), parse("{\"status\":{}}"));
                }
                other => panic!("{:?}", other),
            }
        }
        other => panic!("{:?}", other),
    }
    assert_eq!(trace.requests.len(), 3);
}

#[test]
fn not_started_is_transient_only_after_the_publication() {
    let trace = reel_run(
        true,
        5,
        vec![
            reel_session(),
            reel_doc("{\"success\":true}"),
            reel_status("uploading_phase", "not_started"),
        ],
    );
    assert!(matches!(trace.result, Some(Err(FbapiError::PhaseError(_)))));
}

#[test]
fn processing_error_object_fails_a_transient_status() {
    let broken =
        "{\"status\":{\"processing_phase\":{\"status\":\"in_progress\",\"error\":{\"code\":5}}}}";
    let trace = reel_run(
        false,
        5,
        vec![
            reel_session(),
            reel_doc("{\"success\":true}"),
            reel_status("uploading_phase", "complete"),
            reel_status("copyright_check_status", "complete"),
            reel_published(),
            reel_doc(broken),
        ],
    );
    match trace.result {
        Some(Err(FbapiError::PhaseError(doc))) => {
            assert_eq!(doc.text_of("error"), Some("processing_phase"));
            assert_eq!(doc.member("status").map(|d| d.duplicate()), parse(broken));
        }
        other => panic!("{:?}", other),
    }
}

#[test]
fn phase_times_out_after_its_budget() {
    let trace = reel_run(
        true,
        2,
        vec![
            reel_session(),
            reel_doc("{\"success\":true}"),
            reel_status("uploading_phase", "in_progress"),
            reel_status("uploading_phase", "in_progress"),
            reel_status("uploading_phase", "complete"),
        ],
    );
    assert!(matches!(trace.result, Some(Err(FbapiError::VideoTimeout))));
    assert_eq!(trace.requests.len(), 4);
    assert_eq!(trace.sleeps, vec![1, 1]);
}

#[test]
fn lost_request_ends_the_reel_without_another_attempt() {
    let trace = reel_run(true, 5, vec![Err(FbapiError::Reqwest("gone".to_string()))]);
    assert!(matches!(trace.result, Some(Err(FbapiError::Reqwest(_)))));
    assert_eq!(trace.requests.len(), 1);
    let trace = reel_run(
        true,
        5,
        vec![
            reel_session(),
            reel_doc("{\"success\":true}"),
            reel_status("uploading_phase", "complete"),
            reel_status("copyright_check_status", "complete"),
            reel_doc("{\"error\":{\"code\":1}}"),
        ],
    );
    assert!(matches!(trace.result, Some(Err(FbapiError::Facebook(_)))));
    assert_eq!(trace.requests.len(), 5);
}

#[test]
fn phases_have_their_own_configuration() {
    let uploading = config_of(Phase::Uploading, "p", 9);
    assert_eq!(uploading.path, "p");
    assert_eq!(uploading.field_path, vec!["status", "uploading_phase", "status"]);
    assert_eq!(uploading.interval, 1);
    assert_eq!(uploading.max_iterations, 9);
    assert_eq!(uploading.retry_per_poll, 0);
    assert!(matches!(uploading.guard, Guard::Nothing));
    assert!(matches!(&uploading.failure, FailureRule::Phase(name) if name == "uploading_phase"));
    assert_eq!(uploading.classes.len(), 4);

    let copyright = config_of(Phase::Copyright, "p", 9);
    assert_eq!(copyright.interval, 2);
    assert!(matches!(&copyright.guard, Guard::Matches(path)
        if path == &vec!["status", "copyright_check_status", "matches_found"]));

    let processing = config_of(Phase::Processing, "p", 9);
    assert!(matches!(&processing.guard, Guard::ErrorObject(path)
        if path == &vec!["status", "processing_phase", "error"]));
    assert_eq!(
        processing.classes,
        vec![
            ("complete".to_string(), StatusClass::Success),
            ("in_progress".to_string(), StatusClass::Transient),
            ("not_started".to_string(), StatusClass::Transient),
            ("error".to_string(), StatusClass::Failure),
            ("failed".to_string(), StatusClass::Failure),
        ]
    );
    let publishing = config_of(Phase::Publishing, "p", 9);
    assert_eq!(publishing.field_path, vec!["status", "publishing_phase", "status"]);
    assert!(matches!(publishing.guard, Guard::Nothing));
}
