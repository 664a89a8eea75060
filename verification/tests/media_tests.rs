use fbapi::api::Fbapi;
use fbapi::apis::check_ig_media::{CheckStyle, ContainerUpload, MediaPublish};
use fbapi::apis::post_video::VideoPublish;
use fbapi::codec::parse;
use fbapi::error::FbapiError;
use fbapi::exchange::{Action, Channel, LogParams, Next, Payload, Request, Turn, Verb};
use fbapi::flow::{read_id, IdCall};
use fbapi::json::Json;

struct MediaTrace<T> {
    requests: Vec<Request>,
    records: Vec<LogParams>,
    sleeps: Vec<usize>,
    result: Option<Result<T, FbapiError>>,
}

fn media_drive<S, T>(
    first: Turn<S, T>,
    advance: fn(S, Result<Json, FbapiError>) -> Turn<S, T>,
    replies: Vec<Result<Json, FbapiError>>,
) -> MediaTrace<T> {
    let mut trace = MediaTrace { requests: vec![], records: vec![], sleeps: vec![], result: None };
    let mut replies = replies.into_iter();
    let mut turn = first;
    loop {
        for action in turn.actions {
            match action {
                Action::Observe(record) => trace.records.push(record),
                Action::Sleep(seconds) => trace.sleeps.push(seconds),
            }
        }
        match turn.next {
            Next::Done(result) => {
                trace.result = Some(result);
                return trace;
            }
            Next::Send { request, state } => {
                trace.requests.push(request);
                match replies.next() {
                    Some(reply) => turn = advance(state, reply),
                    None => return trace,
                }
            }
        }
    }
}

fn media_doc(text: &str) -> Result<Json, FbapiError> {
    Ok(parse(text).unwrap())
}

fn media_lost() -> Result<Json, FbapiError> {
    Err(FbapiError::Reqwest("lost".to_string()))
}

fn media_pairs(pairs: &[(&str, &str)]) -> Vec<(String, String)> {
    pairs.iter().map(|(k, v)| (k.to_string(), v.to_string())).collect()
}

fn media_fields(request: &Request) -> Vec<(String, String)> {
    match &request.payload {
        Payload::Form(fields) => fields.clone(),
        other => panic!("{:?}", other),
    }
}

#[test]
fn picture_is_made_watched_and_published() {
    let api = Fbapi::new("v19.0", 10, false).unwrap();
    let trace = media_drive(
        api.post_ig_picture("T", "ACC", "https://cdn.test/p.jpg", "cap", 3, 4, 2),
        MediaPublish::advance,
        vec![
            media_lost(),
            media_doc("{\"id\":\"c1\"}"),
            media_doc("{\"status_code\":\"IN_PROGRESS\"}"),
            media_doc("{\"status_code\":\"FINISHED\"}"),
            media_doc("{\"id\":\"m9\"}"),
        ],
    );
    assert_eq!(trace.result.unwrap().ok(), parse("{\"id\":\"m9\"}"));
    let urls: Vec<&str> = trace.requests.iter().map(|r| r.url.as_str()).collect();
    let check = "https://graph.facebook.com/v19.0/c1?fields=status,status_code&access_token=T";
    assert_eq!(
        urls,
        vec![
            "https://graph.facebook.com/v19.0/ACC/media",
            "https://graph.facebook.com/v19.0/ACC/media",
            check,
            check,
            "https://graph.facebook.com/v19.0/ACC/media_publish",
        ]
    );
    assert_eq!(
        media_fields(&trace.requests[0]),
        media_pairs(&[
            ("access_token", "T"),
            ("image_url", "https://cdn.test/p.jpg"),
            ("caption", "cap"),
            ("is_carousel_item", "false"),
        ])
    );
    assert_eq!(
        media_fields(&trace.requests[4]),
        media_pairs(&[("access_token", "T"), ("creation_id", "c1")])
    );
    assert_eq!(trace.requests[2].verb, Verb::Get);
    assert_eq!(trace.sleeps, vec![4]);
    let counts: Vec<usize> = trace.records.iter().map(|r| r.count).collect();
    assert_eq!(counts, vec![0, 1, 1, 0, 0, 0, 0, 0, 0]);
}

#[test]
fn detailed_check_carries_the_status_document_in_its_failure() {
    let api = Fbapi::new("v19.0", 10, false).unwrap();
    let trace = media_drive(
        api.post_ig_video_stories("T", "ACC", "https://cdn.test/v.mp4", 3, 4, 1),
        MediaPublish::advance,
        vec![media_doc("{\"id\":\"c1\"}"), media_doc("{\"status_code\":\"ERROR\",\"status\":\"bad\"}")],
    );
    match trace.result {
        Some(Err(FbapiError::IgVideoError(doc))) => {
            assert_eq!(Some(doc), parse("{\"status_code\":\"ERROR\",\"status\":\"bad\"}"))
        }
        other => panic!("{:?}", other),
    }
    assert_eq!(
        media_fields(&trace.requests[0]),
        media_pairs(&[
            ("access_token", "T"),
            ("media_type", "STORIES"),
            ("video_url", "https://cdn.test/v.mp4")
        ])
    );
}

#[test]
fn plain_check_asks_for_the_status_code_alone() {
    let api = Fbapi::new("v19.0", 10, false).unwrap();
    let trace = media_drive(
        api.post_ig_video("T", "ACC", "https://cdn.test/v.mp4", "cap", 3, 4, 1),
        MediaPublish::advance,
        vec![media_doc("{\"id\":\"c1\"}"), media_doc("{\"status_code\":\"EXPIRED\"}")],
    );
    assert!(matches!(trace.result, Some(Err(FbapiError::VideoError))));
    assert_eq!(
        trace.requests[1].url,
        "https://graph.facebook.com/v19.0/c1?fields=status_code&access_token=T"
    );
    assert_eq!(
        media_fields(&trace.requests[0]),
        media_pairs(&[
            ("access_token", "T"),
            ("media_type", "VIDEO"),
            ("video_url", "https://cdn.test/v.mp4"),
            ("caption", "cap"),
        ])
    );
}

#[test]
fn carousel_names_its_children_by_commas() {
    let api = Fbapi::new("v19.0", 10, false).unwrap();
    let children = vec!["11".to_string(), "22".to_string(), "33".to_string()];
    let trace = media_drive(
        api.post_ig_carousel("T", "ACC", "cap", &children, 1, 0, 1),
        MediaPublish::advance,
        vec![media_doc("{\"id\":\"c1\"}"), media_doc("{\"status_code\":\"IN_PROGRESS\"}")],
    );
    assert!(matches!(trace.result, Some(Err(FbapiError::VideoTimeout))));
    assert_eq!(trace.sleeps, vec![0]);
    assert_eq!(
        media_fields(&trace.requests[0]),
        media_pairs(&[
            ("access_token", "T"),
            ("media_type", "CAROUSEL"),
            ("children", "11,22,33"),
            ("caption", "cap"),
        ])
    );
}

#[test]
fn reel_names_its_cover_last_where_it_has_one() {
    let api = Fbapi::new("v19.0", 10, false).unwrap();
    let with_cover = api.post_ig_reel("T", "ACC", "v", Some("c"), "cap", true, 1, 1, 1);
    match with_cover.next {
        Next::Send { request, .. } => assert_eq!(
            media_fields(&request),
            media_pairs(&[
                ("access_token", "T"),
                ("media_type", "REELS"),
                ("video_url", "v"),
                ("caption", "cap"),
                ("share_to_feed", "true"),
                ("cover_url", "c"),
            ])
        ),
        _ => panic!("nothing sent"),
    }
    let without = api.post_ig_reel("T", "ACC", "v", None, "cap", false, 1, 1, 1);
    match without.next {
        Next::Send { request, .. } => assert_eq!(
            media_fields(&request),
            media_pairs(&[
                ("access_token", "T"),
                ("media_type", "REELS"),
                ("video_url", "v"),
                ("caption", "cap"),
                ("share_to_feed", "false"),
            ])
        ),
        _ => panic!("nothing sent"),
    }
}

#[test]
fn upload_of_a_story_ends_with_the_id_of_its_container() {
    let api = Fbapi::new("v19.0", 10, false).unwrap();
    let trace = media_drive(
        api.upload_ig_picture_stories("T", "ACC", "https://cdn.test/p.jpg", 2, 1, 1),
        ContainerUpload::advance,
        vec![media_doc("{\"id\":\"c7\"}"), media_doc("{\"status_code\":\"FINISHED\"}")],
    );
    assert_eq!(trace.result.unwrap().ok(), Some("c7".to_string()));
    assert_eq!(trace.requests.len(), 2);
    let published = media_drive(
        api.post_ig_picture_stories("T", "ACC", "https://cdn.test/p.jpg", 2, 1, 1),
        MediaPublish::advance,
        vec![media_doc("{\"id\":\"c7\"}"), media_doc("{\"status_code\":\"FINISHED\"}")],
    );
    assert!(published.result.is_none());
    assert_eq!(published.requests.len(), 3);
    assert_eq!(published.requests[0].url, trace.requests[0].url);
    assert_eq!(
        media_fields(&published.requests[0]),
        media_pairs(&[
            ("access_token", "T"),
            ("media_type", "STORIES"),
            ("image_url", "https://cdn.test/p.jpg")
        ])
    );
}

#[test]
fn container_without_an_id_is_of_unexpected_shape() {
    let api = Fbapi::new("v19.0", 10, false).unwrap();
    let trace = media_drive(
        api.post_ig_image_container("T", "ACC", "u", "cap", true, 2),
        IdCall::advance,
        vec![media_doc("{\"id\":17}")],
    );
    match trace.result {
        Some(Err(FbapiError::UnExpected(doc))) => assert_eq!(Some(doc), parse("{\"id\":17}")),
        other => panic!("{:?}", other),
    }
    let trace = media_drive(
        api.post_ig_image_container("T", "ACC", "u", "cap", true, 2),
        IdCall::advance,
        vec![media_lost(), media_doc("{\"id\":\"17\"}")],
    );
    assert_eq!(trace.result.unwrap().ok(), Some("17".to_string()));
    assert_eq!(
        media_fields(&trace.requests[1]),
        media_pairs(&[
            ("access_token", "T"),
            ("image_url", "u"),
            ("caption", "cap"),
            ("is_carousel_item", "true"),
        ])
    );
    assert_eq!(read_id(parse("{\"id\":\"x\"}").unwrap()).ok(), Some("x".to_string()));
    assert!(matches!(read_id(Json::Null), Err(FbapiError::UnExpected(Json::Null))));
}

#[test]
fn media_plan_keeps_what_it_is_given() {
    let api = Fbapi::new("v19.0", 10, false).unwrap();
    let plan = api.media_plan("T", "ACC", CheckStyle::Plain, 1, 2, 3);
    assert_eq!(plan.media_path(), "https://graph.facebook.com/v19.0/ACC/media");
    let config = plan.check("c1");
    assert_eq!(config.max_iterations, 1);
    assert_eq!(config.interval, 2);
    assert_eq!(config.retry_per_poll, 3);
    assert_eq!(config.field_path, vec!["status_code"]);
    let (request, record) = plan.publish("c1");
    assert_eq!(request.url, "https://graph.facebook.com/v19.0/ACC/media_publish");
    assert_eq!(record.params, media_pairs(&[("access_token", "T"), ("creation_id", "c1")]));
}

#[test]
fn video_is_handed_over_watched_and_published_to_the_feed() {
    let api = Fbapi::new("v19.0", 10, false).unwrap();
    let trace = media_drive(
        api.post_video("T", "PAGE", "https://cdn.test/v.mp4", "desc", true, 5, 3, 2),
        VideoPublish::advance,
        vec![
            media_doc("{\"id\":\"v1\"}"),
            media_doc("{\"status\":{\"video_status\":\"processing\"}}"),
            media_lost(),
            media_doc("{\"status\":{\"video_status\":\"ready\"}}"),
            media_doc("{\"success\":true}"),
            media_doc("{\"id\":\"v1\"}"),
        ],
    );
    assert_eq!(trace.result.unwrap().ok(), parse("{\"id\":\"v1\"}"));
    let urls: Vec<&str> = trace.requests.iter().map(|r| r.url.as_str()).collect();
    let check = "https://graph.facebook.com/v19.0/v1?fields=status&access_token=T";
    assert_eq!(
        urls,
        vec![
            "https://graph-video.facebook.com/v19.0/PAGE/videos",
            check,
            check,
            check,
            "https://graph.facebook.com/v19.0/v1/thumbnails",
            "https://graph.facebook.com/v19.0/v1",
        ]
    );
    assert_eq!(trace.requests[0].channel, Channel::Long);
    assert_eq!(trace.requests[5].channel, Channel::Standard);
    assert_eq!(
        media_fields(&trace.requests[0]),
        media_pairs(&[
            ("access_token", "T"),
            ("description", "desc"),
            ("file_url", "https://cdn.test/v.mp4"),
            ("published", "true"),
            ("secret", "true"),
        ])
    );
    assert_eq!(
        media_fields(&trace.requests[5]),
        media_pairs(&[("access_token", "T"), ("publish_to_news_feed", "true"), ("fields", "id")])
    );
    assert_eq!(trace.sleeps, vec![3]);
}

#[test]
fn video_goes_to_the_videos_tab_first_where_asked() {
    let api = Fbapi::new("v19.0", 10, false).unwrap();
    let trace = media_drive(
        api.post_video_via_videos_tab("T", "PAGE", "u", "desc", false, 5, 3, 1),
        VideoPublish::advance,
        vec![
            media_doc("{\"id\":\"v1\"}"),
            media_doc("{\"status\":{\"video_status\":\"ready\"}}"),
            media_doc("{\"id\":\"v1\"}"),
            media_doc("{\"id\":\"v1\",\"x\":1}"),
        ],
    );
    assert_eq!(trace.result.unwrap().ok(), parse("{\"id\":\"v1\",\"x\":1}"));
    assert_eq!(trace.requests.len(), 4);
    assert_eq!(
        media_fields(&trace.requests[2]),
        media_pairs(&[("access_token", "T"), ("publish_to_videos_tab", "true"), ("fields", "id")])
    );
    assert_eq!(
        media_fields(&trace.requests[3]),
        media_pairs(&[("access_token", "T"), ("publish_to_news_feed", "true"), ("fields", "id")])
    );
}

#[test]
fn video_fails_with_its_first_failure() {
    let api = Fbapi::new("v19.0", 10, false).unwrap();
    // the first call has one attempt
    let trace = media_drive(
        api.post_video("T", "PAGE", "u", "desc", true, 5, 3, 4),
        VideoPublish::advance,
        vec![media_lost(), media_doc("{\"id\":\"v1\"}")],
    );
    assert!(matches!(trace.result, Some(Err(FbapiError::Reqwest(_)))));
    assert_eq!(trace.requests.len(), 1);
    // a status that is neither ready nor processing
    let trace = media_drive(
        api.post_video("T", "PAGE", "u", "desc", true, 5, 3, 4),
        VideoPublish::advance,
        vec![media_doc("{\"id\":\"v1\"}"), media_doc("{\"status\":{\"video_status\":\"error\"}}")],
    );
    assert!(matches!(trace.result, Some(Err(FbapiError::VideoError))));
    // a reply without a status
    let trace = media_drive(
        api.post_video("T", "PAGE", "u", "desc", true, 5, 3, 4),
        VideoPublish::advance,
        vec![media_doc("{\"id\":\"v1\"}"), media_doc("{\"status\":{}}")],
    );
    assert!(matches!(trace.result, Some(Err(FbapiError::UnExpected(_)))));
    // the thumbnail is refused
    let trace = media_drive(
        api.post_video("T", "PAGE", "u", "desc", true, 5, 3, 4),
        VideoPublish::advance,
        vec![
            media_doc("{\"id\":\"v1\"}"),
            media_doc("{\"status\":{\"video_status\":\"ready\"}}"),
            media_doc("{\"error\":{\"code\":3}}"),
        ],
    );
    assert!(matches!(trace.result, Some(Err(FbapiError::Facebook(_)))));
    assert_eq!(trace.requests.len(), 3);
    // no budget of checks
    let trace = media_drive(
        api.post_video("T", "PAGE", "u", "desc", true, 0, 3, 4),
        VideoPublish::advance,
        vec![media_doc("{\"id\":\"v1\"}")],
    );
    assert!(matches!(trace.result, Some(Err(FbapiError::VideoTimeout))));
    assert_eq!(trace.requests.len(), 1);
}
