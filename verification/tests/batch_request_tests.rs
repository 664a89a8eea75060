use fbapi::batch_request::{
    response_shaper, shape_entry, judge_body, Builder, Item, ItemCommon, ResponseOnSuccess,
};
use fbapi::codec::{parse, render};
use fbapi::error::FbapiError;
use fbapi::json::{Json, JsonNumber};

fn batch_object(members: Vec<(&str, Json)>) -> Json {
    Json::Object(members.into_iter().map(|(k, v)| (k.to_string(), v)).collect())
}

fn batch_text(s: &str) -> Json {
    Json::String(s.to_string())
}

#[test]
fn test_item_without_body() -> Result<(), FbapiError> {
    let batch = Builder::new()
        .get("foo", &[("one", "uno"), ("two", "dos")])
        .get_with_name("bar", "baz", &[], ResponseOnSuccess::Preserve)
        .build()?;
    let json: Json = batch.into();
    assert_eq!(
        json,
        Json::Array(vec![
            batch_object(vec![
                ("method", batch_text("GET")),
                ("relative_url", batch_text("foo?one=uno&two=dos")),
            ]),
            batch_object(vec![
                ("method", batch_text("GET")),
                ("name", batch_text("bar")),
                ("omit_response_on_success", Json::Bool(false)),
                ("relative_url", batch_text("baz")),
            ]),
        ])
    );

    Ok(())
}

#[test]
fn test_item_with_body() {
    let item = Item::Post {
        body: Some("jugemu jugemu".to_string()),
        common: ItemCommon {
            relative_url: "bar".to_string(),
            name: Some("named".to_string()),
            omit_response_on_success: None,
        },
    };
    let json = item.to_json();
    assert_eq!(
        json,
        batch_object(vec![
            ("body", batch_text("jugemu jugemu")),
            ("method", batch_text("POST")),
            ("name", batch_text("named")),
            ("relative_url", batch_text("bar")),
        ])
    );
}

#[test]
fn test_response_shaper() -> Result<(), FbapiError> {
    let error_json = batch_object(vec![(
        "error",
        batch_object(vec![
            ("code", Json::Number(JsonNumber::PosInt(42))),
            ("type", batch_text("OAuthException")),
        ]),
    )]);
    let error_body = render(&error_json);
    let ok_json = batch_object(vec![
        ("id", batch_text("141421356")),
        ("name", batch_text("sqrt(2)")),
    ]);
    let ok_body = render(&ok_json);
    let responses = Json::Array(vec![
        Json::Null,
        batch_object(vec![
            ("code", Json::Number(JsonNumber::PosInt(403))),
            ("body", Json::String(error_body)),
        ]),
        batch_object(vec![
            ("code", Json::Number(JsonNumber::PosInt(200))),
            ("body", Json::String(ok_body)),
        ]),
    ]);
    let results = response_shaper(responses)?;
    assert_eq!(results.len(), 3);
    assert_eq!(results[0].as_ref().ok(), Some(&Json::Null));
    assert_eq!(
        match &results[1] {
            Err(FbapiError::Facebook(value)) => value,
            _ => &Json::Null,
        },
        &error_json
    );
    assert_eq!(results[2].as_ref().ok(), Some(&ok_json));
    Ok(())
}

#[test]
fn batch_renders_as_compact_json_with_sorted_members() {
    let batch = Builder::new()
        .get("foo", &[("one", "uno"), ("two", "dos")])
        .get_with_name("bar", "baz", &[], ResponseOnSuccess::Omit)
        .build()
        .unwrap();
    assert_eq!(batch.batch_count(), 2);
    assert_eq!(
        batch.to_string(),
        "[{\"method\":\"GET\",\"relative_url\":\"foo?one=uno&two=dos\"},\
         {\"method\":\"GET\",\"name\":\"bar\",\"omit_response_on_success\":true,\"relative_url\":\"baz\"}]"
    );
}

#[test]
fn batch_text_is_what_serde_json_reads_back() {
    let batch = Builder::new()
        .get("foo", &[("one", "uno"), ("two", "dos")])
        .get_with_name("bar", "baz", &[], ResponseOnSuccess::Preserve)
        .build()
        .unwrap();
    let read: serde_json::Value = serde_json::from_str(&batch.to_string()).unwrap();
    let first = &read[0];
    assert_eq!(first["relative_url"], serde_json::Value::from("foo?one=uno&two=dos"));
    assert_eq!(first["method"], serde_json::Value::from("GET"));
    assert!(first.get("name").is_none());
    assert!(first.get("omit_response_on_success").is_none());
    let second = &read[1];
    assert_eq!(second["relative_url"], serde_json::Value::from("baz"));
    assert_eq!(second["name"], serde_json::Value::from("bar"));
    assert_eq!(second["omit_response_on_success"], serde_json::Value::from(false));
    assert_eq!(read.as_array().unwrap().len(), 2);
}

#[test]
fn empty_batch_is_an_empty_array() {
    let batch = Builder::with_capacity(4).build().unwrap();
    assert_eq!(batch.batch_count(), 0);
    assert_eq!(batch.to_string(), "[]");
    assert_eq!(batch.into_json(), Json::Array(vec![]));
}

#[test]
fn add_get_in_a_loop_keeps_the_order() {
    let mut builder = Builder::new();
    builder.add_get("a", &[]);
    builder.add_get_with_name("n", "b", &[("k", "v")], ResponseOnSuccess::Omit);
    builder.add_get_internal(None, "c", &[("x", "1"), ("y", "2"), ("z", "3")]);
    let json = builder.build().unwrap().into_json();
    let urls: Vec<String> = match json {
        Json::Array(items) => items
            .iter()
            .map(|i| i.text_of("relative_url").unwrap().to_string())
            .collect(),
        _ => vec![],
    };
    assert_eq!(urls, vec!["a", "b?k=v", "c?x=1&y=2&z=3"]);
}

#[test]
fn relative_url_without_params_is_unchanged() {
    assert_eq!(ItemCommon::relative_url_with_params("me/feed", &[]), "me/feed");
    assert_eq!(ItemCommon::relative_url_with_params("me", &[("fields", "id")]), "me?fields=id");
}

#[test]
fn item_common_has_name_and_omit_together() {
    let named = ItemCommon::new(Some(("n", ResponseOnSuccess::Omit)), "u", &[]);
    assert_eq!(named.name.as_deref(), Some("n"));
    assert_eq!(named.omit_response_on_success, Some(true));
    let kept = ItemCommon::new(Some(("n", ResponseOnSuccess::Preserve)), "u", &[]);
    assert_eq!(kept.omit_response_on_success, Some(false));
    let bare = ItemCommon::new(None, "u", &[("a", "b")]);
    assert_eq!(bare.name, None);
    assert_eq!(bare.omit_response_on_success, None);
    assert_eq!(bare.relative_url, "u?a=b");
}

#[test]
fn every_method_is_spelled_in_capitals() {
    let common = || ItemCommon { relative_url: "u".to_string(), name: None, omit_response_on_success: None };
    assert_eq!(Item::Get(common()).to_json().text_of("method"), Some("GET"));
    assert_eq!(Item::Delete(common()).to_json().text_of("method"), Some("DELETE"));
    assert_eq!(Item::Post { body: None, common: common() }.to_json().text_of("method"), Some("POST"));
    let put = Item::Put { body: Some("b".to_string()), common: common() }.to_json();
    assert_eq!(put.text_of("method"), Some("PUT"));
    assert_eq!(put.text_of("body"), Some("b"));
}

#[test]
fn shaper_refuses_a_reply_that_is_no_array() {
    let reply = batch_object(vec![("data", Json::Array(vec![]))]);
    match response_shaper(batch_object(vec![("data", Json::Array(vec![]))])) {
        Err(FbapiError::UnExpected(doc)) => assert_eq!(doc, reply),
        other => panic!("{:?}", other),
    }
}

#[test]
fn shaper_fails_one_position_and_goes_on() {
    let odd = batch_object(vec![("code", Json::Number(JsonNumber::PosInt(200)))]);
    let responses = Json::Array(vec![
        batch_object(vec![("code", Json::Number(JsonNumber::PosInt(200)))]),
        batch_object(vec![("body", batch_text("{\"id\":\"1\"}"))]),
        batch_object(vec![("body", batch_text("not json"))]),
        Json::Bool(true),
    ]);
    let results = response_shaper(responses).unwrap();
    assert_eq!(results.len(), 4);
    match &results[0] {
        Err(FbapiError::UnExpected(doc)) => assert_eq!(doc, &odd),
        other => panic!("{:?}", other),
    }
    assert_eq!(results[1].as_ref().ok(), Some(&batch_object(vec![("id", batch_text("1"))])));
    assert!(matches!(&results[2], Err(FbapiError::Json(_))));
    match &results[3] {
        Err(FbapiError::UnExpected(doc)) => assert_eq!(doc, &Json::Bool(true)),
        other => panic!("{:?}", other),
    }
}

#[test]
fn shape_entry_reads_the_body_twice_encoded() {
    let entry = batch_object(vec![("body", batch_text("{\"error\":{\"code\":1}}"))]);
    match shape_entry(entry) {
        Err(FbapiError::Facebook(doc)) => {
            assert_eq!(
                doc,
                batch_object(vec![(
                    "error",
                    batch_object(vec![("code", Json::Number(JsonNumber::PosInt(1)))])
                )])
            );
        }
        other => panic!("{:?}", other),
    }
    assert_eq!(shape_entry(Json::Null).ok(), Some(Json::Null));
}

#[test]
fn judge_body_tells_report_from_document() {
    let bad = serde_json::from_str::<serde_json::Value>("{").unwrap_err();
    assert!(matches!(judge_body(Err(bad)), Err(FbapiError::Json(_))));
    let plain = parse("{\"error\":\"text\"}").unwrap();
    assert_eq!(judge_body(Ok(parse("{\"error\":\"text\"}").unwrap())).ok(), Some(plain));
    assert!(matches!(
        judge_body(Ok(parse("{\"error\":{}}").unwrap())),
        Err(FbapiError::Facebook(_))
    ));
}
