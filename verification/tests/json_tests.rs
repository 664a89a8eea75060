use fbapi::codec::{parse, render};
use fbapi::json::{push_member, Json, JsonNumber};

fn json_object(members: Vec<(&str, Json)>) -> Json {
    Json::Object(members.into_iter().map(|(k, v)| (k.to_string(), v)).collect())
}

#[test]
fn parse_reads_every_kind_of_value() {
    assert_eq!(parse("null"), Some(Json::Null));
    assert_eq!(parse("true"), Some(Json::Bool(true)));
    assert_eq!(parse("\"a\\nb\""), Some(Json::String("a\nb".to_string())));
    assert_eq!(parse("18446744073709551615"), Some(Json::Number(JsonNumber::PosInt(u64::MAX))));
    assert_eq!(parse("0"), Some(Json::Number(JsonNumber::PosInt(0))));
    assert_eq!(parse("-3"), Some(Json::Number(JsonNumber::NegInt(-3))));
    assert_eq!(parse("1.5"), Some(Json::Number(JsonNumber::Real("1.5".to_string()))));
    assert_eq!(
        parse("[1,[],{}]"),
        Some(Json::Array(vec![
            Json::Number(JsonNumber::PosInt(1)),
            Json::Array(vec![]),
            Json::Object(vec![]),
        ]))
    );
}

#[test]
fn parse_refuses_what_is_no_json() {
    for text in ["", "{", "[1,]", "nul", "{\"a\":1,}", "1 2", "'a'"] {
        assert_eq!(parse(text), None);
    }
}

#[test]
fn parse_hands_the_members_out_by_their_names() {
    assert_eq!(
        parse("{\"b\":1,\"a\":2,\"c\":{\"z\":null,\"y\":false}}"),
        Some(json_object(vec![
            ("a", Json::Number(JsonNumber::PosInt(2))),
            ("b", Json::Number(JsonNumber::PosInt(1))),
            ("c", json_object(vec![("y", Json::Bool(false)), ("z", Json::Null)])),
        ]))
    );
    assert_eq!(
        parse("{\"a\":1,\"a\":2}"),
        Some(json_object(vec![("a", Json::Number(JsonNumber::PosInt(2)))]))
    );
}

#[test]
fn render_writes_compact_text() {
    let doc = json_object(vec![
        ("text", Json::String("a \"b\"\n".to_string())),
        ("list", Json::Array(vec![Json::Null, Json::Bool(false)])),
        ("n", Json::Number(JsonNumber::NegInt(-7))),
        ("x", Json::Number(JsonNumber::Real("2.5".to_string()))),
    ]);
    assert_eq!(render(&doc), "{\"list\":[null,false],\"n\":-7,\"text\":\"a \\\"b\\\"\\n\",\"x\":2.5}");
    assert_eq!(render(&Json::Number(JsonNumber::Real("no number".to_string()))), "null");
    assert_eq!(render(&Json::String(String::new())), "\"\"");
}

#[test]
fn render_and_parse_undo_each_other() {
    let text = "{\"a\":[1,-2,3.25,\"x\",null,true],\"b\":{\"c\":{}}}";
    let doc = parse(text).unwrap();
    assert_eq!(render(&doc), text);
    assert_eq!(parse(&render(&doc)), Some(doc));
}

#[test]
fn last_member_of_a_name_is_the_member() {
    let doc = json_object(vec![
        ("a", Json::Bool(false)),
        ("b", Json::Null),
        ("a", Json::Bool(true)),
    ]);
    assert_eq!(doc.member("a"), Some(&Json::Bool(true)));
    assert_eq!(doc.member("b"), Some(&Json::Null));
    assert_eq!(doc.member("c"), None);
    assert_eq!(doc.flag_of("a"), Some(true));
    assert_eq!(render(&doc), "{\"a\":true,\"b\":null}");
    assert_eq!(Json::Array(vec![Json::Null]).member("0"), None);
    assert_eq!(Json::Null.member("a"), None);
}

#[test]
fn paths_are_followed_member_by_member() {
    let doc = parse("{\"status\":{\"phase\":{\"status\":\"complete\",\"n\":1}}}").unwrap();
    let path = |names: &[&str]| names.iter().map(|n| n.to_string()).collect::<Vec<_>>();
    assert_eq!(
        doc.at(&path(&["status", "phase", "status"])),
        Some(&Json::String("complete".to_string()))
    );
    assert_eq!(doc.at(&path(&[])), Some(&doc));
    assert_eq!(doc.at(&path(&["status", "other", "status"])), None);
    assert_eq!(doc.at(&path(&["status", "phase", "status", "deeper"])), None);
    assert_eq!(doc.at(&path(&["status", "phase", "n"])).and_then(|n| n.as_u64()), Some(1));
}

#[test]
fn values_tell_what_they_are() {
    assert_eq!(Json::text("x").as_str(), Some("x"));
    assert_eq!(Json::Null.as_str(), None);
    assert_eq!(Json::Bool(true).as_bool(), Some(true));
    assert_eq!(Json::text("true").as_bool(), None);
    assert_eq!(Json::Number(JsonNumber::PosInt(5)).as_u64(), Some(5));
    assert_eq!(Json::Number(JsonNumber::NegInt(-5)).as_u64(), None);
    assert_eq!(Json::Number(JsonNumber::Real("5.0".to_string())).as_u64(), None);
    assert!(Json::Object(vec![]).is_object());
    assert!(!Json::Array(vec![]).is_object());
    assert!(Json::Null.is_null());
    assert!(!Json::Bool(false).is_null());
    assert!(parse("{\"error\":{}}").unwrap().reports_error());
    assert!(!parse("{\"error\":[]}").unwrap().reports_error());
    assert!(!parse("{\"errors\":{}}").unwrap().reports_error());
    assert_eq!(parse("{\"id\":\"1\"}").unwrap().text_of("id"), Some("1"));
    assert_eq!(parse("{\"id\":1}").unwrap().text_of("id"), None);
}

#[test]
fn a_copy_is_equal_to_what_it_copies() {
    let doc = parse("{\"a\":[1,-2,3.5,{\"b\":[\"x\",null,false]}],\"c\":{}}").unwrap();
    assert_eq!(doc.duplicate(), doc);
    assert_eq!(JsonNumber::Real("1e3".to_string()).duplicate(), JsonNumber::Real("1e3".to_string()));
}

#[test]
fn objects_and_arrays_are_built_from_their_parts() {
    let mut members = Vec::new();
    push_member(&mut members, "b", Json::Null);
    push_member(&mut members, "a", Json::Bool(true));
    assert_eq!(
        Json::object(members),
        json_object(vec![("b", Json::Null), ("a", Json::Bool(true))])
    );
    assert_eq!(Json::array(vec![Json::Null]), Json::Array(vec![Json::Null]));
}
