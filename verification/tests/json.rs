use fortnox::json::{push_member, push_optional_text, push_text, Json, Member};

fn member(name: &str, value: Json) -> Member {
    Member { name: name.to_string(), value }
}

#[test]
fn parse_reads_scalars() {
    assert_eq!(Json::parse("null"), Ok(Json::Null));
    assert_eq!(Json::parse("true"), Ok(Json::Bool(true)));
    assert_eq!(Json::parse("false"), Ok(Json::Bool(false)));
    assert_eq!(Json::parse("\"a\\nb\""), Ok(Json::Text("a\nb".to_string())));
    assert_eq!(Json::parse(" 12 "), Ok(Json::Number("12".to_string())));
    assert_eq!(Json::parse("-3"), Ok(Json::Number("-3".to_string())));
    assert_eq!(Json::parse("2.5"), Ok(Json::Number("2.5".to_string())));
    assert_eq!(Json::parse("2.0"), Ok(Json::Number("2.0".to_string())));
}

#[test]
fn parse_reads_arrays_and_objects() {
    assert_eq!(
        Json::parse("[1, [], {\"k\": null}]"),
        Ok(Json::Array(vec![
            Json::Number("1".to_string()),
            Json::Array(vec![]),
            Json::Object(vec![member("k", Json::Null)]),
        ]))
    );
    assert_eq!(
        Json::parse("{\"a\": {\"b\": \"c\"}, \"d\": false}"),
        Ok(Json::Object(vec![
            member("a", Json::Object(vec![member("b", Json::Text("c".to_string()))])),
            member("d", Json::Bool(false)),
        ]))
    );
}

#[test]
fn parse_gives_the_complaint() {
    assert_eq!(
        Json::parse("oops"),
        Err("expected value at line 1 column 1".to_string())
    );
    assert_eq!(
        Json::parse(""),
        Err("EOF while parsing a value at line 1 column 0".to_string())
    );
    assert!(Json::parse("{\"a\": 1,}").is_err());
    assert!(Json::parse("[1] 2").is_err());
}

#[test]
fn member_finds_by_name() {
    let doc = Json::parse("{\"a\": 1, \"b\": \"x\", \"c\": null}").unwrap();
    assert_eq!(doc.member("a"), Some(&Json::Number("1".to_string())));
    assert_eq!(doc.member("b"), Some(&Json::Text("x".to_string())));
    assert_eq!(doc.member("c"), Some(&Json::Null));
    assert_eq!(doc.member("d"), None);
    assert_eq!(doc.member("A"), None);
    assert_eq!(Json::Null.member("a"), None);
    assert_eq!(Json::Array(vec![]).member("a"), None);
}

#[test]
fn member_takes_the_first_of_equal_names() {
    let doc = Json::Object(vec![member("a", Json::Bool(true)), member("a", Json::Bool(false))]);
    assert_eq!(doc.member("a"), Some(&Json::Bool(true)));
}

#[test]
fn accessors_tell_the_kinds_apart() {
    let text = Json::Text("t".to_string());
    let number = Json::Number("17".to_string());
    let truth = Json::Bool(true);
    let list = Json::Array(vec![Json::Null]);
    assert_eq!(text.as_text(), Some(&"t".to_string()));
    assert_eq!(number.as_text(), None);
    assert_eq!(number.as_number(), Some(&"17".to_string()));
    assert_eq!(text.as_number(), None);
    assert_eq!(number.as_u32(), Some(17));
    assert_eq!(Json::Number("-17".to_string()).as_u32(), None);
    assert_eq!(Json::Number("1.5".to_string()).as_u32(), None);
    assert_eq!(Json::Text("17".to_string()).as_u32(), None);
    assert_eq!(truth.as_bool(), Some(true));
    assert_eq!(text.as_bool(), None);
    assert_eq!(list.as_array(), Some(&vec![Json::Null]));
    assert_eq!(text.as_array(), None);
}

#[test]
fn typed_members() {
    let doc = Json::parse(
        "{\"t\": \"x\", \"n\": 4, \"b\": true, \"z\": null, \"l\": [1]}",
    )
    .unwrap();
    assert_eq!(doc.text_member("t"), Some("x".to_string()));
    assert_eq!(doc.text_member("n"), None);
    assert_eq!(doc.text_member("z"), None);
    assert_eq!(doc.text_member("missing"), None);
    assert_eq!(doc.optional_text_member("t"), Some(Some("x".to_string())));
    assert_eq!(doc.optional_text_member("z"), Some(None));
    assert_eq!(doc.optional_text_member("missing"), Some(None));
    assert_eq!(doc.optional_text_member("n"), None);
    assert_eq!(doc.bool_member("b"), Some(true));
    assert_eq!(doc.bool_member("t"), None);
    assert_eq!(doc.number_member("n"), Some("4".to_string()));
    assert_eq!(doc.number_member("t"), None);
}

#[test]
fn builders_append_members() {
    let mut members = Vec::new();
    push_text(&mut members, "a", &"x".to_string());
    push_optional_text(&mut members, "b", &None);
    push_optional_text(&mut members, "c", &Some("y".to_string()));
    push_member(&mut members, "d", Json::Bool(true));
    assert_eq!(
        Json::object(members),
        Json::Object(vec![
            member("a", Json::Text("x".to_string())),
            member("c", Json::Text("y".to_string())),
            member("d", Json::Bool(true)),
        ])
    );
    assert_eq!(Json::array(vec![Json::Null]), Json::Array(vec![Json::Null]));
}
