use fortnox::json::{Json, Member};
use fortnox::resource::{decode_parsed, decode_response, wrap};
use fortnox::response::{
    interpret, interpret_parsed, undecodable, unknown_error, ErrorInformation,
};
use fortnox::{ApiErrorCode, Article, Customer, Error};

fn member(name: &str, value: Json) -> Member {
    Member { name: name.to_string(), value }
}

#[test]
fn success_gives_the_document() {
    for status in [200u16, 201, 204, 250, 299] {
        assert_eq!(
            interpret(status, "{\"Article\": {}}"),
            Ok(Json::Object(vec![member("Article", Json::Object(vec![]))]))
        );
    }
}

#[test]
fn success_with_a_body_that_is_not_json_is_a_serialization_error() {
    assert_eq!(
        interpret(200, "oops"),
        Err(Error::SerializationError(
            "Could not deserialize response from \"oops\" (expected value at line 1 column 1)."
                .to_string()
        ))
    );
}

#[test]
fn status_429_is_throttling_whatever_the_body() {
    for body in [
        "",
        "oops",
        "{\"Article\": {\"ArticleNumber\": \"1\", \"Description\": \"d\"}}",
        "{\"ErrorInformation\":{\"Error\":1,\"Message\":\"bad\",\"Code\":2000106}}",
    ] {
        assert_eq!(interpret(429, body), Err(Error::Throttling));
        assert_eq!(decode_response::<Article>(429, body), Err(Error::Throttling));
    }
}

#[test]
fn error_envelope_gives_code_and_message() {
    let body = "{\"ErrorInformation\":{\"Error\":1,\"Message\":\"bad\",\"Code\":2000106}}";
    assert_eq!(
        interpret(400, body),
        Err(Error::ApiError(ApiErrorCode::NotAlphanumeric, "bad".to_string()))
    );
    assert_eq!(
        decode_response::<Customer>(400, body),
        Err(Error::ApiError(ApiErrorCode::NotAlphanumeric, "bad".to_string()))
    );
}

#[test]
fn error_with_unparseable_body_is_unknown() {
    assert_eq!(
        interpret(400, "oops"),
        Err(Error::ApiError(
            ApiErrorCode::Unknown,
            "Unknown error (400: oops)".to_string()
        ))
    );
}

#[test]
fn statuses_next_to_the_success_range_are_errors() {
    for status in [0u16, 100, 199, 300, 404, 428, 430, 500, 65535] {
        let expected = format!("Unknown error ({}: oops)", status);
        assert_eq!(
            interpret(status, "oops"),
            Err(Error::ApiError(ApiErrorCode::Unknown, expected))
        );
    }
}

#[test]
fn error_with_json_that_is_no_envelope_is_unknown() {
    for body in [
        "{}",
        "[]",
        "null",
        "{\"ErrorInformation\": null}",
        "{\"ErrorInformation\": {\"Error\": 1, \"Message\": \"bad\"}}",
        "{\"ErrorInformation\": {\"Error\": 1, \"Code\": 2000106}}",
        "{\"ErrorInformation\": {\"Message\": \"bad\", \"Code\": 2000106}}",
        "{\"ErrorInformation\": {\"Error\": \"1\", \"Message\": \"bad\", \"Code\": 2000106}}",
        "{\"ErrorInformation\": {\"Error\": 1, \"Message\": 7, \"Code\": 2000106}}",
        "{\"ErrorInformation\": {\"Error\": 1, \"Message\": \"bad\", \"Code\": -1}}",
        "{\"ErrorInformation\": {\"Error\": 1, \"Message\": \"bad\", \"Code\": 1.5}}",
        "{\"ErrorInformation\": {\"Error\": 4294967296, \"Message\": \"bad\", \"Code\": 1}}",
        "{\"errorinformation\": {\"Error\": 1, \"Message\": \"bad\", \"Code\": 1}}",
    ] {
        let expected = format!("Unknown error (500: {})", body);
        assert_eq!(
            interpret(500, body),
            Err(Error::ApiError(ApiErrorCode::Unknown, expected))
        );
    }
}

#[test]
fn envelope_with_a_code_of_no_known_reason_keeps_its_message() {
    let body = "{\"ErrorInformation\":{\"Error\":3,\"Message\":\"new\",\"Code\":123}}";
    assert_eq!(
        interpret(403, body),
        Err(Error::ApiError(ApiErrorCode::Unknown, "new".to_string()))
    );
}

#[test]
fn envelope_may_hold_more_members() {
    let body =
        "{\"x\": 1, \"ErrorInformation\":{\"Code\":2001103,\"y\":[],\"Message\":\"m\",\"Error\":0}}";
    let doc = Json::parse(body).unwrap();
    assert_eq!(
        ErrorInformation::from_json(&doc),
        Some(ErrorInformation {
            error: 0,
            message: "m".to_string(),
            code: ApiErrorCode::NoLicense
        })
    );
}

#[test]
fn interpret_parsed_takes_the_reading_as_given() {
    assert_eq!(
        interpret_parsed(200, "text", Ok(Json::Bool(true))),
        Ok(Json::Bool(true))
    );
    assert_eq!(
        interpret_parsed(200, "text", Err("why".to_string())),
        Err(Error::SerializationError(
            "Could not deserialize response from \"text\" (why).".to_string()
        ))
    );
    assert_eq!(
        interpret_parsed(429, "text", Ok(Json::Bool(true))),
        Err(Error::Throttling)
    );
    assert_eq!(
        interpret_parsed(500, "text", Err("why".to_string())),
        Err(Error::ApiError(
            ApiErrorCode::Unknown,
            "Unknown error (500: text)".to_string()
        ))
    );
    let envelope = wrap(
        "ErrorInformation",
        Json::Object(vec![
            member("Error", Json::Number("9".to_string())),
            member("Message", Json::Text("no".to_string())),
            member("Code", Json::Number("2000310".to_string())),
        ]),
    );
    assert_eq!(
        interpret_parsed(401, "text", Ok(envelope)),
        Err(Error::ApiError(ApiErrorCode::InvalidCredentials, "no".to_string()))
    );
}

#[test]
fn messages_are_built_as_documented() {
    assert_eq!(
        undecodable("{}", "missing"),
        "Could not deserialize response from \"{}\" (missing)."
    );
    assert_eq!(unknown_error(400, "oops"), "Unknown error (400: oops)");
    assert_eq!(unknown_error(0, ""), "Unknown error (0: )");
    assert_eq!(unknown_error(65535, "x"), "Unknown error (65535: x)");
}

#[test]
fn success_with_the_expected_shape_is_decoded() {
    let body = "{\"Article\": {\"ArticleNumber\": \"A1\", \"Description\": \"Bolt\", \"More\": 1}}";
    for status in [200u16, 201, 299] {
        assert_eq!(
            decode_response::<Article>(status, body),
            Ok(Article { article_number: "A1".to_string(), description: "Bolt".to_string() })
        );
    }
}

#[test]
fn success_with_another_shape_is_a_serialization_error() {
    for body in [
        "{}",
        "{\"Article\": null}",
        "{\"Article\": {\"ArticleNumber\": \"A1\"}}",
        "{\"Article\": {\"ArticleNumber\": 1, \"Description\": \"Bolt\"}}",
        "{\"Customer\": {\"ArticleNumber\": \"A1\", \"Description\": \"Bolt\"}}",
        "[]",
    ] {
        let expected = format!(
            "Could not deserialize response from \"{}\" (no valid `Article` in the body).",
            body
        );
        assert_eq!(
            decode_response::<Article>(200, body),
            Err(Error::SerializationError(expected))
        );
    }
}

#[test]
fn decode_parsed_takes_the_reading_as_given() {
    let doc = wrap(
        "Article",
        Article { article_number: "7".to_string(), description: "d".to_string() }.to_json(),
    );
    assert_eq!(
        decode_parsed::<Article>(200, "ignored", Ok(doc)),
        Ok(Article { article_number: "7".to_string(), description: "d".to_string() })
    );
    assert_eq!(
        decode_parsed::<Article>(200, "body", Err("bad".to_string())),
        Err(Error::SerializationError(
            "Could not deserialize response from \"body\" (bad).".to_string()
        ))
    );
}
