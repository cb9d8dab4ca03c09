//! Interpreting a response: from a status code and a body text to a
//! document or a classified failure.

use crate::api_error_code::ApiErrorCode;
use crate::error::{Error, ErrorView};
use crate::json::{find_member, json_parse, parsed_view, Json, JsonValue};
use crate::text::{decimal, decimal_text, lemma_numeral_of_decimal};
use vstd::prelude::*;
use vstd::string::*;

verus! {

/// The structured body that the remote service sends with an error.
#[derive(Debug, Clone, PartialEq, Eq)]
pub struct ErrorInformation {
    /// The numeric error identifier.
    pub error: u32,
    /// The text meant for a human reader.
    pub message: String,
    /// The coded reason.
    pub code: ApiErrorCode,
}

/// The mathematical value of an [`ErrorInformation`].
pub struct ErrorInformationView {
    pub error: u32,
    pub message: Seq<char>,
    pub code: ApiErrorCode,
}

impl View for ErrorInformation {
    type V = ErrorInformationView;

    open spec fn view(&self) -> ErrorInformationView {
        ErrorInformationView { error: self.error, message: self.message@, code: self.code }
    }
}

/// The error envelope that a document holds: an object whose member
/// `ErrorInformation` is an object with a whole number `Error`, a string
/// `Message` and a whole number `Code`, both numbers within 32 bits. Other
/// members are ignored, and a code that stands for no known reason is read
/// as `Unknown`. Any other document holds no envelope.
pub open spec fn envelope_of(doc: JsonValue) -> Option<ErrorInformationView> {
    match doc.member("ErrorInformation"@) {
        Some(info) => match (
            info.member("Error"@),
            info.member("Message"@),
            info.member("Code"@),
        ) {
            (Some(error), Some(message), Some(code)) => match (
                error.as_u32(),
                message.as_text(),
                code.as_u32(),
            ) {
                (Some(error), Some(message), Some(code)) => Some(
                    ErrorInformationView {
                        error,
                        message,
                        code: ApiErrorCode::spec_from_code(code),
                    },
                ),
                _ => None,
            },
            _ => None,
        },
        None => None,
    }
}

impl ErrorInformation {
    /// Reads the error envelope that a document holds, if it holds one.
    pub fn from_json(doc: &Json) -> (info: Option<ErrorInformation>)
        ensures
            match info {
                Some(i) => envelope_of(doc@) == Some(i@),
                None => envelope_of(doc@) is None,
            },
    {
        let inner = match doc.member("ErrorInformation") {
            Some(inner) => inner,
            None => { return None; },
        };
        let error = match inner.member("Error") {
            Some(value) => value.as_u32(),
            None => { return None; },
        };
        let message = match inner.member("Message") {
            Some(value) => value.as_text(),
            None => { return None; },
        };
        let code = match inner.member("Code") {
            Some(value) => value.as_u32(),
            None => { return None; },
        };
        match (error, message, code) {
            (Some(error), Some(message), Some(code)) => Some(
                ErrorInformation {
                    error,
                    message: message.clone(),
                    code: ApiErrorCode::from_code(code),
                },
            ),
            _ => None,
        }
    }
}

/// The text that stands for the body of a response whose body could not be
/// read.
pub const UNREADABLE_BODY: &'static str = "Could not retrieve body text.";

/// Whether a status code reports success.
pub open spec fn is_success(status: u16) -> bool {
    200 <= status <= 299
}

/// Whether a status code asks the caller to slow down.
pub open spec fn is_throttled(status: u16) -> bool {
    status == 429
}

/// The message of the failure to read a body that came with a success
/// status: it quotes the body and gives the complaint.
pub open spec fn undecodable_message(text: Seq<char>, complaint: Seq<char>) -> Seq<char> {
    "Could not deserialize response from \""@ + text + "\" ("@ + complaint + ")."@
}

/// The message made up for an error whose body holds no error envelope.
pub open spec fn unknown_error_message(status: u16, text: Seq<char>) -> Seq<char> {
    "Unknown error ("@ + decimal(status as nat) + ": "@ + text + ")"@
}

/// What a response means, given what reading its body as JSON gave.
///
/// * A status from 200 to 299: the document of the body, or a
///   serialization error where the body is not JSON.
/// * Status 429: throttling, whatever the body.
/// * Any other status: an API error, with the code and message of the error
///   envelope in the body, or with the code `Unknown` and a made-up message
///   where the body holds none.
pub open spec fn interpretation(
    status: u16,
    text: Seq<char>,
    parsed: Result<JsonValue, Seq<char>>,
) -> Result<JsonValue, ErrorView> {
    if is_success(status) {
        match parsed {
            Ok(doc) => Ok(doc),
            Err(complaint) => Err(
                ErrorView::SerializationError(undecodable_message(text, complaint)),
            ),
        }
    } else if is_throttled(status) {
        Err(ErrorView::Throttling)
    } else {
        match parsed {
            Ok(doc) => match envelope_of(doc) {
                Some(info) => Err(ErrorView::ApiError(info.code, info.message)),
                None => Err(
                    ErrorView::ApiError(ApiErrorCode::Unknown, unknown_error_message(status, text)),
                ),
            },
            Err(_) => Err(
                ErrorView::ApiError(ApiErrorCode::Unknown, unknown_error_message(status, text)),
            ),
        }
    }
}

/// The mathematical value of the outcome of an interpretation.
pub open spec fn outcome_view(outcome: Result<Json, Error>) -> Result<JsonValue, ErrorView> {
    match outcome {
        Ok(doc) => Ok(doc@),
        Err(error) => Err(error@),
    }
}

/// Builds the message of the failure to read a body.
pub fn undecodable(text: &str, complaint: &str) -> (message: String)
    ensures
        message@ == undecodable_message(text@, complaint@),
{
    let mut message = String::from_str("Could not deserialize response from \"");
    message.append(text);
    message.append("\" (");
    message.append(complaint);
    message.append(").");
    message
}

/// Builds the message for an error whose body holds no error envelope.
pub fn unknown_error(status: u16, text: &str) -> (message: String)
    ensures
        message@ == unknown_error_message(status, text@),
{
    let mut message = String::from_str("Unknown error (");
    let code = decimal_text(status as u32);
    message.append(code.as_str());
    message.append(": ");
    message.append(text);
    message.append(")");
    message
}

/// Interprets a response whose body has been read as JSON already:
/// `parsed` is the document, or the complaint of the reader.
pub fn interpret_parsed(status: u16, text: &str, parsed: Result<Json, String>) -> (outcome: Result<
    Json,
    Error,
>)
    ensures
        outcome_view(outcome) == interpretation(status, text@, parsed_view(parsed)),
{
    if 200 <= status && status <= 299 {
        match parsed {
            Ok(doc) => Ok(doc),
            Err(complaint) => Err(Error::SerializationError(undecodable(text, complaint.as_str()))),
        }
    } else if status == 429 {
        Err(Error::Throttling)
    } else {
        let info = match &parsed {
            Ok(doc) => ErrorInformation::from_json(doc),
            Err(_) => None,
        };
        match info {
            Some(info) => Err(Error::ApiError(info.code, info.message)),
            None => Err(Error::ApiError(ApiErrorCode::Unknown, unknown_error(status, text))),
        }
    }
}

/// Interprets a response: its status code and the text of its body.
pub fn interpret(status: u16, text: &str) -> (outcome: Result<Json, Error>)
    ensures
        outcome_view(outcome) == interpretation(status, text@, json_parse(text@)),
{
    interpret_parsed(status, text, Json::parse(text))
}

/// The document of an error envelope as the remote service writes it.
pub open spec fn envelope_document(error: u32, message: Seq<char>, code: u32) -> JsonValue {
    JsonValue::Object(
        seq![
            (
                "ErrorInformation"@,
                JsonValue::Object(
                    seq![
                        ("Error"@, JsonValue::Number(decimal(error as nat))),
                        ("Message"@, JsonValue::Text(message)),
                        ("Code"@, JsonValue::Number(decimal(code as nat))),
                    ],
                ),
            ),
        ],
    )
}

/// The envelope that is read from an error body of the documented shape
/// holds the error identifier and the message of the body, unchanged, and
/// the reason that the code of the body stands for.
pub proof fn lemma_envelope_read(error: u32, message: Seq<char>, code: u32)
    ensures
        envelope_of(envelope_document(error, message, code)) == Some(
            ErrorInformationView { error, message, code: ApiErrorCode::spec_from_code(code) },
        ),
{
    reveal_strlit("ErrorInformation");
    reveal_strlit("Error");
    reveal_strlit("Message");
    reveal_strlit("Code");
    reveal_with_fuel(find_member, 4);
    lemma_numeral_of_decimal(error as nat);
    lemma_numeral_of_decimal(code as nat);
    let inner = seq![
        ("Error"@, JsonValue::Number(decimal(error as nat))),
        ("Message"@, JsonValue::Text(message)),
        ("Code"@, JsonValue::Number(decimal(code as nat))),
    ];
    assert(inner.drop_first() =~= seq![
        ("Message"@, JsonValue::Text(message)),
        ("Code"@, JsonValue::Number(decimal(code as nat))),
    ]);
    assert(inner.drop_first().drop_first() =~= seq![
        ("Code"@, JsonValue::Number(decimal(code as nat))),
    ]);
    assert("Error"@.len() == 5 && "Message"@.len() == 7 && "Code"@.len() == 4);
}

/// A response with a status from 200 to 299 whose body is JSON means the
/// document of the body.
pub proof fn lemma_success_status(status: u16, text: Seq<char>, doc: JsonValue)
    requires
        is_success(status),
    ensures
        interpretation(status, text, Ok(doc)) == Ok::<JsonValue, ErrorView>(doc),
{
}

/// A response with status 429 means throttling, whatever its body is, and
/// throttling is the one failure that may be tried again.
pub proof fn lemma_throttled_status(text: Seq<char>, parsed: Result<JsonValue, Seq<char>>)
    ensures
        interpretation(429, text, parsed) == Err::<JsonValue, ErrorView>(ErrorView::Throttling),
        ErrorView::Throttling.is_retryable(),
{
}

/// A response with any other status means an API error, which is not tried
/// again. Where the body holds an error envelope, the error carries the
/// code and the message of the envelope unchanged; where the body holds
/// none, or is not JSON at all, the code is `Unknown` and the message
/// quotes the status and the body.
pub proof fn lemma_error_status(status: u16, text: Seq<char>, parsed: Result<JsonValue, Seq<char>>)
    requires
        !is_success(status),
        !is_throttled(status),
    ensures
        interpretation(status, text, parsed) is Err,
        !interpretation(status, text, parsed)->Err_0.is_retryable(),
        parsed is Ok && envelope_of(parsed->Ok_0) is Some ==> interpretation(status, text, parsed)
            == Err::<JsonValue, ErrorView>(
            ErrorView::ApiError(
                envelope_of(parsed->Ok_0)->0.code,
                envelope_of(parsed->Ok_0)->0.message,
            ),
        ),
        parsed is Err || envelope_of(parsed->Ok_0) is None ==> interpretation(status, text, parsed)
            == Err::<JsonValue, ErrorView>(
            ErrorView::ApiError(ApiErrorCode::Unknown, unknown_error_message(status, text)),
        ),
{
}

} // verus!
