//! Resources: the typed values that travel in the bodies of requests and
//! responses, each wrapped in an object under the name of its kind.

use crate::error::{Error, ErrorView};
use crate::json::{json_parse, parsed_view, push_member, Json, JsonValue, Member};
use crate::response::{
    interpret_parsed, interpretation, is_success, undecodable, undecodable_message,
};
use vstd::prelude::*;
use vstd::string::*;

verus! {

/// A kind of value that can be read from the body of a response.
pub trait Resource: View + Sized {
    /// The name under which a value of this kind is wrapped on the wire.
    spec fn wire_name() -> Seq<char>;

    /// The value that a document describes, if it describes one.
    spec fn decoded(doc: JsonValue) -> Option<Self::V>;

    /// The name under which a value of this kind is wrapped on the wire.
    fn name() -> (name: &'static str)
        ensures
            name@ == Self::wire_name(),
    ;

    /// Reads a value from the document that describes it.
    fn from_json(doc: &Json) -> (value: Option<Self>)
        ensures
            match value {
                Some(v) => Self::decoded(doc@) == Some(v@),
                None => Self::decoded(doc@) is None,
            },
    ;
}

/// The complaint about a body that is JSON but does not wrap a value of the
/// expected kind under its name.
pub open spec fn shape_complaint(name: Seq<char>) -> Seq<char> {
    "no valid `"@ + name + "` in the body"@
}

/// A document wrapped in an object under a name.
pub open spec fn wrapped(name: Seq<char>, doc: JsonValue) -> JsonValue {
    JsonValue::Object(seq![(name, doc)])
}

/// The value of kind `R` that a document wraps under the name of the kind.
pub open spec fn unwrapped<R: Resource>(doc: JsonValue) -> Option<R::V> {
    match doc.member(R::wire_name()) {
        Some(inner) => R::decoded(inner),
        None => None,
    }
}

/// What a response means to a caller who expects a value of kind `R`, given
/// what reading its body as JSON gave: what the response means as such, and
/// for a document, the value that it wraps. A document that wraps no such
/// value is a serialization error that quotes the body.
pub open spec fn typed_interpretation<R: Resource>(
    status: u16,
    text: Seq<char>,
    parsed: Result<JsonValue, Seq<char>>,
) -> Result<R::V, ErrorView> {
    match interpretation(status, text, parsed) {
        Ok(doc) => match unwrapped::<R>(doc) {
            Some(value) => Ok(value),
            None => Err(
                ErrorView::SerializationError(
                    undecodable_message(text, shape_complaint(R::wire_name())),
                ),
            ),
        },
        Err(error) => Err(error),
    }
}

/// The mathematical value of the outcome of a request for a value of kind
/// `R`.
pub open spec fn typed_view<R: Resource>(outcome: Result<R, Error>) -> Result<R::V, ErrorView> {
    match outcome {
        Ok(value) => Ok(value@),
        Err(error) => Err(error@),
    }
}

/// Wraps a document in an object under a name.
pub fn wrap(name: &str, doc: Json) -> (envelope: Json)
    ensures
        envelope@ == wrapped(name@, doc@),
{
    let mut members: Vec<Member> = Vec::new();
    push_member(&mut members, name, doc);
    let envelope = Json::object(members);
    assert(envelope@->Object_0 =~= seq![(name@, doc@)]);
    envelope
}

/// Interprets a response to a request for a value of kind `R`, whose body
/// has been read as JSON already.
pub fn decode_parsed<R: Resource>(status: u16, text: &str, parsed: Result<Json, String>) -> (outcome:
    Result<R, Error>)
    ensures
        typed_view(outcome) == typed_interpretation::<R>(status, text@, parsed_view(parsed)),
{
    match interpret_parsed(status, text, parsed) {
        Ok(doc) => {
            let value = match doc.member(R::name()) {
                Some(inner) => R::from_json(inner),
                None => None,
            };
            match value {
                Some(value) => Ok(value),
                None => {
                    let mut complaint = String::from_str("no valid `");
                    complaint.append(R::name());
                    complaint.append("` in the body");
                    Err(Error::SerializationError(undecodable(text, complaint.as_str())))
                },
            }
        },
        Err(error) => Err(error),
    }
}

/// Interprets a response to a request for a value of kind `R`: its status
/// code and the text of its body.
pub fn decode_response<R: Resource>(status: u16, text: &str) -> (outcome: Result<R, Error>)
    ensures
        typed_view(outcome) == typed_interpretation::<R>(status, text@, json_parse(text@)),
{
    decode_parsed(status, text, Json::parse(text))
}

/// A response with a status from 200 to 299 whose body wraps a value of the
/// expected kind means that value. It is not a throttling failure, so the
/// request is not tried again.
pub proof fn lemma_success_is_decoded<R: Resource>(
    status: u16,
    text: Seq<char>,
    doc: JsonValue,
    value: R::V,
)
    requires
        is_success(status),
        unwrapped::<R>(doc) == Some(value),
    ensures
        typed_interpretation::<R>(status, text, Ok(doc)) == Ok::<R::V, ErrorView>(value),
{
}

/// A value that is wrapped under the name of its kind is found again by
/// unwrapping.
pub proof fn lemma_unwrap_wrapped<R: Resource>(doc: JsonValue)
    ensures
        unwrapped::<R>(wrapped(R::wire_name(), doc)) == R::decoded(doc),
{
    let members = seq![(R::wire_name(), doc)];
    assert(members.drop_first() =~= Seq::empty());
}

/// What a response means to a caller who expects a value of some kind is,
/// for every failure, what the response means as such: throttling for
/// status 429 and an API error for any other status outside 200 to 299.
pub proof fn lemma_failures_pass_through<R: Resource>(
    status: u16,
    text: Seq<char>,
    parsed: Result<JsonValue, Seq<char>>,
)
    requires
        !is_success(status),
    ensures
        interpretation(status, text, parsed) is Err,
        typed_interpretation::<R>(status, text, parsed) == Err::<R::V, ErrorView>(
            interpretation(status, text, parsed)->Err_0,
        ),
{
}

} // verus!
