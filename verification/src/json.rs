//! JSON documents as plain values.

use vstd::prelude::*;
use vstd::string::*;
use crate::text::{numeral_u32, parse_u32};

verus! {

/// A JSON document.
///
/// A number is kept as its decimal text, so that no precision is lost and
/// no floating point is needed to carry it.
#[derive(Debug, PartialEq, Eq)]
pub enum Json {
    Null,
    Bool(bool),
    Number(String),
    Text(String),
    Array(Vec<Json>),
    Object(Vec<Member>),
}

/// A member of a JSON object: a name and the value that goes by it.
#[derive(Debug, PartialEq, Eq)]
pub struct Member {
    pub name: String,
    pub value: Json,
}

/// The mathematical value of a [`Json`] document.
pub enum JsonValue {
    Null,
    Bool(bool),
    Number(Seq<char>),
    Text(Seq<char>),
    Array(Seq<JsonValue>),
    Object(Seq<(Seq<char>, JsonValue)>),
}

/// The values of a list of documents.
pub open spec fn items_view(items: &Vec<Json>) -> Seq<JsonValue> {
    Seq::new(items.len() as nat, |i: int| items[i]@)
}

/// The names and values of a list of members.
pub open spec fn members_view(entries: &Vec<Member>) -> Seq<(Seq<char>, JsonValue)> {
    Seq::new(entries.len() as nat, |i: int| (entries[i].name@, entries[i].value@))
}

impl View for Json {
    type V = JsonValue;

    open spec fn view(&self) -> JsonValue {
        self.content()
    }
}

impl Json {
    /// The mathematical value of the document, found by going down into
    /// its items and members.
    pub open spec fn content(&self) -> JsonValue
        decreases self,
    {
        match self {
            Json::Null => JsonValue::Null,
            Json::Bool(b) => JsonValue::Bool(*b),
            Json::Number(n) => JsonValue::Number(n@),
            Json::Text(t) => JsonValue::Text(t@),
            Json::Array(items) => JsonValue::Array(
                Seq::new(
                    items.len() as nat,
                    |i: int|
                        if 0 <= i < items.len() {
                            items[i].content()
                        } else {
                            JsonValue::Null
                        },
                ),
            ),
            Json::Object(entries) => JsonValue::Object(
                Seq::new(
                    entries.len() as nat,
                    |i: int|
                        if 0 <= i < entries.len() {
                            (entries[i].name@, entries[i].value.content())
                        } else {
                            (Seq::<char>::empty(), JsonValue::Null)
                        },
                ),
            ),
        }
    }
}

/// The value that the first member with the given name has among the
/// members of an object.
pub open spec fn find_member(entries: Seq<(Seq<char>, JsonValue)>, key: Seq<char>) -> Option<
    JsonValue,
>
    decreases entries.len(),
{
    if entries.len() == 0 {
        None
    } else if entries[0].0 == key {
        Some(entries[0].1)
    } else {
        find_member(entries.drop_first(), key)
    }
}

impl JsonValue {
    /// The value of the member with the given name, if the document is an
    /// object that has one.
    pub open spec fn member(self, key: Seq<char>) -> Option<JsonValue> {
        match self {
            JsonValue::Object(entries) => find_member(entries, key),
            _ => None,
        }
    }

    /// The text, if the document is a string.
    pub open spec fn as_text(self) -> Option<Seq<char>> {
        match self {
            JsonValue::Text(t) => Some(t),
            _ => None,
        }
    }

    /// The truth value, if the document is one.
    pub open spec fn as_bool(self) -> Option<bool> {
        match self {
            JsonValue::Bool(b) => Some(b),
            _ => None,
        }
    }

    /// The numeral, if the document is a number.
    pub open spec fn as_number(self) -> Option<Seq<char>> {
        match self {
            JsonValue::Number(n) => Some(n),
            _ => None,
        }
    }

    /// The number, if the document is a whole number that is not negative
    /// and fits in 32 bits.
    pub open spec fn as_u32(self) -> Option<u32> {
        match self {
            JsonValue::Number(n) => numeral_u32(n),
            _ => None,
        }
    }

    /// The items, if the document is an array.
    pub open spec fn as_array(self) -> Option<Seq<JsonValue>> {
        match self {
            JsonValue::Array(items) => Some(items),
            _ => None,
        }
    }

    /// The text of a member that must be there and must be a string.
    pub open spec fn text_member(self, key: Seq<char>) -> Option<Seq<char>> {
        match self.member(key) {
            Some(value) => value.as_text(),
            None => None,
        }
    }

    /// The text of a member that may be left out: no text where the member
    /// is missing or null, the text where it is a string, and no reading
    /// at all where it is anything else.
    pub open spec fn optional_text_member(self, key: Seq<char>) -> Option<Option<Seq<char>>> {
        match self.member(key) {
            None => Some(None),
            Some(JsonValue::Null) => Some(None),
            Some(JsonValue::Text(text)) => Some(Some(text)),
            Some(_) => None,
        }
    }

    /// The truth value of a member that must be there and must be one.
    pub open spec fn bool_member(self, key: Seq<char>) -> Option<bool> {
        match self.member(key) {
            Some(value) => value.as_bool(),
            None => None,
        }
    }

    /// The numeral of a member that must be there and must be a number.
    pub open spec fn number_member(self, key: Seq<char>) -> Option<Seq<char>> {
        match self.member(key) {
            Some(value) => value.as_number(),
            None => None,
        }
    }
}

/// The mathematical value of a text that may be missing.
pub open spec fn optional_text_view(text: Option<String>) -> Option<Seq<char>> {
    match text {
        Some(t) => Some(t@),
        None => None,
    }
}

/// The mathematical value of the reading of a member that may be left out.
pub open spec fn optional_reading_view(reading: Option<Option<String>>) -> Option<
    Option<Seq<char>>,
> {
    match reading {
        Some(text) => Some(optional_text_view(text)),
        None => None,
    }
}

/// The members of an object with one more string member at the end, if
/// there is a text to put there.
pub open spec fn with_optional_text(
    members: Seq<(Seq<char>, JsonValue)>,
    key: Seq<char>,
    text: Option<Seq<char>>,
) -> Seq<(Seq<char>, JsonValue)> {
    match text {
        Some(t) => members.push((key, JsonValue::Text(t))),
        None => members,
    }
}

/// To look a name up among members with one more at the end is to look it
/// up among the members first, and to take the last one if it is not there.
pub proof fn lemma_find_pushed(
    members: Seq<(Seq<char>, JsonValue)>,
    name: Seq<char>,
    value: JsonValue,
    key: Seq<char>,
)
    ensures
        find_member(members.push((name, value)), key) == match find_member(members, key) {
            Some(found) => Some(found),
            None => if name == key {
                Some(value)
            } else {
                None
            },
        },
    decreases members.len(),
{
    let longer = members.push((name, value));
    if members.len() == 0 {
        assert(longer.drop_first() =~= Seq::empty());
    } else {
        assert(longer.drop_first() =~= members.drop_first().push((name, value)));
        lemma_find_pushed(members.drop_first(), name, value, key);
    }
}

/// The outcome of reading a text as JSON, as a mathematical value: the
/// document, or the complaint about the first place where the text is not
/// JSON.
pub open spec fn parsed_view(parsed: Result<Json, String>) -> Result<JsonValue, Seq<char>> {
    match parsed {
        Ok(json) => Ok(json@),
        Err(complaint) => Err(complaint@),
    }
}

#[verifier::external_type_specification]
#[verifier::external_body]
pub struct ExValue(serde_json::Value);

/// What `serde_json::from_str` makes of a text: the document it reads, or
/// the text of its complaint.
pub uninterp spec fn json_parse(text: Seq<char>) -> Result<JsonValue, Seq<char>>;

/// The document that a `serde_json::Value` holds.
pub uninterp spec fn value_contents(value: serde_json::Value) -> JsonValue;

/// Calls `serde_json::from_str` for a `serde_json::Value`. The contract
/// claims only that the outcome is the one that [`json_parse`] names for
/// this text: the same text is always read the same way. A failure is
/// handed back as the text of the complaint.
#[verifier::external_body]
fn read_value(text: &str) -> (r: Result<serde_json::Value, String>)
    ensures
        match r {
            Ok(value) => json_parse(text@) == Ok::<JsonValue, Seq<char>>(value_contents(value)),
            Err(complaint) => json_parse(text@) == Err::<JsonValue, Seq<char>>(complaint@),
        },
{
    match serde_json::from_str::<serde_json::Value>(text) {
        Ok(value) => Ok(value),
        Err(err) => Err(err.to_string()),
    }
}

/// Moves the contents of a `serde_json::Value` into a [`Json`], variant by
/// variant. A number is carried over as the text that `serde_json::Number`
/// displays; the members of an object come in the order in which the
/// value's map hands them out. The contract claims that nothing is lost:
/// the result holds what [`value_contents`] names.
#[verifier::external_body]
fn json_of_value(value: serde_json::Value) -> (json: Json)
    ensures
        json@ == value_contents(value),
{
    match value {
        serde_json::Value::Null => Json::Null,
        serde_json::Value::Bool(b) => Json::Bool(b),
        serde_json::Value::Number(n) => Json::Number(n.to_string()),
        serde_json::Value::String(s) => Json::Text(s),
        serde_json::Value::Array(a) => Json::Array(a.into_iter().map(json_of_value).collect()),
        serde_json::Value::Object(o) => Json::Object(
            o.into_iter().map(|(k, v)| Member { name: k, value: json_of_value(v) }).collect(),
        ),
    }
}

/// The value of an object is made of the names and values of its members.
pub proof fn lemma_object_view(entries: Vec<Member>)
    ensures
        Json::Object(entries)@ == JsonValue::Object(members_view(&entries)),
{
    let members = members_view(&entries);
    let viewed = Json::Object(entries)@->Object_0;
    assert(Json::Object(entries)@ is Object);
    assert(viewed.len() == members.len());
    assert forall|i: int| 0 <= i < members.len() implies viewed[i] == members[i] by {
        assert(viewed[i].0 == entries[i].name@);
        assert(viewed[i].1 == entries[i].value@);
    }
    assert(viewed =~= members);
}

/// The value of an array is made of the values of its items.
pub proof fn lemma_array_view(items: Vec<Json>)
    ensures
        Json::Array(items)@ == JsonValue::Array(items_view(&items)),
{
    assert(Json::Array(items)@->Array_0 =~= items_view(&items));
}

impl Clone for Json {
    fn clone(&self) -> (copy: Json)
        ensures
            copy@ == self@,
        decreases self,
    {
        match self {
            Json::Null => Json::Null,
            Json::Bool(b) => Json::Bool(*b),
            Json::Number(numeral) => Json::Number(numeral.clone()),
            Json::Text(text) => Json::Text(text.clone()),
            Json::Array(items) => {
                let mut copies: Vec<Json> = Vec::new();
                let mut i: usize = 0;
                while i < items.len()
                    invariant
                        0 <= i <= items.len(),
                        copies.len() == i,
                        *self == Json::Array(*items),
                        forall|j: int| 0 <= j < i ==> (#[trigger] copies[j])@ == items[j]@,
                    decreases items.len() - i,
                {
                    proof {
                        vstd::std_specs::vec::axiom_vec_index_decreases(*items, i as int);
                        assert(*items == self->Array_0);
                        assert(decreases_to!(self => self->Array_0[i as int]));
                    }
                    copies.push(items[i].clone());
                    i = i + 1;
                }
                proof {
                    lemma_array_view(*items);
                    assert(items_view(&copies) =~= items_view(items));
                }
                Json::array(copies)
            },
            Json::Object(entries) => {
                let mut copies: Vec<Member> = Vec::new();
                let mut i: usize = 0;
                while i < entries.len()
                    invariant
                        0 <= i <= entries.len(),
                        copies.len() == i,
                        *self == Json::Object(*entries),
                        forall|j: int|
                            0 <= j < i ==> (#[trigger] copies[j]).name@ == entries[j].name@
                                && copies[j].value@ == entries[j].value@,
                    decreases entries.len() - i,
                {
                    proof {
                        vstd::std_specs::vec::axiom_vec_index_decreases(*entries, i as int);
                        assert(*entries == self->Object_0);
                        assert(decreases_to!(self => self->Object_0[i as int].value));
                    }
                    let name = entries[i].name.clone();
                    let value = entries[i].value.clone();
                    copies.push(Member { name, value });
                    i = i + 1;
                }
                proof {
                    lemma_object_view(*entries);
                    assert(members_view(&copies) =~= members_view(entries));
                }
                Json::object(copies)
            },
        }
    }
}

impl Clone for Member {
    fn clone(&self) -> (copy: Member)
        ensures
            copy.name@ == self.name@,
            copy.value@ == self.value@,
    {
        Member { name: self.name.clone(), value: self.value.clone() }
    }
}

impl Json {
    /// The value of the member with the given name, if the document is an
    /// object that has one.
    pub fn member(&self, key: &str) -> (found: Option<&Json>)
        ensures
            match found {
                Some(value) => self@.member(key@) == Some(value@),
                None => self@.member(key@) is None,
            },
    {
        match self {
            Json::Object(entries) => {
                let wanted = key.to_owned();
                let ghost members = members_view(entries);
                proof {
                    lemma_object_view(*entries);
                    assert(members.skip(0) =~= members);
                }
                let mut i: usize = 0;
                while i < entries.len()
                    invariant
                        0 <= i <= entries.len(),
                        wanted@ == key@,
                        self@ == JsonValue::Object(members),
                        members.len() == entries.len(),
                        forall|j: int|
                            0 <= j < entries.len() ==> #[trigger] members[j] == (
                                entries[j].name@,
                                entries[j].value@,
                            ),
                        find_member(members, key@) == find_member(members.skip(i as int), key@),
                    decreases entries.len() - i,
                {
                    let ghost rest = members.skip(i as int);
                    proof {
                        assert(rest[0] == members[i as int]);
                        assert(rest.drop_first() == members.skip(i + 1));
                    }
                    if entries[i].name == wanted {
                        return Some(&entries[i].value);
                    }
                    i = i + 1;
                }
                None
            },
            _ => None,
        }
    }

    /// The text, if the document is a string.
    pub fn as_text(&self) -> (text: Option<&String>)
        ensures
            match text {
                Some(t) => self@.as_text() == Some(t@),
                None => self@.as_text() is None,
            },
    {
        match self {
            Json::Text(t) => Some(t),
            _ => None,
        }
    }

    /// The truth value, if the document is one.
    pub fn as_bool(&self) -> (b: Option<bool>)
        ensures
            b == self@.as_bool(),
    {
        match self {
            Json::Bool(b) => Some(*b),
            _ => None,
        }
    }

    /// The numeral, if the document is a number.
    pub fn as_number(&self) -> (numeral: Option<&String>)
        ensures
            match numeral {
                Some(n) => self@.as_number() == Some(n@),
                None => self@.as_number() is None,
            },
    {
        match self {
            Json::Number(n) => Some(n),
            _ => None,
        }
    }

    /// The number, if the document is a whole number that is not negative
    /// and fits in 32 bits.
    pub fn as_u32(&self) -> (n: Option<u32>)
        ensures
            n == self@.as_u32(),
    {
        match self {
            Json::Number(numeral) => parse_u32(numeral.as_str()),
            _ => None,
        }
    }

    /// The items, if the document is an array.
    pub fn as_array(&self) -> (items: Option<&Vec<Json>>)
        ensures
            match items {
                Some(v) => self@.as_array() == Some(items_view(v)),
                None => self@.as_array() is None,
            },
    {
        match self {
            Json::Array(items) => {
                proof {
                    lemma_array_view(*items);
                }
                Some(items)
            },
            _ => None,
        }
    }

    /// The text of a member that must be there and must be a string.
    pub fn text_member(&self, key: &str) -> (text: Option<String>)
        ensures
            optional_text_view(text) == self@.text_member(key@),
    {
        match self.member(key) {
            Some(Json::Text(text)) => Some(text.clone()),
            _ => None,
        }
    }

    /// The text of a member that may be left out.
    pub fn optional_text_member(&self, key: &str) -> (reading: Option<Option<String>>)
        ensures
            optional_reading_view(reading) == self@.optional_text_member(key@),
    {
        match self.member(key) {
            None => Some(None),
            Some(Json::Null) => Some(None),
            Some(Json::Text(text)) => Some(Some(text.clone())),
            Some(_) => None,
        }
    }

    /// The truth value of a member that must be there and must be one.
    pub fn bool_member(&self, key: &str) -> (b: Option<bool>)
        ensures
            b == self@.bool_member(key@),
    {
        match self.member(key) {
            Some(Json::Bool(b)) => Some(*b),
            _ => None,
        }
    }

    /// The numeral of a member that must be there and must be a number.
    pub fn number_member(&self, key: &str) -> (numeral: Option<String>)
        ensures
            optional_text_view(numeral) == self@.number_member(key@),
    {
        match self.member(key) {
            Some(Json::Number(numeral)) => Some(numeral.clone()),
            _ => None,
        }
    }

    /// Makes an object of its members.
    pub fn object(members: Vec<Member>) -> (doc: Json)
        ensures
            doc@ == JsonValue::Object(members_view(&members)),
    {
        proof {
            lemma_object_view(members);
        }
        Json::Object(members)
    }

    /// Makes an array of its items.
    pub fn array(items: Vec<Json>) -> (doc: Json)
        ensures
            doc@ == JsonValue::Array(items_view(&items)),
    {
        proof {
            lemma_array_view(items);
        }
        Json::Array(items)
    }

    /// Reads a text as JSON.
    pub fn parse(text: &str) -> (parsed: Result<Json, String>)
        ensures
            parsed_view(parsed) == json_parse(text@),
    {
        match read_value(text) {
            Ok(value) => Ok(json_of_value(value)),
            Err(complaint) => Err(complaint),
        }
    }
}

/// Puts one more member at the end of the members of an object.
pub fn push_member(members: &mut Vec<Member>, key: &str, value: Json)
    ensures
        members_view(final(members)) == members_view(old(members)).push((key@, value@)),
{
    members.push(Member { name: key.to_owned(), value });
    assert(members_view(members) =~= members_view(old(members)).push((key@, value@)));
}

/// Puts one more string member at the end of the members of an object.
pub fn push_text(members: &mut Vec<Member>, key: &str, text: &String)
    ensures
        members_view(final(members)) == members_view(old(members)).push(
            (key@, JsonValue::Text(text@)),
        ),
{
    push_member(members, key, Json::Text(text.clone()));
}

/// Puts one more string member at the end of the members of an object, if
/// there is a text to put there.
pub fn push_optional_text(members: &mut Vec<Member>, key: &str, text: &Option<String>)
    ensures
        members_view(final(members)) == with_optional_text(
            members_view(old(members)),
            key@,
            optional_text_view(*text),
        ),
{
    match text {
        Some(t) => push_text(members, key, t),
        None => {},
    }
}

/// Looking a name up among members: what one more member at the end, be
/// it there always or only if there is a text for it, does to the outcome.
/// Stated of all members and names at once.
pub proof fn lemma_find_in_built()
    ensures
        forall|key: Seq<char>| find_member(Seq::empty(), key) is None,
        forall|members: Seq<(Seq<char>, JsonValue)>, name: Seq<char>, value: JsonValue, key: Seq<char>|
            #[trigger] find_member(members.push((name, value)), key) == match find_member(
                members,
                key,
            ) {
                Some(found) => Some(found),
                None => if name == key {
                    Some(value)
                } else {
                    None
                },
            },
        forall|members: Seq<(Seq<char>, JsonValue)>, name: Seq<char>, text: Option<Seq<char>>, key: Seq<char>|
            #[trigger] find_member(with_optional_text(members, name, text), key) == match find_member(
                members,
                key,
            ) {
                Some(found) => Some(found),
                None => match text {
                    Some(t) if name == key => Some(JsonValue::Text(t)),
                    _ => None,
                },
            },
{
    assert forall|members: Seq<(Seq<char>, JsonValue)>, name: Seq<char>, value: JsonValue, key: Seq<char>|
        #[trigger] find_member(members.push((name, value)), key) == match find_member(
            members,
            key,
        ) {
            Some(found) => Some(found),
            None => if name == key {
                Some(value)
            } else {
                None
            },
        } by {
        lemma_find_pushed(members, name, value, key);
    }
}

} // verus!
