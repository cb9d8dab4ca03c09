//! Customers of the customer register.

use crate::json::{
    lemma_find_in_built, members_view, optional_text_view, push_optional_text, push_text,
    with_optional_text, Json, JsonValue, Member,
};
use crate::error::ErrorView;
use crate::resource::{lemma_unwrap_wrapped, typed_interpretation, wrapped, Resource};
use crate::response::is_success;
use vstd::prelude::*;
use vstd::string::*;

verus! {

/// A customer as the remote service describes it.
///
/// The customer number is missing in a customer that has not been
/// registered yet; the remote service assigns it.
#[derive(Debug, Clone, PartialEq, Eq)]
pub struct Customer {
    pub customer_number: Option<String>,
    pub name: String,
    pub address1: String,
    pub address2: Option<String>,
    pub zip_code: String,
    pub city: String,
    pub country_code: String,
    pub comments: Option<String>,
    pub email: Option<String>,
    pub phone1: Option<String>,
}

/// The mathematical value of a [`Customer`].
pub struct CustomerView {
    pub customer_number: Option<Seq<char>>,
    pub name: Seq<char>,
    pub address1: Seq<char>,
    pub address2: Option<Seq<char>>,
    pub zip_code: Seq<char>,
    pub city: Seq<char>,
    pub country_code: Seq<char>,
    pub comments: Option<Seq<char>>,
    pub email: Option<Seq<char>>,
    pub phone1: Option<Seq<char>>,
}

impl View for Customer {
    type V = CustomerView;

    open spec fn view(&self) -> CustomerView {
        CustomerView {
            customer_number: optional_text_view(self.customer_number),
            name: self.name@,
            address1: self.address1@,
            address2: optional_text_view(self.address2),
            zip_code: self.zip_code@,
            city: self.city@,
            country_code: self.country_code@,
            comments: optional_text_view(self.comments),
            email: optional_text_view(self.email),
            phone1: optional_text_view(self.phone1),
        }
    }
}

impl CustomerView {
    /// The members of the document that describes the customer, in the
    /// order of the fields. A field that may be missing has a member only
    /// where it is there.
    pub open spec fn members(self) -> Seq<(Seq<char>, JsonValue)> {
        let m = Seq::empty();
        let m = with_optional_text(m, "CustomerNumber"@, self.customer_number);
        let m = m.push(("Name"@, JsonValue::Text(self.name)));
        let m = m.push(("Address1"@, JsonValue::Text(self.address1)));
        let m = with_optional_text(m, "Address2"@, self.address2);
        let m = m.push(("ZipCode"@, JsonValue::Text(self.zip_code)));
        let m = m.push(("City"@, JsonValue::Text(self.city)));
        let m = m.push(("CountryCode"@, JsonValue::Text(self.country_code)));
        let m = with_optional_text(m, "Comments"@, self.comments);
        let m = with_optional_text(m, "Email"@, self.email);
        let m = with_optional_text(m, "Phone1"@, self.phone1);
        m
    }

    /// The document that describes the customer.
    pub open spec fn encoded(self) -> JsonValue {
        JsonValue::Object(self.members())
    }
}

impl Resource for Customer {
    open spec fn wire_name() -> Seq<char> {
        "Customer"@
    }

    /// A document describes a customer if it has the string members `Name`,
    /// `Address1`, `ZipCode`, `City` and `CountryCode`, and if each of
    /// `CustomerNumber`, `Address2`, `Comments`, `Email` and `Phone1` is a
    /// string, null or missing. Other members are ignored.
    open spec fn decoded(doc: JsonValue) -> Option<CustomerView> {
        let customer_number = doc.optional_text_member("CustomerNumber"@);
        let name = doc.text_member("Name"@);
        let address1 = doc.text_member("Address1"@);
        let address2 = doc.optional_text_member("Address2"@);
        let zip_code = doc.text_member("ZipCode"@);
        let city = doc.text_member("City"@);
        let country_code = doc.text_member("CountryCode"@);
        let comments = doc.optional_text_member("Comments"@);
        let email = doc.optional_text_member("Email"@);
        let phone1 = doc.optional_text_member("Phone1"@);
        if customer_number is Some && name is Some && address1 is Some && address2 is Some
            && zip_code is Some && city is Some && country_code is Some && comments is Some
            && email is Some && phone1 is Some {
            Some(
                CustomerView {
                    customer_number: customer_number->0,
                    name: name->0,
                    address1: address1->0,
                    address2: address2->0,
                    zip_code: zip_code->0,
                    city: city->0,
                    country_code: country_code->0,
                    comments: comments->0,
                    email: email->0,
                    phone1: phone1->0,
                },
            )
        } else {
            None
        }
    }

    fn name() -> (name: &'static str) {
        "Customer"
    }

    fn from_json(doc: &Json) -> (value: Option<Customer>) {
        let customer_number = doc.optional_text_member("CustomerNumber");
        let name = doc.text_member("Name");
        let address1 = doc.text_member("Address1");
        let address2 = doc.optional_text_member("Address2");
        let zip_code = doc.text_member("ZipCode");
        let city = doc.text_member("City");
        let country_code = doc.text_member("CountryCode");
        let comments = doc.optional_text_member("Comments");
        let email = doc.optional_text_member("Email");
        let phone1 = doc.optional_text_member("Phone1");
        match (
            customer_number,
            name,
            address1,
            address2,
            zip_code,
            city,
            country_code,
            comments,
            email,
            phone1,
        ) {
            (
                Some(customer_number),
                Some(name),
                Some(address1),
                Some(address2),
                Some(zip_code),
                Some(city),
                Some(country_code),
                Some(comments),
                Some(email),
                Some(phone1),
            ) => Some(
                Customer {
                    customer_number,
                    name,
                    address1,
                    address2,
                    zip_code,
                    city,
                    country_code,
                    comments,
                    email,
                    phone1,
                },
            ),
            _ => None,
        }
    }
}

impl Customer {
    /// Writes the document that describes the customer.
    pub fn to_json(&self) -> (doc: Json)
        ensures
            doc@ == self@.encoded(),
    {
        let mut members: Vec<Member> = Vec::new();
        assert(members_view(&members) =~= Seq::empty());
        push_optional_text(&mut members, "CustomerNumber", &self.customer_number);
        push_text(&mut members, "Name", &self.name);
        push_text(&mut members, "Address1", &self.address1);
        push_optional_text(&mut members, "Address2", &self.address2);
        push_text(&mut members, "ZipCode", &self.zip_code);
        push_text(&mut members, "City", &self.city);
        push_text(&mut members, "CountryCode", &self.country_code);
        push_optional_text(&mut members, "Comments", &self.comments);
        push_optional_text(&mut members, "Email", &self.email);
        push_optional_text(&mut members, "Phone1", &self.phone1);
        Json::object(members)
    }
}

/// The names of the members of a customer differ from each other.
proof fn lemma_customer_names_differ()
    ensures
        "CustomerNumber"@.len() == 14,
        "Name"@.len() == 4,
        "Address1"@.len() == 8,
        "Address2"@.len() == 8,
        "Address1"@[7] != "Address2"@[7],
        "ZipCode"@.len() == 7,
        "City"@.len() == 4,
        "Name"@[0] != "City"@[0],
        "CountryCode"@.len() == 11,
        "Comments"@.len() == 8,
        "Comments"@[0] != "Address1"@[0],
        "Comments"@[0] != "Address2"@[0],
        "Email"@.len() == 5,
        "Phone1"@.len() == 6,
{
    reveal_strlit("CustomerNumber");
    reveal_strlit("Name");
    reveal_strlit("Address1");
    reveal_strlit("Address2");
    reveal_strlit("ZipCode");
    reveal_strlit("City");
    reveal_strlit("CountryCode");
    reveal_strlit("Comments");
    reveal_strlit("Email");
    reveal_strlit("Phone1");
}

/// Reading the document that describes a customer gives the customer
/// back, field for field; a field that is missing in the customer is
/// missing in the document and missing again in what is read.
pub proof fn lemma_customer_round_trip(customer: CustomerView)
    ensures
        Customer::decoded(customer.encoded()) == Some(customer),
{
    lemma_customer_names_differ();
    lemma_find_in_built();
}

/// A response with a status from 200 to 299 whose body is the document of
/// a customer, wrapped as a request wraps it, means that customer.
pub proof fn lemma_customer_response(status: u16, text: Seq<char>, customer: CustomerView)
    requires
        is_success(status),
    ensures
        typed_interpretation::<Customer>(
            status,
            text,
            Ok(wrapped(Customer::wire_name(), customer.encoded())),
        ) == Ok::<CustomerView, ErrorView>(customer),
{
    lemma_customer_round_trip(customer);
    lemma_unwrap_wrapped::<Customer>(customer.encoded());
}

/// The document that describes a customer has a member for a field that
/// may be missing if and only if the field is there, and never a null.
pub proof fn lemma_customer_missing_fields(customer: CustomerView)
    ensures
        customer.encoded().member("CustomerNumber"@) is Some <==> customer.customer_number
            is Some,
        customer.encoded().member("Address2"@) is Some <==> customer.address2 is Some,
        customer.encoded().member("Comments"@) is Some <==> customer.comments is Some,
        customer.encoded().member("Email"@) is Some <==> customer.email is Some,
        customer.encoded().member("Phone1"@) is Some <==> customer.phone1 is Some,
        forall|key: Seq<char>| customer.encoded().member(key) != Some(JsonValue::Null),
{
    lemma_customer_names_differ();
    lemma_find_in_built();
}

} // verus!
