//! Requests: what the client asks the transport to send, one function of
//! the client for each operation of the remote service.

use crate::customer::{Customer, CustomerView};
use crate::error::{Error, ErrorView};
use crate::gateway::{Gateway, BASE_URL};
use crate::json::{members_view, Json, JsonValue, Member};
use crate::order::{Order, OrderView};
use crate::resource::{wrap, wrapped};
use vstd::prelude::*;
use vstd::string::*;

verus! {

/// The verb of a request.
#[derive(Debug, Clone, Copy, PartialEq, Eq, Structural)]
pub enum Method {
    Get,
    Post,
    Put,
}

/// A request to the remote service: the verb, the address, and the
/// document to send as the body, if there is one.
#[derive(Debug, Clone, PartialEq, Eq)]
pub struct Request {
    pub method: Method,
    pub url: String,
    pub body: Option<Json>,
}

/// The mathematical value of a [`Request`].
pub struct RequestView {
    pub method: Method,
    pub url: Seq<char>,
    pub body: Option<JsonValue>,
}

impl View for Request {
    type V = RequestView;

    open spec fn view(&self) -> RequestView {
        RequestView {
            method: self.method,
            url: self.url@,
            body: match self.body {
                Some(doc) => Some(doc@),
                None => None,
            },
        }
    }
}

/// The address of a collection of resources.
pub open spec fn collection_url(collection: Seq<char>) -> Seq<char> {
    BASE_URL@ + "/"@ + collection
}

/// The address of one resource of a collection.
pub open spec fn resource_url(collection: Seq<char>, id: Seq<char>) -> Seq<char> {
    BASE_URL@ + "/"@ + collection + "/"@ + id
}

/// The address of an action on one resource of a collection.
pub open spec fn action_url(collection: Seq<char>, id: Seq<char>, action: Seq<char>) -> Seq<char> {
    BASE_URL@ + "/"@ + collection + "/"@ + id + "/"@ + action
}

/// The message of the failure to edit an order that has no number yet.
pub open spec fn no_document_number_message() -> Seq<char> {
    "Cannot edit an order with no document number."@
}

/// The request that sends an order, wrapped under `Order`.
pub open spec fn order_request(method: Method, url: Seq<char>, order: OrderView) -> RequestView {
    RequestView { method, url, body: Some(wrapped("Order"@, order.encoded())) }
}

/// The mathematical value of a request that may have failed to be made.
pub open spec fn planned_view(planned: Result<Request, Error>) -> Result<RequestView, ErrorView> {
    match planned {
        Ok(request) => Ok(request@),
        Err(error) => Err(error@),
    }
}

/// Builds the address of a collection of resources.
fn url_of_collection(collection: &str) -> (url: String)
    ensures
        url@ == collection_url(collection@),
{
    let mut url = String::from_str(BASE_URL);
    url.append("/");
    url.append(collection);
    url
}

/// Builds the address of one resource of a collection.
fn url_of_resource(collection: &str, id: &str) -> (url: String)
    ensures
        url@ == resource_url(collection@, id@),
{
    let mut url = url_of_collection(collection);
    url.append("/");
    url.append(id);
    url
}

/// Plans the request that sends an order to an address.
fn send_order(method: Method, url: String, order: &Order) -> (request: Request)
    ensures
        request@ == order_request(method, url@, order@),
{
    Request { method, url, body: Some(wrap("Order", order.to_json())) }
}

impl Gateway {
    /// The request that registers a customer: the customer is posted to
    /// the customers, wrapped under `Customer`.
    pub fn add_customer(&self, customer: &Customer) -> (request: Request)
        ensures
            request@ == (RequestView {
                method: Method::Post,
                url: collection_url("customers"@),
                body: Some(wrapped("Customer"@, customer@.encoded())),
            }),
    {
        Request {
            method: Method::Post,
            url: url_of_collection("customers"),
            body: Some(wrap("Customer", customer.to_json())),
        }
    }

    /// The request that registers an order: the order is posted to the
    /// orders, wrapped under `Order`.
    pub fn add_order(&self, order: &Order) -> (request: Request)
        ensures
            request@ == order_request(Method::Post, collection_url("orders"@), order@),
    {
        send_order(Method::Post, url_of_collection("orders"), order)
    }

    /// The request that cancels the order with the given document number:
    /// an empty object is put to the `cancel` action of the order.
    pub fn cancel_order(&self, document_number: &str) -> (request: Request)
        ensures
            request@ == (RequestView {
                method: Method::Put,
                url: action_url("orders"@, document_number@, "cancel"@),
                body: Some(JsonValue::Object(Seq::empty())),
            }),
    {
        let mut url = url_of_resource("orders", document_number);
        url.append("/");
        url.append("cancel");
        let members: Vec<Member> = Vec::new();
        assert(members_view(&members) =~= Seq::empty());
        Request { method: Method::Put, url, body: Some(Json::object(members)) }
    }

    /// The request that changes an order: the order is put to its own
    /// address, wrapped under `Order`. An order without a document number
    /// has no address: it is refused with a serialization error.
    pub fn edit_order(&self, order: &Order) -> (planned: Result<Request, Error>)
        ensures
            planned_view(planned) == match order@.document_number {
                Some(document_number) => Ok::<RequestView, ErrorView>(
                    order_request(Method::Put, resource_url("orders"@, document_number), order@),
                ),
                None => Err::<RequestView, ErrorView>(
                    ErrorView::SerializationError(no_document_number_message()),
                ),
            },
    {
        match &order.document_number {
            Some(document_number) => Ok(
                send_order(
                    Method::Put,
                    url_of_resource("orders", document_number.as_str()),
                    order,
                ),
            ),
            None => Err(
                Error::SerializationError(
                    String::from_str("Cannot edit an order with no document number."),
                ),
            ),
        }
    }

    /// The request for the article with the given number.
    pub fn get_article(&self, article_number: &str) -> (request: Request)
        ensures
            request@ == (RequestView {
                method: Method::Get,
                url: resource_url("articles"@, article_number@),
                body: None,
            }),
    {
        Request { method: Method::Get, url: url_of_resource("articles", article_number), body: None }
    }

    /// The request for the customer with the given number.
    pub fn get_customer(&self, customer_number: &str) -> (request: Request)
        ensures
            request@ == (RequestView {
                method: Method::Get,
                url: resource_url("customers"@, customer_number@),
                body: None,
            }),
    {
        Request {
            method: Method::Get,
            url: url_of_resource("customers", customer_number),
            body: None,
        }
    }

    /// The request for the order with the given document number.
    pub fn get_order(&self, document_number: &str) -> (request: Request)
        ensures
            request@ == (RequestView {
                method: Method::Get,
                url: resource_url("orders"@, document_number@),
                body: None,
            }),
    {
        Request { method: Method::Get, url: url_of_resource("orders", document_number), body: None }
    }
}

} // verus!
