//! Orders and their rows.

use crate::currency::Currency;
use crate::date::{date_display, date_read, Date};
use crate::json::{
    items_view, lemma_find_in_built, members_view, optional_text_view, push_member,
    push_optional_text, push_text, with_optional_text, Json, JsonValue, Member,
};
use crate::resource::Resource;
use vstd::prelude::*;
use vstd::string::*;

verus! {

/// A row of an order.
///
/// The price is kept as the numeral that stands in the document, so that
/// nothing of it is lost.
#[derive(Debug, PartialEq, Eq)]
pub struct Row {
    pub article_number: Option<String>,
    pub ordered_quantity: String,
    pub delivered_quantity: String,
    pub description: String,
    pub price: String,
}

/// The mathematical value of a [`Row`].
pub struct RowView {
    pub article_number: Option<Seq<char>>,
    pub ordered_quantity: Seq<char>,
    pub delivered_quantity: Seq<char>,
    pub description: Seq<char>,
    pub price: Seq<char>,
}

impl View for Row {
    type V = RowView;

    open spec fn view(&self) -> RowView {
        RowView {
            article_number: optional_text_view(self.article_number),
            ordered_quantity: self.ordered_quantity@,
            delivered_quantity: self.delivered_quantity@,
            description: self.description@,
            price: self.price@,
        }
    }
}

/// Copies a text that may be missing.
fn copy_optional_text(text: &Option<String>) -> (copy: Option<String>)
    ensures
        optional_text_view(copy) == optional_text_view(*text),
{
    match text {
        Some(t) => Some(t.clone()),
        None => None,
    }
}

impl Clone for Row {
    fn clone(&self) -> (copy: Row)
        ensures
            copy@ == self@,
    {
        Row {
            article_number: copy_optional_text(&self.article_number),
            ordered_quantity: self.ordered_quantity.clone(),
            delivered_quantity: self.delivered_quantity.clone(),
            description: self.description.clone(),
            price: self.price.clone(),
        }
    }
}

impl RowView {
    /// The members of the document that describes the row, in the order of
    /// the fields; the article number has a member only where it is there.
    pub open spec fn members(self) -> Seq<(Seq<char>, JsonValue)> {
        let m = Seq::empty();
        let m = with_optional_text(m, "ArticleNumber"@, self.article_number);
        let m = m.push(("OrderedQuantity"@, JsonValue::Text(self.ordered_quantity)));
        let m = m.push(("DeliveredQuantity"@, JsonValue::Text(self.delivered_quantity)));
        let m = m.push(("Description"@, JsonValue::Text(self.description)));
        let m = m.push(("Price"@, JsonValue::Number(self.price)));
        m
    }

    /// The document that describes the row.
    pub open spec fn encoded(self) -> JsonValue {
        JsonValue::Object(self.members())
    }

    /// The row that a document describes, if it describes one.
    ///
    /// A row has the string members `OrderedQuantity` and `Description` and
    /// the number member `Price`. In the row of an order as it is, the
    /// article number is a string, null or missing, and the delivered
    /// quantity is a string. In the row of an order that has just been
    /// cancelled, the article number is a string and the delivered quantity
    /// a number, whose numeral is taken. Other members are ignored.
    pub open spec fn decoded(doc: JsonValue, cancelled: bool) -> Option<RowView> {
        let article_number = if cancelled {
            match doc.text_member("ArticleNumber"@) {
                Some(text) => Some(Some(text)),
                None => None,
            }
        } else {
            doc.optional_text_member("ArticleNumber"@)
        };
        let ordered_quantity = doc.text_member("OrderedQuantity"@);
        let delivered_quantity = if cancelled {
            doc.number_member("DeliveredQuantity"@)
        } else {
            doc.text_member("DeliveredQuantity"@)
        };
        let description = doc.text_member("Description"@);
        let price = doc.number_member("Price"@);
        if article_number is Some && ordered_quantity is Some && delivered_quantity is Some
            && description is Some && price is Some {
            Some(
                RowView {
                    article_number: article_number->0,
                    ordered_quantity: ordered_quantity->0,
                    delivered_quantity: delivered_quantity->0,
                    description: description->0,
                    price: price->0,
                },
            )
        } else {
            None
        }
    }
}

impl Row {
    /// Reads a row from the document that describes it; `cancelled` tells
    /// whether the row is that of an order that has just been cancelled.
    pub fn from_json(doc: &Json, cancelled: bool) -> (row: Option<Row>)
        ensures
            match row {
                Some(r) => RowView::decoded(doc@, cancelled) == Some(r@),
                None => RowView::decoded(doc@, cancelled) is None,
            },
    {
        let article_number = if cancelled {
            match doc.text_member("ArticleNumber") {
                Some(text) => Some(Some(text)),
                None => None,
            }
        } else {
            doc.optional_text_member("ArticleNumber")
        };
        let ordered_quantity = doc.text_member("OrderedQuantity");
        let delivered_quantity = if cancelled {
            doc.number_member("DeliveredQuantity")
        } else {
            doc.text_member("DeliveredQuantity")
        };
        let description = doc.text_member("Description");
        let price = doc.number_member("Price");
        match (article_number, ordered_quantity, delivered_quantity, description, price) {
            (
                Some(article_number),
                Some(ordered_quantity),
                Some(delivered_quantity),
                Some(description),
                Some(price),
            ) => Some(
                Row { article_number, ordered_quantity, delivered_quantity, description, price },
            ),
            _ => None,
        }
    }

    /// Writes the document that describes the row.
    pub fn to_json(&self) -> (doc: Json)
        ensures
            doc@ == self@.encoded(),
    {
        let mut members: Vec<Member> = Vec::new();
        assert(members_view(&members) =~= Seq::empty());
        push_optional_text(&mut members, "ArticleNumber", &self.article_number);
        push_text(&mut members, "OrderedQuantity", &self.ordered_quantity);
        push_text(&mut members, "DeliveredQuantity", &self.delivered_quantity);
        push_text(&mut members, "Description", &self.description);
        push_member(&mut members, "Price", Json::Number(self.price.clone()));
        Json::object(members)
    }
}

/// The mathematical value of a list of rows.
pub open spec fn rows_view(rows: &Vec<Row>) -> Seq<RowView> {
    Seq::new(rows.len() as nat, |i: int| rows[i]@)
}

/// The documents that describe the rows of a list, in their order.
pub open spec fn encoded_rows(rows: Seq<RowView>) -> Seq<JsonValue> {
    Seq::new(rows.len(), |i: int| rows[i].encoded())
}

/// The rows that a list of documents describes, if each of them describes
/// a row.
pub open spec fn decoded_rows(items: Seq<JsonValue>, cancelled: bool) -> Option<Seq<RowView>> {
    if forall|i: int| 0 <= i < items.len() ==> (#[trigger] RowView::decoded(items[i], cancelled)) is Some {
        Some(Seq::new(items.len(), |i: int| RowView::decoded(items[i], cancelled)->0))
    } else {
        None
    }
}

/// Reads the rows that a list of documents describes.
pub fn read_rows(items: &Vec<Json>, cancelled: bool) -> (rows: Option<Vec<Row>>)
    ensures
        match rows {
            Some(r) => decoded_rows(items_view(items), cancelled) == Some(rows_view(&r)),
            None => decoded_rows(items_view(items), cancelled) is None,
        },
{
    let mut rows: Vec<Row> = Vec::new();
    let mut i: usize = 0;
    while i < items.len()
        invariant
            0 <= i <= items.len(),
            rows.len() == i,
            forall|j: int|
                0 <= j < i ==> (#[trigger] RowView::decoded(items_view(items)[j], cancelled))
                    == Some(rows[j]@),
        decreases items.len() - i,
    {
        match Row::from_json(&items[i], cancelled) {
            Some(row) => {
                rows.push(row);
            },
            None => {
                assert(RowView::decoded(items_view(items)[i as int], cancelled) is None);
                return None;
            },
        }
        i = i + 1;
    }
    proof {
        let read = decoded_rows(items_view(items), cancelled);
        assert(read is Some);
        assert(read->0 =~= rows_view(&rows));
    }
    Some(rows)
}

/// Writes the documents that describe the rows of a list.
pub fn write_rows(rows: &Vec<Row>) -> (items: Vec<Json>)
    ensures
        items_view(&items) == encoded_rows(rows_view(rows)),
{
    let mut items: Vec<Json> = Vec::new();
    let mut i: usize = 0;
    while i < rows.len()
        invariant
            0 <= i <= rows.len(),
            items.len() == i,
            forall|j: int| 0 <= j < i ==> (#[trigger] items[j])@ == rows[j]@.encoded(),
        decreases rows.len() - i,
    {
        items.push(rows[i].to_json());
        i = i + 1;
    }
    assert(items_view(&items) =~= encoded_rows(rows_view(rows)));
    items
}

/// An order as the remote service describes it.
///
/// The document number is missing in an order that has not been registered
/// yet; the remote service assigns it.
#[derive(Debug, PartialEq, Eq)]
pub struct Order {
    pub document_number: Option<String>,
    pub customer_number: String,
    pub order_rows: Vec<Row>,
    pub currency: Currency,
    pub vat_included: bool,
    pub comments: Option<String>,
    pub delivery_date: Date,
    pub order_date: Date,
}

/// The mathematical value of an [`Order`].
pub struct OrderView {
    pub document_number: Option<Seq<char>>,
    pub customer_number: Seq<char>,
    pub order_rows: Seq<RowView>,
    pub currency: Currency,
    pub vat_included: bool,
    pub comments: Option<Seq<char>>,
    pub delivery_date: Date,
    pub order_date: Date,
}

impl View for Order {
    type V = OrderView;

    open spec fn view(&self) -> OrderView {
        OrderView {
            document_number: optional_text_view(self.document_number),
            customer_number: self.customer_number@,
            order_rows: rows_view(&self.order_rows),
            currency: self.currency,
            vat_included: self.vat_included,
            comments: optional_text_view(self.comments),
            delivery_date: self.delivery_date,
            order_date: self.order_date,
        }
    }
}

impl Clone for Order {
    fn clone(&self) -> (copy: Order)
        ensures
            copy@ == self@,
    {
        let mut rows: Vec<Row> = Vec::new();
        let mut i: usize = 0;
        while i < self.order_rows.len()
            invariant
                0 <= i <= self.order_rows.len(),
                rows.len() == i,
                forall|j: int| 0 <= j < i ==> (#[trigger] rows[j])@ == self.order_rows[j]@,
            decreases self.order_rows.len() - i,
        {
            rows.push(self.order_rows[i].clone());
            i = i + 1;
        }
        assert(rows_view(&rows) =~= rows_view(&self.order_rows));
        Order {
            document_number: copy_optional_text(&self.document_number),
            customer_number: self.customer_number.clone(),
            order_rows: rows,
            currency: self.currency,
            vat_included: self.vat_included,
            comments: copy_optional_text(&self.comments),
            delivery_date: self.delivery_date,
            order_date: self.order_date,
        }
    }
}

impl OrderView {
    /// The members of the document that describes the order, in the order
    /// of the fields, with the two dates written as the given texts. The
    /// document number and the comments have a member only where they are
    /// there.
    pub open spec fn members(self, delivery_date: Seq<char>, order_date: Seq<char>) -> Seq<
        (Seq<char>, JsonValue),
    > {
        let m = Seq::empty();
        let m = with_optional_text(m, "DocumentNumber"@, self.document_number);
        let m = m.push(("CustomerNumber"@, JsonValue::Text(self.customer_number)));
        let m = m.push(("OrderRows"@, JsonValue::Array(encoded_rows(self.order_rows))));
        let m = m.push(("Currency"@, JsonValue::Text(self.currency.spec_code())));
        let m = m.push(("VATIncluded"@, JsonValue::Bool(self.vat_included)));
        let m = with_optional_text(m, "Comments"@, self.comments);
        let m = m.push(("DeliveryDate"@, JsonValue::Text(delivery_date)));
        let m = m.push(("OrderDate"@, JsonValue::Text(order_date)));
        m
    }

    /// The document that describes the order, with the two dates written
    /// as the given texts.
    pub open spec fn encoded_with(self, delivery_date: Seq<char>, order_date: Seq<char>) -> JsonValue {
        JsonValue::Object(self.members(delivery_date, order_date))
    }

    /// The document that describes an order whose dates are dates of the
    /// calendar: each date is written as `chrono` displays it.
    pub open spec fn encoded(self) -> JsonValue {
        self.encoded_with(date_display(self.delivery_date)->0, date_display(self.order_date)->0)
    }

    /// Whether both dates of the order are read back from what is
    /// displayed for them.
    pub open spec fn dates_read_back(self) -> bool {
        self.delivery_date.reads_back() && self.order_date.reads_back()
    }

    /// The date that the string member with the given name holds.
    pub open spec fn date_member(doc: JsonValue, key: Seq<char>) -> Option<Date> {
        match doc.text_member(key) {
            Some(text) => date_read(text),
            None => None,
        }
    }

    /// The rows that the array member `OrderRows` holds.
    pub open spec fn rows_member(doc: JsonValue, cancelled: bool) -> Option<Seq<RowView>> {
        match doc.member("OrderRows"@) {
            Some(JsonValue::Array(items)) => decoded_rows(items, cancelled),
            _ => None,
        }
    }

    /// The currency that the string member `Currency` holds.
    pub open spec fn currency_member(doc: JsonValue) -> Option<Currency> {
        match doc.text_member("Currency"@) {
            Some(text) => Currency::spec_from_code(text),
            None => None,
        }
    }

    /// The order that a document describes, if it describes one, given
    /// the two dates that were read from it, each if one was read.
    ///
    /// An order has the string member `CustomerNumber`, the array member
    /// `OrderRows`, each item of which describes a row, the string member
    /// `Currency` with the letters of a currency, the truth value
    /// `VATIncluded`, and its two dates. `Comments` is a string, null or
    /// missing. So is `DocumentNumber` in an order as it is; in an order
    /// that has just been cancelled it is a string. Other members are
    /// ignored.
    pub open spec fn decoded_with(
        doc: JsonValue,
        cancelled: bool,
        delivery_date: Option<Date>,
        order_date: Option<Date>,
    ) -> Option<OrderView> {
        let document_number = if cancelled {
            match doc.text_member("DocumentNumber"@) {
                Some(text) => Some(Some(text)),
                None => None,
            }
        } else {
            doc.optional_text_member("DocumentNumber"@)
        };
        let customer_number = doc.text_member("CustomerNumber"@);
        let order_rows = Self::rows_member(doc, cancelled);
        let currency = Self::currency_member(doc);
        let vat_included = doc.bool_member("VATIncluded"@);
        let comments = doc.optional_text_member("Comments"@);
        if document_number is Some && customer_number is Some && order_rows is Some
            && currency is Some && vat_included is Some && comments is Some
            && delivery_date is Some && order_date is Some {
            Some(
                OrderView {
                    document_number: document_number->0,
                    customer_number: customer_number->0,
                    order_rows: order_rows->0,
                    currency: currency->0,
                    vat_included: vat_included->0,
                    comments: comments->0,
                    delivery_date: delivery_date->0,
                    order_date: order_date->0,
                },
            )
        } else {
            None
        }
    }

    /// The order that a document describes, if it describes one: what it
    /// describes with the dates that its string members `DeliveryDate` and
    /// `OrderDate` hold, each a date that `chrono` reads.
    pub open spec fn decoded(doc: JsonValue, cancelled: bool) -> Option<OrderView> {
        Self::decoded_with(
            doc,
            cancelled,
            Self::date_member(doc, "DeliveryDate"@),
            Self::date_member(doc, "OrderDate"@),
        )
    }
}

/// Reads the date that the string member with the given name holds.
fn read_date(doc: &Json, key: &str) -> (date: Option<Date>)
    ensures
        date == OrderView::date_member(doc@, key@),
{
    match doc.text_member(key) {
        Some(text) => Date::parse(text.as_str()),
        None => None,
    }
}

impl Order {
    /// Reads an order from the document that describes it; `cancelled`
    /// tells whether the document is the answer to a cancellation.
    pub fn read(doc: &Json, cancelled: bool) -> (order: Option<Order>)
        ensures
            match order {
                Some(o) => OrderView::decoded(doc@, cancelled) == Some(o@),
                None => OrderView::decoded(doc@, cancelled) is None,
            },
    {
        let delivery_date = read_date(doc, "DeliveryDate");
        let order_date = read_date(doc, "OrderDate");
        Order::read_with_dates(doc, cancelled, delivery_date, order_date)
    }

    /// Reads an order from the document that describes it and from its two
    /// dates as they were read from the document, each if one was read;
    /// `cancelled` tells whether the document is the answer to a
    /// cancellation.
    pub fn read_with_dates(
        doc: &Json,
        cancelled: bool,
        delivery_date: Option<Date>,
        order_date: Option<Date>,
    ) -> (order: Option<Order>)
        ensures
            match order {
                Some(o) => OrderView::decoded_with(doc@, cancelled, delivery_date, order_date)
                    == Some(o@),
                None => OrderView::decoded_with(doc@, cancelled, delivery_date, order_date)
                    is None,
            },
    {
        let document_number = if cancelled {
            match doc.text_member("DocumentNumber") {
                Some(text) => Some(Some(text)),
                None => None,
            }
        } else {
            doc.optional_text_member("DocumentNumber")
        };
        let customer_number = doc.text_member("CustomerNumber");
        let order_rows = match doc.member("OrderRows") {
            Some(value) => match value.as_array() {
                Some(items) => read_rows(items, cancelled),
                None => None,
            },
            None => None,
        };
        let currency = match doc.text_member("Currency") {
            Some(text) => Currency::from_code(text.as_str()),
            None => None,
        };
        let vat_included = doc.bool_member("VATIncluded");
        let comments = doc.optional_text_member("Comments");
        match (
            document_number,
            customer_number,
            order_rows,
            currency,
            vat_included,
            comments,
            delivery_date,
            order_date,
        ) {
            (
                Some(document_number),
                Some(customer_number),
                Some(order_rows),
                Some(currency),
                Some(vat_included),
                Some(comments),
                Some(delivery_date),
                Some(order_date),
            ) => Some(
                Order {
                    document_number,
                    customer_number,
                    order_rows,
                    currency,
                    vat_included,
                    comments,
                    delivery_date,
                    order_date,
                },
            ),
            _ => None,
        }
    }

    /// Writes the document that describes the order.
    pub fn to_json(&self) -> (doc: Json)
        ensures
            doc@ == self@.encoded(),
    {
        let delivery_date = self.delivery_date.to_text();
        let order_date = self.order_date.to_text();
        self.to_json_with_dates(delivery_date.as_str(), order_date.as_str())
    }

    /// Writes the document that describes the order, with the two dates
    /// written as the given texts.
    pub fn to_json_with_dates(&self, delivery_date: &str, order_date: &str) -> (doc: Json)
        ensures
            doc@ == self@.encoded_with(delivery_date@, order_date@),
    {
        let mut members: Vec<Member> = Vec::new();
        assert(members_view(&members) =~= Seq::empty());
        push_optional_text(&mut members, "DocumentNumber", &self.document_number);
        push_text(&mut members, "CustomerNumber", &self.customer_number);
        push_member(&mut members, "OrderRows", Json::array(write_rows(&self.order_rows)));
        push_member(&mut members, "Currency", Json::Text(self.currency.code().to_owned()));
        push_member(&mut members, "VATIncluded", Json::Bool(self.vat_included));
        push_optional_text(&mut members, "Comments", &self.comments);
        push_member(&mut members, "DeliveryDate", Json::Text(String::from_str(delivery_date)));
        push_member(&mut members, "OrderDate", Json::Text(String::from_str(order_date)));
        Json::object(members)
    }

    /// Writes the document that describes the order, if each of its two
    /// dates is read back from the text that is written for it; reading
    /// such a document gives the order back. Where a date is not read back
    /// there is no document.
    pub fn to_json_read_back(&self) -> (doc: Option<Json>)
        ensures
            match doc {
                Some(d) => {
                    &&& self@.dates_read_back()
                    &&& d@ == self@.encoded()
                    &&& OrderView::decoded(d@, false) == Some(self@)
                },
                None => !self@.dates_read_back(),
            },
    {
        if self.delivery_date.is_read_back() && self.order_date.is_read_back() {
            proof {
                lemma_order_round_trip(self@);
            }
            Some(self.to_json())
        } else {
            None
        }
    }
}

impl Resource for Order {
    open spec fn wire_name() -> Seq<char> {
        "Order"@
    }

    open spec fn decoded(doc: JsonValue) -> Option<OrderView> {
        OrderView::decoded(doc, false)
    }

    fn name() -> (name: &'static str) {
        "Order"
    }

    fn from_json(doc: &Json) -> (value: Option<Order>) {
        Order::read(doc, false)
    }
}

/// The order that the remote service describes in its answer to a
/// cancellation.
///
/// Such an answer always names the document and the article of each row,
/// and gives each delivered quantity as a number; the order holds the
/// numeral.
#[derive(Debug, PartialEq, Eq)]
pub struct CancelledOrder {
    pub order: Order,
}

impl Clone for CancelledOrder {
    fn clone(&self) -> (copy: CancelledOrder)
        ensures
            copy@ == self@,
    {
        CancelledOrder { order: self.order.clone() }
    }
}

impl View for CancelledOrder {
    type V = OrderView;

    open spec fn view(&self) -> OrderView {
        self.order@
    }
}

impl Resource for CancelledOrder {
    open spec fn wire_name() -> Seq<char> {
        "Order"@
    }

    open spec fn decoded(doc: JsonValue) -> Option<OrderView> {
        OrderView::decoded(doc, true)
    }

    fn name() -> (name: &'static str) {
        "Order"
    }

    fn from_json(doc: &Json) -> (value: Option<CancelledOrder>) {
        match Order::read(doc, true) {
            Some(order) => Some(CancelledOrder { order }),
            None => None,
        }
    }
}

/// The names of the members of a row differ from each other.
pub proof fn lemma_row_names_differ()
    ensures
        "ArticleNumber"@.len() == 13,
        "OrderedQuantity"@.len() == 15,
        "DeliveredQuantity"@.len() == 17,
        "Description"@.len() == 11,
        "Price"@.len() == 5,
{
    reveal_strlit("ArticleNumber");
    reveal_strlit("OrderedQuantity");
    reveal_strlit("DeliveredQuantity");
    reveal_strlit("Description");
    reveal_strlit("Price");
}

/// The names of the members of an order differ from each other.
pub proof fn lemma_order_names_differ()
    ensures
        "DocumentNumber"@.len() == 14,
        "CustomerNumber"@.len() == 14,
        "DocumentNumber"@[0] != "CustomerNumber"@[0],
        "OrderRows"@.len() == 9,
        "Currency"@.len() == 8,
        "VATIncluded"@.len() == 11,
        "Comments"@.len() == 8,
        "Comments"@[1] != "Currency"@[1],
        "DeliveryDate"@.len() == 12,
        "OrderDate"@.len() == 9,
        "OrderDate"@[5] != "OrderRows"@[5],
{
    reveal_strlit("DocumentNumber");
    reveal_strlit("CustomerNumber");
    reveal_strlit("OrderRows");
    reveal_strlit("Currency");
    reveal_strlit("VATIncluded");
    reveal_strlit("Comments");
    reveal_strlit("DeliveryDate");
    reveal_strlit("OrderDate");
}

/// Reading the document that describes a row gives the row back.
pub proof fn lemma_row_round_trip(row: RowView)
    ensures
        RowView::decoded(row.encoded(), false) == Some(row),
{
    lemma_row_names_differ();
    lemma_find_in_built();
}

/// Reading the documents that describe the rows of a list gives the rows
/// back.
pub proof fn lemma_rows_round_trip(rows: Seq<RowView>)
    ensures
        decoded_rows(encoded_rows(rows), false) == Some(rows),
{
    let items = encoded_rows(rows);
    assert forall|i: int| 0 <= i < items.len() implies (#[trigger] RowView::decoded(
        items[i],
        false,
    )) == Some(rows[i]) by {
        lemma_row_round_trip(rows[i]);
    }
    assert(decoded_rows(items, false)->0 =~= rows);
}

/// Reading the document that describes an order gives the order back, field
/// for field, provided that its two dates are dates of the calendar that
/// are read back from what is displayed for them. A field that is missing
/// in the order is missing in the document and missing again in what is
/// read.
pub proof fn lemma_order_round_trip(order: OrderView)
    requires
        order.dates_read_back(),
    ensures
        OrderView::decoded(order.encoded(), false) == Some(order),
{
    lemma_order_names_differ();
    lemma_find_in_built();
    lemma_rows_round_trip(order.order_rows);
    order.currency.lemma_code_round_trip();
}

} // verus!
