use fortnox::json::{Json, Member};
use fortnox::order::{read_rows, write_rows};
use fortnox::request::{Method, Request};
use fortnox::resource::{decode_response, wrap, Resource};
use fortnox::{
    Article, CancelledOrder, Currency, Customer, Date, Error, Gateway, Order, OrderRow,
};

fn gateway() -> Gateway {
    Gateway::new("id".to_string(), "token".to_string(), "secret".to_string(), None).unwrap()
}

fn member(name: &str, value: Json) -> Member {
    Member { name: name.to_string(), value }
}

fn date(year: i32, month: u32, day: u32) -> Date {
    Date::from_ymd(year, month, day).unwrap()
}

fn text(value: &str) -> Json {
    Json::Text(value.to_string())
}

fn to_value(doc: &Json) -> serde_json::Value {
    match doc {
        Json::Null => serde_json::Value::Null,
        Json::Bool(b) => serde_json::Value::Bool(*b),
        Json::Number(n) => serde_json::Value::Number(n.parse().unwrap()),
        Json::Text(t) => serde_json::Value::String(t.clone()),
        Json::Array(items) => serde_json::Value::Array(items.iter().map(to_value).collect()),
        Json::Object(members) => serde_json::Value::Object(
            members.iter().map(|m| (m.name.clone(), to_value(&m.value))).collect(),
        ),
    }
}

fn customer() -> Customer {
    Customer {
        customer_number: None,
        name: "Ada \"the first\" Ek".to_string(),
        address1: "Storgatan 1".to_string(),
        address2: Some("c/o Berg".to_string()),
        zip_code: "411 01".to_string(),
        city: "G\u{f6}teborg".to_string(),
        country_code: "SE".to_string(),
        comments: None,
        email: Some("ada@example.com".to_string()),
        phone1: None,
    }
}

fn order() -> Order {
    Order {
        document_number: Some("17".to_string()),
        customer_number: "2".to_string(),
        order_rows: vec![
            OrderRow {
                article_number: Some("A1".to_string()),
                ordered_quantity: "3".to_string(),
                delivered_quantity: "1".to_string(),
                description: "Bolt".to_string(),
                price: "12.5".to_string(),
            },
            OrderRow {
                article_number: None,
                ordered_quantity: "1".to_string(),
                delivered_quantity: "0".to_string(),
                description: "Freight".to_string(),
                price: "99".to_string(),
            },
        ],
        currency: Currency::SEK,
        vat_included: true,
        comments: None,
        delivery_date: date(2024, 2, 29),
        order_date: date(2023, 12, 31),
    }
}

#[test]
fn get_order_returns_the_decoded_order() {
    let request = gateway().get_order("1");
    assert_eq!(
        request,
        Request {
            method: Method::Get,
            url: "https://api.fortnox.se/3/orders/1".to_string(),
            body: None
        }
    );
    let body = "{\"Order\": {\"DocumentNumber\":\"1\",\"CustomerNumber\":\"2\",\"OrderRows\":[],\"Currency\":\"SEK\",\"VATIncluded\":true,\"DeliveryDate\":\"2024-01-01\",\"OrderDate\":\"2024-01-01\"}}";
    let order = decode_response::<Order>(200, body).unwrap();
    assert_eq!(order.document_number, Some("1".to_string()));
    assert_eq!(
        order,
        Order {
            document_number: Some("1".to_string()),
            customer_number: "2".to_string(),
            order_rows: vec![],
            currency: Currency::SEK,
            vat_included: true,
            comments: None,
            delivery_date: date(2024, 1, 1),
            order_date: date(2024, 1, 1),
        }
    );
}

#[test]
fn currency_codes() {
    for (currency, code) in [
        (Currency::NOK, "NOK"),
        (Currency::SEK, "SEK"),
        (Currency::DKK, "DKK"),
        (Currency::ISK, "ISK"),
        (Currency::GBP, "GBP"),
    ] {
        assert_eq!(currency.code(), code);
        assert_eq!(Currency::from_code(code), Some(currency));
    }
    for other in ["", "sek", "EUR", "SEK ", "SE"] {
        assert_eq!(Currency::from_code(other), None);
    }
}

#[test]
fn article_document() {
    let article = Article { article_number: "A1".to_string(), description: "Bolt".to_string() };
    let doc = article.to_json();
    assert_eq!(
        doc,
        Json::Object(vec![member("ArticleNumber", text("A1")), member("Description", text("Bolt"))])
    );
    assert_eq!(Article::from_json(&doc), Some(article));
    assert_eq!(Article::name(), "Article");
}

#[test]
fn customer_document_leaves_out_what_is_missing() {
    let doc = customer().to_json();
    assert_eq!(
        doc,
        Json::Object(vec![
            member("Name", text("Ada \"the first\" Ek")),
            member("Address1", text("Storgatan 1")),
            member("Address2", text("c/o Berg")),
            member("ZipCode", text("411 01")),
            member("City", text("G\u{f6}teborg")),
            member("CountryCode", text("SE")),
            member("Email", text("ada@example.com")),
        ])
    );
    assert_eq!(Customer::name(), "Customer");
}

#[test]
fn customer_round_trip() {
    let customer = customer();
    assert_eq!(Customer::from_json(&customer.to_json()), Some(customer.clone()));
    let written = to_value(&wrap("Customer", customer.to_json())).to_string();
    assert_eq!(decode_response::<Customer>(200, &written), Ok(customer));
}

#[test]
fn customer_round_trip_with_every_field() {
    let customer = Customer {
        customer_number: Some("10".to_string()),
        name: "N".to_string(),
        address1: "A1".to_string(),
        address2: Some("A2".to_string()),
        zip_code: "Z".to_string(),
        city: "C".to_string(),
        country_code: "CC".to_string(),
        comments: Some("Co".to_string()),
        email: Some("E".to_string()),
        phone1: Some("P".to_string()),
    };
    assert_eq!(Customer::from_json(&customer.to_json()), Some(customer.clone()));
    let written = to_value(&wrap("Customer", customer.to_json())).to_string();
    assert_eq!(decode_response::<Customer>(201, &written), Ok(customer));
}

#[test]
fn customer_reads_null_as_missing() {
    let body = "{\"Customer\": {\"CustomerNumber\": null, \"Name\": \"N\", \"Address1\": \"A\", \"ZipCode\": \"Z\", \"City\": \"C\", \"CountryCode\": \"SE\", \"Phone1\": \"1\"}}";
    assert_eq!(
        decode_response::<Customer>(200, body),
        Ok(Customer {
            customer_number: None,
            name: "N".to_string(),
            address1: "A".to_string(),
            address2: None,
            zip_code: "Z".to_string(),
            city: "C".to_string(),
            country_code: "SE".to_string(),
            comments: None,
            email: None,
            phone1: Some("1".to_string()),
        })
    );
}

#[test]
fn customer_needs_its_required_fields() {
    let members = match customer().to_json() {
        Json::Object(members) => members,
        _ => unreachable!(),
    };
    assert_eq!(Customer::from_json(&Json::Object(members.clone())), Some(customer()));
    for required in ["Name", "Address1", "ZipCode", "City", "CountryCode"] {
        let without: Vec<Member> =
            members.iter().filter(|m| m.name != required).cloned().collect();
        assert_eq!(without.len(), members.len() - 1);
        assert_eq!(Customer::from_json(&Json::Object(without)), None);
    }
    for optional in ["Address2", "Email"] {
        let without: Vec<Member> =
            members.iter().filter(|m| m.name != optional).cloned().collect();
        assert_eq!(without.len(), members.len() - 1);
        assert!(Customer::from_json(&Json::Object(without)).is_some());
    }
    let mut wrong = members.clone();
    wrong.push(member("Phone1", Json::Bool(true)));
    assert_eq!(Customer::from_json(&Json::Object(wrong)), None);
    assert_eq!(Customer::from_json(&Json::Null), None);
}

#[test]
fn clones_are_equal() {
    assert_eq!(order().clone(), order());
    assert_eq!(order().to_json().clone(), order().to_json());
    assert_eq!(customer().to_json().clone(), customer().to_json());
    assert_eq!(customer().clone(), customer());
    let cancelled = CancelledOrder { order: order() };
    assert_eq!(cancelled.clone(), cancelled);
}

#[test]
fn order_document() {
    let doc = order().to_json();
    assert_eq!(
        doc,
        Json::Object(vec![
            member("DocumentNumber", text("17")),
            member("CustomerNumber", text("2")),
            member(
                "OrderRows",
                Json::Array(vec![
                    Json::Object(vec![
                        member("ArticleNumber", text("A1")),
                        member("OrderedQuantity", text("3")),
                        member("DeliveredQuantity", text("1")),
                        member("Description", text("Bolt")),
                        member("Price", Json::Number("12.5".to_string())),
                    ]),
                    Json::Object(vec![
                        member("OrderedQuantity", text("1")),
                        member("DeliveredQuantity", text("0")),
                        member("Description", text("Freight")),
                        member("Price", Json::Number("99".to_string())),
                    ]),
                ])
            ),
            member("Currency", text("SEK")),
            member("VATIncluded", Json::Bool(true)),
            member("DeliveryDate", text("2024-02-29")),
            member("OrderDate", text("2023-12-31")),
        ])
    );
}

#[test]
fn order_round_trip() {
    let order = order();
    let doc = order.to_json();
    assert_eq!(Order::from_json(&doc), Some(order.clone()));
    assert_eq!(Order::read(&doc, false), Some(order.clone()));
    let written = to_value(&wrap("Order", doc)).to_string();
    assert_eq!(decode_response::<Order>(200, &written), Ok(order));
}

#[test]
fn dates_are_read_and_written() {
    assert_eq!(Date::parse("2024-02-29"), Some(date(2024, 2, 29)));
    assert_eq!(Date::parse("0001-01-01"), Some(date(1, 1, 1)));
    assert_eq!(Date::parse("2023-02-29"), None);
    assert_eq!(Date::parse("2024-00-10"), None);
    assert_eq!(Date::parse("20240110"), None);
    assert_eq!(Date::parse(""), None);
    assert_eq!(date(2024, 2, 29).to_text(), "2024-02-29");
    assert_eq!(date(987, 1, 5).to_text(), "0987-01-05");
    assert_eq!(date(-1, 12, 31).to_text(), "-0001-12-31");
    assert_eq!(date(12345, 6, 7).to_text(), "+12345-06-07");
    let read = Date::parse("2024-02-29").unwrap();
    assert_eq!((read.year(), read.month(), read.day()), (2024, 2, 29));
    for day in [date(2024, 12, 31), date(1999, 1, 1), date(2000, 2, 29), date(-44, 3, 15)] {
        assert_eq!(Date::parse(&day.to_text()), Some(day));
        assert!(day.is_read_back());
    }
}

#[test]
fn only_dates_of_the_calendar_are_made() {
    assert_eq!(Date::from_ymd(2023, 2, 29), None);
    assert_eq!(Date::from_ymd(2023, 2, 30), None);
    assert_eq!(Date::from_ymd(2024, 13, 1), None);
    assert_eq!(Date::from_ymd(2024, 0, 28), None);
    assert_eq!(Date::from_ymd(2024, 1, 0), None);
    assert_eq!(Date::from_ymd(2024, 1, 32), None);
    assert_eq!(Date::from_ymd(i32::MAX, 1, 1), None);
    let leap = Date::from_ymd(2024, 2, 29).unwrap();
    assert_eq!((leap.year(), leap.month(), leap.day()), (2024, 2, 29));
}

#[test]
fn an_order_is_written_with_the_dates_given() {
    let order = order();
    assert_eq!(order.to_json_with_dates("2024-02-29", "2023-12-31"), order.to_json());
    let doc = order.to_json_with_dates("soon", "");
    assert_eq!(doc.text_member("DeliveryDate"), Some("soon".to_string()));
    assert_eq!(doc.text_member("OrderDate"), Some(String::new()));
    assert_eq!(doc.text_member("CustomerNumber"), Some("2".to_string()));
    assert_eq!(Order::read(&doc, false), None);
}

#[test]
fn an_order_is_read_with_the_dates_given() {
    let order = order();
    let doc = order.to_json();
    let delivery = Some(order.delivery_date);
    let ordered = Some(order.order_date);
    assert_eq!(Order::read_with_dates(&doc, false, delivery, ordered), Some(order.clone()));
    assert_eq!(Order::read_with_dates(&doc, false, None, ordered), None);
    assert_eq!(Order::read_with_dates(&doc, false, delivery, None), None);
    let swapped = Order::read_with_dates(&doc, false, ordered, delivery).unwrap();
    assert_eq!(swapped.delivery_date, date(2023, 12, 31));
    assert_eq!(swapped.order_date, date(2024, 2, 29));
    assert_eq!(Order::read_with_dates(&Json::Null, false, delivery, ordered), None);
}

#[test]
fn an_order_that_is_read_back_is_written() {
    let order = order();
    let doc = order.to_json_read_back().unwrap();
    assert_eq!(doc, order.to_json());
    assert_eq!(Order::read(&doc, false), Some(order));
}

#[test]
fn rows_round_trip() {
    let rows = order().order_rows;
    assert_eq!(read_rows(&write_rows(&rows), false), Some(rows));
    assert_eq!(read_rows(&vec![], false), Some(vec![]));
    assert_eq!(read_rows(&vec![Json::Null], false), None);
}

#[test]
fn order_with_a_date_that_is_none_is_refused() {
    for bad in ["2024-02-30", "2024-13-01", "yesterday", ""] {
        let body = format!(
            "{{\"Order\": {{\"CustomerNumber\":\"2\",\"OrderRows\":[],\"Currency\":\"SEK\",\"VATIncluded\":true,\"DeliveryDate\":\"{}\",\"OrderDate\":\"2024-01-01\"}}}}",
            bad
        );
        let expected = format!(
            "Could not deserialize response from \"{}\" (no valid `Order` in the body).",
            body
        );
        assert_eq!(
            decode_response::<Order>(200, &body),
            Err(Error::SerializationError(expected))
        );
    }
}

#[test]
fn order_with_an_unknown_currency_is_refused() {
    let body = "{\"Order\": {\"CustomerNumber\":\"2\",\"OrderRows\":[],\"Currency\":\"EUR\",\"VATIncluded\":true,\"DeliveryDate\":\"2024-01-01\",\"OrderDate\":\"2024-01-01\"}}";
    assert!(matches!(
        decode_response::<Order>(200, body),
        Err(Error::SerializationError(_))
    ));
}

#[test]
fn cancelled_order_is_read_in_its_own_shape() {
    let body = "{\"Order\": {\"DocumentNumber\":\"5\",\"CustomerNumber\":\"2\",\"OrderRows\":[{\"ArticleNumber\":\"A1\",\"OrderedQuantity\":\"3\",\"DeliveredQuantity\":2.5,\"Description\":\"Bolt\",\"Price\":10}],\"Currency\":\"NOK\",\"VATIncluded\":false,\"Comments\":null,\"DeliveryDate\":\"2024-01-02\",\"OrderDate\":\"2024-01-01\"}}";
    let cancelled = decode_response::<CancelledOrder>(200, body).unwrap();
    assert_eq!(
        cancelled.order,
        Order {
            document_number: Some("5".to_string()),
            customer_number: "2".to_string(),
            order_rows: vec![OrderRow {
                article_number: Some("A1".to_string()),
                ordered_quantity: "3".to_string(),
                delivered_quantity: "2.5".to_string(),
                description: "Bolt".to_string(),
                price: "10".to_string(),
            }],
            currency: Currency::NOK,
            vat_included: false,
            comments: None,
            delivery_date: date(2024, 1, 2),
            order_date: date(2024, 1, 1),
        }
    );
    assert!(decode_response::<Order>(200, body).is_err());
    assert_eq!(CancelledOrder::name(), "Order");
}

#[test]
fn cancelled_order_needs_its_document_number() {
    let body = "{\"Order\": {\"CustomerNumber\":\"2\",\"OrderRows\":[],\"Currency\":\"NOK\",\"VATIncluded\":false,\"DeliveryDate\":\"2024-01-02\",\"OrderDate\":\"2024-01-01\"}}";
    assert!(decode_response::<CancelledOrder>(200, body).is_err());
    assert!(decode_response::<Order>(200, body).is_ok());
}

#[test]
fn requests_for_reading() {
    let gateway = gateway();
    assert_eq!(
        gateway.get_customer("42"),
        Request {
            method: Method::Get,
            url: "https://api.fortnox.se/3/customers/42".to_string(),
            body: None
        }
    );
    assert_eq!(
        gateway.get_article("A 1"),
        Request {
            method: Method::Get,
            url: "https://api.fortnox.se/3/articles/A 1".to_string(),
            body: None
        }
    );
    assert_eq!(
        gateway.get_order(""),
        Request {
            method: Method::Get,
            url: "https://api.fortnox.se/3/orders/".to_string(),
            body: None
        }
    );
}

#[test]
fn requests_for_writing() {
    let gateway = gateway();
    assert_eq!(
        gateway.add_customer(&customer()),
        Request {
            method: Method::Post,
            url: "https://api.fortnox.se/3/customers".to_string(),
            body: Some(Json::Object(vec![member("Customer", customer().to_json())])),
        }
    );
    assert_eq!(
        gateway.add_order(&order()),
        Request {
            method: Method::Post,
            url: "https://api.fortnox.se/3/orders".to_string(),
            body: Some(Json::Object(vec![member("Order", order().to_json())])),
        }
    );
    assert_eq!(
        gateway.edit_order(&order()),
        Ok(Request {
            method: Method::Put,
            url: "https://api.fortnox.se/3/orders/17".to_string(),
            body: Some(Json::Object(vec![member("Order", order().to_json())])),
        })
    );
    assert_eq!(
        gateway.cancel_order("17"),
        Request {
            method: Method::Put,
            url: "https://api.fortnox.se/3/orders/17/cancel".to_string(),
            body: Some(Json::Object(vec![])),
        }
    );
}

#[test]
fn an_order_without_a_number_cannot_be_edited() {
    let mut order = order();
    order.document_number = None;
    assert_eq!(
        gateway().edit_order(&order),
        Err(Error::SerializationError(
            "Cannot edit an order with no document number.".to_string()
        ))
    );
}
