//! A typed, transport-free client core for the Fortnox accounting REST API.
//!
//! The crate holds everything the client decides: what a request looks
//! like, how a response is interpreted, how a failure is classified, when a
//! throttled request is tried again and how long to wait before it is.
//! Performing the HTTP exchange and the waiting is left to the caller:
//!
//! 1. [`Gateway::new`] takes the credentials and sets up the HTTP client
//!    with the fixed headers, for TLS only and with the timeout.
//! 2. A function of the gateway, such as `get_order`, plans a
//!    [`request::Request`].
//! 3. The caller sends it and hands the status code and the body text to
//!    [`resource::decode_response`], which gives the typed value or the
//!    classified [`Error`].
//! 4. The outcome goes to [`retry::RetryState::step`], which says whether
//!    to report it or to wait and send the request again.

pub mod api_error_code;
pub mod article;
pub mod currency;
pub mod customer;
pub mod date;
pub mod error;
pub mod gateway;
pub mod json;
pub mod order;
pub mod request;
pub mod resource;
pub mod response;
pub mod retry;
pub mod text;

pub use api_error_code::ApiErrorCode;
pub use article::Article;
pub use currency::Currency;
pub use customer::Customer;
pub use date::Date;
pub use error::Error;
pub use gateway::Gateway;
pub use order::{CancelledOrder, Order, Row as OrderRow};
