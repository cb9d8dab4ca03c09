//! The client: the credentials and the transport settings that every request
//! is sent with.

use crate::error::{Error, ErrorView};
use std::time::Duration;
use vstd::prelude::*;
use vstd::string::*;

verus! {

/// The root that every resource path is appended to.
pub const BASE_URL: &'static str = "https://api.fortnox.se/3";

/// The timeout of a request where the caller sets none, in seconds.
pub const DEFAULT_TIMEOUT_SECS: u64 = 60;

/// Whether a character may stand in the value of an HTTP header: any
/// character but the control characters, of which only the tab is let in.
pub open spec fn is_header_char(c: char) -> bool {
    (c as u32 >= 32 && c as u32 != 127) || c as u32 == 9
}

/// Whether a text may be the value of an HTTP header.
pub open spec fn is_header_value(text: Seq<char>) -> bool {
    forall|i: int| 0 <= i < text.len() ==> is_header_char(#[trigger] text[i])
}

/// The message of the failure to make a header of a credential.
pub open spec fn auth_header_message(complaint: Seq<char>) -> Seq<char> {
    "Could not create auth header ("@ + complaint + ")."@
}

/// The message of the failure to build the HTTP client.
pub open spec fn client_message(complaint: Seq<char>) -> Seq<char> {
    "Could not create reqwest client ("@ + complaint + ")."@
}

/// The message of the failure to complete an HTTP exchange.
pub open spec fn network_message(complaint: Seq<char>) -> Seq<char> {
    "Could not send request ("@ + complaint + ")."@
}

/// Calls `reqwest::header::HeaderValue::from_str` and tells whether it took
/// the text. The contract claims what the source of that function shows: it
/// refuses a text if and only if one of its bytes is a control character
/// other than the tab (a byte below 32 but 9, or 127); the bytes of a
/// character beyond ASCII are all above 127, so such a character is let in.
/// The complaint is the one fixed text that its error displays.
#[verifier::external_body]
fn check_header_value(text: &str) -> (r: Result<(), String>)
    ensures
        r is Ok <==> is_header_value(text@),
        r matches Err(complaint) ==> complaint@ == "failed to parse header value"@,
{
    match reqwest::header::HeaderValue::from_str(text) {
        Ok(_) => Ok(()),
        Err(err) => Err(err.to_string()),
    }
}

#[verifier::external_type_specification]
#[verifier::external_body]
pub struct ExClient(reqwest::Client);

/// What an HTTP client is set up with, as far as this library sets it.
pub struct ClientSettings {
    /// The headers that the client adds to every request that does not set
    /// them itself: the value that goes by each name, the name in lower
    /// case, as the client keeps it.
    pub headers: Map<Seq<char>, Seq<char>>,
    /// Whether the client refuses an address that is not an `https` one.
    pub https_only: bool,
    /// The time that the client gives a request from its start to the end
    /// of the response, in nanoseconds; `None` where it sets no limit.
    pub timeout_nanos: Option<nat>,
}

/// The settings that a `reqwest::Client` holds: its default headers (of
/// each name the first value, read as UTF-8), its restriction to HTTPS and
/// its total timeout.
pub uninterp spec fn client_settings(client: reqwest::Client) -> ClientSettings;

/// The length of a `std::time::Duration` in nanoseconds.
pub uninterp spec fn duration_nanos(span: Duration) -> nat;

/// The nanoseconds of a second.
pub const NANOS_PER_SEC: u64 = 1_000_000_000;

/// The most headers that a client is built with at once.
pub const MAX_HEADERS: usize = 16;

/// A letter of a header's name as a client keeps it: a capital ASCII letter
/// becomes the small one, every other character stays.
pub open spec fn lower_case_char(c: char) -> char {
    if 'A' <= c && c <= 'Z' {
        ((c as u8 + 32) as u8) as char
    } else {
        c
    }
}

/// A header's name as a client keeps it: in lower case.
pub open spec fn lower_case(name: Seq<char>) -> Seq<char> {
    Seq::new(name.len(), |i: int| lower_case_char(name[i]))
}

/// The default headers of a client that was built with a list of headers:
/// a new client accepts every content type, and then each header of the
/// list, in its turn, takes the place of what went by its name before.
pub open spec fn default_headers(given: Seq<(Seq<char>, Seq<char>)>) -> Map<Seq<char>, Seq<char>>
    decreases given.len(),
{
    if given.len() == 0 {
        map!["accept"@ => "*/*"@]
    } else {
        default_headers(given.drop_last()).insert(lower_case(given.last().0), given.last().1)
    }
}

/// Calls `Duration::from_secs`. The contract claims what std documents: the
/// result lasts the given number of whole seconds.
#[verifier::external_body]
fn seconds(secs: u64) -> (span: Duration)
    ensures
        duration_nanos(span) == secs * NANOS_PER_SEC,
{
    Duration::from_secs(secs)
}

/// Builds the HTTP client with `reqwest::ClientBuilder`: the headers become
/// its default headers, and `https_only` and `timeout` are set as given.
/// A failure is handed back as the text of the complaint. Whether the
/// client can be built depends on the machine (its TLS backend and its
/// resolver), so the contract claims nothing of that. Of a client that was
/// built it claims what the source of the builder shows: the client holds
/// the settings as given, the headers by their names in lower case, each
/// with the value that was given last, beside the `accept` header that
/// every new builder starts with. The list is kept short because a header
/// map panics when it grows beyond its capacity of some thousands.
#[verifier::external_body]
fn build_client(headers: &Vec<(String, String)>, https_only: bool, timeout: Duration) -> (built:
    Result<reqwest::Client, String>)
    requires
        headers.len() <= MAX_HEADERS,
    ensures
        built matches Ok(client) ==> client_settings(client) == (ClientSettings {
            headers: default_headers(headers_view(headers)),
            https_only,
            timeout_nanos: Some(duration_nanos(timeout)),
        }),
{
    let mut map = reqwest::header::HeaderMap::new();
    for (name, value) in headers {
        let name = reqwest::header::HeaderName::from_bytes(name.as_bytes());
        let value = reqwest::header::HeaderValue::from_str(value);
        map.insert(name.map_err(|e| e.to_string())?, value.map_err(|e| e.to_string())?);
    }
    let builder = reqwest::ClientBuilder::new().default_headers(map).https_only(https_only);
    builder.timeout(timeout).build().map_err(|e| e.to_string())
}

/// A client for the remote service: the HTTP client, set up with the
/// credentials, for TLS only and with the timeout.
///
/// A client is made once and never changed; it can be shared by any number
/// of requests.
pub struct Gateway {
    client: reqwest::Client,
}

/// The headers that every request of a client with the given credentials
/// carries: the content type and the accepted type, both JSON, and the two
/// credentials.
pub open spec fn fixed_headers(access_token: Seq<char>, client_secret: Seq<char>) -> Seq<
    (Seq<char>, Seq<char>),
> {
    seq![
        ("Content-Type"@, "application/json"@),
        ("Accept"@, "application/json"@),
        ("Access-Token"@, access_token),
        ("Client-Secret"@, client_secret),
    ]
}

/// The fixed headers as an HTTP client keeps them: by their names in lower
/// case.
pub open spec fn kept_headers(access_token: Seq<char>, client_secret: Seq<char>) -> Map<
    Seq<char>,
    Seq<char>,
> {
    map![
        "content-type"@ => "application/json"@,
        "accept"@ => "application/json"@,
        "access-token"@ => access_token,
        "client-secret"@ => client_secret,
    ]
}

/// The length of the timeout that a client is made with: the one given or,
/// where none is given, 60 seconds.
pub open spec fn planned_timeout(timeout: Option<Duration>) -> nat {
    match timeout {
        Some(given) => duration_nanos(given),
        None => (DEFAULT_TIMEOUT_SECS * NANOS_PER_SEC) as nat,
    }
}

/// The settings of the HTTP client of a gateway that is made with the given
/// credentials and timeout: every request carries the four fixed headers,
/// only `https` addresses are taken, and a request may last as long as the
/// timeout.
pub open spec fn planned_settings(
    access_token: Seq<char>,
    client_secret: Seq<char>,
    timeout: Option<Duration>,
) -> ClientSettings {
    ClientSettings {
        headers: kept_headers(access_token, client_secret),
        https_only: true,
        timeout_nanos: Some(planned_timeout(timeout)),
    }
}

/// The names and values of a list of headers.
pub open spec fn headers_view(headers: &Vec<(String, String)>) -> Seq<(Seq<char>, Seq<char>)> {
    Seq::new(headers.len() as nat, |i: int| (headers[i].0@, headers[i].1@))
}

/// The outcome of an attempt to build an HTTP client, as a mathematical
/// value: the settings of the client, or the complaint of the builder.
pub open spec fn built_view(built: Result<reqwest::Client, String>) -> Result<
    ClientSettings,
    Seq<char>,
> {
    match built {
        Ok(client) => Ok(client_settings(client)),
        Err(complaint) => Err(complaint@),
    }
}

/// The mathematical value of the outcome of making a client.
pub open spec fn made_view(made: Result<Gateway, Error>) -> Result<ClientSettings, ErrorView> {
    match made {
        Ok(gateway) => Ok(gateway@),
        Err(error) => Err(error@),
    }
}

/// What making a client comes to, given the outcome of the attempt to
/// build the HTTP client.
///
/// A credential that cannot be the value of an HTTP header is refused
/// first. Then a failure to build the HTTP client is reported. Otherwise
/// the client is made, and it holds the HTTP client that was built. Every
/// failure is `Unspecified`.
pub open spec fn construction(
    token: Seq<char>,
    secret: Seq<char>,
    built: Result<ClientSettings, Seq<char>>,
) -> Result<ClientSettings, ErrorView> {
    if !is_header_value(token) || !is_header_value(secret) {
        Err(ErrorView::Unspecified(auth_header_message("failed to parse header value"@)))
    } else {
        match built {
            Ok(settings) => Ok(settings),
            Err(complaint) => Err(ErrorView::Unspecified(client_message(complaint))),
        }
    }
}

impl View for Gateway {
    type V = ClientSettings;

    closed spec fn view(&self) -> ClientSettings {
        client_settings(self.client)
    }
}

/// Looks at the two credentials: the refusal of the first that cannot be
/// the value of an HTTP header, or nothing where both can.
fn check_credentials(token: &str, secret: &str) -> (refusal: Option<Error>)
    ensures
        match refusal {
            Some(error) => {
                &&& !(is_header_value(token@) && is_header_value(secret@))
                &&& error@ == ErrorView::Unspecified(
                    auth_header_message("failed to parse header value"@),
                )
            },
            None => is_header_value(token@) && is_header_value(secret@),
        },
{
    if let Err(complaint) = check_header_value(token) {
        return Some(Error::Unspecified(auth_header_failure(complaint.as_str())));
    }
    if let Err(complaint) = check_header_value(secret) {
        return Some(Error::Unspecified(auth_header_failure(complaint.as_str())));
    }
    None
}

/// Lists the headers that every request of a client with the given
/// credentials carries.
pub fn request_headers(access_token: &str, client_secret: &str) -> (headers: Vec<(String, String)>)
    ensures
        headers_view(&headers) == fixed_headers(access_token@, client_secret@),
{
    let mut headers: Vec<(String, String)> = Vec::new();
    headers.push((String::from_str("Content-Type"), String::from_str("application/json")));
    headers.push((String::from_str("Accept"), String::from_str("application/json")));
    headers.push((String::from_str("Access-Token"), String::from_str(access_token)));
    headers.push((String::from_str("Client-Secret"), String::from_str(client_secret)));
    assert(headers_view(&headers) =~= fixed_headers(access_token@, client_secret@));
    headers
}

/// The timeout to set: the one given, or the default.
fn timeout_or_default(timeout: Option<Duration>) -> (span: Duration)
    ensures
        duration_nanos(span) == planned_timeout(timeout),
{
    match timeout {
        Some(given) => given,
        None => seconds(DEFAULT_TIMEOUT_SECS),
    }
}

/// A client that is built with the fixed headers keeps just them: the
/// accepted type takes the place of the one that a new client starts with.
pub proof fn lemma_fixed_headers_are_kept(access_token: Seq<char>, client_secret: Seq<char>)
    ensures
        default_headers(fixed_headers(access_token, client_secret)) == kept_headers(
            access_token,
            client_secret,
        ),
{
    reveal_strlit("Content-Type");
    reveal_strlit("Accept");
    reveal_strlit("Access-Token");
    reveal_strlit("Client-Secret");
    reveal_strlit("content-type");
    reveal_strlit("accept");
    reveal_strlit("access-token");
    reveal_strlit("client-secret");
    let four = fixed_headers(access_token, client_secret);
    let three = four.drop_last();
    let two = three.drop_last();
    let one = two.drop_last();
    assert(one.drop_last() =~= Seq::empty());
    assert(lower_case(four[0].0) =~= "content-type"@);
    assert(lower_case(four[1].0) =~= "accept"@);
    assert(lower_case(four[2].0) =~= "access-token"@);
    assert(lower_case(four[3].0) =~= "client-secret"@);
    reveal_with_fuel(default_headers, 5);
    assert(default_headers(four) =~= kept_headers(access_token, client_secret));
}

impl Gateway {
    /// Makes a client of an access token and a client secret. Where no
    /// timeout is given it is 60 seconds.
    ///
    /// A credential that cannot be the value of an HTTP header is refused,
    /// and the HTTP client is not built. Otherwise the HTTP client is built
    /// with the fixed headers, for TLS only and with the timeout. Where
    /// that fails, the complaint of the builder is reported; where it
    /// succeeds, the client holds an HTTP client with just these settings.
    /// The client id has no part in any of it.
    pub fn new(_client_id: String, token: String, secret: String, timeout: Option<Duration>) -> (made:
        Result<Gateway, Error>)
        ensures
            made matches Ok(gateway) ==> gateway@ == planned_settings(token@, secret@, timeout),
            made is Ok ==> is_header_value(token@) && is_header_value(secret@),
            made is Err ==> exists|complaint: Seq<char>|
                made_view(made) == #[trigger] construction(token@, secret@, Err(complaint)),
    {
        if let Some(refusal) = check_credentials(token.as_str(), secret.as_str()) {
            assert(made_view(Err(refusal)) == construction(token@, secret@, Err(Seq::empty())));
            return Err(refusal);
        }
        let headers = request_headers(token.as_str(), secret.as_str());
        assert(headers_view(&headers).len() == 4);
        let built = build_client(&headers, true, timeout_or_default(timeout));
        proof {
            lemma_fixed_headers_are_kept(token@, secret@);
            if built is Err {
                assert(built_view(built) == Err::<ClientSettings, Seq<char>>(built->Err_0@));
            }
        }
        Self::with_client(token.as_str(), secret.as_str(), built)
    }

    /// Makes a client of its credentials and of the outcome of building the
    /// HTTP client: the HTTP client, or the complaint of the builder.
    pub fn with_client(token: &str, secret: &str, built: Result<reqwest::Client, String>) -> (made:
        Result<Gateway, Error>)
        ensures
            made_view(made) == construction(token@, secret@, built_view(built)),
    {
        if let Some(refusal) = check_credentials(token, secret) {
            return Err(refusal);
        }
        match built {
            Ok(client) => Ok(Gateway { client }),
            Err(complaint) => Err(client_failure(complaint.as_str())),
        }
    }

    /// The HTTP client, set up with the headers, for TLS only and with the
    /// timeout.
    pub fn client(&self) -> (client: &reqwest::Client)
        ensures
            client_settings(*client) == self@,
    {
        &self.client
    }
}

/// Builds the message of the failure to make a header of a credential.
fn auth_header_failure(complaint: &str) -> (message: String)
    ensures
        message@ == auth_header_message(complaint@),
{
    let mut message = String::from_str("Could not create auth header (");
    message.append(complaint);
    message.append(").");
    message
}

/// The failure to build the HTTP client, with the complaint of the builder.
pub fn client_failure(complaint: &str) -> (error: Error)
    ensures
        error@ == ErrorView::Unspecified(client_message(complaint@)),
{
    let mut message = String::from_str("Could not create reqwest client (");
    message.append(complaint);
    message.append(").");
    Error::Unspecified(message)
}

/// The failure to complete an HTTP exchange, with the complaint of the
/// transport. Such a failure is not retried.
pub fn network_failure(complaint: &str) -> (error: Error)
    ensures
        error@ == ErrorView::NetworkError(network_message(complaint@)),
        !error@.is_retryable(),
{
    let mut message = String::from_str("Could not send request (");
    message.append(complaint);
    message.append(").");
    Error::NetworkError(message)
}

} // verus!
