//! The usage dashboard API: where each request goes, what it carries, and
//! how a reply (status code, body text, and the body as parsed by the
//! caller) becomes a value or an `ApiError`.
use vstd::prelude::*;
use vstd::string::StringExecFns;

use crate::text::{decimal, i64_to_decimal, signed_decimal, u64_to_decimal};

verus! {

#[verifier::external_type_specification]
#[verifier::external_body]
pub struct ExJsonValue(serde_json::Value);

/// What a request to the API can end in, other than its data.
#[derive(Debug, PartialEq, Eq)]
pub enum ApiError {
    /// The request could not be sent or answered; the text describes why.
    Network(String),
    /// The server answered 401.
    Unauthorized,
    /// The login endpoint refused, with the code and message of its reply.
    Api { code: i64, message: String },
    /// Any other refusal: the status code and the reply's text.
    Status(u16, String),
}

/// `ApiError` with its texts as character sequences.
pub enum ApiFailure {
    Network(Seq<char>),
    Unauthorized,
    Api { code: i64, message: Seq<char> },
    Status(u16, Seq<char>),
}

impl View for ApiError {
    type V = ApiFailure;

    open spec fn view(&self) -> ApiFailure {
        match self {
            ApiError::Network(m) => ApiFailure::Network(m@),
            ApiError::Unauthorized => ApiFailure::Unauthorized,
            ApiError::Api { code, message } => ApiFailure::Api { code: *code, message: message@ },
            ApiError::Status(s, t) => ApiFailure::Status(*s, t@),
        }
    }
}

/// The text shown for an API failure.
pub open spec fn api_failure_text(f: ApiFailure) -> Seq<char> {
    match f {
        ApiFailure::Network(m) => "network error: "@ + m,
        ApiFailure::Unauthorized => "unauthorized (401)"@,
        ApiFailure::Api { code, message } => "api error ("@ + signed_decimal(code as int) + "): "@
            + message,
        ApiFailure::Status(s, t) => "unexpected status "@ + decimal(s as nat) + ": "@ + t,
    }
}

impl ApiError {
    /// The text shown for this failure.
    pub fn message(&self) -> (r: String)
        ensures
            r@ == api_failure_text(self@),
    {
        match self {
            ApiError::Network(m) => {
                let mut r = String::from_str("network error: ");
                r.append(m.as_str());
                r
            },
            ApiError::Unauthorized => String::from_str("unauthorized (401)"),
            ApiError::Api { code, message } => {
                let mut r = String::from_str("api error (");
                let c = i64_to_decimal(*code);
                r.append(c.as_str());
                r.append("): ");
                r.append(message.as_str());
                r
            },
            ApiError::Status(s, t) => {
                let mut r = String::from_str("unexpected status ");
                let c = u64_to_decimal(*s as u64);
                r.append(c.as_str());
                r.append(": ");
                r.append(t.as_str());
                r
            },
        }
    }
}

/// The tokens that the login and refresh endpoints hand out.
#[derive(Debug)]
pub struct LoginResponse {
    pub access_token: String,
    pub refresh_token: Option<String>,
    pub expires_in: Option<u64>,
    pub token_type: Option<String>,
    pub user: Option<serde_json::Value>,
}

/// The error body the login endpoint sends with a refusal: its `code`
/// (when that is an integer that fits in an `i64`) and its `message`.
#[derive(Debug, PartialEq, Eq)]
pub struct ErrorBody {
    pub code: Option<i64>,
    pub message: String,
}

/// The read-only resources behind a bearer token.
#[derive(Debug, Clone, Copy, PartialEq, Eq)]
pub enum Resource {
    DashboardStats,
    UserInfo,
    Subscriptions,
}

/// A request to send: a JSON `POST`, or a `GET` with a bearer token.
#[derive(Debug, PartialEq, Eq)]
pub enum Request {
    PostJson { url: String, body: String },
    GetWithBearer { url: String, token: String },
}

/// `Request` with its texts as character sequences.
pub enum RequestView {
    PostJson { url: Seq<char>, body: Seq<char> },
    GetWithBearer { url: Seq<char>, token: Seq<char> },
}

impl View for Request {
    type V = RequestView;

    open spec fn view(&self) -> RequestView {
        match self {
            Request::PostJson { url, body } => RequestView::PostJson { url: url@, body: body@ },
            Request::GetWithBearer { url, token } => RequestView::GetWithBearer {
                url: url@,
                token: token@,
            },
        }
    }
}

pub open spec fn login_path() -> Seq<char> {
    "/api/v1/auth/login"@
}

pub open spec fn refresh_path() -> Seq<char> {
    "/api/v1/auth/refresh"@
}

pub open spec fn resource_path(r: Resource) -> Seq<char> {
    match r {
        Resource::DashboardStats => "/api/v1/usage/dashboard/stats?timezone=Asia/Shanghai"@,
        Resource::UserInfo => "/api/v1/auth/me?timezone=Asia/Shanghai"@,
        Resource::Subscriptions => "/api/v1/subscriptions/active?timezone=Asia/Shanghai"@,
    }
}

/// The lower-case hexadecimal digit for `d` (below sixteen).
pub open spec fn hex_digit(d: nat) -> char {
    seq!['0', '1', '2', '3', '4', '5', '6', '7', '8', '9', 'a', 'b', 'c', 'd', 'e', 'f'][d as int]
}

/// How `serde_json` writes one character inside a string: quote and
/// backslash escaped, the control characters with a short escape where JSON
/// has one and as `\u00xx` otherwise, every other character as it is.
pub open spec fn json_escape(c: char) -> Seq<char> {
    if c == '"' {
        seq!['\\', '"']
    } else if c == '\\' {
        seq!['\\', '\\']
    } else if c == '\x08' {
        seq!['\\', 'b']
    } else if c == '\t' {
        seq!['\\', 't']
    } else if c == '\n' {
        seq!['\\', 'n']
    } else if c == '\x0C' {
        seq!['\\', 'f']
    } else if c == '\r' {
        seq!['\\', 'r']
    } else if (c as u32) < 0x20 {
        seq!['\\', 'u', '0', '0', hex_digit((c as u32 / 16) as nat), hex_digit((c as u32 % 16) as nat)]
    } else {
        seq![c]
    }
}

/// The characters of `s`, each escaped as `serde_json` writes it.
pub open spec fn json_escaped(s: Seq<char>) -> Seq<char>
    decreases s.len(),
{
    if s.len() == 0 {
        Seq::empty()
    } else {
        json_escaped(s.drop_last()) + json_escape(s.last())
    }
}

/// The JSON string literal that `serde_json` writes for `s`.
pub open spec fn json_string_literal(s: Seq<char>) -> Seq<char> {
    seq!['"'] + json_escaped(s) + seq!['"']
}

/// Calls `serde_json::to_string` on a string slice.  For a `str` it writes
/// into a `Vec`, which cannot fail, a quote, each character escaped by its
/// escape table, and a quote: the JSON string literal of `s`.
#[verifier::external_body]
fn json_quote(s: &str) -> (r: String)
    ensures
        r@ == json_string_literal(s@),
{
    serde_json::to_string(s).unwrap_or_default()
}

/// The JSON object that the login endpoint takes.
pub open spec fn login_body(email: Seq<char>, password: Seq<char>) -> Seq<char> {
    "{\"email\":"@ + json_string_literal(email) + ",\"password\":"@ + json_string_literal(password)
        + "}"@
}

/// The JSON object that the refresh endpoint takes.
pub open spec fn refresh_body(refresh_token: Seq<char>) -> Seq<char> {
    "{\"refresh_token\":"@ + json_string_literal(refresh_token) + "}"@
}

/// The login request: the credentials posted to the login endpoint.
pub fn login_request(base_url: &str, email: &str, password: &str) -> (r: Request)
    ensures
        r@ == (RequestView::PostJson {
            url: base_url@ + login_path(),
            body: login_body(email@, password@),
        }),
{
    let mut url = String::from_str(base_url);
    url.append("/api/v1/auth/login");
    let mut body = String::from_str("{\"email\":");
    let e = json_quote(email);
    body.append(e.as_str());
    body.append(",\"password\":");
    let p = json_quote(password);
    body.append(p.as_str());
    body.append("}");
    Request::PostJson { url, body }
}

/// The refresh request: the refresh token posted to the refresh endpoint.
pub fn refresh_request(base_url: &str, refresh_token: &str) -> (r: Request)
    ensures
        r@ == (RequestView::PostJson {
            url: base_url@ + refresh_path(),
            body: refresh_body(refresh_token@),
        }),
{
    let mut url = String::from_str(base_url);
    url.append("/api/v1/auth/refresh");
    let mut body = String::from_str("{\"refresh_token\":");
    let t = json_quote(refresh_token);
    body.append(t.as_str());
    body.append("}");
    Request::PostJson { url, body }
}

/// The request for one of the read-only resources, authorized by the
/// access token.
pub fn resource_request(base_url: &str, resource: Resource, access_token: &str) -> (r: Request)
    ensures
        r@ == (RequestView::GetWithBearer {
            url: base_url@ + resource_path(resource),
            token: access_token@,
        }),
{
    let mut url = String::from_str(base_url);
    match resource {
        Resource::DashboardStats => url.append("/api/v1/usage/dashboard/stats?timezone=Asia/Shanghai"),
        Resource::UserInfo => url.append("/api/v1/auth/me?timezone=Asia/Shanghai"),
        Resource::Subscriptions => url.append("/api/v1/subscriptions/active?timezone=Asia/Shanghai"),
    }
    Request::GetWithBearer { url, token: String::from_str(access_token) }
}

/// A parse result with its error text as a character sequence.
pub open spec fn parsed_view<T>(parsed: Result<T, String>) -> Result<T, Seq<char>> {
    match parsed {
        Ok(v) => Ok(v),
        Err(e) => Err(e@),
    }
}

/// A reply's outcome with its error as an `ApiFailure`.
pub open spec fn outcome_view<T>(r: Result<T, ApiError>) -> Result<T, ApiFailure> {
    match r {
        Ok(v) => Ok(v),
        Err(e) => Err(e@),
    }
}

/// What a reply with `status` and body `text` comes to, where `parsed` is
/// the body read as the expected data (or the parser's complaint): the data
/// on 200, `Unauthorized` on 401, and the status with the text otherwise.
pub open spec fn reply_outcome<T>(status: u16, text: Seq<char>, parsed: Result<T, Seq<char>>) -> Result<T, ApiFailure> {
    if status == 200 {
        match parsed {
            Ok(v) => Ok(v),
            Err(e) => Err(ApiFailure::Status(200, "bad json: "@ + e)),
        }
    } else if status == 401 {
        Err(ApiFailure::Unauthorized)
    } else {
        Err(ApiFailure::Status(status, text))
    }
}

/// What a reply of the login endpoint comes to: as `reply_outcome`, but a
/// refusal other than 401 carries the code and message of the error body,
/// falling back to the status code and the whole text.
pub open spec fn login_outcome(
    status: u16,
    text: Seq<char>,
    parsed: Result<LoginResponse, Seq<char>>,
    error_body: Option<ErrorBody>,
) -> Result<LoginResponse, ApiFailure> {
    if status == 200 || status == 401 {
        reply_outcome(status, text, parsed)
    } else {
        Err(
            ApiFailure::Api {
                code: match error_body {
                    Some(b) => match b.code {
                        Some(c) => c,
                        None => status as i64,
                    },
                    None => status as i64,
                },
                message: match error_body {
                    Some(b) => b.message@,
                    None => text,
                },
            },
        )
    }
}

/// Turns a reply of the refresh or a resource endpoint into its outcome.
/// `parsed` is the body read as the endpoint's data, or the parser's
/// complaint.
pub fn read_reply<T>(status: u16, text: String, parsed: Result<T, String>) -> (r: Result<T, ApiError>)
    ensures
        outcome_view(r) == reply_outcome(status, text@, parsed_view(parsed)),
{
    if status == 200 {
        match parsed {
            Ok(v) => Ok(v),
            Err(e) => {
                let mut m = String::from_str("bad json: ");
                m.append(e.as_str());
                Err(ApiError::Status(200, m))
            },
        }
    } else if status == 401 {
        Err(ApiError::Unauthorized)
    } else {
        Err(ApiError::Status(status, text))
    }
}

/// Turns a reply of the login endpoint into its outcome.  `parsed` is the
/// body read as the login data, `error_body` the body read as an error body
/// (`None` where it is not one).
pub fn read_login_reply(
    status: u16,
    text: String,
    parsed: Result<LoginResponse, String>,
    error_body: Option<ErrorBody>,
) -> (r: Result<LoginResponse, ApiError>)
    ensures
        outcome_view(r) == login_outcome(status, text@, parsed_view(parsed), error_body),
{
    if status == 200 || status == 401 {
        read_reply(status, text, parsed)
    } else {
        match error_body {
            Some(b) => {
                let code = match b.code {
                    Some(c) => c,
                    None => status as i64,
                };
                Err(ApiError::Api { code, message: b.message })
            },
            None => Err(ApiError::Api { code: status as i64, message: text }),
        }
    }
}

/// What a reply of the refresh or a resource endpoint means: only status
/// 401 is `Unauthorized`; a 200 gives the parsed data, or a bad-json status
/// error when the body could not be read; any other status is reported with
/// the status code and the body text as they came.
pub proof fn reply_meaning<T>(status: u16, text: Seq<char>, parsed: Result<T, Seq<char>>)
    ensures
        (reply_outcome(status, text, parsed) == Err::<T, ApiFailure>(ApiFailure::Unauthorized)) <==> status
            == 401,
        status != 200 && status != 401 ==> reply_outcome(status, text, parsed) == Err::<
            T,
            ApiFailure,
        >(ApiFailure::Status(status, text)),
        status == 200 ==> match parsed {
            Ok(v) => reply_outcome(status, text, parsed) == Ok::<T, ApiFailure>(v),
            Err(m) => reply_outcome(status, text, parsed) == Err::<T, ApiFailure>(
                ApiFailure::Status(200, "bad json: "@ + m),
            ),
        },
        reply_outcome(status, text, parsed) is Ok ==> status == 200,
{
}

/// What a reply of the login endpoint means: only status 401 is
/// `Unauthorized`, only a 200 gives the tokens, and any other refusal keeps
/// the error body's message (or the whole text when there is none).
pub proof fn login_reply_meaning(
    status: u16,
    text: Seq<char>,
    parsed: Result<LoginResponse, Seq<char>>,
    error_body: Option<ErrorBody>,
)
    ensures
        (login_outcome(status, text, parsed, error_body) == Err::<LoginResponse, ApiFailure>(
            ApiFailure::Unauthorized,
        )) <==> status == 401,
        login_outcome(status, text, parsed, error_body) is Ok ==> status == 200 && parsed is Ok,
        status == 200 && parsed is Ok ==> login_outcome(status, text, parsed, error_body) == Ok::<
            LoginResponse,
            ApiFailure,
        >(parsed->Ok_0),
        status != 200 && status != 401 ==> (login_outcome(status, text, parsed, error_body) matches Err(
            ApiFailure::Api { code, message },
        ) && message == match error_body {
            Some(b) => b.message@,
            None => text,
        } && (error_body is None ==> code == status as i64)),
{
}

} // verus!
