//! The device flow by which a user authorizes the application at GitHub:
//! what is sent in each of its three requests and what the answers mean.

use crate::error::{decimal, decimal_digits};
use vstd::prelude::*;
use vstd::string::*;

verus! {

/// The identifier under which the application is registered at GitHub.
pub const GITHUB_CLIENT_ID: &'static str = "Iv1.b507a08c87ecfe98";

/// Where a device code is requested.
pub const DEVICE_CODE_URL: &'static str = "https://github.com/login/device/code";

/// Where the token is polled for.
pub const TOKEN_URL: &'static str = "https://github.com/login/oauth/access_token";

/// Where the user's profile is fetched.
pub const USER_INFO_URL: &'static str = "https://api.github.com/user";

/// The answer to a request for a device code.
#[derive(Clone, Debug, PartialEq, Eq)]
pub struct DeviceCodeResponse {
    pub device_code: String,
    pub user_code: String,
    pub verification_uri: String,
    pub expires_in: u64,
    pub interval: u64,
}

/// The answer to one poll for a token.
#[derive(Clone, Debug, PartialEq, Eq)]
pub struct TokenPollResponse {
    /// Present once the user has authorized the device.
    pub access_token: Option<String>,
    pub token_type: Option<String>,
    pub scope: Option<String>,
    /// Present while the user has not yet authorized, and on failure.
    pub error: Option<String>,
    pub error_description: Option<String>,
}

/// The profile of the authorized user.
#[derive(Clone, Debug, PartialEq, Eq)]
pub struct UserInfoResponse {
    pub login: Option<String>,
    pub email: Option<String>,
    pub name: Option<String>,
}

/// A name with its value: a header of a request or a field of its form.
#[derive(Clone, Debug, PartialEq, Eq)]
pub struct Field {
    pub name: String,
    pub value: String,
}

/// A request to GitHub: its address, its headers, and the fields of the
/// form that it posts. A request without fields is a GET.
#[derive(Clone, Debug, PartialEq, Eq)]
pub struct Request {
    pub url: String,
    pub headers: Vec<Field>,
    pub form: Vec<Field>,
}

/// What came back for a request.
#[derive(Clone, Debug, PartialEq, Eq)]
pub enum Reply<T> {
    /// The server answered with a status that does not report success.
    Refused { status: u16, body: String },
    /// The answer's body could not be read as what was expected.
    Unreadable { reason: String },
    /// The answer, read.
    Parsed(T),
}

/// A field as a pair of texts.
pub open spec fn pair_of(field: Field) -> (Seq<char>, Seq<char>) {
    (field.name@, field.value@)
}

/// The fields of a list as pairs of texts.
pub open spec fn pairs_of(fields: Seq<Field>) -> Seq<(Seq<char>, Seq<char>)> {
    fields.map_values(|field: Field| pair_of(field))
}

/// The text that reports a refused request.
pub open spec fn refusal_text(status: u16, body: Seq<char>) -> Seq<char> {
    "GitHub returned "@ + decimal_digits(status as nat) + ": "@ + body
}

fn field(name: &str, value: &str) -> (made: Field)
    ensures
        pair_of(made) == (name@, value@),
{
    Field { name: String::from_str(name), value: String::from_str(value) }
}

/// The request for a device code.
pub fn device_code_request() -> (request: Request)
    ensures
        request.url@ == DEVICE_CODE_URL@,
        pairs_of(request.headers@) == seq![("Accept"@, "application/json"@)],
        pairs_of(request.form@) == seq![
            ("client_id"@, GITHUB_CLIENT_ID@),
            ("scope"@, "read:user user:email"@),
        ],
{
    let mut headers: Vec<Field> = Vec::new();
    headers.push(field("Accept", "application/json"));
    let mut form: Vec<Field> = Vec::new();
    form.push(field("client_id", GITHUB_CLIENT_ID));
    form.push(field("scope", "read:user user:email"));
    proof {
        assert(pairs_of(headers@) =~= seq![("Accept"@, "application/json"@)]);
        assert(pairs_of(form@) =~= seq![
            ("client_id"@, GITHUB_CLIENT_ID@),
            ("scope"@, "read:user user:email"@),
        ]);
    }
    Request { url: String::from_str(DEVICE_CODE_URL), headers, form }
}

/// The request that polls once for the token of a device code.
pub fn token_poll_request(device_code: &str) -> (request: Request)
    ensures
        request.url@ == TOKEN_URL@,
        pairs_of(request.headers@) == seq![("Accept"@, "application/json"@)],
        pairs_of(request.form@) == seq![
            ("client_id"@, GITHUB_CLIENT_ID@),
            ("grant_type"@, "urn:ietf:params:oauth:grant-type:device_code"@),
            ("device_code"@, device_code@),
        ],
{
    let mut headers: Vec<Field> = Vec::new();
    headers.push(field("Accept", "application/json"));
    let mut form: Vec<Field> = Vec::new();
    form.push(field("client_id", GITHUB_CLIENT_ID));
    form.push(field("grant_type", "urn:ietf:params:oauth:grant-type:device_code"));
    form.push(field("device_code", device_code));
    proof {
        assert(pairs_of(headers@) =~= seq![("Accept"@, "application/json"@)]);
        assert(pairs_of(form@) =~= seq![
            ("client_id"@, GITHUB_CLIENT_ID@),
            ("grant_type"@, "urn:ietf:params:oauth:grant-type:device_code"@),
            ("device_code"@, device_code@),
        ]);
    }
    Request { url: String::from_str(TOKEN_URL), headers, form }
}

/// The request for the profile of the user that a token stands for.
pub fn user_info_request(access_token: &str) -> (request: Request)
    ensures
        request.url@ == USER_INFO_URL@,
        pairs_of(request.headers@) == seq![
            ("Authorization"@, "Bearer "@ + access_token@),
            ("Accept"@, "application/json"@),
            ("User-Agent"@, "zero-limit"@),
        ],
        request.form@.len() == 0,
{
    let mut headers: Vec<Field> = Vec::new();
    let authorization = crate::version::bearer(access_token);
    headers.push(field("Authorization", authorization.as_str()));
    headers.push(field("Accept", "application/json"));
    headers.push(field("User-Agent", "zero-limit"));
    proof {
        assert(pairs_of(headers@) =~= seq![
            ("Authorization"@, "Bearer "@ + access_token@),
            ("Accept"@, "application/json"@),
            ("User-Agent"@, "zero-limit"@),
        ]);
    }
    Request { url: String::from_str(USER_INFO_URL), headers, form: Vec::new() }
}

/// The text that reports a refused request.
fn refusal(status: u16, body: &str) -> (text: String)
    ensures
        text@ == refusal_text(status, body@),
{
    let digits = decimal(status);
    String::from_str("GitHub returned ").concat(digits.as_str()).concat(": ").concat(body)
}

/// Reads the answer to a request for a device code: a refusal is reported
/// with its status and body, an unreadable body with the reason.
pub fn github_request_device_code(reply: Reply<DeviceCodeResponse>) -> (answer: Result<
    DeviceCodeResponse,
    String,
>)
    ensures
        match reply {
            Reply::Refused { status, body } => answer matches Err(text) && text@ == refusal_text(
                status,
                body@,
            ),
            Reply::Unreadable { reason } => answer matches Err(text) && text@
                == "Failed to parse device code response: "@ + reason@,
            Reply::Parsed(code) => answer == Ok::<DeviceCodeResponse, String>(code),
        },
{
    match reply {
        Reply::Refused { status, body } => Err(refusal(status, body.as_str())),
        Reply::Unreadable { reason } => Err(
            String::from_str("Failed to parse device code response: ").concat(reason.as_str()),
        ),
        Reply::Parsed(code) => Ok(code),
    }
}

/// Reads the answer to one poll for the token. The answer is handed on as
/// it was read, whatever its status, so that the caller sees every state of
/// the flow; an unreadable body is reported with the reason.
pub fn github_poll_token(reply: Result<TokenPollResponse, String>) -> (answer: Result<
    TokenPollResponse,
    String,
>)
    ensures
        match reply {
            Ok(token) => answer == Ok::<TokenPollResponse, String>(token),
            Err(reason) => answer matches Err(text) && text@ == "Failed to parse token response: "@
                + reason@,
        },
{
    match reply {
        Ok(token) => Ok(token),
        Err(reason) => Err(
            String::from_str("Failed to parse token response: ").concat(reason.as_str()),
        ),
    }
}

/// Reads the answer to a request for the user's profile: a refusal is
/// reported with its status and body, an unreadable body with the reason.
pub fn github_fetch_user_info(reply: Reply<UserInfoResponse>) -> (answer: Result<
    UserInfoResponse,
    String,
>)
    ensures
        match reply {
            Reply::Refused { status, body } => answer matches Err(text) && text@ == refusal_text(
                status,
                body@,
            ),
            Reply::Unreadable { reason } => answer matches Err(text) && text@
                == "Failed to parse user info: "@ + reason@,
            Reply::Parsed(user) => answer == Ok::<UserInfoResponse, String>(user),
        },
{
    match reply {
        Reply::Refused { status, body } => Err(refusal(status, body.as_str())),
        Reply::Unreadable { reason } => Err(
            String::from_str("Failed to parse user info: ").concat(reason.as_str()),
        ),
        Reply::Parsed(user) => Ok(user),
    }
}

} // verus!
