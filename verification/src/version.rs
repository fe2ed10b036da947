//! The version check against a running proxy: where to ask, and what the
//! answer's headers and body say.

use crate::archive::is_success;
use crate::error::{decimal, decimal_digits, CommandError};
use crate::text::{chars_of, string_of};
use vstd::prelude::*;
use vstd::string::*;

verus! {

/// `serde_json::Value`, a parsed JSON document. Nothing inside it is
/// visible here.
#[verifier::external_type_specification]
#[verifier::external_body]
pub struct ExJsonValue(serde_json::Value);

/// `serde_json::Error`, the failure of the JSON parser. Only its text is
/// used.
#[verifier::external_type_specification]
#[verifier::external_body]
pub struct ExJsonError(serde_json::Error);

/// How many seconds the version check waits for an answer.
pub const VERSION_CHECK_TIMEOUT_SECS: u64 = 10;

/// What a running proxy reports about its version.
#[derive(Clone, Debug, PartialEq, Eq)]
pub struct ProxyVersionInfo {
    pub current_version: Option<String>,
    pub build_date: Option<String>,
    pub latest_version: Option<String>,
}

/// The members of a JSON value where it is an object, each with its text
/// where it is a string and `None` where it is anything else; no members
/// where the value is not an object.
pub uninterp spec fn json_members(value: serde_json::Value) -> Map<Seq<char>, Option<Seq<char>>>;

/// The members of the JSON document that the bytes hold, or `None` where
/// the bytes are not one JSON document.
pub uninterp spec fn json_document(body: Seq<u8>) -> Option<Map<Seq<char>, Option<Seq<char>>>>;

/// `serde_json::from_slice` for a `serde_json::Value`: parses the bytes as
/// one JSON document. The result depends on the bytes alone.
#[verifier::external_body]
fn json_parse(body: &[u8]) -> (parsed: Result<serde_json::Value, serde_json::Error>)
    ensures
        match parsed {
            Ok(value) => json_document(body@) == Some(json_members(value)),
            Err(_) => json_document(body@) is None,
        },
{
    serde_json::from_slice::<serde_json::Value>(body)
}

/// `serde_json::Value::get` with a string key, then `as_str` on the member
/// found: `None` where the value is no object or has no such member,
/// otherwise the member's text where it is a string.
#[verifier::external_body]
fn json_member(value: &serde_json::Value, key: &str) -> (member: Option<Option<String>>)
    ensures
        match member {
            Some(Some(text)) => json_members(*value).contains_key(key@) && json_members(
                *value,
            )[key@] == Some(text@),
            Some(None) => json_members(*value).contains_key(key@) && json_members(*value)[key@]
                is None,
            None => !json_members(*value).contains_key(key@),
        },
{
    value.get(key).map(|found| found.as_str().map(|text| text.to_owned()))
}

/// The text that `serde_json::Error` displays.
#[verifier::external_body]
fn json_error_text(error: &serde_json::Error) -> (text: String) {
    error.to_string()
}

/// `text` without the slashes at its end.
pub open spec fn without_trailing_slashes(text: Seq<char>) -> Seq<char>
    decreases text.len(),
{
    if text.len() > 0 && text.last() == '/' {
        without_trailing_slashes(text.drop_last())
    } else {
        text
    }
}

/// The address of the version check below a base address.
pub open spec fn version_url(api_base: Seq<char>) -> Seq<char> {
    without_trailing_slashes(api_base) + "/v0/management/latest-version"@
}

/// The value of the first of two headers that is present. A header is
/// given as it was found: `None` where the answer has no such header, and
/// its text where its value is text. The first header that is present
/// decides, also where its value is no text.
pub open spec fn first_of(preferred: Option<Option<String>>, fallback: Option<Option<String>>)
    -> Option<Seq<char>> {
    match preferred {
        Some(value) => text_of(value),
        None => match fallback {
            Some(value) => text_of(value),
            None => None,
        },
    }
}

/// The latest version that a body announces: the member `latest-version`
/// where there is one, else `latest_version`, else `latest`; its text where
/// that member is a string.
pub open spec fn latest_of(members: Map<Seq<char>, Option<Seq<char>>>) -> Option<Seq<char>> {
    if members.contains_key("latest-version"@) {
        members["latest-version"@]
    } else if members.contains_key("latest_version"@) {
        members["latest_version"@]
    } else if members.contains_key("latest"@) {
        members["latest"@]
    } else {
        None
    }
}

/// The view of an optional text.
pub open spec fn text_of(value: Option<String>) -> Option<Seq<char>> {
    match value {
        Some(text) => Some(text@),
        None => None,
    }
}

/// The address of the version check below a base address: the base without
/// the slashes at its end, then the path of the check.
pub fn version_check_url(api_base: &str) -> (url: String)
    ensures
        url@ == version_url(api_base@),
{
    let chars = chars_of(api_base);
    let mut end: usize = chars.len();
    proof {
        assert(chars@.take(end as int) =~= chars@);
    }
    while end > 0 && chars[end - 1] == '/'
        invariant
            end <= chars.len(),
            without_trailing_slashes(chars@) == without_trailing_slashes(
                chars@.take(end as int),
            ),
        decreases end,
    {
        proof {
            assert(chars@.take(end as int).drop_last() =~= chars@.take(end - 1));
        }
        end -= 1;
    }
    let mut kept: Vec<char> = Vec::new();
    let mut i: usize = 0;
    while i < end
        invariant
            i <= end <= chars.len(),
            kept@ == chars@.take(i as int),
        decreases end - i,
    {
        kept.push(chars[i]);
        proof {
            assert(kept@ =~= chars@.take(i + 1));
        }
        i += 1;
    }
    string_of(&kept).concat("/v0/management/latest-version")
}

/// The value of the `Authorization` header for a key.
pub fn bearer(key: &str) -> (header: String)
    ensures
        header@ == "Bearer "@ + key@,
{
    String::from_str("Bearer ").concat(key)
}

/// The value of the first of two headers that is present, each given as it
/// was found: `None` where the answer has no such header, and its text where
/// its value is text. The first header that is present decides, also where
/// its value is no text.
pub fn first_present(preferred: Option<Option<String>>, fallback: Option<Option<String>>) -> (chosen:
    Option<String>)
    ensures
        text_of(chosen) == first_of(preferred, fallback),
{
    match preferred {
        Some(value) => value,
        None => match fallback {
            Some(value) => value,
            None => None,
        },
    }
}

/// The latest version among the three members that may announce it, each
/// given as it was found: `None` where the body has no such member, and the
/// member's text where it is a string. The first member that is present
/// decides, also where it is no string.
pub fn pick_latest(
    dashed: Option<Option<String>>,
    underscored: Option<Option<String>>,
    bare: Option<Option<String>>,
) -> (latest: Option<String>)
    ensures
        latest == match dashed {
            Some(found) => found,
            None => match underscored {
                Some(found) => found,
                None => match bare {
                    Some(found) => found,
                    None => None,
                },
            },
        },
{
    match dashed {
        Some(found) => found,
        None => match underscored {
            Some(found) => found,
            None => match bare {
                Some(found) => found,
                None => None,
            },
        },
    }
}

/// The latest version that a parsed body announces.
fn latest_version_in(body: &serde_json::Value) -> (latest: Option<String>)
    ensures
        text_of(latest) == latest_of(json_members(*body)),
{
    let dashed = json_member(body, "latest-version");
    let underscored = json_member(body, "latest_version");
    let bare = json_member(body, "latest");
    pick_latest(dashed, underscored, bare)
}

/// Reads the answer to a version check. An answer whose status does not
/// report success is refused with that status, and a body that is not JSON
/// with the parser's message. Otherwise the current version is the header
/// `x-cpa-version` or else `x-server-version`, the build date the header
/// `x-cpa-build-date` or else `x-server-build-date`, and the latest version
/// what the body announces. Each header is given as it was found: `None`
/// where the answer has none, and its text where its value is text.
pub fn check_proxy_version(
    status: u16,
    cpa_version: Option<Option<String>>,
    server_version: Option<Option<String>>,
    cpa_build_date: Option<Option<String>>,
    server_build_date: Option<Option<String>>,
    body: &[u8],
) -> (info: Result<ProxyVersionInfo, CommandError>)
    ensures
        if !is_success(status) {
            info matches Err(CommandError::General(text)) && text@ == "API returned status "@
                + decimal_digits(status as nat)
        } else {
            match json_document(body@) {
                None => info matches Err(CommandError::General(text))
                    && "Failed to parse response: "@.is_prefix_of(text@),
                Some(members) => {
                    &&& info matches Ok(found)
                    &&& text_of(found.current_version) == first_of(cpa_version, server_version)
                    &&& text_of(found.build_date) == first_of(cpa_build_date, server_build_date)
                    &&& text_of(found.latest_version) == latest_of(members)
                },
            }
        },
{
    if !(200 <= status && status <= 299) {
        let digits = decimal(status);
        return Err(
            CommandError::General(String::from_str("API returned status ").concat(digits.as_str())),
        );
    }
    let current_version = first_present(cpa_version, server_version);
    let build_date = first_present(cpa_build_date, server_build_date);
    match json_parse(body) {
        Ok(parsed) => {
            let latest_version = latest_version_in(&parsed);
            Ok(ProxyVersionInfo { current_version, build_date, latest_version })
        },
        Err(error) => Err(
            CommandError::General(
                String::from_str("Failed to parse response: ").concat(
                    json_error_text(&error).as_str(),
                ),
            ),
        ),
    }
}

} // verus!
