//! The request for the latest release, and what its answer means.

use crate::github::{Release, ReleaseData};
use crate::text::{str_trim, str_without_first, trim, without_first};
use crate::version::{parsed_version, SemanticVersion, VersionData};
use vstd::prelude::*;

verus! {

/// Where the release host tells of the latest release.
pub const RELEASES_URL: &'static str =
    "https://api.github.com/repos/natimerry/repak-rivals/releases/latest";

/// The agent that the request names: the release host turns some others away.
pub const USER_AGENT: &'static str =
    "Mozilla/5.0 (Windows NT 10.0; Win64; x64; rv:136.0) Gecko/20100101 Firefox/136.0";

/// The method of the request.
pub const METHOD: &'static str = "GET";

/// The media type that the request accepts.
pub const ACCEPT: &'static str = "application/vnd.github+json";

/// The version of the release host's interface that the request asks for.
pub const API_VERSION: &'static str = "2022-11-28";

/// What stands for the text of an answer that could not be read.
pub const NO_TEXT: &'static str = "no text could be parsed";

/// One header of a request.
#[derive(Debug)]
pub struct Header {
    pub name: String,
    pub value: String,
}

/// A request, ready to be sent.
#[derive(Debug)]
pub struct ApiRequest {
    pub method: String,
    pub url: String,
    pub headers: Vec<Header>,
    /// The key to send as a bearer credential, where there is one.
    pub bearer: Option<String>,
}

/// The request for the latest release: always a GET of the same address with
/// the same three headers, and with the key as bearer credential where one is
/// given.
pub fn latest_release_request(api_key: Option<String>) -> (r: ApiRequest)
    ensures
        r.method@ == METHOD@,
        r.url@ == RELEASES_URL@,
        r.headers@.len() == 3,
        r.headers@[0].name@ == "Accept"@,
        r.headers@[0].value@ == ACCEPT@,
        r.headers@[1].name@ == "X-GitHub-Api-Version"@,
        r.headers@[1].value@ == API_VERSION@,
        r.headers@[2].name@ == "User-Agent"@,
        r.headers@[2].value@ == USER_AGENT@,
        r.bearer == api_key,
{
    let mut headers: Vec<Header> = Vec::new();
    headers.push(Header { name: "Accept".to_owned(), value: ACCEPT.to_owned() });
    headers.push(Header { name: "X-GitHub-Api-Version".to_owned(), value: API_VERSION.to_owned() });
    headers.push(Header { name: "User-Agent".to_owned(), value: USER_AGENT.to_owned() });
    ApiRequest {
        method: METHOD.to_owned(),
        url: RELEASES_URL.to_owned(),
        headers,
        bearer: api_key,
    }
}

/// What the status of an answer asks for.
#[derive(Clone, Copy, Debug, PartialEq, Eq, Structural)]
pub enum StatusClass {
    /// 200: the body holds the release.
    Release,
    /// 403: the body says why the host refused.
    Forbidden,
    /// Any other status.
    Unhandled,
}

/// Sorts the status of an answer.
pub fn classify_status(status: u16) -> (r: StatusClass)
    ensures
        status == 200 ==> r == StatusClass::Release,
        status == 403 ==> r == StatusClass::Forbidden,
        status != 200 && status != 403 ==> r == StatusClass::Unhandled,
{
    if status == 200 {
        StatusClass::Release
    } else if status == 403 {
        StatusClass::Forbidden
    } else {
        StatusClass::Unhandled
    }
}

/// Why no release could be had from the release host.
#[derive(Debug)]
pub enum RemoteError {
    /// The host answered 403; `text` is what it said, trimmed.
    Forbidden { text: String },
    /// The host answered with a status that is neither 200 nor 403.
    UnhandledStatus { status: u16 },
    /// The request could not be sent, or the answer could not be read.
    Transport { message: String },
}

/// The text that a refusal carries: the body trimmed, or a fixed text where
/// the body could not be read.
pub open spec fn refusal_text(body: Option<Seq<char>>) -> Seq<char> {
    match body {
        Some(text) => trim(text),
        None => NO_TEXT@,
    }
}

/// The error for an answer of status 403 with the given body.
pub fn forbidden(body: Option<&str>) -> (r: RemoteError)
    ensures
        r matches RemoteError::Forbidden { text } && text@ == refusal_text(
            match body {
                Some(b) => Some(b@),
                None => None,
            },
        ),
{
    match body {
        Some(b) => RemoteError::Forbidden { text: str_trim(b).to_owned() },
        None => RemoteError::Forbidden { text: NO_TEXT.to_owned() },
    }
}

/// The error for an answer of a status that is neither 200 nor 403; for one
/// of those two, nothing.
pub fn status_error(status: u16) -> (r: Option<RemoteError>)
    ensures
        status == 200 || status == 403 <==> r is None,
        r matches Some(e) ==> e == (RemoteError::UnhandledStatus { status }),
{
    match classify_status(status) {
        StatusClass::Unhandled => Some(RemoteError::UnhandledStatus { status }),
        _ => None,
    }
}

/// Picks between the version read from a release's tag and the one read from
/// its name: the tag's where there is one.
pub open spec fn preferred<T>(from_tag: Option<T>, from_name: Option<T>) -> Option<T> {
    match from_tag {
        Some(v) => Some(v),
        None => from_name,
    }
}

/// The version of a release: read from the tag without its first character,
/// or else from the name.
pub open spec fn remote_version_of(release: ReleaseData) -> Option<VersionData> {
    preferred(parsed_version(without_first(release.tag_name)), parsed_version(release.name))
}

/// Picks between the outcome of reading a release's tag and that of reading
/// its name: the tag's version where there is one, and else whatever the name
/// gave.
pub fn prefer_tag(
    from_tag: Result<SemanticVersion, semver::Error>,
    from_name: Result<SemanticVersion, semver::Error>,
) -> (r: Result<SemanticVersion, semver::Error>)
    ensures
        r == (match from_tag {
            Ok(v) => Ok(v),
            Err(_) => from_name,
        }),
{
    match from_tag {
        Ok(v) => Ok(v),
        Err(_) => from_name,
    }
}

/// Parse a [`Release`] to get its version: from the tag, whose first
/// character marks it as a version and is skipped, or else from the name.
/// The error is that of reading the name.
pub fn get_remote_version(release: &Release) -> (r: Result<SemanticVersion, semver::Error>)
    ensures
        match r {
            Ok(v) => remote_version_of(release@) == Some(v@),
            Err(_) => remote_version_of(release@) is None,
        },
{
    let from_tag = SemanticVersion::parse(str_without_first(release.tag_name.as_str()));
    let from_name = SemanticVersion::parse(release.name.as_str());
    prefer_tag(from_tag, from_name)
}

} // verus!
