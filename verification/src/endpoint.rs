//! The Responses API endpoint a client sends to, derived from a configured base URL.
use vstd::prelude::*;

use crate::openai::{OpenAiClientBuildError, OpenAiConfig, OPENAI_BASE_URL, validated_client_model};
use crate::text::{char_count, chars_of, owned, push_char, text_eq};

verus! {

/// A host given as an IP address: the four octets of an IPv4 address, or the eight
/// segments of an IPv6 address.
#[derive(Clone, Copy, Debug, PartialEq, Eq)]
pub enum IpHost {
    V4([u8; 4]),
    V6([u16; 8]),
}

/// The parts of a parsed URL that the endpoint rules read.
#[derive(Clone, Debug, PartialEq, Eq)]
pub struct UrlParts {
    pub scheme: String,
    pub has_host: bool,
    pub username: String,
    pub has_password: bool,
    pub has_query: bool,
    pub has_fragment: bool,
    pub path: String,
    pub serialization: String,
    pub ip_host: Option<IpHost>,
}

/// A parsed URL as plain values: scheme, whether it has a host, user name, whether it has
/// a password, a query and a fragment, path, the whole URL as text, and the host when it
/// is an IP address.
pub type UrlView = (Seq<char>, bool, Seq<char>, bool, bool, bool, Seq<char>, Seq<char>, Option<IpHost>);

/// The plain values of parsed URL parts.
pub open spec fn url_view(parts: Option<UrlParts>) -> Option<UrlView> {
    match parts {
        Some(p) => Some(
            (
                p.scheme@,
                p.has_host,
                p.username@,
                p.has_password,
                p.has_query,
                p.has_fragment,
                p.path@,
                p.serialization@,
                p.ip_host,
            ),
        ),
        None => None,
    }
}

/// The characters of an optional text.
pub open spec fn opt_chars(o: Option<String>) -> Option<Seq<char>> {
    match o {
        Some(s) => Some(s@),
        None => None,
    }
}

/// What `url::Url::parse` makes of a text: none when it is not an absolute URL.
pub uninterp spec fn parsed_url(text: Seq<char>) -> Option<UrlView>;

/// The text of the URL `text` once its path is set to `path` (`url::Url::set_path`); none
/// when `text` does not parse.
pub uninterp spec fn url_with_path_set(text: Seq<char>, path: Seq<char>) -> Option<Seq<char>>;

/// The text of the URL `relative` resolved against the URL `base` (`url::Url::join`); none
/// when either does not parse.
pub uninterp spec fn joined_url(base: Seq<char>, relative: Seq<char>) -> Option<Seq<char>>;

/// Calls `url::Url::parse` and reads the scheme, host, user name, password, query,
/// fragment, path and text of the result, with the address of a host that is an IP
/// address (`Ipv4Addr::octets`, `Ipv6Addr::segments`). The contract claims only that the answer is a
/// function of the text, named [`parsed_url`]; what the URL standard makes of a text is
/// left unsaid.
#[verifier::external_body]
fn parse_url(text: &str) -> (r: Option<UrlParts>)
    ensures
        url_view(r) == parsed_url(text@),
{
    let url = url::Url::parse(text).ok()?;
    let ip_host = match url.host() {
        Some(url::Host::Ipv4(address)) => Some(IpHost::V4(address.octets())),
        Some(url::Host::Ipv6(address)) => Some(IpHost::V6(address.segments())),
        _ => None,
    };
    Some(UrlParts { scheme: url.scheme().to_owned(), has_host: url.host().is_some(),
        username: url.username().to_owned(), has_password: url.password().is_some(),
        has_query: url.query().is_some(), has_fragment: url.fragment().is_some(),
        path: url.path().to_owned(), serialization: url.as_str().to_owned(), ip_host })
}

/// Parses `text` with `url::Url::parse`, sets its path with `url::Url::set_path` and
/// gives the resulting text. The contract claims only that the answer is a function of the
/// two texts, named [`url_with_path_set`].
#[verifier::external_body]
fn set_url_path(text: &str, path: &str) -> (r: Option<String>)
    ensures
        opt_chars(r) == url_with_path_set(text@, path@),
{
    match url::Url::parse(text) {
        Ok(mut url) => {
            url.set_path(path);
            Some(url.as_str().to_owned())
        },
        Err(_) => None,
    }
}

/// Parses `base` with `url::Url::parse` and resolves `relative` against it with
/// `url::Url::join`. The contract claims only that the answer is a function of the two
/// texts, named [`joined_url`].
#[verifier::external_body]
fn join_url(base: &str, relative: &str) -> (r: Option<String>)
    ensures
        opt_chars(r) == joined_url(base@, relative@),
{
    match url::Url::parse(base) {
        Ok(url) => match url.join(relative) {
            Ok(joined) => Some(joined.as_str().to_owned()),
            Err(_) => None,
        },
        Err(_) => None,
    }
}

/// Which base URLs a client accepts.
#[derive(Clone, Copy, Debug, PartialEq, Eq, Structural)]
pub enum EndpointPolicy {
    /// Only the OpenAI API itself.
    Production,
    /// Any HTTPS URL with a host.
    Development,
    /// Plain HTTP to a loopback IP address, for tests against a local server.
    LoopbackTest,
}

/// The path of the Responses API, relative to the base URL.
pub const RESPONSES_PATH: &'static str = "v1/responses";

/// Whether a parsed base URL is one the policy accepts.
pub open spec fn endpoint_allowed(policy: EndpointPolicy, url: UrlView) -> bool {
    match policy {
        EndpointPolicy::Production => url.7 == OPENAI_BASE_URL@,
        EndpointPolicy::Development => url.0 == "https"@ && url.1,
        EndpointPolicy::LoopbackTest => url.0 == "http"@ && (url.8 matches Some(ip) && is_loopback(ip)),
    }
}

/// Whether an IP address is a loopback address: 127.0.0.0/8, or `::1`.
pub open spec fn is_loopback(ip: IpHost) -> bool {
    match ip {
        IpHost::V4(octets) => octets[0] == 127,
        IpHost::V6(segments) => segments[0] == 0 && segments[1] == 0 && segments[2] == 0 && segments[3] == 0
            && segments[4] == 0 && segments[5] == 0 && segments[6] == 0 && segments[7] == 1,
    }
}

/// Whether an IP address is a loopback address.
pub fn ip_is_loopback(ip: IpHost) -> (r: bool)
    ensures
        r == is_loopback(ip),
{
    match ip {
        IpHost::V4(octets) => octets[0] == 127,
        IpHost::V6(segments) => segments[0] == 0 && segments[1] == 0 && segments[2] == 0 && segments[3] == 0
            && segments[4] == 0 && segments[5] == 0 && segments[6] == 0 && segments[7] == 1,
    }
}

/// Whether a parsed base URL carries credentials, a query or a fragment.
pub open spec fn carries_extras(url: UrlView) -> bool {
    url.2.len() > 0 || url.3 || url.4 || url.5
}

/// Whether a path ends with a slash.
pub open spec fn ends_with_slash(path: Seq<char>) -> bool {
    path.len() > 0 && path.last() == '/'
}

/// The endpoint for a base URL: the base must parse, be allowed by the policy and carry no
/// credentials, query or fragment; its path gets a final slash, and the Responses path is
/// resolved against it.
pub open spec fn spec_responses_endpoint(base: Seq<char>, policy: EndpointPolicy) -> Result<
    Seq<char>,
    OpenAiClientBuildError,
> {
    match parsed_url(base) {
        None => Err(OpenAiClientBuildError::InvalidBaseUrl),
        Some(url) => if !endpoint_allowed(policy, url) || carries_extras(url) {
            Err(OpenAiClientBuildError::InvalidBaseUrl)
        } else {
            let directory = if ends_with_slash(url.6) {
                Some(url.7)
            } else {
                url_with_path_set(base, url.6.push('/'))
            };
            match directory {
                None => Err(OpenAiClientBuildError::InvalidBaseUrl),
                Some(d) => match joined_url(d, RESPONSES_PATH@) {
                    None => Err(OpenAiClientBuildError::InvalidBaseUrl),
                    Some(endpoint) => Ok(endpoint),
                },
            }
        },
    }
}

/// The text `s` followed by a slash.
fn with_slash(s: &str) -> (r: String)
    ensures
        r@ == s@.push('/'),
{
    let mut r = owned(s);
    push_char(&mut r, '/');
    r
}

/// Whether a text ends with a slash.
fn text_ends_with_slash(s: &str) -> (r: bool)
    ensures
        r == ends_with_slash(s@),
{
    let v = chars_of(s);
    v.len() > 0 && v[v.len() - 1] == '/'
}

/// The Responses API endpoint for a base URL under a policy.
pub fn responses_endpoint(base_url: &str, policy: EndpointPolicy) -> (r: Result<String, OpenAiClientBuildError>)
    ensures
        match spec_responses_endpoint(base_url@, policy) {
            Ok(endpoint) => r matches Ok(s) && s@ == endpoint,
            Err(e) => r == Err::<String, OpenAiClientBuildError>(e),
        },
{
    let url = match parse_url(base_url) {
        Some(url) => url,
        None => return Err(OpenAiClientBuildError::InvalidBaseUrl),
    };
    let allowed = match policy {
        EndpointPolicy::Production => text_eq(url.serialization.as_str(), OPENAI_BASE_URL),
        EndpointPolicy::Development => text_eq(url.scheme.as_str(), "https") && url.has_host,
        EndpointPolicy::LoopbackTest => text_eq(url.scheme.as_str(), "http") && match url.ip_host {
            Some(ip) => ip_is_loopback(ip),
            None => false,
        },
    };
    let has_user = char_count(url.username.as_str()) > 0;
    if !allowed || has_user || url.has_password || url.has_query || url.has_fragment {
        return Err(OpenAiClientBuildError::InvalidBaseUrl);
    }
    let directory = if text_ends_with_slash(url.path.as_str()) {
        Some(url.serialization)
    } else {
        set_url_path(base_url, with_slash(url.path.as_str()).as_str())
    };
    let directory = match directory {
        Some(d) => d,
        None => return Err(OpenAiClientBuildError::InvalidBaseUrl),
    };
    match join_url(directory.as_str(), RESPONSES_PATH) {
        Some(endpoint) => Ok(endpoint),
        None => Err(OpenAiClientBuildError::InvalidBaseUrl),
    }
}

/// What a client is built from: the endpoint, the trimmed model and the timeouts in
/// milliseconds.
#[derive(Clone, Debug, PartialEq, Eq)]
pub struct ClientSettings {
    pub endpoint: String,
    pub model: String,
    pub connect_timeout_ms: u64,
    pub request_timeout_ms: u64,
}

/// The settings of a client for `base_url` under `policy`: the endpoint is checked first,
/// then the model and the timeouts of `config`.
pub fn client_settings(base_url: &str, policy: EndpointPolicy, config: &OpenAiConfig) -> (r: Result<
    ClientSettings,
    OpenAiClientBuildError,
>)
    ensures
        spec_responses_endpoint(base_url@, policy) matches Err(e) ==> r == Err::<
            ClientSettings,
            OpenAiClientBuildError,
        >(e),
        spec_responses_endpoint(base_url@, policy) matches Ok(endpoint) ==> match r {
            Ok(s) => s.endpoint@ == endpoint && s.connect_timeout_ms == config.spec_connect_timeout()
                && s.request_timeout_ms == config.spec_request_timeout() && s.connect_timeout_ms > 0
                && s.request_timeout_ms > 0 && s.model@ == crate::text::trimmed(config.spec_model())
                && !crate::text::is_blank(config.spec_model()),
            Err(e) => e == OpenAiClientBuildError::EmptyModel && crate::text::is_blank(config.spec_model())
                || e == OpenAiClientBuildError::InvalidTimeout && !crate::text::is_blank(config.spec_model())
                && (config.spec_connect_timeout() == 0 || config.spec_request_timeout() == 0),
        },
{
    let endpoint = match responses_endpoint(base_url, policy) {
        Ok(endpoint) => endpoint,
        Err(e) => return Err(e),
    };
    let model = match validated_client_model(config) {
        Ok(model) => model,
        Err(e) => return Err(e),
    };
    Ok(ClientSettings {
        endpoint,
        model,
        connect_timeout_ms: config.connect_timeout(),
        request_timeout_ms: config.request_timeout(),
    })
}

/// The settings of the production client, which only talks to the OpenAI API.
pub fn production_client_settings(config: &OpenAiConfig) -> (r: Result<ClientSettings, OpenAiClientBuildError>)
    ensures
        spec_responses_endpoint(OPENAI_BASE_URL@, EndpointPolicy::Production) matches Err(e) ==> r == Err::<
            ClientSettings,
            OpenAiClientBuildError,
        >(e),
        r matches Ok(s) ==> spec_responses_endpoint(OPENAI_BASE_URL@, EndpointPolicy::Production) == Ok::<
            Seq<char>,
            OpenAiClientBuildError,
        >(s.endpoint@),
{
    client_settings(OPENAI_BASE_URL, EndpointPolicy::Production, config)
}

} // verus!
