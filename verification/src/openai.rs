//! The rules of the OpenAI proofreading adapter: its configuration, the checks made before
//! a request leaves the machine, how transport and HTTP failures are reported, and how a
//! Responses API reply becomes a proofreading answer.
//!
//! The JSON is parsed by the platform layer into the plain types of this module
//! ([`ResponseEnvelope`], [`ProofreadingPayload`], [`ConnectionTestPayload`]); everything
//! decided on them is here.
use vstd::prelude::*;

use crate::cancellation::CancellationToken;
use crate::capture::opt_text;
use crate::proofreading::{
    MAX_PROOFREADING_EXPLANATION_CHARACTERS, ProofreaderError, ProofreaderResponse, ProofreadingCorrection,
    ProofreadingPolicy, ProofreadingRequest, ProofreadingScope,
};
use crate::text::{char_count, chars_of, is_blank, owned, push_char, text_eq, text_is_blank, trimmed, trimmed_string};

verus! {

/// The only base URL production requests go to.
pub const OPENAI_BASE_URL: &'static str = "https://api.openai.com/";

/// The model proofreading uses.
pub const DEFAULT_MODEL: &'static str = "gpt-5.6-luna";

/// How long establishing a connection may take, in milliseconds.
pub const OPENAI_CONNECT_TIMEOUT_MS: u64 = 10_000;

/// How long a whole request may take, in seconds.
pub const OPENAI_REQUEST_TIMEOUT_SECONDS: u64 = 120;

/// The version of the proofreading request policy.
pub const PROOFREADING_REQUEST_POLICY_VERSION: &'static str = "verba-proofreading-2026-07-16-v3";

/// The most tokens a proofreading answer may use.
pub const PROOFREADING_MAX_OUTPUT_TOKENS: u32 = 16_384;

/// The most tokens a connection test answer may use.
pub const CONNECTION_TEST_MAX_OUTPUT_TOKENS: u32 = 256;

/// The largest successful response body accepted, in bytes.
pub const MAX_SUCCESS_RESPONSE_BYTES: usize = 524_288;

/// The largest error response body accepted, in bytes.
pub const MAX_ERROR_RESPONSE_BYTES: usize = 65_536;

/// How much reasoning a request asks of the model.
#[derive(Clone, Copy, Debug, PartialEq, Eq, Structural)]
pub enum ReasoningEffort {
    NoReasoning,
    Low,
    Medium,
    High,
    Xhigh,
    Max,
}

/// The reasoning effort of proofreading requests.
pub const PROOFREADING_REASONING_EFFORT: ReasoningEffort = ReasoningEffort::Medium;

/// The reasoning effort of connection tests.
pub const CONNECTION_TEST_REASONING_EFFORT: ReasoningEffort = ReasoningEffort::Low;

impl ReasoningEffort {
    /// The name of the effort in the API.
    pub open spec fn spec_name(self) -> Seq<char> {
        match self {
            ReasoningEffort::NoReasoning => "none"@,
            ReasoningEffort::Low => "low"@,
            ReasoningEffort::Medium => "medium"@,
            ReasoningEffort::High => "high"@,
            ReasoningEffort::Xhigh => "xhigh"@,
            ReasoningEffort::Max => "max"@,
        }
    }

    /// The name of the effort in the API.
    pub fn as_str(self) -> (r: &'static str)
        ensures
            r@ == self.spec_name(),
    {
        match self {
            ReasoningEffort::NoReasoning => "none",
            ReasoningEffort::Low => "low",
            ReasoningEffort::Medium => "medium",
            ReasoningEffort::High => "high",
            ReasoningEffort::Xhigh => "xhigh",
            ReasoningEffort::Max => "max",
        }
    }
}

/// Where the client sends requests, with which model, and how long it waits.
#[derive(Clone, Debug, PartialEq, Eq)]
pub struct OpenAiConfig {
    base_url: String,
    model: String,
    connect_timeout_ms: u64,
    request_timeout_ms: u64,
}

impl OpenAiConfig {
    pub closed spec fn spec_base_url(&self) -> Seq<char> {
        self.base_url@
    }

    pub closed spec fn spec_model(&self) -> Seq<char> {
        self.model@
    }

    pub closed spec fn spec_connect_timeout(&self) -> u64 {
        self.connect_timeout_ms
    }

    pub closed spec fn spec_request_timeout(&self) -> u64 {
        self.request_timeout_ms
    }

    /// A configuration with the default timeouts.
    pub fn new(base_url: &str, model: &str) -> (r: Self)
        ensures
            r.spec_base_url() == base_url@,
            r.spec_model() == model@,
            r.spec_connect_timeout() == OPENAI_CONNECT_TIMEOUT_MS,
            r.spec_request_timeout() == OPENAI_REQUEST_TIMEOUT_SECONDS * 1000,
    {
        OpenAiConfig {
            base_url: owned(base_url),
            model: owned(model),
            connect_timeout_ms: OPENAI_CONNECT_TIMEOUT_MS,
            request_timeout_ms: OPENAI_REQUEST_TIMEOUT_SECONDS * 1000,
        }
    }

    /// The same configuration with other timeouts, in milliseconds.
    pub fn with_timeouts(self, connect_timeout_ms: u64, request_timeout_ms: u64) -> (r: Self)
        ensures
            r.spec_base_url() == self.spec_base_url(),
            r.spec_model() == self.spec_model(),
            r.spec_connect_timeout() == connect_timeout_ms,
            r.spec_request_timeout() == request_timeout_ms,
    {
        OpenAiConfig { base_url: self.base_url, model: self.model, connect_timeout_ms, request_timeout_ms }
    }

    pub fn base_url(&self) -> (r: &str)
        ensures
            r@ == self.spec_base_url(),
    {
        self.base_url.as_str()
    }

    pub fn model(&self) -> (r: &str)
        ensures
            r@ == self.spec_model(),
    {
        self.model.as_str()
    }

    /// How long establishing a connection may take, in milliseconds.
    pub fn connect_timeout(&self) -> (r: u64)
        ensures
            r == self.spec_connect_timeout(),
    {
        self.connect_timeout_ms
    }

    /// How long a whole request may take, in milliseconds.
    pub fn request_timeout(&self) -> (r: u64)
        ensures
            r == self.spec_request_timeout(),
    {
        self.request_timeout_ms
    }
}

impl Default for OpenAiConfig {
    /// The production configuration.
    fn default() -> (r: Self)
        ensures
            r.spec_base_url() == OPENAI_BASE_URL@,
            r.spec_model() == DEFAULT_MODEL@,
            r.spec_connect_timeout() == OPENAI_CONNECT_TIMEOUT_MS,
            r.spec_request_timeout() == OPENAI_REQUEST_TIMEOUT_SECONDS * 1000,
    {
        OpenAiConfig::new(OPENAI_BASE_URL, DEFAULT_MODEL)
    }
}

/// Why a client could not be built.
#[derive(Clone, Copy, Debug, PartialEq, Eq, Structural)]
pub enum OpenAiClientBuildError {
    InvalidBaseUrl,
    EmptyModel,
    InvalidTimeout,
    Transport,
}

/// The model a client sends, trimmed; a blank model or a zero timeout is refused.
pub fn validated_client_model(config: &OpenAiConfig) -> (r: Result<String, OpenAiClientBuildError>)
    ensures
        is_blank(config.spec_model()) ==> r == Err::<String, OpenAiClientBuildError>(
            OpenAiClientBuildError::EmptyModel,
        ),
        !is_blank(config.spec_model()) && (config.spec_connect_timeout() == 0 || config.spec_request_timeout()
            == 0) ==> r == Err::<String, OpenAiClientBuildError>(OpenAiClientBuildError::InvalidTimeout),
        !is_blank(config.spec_model()) && config.spec_connect_timeout() != 0 && config.spec_request_timeout()
            != 0 ==> (r matches Ok(m) && m@ == trimmed(config.spec_model())),
{
    if text_is_blank(config.model()) {
        return Err(OpenAiClientBuildError::EmptyModel);
    }
    if config.connect_timeout() == 0 || config.request_timeout() == 0 {
        return Err(OpenAiClientBuildError::InvalidTimeout);
    }
    Ok(trimmed_string(config.model()))
}

/// Why the transport could not deliver a response.
#[derive(Clone, Copy, Debug, PartialEq, Eq, Structural)]
pub enum TransportError {
    Offline,
    TimedOut,
    ResponseTooLarge,
    Failed,
}

/// The proofreader error for a transport failure.
pub open spec fn spec_transport_failure(error: TransportError) -> ProofreaderError {
    match error {
        TransportError::Offline => ProofreaderError::Offline,
        TransportError::TimedOut => ProofreaderError::TimedOut,
        TransportError::ResponseTooLarge => ProofreaderError::ResponseTooLarge,
        TransportError::Failed => ProofreaderError::Failed,
    }
}

/// The proofreader error for a transport failure.
pub fn map_transport_error(error: TransportError) -> (r: ProofreaderError)
    ensures
        r == spec_transport_failure(error),
{
    match error {
        TransportError::Offline => ProofreaderError::Offline,
        TransportError::TimedOut => ProofreaderError::TimedOut,
        TransportError::ResponseTooLarge => ProofreaderError::ResponseTooLarge,
        TransportError::Failed => ProofreaderError::Failed,
    }
}

/// Whether an HTTP status is a success.
pub open spec fn spec_is_success_status(status: u16) -> bool {
    200 <= status < 300
}

/// Whether an HTTP status is a success.
pub fn is_success_status(status: u16) -> (r: bool)
    ensures
        r == spec_is_success_status(status),
{
    200 <= status && status < 300
}

/// The proofreader error for an unsuccessful HTTP status; `quota_exhausted` says whether
/// the error body names the `insufficient_quota` code.
pub open spec fn spec_http_failure(status: u16, quota_exhausted: bool) -> ProofreaderError {
    if status == 401 || status == 403 {
        ProofreaderError::Authentication
    } else if status == 408 {
        ProofreaderError::TimedOut
    } else if status == 429 {
        if quota_exhausted {
            ProofreaderError::QuotaExceeded
        } else {
            ProofreaderError::RateLimited
        }
    } else if 500 <= status <= 599 {
        ProofreaderError::ServiceUnavailable
    } else {
        ProofreaderError::Failed
    }
}

/// The proofreader error for an unsuccessful HTTP status.
pub fn map_http_error(status: u16, quota_exhausted: bool) -> (r: ProofreaderError)
    ensures
        r == spec_http_failure(status, quota_exhausted),
{
    if status == 401 || status == 403 {
        ProofreaderError::Authentication
    } else if status == 408 {
        ProofreaderError::TimedOut
    } else if status == 429 {
        if quota_exhausted {
            ProofreaderError::QuotaExceeded
        } else {
            ProofreaderError::RateLimited
        }
    } else if 500 <= status && status <= 599 {
        ProofreaderError::ServiceUnavailable
    } else {
        ProofreaderError::Failed
    }
}

/// Whether an error code names an exhausted quota.
pub fn is_quota_code(code: &str) -> (r: bool)
    ensures
        r == (code@ == "insufficient_quota"@),
{
    text_eq(code, "insufficient_quota")
}

/// Where an error body names its code.
pub const ERROR_CODE_POINTER: &'static str = "/error/code";

/// The string at a JSON pointer of a body, when the body is JSON and a string is there.
pub uninterp spec fn json_string_at(body: Seq<u8>, pointer: Seq<char>) -> Option<Seq<char>>;

/// Parses `body` with `serde_json::from_slice` into a `serde_json::Value` and reads the
/// string at `pointer` with `Value::pointer` and `Value::as_str`. The contract claims only
/// that the answer is a function of the bytes and the pointer, named [`json_string_at`];
/// the JSON grammar is left unsaid.
#[verifier::external_body]
fn json_string(body: &[u8], pointer: &str) -> (r: Option<String>)
    ensures
        opt_text(r) == json_string_at(body@, pointer@),
{
    match serde_json::from_slice::<serde_json::Value>(body) {
        Ok(value) => match value.pointer(pointer) {
            Some(found) => match found.as_str() {
                Some(text) => Some(text.to_owned()),
                None => None,
            },
            None => None,
        },
        Err(_) => None,
    }
}

/// Whether an error body names the `insufficient_quota` code.
pub open spec fn names_exhausted_quota(body: Seq<u8>) -> bool {
    json_string_at(body, ERROR_CODE_POINTER@) == Some("insufficient_quota"@)
}

/// The proofreader error for an unsuccessful response with `status` and error `body`.
pub fn http_error(status: u16, body: &[u8]) -> (r: ProofreaderError)
    ensures
        r == spec_http_failure(status, names_exhausted_quota(body@)),
{
    let quota_exhausted = if status == 429 {
        match json_string(body, ERROR_CODE_POINTER) {
            Some(code) => is_quota_code(code.as_str()),
            None => false,
        }
    } else {
        false
    };
    map_http_error(status, quota_exhausted)
}

/// The largest body accepted for a response with `status`.
pub open spec fn spec_response_limit(status: u16) -> usize {
    if spec_is_success_status(status) {
        MAX_SUCCESS_RESPONSE_BYTES
    } else {
        MAX_ERROR_RESPONSE_BYTES
    }
}

/// The largest body accepted for a response with `status`.
pub fn response_limit(status: u16) -> (r: usize)
    ensures
        r == spec_response_limit(status),
{
    if is_success_status(status) {
        MAX_SUCCESS_RESPONSE_BYTES
    } else {
        MAX_ERROR_RESPONSE_BYTES
    }
}

/// Whether a chunk of `chunk` bytes may join `received` bytes without passing `maximum`.
pub fn chunk_fits(received: usize, chunk: usize, maximum: usize) -> (r: bool)
    ensures
        r == (received + chunk <= maximum),
{
    if received > maximum {
        false
    } else {
        chunk <= maximum - received
    }
}

/// The authorization header for a request: cancelled requests and blank keys never leave.
pub fn request_authorization(cancelled: bool, api_key: &str) -> (r: Result<String, ProofreaderError>)
    ensures
        cancelled ==> r == Err::<String, ProofreaderError>(ProofreaderError::Cancelled),
        !cancelled && is_blank(api_key@) ==> r == Err::<String, ProofreaderError>(ProofreaderError::Authentication),
        !cancelled && !is_blank(api_key@) ==> (r matches Ok(h) && h@ == "Bearer "@ + trimmed(api_key@)),
{
    if cancelled {
        return Err(ProofreaderError::Cancelled);
    }
    if text_is_blank(api_key) {
        return Err(ProofreaderError::Authentication);
    }
    let key = trimmed_string(api_key);
    let key_chars = chars_of(key.as_str());
    let mut header = owned("Bearer ");
    let ghost prefix = header@;
    let mut i: usize = 0;
    while i < key_chars.len()
        invariant
            i <= key_chars.len(),
            header@ == prefix + key_chars@.take(i as int),
        decreases key_chars.len() - i,
    {
        push_char(&mut header, key_chars[i]);
        proof {
            assert(prefix + key_chars@.take(i + 1) =~= (prefix + key_chars@.take(i as int)).push(key_chars@[i as int]));
        }
        i = i + 1;
    }
    proof {
        assert(key_chars@.take(key_chars@.len() as int) =~= key_chars@);
    }
    Ok(header)
}

/// Whether a policy is the strict one the adapter enforces.
pub open spec fn is_enforced_policy(policy: ProofreadingPolicy) -> bool {
    &&& policy.spec_scope() == ProofreadingScope::SpellingAndGrammarOnly
    &&& policy.spec_flags() == (true, true, true, true)
}

/// Refuses any policy but the strict one.
pub fn validate_policy(policy: ProofreadingPolicy) -> (r: Result<(), ProofreaderError>)
    ensures
        is_enforced_policy(policy) ==> r is Ok,
        !is_enforced_policy(policy) ==> r == Err::<(), ProofreaderError>(ProofreaderError::Failed),
{
    match policy.scope() {
        ProofreadingScope::SpellingAndGrammarOnly => {},
    }
    if !policy.preserves_language() || !policy.preserves_tone() || !policy.preserves_whitespace()
        || !policy.preserves_formatting() {
        return Err(ProofreaderError::Failed);
    }
    Ok(())
}

/// Why no API key could be loaded.
#[derive(Clone, Copy, Debug, PartialEq, Eq, Structural)]
pub enum ApiKeyProviderError {
    Missing,
    Unavailable,
}

/// The characters of a loaded key.
pub open spec fn key_view(loaded: Result<String, ApiKeyProviderError>) -> Result<Seq<char>, ApiKeyProviderError> {
    match loaded {
        Ok(k) => Ok(k@),
        Err(e) => Err(e),
    }
}

/// Loads the API key for each request.
pub trait ApiKeyProvider {
    /// Whether `answer` may be what loading the key gives. A provider that does not say
    /// otherwise may give any answer.
    open spec fn loads(&self, answer: Result<Seq<char>, ApiKeyProviderError>) -> bool {
        true
    }

    fn load_api_key(&self) -> (r: Result<String, ApiKeyProviderError>)
        ensures
            self.loads(key_view(r)),
    ;
}

/// The proofreader error for a key that could not be loaded.
pub open spec fn spec_api_key_failure(error: ApiKeyProviderError) -> ProofreaderError {
    match error {
        ApiKeyProviderError::Missing => ProofreaderError::MissingCredential,
        ApiKeyProviderError::Unavailable => ProofreaderError::Failed,
    }
}

/// The proofreader error for a key that could not be loaded.
pub fn api_key_failure(error: ApiKeyProviderError) -> (r: ProofreaderError)
    ensures
        r == spec_api_key_failure(error),
{
    match error {
        ApiKeyProviderError::Missing => ProofreaderError::MissingCredential,
        ApiKeyProviderError::Unavailable => ProofreaderError::Failed,
    }
}

/// Everything checked before a proofreading request goes out: not cancelled, the strict
/// policy, and a key from `provider` (loaded for this request only); the request is
/// cancelled again if the cancellation came while the key was loaded.
pub fn proofreading_api_key<K: ApiKeyProvider + ?Sized>(
    request: &ProofreadingRequest,
    provider: &K,
    cancellation: &CancellationToken,
) -> (r: Result<String, ProofreaderError>)
    ensures
        !is_enforced_policy(request.spec_policy()) ==> r == Err::<String, ProofreaderError>(
            ProofreaderError::Cancelled,
        ) || r == Err::<String, ProofreaderError>(ProofreaderError::Failed),
        r matches Err(e) ==> e == ProofreaderError::Cancelled || e == ProofreaderError::Failed || e
            == ProofreaderError::MissingCredential,
        r matches Ok(key) ==> is_enforced_policy(request.spec_policy()) && provider.loads(Ok(key@)),
        r matches Err(e) ==> e == ProofreaderError::Cancelled || (e == ProofreaderError::Failed
            && !is_enforced_policy(request.spec_policy())) || exists|failure: ApiKeyProviderError|
            #[trigger] provider.loads(Err(failure)) && e == spec_api_key_failure(failure),
{
    if cancellation.is_cancelled() {
        return Err(ProofreaderError::Cancelled);
    }
    match validate_policy(request.policy()) {
        Ok(()) => {},
        Err(e) => return Err(e),
    }
    let answer = provider.load_api_key();
    let key = match answer {
        Ok(key) => key,
        Err(e) => {
            assert(provider.loads(Err(e)));
            return Err(api_key_failure(e));
        },
    };
    assert(provider.loads(Ok(key@)));
    if cancellation.is_cancelled() {
        return Err(ProofreaderError::Cancelled);
    }
    Ok(key)
}

/// The status of a Responses API reply.
#[derive(Clone, Copy, Debug, PartialEq, Eq, Structural)]
pub enum ResponseStatus {
    Completed,
    Incomplete,
    Queued,
    InProgress,
    Failed,
    Cancelled,
    Unknown,
}

/// One piece of content in a message.
#[derive(Clone, Debug, PartialEq, Eq)]
pub enum OutputContent {
    OutputText { text: String },
    Refusal,
    Other,
}

/// One item of a reply's output.
#[derive(Clone, Debug, PartialEq, Eq)]
pub enum OutputItem {
    Message { content: Vec<OutputContent> },
    Other,
}

/// A Responses API reply, as far as the adapter reads it.
#[derive(Clone, Debug, PartialEq, Eq)]
pub struct ResponseEnvelope {
    pub status: ResponseStatus,
    pub output: Vec<OutputItem>,
}

/// The failure a status stands for, if it is not completed.
pub open spec fn spec_status_failure(status: ResponseStatus) -> Option<ProofreaderError> {
    match status {
        ResponseStatus::Completed => None,
        ResponseStatus::Incomplete | ResponseStatus::Queued | ResponseStatus::InProgress => Some(
            ProofreaderError::Incomplete,
        ),
        ResponseStatus::Cancelled => Some(ProofreaderError::Cancelled),
        ResponseStatus::Failed | ResponseStatus::Unknown => Some(ProofreaderError::Failed),
    }
}

/// The failure a status stands for, if it is not completed.
pub fn status_failure(status: ResponseStatus) -> (r: Option<ProofreaderError>)
    ensures
        r == spec_status_failure(status),
{
    match status {
        ResponseStatus::Completed => None,
        ResponseStatus::Incomplete => Some(ProofreaderError::Incomplete),
        ResponseStatus::Queued => Some(ProofreaderError::Incomplete),
        ResponseStatus::InProgress => Some(ProofreaderError::Incomplete),
        ResponseStatus::Cancelled => Some(ProofreaderError::Cancelled),
        ResponseStatus::Failed => Some(ProofreaderError::Failed),
        ResponseStatus::Unknown => Some(ProofreaderError::Failed),
    }
}

/// The contents of the messages of an output, in order.
pub open spec fn message_contents(items: Seq<OutputItem>) -> Seq<OutputContent>
    decreases items.len(),
{
    if items.len() == 0 {
        Seq::empty()
    } else {
        message_contents(items.drop_last()) + match items.last() {
            OutputItem::Message { content } => content@,
            OutputItem::Other => Seq::empty(),
        }
    }
}

/// Reading one more piece of content: a refusal ends the reading, a second text is
/// malformed, anything else is skipped.
pub open spec fn text_scan_step(state: Result<Option<Seq<char>>, ProofreaderError>, content: OutputContent) -> Result<
    Option<Seq<char>>,
    ProofreaderError,
> {
    match state {
        Err(e) => Err(e),
        Ok(found) => match content {
            OutputContent::Refusal => Err(ProofreaderError::Refused),
            OutputContent::OutputText { text } => if found is Some {
                Err(ProofreaderError::MalformedResponse)
            } else {
                Ok(Some(text@))
            },
            OutputContent::Other => Ok(found),
        },
    }
}

/// The reading of a list of contents, from the first.
pub open spec fn text_scan(contents: Seq<OutputContent>) -> Result<Option<Seq<char>>, ProofreaderError>
    decreases contents.len(),
{
    if contents.len() == 0 {
        Ok(None)
    } else {
        text_scan_step(text_scan(contents.drop_last()), contents.last())
    }
}

/// The one output text of a reply: the status must be completed, the messages must hold
/// exactly one text and no refusal (the first offending content decides the error).
pub open spec fn spec_envelope_text(envelope: ResponseEnvelope) -> Result<Seq<char>, ProofreaderError> {
    match spec_status_failure(envelope.status) {
        Some(e) => Err(e),
        None => match text_scan(message_contents(envelope.output@)) {
            Err(e) => Err(e),
            Ok(None) => Err(ProofreaderError::MalformedResponse),
            Ok(Some(text)) => Ok(text),
        },
    }
}

/// The one output text of a reply.
pub fn envelope_output_text(envelope: &ResponseEnvelope) -> (r: Result<String, ProofreaderError>)
    ensures
        match spec_envelope_text(*envelope) {
            Ok(text) => r matches Ok(s) && s@ == text,
            Err(e) => r == Err::<String, ProofreaderError>(e),
        },
{
    match status_failure(envelope.status) {
        Some(e) => return Err(e),
        None => {},
    }
    let ghost items = envelope.output@;
    let mut found: Option<String> = None;
    let mut i: usize = 0;
    while i < envelope.output.len()
        invariant
            i <= envelope.output.len(),
            items == envelope.output@,
            spec_status_failure(envelope.status) is None,
            text_scan(message_contents(items.take(i as int))) == Ok::<Option<Seq<char>>, ProofreaderError>(
                match found {
                    Some(s) => Some(s@),
                    None => None,
                },
            ),
        decreases envelope.output.len() - i,
    {
        proof {
            assert(items.take(i + 1).drop_last() =~= items.take(i as int));
        }
        match &envelope.output[i] {
            OutputItem::Message { content } => {
                let ghost before = message_contents(items.take(i as int));
                proof {
                    assert(items.take(i + 1).last() == items[i as int]);
                    assert(message_contents(items.take(i + 1)) == before + content@);
                }
                let mut j: usize = 0;
                while j < content.len()
                    invariant
                        j <= content.len(),
                        i < items.len(),
                        items == envelope.output@,
                        spec_status_failure(envelope.status) is None,
                        before == message_contents(items.take(i as int)),
                        message_contents(items.take(i + 1)) == before + content@,
                        text_scan(before + content@.take(j as int)) == Ok::<Option<Seq<char>>, ProofreaderError>(
                            match found {
                                Some(s) => Some(s@),
                                None => None,
                            },
                        ),
                    decreases content.len() - j,
                {
                    proof {
                        assert((before + content@.take(j + 1)).drop_last() =~= before + content@.take(j as int));
                        assert((before + content@.take(j + 1)).last() == content@[j as int]);
                    }
                    match &content[j] {
                        OutputContent::Refusal => {
                            proof {
                                lemma_scan_error_absorbs(before + content@.take(j + 1), content@.skip(j + 1), ProofreaderError::Refused);
                                assert(before + content@.take(j + 1) + content@.skip(j + 1) =~= before + content@);
                                lemma_scan_error_absorbs(message_contents(items.take(i + 1)), message_contents(items.skip(i + 1)), ProofreaderError::Refused);
                                lemma_message_contents_split(items, i + 1);
                            }
                            return Err(ProofreaderError::Refused);
                        },
                        OutputContent::OutputText { text } => {
                            if found.is_some() {
                                proof {
                                    lemma_scan_error_absorbs(before + content@.take(j + 1), content@.skip(j + 1), ProofreaderError::MalformedResponse);
                                    assert(before + content@.take(j + 1) + content@.skip(j + 1) =~= before + content@);
                                    lemma_scan_error_absorbs(message_contents(items.take(i + 1)), message_contents(items.skip(i + 1)), ProofreaderError::MalformedResponse);
                                    lemma_message_contents_split(items, i + 1);
                                }
                                return Err(ProofreaderError::MalformedResponse);
                            }
                            found = Some(text.clone());
                        },
                        OutputContent::Other => {},
                    }
                    j = j + 1;
                }
                proof {
                    assert(content@.take(content@.len() as int) =~= content@);
                }
            },
            OutputItem::Other => {
                proof {
                    assert(message_contents(items.take(i + 1)) =~= message_contents(items.take(i as int)));
                }
            },
        }
        i = i + 1;
    }
    proof {
        assert(items.take(items.len() as int) =~= items);
    }
    match found {
        Some(text) => Ok(text),
        None => Err(ProofreaderError::MalformedResponse),
    }
}

/// Once the reading failed, more content does not change the error.
proof fn lemma_scan_error_absorbs(a: Seq<OutputContent>, b: Seq<OutputContent>, e: ProofreaderError)
    requires
        text_scan(a) == Err::<Option<Seq<char>>, ProofreaderError>(e),
    ensures
        text_scan(a + b) == Err::<Option<Seq<char>>, ProofreaderError>(e),
    decreases b.len(),
{
    if b.len() > 0 {
        lemma_scan_error_absorbs(a, b.drop_last(), e);
        assert((a + b).drop_last() =~= a + b.drop_last());
    } else {
        assert(a + b =~= a);
    }
}

/// The contents of all items are those of a prefix followed by those of the rest.
proof fn lemma_message_contents_split(items: Seq<OutputItem>, n: int)
    requires
        0 <= n <= items.len(),
    ensures
        message_contents(items) == message_contents(items.take(n)) + message_contents(items.skip(n)),
    decreases items.len() - n,
{
    if n == items.len() {
        assert(items.take(n) =~= items);
        assert(items.skip(n) =~= Seq::<OutputItem>::empty());
        assert(message_contents(items.skip(n)) =~= Seq::<OutputContent>::empty());
        assert(message_contents(items) + Seq::<OutputContent>::empty() =~= message_contents(items));
    } else {
        lemma_message_contents_split(items, n + 1);
        assert(items.take(n + 1).drop_last() =~= items.take(n));
        lemma_message_contents_prepend(items.skip(n));
        assert(items.skip(n).drop_first() =~= items.skip(n + 1));
        assert(items.take(n + 1).last() == items.skip(n).first());
    }
}

/// The contents of a list of items are those of its first item followed by those of the
/// rest.
proof fn lemma_message_contents_prepend(items: Seq<OutputItem>)
    requires
        items.len() > 0,
    ensures
        message_contents(items) == (match items.first() {
            OutputItem::Message { content } => content@,
            OutputItem::Other => Seq::<OutputContent>::empty(),
        }) + message_contents(items.drop_first()),
    decreases items.len(),
{
    if items.len() == 1 {
        assert(items.drop_last() =~= Seq::<OutputItem>::empty());
        assert(items.drop_first() =~= Seq::<OutputItem>::empty());
        assert(message_contents(items.drop_last()) =~= Seq::<OutputContent>::empty());
        assert(message_contents(items.drop_first()) =~= Seq::<OutputContent>::empty());
        let first = match items.first() {
            OutputItem::Message { content } => content@,
            OutputItem::Other => Seq::<OutputContent>::empty(),
        };
        assert(Seq::<OutputContent>::empty() + first =~= first);
        assert(first + Seq::<OutputContent>::empty() =~= first);
    } else {
        lemma_message_contents_prepend(items.drop_last());
        assert(items.drop_last().drop_first() =~= items.drop_first().drop_last());
        assert(items.drop_last().first() == items.first());
        assert(items.drop_first().last() == items.last());
        let first = match items.first() {
            OutputItem::Message { content } => content@,
            OutputItem::Other => Seq::<OutputContent>::empty(),
        };
        let last = match items.last() {
            OutputItem::Message { content } => content@,
            OutputItem::Other => Seq::<OutputContent>::empty(),
        };
        assert(first + message_contents(items.drop_first().drop_last()) + last =~= first + (message_contents(
            items.drop_first().drop_last(),
        ) + last));
    }
}

/// What the model decided about the text.
#[derive(Clone, Copy, Debug, PartialEq, Eq, Structural)]
pub enum ProofreadingOutcome {
    NoIssues,
    Corrected,
}

/// The structured answer of a proofreading request.
#[derive(Clone, Debug, PartialEq, Eq)]
pub struct ProofreadingPayload {
    pub outcome: ProofreadingOutcome,
    pub corrected_text: Option<String>,
    pub explanation: Option<String>,
}

/// Whether a correction of `original` is acceptable: a changed, non-blank text with a
/// non-blank explanation of at most the allowed length.
pub open spec fn is_acceptable_correction(original: Seq<char>, corrected: Seq<char>, explanation: Seq<char>) -> bool {
    &&& !is_blank(corrected)
    &&& corrected != original
    &&& !is_blank(explanation)
    &&& explanation.len() <= MAX_PROOFREADING_EXPLANATION_CHARACTERS
}

/// The proofreader's answer in a structured payload: no issues comes without text or
/// explanation, a correction with both; anything else is malformed.
pub fn decode_proofreading_payload(payload: ProofreadingPayload, original_text: &str) -> (r: Result<
    ProofreaderResponse,
    ProofreaderError,
>)
    ensures
        match (payload.outcome, payload.corrected_text, payload.explanation) {
            (ProofreadingOutcome::NoIssues, None, None) => r == Ok::<ProofreaderResponse, ProofreaderError>(
                ProofreaderResponse::NoIssues,
            ),
            (ProofreadingOutcome::Corrected, Some(c), Some(e)) => if is_acceptable_correction(
                original_text@,
                c@,
                e@,
            ) {
                r matches Ok(ProofreaderResponse::Corrected(k)) && k.spec_corrected() == c@ && k.spec_explanation()
                    == e@
            } else {
                r == Err::<ProofreaderResponse, ProofreaderError>(ProofreaderError::MalformedResponse)
            },
            _ => r == Err::<ProofreaderResponse, ProofreaderError>(ProofreaderError::MalformedResponse),
        },
{
    match (payload.outcome, payload.corrected_text, payload.explanation) {
        (ProofreadingOutcome::NoIssues, None, None) => Ok(ProofreaderResponse::NoIssues),
        (ProofreadingOutcome::Corrected, Some(corrected), Some(explanation)) => {
            if !text_is_blank(corrected.as_str()) && !text_eq(corrected.as_str(), original_text) && !text_is_blank(
                explanation.as_str(),
            ) && char_count(explanation.as_str()) <= MAX_PROOFREADING_EXPLANATION_CHARACTERS {
                Ok(
                    ProofreaderResponse::Corrected(
                        ProofreadingCorrection::new(corrected.as_str(), explanation.as_str()),
                    ),
                )
            } else {
                Err(ProofreaderError::MalformedResponse)
            }
        },
        _ => Err(ProofreaderError::MalformedResponse),
    }
}

/// The structured answer of a connection test.
#[derive(Clone, Copy, Debug, PartialEq, Eq, Structural)]
pub struct ConnectionTestPayload {
    pub ok: bool,
}

/// A connection test passes only when the model confirmed it.
pub fn decode_connection_test_payload(payload: ConnectionTestPayload) -> (r: Result<(), ProofreaderError>)
    ensures
        payload.ok ==> r is Ok,
        !payload.ok ==> r == Err::<(), ProofreaderError>(ProofreaderError::MalformedResponse),
{
    if payload.ok {
        Ok(())
    } else {
        Err(ProofreaderError::MalformedResponse)
    }
}

/// A reply whose status is not completed fails with the status's error, whatever it holds.
pub proof fn law_unfinished_replies_are_not_read(envelope: ResponseEnvelope)
    requires
        envelope.status != ResponseStatus::Completed,
    ensures
        spec_envelope_text(envelope) == Err::<Seq<char>, ProofreaderError>(
            spec_status_failure(envelope.status)->Some_0,
        ),
{
}

/// A refusal anywhere in the messages is never read as text.
pub proof fn law_single_text_is_required(contents: Seq<OutputContent>, text: Seq<char>)
    requires
        text_scan(contents) == Ok::<Option<Seq<char>>, ProofreaderError>(Some(text)),
    ensures
        forall|i: int| 0 <= i < contents.len() ==> !(contents[i] is Refusal),
        exists|i: int| 0 <= i < contents.len() && #[trigger] contents[i] == (OutputContent::OutputText { text: contents[i]->text }) && contents[i]->text@ == text,
    decreases contents.len(),
{
    let last = contents.last();
    let before = text_scan(contents.drop_last());
    if before is Ok && before->Ok_0 is Some {
        assert(!(last is Refusal));
        lemma_scan_found_stays(contents.drop_last());
        law_single_text_is_required(contents.drop_last(), before->Ok_0->Some_0);
        assert(before->Ok_0->Some_0 == text);
        assert forall|i: int| 0 <= i < contents.len() implies !(contents[i] is Refusal) by {
            if i < contents.len() - 1 {
                assert(contents[i] == contents.drop_last()[i]);
            }
        }
        let k = choose|k: int| 0 <= k < contents.drop_last().len() && #[trigger] contents.drop_last()[k] == (OutputContent::OutputText { text: contents.drop_last()[k]->text }) && contents.drop_last()[k]->text@ == before->Ok_0->Some_0;
        assert(contents[k] == contents.drop_last()[k]);
    } else {
        lemma_scan_none_has_no_refusal(contents.drop_last());
        assert(contents.len() > 0);
        assert forall|i: int| 0 <= i < contents.len() implies !(contents[i] is Refusal) by {
            if i < contents.len() - 1 {
                assert(contents[i] == contents.drop_last()[i]);
            }
        }
        assert(contents[contents.len() - 1] == last);
    }
}

/// A reading that found a text found it among the contents read so far, and stays free of
/// refusals.
proof fn lemma_scan_found_stays(contents: Seq<OutputContent>)
    ensures
        text_scan(contents) is Ok ==> forall|i: int| 0 <= i < contents.len() ==> !(contents[i] is Refusal),
    decreases contents.len(),
{
    if contents.len() > 0 {
        lemma_scan_found_stays(contents.drop_last());
        if text_scan(contents) is Ok {
            assert(text_scan(contents.drop_last()) is Ok);
            assert forall|i: int| 0 <= i < contents.len() implies !(contents[i] is Refusal) by {
                if i < contents.len() - 1 {
                    assert(contents[i] == contents.drop_last()[i]);
                }
            }
        }
    }
}

/// A reading that is still fine met no refusal.
proof fn lemma_scan_none_has_no_refusal(contents: Seq<OutputContent>)
    ensures
        text_scan(contents) is Ok ==> forall|i: int| 0 <= i < contents.len() ==> !(contents[i] is Refusal),
{
    lemma_scan_found_stays(contents);
}

} // verus!
