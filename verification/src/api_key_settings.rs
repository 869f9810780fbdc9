//! The OpenAI API key as the settings window manages it: stored in the keychain, never
//! shown again, tested on request.
use vstd::prelude::*;

use std::sync::Arc;

use crate::openai::{ApiKeyProvider, ApiKeyProviderError};
use crate::proofreading::ProofreaderError;
use crate::secrets::{SecretStore, SecretStoreError, loaded_view};
use crate::text::{is_blank, text_is_blank, trimmed, trimmed_string};

verus! {

/// The keychain service of the API key: the application's bundle identifier.
pub const KEYCHAIN_SERVICE: &'static str = "io.github.the-pavels.verba";

/// The keychain account of the API key.
pub const KEYCHAIN_ACCOUNT: &'static str = "openai-api-key";

/// Why the API key could not be managed or tested.
#[derive(Clone, Copy, Debug, PartialEq, Eq, Structural)]
pub enum OpenAiApiKeyError {
    InvalidApiKey,
    NotConfigured,
    KeychainUnavailable,
    Authentication,
    RateLimited,
    QuotaExceeded,
    Offline,
    TimedOut,
    ServiceUnavailable,
    InvalidResponse,
    ConnectionFailed,
}

impl OpenAiApiKeyError {
    /// The text of the description.
    pub open spec fn spec_message(self) -> Seq<char> {
        match self {
            OpenAiApiKeyError::InvalidApiKey => "invalid API key"@,
            OpenAiApiKeyError::NotConfigured => "API key not configured"@,
            OpenAiApiKeyError::KeychainUnavailable => "Keychain unavailable"@,
            OpenAiApiKeyError::Authentication => "authentication failed"@,
            OpenAiApiKeyError::RateLimited => "rate limited"@,
            OpenAiApiKeyError::QuotaExceeded => "quota exceeded"@,
            OpenAiApiKeyError::Offline => "network offline"@,
            OpenAiApiKeyError::TimedOut => "connection timed out"@,
            OpenAiApiKeyError::ServiceUnavailable => "service unavailable"@,
            OpenAiApiKeyError::InvalidResponse => "invalid provider response"@,
            OpenAiApiKeyError::ConnectionFailed => "connection failed"@,
        }
    }

    /// A short description of the error.
    pub fn message(&self) -> (r: &'static str)
        ensures
            r@ == self.spec_message(),
    {
        match self {
            OpenAiApiKeyError::InvalidApiKey => "invalid API key",
            OpenAiApiKeyError::NotConfigured => "API key not configured",
            OpenAiApiKeyError::KeychainUnavailable => "Keychain unavailable",
            OpenAiApiKeyError::Authentication => "authentication failed",
            OpenAiApiKeyError::RateLimited => "rate limited",
            OpenAiApiKeyError::QuotaExceeded => "quota exceeded",
            OpenAiApiKeyError::Offline => "network offline",
            OpenAiApiKeyError::TimedOut => "connection timed out",
            OpenAiApiKeyError::ServiceUnavailable => "service unavailable",
            OpenAiApiKeyError::InvalidResponse => "invalid provider response",
            OpenAiApiKeyError::ConnectionFailed => "connection failed",
        }
    }
}

/// The settings error for a secret store failure.
pub open spec fn spec_secret_store_error(error: SecretStoreError) -> OpenAiApiKeyError {
    match error {
        SecretStoreError::InvalidSecret => OpenAiApiKeyError::InvalidApiKey,
        SecretStoreError::Corrupted => OpenAiApiKeyError::KeychainUnavailable,
        SecretStoreError::Unavailable => OpenAiApiKeyError::KeychainUnavailable,
    }
}

/// The settings error for a secret store failure.
pub fn map_secret_store_error(error: SecretStoreError) -> (r: OpenAiApiKeyError)
    ensures
        r == spec_secret_store_error(error),
{
    match error {
        SecretStoreError::InvalidSecret => OpenAiApiKeyError::InvalidApiKey,
        SecretStoreError::Corrupted => OpenAiApiKeyError::KeychainUnavailable,
        SecretStoreError::Unavailable => OpenAiApiKeyError::KeychainUnavailable,
    }
}

/// The settings outcome of a store operation.
pub open spec fn spec_settings_result(answer: Result<(), SecretStoreError>) -> Result<(), OpenAiApiKeyError> {
    match answer {
        Ok(_) => Ok(()),
        Err(e) => Err(spec_secret_store_error(e)),
    }
}

/// Whether a key is stored, from what the store loaded.
pub open spec fn spec_configured(loaded: Result<Option<Seq<char>>, SecretStoreError>) -> Result<
    bool,
    OpenAiApiKeyError,
> {
    match loaded {
        Ok(secret) => Ok(secret is Some),
        Err(e) => Err(spec_secret_store_error(e)),
    }
}

/// Whether a key is stored, from what the store loaded; the key itself is not handed out.
pub fn configured_from(loaded: Result<Option<String>, SecretStoreError>) -> (r: Result<bool, OpenAiApiKeyError>)
    ensures
        r == spec_configured(loaded_view(loaded)),
{
    match loaded {
        Ok(secret) => Ok(secret.is_some()),
        Err(e) => Err(map_secret_store_error(e)),
    }
}

/// Whether `r` is the connection-test key for what the store loaded.
pub open spec fn is_test_key(loaded: Result<Option<Seq<char>>, SecretStoreError>, r: Result<String, OpenAiApiKeyError>) -> bool {
    match loaded {
        Err(e) => r == Err::<String, OpenAiApiKeyError>(spec_secret_store_error(e)),
        Ok(None) => r == Err::<String, OpenAiApiKeyError>(OpenAiApiKeyError::NotConfigured),
        Ok(Some(k)) => r matches Ok(s) && s@ == k,
    }
}

/// What the settings report once the store gives back what they saved. A save of a
/// non-blank `api_key` stores its trimmed form; a store that gives that back makes the
/// settings report a key as configured, and the connection test and proofreading requests
/// use the trimmed key. A store that gives back nothing, as after a delete, makes them
/// report no key.
pub proof fn law_saved_keys_read_back(api_key: Seq<char>)
    requires
        !is_blank(api_key),
    ensures
        spec_configured(Ok(Some(trimmed(api_key)))) == Ok::<bool, OpenAiApiKeyError>(true),
        forall|r: Result<String, OpenAiApiKeyError>|
            #[trigger] is_test_key(Ok(Some(trimmed(api_key))), r) ==> (r matches Ok(k) && k@ == trimmed(api_key)),
        forall|r: Result<String, ApiKeyProviderError>|
            #[trigger] is_request_key(Ok(Some(trimmed(api_key))), r) ==> (r matches Ok(k) && k@ == trimmed(api_key)),
        spec_configured(Ok(None)) == Ok::<bool, OpenAiApiKeyError>(false),
        forall|r: Result<String, OpenAiApiKeyError>|
            #[trigger] is_test_key(Ok(None), r) ==> r == Err::<String, OpenAiApiKeyError>(
                OpenAiApiKeyError::NotConfigured,
            ),
{
}

/// Whether `r` is the request key for what the store loaded.
pub open spec fn is_request_key(loaded: Result<Option<Seq<char>>, SecretStoreError>, r: Result<String, ApiKeyProviderError>) -> bool {
    match loaded {
        Err(_) => r == Err::<String, ApiKeyProviderError>(ApiKeyProviderError::Unavailable),
        Ok(None) => r == Err::<String, ApiKeyProviderError>(ApiKeyProviderError::Missing),
        Ok(Some(k)) => r matches Ok(s) && s@ == k,
    }
}

/// The settings error for a failed connection test.
pub open spec fn spec_connection_error(error: ProofreaderError) -> OpenAiApiKeyError {
    match error {
        ProofreaderError::MissingCredential => OpenAiApiKeyError::NotConfigured,
        ProofreaderError::Authentication => OpenAiApiKeyError::Authentication,
        ProofreaderError::RateLimited => OpenAiApiKeyError::RateLimited,
        ProofreaderError::QuotaExceeded => OpenAiApiKeyError::QuotaExceeded,
        ProofreaderError::Offline => OpenAiApiKeyError::Offline,
        ProofreaderError::TimedOut => OpenAiApiKeyError::TimedOut,
        ProofreaderError::ServiceUnavailable => OpenAiApiKeyError::ServiceUnavailable,
        ProofreaderError::Refused => OpenAiApiKeyError::InvalidResponse,
        ProofreaderError::Incomplete => OpenAiApiKeyError::InvalidResponse,
        ProofreaderError::MalformedResponse => OpenAiApiKeyError::InvalidResponse,
        ProofreaderError::ResponseTooLarge => OpenAiApiKeyError::InvalidResponse,
        ProofreaderError::Cancelled => OpenAiApiKeyError::ConnectionFailed,
        ProofreaderError::Failed => OpenAiApiKeyError::ConnectionFailed,
    }
}

/// The settings error for a failed connection test.
pub fn map_connection_error(error: ProofreaderError) -> (r: OpenAiApiKeyError)
    ensures
        r == spec_connection_error(error),
{
    match error {
        ProofreaderError::MissingCredential => OpenAiApiKeyError::NotConfigured,
        ProofreaderError::Authentication => OpenAiApiKeyError::Authentication,
        ProofreaderError::RateLimited => OpenAiApiKeyError::RateLimited,
        ProofreaderError::QuotaExceeded => OpenAiApiKeyError::QuotaExceeded,
        ProofreaderError::Offline => OpenAiApiKeyError::Offline,
        ProofreaderError::TimedOut => OpenAiApiKeyError::TimedOut,
        ProofreaderError::ServiceUnavailable => OpenAiApiKeyError::ServiceUnavailable,
        ProofreaderError::Refused => OpenAiApiKeyError::InvalidResponse,
        ProofreaderError::Incomplete => OpenAiApiKeyError::InvalidResponse,
        ProofreaderError::MalformedResponse => OpenAiApiKeyError::InvalidResponse,
        ProofreaderError::ResponseTooLarge => OpenAiApiKeyError::InvalidResponse,
        ProofreaderError::Cancelled => OpenAiApiKeyError::ConnectionFailed,
        ProofreaderError::Failed => OpenAiApiKeyError::ConnectionFailed,
    }
}

/// The key a connection test uses: only the stored one.
pub fn connection_test_key(loaded: Result<Option<String>, SecretStoreError>) -> (r: Result<String, OpenAiApiKeyError>)
    ensures
        loaded matches Err(e) ==> r == Err::<String, OpenAiApiKeyError>(spec_secret_store_error(e)),
        loaded == Ok::<Option<String>, SecretStoreError>(None) ==> r == Err::<String, OpenAiApiKeyError>(
            OpenAiApiKeyError::NotConfigured,
        ),
        loaded matches Ok(Some(k)) ==> r == Ok::<String, OpenAiApiKeyError>(k),
{
    match loaded {
        Err(e) => Err(map_secret_store_error(e)),
        Ok(None) => Err(OpenAiApiKeyError::NotConfigured),
        Ok(Some(key)) => Ok(key),
    }
}

/// The API key settings: whether a key is stored, storing and deleting it.
pub struct OpenAiApiKeySettings<S: ?Sized> {
    secret_store: Arc<S>,
}

impl<S: SecretStore + ?Sized> OpenAiApiKeySettings<S> {
    /// The store the key is kept in.
    pub closed spec fn spec_store(&self) -> Arc<S> {
        self.secret_store
    }

    pub fn new(secret_store: Arc<S>) -> (r: Self)
        ensures
            r.spec_store() == secret_store,
    {
        OpenAiApiKeySettings { secret_store }
    }

    /// Whether a key is stored; the key itself is never handed out.
    pub fn is_configured(&self) -> (r: Result<bool, OpenAiApiKeyError>)
        ensures
            exists|loaded: Result<Option<Seq<char>>, SecretStoreError>|
                #[trigger] self.spec_store().loads(loaded) && r == spec_configured(loaded),
    {
        let loaded = self.secret_store.load();
        let ghost answer = loaded_view(loaded);
        let r = configured_from(loaded);
        assert(self.spec_store().loads(answer) && r == spec_configured(answer));
        r
    }

    /// Stores a key without its surrounding whitespace; a blank key never reaches the store.
    pub fn save(&self, api_key: &str) -> (r: Result<(), OpenAiApiKeyError>)
        ensures
            is_blank(api_key@) ==> r == Err::<(), OpenAiApiKeyError>(OpenAiApiKeyError::InvalidApiKey),
            !is_blank(api_key@) ==> exists|answer: Result<(), SecretStoreError>|
                #[trigger] self.spec_store().saves(trimmed(api_key@), answer) && r == spec_settings_result(answer),
    {
        if text_is_blank(api_key) {
            return Err(OpenAiApiKeyError::InvalidApiKey);
        }
        let key = trimmed_string(api_key);
        let answer = self.secret_store.save(key.as_str());
        let r = match answer {
            Ok(()) => Ok(()),
            Err(e) => Err(map_secret_store_error(e)),
        };
        assert(self.spec_store().saves(trimmed(api_key@), answer) && r == spec_settings_result(answer));
        r
    }

    /// Deletes the stored key; a store failure is reported as its settings error.
    pub fn delete(&self) -> (r: Result<(), OpenAiApiKeyError>)
        ensures
            exists|answer: Result<(), SecretStoreError>|
                #[trigger] self.spec_store().deletes(answer) && r == spec_settings_result(answer),
    {
        let answer = self.secret_store.delete();
        let r = match answer {
            Ok(()) => Ok(()),
            Err(e) => Err(map_secret_store_error(e)),
        };
        assert(self.spec_store().deletes(answer) && r == spec_settings_result(answer));
        r
    }

    /// The key a connection test uses, read from the store.
    pub fn stored_key_for_test(&self) -> (r: Result<String, OpenAiApiKeyError>)
        ensures
            exists|loaded: Result<Option<Seq<char>>, SecretStoreError>|
                #[trigger] self.spec_store().loads(loaded) && is_test_key(loaded, r),
    {
        let loaded = self.secret_store.load();
        let ghost answer = loaded_view(loaded);
        let r = connection_test_key(loaded);
        assert(self.spec_store().loads(answer) && is_test_key(answer, r));
        r
    }
}

/// The key for a request, read from storage: a missing key and an unavailable store are
/// told apart.
pub fn api_key_from_store(loaded: Result<Option<String>, SecretStoreError>) -> (r: Result<String, ApiKeyProviderError>)
    ensures
        loaded is Err ==> r == Err::<String, ApiKeyProviderError>(ApiKeyProviderError::Unavailable),
        loaded == Ok::<Option<String>, SecretStoreError>(None) ==> r == Err::<String, ApiKeyProviderError>(
            ApiKeyProviderError::Missing,
        ),
        loaded matches Ok(Some(k)) ==> r == Ok::<String, ApiKeyProviderError>(k),
{
    match loaded {
        Err(_) => Err(ApiKeyProviderError::Unavailable),
        Ok(None) => Err(ApiKeyProviderError::Missing),
        Ok(Some(key)) => Ok(key),
    }
}

/// Provides the API key from secret storage, read afresh for each request.
pub struct SecretStoreApiKeyProvider<S: ?Sized> {
    secret_store: Arc<S>,
}

impl<S: SecretStore + ?Sized> SecretStoreApiKeyProvider<S> {
    /// The store the key is read from.
    pub closed spec fn spec_store(&self) -> Arc<S> {
        self.secret_store
    }

    pub fn new(secret_store: Arc<S>) -> (r: Self)
        ensures
            r.spec_store() == secret_store,
    {
        SecretStoreApiKeyProvider { secret_store }
    }
}

/// The key a store's answer gives a request: a failure is unavailability, nothing stored
/// is a missing key.
pub open spec fn request_key_from(loaded: Result<Option<Seq<char>>, SecretStoreError>) -> Result<
    Seq<char>,
    ApiKeyProviderError,
> {
    match loaded {
        Err(_) => Err(ApiKeyProviderError::Unavailable),
        Ok(None) => Err(ApiKeyProviderError::Missing),
        Ok(Some(k)) => Ok(k),
    }
}

impl<S: SecretStore + ?Sized> ApiKeyProvider for SecretStoreApiKeyProvider<S> {
    /// The key is what the store loaded.
    open spec fn loads(&self, answer: Result<Seq<char>, ApiKeyProviderError>) -> bool {
        exists|loaded: Result<Option<Seq<char>>, SecretStoreError>|
            #[trigger] self.spec_store().loads(loaded) && request_key_from(loaded) == answer
    }

    /// The key the store loads, read afresh.
    fn load_api_key(&self) -> (r: Result<String, ApiKeyProviderError>)
        ensures
            exists|loaded: Result<Option<Seq<char>>, SecretStoreError>|
                #[trigger] self.spec_store().loads(loaded) && is_request_key(loaded, r),
    {
        let loaded = self.secret_store.load();
        let ghost answer = loaded_view(loaded);
        let r = api_key_from_store(loaded);
        assert(self.spec_store().loads(answer) && is_request_key(answer, r));
        r
    }
}

} // verus!
