use std::sync::{Arc, Mutex};

use verba::api_key_settings::{
    connection_test_key, map_connection_error, map_secret_store_error, OpenAiApiKeyError,
    OpenAiApiKeySettings, SecretStoreApiKeyProvider, KEYCHAIN_ACCOUNT, KEYCHAIN_SERVICE,
};
use verba::openai::{ApiKeyProvider, ApiKeyProviderError};
use verba::proofreading::ProofreaderError;
use verba::secrets::{SecretStore, SecretStoreError};

#[derive(Default)]
struct MemorySecretStore {
    secret: Mutex<Option<String>>,
}

impl SecretStore for MemorySecretStore {
    fn save(&self, secret: &str) -> Result<(), SecretStoreError> {
        *self.secret.lock().unwrap() = Some(secret.to_owned());
        Ok(())
    }

    fn load(&self) -> Result<Option<String>, SecretStoreError> {
        Ok(self.secret.lock().unwrap().clone())
    }

    fn delete(&self) -> Result<(), SecretStoreError> {
        *self.secret.lock().unwrap() = None;
        Ok(())
    }
}

struct UnavailableSecretStore;

impl SecretStore for UnavailableSecretStore {
    fn save(&self, _secret: &str) -> Result<(), SecretStoreError> {
        Err(SecretStoreError::Unavailable)
    }

    fn load(&self) -> Result<Option<String>, SecretStoreError> {
        Err(SecretStoreError::Unavailable)
    }

    fn delete(&self) -> Result<(), SecretStoreError> {
        Err(SecretStoreError::Unavailable)
    }
}

/// Runs a connection test the way the settings window does: with the stored key only.
fn test_connection(
    settings: &OpenAiApiKeySettings<MemorySecretStore>,
    tested_keys: &mut Vec<String>,
    provider_result: Result<(), ProofreaderError>,
) -> Result<(), OpenAiApiKeyError> {
    let key = settings.stored_key_for_test()?;
    tested_keys.push(key);
    provider_result.map_err(map_connection_error)
}

#[test]
fn production_keychain_scope_matches_the_permanent_bundle_identifier() {
    assert_eq!(KEYCHAIN_SERVICE, "io.github.the-pavels.verba");
    assert_eq!(KEYCHAIN_ACCOUNT, "openai-api-key");
}

#[test]
fn exposes_only_configuration_state_and_normalizes_saved_keys() {
    let store = Arc::new(MemorySecretStore::default());
    let settings = OpenAiApiKeySettings::new(store.clone());

    assert_eq!(settings.is_configured(), Ok(false));
    assert_eq!(settings.save("  test-key  "), Ok(()));
    assert_eq!(settings.is_configured(), Ok(true));
    assert_eq!(store.secret.lock().unwrap().as_deref(), Some("test-key"));
    assert_eq!(settings.delete(), Ok(()));
    assert_eq!(settings.is_configured(), Ok(false));
}

#[test]
fn rejects_blank_keys_without_touching_the_store() {
    let store = Arc::new(MemorySecretStore::default());
    let settings = OpenAiApiKeySettings::new(store.clone());

    assert_eq!(settings.save(" \n "), Err(OpenAiApiKeyError::InvalidApiKey));
    assert!(store.secret.lock().unwrap().is_none());
}

#[test]
fn tests_only_the_key_loaded_from_keychain() {
    let store = Arc::new(MemorySecretStore {
        secret: Mutex::new(Some("stored-test-key".to_owned())),
    });
    let settings = OpenAiApiKeySettings::new(store);
    let mut tested = Vec::new();

    assert_eq!(test_connection(&settings, &mut tested, Ok(())), Ok(()));
    assert_eq!(tested.as_slice(), ["stored-test-key"]);
}

#[test]
fn maps_missing_storage_and_provider_failures_to_safe_errors() {
    let settings = OpenAiApiKeySettings::new(Arc::new(MemorySecretStore::default()));
    let mut tested = Vec::new();
    assert_eq!(
        test_connection(&settings, &mut tested, Ok(())),
        Err(OpenAiApiKeyError::NotConfigured)
    );
    assert!(tested.is_empty());

    for (provider_error, expected) in [
        (ProofreaderError::Authentication, OpenAiApiKeyError::Authentication),
        (ProofreaderError::RateLimited, OpenAiApiKeyError::RateLimited),
        (ProofreaderError::QuotaExceeded, OpenAiApiKeyError::QuotaExceeded),
        (ProofreaderError::Offline, OpenAiApiKeyError::Offline),
        (ProofreaderError::TimedOut, OpenAiApiKeyError::TimedOut),
        (ProofreaderError::ServiceUnavailable, OpenAiApiKeyError::ServiceUnavailable),
        (ProofreaderError::MalformedResponse, OpenAiApiKeyError::InvalidResponse),
    ] {
        let store = Arc::new(MemorySecretStore {
            secret: Mutex::new(Some("test-key".to_owned())),
        });
        let settings = OpenAiApiKeySettings::new(store);
        assert_eq!(test_connection(&settings, &mut tested, Err(provider_error)), Err(expected));
    }
}

#[test]
fn key_provider_reads_each_request_from_secret_storage() {
    let store = Arc::new(MemorySecretStore::default());
    let provider = SecretStoreApiKeyProvider::new(store.clone());

    assert_eq!(provider.load_api_key(), Err(ApiKeyProviderError::Missing));
    store.save("first-key").unwrap();
    assert_eq!(provider.load_api_key(), Ok("first-key".to_owned()));
    store.save("replacement-key").unwrap();
    assert_eq!(provider.load_api_key(), Ok("replacement-key".to_owned()));

    let unavailable = SecretStoreApiKeyProvider::new(Arc::new(UnavailableSecretStore));
    assert_eq!(unavailable.load_api_key(), Err(ApiKeyProviderError::Unavailable));
}

#[test]
fn unavailable_storage_is_reported_as_a_keychain_problem() {
    let settings = OpenAiApiKeySettings::new(Arc::new(UnavailableSecretStore));
    assert_eq!(settings.is_configured(), Err(OpenAiApiKeyError::KeychainUnavailable));
    assert_eq!(settings.save("key"), Err(OpenAiApiKeyError::KeychainUnavailable));
    assert_eq!(settings.delete(), Err(OpenAiApiKeyError::KeychainUnavailable));
    assert_eq!(settings.stored_key_for_test(), Err(OpenAiApiKeyError::KeychainUnavailable));
    assert_eq!(map_secret_store_error(SecretStoreError::InvalidSecret), OpenAiApiKeyError::InvalidApiKey);
    assert_eq!(map_secret_store_error(SecretStoreError::Corrupted), OpenAiApiKeyError::KeychainUnavailable);
    assert_eq!(connection_test_key(Ok(Some("k".to_owned()))), Ok("k".to_owned()));
    assert_eq!(map_connection_error(ProofreaderError::Cancelled), OpenAiApiKeyError::ConnectionFailed);
    assert_eq!(OpenAiApiKeyError::NotConfigured.message(), "API key not configured");
}
