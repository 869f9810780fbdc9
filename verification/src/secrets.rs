//! Secret storage: the store the application uses for its API key, and the keychain-backed
//! implementation scoped to one service and account.
use vstd::prelude::*;

use std::sync::Arc;

use crate::text::{is_blank, text_is_blank, trimmed, trimmed_string};
use vstd::string::StringSliceAdditionalSpecFns;

verus! {

/// Why a secret could not be stored or read.
#[derive(Clone, Copy, Debug, PartialEq, Eq, Structural)]
pub enum SecretStoreError {
    InvalidSecret,
    Corrupted,
    Unavailable,
}

/// The characters of a loaded secret.
pub open spec fn loaded_view(loaded: Result<Option<String>, SecretStoreError>) -> Result<
    Option<Seq<char>>,
    SecretStoreError,
> {
    match loaded {
        Ok(Some(s)) => Ok(Some(s@)),
        Ok(None) => Ok(None),
        Err(e) => Err(e),
    }
}

/// Stores one secret.
///
/// Each operation's answer is one the store may give, as its `saves`, `loads` and
/// `deletes` say; a store that does not say otherwise may give any answer.
pub trait SecretStore {
    /// Whether `answer` is an answer the store may give to saving `secret`.
    open spec fn saves(&self, secret: Seq<char>, answer: Result<(), SecretStoreError>) -> bool {
        true
    }

    fn save(&self, secret: &str) -> (r: Result<(), SecretStoreError>)
        ensures
            self.saves(secret@, r),
    ;

    /// Whether `answer` is an answer the store may give to loading.
    open spec fn loads(&self, answer: Result<Option<Seq<char>>, SecretStoreError>) -> bool {
        true
    }

    fn load(&self) -> (r: Result<Option<String>, SecretStoreError>)
        ensures
            self.loads(loaded_view(r)),
    ;

    /// Whether `answer` is an answer the store may give to deleting.
    open spec fn deletes(&self, answer: Result<(), SecretStoreError>) -> bool {
        true
    }

    fn delete(&self) -> (r: Result<(), SecretStoreError>)
        ensures
            self.deletes(r),
    ;
}

/// A keychain failure; its details are never passed on.
#[derive(Clone, Copy, Debug, PartialEq, Eq, Structural)]
pub struct KeychainError;

/// The bytes of a loaded password.
pub open spec fn password_view(loaded: Result<Option<Vec<u8>>, KeychainError>) -> Result<
    Option<Seq<u8>>,
    KeychainError,
> {
    match loaded {
        Ok(Some(b)) => Ok(Some(b@)),
        Ok(None) => Ok(None),
        Err(e) => Err(e),
    }
}

/// Generic passwords in a keychain, by service and account.
///
/// Each operation's answer is one the keychain may give, as its `saves`, `loads` and
/// `deletes` say; a keychain that does not say otherwise may give any answer.
pub trait GenericPasswordKeychain {
    /// Whether `answer` may be the answer to saving `secret` under `service` and `account`.
    open spec fn saves(&self, service: Seq<char>, account: Seq<char>, secret: Seq<u8>, answer: Result<(), KeychainError>) -> bool {
        true
    }

    fn save(&self, service: &str, account: &str, secret: &[u8]) -> (r: Result<(), KeychainError>)
        ensures
            self.saves(service@, account@, secret@, r),
    ;

    /// Whether `answer` may be the answer to loading under `service` and `account`.
    open spec fn loads(&self, service: Seq<char>, account: Seq<char>, answer: Result<Option<Seq<u8>>, KeychainError>) -> bool {
        true
    }

    fn load(&self, service: &str, account: &str) -> (r: Result<Option<Vec<u8>>, KeychainError>)
        ensures
            self.loads(service@, account@, password_view(r)),
    ;

    /// Whether `answer` may be the answer to deleting under `service` and `account`.
    open spec fn deletes(&self, service: Seq<char>, account: Seq<char>, answer: Result<(), KeychainError>) -> bool {
        true
    }

    fn delete(&self, service: &str, account: &str) -> (r: Result<(), KeychainError>)
        ensures
            self.deletes(service@, account@, r),
    ;
}

/// Whether `r` is the secret a keychain answer gives: a failure makes the store
/// unavailable, bytes that are not UTF-8 are a corrupted secret.
pub open spec fn is_secret_from(loaded: Result<Option<Seq<u8>>, KeychainError>, r: Result<Option<Seq<char>>, SecretStoreError>) -> bool {
    match loaded {
        Err(_) => r == Err::<Option<Seq<char>>, SecretStoreError>(SecretStoreError::Unavailable),
        Ok(None) => r == Ok::<Option<Seq<char>>, SecretStoreError>(None),
        Ok(Some(bytes)) => if vstd::utf8::valid_utf8(bytes) {
            r == Ok::<Option<Seq<char>>, SecretStoreError>(Some(vstd::utf8::decode_utf8(bytes)))
        } else {
            r == Err::<Option<Seq<char>>, SecretStoreError>(SecretStoreError::Corrupted)
        },
    }
}

/// Why a keychain scope was refused.
#[derive(Clone, Copy, Debug, PartialEq, Eq, Structural)]
pub enum MacOsSecretStoreBuildError {
    EmptyService,
    EmptyAccount,
}

/// `String::from_utf8`: the text the bytes encode, when they are valid UTF-8.
#[verifier::external_body]
fn string_from_utf8(bytes: Vec<u8>) -> (r: Option<String>)
    ensures
        r is Some <==> vstd::utf8::valid_utf8(bytes@),
        r matches Some(s) ==> s@ == vstd::utf8::decode_utf8(bytes@),
{
    String::from_utf8(bytes).ok()
}

/// The secret read from the keychain: a keychain failure makes the store unavailable, and
/// bytes that are not UTF-8 are a corrupted secret.
pub fn secret_from_keychain(loaded: Result<Option<Vec<u8>>, KeychainError>) -> (r: Result<
    Option<String>,
    SecretStoreError,
>)
    ensures
        loaded is Err ==> r == Err::<Option<String>, SecretStoreError>(SecretStoreError::Unavailable),
        loaded == Ok::<Option<Vec<u8>>, KeychainError>(None) ==> r == Ok::<Option<String>, SecretStoreError>(None),
        loaded matches Ok(Some(bytes)) ==> (if vstd::utf8::valid_utf8(bytes@) {
            r matches Ok(Some(s)) && s@ == vstd::utf8::decode_utf8(bytes@)
        } else {
            r == Err::<Option<String>, SecretStoreError>(SecretStoreError::Corrupted)
        }),
{
    match loaded {
        Err(_) => Err(SecretStoreError::Unavailable),
        Ok(None) => Ok(None),
        Ok(Some(bytes)) => match string_from_utf8(bytes) {
            Some(s) => Ok(Some(s)),
            None => Err(SecretStoreError::Corrupted),
        },
    }
}

/// A secret kept in the keychain under one service and account.
pub struct MacOsSecretStore<K: ?Sized> {
    service: String,
    account: String,
    keychain: Arc<K>,
}

impl<K: GenericPasswordKeychain + ?Sized> MacOsSecretStore<K> {
    /// The service of the scope.
    pub closed spec fn spec_service(&self) -> Seq<char> {
        self.service@
    }

    /// The account of the scope.
    pub closed spec fn spec_account(&self) -> Seq<char> {
        self.account@
    }

    /// The keychain the secret is kept in.
    pub closed spec fn spec_keychain(&self) -> Arc<K> {
        self.keychain
    }

    /// A store scoped to a service and an account, both trimmed; neither may be blank.
    pub fn new(service: &str, account: &str, keychain: Arc<K>) -> (r: Result<Self, MacOsSecretStoreBuildError>)
        ensures
            is_blank(service@) ==> r is Err && r->Err_0 == MacOsSecretStoreBuildError::EmptyService,
            !is_blank(service@) && is_blank(account@) ==> r is Err && r->Err_0 == MacOsSecretStoreBuildError::EmptyAccount,
            !is_blank(service@) && !is_blank(account@) ==> (r matches Ok(s) && s.spec_service() == trimmed(
                service@,
            ) && s.spec_account() == trimmed(account@)),
    {
        if text_is_blank(service) {
            return Err(MacOsSecretStoreBuildError::EmptyService);
        }
        if text_is_blank(account) {
            return Err(MacOsSecretStoreBuildError::EmptyAccount);
        }
        Ok(MacOsSecretStore { service: trimmed_string(service), account: trimmed_string(account), keychain })
    }
}

impl<K: GenericPasswordKeychain + ?Sized> SecretStore for MacOsSecretStore<K> {
    /// A blank secret is refused; any other is stored or the keychain is unavailable.
    open spec fn saves(&self, secret: Seq<char>, answer: Result<(), SecretStoreError>) -> bool {
        &&& is_blank(secret) ==> answer == Err::<(), SecretStoreError>(SecretStoreError::InvalidSecret)
        &&& !is_blank(secret) ==> answer is Ok || answer == Err::<(), SecretStoreError>(SecretStoreError::Unavailable)
    }

    /// Loading fails only with an unavailable keychain or a corrupted secret.
    open spec fn loads(&self, answer: Result<Option<Seq<char>>, SecretStoreError>) -> bool {
        answer matches Err(e) ==> e == SecretStoreError::Unavailable || e == SecretStoreError::Corrupted
    }

    /// Deleting fails only with an unavailable keychain.
    open spec fn deletes(&self, answer: Result<(), SecretStoreError>) -> bool {
        answer is Ok || answer == Err::<(), SecretStoreError>(SecretStoreError::Unavailable)
    }

    /// Stores a secret that is not blank; the keychain's failures are reported as
    /// unavailability, without details.
    fn save(&self, secret: &str) -> (r: Result<(), SecretStoreError>)
        ensures
            is_blank(secret@) ==> r == Err::<(), SecretStoreError>(SecretStoreError::InvalidSecret),
            !is_blank(secret@) ==> r is Ok || r == Err::<(), SecretStoreError>(SecretStoreError::Unavailable),
            !is_blank(secret@) ==> exists|answer: Result<(), KeychainError>|
                #[trigger] self.spec_keychain().saves(self.spec_service(), self.spec_account(), secret.spec_bytes(), answer)
                    && (r is Ok <==> answer is Ok),
    {
        if text_is_blank(secret) {
            return Err(SecretStoreError::InvalidSecret);
        }
        let answer = self.keychain.save(self.service.as_str(), self.account.as_str(), secret.as_bytes());
        let r = match answer {
            Ok(()) => Ok(()),
            Err(_) => Err(SecretStoreError::Unavailable),
        };
        assert(self.spec_keychain().saves(self.spec_service(), self.spec_account(), secret.spec_bytes(), answer));
        r
    }

    /// The stored secret; a keychain failure is reported as unavailability, and bytes that
    /// are not UTF-8 as a corrupted secret.
    fn load(&self) -> (r: Result<Option<String>, SecretStoreError>)
        ensures
            r matches Err(e) ==> e == SecretStoreError::Unavailable || e == SecretStoreError::Corrupted,
            exists|answer: Result<Option<Seq<u8>>, KeychainError>|
                #[trigger] self.spec_keychain().loads(self.spec_service(), self.spec_account(), answer)
                    && is_secret_from(answer, loaded_view(r)),
    {
        let answer = self.keychain.load(self.service.as_str(), self.account.as_str());
        let ghost bytes = password_view(answer);
        let r = secret_from_keychain(answer);
        assert(self.spec_keychain().loads(self.spec_service(), self.spec_account(), bytes) && is_secret_from(bytes, loaded_view(r)));
        r
    }

    /// Deletes the secret; a keychain failure is reported as unavailability.
    fn delete(&self) -> (r: Result<(), SecretStoreError>)
        ensures
            r is Ok || r == Err::<(), SecretStoreError>(SecretStoreError::Unavailable),
            exists|answer: Result<(), KeychainError>|
                #[trigger] self.spec_keychain().deletes(self.spec_service(), self.spec_account(), answer)
                    && (r is Ok <==> answer is Ok),
    {
        let answer = self.keychain.delete(self.service.as_str(), self.account.as_str());
        let r = match answer {
            Ok(()) => Ok(()),
            Err(_) => Err(SecretStoreError::Unavailable),
        };
        assert(self.spec_keychain().deletes(self.spec_service(), self.spec_account(), answer));
        r
    }
}

} // verus!
