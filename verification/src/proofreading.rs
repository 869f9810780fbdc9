//! Proofreading a selection for spelling and grammar only.
use vstd::prelude::*;

use std::sync::Arc;
use vstd::string::StringSliceAdditionalSpecFns;

use crate::cancellation::CancellationToken;
use crate::text::{char_count, is_blank, owned, text_is_blank};
use crate::validation::{
    evaluate_proofreading_policy, spec_first_violation, spec_policy_validation,
    ProofreadingPolicyViolation,
};

verus! {

/// The longest selection, in characters, that is sent for proofreading.
pub const MAX_PROOFREADING_CHARACTERS: usize = 10_000;

/// The most tokens a selection may be estimated to need before it is sent.
pub const MAX_PROOFREADING_ESTIMATED_TOKENS: usize = 10_000;

/// The longest explanation, in characters, accepted with a correction.
pub const MAX_PROOFREADING_EXPLANATION_CHARACTERS: usize = 500;

/// Whether the user acknowledged that proofreading sends text to a provider.
#[derive(Clone, Copy, Debug, PartialEq, Eq, Structural)]
pub enum ProofreadingConsent {
    NotGranted,
    Granted,
}

/// The acknowledgement could not be read or saved.
#[derive(Clone, Copy, Debug, PartialEq, Eq, Structural)]
pub struct ProofreadingConsentStoreError;

/// Where the acknowledgement is kept between launches.
pub trait ProofreadingConsentStore {
    /// Whether `answer` is an answer this store may give when the acknowledgement is
    /// loaded. An implementation that does not say otherwise may give any answer.
    open spec fn loads(&self, answer: Result<bool, ProofreadingConsentStoreError>) -> bool {
        true
    }

    fn load_acknowledged(&self) -> (r: Result<bool, ProofreadingConsentStoreError>)
        ensures
            self.loads(r),
    ;

    /// Whether `answer` may be what saving the acknowledgement gives. An implementation
    /// that does not say otherwise may give any answer.
    open spec fn saves(&self, answer: Result<(), ProofreadingConsentStoreError>) -> bool {
        true
    }

    fn save_acknowledged(&self) -> (r: Result<(), ProofreadingConsentStoreError>)
        ensures
            self.saves(r),
    ;
}

/// Decides whether proofreading may send text, and records a new acknowledgement.
///
/// Each answer is one its `reports` and `grants` allow; an implementation that does not
/// say otherwise may give any answer.
pub trait ProofreadingConsentGate {
    /// Whether `granted` may be the answer to whether consent is granted.
    open spec fn reports(&self, granted: bool) -> bool {
        true
    }

    fn is_granted(&self) -> (r: bool)
        ensures
            self.reports(r),
    ;

    /// Whether `answer` may be the answer to granting consent.
    open spec fn grants(&self, answer: Result<(), ProofreadingConsentStoreError>) -> bool {
        true
    }

    fn grant(&self) -> (r: Result<(), ProofreadingConsentStoreError>)
        ensures
            self.grants(r),
    ;
}

/// The acknowledgement, loaded once and persisted before it takes effect.
pub struct ProofreadingConsentPreferences<S: ?Sized> {
    store: Arc<S>,
    acknowledged: bool,
}

impl<S: ProofreadingConsentStore + ?Sized> ProofreadingConsentPreferences<S> {
    pub closed spec fn spec_granted(&self) -> bool {
        self.acknowledged
    }

    /// The store it saves to.
    pub closed spec fn spec_store(&self) -> Arc<S> {
        self.store
    }

    /// The preferences over `store` once `acknowledged` was loaded from it.
    pub fn from_loaded(store: Arc<S>, acknowledged: bool) -> (r: Self)
        ensures
            r.spec_granted() == acknowledged,
            r.spec_store() == store,
    {
        ProofreadingConsentPreferences { store, acknowledged }
    }

    /// Loads the acknowledgement from the store: granted exactly when the store answered
    /// that it was acknowledged, and the store's failure when it could not answer.
    pub fn load(store: Arc<S>) -> (r: Result<Self, ProofreadingConsentStoreError>)
        ensures
            r matches Ok(p) ==> store.loads(Ok(p.spec_granted())) && p.spec_store() == store,
            r matches Err(e) ==> store.loads(Err(e)),
    {
        match store.load_acknowledged() {
            Ok(acknowledged) => Ok(Self::from_loaded(store, acknowledged)),
            Err(e) => Err(e),
        }
    }

    pub fn is_granted(&self) -> (r: bool)
        ensures
            r == self.spec_granted(),
    {
        self.acknowledged
    }

    /// Grants consent, saving it first; an existing acknowledgement is not saved again.
    pub fn grant(&mut self) -> (r: Result<(), ProofreadingConsentStoreError>)
        ensures
            old(self).spec_granted() ==> r is Ok && final(self).spec_granted(),
            !old(self).spec_granted() ==> exists|answer: Result<(), ProofreadingConsentStoreError>|
                #[trigger] old(self).spec_store().saves(answer) && (answer is Ok ==> r is Ok && final(self).spec_granted())
                    && (answer is Err ==> r == answer && !final(self).spec_granted()),
            final(self).spec_store() == old(self).spec_store(),
    {
        if self.acknowledged {
            return Ok(());
        }
        let answer = self.store.save_acknowledged();
        assert(self.spec_store().saves(answer));
        match answer {
            Ok(()) => {},
            Err(e) => return Err(e),
        }
        self.acknowledged = true;
        Ok(())
    }
}

/// What proofreading may change.
#[derive(Clone, Copy, Debug, PartialEq, Eq, Structural)]
pub enum ProofreadingScope {
    SpellingAndGrammarOnly,
}

/// The rules a proofreader must follow.
#[derive(Clone, Copy, Debug, PartialEq, Eq, Structural)]
pub struct ProofreadingPolicy {
    scope: ProofreadingScope,
    preserve_language: bool,
    preserve_tone: bool,
    preserve_whitespace: bool,
    preserve_formatting: bool,
}

impl ProofreadingPolicy {
    /// Spelling and grammar only, preserving language, tone, white space and formatting.
    pub open spec fn is_strict(self) -> bool {
        &&& self.spec_scope() == ProofreadingScope::SpellingAndGrammarOnly
        &&& self.spec_flags() == (true, true, true, true)
    }

    /// What the policy lets a proofreader change.
    pub closed spec fn spec_scope(self) -> ProofreadingScope {
        self.scope
    }

    /// Whether language, tone, white space and formatting are preserved, in that order.
    pub closed spec fn spec_flags(self) -> (bool, bool, bool, bool) {
        (self.preserve_language, self.preserve_tone, self.preserve_whitespace, self.preserve_formatting)
    }

    /// A policy is its scope and its flags: two policies that agree on both are the same.
    pub proof fn lemma_policy_is_its_parts(a: Self, b: Self)
        requires
            a.spec_scope() == b.spec_scope(),
            a.spec_flags() == b.spec_flags(),
        ensures
            a == b,
    {
    }

    /// The strict policy: spelling and grammar only, preserving everything else.
    pub closed spec fn spec_strict() -> Self {
        ProofreadingPolicy {
            scope: ProofreadingScope::SpellingAndGrammarOnly,
            preserve_language: true,
            preserve_tone: true,
            preserve_whitespace: true,
            preserve_formatting: true,
        }
    }

    /// The strict policy is the one policy that is strict.
    pub proof fn lemma_strict_is_the_strict_policy(p: Self)
        ensures
            Self::spec_strict().is_strict(),
            p.is_strict() ==> p == Self::spec_strict(),
    {
    }

    pub fn strict() -> (r: Self)
        ensures
            r.is_strict(),
            r.spec_scope() == ProofreadingScope::SpellingAndGrammarOnly,
            r.spec_flags() == (true, true, true, true),
            r == Self::spec_strict(),
    {
        ProofreadingPolicy {
            scope: ProofreadingScope::SpellingAndGrammarOnly,
            preserve_language: true,
            preserve_tone: true,
            preserve_whitespace: true,
            preserve_formatting: true,
        }
    }

    pub fn scope(&self) -> (r: ProofreadingScope)
        ensures
            r == self.spec_scope(),
    {
        self.scope
    }

    pub fn preserves_language(&self) -> (r: bool)
        ensures
            r == self.spec_flags().0,
    {
        self.preserve_language
    }

    pub fn preserves_tone(&self) -> (r: bool)
        ensures
            r == self.spec_flags().1,
    {
        self.preserve_tone
    }

    pub fn preserves_whitespace(&self) -> (r: bool)
        ensures
            r == self.spec_flags().2,
    {
        self.preserve_whitespace
    }

    pub fn preserves_formatting(&self) -> (r: bool)
        ensures
            r == self.spec_flags().3,
    {
        self.preserve_formatting
    }

    /// Whether the policy is the strict one.
    pub fn check_strict(&self) -> (r: bool)
        ensures
            r == self.is_strict(),
    {
        self.scope == ProofreadingScope::SpellingAndGrammarOnly && self.preserve_language
            && self.preserve_tone && self.preserve_whitespace && self.preserve_formatting
    }
}

impl Default for ProofreadingPolicy {
    fn default() -> (r: Self)
        ensures
            r.is_strict(),
    {
        ProofreadingPolicy::strict()
    }
}

/// What is handed to a proofreader: the selection and the strict policy.
#[derive(Clone, Debug, PartialEq, Eq)]
pub struct ProofreadingRequest {
    text: String,
    policy: ProofreadingPolicy,
}

impl ProofreadingRequest {
    pub closed spec fn spec_text(&self) -> Seq<char> {
        self.text@
    }

    pub closed spec fn spec_policy(&self) -> ProofreadingPolicy {
        self.policy
    }

    /// A request under the strict policy.
    pub fn new(text: &str) -> (r: Self)
        ensures
            r.spec_text() == text@,
            r.spec_policy().is_strict(),
    {
        ProofreadingRequest { text: owned(text), policy: ProofreadingPolicy::strict() }
    }

    pub fn text(&self) -> (r: &str)
        ensures
            r@ == self.spec_text(),
    {
        self.text.as_str()
    }

    pub fn policy(&self) -> (r: ProofreadingPolicy)
        ensures
            r == self.spec_policy(),
    {
        self.policy
    }
}

/// A corrected text and a short explanation of what changed.
#[derive(Clone, Debug, PartialEq, Eq)]
pub struct ProofreadingCorrection {
    corrected_text: String,
    explanation: String,
}

impl ProofreadingCorrection {
    pub closed spec fn spec_corrected(&self) -> Seq<char> {
        self.corrected_text@
    }

    pub closed spec fn spec_explanation(&self) -> Seq<char> {
        self.explanation@
    }

    pub fn new(corrected_text: &str, explanation: &str) -> (r: Self)
        ensures
            r.spec_corrected() == corrected_text@,
            r.spec_explanation() == explanation@,
    {
        ProofreadingCorrection { corrected_text: owned(corrected_text), explanation: owned(explanation) }
    }

    pub fn corrected_text(&self) -> (r: &str)
        ensures
            r@ == self.spec_corrected(),
    {
        self.corrected_text.as_str()
    }

    pub fn explanation(&self) -> (r: &str)
        ensures
            r@ == self.spec_explanation(),
    {
        self.explanation.as_str()
    }
}

/// What a proofreader answers.
#[derive(Clone, Debug, PartialEq, Eq)]
pub enum ProofreaderResponse {
    NoIssues,
    Corrected(ProofreadingCorrection),
}

/// A checked proofreading outcome.
#[derive(Clone, Debug, PartialEq, Eq)]
pub enum ProofreadingResult {
    NoIssues,
    Corrected(ProofreadingCorrection),
}

/// Why a proofreader did not answer.
#[derive(Clone, Copy, Debug, PartialEq, Eq, Structural)]
pub enum ProofreaderError {
    MissingCredential,
    Authentication,
    RateLimited,
    QuotaExceeded,
    Offline,
    TimedOut,
    Refused,
    Incomplete,
    MalformedResponse,
    ResponseTooLarge,
    ServiceUnavailable,
    Cancelled,
    Failed,
}

/// Why proofreading produced no result.
#[derive(Clone, Debug, PartialEq, Eq)]
pub enum ProofreadingFailure {
    EmptyInput,
    InputTooLong { maximum_characters: usize, actual_characters: usize },
    EstimatedInputTooLarge { maximum_estimated_tokens: usize, estimated_tokens: usize },
    ConsentRequired,
    Cancelled,
    InvalidResult,
    PolicyViolation(ProofreadingPolicyViolation),
    Provider(ProofreaderError),
}

/// A proofreading service.
pub trait Proofreader {
    /// Whether `response` may be the service's answer to a request for `text` under
    /// `policy`. A service that does not say otherwise may give any answer.
    open spec fn answers(
        &self,
        text: Seq<char>,
        policy: ProofreadingPolicy,
        response: Result<ProofreaderResponse, ProofreaderError>,
    ) -> bool {
        true
    }

    fn proofread(
        &self,
        request: &ProofreadingRequest,
        cancellation: &CancellationToken,
    ) -> (r: Result<ProofreaderResponse, ProofreaderError>)
        ensures
            self.answers(request.spec_text(), request.spec_policy(), r),
    ;
}

/// A token estimate that never undercounts: one token per UTF-8 byte.
pub open spec fn spec_token_estimate(text: Seq<char>) -> usize {
    vstd::utf8::encode_utf8(text).len() as usize
}

/// A conservative estimate of the tokens a text needs: its length in UTF-8 bytes.
pub fn conservative_token_estimate(text: &str) -> (r: usize)
    ensures
        r == spec_token_estimate(text@),
{
    text.len()
}

/// The failure, if any, that rules a selection out before any proofreader sees it.
pub open spec fn proofreading_input_failure(text: &str, consent: ProofreadingConsent) -> Option<
    ProofreadingFailure,
> {
    proofreading_text_failure(text@, consent)
}

/// The failure, if any, that rules the characters of a selection out before any
/// proofreader sees them.
pub open spec fn proofreading_text_failure(text: Seq<char>, consent: ProofreadingConsent) -> Option<
    ProofreadingFailure,
> {
    if is_blank(text) {
        Some(ProofreadingFailure::EmptyInput)
    } else if text.len() > MAX_PROOFREADING_CHARACTERS {
        Some(
            ProofreadingFailure::InputTooLong {
                maximum_characters: MAX_PROOFREADING_CHARACTERS,
                actual_characters: text.len() as usize,
            },
        )
    } else if spec_token_estimate(text) > MAX_PROOFREADING_ESTIMATED_TOKENS {
        Some(
            ProofreadingFailure::EstimatedInputTooLarge {
                maximum_estimated_tokens: MAX_PROOFREADING_ESTIMATED_TOKENS,
                estimated_tokens: spec_token_estimate(text),
            },
        )
    } else if consent != ProofreadingConsent::Granted {
        Some(ProofreadingFailure::ConsentRequired)
    } else {
        None
    }
}

/// How a proofreader's error is reported: its cancellation as a cancellation, others as they are.
pub open spec fn provider_failure(error: ProofreaderError) -> ProofreadingFailure {
    if error == ProofreaderError::Cancelled {
        ProofreadingFailure::Cancelled
    } else {
        ProofreadingFailure::Provider(error)
    }
}

/// What becomes of a correction of `original`: refused when blank or unchanged, refused when it
/// breaks the layout policy, accepted otherwise.
pub open spec fn correction_failure(original: Seq<char>, corrected: Seq<char>) -> Option<
    ProofreadingFailure,
> {
    if is_blank(corrected) || corrected == original {
        Some(ProofreadingFailure::InvalidResult)
    } else {
        let v = spec_policy_validation(original, corrected);
        match spec_first_violation(v.0, v.1, v.2) {
            Some(violation) => Some(ProofreadingFailure::PolicyViolation(violation)),
            None => None,
        }
    }
}

/// Whether `r` is what an answer `response` to proofreading `original` gives when no
/// cancellation came: a provider error as its failure, no issues as such, and a correction
/// when it is usable.
pub open spec fn is_checked_answer(
    original: Seq<char>,
    response: Result<ProofreaderResponse, ProofreaderError>,
    r: Result<ProofreadingResult, ProofreadingFailure>,
) -> bool {
    match response {
        Err(e) => r == Err::<ProofreadingResult, ProofreadingFailure>(provider_failure(e)),
        Ok(ProofreaderResponse::NoIssues) => r == Ok::<ProofreadingResult, ProofreadingFailure>(
            ProofreadingResult::NoIssues,
        ),
        Ok(ProofreaderResponse::Corrected(c)) => match correction_failure(original, c.spec_corrected()) {
            Some(f) => r == Err::<ProofreadingResult, ProofreadingFailure>(f),
            None => r == Ok::<ProofreadingResult, ProofreadingFailure>(ProofreadingResult::Corrected(c)),
        },
    }
}

/// Whether a failure is one that only the selection or the consent causes.
pub open spec fn is_input_failure(failure: ProofreadingFailure) -> bool {
    ||| failure is EmptyInput
    ||| failure is InputTooLong
    ||| failure is EstimatedInputTooLarge
    ||| failure is ConsentRequired
}

/// Proofreads a selection with a proofreading service.
pub struct ProofreadText<P: ?Sized> {
    proofreader: Arc<P>,
}

impl<P: Proofreader + ?Sized> ProofreadText<P> {
    /// The proofreader service the use case asks.
    pub closed spec fn spec_proofreader(&self) -> Arc<P> {
        self.proofreader
    }

    pub fn new(proofreader: Arc<P>) -> (r: Self)
        ensures
            r.spec_proofreader() == proofreader,
    {
        ProofreadText { proofreader }
    }

    /// Validates a selection and the user's consent, and builds the strict request.
    pub fn request_for(text: &str, consent: ProofreadingConsent) -> (r: Result<
        ProofreadingRequest,
        ProofreadingFailure,
    >)
        ensures
            proofreading_input_failure(text, consent) matches Some(f) ==> r == Err::<
                ProofreadingRequest,
                ProofreadingFailure,
            >(f),
            proofreading_input_failure(text, consent) is None ==> (r matches Ok(req)
                && req.spec_text() == text@ && req.spec_policy().is_strict()),
    {
        if text_is_blank(text) {
            return Err(ProofreadingFailure::EmptyInput);
        }
        let count = char_count(text);
        if count > MAX_PROOFREADING_CHARACTERS {
            return Err(
                ProofreadingFailure::InputTooLong {
                    maximum_characters: MAX_PROOFREADING_CHARACTERS,
                    actual_characters: count,
                },
            );
        }
        let estimate = conservative_token_estimate(text);
        if estimate > MAX_PROOFREADING_ESTIMATED_TOKENS {
            return Err(
                ProofreadingFailure::EstimatedInputTooLarge {
                    maximum_estimated_tokens: MAX_PROOFREADING_ESTIMATED_TOKENS,
                    estimated_tokens: estimate,
                },
            );
        }
        if consent != ProofreadingConsent::Granted {
            return Err(ProofreadingFailure::ConsentRequired);
        }
        Ok(ProofreadingRequest::new(text))
    }

    /// Checks a proofreader's answer to a request.
    ///
    /// A provider error comes first; then a cancellation observed after the call; a
    /// correction is refused when it is blank, unchanged or breaks the layout policy.
    pub fn result_for(
        request: &ProofreadingRequest,
        response: Result<ProofreaderResponse, ProofreaderError>,
        cancelled: bool,
    ) -> (r: Result<ProofreadingResult, ProofreadingFailure>)
        ensures
            match response {
                Err(e) => r == Err::<ProofreadingResult, ProofreadingFailure>(provider_failure(e)),
                Ok(resp) => if cancelled {
                    r == Err::<ProofreadingResult, ProofreadingFailure>(ProofreadingFailure::Cancelled)
                } else {
                    match resp {
                        ProofreaderResponse::NoIssues => r == Ok::<
                            ProofreadingResult,
                            ProofreadingFailure,
                        >(ProofreadingResult::NoIssues),
                        ProofreaderResponse::Corrected(c) => match correction_failure(
                            request.spec_text(),
                            c.spec_corrected(),
                        ) {
                            Some(f) => r == Err::<ProofreadingResult, ProofreadingFailure>(f),
                            None => r == Ok::<ProofreadingResult, ProofreadingFailure>(
                                ProofreadingResult::Corrected(c),
                            ),
                        },
                    }
                },
            },
    {
        let response = match response {
            Err(ProofreaderError::Cancelled) => return Err(ProofreadingFailure::Cancelled),
            Err(error) => return Err(ProofreadingFailure::Provider(error)),
            Ok(response) => response,
        };
        if cancelled {
            return Err(ProofreadingFailure::Cancelled);
        }
        match response {
            ProofreaderResponse::NoIssues => Ok(ProofreadingResult::NoIssues),
            ProofreaderResponse::Corrected(correction) => {
                if text_is_blank(correction.corrected_text.as_str()) || correction.corrected_text
                    == request.text {
                    return Err(ProofreadingFailure::InvalidResult);
                }
                let validation = evaluate_proofreading_policy(
                    request.text.as_str(),
                    correction.corrected_text.as_str(),
                );
                match validation.first_violation() {
                    Some(violation) => Err(ProofreadingFailure::PolicyViolation(violation)),
                    None => Ok(ProofreadingResult::Corrected(correction)),
                }
            },
        }
    }

    /// Validates the selection and consent, asks the proofreader and checks its answer.
    ///
    /// The proofreader is not called for a request already cancelled or a selection that
    /// `request_for` refuses; whatever it answers, the outcome is what `result_for` makes of it.
    pub fn execute(&self, text: &str, consent: ProofreadingConsent, cancellation: &CancellationToken) -> (r:
        Result<ProofreadingResult, ProofreadingFailure>)
        ensures
            proofreading_input_failure(text, consent) matches Some(f) ==> (r == Err::<
                ProofreadingResult,
                ProofreadingFailure,
            >(ProofreadingFailure::Cancelled) || r == Err::<ProofreadingResult, ProofreadingFailure>(
                f,
            )),
            r matches Ok(ProofreadingResult::Corrected(c)) ==> correction_failure(
                text@,
                c.spec_corrected(),
            ) is None,
            proofreading_input_failure(text, consent) is None ==> r == Err::<
                ProofreadingResult,
                ProofreadingFailure,
            >(ProofreadingFailure::Cancelled) || exists|response: Result<ProofreaderResponse, ProofreaderError>|
                #[trigger] self.spec_proofreader().answers(text@, ProofreadingPolicy::spec_strict(), response)
                    && is_checked_answer(text@, response, r),
            r matches Err(f) ==> (is_input_failure(f) ==> proofreading_input_failure(text, consent) == Some(f)),
    {
        if cancellation.is_cancelled() {
            return Err(ProofreadingFailure::Cancelled);
        }
        let request = Self::request_for(text, consent)?;
        let response = self.proofreader.proofread(&request, cancellation);
        proof {
            ProofreadingPolicy::lemma_strict_is_the_strict_policy(request.spec_policy());
        }
        assert(self.spec_proofreader().answers(text@, ProofreadingPolicy::spec_strict(), response));
        let cancelled = cancellation.is_cancelled();
        Self::result_for(&request, response, cancelled)
    }
}

} // verus!
