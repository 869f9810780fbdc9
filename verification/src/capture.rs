//! Text captured from the user's selection.
use vstd::prelude::*;

use crate::text::{is_blank, text_is_blank, owned, text_eq};

verus! {

/// A non-blank selection, optionally with surrounding text that helps identify its language.
#[derive(Debug, PartialEq, Eq)]
pub struct CapturedText {
    text: String,
    language_detection_context: Option<String>,
}

/// The characters of an optional text.
pub open spec fn opt_text(o: Option<String>) -> Option<Seq<char>> {
    match o {
        Some(s) => Some(s@),
        None => None,
    }
}

impl View for CapturedText {
    type V = (Seq<char>, Option<Seq<char>>);

    closed spec fn view(&self) -> (Seq<char>, Option<Seq<char>>) {
        (self.text@, opt_text(self.language_detection_context))
    }
}

/// A context worth keeping for a selection: not blank and not the selection itself.
pub open spec fn is_useful_context(context: Seq<char>, text: Seq<char>) -> bool {
    !is_blank(context) && context != text
}

impl CapturedText {
    #[verifier::type_invariant]
    closed spec fn inv(self) -> bool {
        &&& !is_blank(self.text@)
        &&& match self.language_detection_context {
            Some(c) => is_useful_context(c@, self.text@),
            None => true,
        }
    }

    /// Accepts any selection that is not blank, keeping it exactly as selected.
    pub fn new(text: &str) -> (r: Result<Self, CaptureFailure>)
        ensures
            is_blank(text@) ==> r == Err::<Self, CaptureFailure>(CaptureFailure::NoSelection),
            !is_blank(text@) ==> (r matches Ok(c) && c@ == (text@, None::<Seq<char>>)),
    {
        if text_is_blank(text) {
            return Err(CaptureFailure::NoSelection);
        }
        Ok(CapturedText { text: owned(text), language_detection_context: None })
    }

    /// The selection, which is never blank.
    pub fn as_str(&self) -> (r: &str)
        ensures
            r@ == self@.0,
            !is_blank(r@),
    {
        proof {
            use_type_invariant(self);
        }
        self.text.as_str()
    }

    pub fn language_detection_context(&self) -> (r: Option<&str>)
        ensures
            r is Some <==> self@.1 is Some,
            r matches Some(c) ==> self@.1 == Some(c@),
    {
        match &self.language_detection_context {
            Some(c) => Some(c.as_str()),
            None => None,
        }
    }

    /// Attaches surrounding text; a blank context or one equal to the selection is ignored.
    pub fn with_language_detection_context(self, context: &str) -> (r: Self)
        ensures
            is_useful_context(context@, self@.0) ==> r@ == (self@.0, Some(context@)),
            !is_useful_context(context@, self@.0) ==> r@ == self@,
    {
        proof {
            use_type_invariant(&self);
        }
        if !text_is_blank(context) && !text_eq(context, self.text.as_str()) {
            CapturedText { text: self.text, language_detection_context: Some(owned(context)) }
        } else {
            self
        }
    }

    pub fn into_string(self) -> (r: String)
        ensures
            r@ == self@.0,
    {
        self.text
    }

    pub fn into_parts(self) -> (r: (String, Option<String>))
        ensures
            (r.0@, opt_text(r.1)) == self@,
    {
        (self.text, self.language_detection_context)
    }
}

impl Clone for CapturedText {
    fn clone(&self) -> (r: Self)
        ensures
            r@ == self@,
    {
        proof {
            use_type_invariant(self);
        }
        let context = match &self.language_detection_context {
            Some(c) => Some(c.clone()),
            None => None,
        };
        CapturedText { text: self.text.clone(), language_detection_context: context }
    }
}

/// Why a selection could not be captured.
#[derive(Clone, Copy, Debug, PartialEq, Eq, Structural)]
pub enum CaptureFailure {
    NoSelection,
    TimedOut,
    PermissionDenied,
    SecureField,
    FieldSecurityUnavailable,
    UnsupportedContent,
    ClipboardUnavailable,
    Cancelled,
}

/// A source of the user's current selection.
pub trait TextCapture {
    fn capture(&self) -> Result<CapturedText, CaptureFailure>;

    fn capture_with_language_detection_context(&self) -> Result<CapturedText, CaptureFailure> {
        self.capture()
    }
}

} // verus!
