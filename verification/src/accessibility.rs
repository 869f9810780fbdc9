//! What the accessibility API tells about the focused element: whether it is a secure
//! text field, and the text around the selection that helps detect its language.
//!
//! The queries go through [`AccessibilityReader`], which the platform layer implements;
//! the decisions taken on their answers are the functions of this module.
use vstd::prelude::*;

verus! {

/// How many characters on each side of the selection serve as language context.
pub const LANGUAGE_CONTEXT_RADIUS: isize = 192;

/// How many ancestors of the focused element are searched for language context.
pub const LANGUAGE_CONTEXT_ANCESTOR_LIMIT: usize = 8;

/// Whether the focused element is a secure text field.
#[derive(Clone, Copy, Debug, PartialEq, Eq, Structural)]
pub enum FocusedElementSecurity {
    NotSecure,
    Secure,
    Unknown,
}

/// The answer to an attribute query.
#[derive(Clone, Copy, Debug, PartialEq, Eq)]
pub enum AttributeValue<T> {
    Value(T),
    NoValue,
    Failed,
}

/// The kind of answer an attribute query gave, without the value.
#[derive(Clone, Copy, Debug, PartialEq, Eq, Structural)]
pub enum AttributeAnswer {
    Value,
    NoValue,
    Failed,
}

/// The accessibility names the queries use.
#[derive(Clone, Copy, Debug, PartialEq, Eq, Structural)]
pub enum AxName {
    FocusedUiElement,
    Role,
    TextFieldRole,
    Subrole,
    SecureTextFieldSubrole,
}

/// A range of characters, as the accessibility API reports it.
#[derive(Clone, Copy, Debug, PartialEq, Eq, Structural)]
pub struct TextRange {
    pub location: isize,
    pub length: isize,
}

/// What the capture needs to know from the accessibility API.
///
/// Each answer is one its `gives_*` functions allow; an implementation that does not say
/// otherwise may give any answer.
pub trait AccessibilityStatus {
    /// Whether `answer` may be the answer to whether the process is trusted.
    open spec fn gives_trusted(&self, answer: bool) -> bool {
        true
    }

    /// Whether the process may use the accessibility API.
    fn is_trusted(&self) -> (r: bool)
        ensures
            self.gives_trusted(r),
    ;

    /// Whether `answer` may be the focused element's security.
    open spec fn gives_security(&self, answer: FocusedElementSecurity) -> bool {
        true
    }

    /// Whether the focused element is a secure text field.
    fn focused_element_security(&self) -> (r: FocusedElementSecurity)
        ensures
            self.gives_security(r),
    ;

    /// Whether `answer` may be the text around the selection in the focused element.
    open spec fn gives_context(&self, answer: Option<Seq<char>>) -> bool {
        true
    }

    /// Text around the selection in the focused element, if it can be read.
    fn selected_text_context(&self) -> (r: Option<String>)
        ensures
            self.gives_context(text_view(r)),
    ;
}

/// Queries on accessibility elements.
///
/// Each answer is one the reader may give, as its `gives_*` functions say; a reader that
/// does not say otherwise may give any answer.
pub trait AccessibilityReader {
    type Value;

    /// Whether `answer` may be the system-wide element.
    open spec fn gives_system_wide(&self, answer: Option<Self::Value>) -> bool {
        true
    }

    fn system_wide_element(&self) -> (r: Option<Self::Value>)
        ensures
            self.gives_system_wide(r),
    ;

    /// Whether `answer` may be the frontmost application.
    open spec fn gives_frontmost(&self, answer: Option<Self::Value>) -> bool {
        true
    }

    fn frontmost_application(&self) -> (r: Option<Self::Value>)
        ensures
            self.gives_frontmost(r),
    ;

    /// Whether `answer` may be the value made for the accessibility name `name`.
    open spec fn gives_string(&self, name: AxName, answer: Option<Self::Value>) -> bool {
        true
    }

    fn string(&self, name: AxName) -> (r: Option<Self::Value>)
        ensures
            self.gives_string(name, r),
    ;

    /// Whether `answer` may be what querying `attribute` of `element` gives.
    open spec fn gives_attribute(
        &self,
        element: Self::Value,
        attribute: Self::Value,
        answer: AttributeValue<Self::Value>,
    ) -> bool {
        true
    }

    fn attribute(&self, element: &Self::Value, attribute: &Self::Value) -> (r: AttributeValue<Self::Value>)
        ensures
            self.gives_attribute(*element, *attribute, r),
    ;

    /// Whether `answer` may be the answer to whether `value` is a string.
    open spec fn gives_is_string(&self, value: Self::Value, answer: bool) -> bool {
        true
    }

    fn is_string(&self, value: &Self::Value) -> (r: bool)
        ensures
            self.gives_is_string(*value, r),
    ;

    /// Whether `answer` may be the answer to whether two values are equal.
    open spec fn gives_equal(&self, first: Self::Value, second: Self::Value, answer: bool) -> bool {
        true
    }

    fn equal(&self, first: &Self::Value, second: &Self::Value) -> (r: bool)
        ensures
            self.gives_equal(*first, *second, r),
    ;

    /// Whether `answer` may be the parent of `element`.
    open spec fn gives_parent(&self, element: Self::Value, answer: Option<Self::Value>) -> bool {
        true
    }

    /// The parent of an element, if it has one that can be read.
    fn parent(&self, element: &Self::Value) -> (r: Option<Self::Value>)
        ensures
            self.gives_parent(*element, r),
    ;

    /// Whether `answer` may be the text around the selection of `element`.
    open spec fn gives_context(&self, element: Self::Value, answer: Option<Seq<char>>) -> bool {
        true
    }

    /// Text around the selection of an element, if it can be read.
    fn selected_text_context(&self, element: &Self::Value) -> (r: Option<String>)
        ensures
            self.gives_context(*element, text_view(r)),
    ;
}

/// The characters of an optional text.
pub open spec fn text_view(text: Option<String>) -> Option<Seq<char>> {
    match text {
        Some(t) => Some(t@),
        None => None,
    }
}

/// The kind of an attribute answer.
pub open spec fn answer_of<T>(value: AttributeValue<T>) -> AttributeAnswer {
    match value {
        AttributeValue::Value(_) => AttributeAnswer::Value,
        AttributeValue::NoValue => AttributeAnswer::NoValue,
        AttributeValue::Failed => AttributeAnswer::Failed,
    }
}

/// The security when the system reports no focused element and the frontmost
/// application answered `frontmost`: an explicit absence means there is no source field,
/// any failure stays unknown.
pub open spec fn spec_unfocused_security(frontmost: AttributeAnswer) -> FocusedElementSecurity {
    match frontmost {
        AttributeAnswer::NoValue => FocusedElementSecurity::NotSecure,
        _ => FocusedElementSecurity::Unknown,
    }
}

/// The security when the system reports no focused element.
pub fn unfocused_security(frontmost: AttributeAnswer) -> (r: FocusedElementSecurity)
    ensures
        r == spec_unfocused_security(frontmost),
{
    match frontmost {
        AttributeAnswer::NoValue => FocusedElementSecurity::NotSecure,
        _ => FocusedElementSecurity::Unknown,
    }
}

/// The security of a focused element from its subrole: a string subrole decides by
/// whether it is the secure one; a subrole of another type is unknown; a missing subrole is
/// unknown for a text field and not secure for anything else.
pub open spec fn spec_subrole_security(
    is_text_field: bool,
    subrole: AttributeAnswer,
    subrole_is_string: bool,
    subrole_is_secure: bool,
) -> FocusedElementSecurity {
    match subrole {
        AttributeAnswer::Value => if !subrole_is_string {
            FocusedElementSecurity::Unknown
        } else if subrole_is_secure {
            FocusedElementSecurity::Secure
        } else {
            FocusedElementSecurity::NotSecure
        },
        _ => if is_text_field {
            FocusedElementSecurity::Unknown
        } else {
            FocusedElementSecurity::NotSecure
        },
    }
}

/// The security of a focused element from its subrole.
pub fn subrole_security(
    is_text_field: bool,
    subrole: AttributeAnswer,
    subrole_is_string: bool,
    subrole_is_secure: bool,
) -> (r: FocusedElementSecurity)
    ensures
        r == spec_subrole_security(is_text_field, subrole, subrole_is_string, subrole_is_secure),
{
    match subrole {
        AttributeAnswer::Value => {
            if !subrole_is_string {
                FocusedElementSecurity::Unknown
            } else if subrole_is_secure {
                FocusedElementSecurity::Secure
            } else {
                FocusedElementSecurity::NotSecure
            }
        },
        _ => {
            if is_text_field {
                FocusedElementSecurity::Unknown
            } else {
                FocusedElementSecurity::NotSecure
            }
        },
    }
}

/// A field is reported secure only when its subrole is the secure text field subrole.
pub proof fn law_secure_only_with_the_secure_subrole(
    is_text_field: bool,
    subrole: AttributeAnswer,
    subrole_is_string: bool,
    subrole_is_secure: bool,
)
    ensures
        spec_subrole_security(is_text_field, subrole, subrole_is_string, subrole_is_secure)
            == FocusedElementSecurity::Secure <==> (subrole == AttributeAnswer::Value
            && subrole_is_string && subrole_is_secure),
{
}

/// A text field whose subrole cannot be read is never taken for a safe field.
pub proof fn law_text_fields_fail_closed(subrole: AttributeAnswer, subrole_is_string: bool, subrole_is_secure: bool)
    requires
        subrole != AttributeAnswer::Value,
    ensures
        spec_subrole_security(true, subrole, subrole_is_string, subrole_is_secure)
            == FocusedElementSecurity::Unknown,
{
}

/// What looking up the focused element asked and was told: the system-wide element and
/// its focused element, then, when that gave none, the frontmost application and its
/// focused element. A missing element stands for a failed query.
pub struct FocusQueries<V> {
    pub system: Option<V>,
    pub system_focus: AttributeValue<V>,
    pub frontmost: Option<V>,
    pub frontmost_focus: AttributeValue<V>,
}

/// Whether `reader` may have given the answers of `q` to a lookup with `focused_attribute`.
pub open spec fn gave_focus<R: AccessibilityReader>(reader: &R, focused_attribute: R::Value, q: FocusQueries<R::Value>) -> bool {
    &&& reader.gives_system_wide(q.system)
    &&& q.system matches Some(system) ==> reader.gives_attribute(system, focused_attribute, q.system_focus)
    &&& q.system is None ==> q.system_focus is Failed
    &&& !(q.system_focus is Value) ==> {
        &&& reader.gives_frontmost(q.frontmost)
        &&& q.frontmost matches Some(app) ==> reader.gives_attribute(app, focused_attribute, q.frontmost_focus)
        &&& q.frontmost is None ==> q.frontmost_focus is Failed
    }
}

/// The focused element those answers give: the system-wide one, else the frontmost
/// application's, else the frontmost application's answer.
pub open spec fn spec_focus_result<V>(q: FocusQueries<V>) -> Result<V, AttributeAnswer> {
    match q.system_focus {
        AttributeValue::Value(element) => Ok(element),
        _ => match q.frontmost_focus {
            AttributeValue::Value(element) => Ok(element),
            AttributeValue::NoValue => Err(AttributeAnswer::NoValue),
            AttributeValue::Failed => Err(AttributeAnswer::Failed),
        },
    }
}

/// Looks up the focused element: the system-wide focus first, then the frontmost
/// application's. Gives the element, or the frontmost application's answer when neither
/// named one.
fn focused_element<R: AccessibilityReader>(reader: &R, focused_attribute: &R::Value) -> (r: Result<
    R::Value,
    AttributeAnswer,
>)
    ensures
        exists|q: FocusQueries<R::Value>| #[trigger] gave_focus(reader, *focused_attribute, q) && r == spec_focus_result(q),
{
    let system_wide = reader.system_wide_element();
    let ghost system_answer = system_wide;
    let system = match system_wide {
        Some(system_wide) => reader.attribute(&system_wide, focused_attribute),
        None => AttributeValue::Failed,
    };
    let ghost system_focus = system;
    match system {
        AttributeValue::Value(element) => {
            let ghost q = FocusQueries {
                system: system_answer,
                system_focus,
                frontmost: None,
                frontmost_focus: AttributeValue::Failed,
            };
            assert(gave_focus(reader, *focused_attribute, q) && Ok::<R::Value, AttributeAnswer>(element) == spec_focus_result(q));
            Ok(element)
        },
        _ => {
            let application = reader.frontmost_application();
            let ghost frontmost_answer = application;
            let frontmost = match application {
                Some(application) => reader.attribute(&application, focused_attribute),
                None => AttributeValue::Failed,
            };
            let ghost q = FocusQueries {
                system: system_answer,
                system_focus,
                frontmost: frontmost_answer,
                frontmost_focus: frontmost,
            };
            assert(gave_focus(reader, *focused_attribute, q));
            let r = match frontmost {
                AttributeValue::Value(element) => Ok(element),
                AttributeValue::NoValue => Err(AttributeAnswer::NoValue),
                AttributeValue::Failed => Err(AttributeAnswer::Failed),
            };
            assert(r == spec_focus_result(q));
            r
        },
    }
}

/// What the security check learns from the accessibility API, in the order it asks: whether
/// the focused-element name could be made; the frontmost application's answer when no
/// focused element was found (none when one was); whether the role could be read as a
/// string; whether the names it compares with could be made; and what the subrole was.
#[derive(Clone, Copy, Debug, PartialEq, Eq)]
pub struct SecurityAnswers {
    pub focused_name: bool,
    pub unfocused: Option<AttributeAnswer>,
    pub role_is_string: bool,
    pub comparison_names: bool,
    pub is_text_field: bool,
    pub subrole: AttributeAnswer,
    pub subrole_is_string: bool,
    pub subrole_is_secure: bool,
}

/// The security those answers give: each missing answer, or one of an unexpected type,
/// leaves it unknown, and the decisions are those of [`spec_unfocused_security`] and
/// [`spec_subrole_security`].
pub open spec fn spec_security_from_answers(a: SecurityAnswers) -> FocusedElementSecurity {
    if !a.focused_name {
        FocusedElementSecurity::Unknown
    } else {
        match a.unfocused {
            Some(frontmost) => spec_unfocused_security(frontmost),
            None => if !a.role_is_string || !a.comparison_names {
                FocusedElementSecurity::Unknown
            } else {
                spec_subrole_security(a.is_text_field, a.subrole, a.subrole_is_string, a.subrole_is_secure)
            },
        }
    }
}

/// The security those answers give.
pub fn security_from_answers(a: SecurityAnswers) -> (r: FocusedElementSecurity)
    ensures
        r == spec_security_from_answers(a),
{
    if !a.focused_name {
        return FocusedElementSecurity::Unknown;
    }
    match a.unfocused {
        Some(frontmost) => unfocused_security(frontmost),
        None => {
            if !a.role_is_string || !a.comparison_names {
                FocusedElementSecurity::Unknown
            } else {
                subrole_security(a.is_text_field, a.subrole, a.subrole_is_string, a.subrole_is_secure)
            }
        },
    }
}

/// An element is reported secure only when it was found, its role was read, and its
/// subrole was read as the secure text field subrole.
pub proof fn law_secure_only_when_every_answer_says_so(a: SecurityAnswers)
    ensures
        spec_security_from_answers(a) == FocusedElementSecurity::Secure <==> (a.focused_name && a.unfocused is None
            && a.role_is_string && a.comparison_names && a.subrole == AttributeAnswer::Value && a.subrole_is_string
            && a.subrole_is_secure),
{
}

/// Every query the security check makes and the answer it got, in order. Each later query
/// is only made when the earlier ones gave what it needs.
pub struct SecurityQueries<V> {
    pub focused_attribute: Option<V>,
    pub focus: FocusQueries<V>,
    pub role_attribute: Option<V>,
    pub role: AttributeValue<V>,
    pub role_is_string: bool,
    pub text_field_role: Option<V>,
    pub subrole_attribute: Option<V>,
    pub secure_subrole: Option<V>,
    pub is_text_field: bool,
    pub subrole: AttributeValue<V>,
    pub subrole_is_string: bool,
    pub subrole_equals_secure: bool,
}

/// Whether `reader` may have given the answers of `q`, each query asked on what the
/// earlier answers gave.
pub open spec fn gave_security<R: AccessibilityReader>(reader: &R, q: SecurityQueries<R::Value>) -> bool {
    &&& reader.gives_string(AxName::FocusedUiElement, q.focused_attribute)
    &&& q.focused_attribute matches Some(focused) ==> {
        &&& gave_focus(reader, focused, q.focus)
        &&& spec_focus_result(q.focus) matches Ok(element) ==> {
            &&& reader.gives_string(AxName::Role, q.role_attribute)
            &&& q.role_attribute matches Some(role_attribute) ==> {
                &&& reader.gives_attribute(element, role_attribute, q.role)
                &&& q.role matches AttributeValue::Value(role) ==> {
                    &&& reader.gives_is_string(role, q.role_is_string)
                    &&& q.role_is_string ==> {
                        &&& reader.gives_string(AxName::TextFieldRole, q.text_field_role)
                        &&& q.text_field_role is Some ==> reader.gives_string(AxName::Subrole, q.subrole_attribute)
                        &&& q.text_field_role is Some && q.subrole_attribute is Some ==> reader.gives_string(
                            AxName::SecureTextFieldSubrole,
                            q.secure_subrole,
                        )
                        &&& q.text_field_role matches Some(text_field_role) ==> q.subrole_attribute matches Some(
                            subrole_attribute,
                        ) ==> q.secure_subrole matches Some(secure) ==> {
                            &&& reader.gives_equal(role, text_field_role, q.is_text_field)
                            &&& reader.gives_attribute(element, subrole_attribute, q.subrole)
                            &&& q.subrole matches AttributeValue::Value(subrole) ==> {
                                &&& reader.gives_is_string(subrole, q.subrole_is_string)
                                &&& q.subrole_is_string ==> reader.gives_equal(subrole, secure, q.subrole_equals_secure)
                            }
                        }
                    }
                }
            }
        }
    }
}

/// The answers the security decision reads, from the queries made.
pub open spec fn answers_of<V>(q: SecurityQueries<V>) -> SecurityAnswers {
    SecurityAnswers {
        focused_name: q.focused_attribute is Some,
        unfocused: match spec_focus_result(q.focus) {
            Ok(_) => None,
            Err(answer) => Some(answer),
        },
        role_is_string: q.role_attribute is Some && q.role is Value && q.role_is_string,
        comparison_names: q.text_field_role is Some && q.subrole_attribute is Some && q.secure_subrole is Some,
        is_text_field: q.is_text_field,
        subrole: answer_of(q.subrole),
        subrole_is_string: q.subrole is Value && q.subrole_is_string,
        subrole_is_secure: q.subrole is Value && q.subrole_is_string && q.subrole_equals_secure,
    }
}

/// Whether the focused element is a secure text field. Every query that fails, and every
/// answer of an unexpected type, makes the answer unknown: the result is what
/// [`security_from_answers`] decides on the answers the reader gave.
pub fn focused_element_security<R: AccessibilityReader>(reader: &R) -> (r: FocusedElementSecurity)
    ensures
        exists|q: SecurityQueries<R::Value>|
            #[trigger] gave_security(reader, q) && r == spec_security_from_answers(answers_of(q)),
{
    let mut a = SecurityAnswers {
        focused_name: false,
        unfocused: None,
        role_is_string: false,
        comparison_names: false,
        is_text_field: false,
        subrole: AttributeAnswer::Failed,
        subrole_is_string: false,
        subrole_is_secure: false,
    };
    let focused_name = reader.string(AxName::FocusedUiElement);
    let ghost mut q = SecurityQueries {
        focused_attribute: focused_name,
        focus: FocusQueries {
            system: None,
            system_focus: AttributeValue::Failed,
            frontmost: None,
            frontmost_focus: AttributeValue::Failed,
        },
        role_attribute: None,
        role: AttributeValue::Failed,
        role_is_string: false,
        text_field_role: None,
        subrole_attribute: None,
        secure_subrole: None,
        is_text_field: false,
        subrole: AttributeValue::Failed,
        subrole_is_string: false,
        subrole_equals_secure: false,
    };
    let focused_attribute = match focused_name {
        Some(attribute) => attribute,
        None => {
            assert(gave_security(reader, q) && spec_security_from_answers(answers_of(q)) == spec_security_from_answers(a));
            return security_from_answers(a);
        },
    };
    a.focused_name = true;
    let found = focused_element(reader, &focused_attribute);
    proof {
        let focus = choose|f: FocusQueries<R::Value>| #[trigger] gave_focus(reader, focused_attribute, f) && found == spec_focus_result(f);
        q.focus = focus;
    }
    let element = match found {
        Ok(element) => element,
        Err(answer) => {
            a.unfocused = Some(answer);
            assert(gave_security(reader, q) && spec_security_from_answers(answers_of(q)) == spec_security_from_answers(a));
            return security_from_answers(a);
        },
    };
    let role_name = reader.string(AxName::Role);
    proof {
        q.role_attribute = role_name;
    }
    let role_attribute = match role_name {
        Some(attribute) => attribute,
        None => {
            assert(gave_security(reader, q) && spec_security_from_answers(answers_of(q)) == spec_security_from_answers(a));
            return security_from_answers(a);
        },
    };
    let role_answer = reader.attribute(&element, &role_attribute);
    proof {
        q.role = role_answer;
    }
    let role = match role_answer {
        AttributeValue::Value(role) => role,
        _ => {
            assert(gave_security(reader, q) && spec_security_from_answers(answers_of(q)) == spec_security_from_answers(a));
            return security_from_answers(a);
        },
    };
    let role_is_string = reader.is_string(&role);
    proof {
        q.role_is_string = role_is_string;
    }
    if !role_is_string {
        assert(gave_security(reader, q) && spec_security_from_answers(answers_of(q)) == spec_security_from_answers(a));
        return security_from_answers(a);
    }
    a.role_is_string = true;
    let text_field_name = reader.string(AxName::TextFieldRole);
    proof {
        q.text_field_role = text_field_name;
    }
    let text_field_role = match text_field_name {
        Some(value) => value,
        None => {
            assert(gave_security(reader, q) && spec_security_from_answers(answers_of(q)) == spec_security_from_answers(a));
            return security_from_answers(a);
        },
    };
    let subrole_name = reader.string(AxName::Subrole);
    proof {
        q.subrole_attribute = subrole_name;
    }
    let subrole_attribute = match subrole_name {
        Some(attribute) => attribute,
        None => {
            assert(gave_security(reader, q) && spec_security_from_answers(answers_of(q)) == spec_security_from_answers(a));
            return security_from_answers(a);
        },
    };
    let secure_name = reader.string(AxName::SecureTextFieldSubrole);
    proof {
        q.secure_subrole = secure_name;
    }
    let secure_subrole = match secure_name {
        Some(value) => value,
        None => {
            assert(gave_security(reader, q) && spec_security_from_answers(answers_of(q)) == spec_security_from_answers(a));
            return security_from_answers(a);
        },
    };
    a.comparison_names = true;
    let is_text_field = reader.equal(&role, &text_field_role);
    a.is_text_field = is_text_field;
    let subrole_answer = reader.attribute(&element, &subrole_attribute);
    proof {
        q.is_text_field = is_text_field;
        q.subrole = subrole_answer;
    }
    match subrole_answer {
        AttributeValue::Value(subrole) => {
            let is_string = reader.is_string(&subrole);
            proof {
                q.subrole_is_string = is_string;
            }
            let is_secure = if is_string {
                let equal = reader.equal(&subrole, &secure_subrole);
                proof {
                    q.subrole_equals_secure = equal;
                }
                equal
            } else {
                false
            };
            a.subrole = AttributeAnswer::Value;
            a.subrole_is_string = is_string;
            a.subrole_is_secure = is_secure;
        },
        AttributeValue::NoValue => {
            a.subrole = AttributeAnswer::NoValue;
        },
        AttributeValue::Failed => {},
    }
    assert(gave_security(reader, q) && spec_security_from_answers(answers_of(q)) == spec_security_from_answers(a));
    security_from_answers(a)
}

/// Whether walking up from `elements[0]` asked the elements in turn and gave `found`:
/// every element but the last gave no context and had the next as its parent; the last gave
/// `found`; and a walk that found nothing ended at an element without parent or after
/// `LANGUAGE_CONTEXT_ANCESTOR_LIMIT` parents.
pub open spec fn is_context_walk<R: AccessibilityReader>(reader: &R, elements: Seq<R::Value>, found: Option<Seq<char>>) -> bool {
    &&& 1 <= elements.len() <= LANGUAGE_CONTEXT_ANCESTOR_LIMIT + 1
    &&& forall|i: int|
        0 <= i < elements.len() - 1 ==> #[trigger] reader.gives_context(elements[i], None) && reader.gives_parent(
            elements[i],
            Some(elements[i + 1]),
        )
    &&& reader.gives_context(elements.last(), found)
    &&& found is None ==> elements.len() == LANGUAGE_CONTEXT_ANCESTOR_LIMIT + 1 || reader.gives_parent(
        elements.last(),
        None,
    )
}

/// Whether `r` is the context the reader's answers give: none without a focused-element
/// name or a focused element; otherwise what walking up from the focused element found.
pub open spec fn is_focused_context<R: AccessibilityReader>(
    reader: &R,
    focused_name: Option<R::Value>,
    focus: FocusQueries<R::Value>,
    elements: Seq<R::Value>,
    r: Option<Seq<char>>,
) -> bool {
    &&& reader.gives_string(AxName::FocusedUiElement, focused_name)
    &&& focused_name is None ==> r is None
    &&& focused_name matches Some(name) ==> {
        &&& gave_focus(reader, name, focus)
        &&& match spec_focus_result(focus) {
            Err(_) => r is None,
            Ok(element) => elements.len() > 0 && elements[0] == element && is_context_walk(reader, elements, r),
        }
    }
}

/// Text around the selection of the focused element, or of the nearest of its first
/// ancestors that has some.
pub fn focused_selected_text_context<R: AccessibilityReader>(reader: &R) -> (r: Option<String>)
    ensures
        exists|focused_name: Option<R::Value>, focus: FocusQueries<R::Value>, elements: Seq<R::Value>|
            #[trigger] is_focused_context(reader, focused_name, focus, elements, text_view(r)),
{
    let focused_name = reader.string(AxName::FocusedUiElement);
    let ghost name_answer = focused_name;
    let ghost no_focus = FocusQueries {
        system: None,
        system_focus: AttributeValue::Failed,
        frontmost: None,
        frontmost_focus: AttributeValue::Failed,
    };
    let focused_attribute = match focused_name {
        Some(attribute) => attribute,
        None => {
            assert(is_focused_context(reader, name_answer, no_focus, Seq::empty(), None));
            return None;
        },
    };
    let found = focused_element(reader, &focused_attribute);
    let ghost focus = choose|f: FocusQueries<R::Value>| #[trigger] gave_focus(reader, focused_attribute, f) && found == spec_focus_result(f);
    let mut element = match found {
        Ok(element) => element,
        Err(_) => {
            assert(is_focused_context(reader, name_answer, focus, Seq::empty(), None));
            return None;
        },
    };
    let ghost mut elements: Seq<R::Value> = seq![element];
    let mut searched: usize = 0;
    while searched <= LANGUAGE_CONTEXT_ANCESTOR_LIMIT
        invariant
            searched <= LANGUAGE_CONTEXT_ANCESTOR_LIMIT + 1,
            elements.len() == searched + 1,
            elements.last() == element,
            elements[0] == spec_focus_result(focus)->Ok_0,
            spec_focus_result(focus) is Ok,
            name_answer == Some(focused_attribute),
            reader.gives_string(AxName::FocusedUiElement, name_answer),
            gave_focus(reader, focused_attribute, focus),
            forall|i: int|
                0 <= i < searched ==> #[trigger] reader.gives_context(elements[i], None) && reader.gives_parent(
                    elements[i],
                    Some(elements[i + 1]),
                ),
        decreases LANGUAGE_CONTEXT_ANCESTOR_LIMIT + 1 - searched,
    {
        let context = reader.selected_text_context(&element);
        match context {
            Some(c) => {
                assert(is_context_walk(reader, elements, Some(c@)));
                assert(is_focused_context(reader, name_answer, focus, elements, Some(c@)));
                return Some(c);
            },
            None => {},
        }
        let parent = reader.parent(&element);
        match parent {
            Some(p) => {
                proof {
                    let next = elements.push(p);
                    assert forall|i: int| 0 <= i < searched + 1 implies #[trigger] reader.gives_context(next[i], None)
                        && reader.gives_parent(next[i], Some(next[i + 1])) by {
                        if i < searched {
                            assert(next[i] == elements[i] && next[i + 1] == elements[i + 1]);
                        } else {
                            assert(next[i] == element && next[i + 1] == p);
                        }
                    }
                    elements = next;
                }
                element = p;
            },
            None => {
                assert(is_context_walk(reader, elements, None));
                assert(is_focused_context(reader, name_answer, focus, elements, None));
                return None;
            },
        }
        searched = searched + 1;
    }
    proof {
        let walked = elements.take(LANGUAGE_CONTEXT_ANCESTOR_LIMIT + 1);
        assert forall|i: int| 0 <= i < walked.len() - 1 implies #[trigger] reader.gives_context(walked[i], None)
            && reader.gives_parent(walked[i], Some(walked[i + 1])) by {
            assert(walked[i] == elements[i] && walked[i + 1] == elements[i + 1]);
        }
        assert(walked.last() == elements[LANGUAGE_CONTEXT_ANCESTOR_LIMIT as int]);
        assert(is_context_walk(reader, walked, None));
        assert(is_focused_context(reader, name_answer, focus, walked, None));
    }
    None
}

/// `x` limited to the range of `isize`.
pub open spec fn clamp_isize(x: int) -> int {
    if x < isize::MIN {
        isize::MIN as int
    } else if x > isize::MAX {
        isize::MAX as int
    } else {
        x
    }
}

/// Whether a value fits in `isize`.
pub open spec fn fits_isize(x: int) -> bool {
    isize::MIN <= x <= isize::MAX
}

/// `x - LANGUAGE_CONTEXT_RADIUS`, saturating.
fn before_radius(x: isize) -> (r: isize)
    ensures
        r == clamp_isize(x - LANGUAGE_CONTEXT_RADIUS),
{
    if x >= isize::MIN + LANGUAGE_CONTEXT_RADIUS {
        x - LANGUAGE_CONTEXT_RADIUS
    } else {
        isize::MIN
    }
}

/// `x + LANGUAGE_CONTEXT_RADIUS`, saturating.
fn after_radius(x: isize) -> (r: isize)
    ensures
        r == clamp_isize(x + LANGUAGE_CONTEXT_RADIUS),
{
    if x <= isize::MAX - LANGUAGE_CONTEXT_RADIUS {
        x + LANGUAGE_CONTEXT_RADIUS
    } else {
        isize::MAX
    }
}

/// Whether a selected range is usable: it starts at zero or later, is not empty, and its
/// end fits.
pub open spec fn spec_is_usable_selection(selected: TextRange) -> bool {
    selected.location >= 0 && selected.length > 0 && fits_isize(selected.location + selected.length)
}

/// Whether a selected range is usable for language context.
pub fn is_usable_selection(selected: TextRange) -> (r: bool)
    ensures
        r == spec_is_usable_selection(selected),
{
    selected.location >= 0 && selected.length > 0 && selected.location <= isize::MAX - selected.length
}

/// The context bounds within the line of the selection: the selection widened by the radius
/// on both sides, kept within the line. None when an end does not fit, the line is empty or
/// starts before zero, or the selection leaves the line.
pub open spec fn spec_line_context_bounds(selected: TextRange, line: TextRange) -> Option<(isize, isize)> {
    let selected_end = selected.location + selected.length;
    let line_end = line.location + line.length;
    if !fits_isize(selected_end) || !fits_isize(line_end) || line.location < 0 || line.length <= 0
        || selected.location < line.location || selected_end > line_end {
        None
    } else {
        let start = clamp_isize(selected.location - LANGUAGE_CONTEXT_RADIUS);
        let end = clamp_isize(selected_end + LANGUAGE_CONTEXT_RADIUS);
        Some(
            (
                (if start < line.location { line.location as int } else { start }) as isize,
                (if end > line_end { line_end } else { end }) as isize,
            ),
        )
    }
}

/// The context bounds within the line of the selection.
pub fn line_context_bounds(selected: TextRange, line: TextRange) -> (r: Option<(isize, isize)>)
    ensures
        r == spec_line_context_bounds(selected, line),
{
    let selected_end = match selected.location.checked_add(selected.length) {
        Some(end) => end,
        None => return None,
    };
    let line_end = match line.location.checked_add(line.length) {
        Some(end) => end,
        None => return None,
    };
    if line.location < 0 || line.length <= 0 || selected.location < line.location || selected_end > line_end {
        return None;
    }
    let start = before_radius(selected.location);
    let end = after_radius(selected_end);
    Some((if start < line.location { line.location } else { start }, if end > line_end { line_end } else { end }))
}

/// The context bounds within the whole text of `character_count` characters: the selection
/// widened by the radius on both sides, its end kept within the text. None when the end of
/// the selection does not fit or lies beyond the text.
pub open spec fn spec_document_context_bounds(selected: TextRange, character_count: isize) -> Option<(isize, isize)> {
    let selected_end = selected.location + selected.length;
    if !fits_isize(selected_end) || selected_end > character_count {
        None
    } else {
        let end = clamp_isize(selected_end + LANGUAGE_CONTEXT_RADIUS);
        Some(
            (
                clamp_isize(selected.location - LANGUAGE_CONTEXT_RADIUS) as isize,
                (if end > character_count { character_count as int } else { end }) as isize,
            ),
        )
    }
}

/// The context bounds within the whole text.
pub fn document_context_bounds(selected: TextRange, character_count: isize) -> (r: Option<(isize, isize)>)
    ensures
        r == spec_document_context_bounds(selected, character_count),
{
    let selected_end = match selected.location.checked_add(selected.length) {
        Some(end) => end,
        None => return None,
    };
    if selected_end > character_count {
        return None;
    }
    let end = after_radius(selected_end);
    Some((before_radius(selected.location), if end > character_count { character_count } else { end }))
}

/// The context bounds of a selection: within its line when the line is known and holds
/// it, else within the whole text of `character_count` characters when that is known.
pub open spec fn spec_context_bounds(
    selected: TextRange,
    line: Option<TextRange>,
    character_count: Option<isize>,
) -> Option<(isize, isize)> {
    match (match line {
        Some(l) => spec_line_context_bounds(selected, l),
        None => None,
    }) {
        Some(bounds) => Some(bounds),
        None => match character_count {
            Some(count) => spec_document_context_bounds(selected, count),
            None => None,
        },
    }
}

/// The context bounds of a selection, from its line if possible, else from the whole text.
pub fn context_bounds(selected: TextRange, line: Option<TextRange>, character_count: Option<isize>) -> (r: Option<
    (isize, isize),
>)
    ensures
        r == spec_context_bounds(selected, line, character_count),
{
    let line_bounds = match line {
        Some(l) => line_context_bounds(selected, l),
        None => None,
    };
    match line_bounds {
        Some(bounds) => Some(bounds),
        None => match character_count {
            Some(count) => document_context_bounds(selected, count),
            None => None,
        },
    }
}

/// The range between two context bounds, when its length fits.
pub open spec fn spec_context_range(bounds: (isize, isize)) -> Option<TextRange> {
    if fits_isize(bounds.1 - bounds.0) {
        Some(TextRange { location: bounds.0, length: (bounds.1 - bounds.0) as isize })
    } else {
        None
    }
}

/// The range between two context bounds.
pub fn context_range(bounds: (isize, isize)) -> (r: Option<TextRange>)
    ensures
        r == spec_context_range(bounds),
{
    match bounds.1.checked_sub(bounds.0) {
        Some(length) => Some(TextRange { location: bounds.0, length }),
        None => None,
    }
}

/// The line context always contains the selection and stays within its line.
pub proof fn law_line_context_covers_the_selection(selected: TextRange, line: TextRange)
    requires
        spec_line_context_bounds(selected, line) is Some,
    ensures
        ({
            let (start, end) = spec_line_context_bounds(selected, line)->Some_0;
            &&& line.location <= start <= selected.location
            &&& selected.location + selected.length <= end <= line.location + line.length
            &&& end - start <= selected.length + 2 * LANGUAGE_CONTEXT_RADIUS
        }),
{
}

/// The document context always contains the selection and ends within the text.
pub proof fn law_document_context_covers_the_selection(selected: TextRange, character_count: isize)
    requires
        spec_is_usable_selection(selected),
        spec_document_context_bounds(selected, character_count) is Some,
    ensures
        ({
            let (start, end) = spec_document_context_bounds(selected, character_count)->Some_0;
            &&& start <= selected.location
            &&& selected.location + selected.length <= end <= character_count
            &&& end - start <= selected.length + 2 * LANGUAGE_CONTEXT_RADIUS
        }),
{
}

} // verus!
