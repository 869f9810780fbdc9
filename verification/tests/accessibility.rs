use verba::accessibility::{
    context_bounds, context_range, document_context_bounds, focused_element_security, focused_selected_text_context,
    is_usable_selection, line_context_bounds, subrole_security, unfocused_security,
    AccessibilityReader, AttributeAnswer, AttributeValue, AxName, FocusedElementSecurity, TextRange,
    LANGUAGE_CONTEXT_RADIUS,
};

#[derive(Clone, Copy, Debug, Eq, PartialEq)]
enum Value {
    SystemWide,
    FrontmostApplication,
    FocusedAttribute,
    FocusedElement,
    ParentElement,
    RoleAttribute,
    TextFieldRole,
    OtherRole,
    SubroleAttribute,
    Subrole,
    SecureSubrole,
}

#[derive(Clone, Copy, Debug, Eq, PartialEq)]
enum FailurePoint {
    SystemWide,
    FrontmostApplication,
    FrontmostFocusedElement,
    FocusedAttribute,
    RoleAttribute,
    Role,
    RoleType,
    TextFieldRole,
    SubroleAttribute,
    Subrole,
    SubroleType,
    SecureSubrole,
}

struct FakeReader {
    failure: Option<FailurePoint>,
    text_field: bool,
    secure: bool,
    system_focus_available: bool,
    frontmost_focus_available: bool,
    context_on_parent: bool,
}

impl FakeReader {
    fn new(failure: Option<FailurePoint>, text_field: bool, secure: bool) -> Self {
        Self {
            failure,
            text_field,
            secure,
            system_focus_available: true,
            frontmost_focus_available: true,
            context_on_parent: false,
        }
    }

    fn without_system_focus(mut self) -> Self {
        self.system_focus_available = false;
        self
    }

    fn without_any_focus(mut self) -> Self {
        self.system_focus_available = false;
        self.frontmost_focus_available = false;
        self
    }

    fn with_context_on_parent(mut self) -> Self {
        self.context_on_parent = true;
        self
    }

    fn unless(&self, point: FailurePoint, value: Value) -> Option<Value> {
        if self.failure == Some(point) {
            None
        } else {
            Some(value)
        }
    }
}

impl AccessibilityReader for FakeReader {
    type Value = Value;

    fn system_wide_element(&self) -> Option<Value> {
        self.unless(FailurePoint::SystemWide, Value::SystemWide)
    }

    fn frontmost_application(&self) -> Option<Value> {
        self.unless(FailurePoint::FrontmostApplication, Value::FrontmostApplication)
    }

    fn string(&self, name: AxName) -> Option<Value> {
        match name {
            AxName::FocusedUiElement => self.unless(FailurePoint::FocusedAttribute, Value::FocusedAttribute),
            AxName::Role => self.unless(FailurePoint::RoleAttribute, Value::RoleAttribute),
            AxName::TextFieldRole => self.unless(FailurePoint::TextFieldRole, Value::TextFieldRole),
            AxName::Subrole => self.unless(FailurePoint::SubroleAttribute, Value::SubroleAttribute),
            AxName::SecureTextFieldSubrole => self.unless(FailurePoint::SecureSubrole, Value::SecureSubrole),
        }
    }

    fn attribute(&self, element: &Value, attribute: &Value) -> AttributeValue<Value> {
        match (element, attribute) {
            (Value::SystemWide, Value::FocusedAttribute) if self.system_focus_available => {
                AttributeValue::Value(Value::FocusedElement)
            }
            (Value::SystemWide, Value::FocusedAttribute) => AttributeValue::NoValue,
            (Value::FrontmostApplication, Value::FocusedAttribute)
                if self.failure == Some(FailurePoint::FrontmostFocusedElement) =>
            {
                AttributeValue::Failed
            }
            (Value::FrontmostApplication, Value::FocusedAttribute) if self.frontmost_focus_available => {
                AttributeValue::Value(Value::FocusedElement)
            }
            (Value::FrontmostApplication, Value::FocusedAttribute) => AttributeValue::NoValue,
            (Value::FocusedElement, Value::RoleAttribute) => {
                if self.failure == Some(FailurePoint::Role) {
                    AttributeValue::Failed
                } else {
                    AttributeValue::Value(if self.text_field { Value::TextFieldRole } else { Value::OtherRole })
                }
            }
            (Value::FocusedElement, Value::SubroleAttribute) => {
                if self.failure == Some(FailurePoint::Subrole) {
                    AttributeValue::NoValue
                } else {
                    AttributeValue::Value(Value::Subrole)
                }
            }
            _ => AttributeValue::Failed,
        }
    }

    fn is_string(&self, value: &Value) -> bool {
        match value {
            Value::TextFieldRole | Value::OtherRole => self.failure != Some(FailurePoint::RoleType),
            Value::Subrole => self.failure != Some(FailurePoint::SubroleType),
            _ => false,
        }
    }

    fn equal(&self, first: &Value, second: &Value) -> bool {
        match (first, second) {
            (Value::Subrole, Value::SecureSubrole) => self.secure,
            (Value::TextFieldRole, Value::TextFieldRole) => true,
            _ => false,
        }
    }

    fn parent(&self, element: &Value) -> Option<Value> {
        if self.context_on_parent && *element == Value::FocusedElement {
            Some(Value::ParentElement)
        } else {
            None
        }
    }

    fn selected_text_context(&self, element: &Value) -> Option<String> {
        let context_owner = if self.context_on_parent { Value::ParentElement } else { Value::FocusedElement };
        if *element == context_owner {
            Some("Die Rega muss sie bergen".to_owned())
        } else {
            None
        }
    }
}

#[test]
fn reads_context_without_changing_the_focused_selection() {
    assert_eq!(
        focused_selected_text_context(&FakeReader::new(None, false, false)),
        Some("Die Rega muss sie bergen".to_owned())
    );
    assert_eq!(
        focused_selected_text_context(&FakeReader::new(None, false, false).without_system_focus()),
        Some("Die Rega muss sie bergen".to_owned())
    );
    assert_eq!(focused_selected_text_context(&FakeReader::new(None, false, false).without_any_focus()), None);
}

#[test]
fn reads_static_document_context_from_a_focused_elements_ancestor() {
    assert_eq!(
        focused_selected_text_context(&FakeReader::new(None, false, false).with_context_on_parent()),
        Some("Die Rega muss sie bergen".to_owned())
    );
}

#[test]
fn classifies_secure_and_non_secure_elements() {
    assert_eq!(focused_element_security(&FakeReader::new(None, true, true)), FocusedElementSecurity::Secure);
    assert_eq!(focused_element_security(&FakeReader::new(None, true, false)), FocusedElementSecurity::NotSecure);
}

#[test]
fn falls_back_to_frontmost_application_when_system_focus_is_missing() {
    assert_eq!(
        focused_element_security(&FakeReader::new(None, true, true).without_system_focus()),
        FocusedElementSecurity::Secure
    );
    assert_eq!(
        focused_element_security(&FakeReader::new(None, true, false).without_system_focus()),
        FocusedElementSecurity::NotSecure
    );
}

#[test]
fn falls_back_to_frontmost_application_when_system_wide_element_is_missing() {
    assert_eq!(
        focused_element_security(&FakeReader::new(Some(FailurePoint::SystemWide), true, true)),
        FocusedElementSecurity::Secure
    );
}

#[test]
fn missing_focused_element_from_both_sources_is_unknown() {
    for failure in [FailurePoint::FrontmostApplication, FailurePoint::FrontmostFocusedElement] {
        assert_eq!(
            focused_element_security(&FakeReader::new(Some(failure), false, false).without_system_focus()),
            FocusedElementSecurity::Unknown,
            "{failure:?} should fail closed"
        );
    }
}

#[test]
fn no_focused_element_in_frontmost_application_means_no_source_field() {
    assert_eq!(
        focused_element_security(&FakeReader::new(None, false, false).without_any_focus()),
        FocusedElementSecurity::NotSecure
    );
}

#[test]
fn missing_subrole_is_allowed_for_non_text_fields() {
    assert_eq!(
        focused_element_security(&FakeReader::new(Some(FailurePoint::Subrole), false, false)),
        FocusedElementSecurity::NotSecure
    );
}

#[test]
fn missing_subrole_fails_closed_for_text_fields() {
    assert_eq!(
        focused_element_security(&FakeReader::new(Some(FailurePoint::Subrole), true, false)),
        FocusedElementSecurity::Unknown
    );
}

#[test]
fn mandatory_query_failures_are_unknown() {
    for failure in [
        FailurePoint::FocusedAttribute,
        FailurePoint::RoleAttribute,
        FailurePoint::Role,
        FailurePoint::RoleType,
        FailurePoint::TextFieldRole,
        FailurePoint::SubroleAttribute,
        FailurePoint::SubroleType,
        FailurePoint::SecureSubrole,
    ] {
        assert_eq!(
            focused_element_security(&FakeReader::new(Some(failure), false, false)),
            FocusedElementSecurity::Unknown,
            "{failure:?} should fail closed"
        );
    }
}

#[test]
fn security_decisions_on_plain_answers() {
    assert_eq!(unfocused_security(AttributeAnswer::NoValue), FocusedElementSecurity::NotSecure);
    assert_eq!(unfocused_security(AttributeAnswer::Failed), FocusedElementSecurity::Unknown);
    assert_eq!(subrole_security(true, AttributeAnswer::Value, true, true), FocusedElementSecurity::Secure);
    assert_eq!(subrole_security(false, AttributeAnswer::Value, false, false), FocusedElementSecurity::Unknown);
    assert_eq!(subrole_security(true, AttributeAnswer::Failed, false, false), FocusedElementSecurity::Unknown);
    assert_eq!(subrole_security(false, AttributeAnswer::NoValue, false, false), FocusedElementSecurity::NotSecure);
}

#[test]
fn context_ranges_widen_the_selection_within_bounds() {
    let r = LANGUAGE_CONTEXT_RADIUS;
    assert!(is_usable_selection(TextRange { location: 0, length: 1 }));
    assert!(!is_usable_selection(TextRange { location: 0, length: 0 }));
    assert!(!is_usable_selection(TextRange { location: -1, length: 3 }));
    assert!(!is_usable_selection(TextRange { location: isize::MAX, length: 1 }));

    let selected = TextRange { location: 500, length: 10 };
    assert_eq!(
        line_context_bounds(selected, TextRange { location: 300, length: 1000 }),
        Some((500 - r, 510 + r))
    );
    assert_eq!(line_context_bounds(selected, TextRange { location: 450, length: 100 }), Some((450, 550)));
    assert_eq!(line_context_bounds(selected, TextRange { location: 505, length: 100 }), None);
    assert_eq!(line_context_bounds(selected, TextRange { location: 400, length: 0 }), None);

    assert_eq!(document_context_bounds(selected, 600), Some((500 - r, 600)));
    assert_eq!(document_context_bounds(selected, 505), None);
    assert_eq!(
        document_context_bounds(TextRange { location: 10, length: 5 }, 10_000),
        Some((10 - r, 15 + r))
    );

    assert_eq!(context_range((308, 702)), Some(TextRange { location: 308, length: 394 }));
    assert_eq!(context_range((isize::MIN, isize::MAX)), None);
}

#[test]
fn context_comes_from_the_line_and_falls_back_to_the_whole_text() {
    let selected = TextRange { location: 500, length: 10 };
    let line = TextRange { location: 450, length: 100 };
    assert_eq!(context_bounds(selected, Some(line), Some(5_000)), Some((450, 550)));
    let elsewhere = TextRange { location: 0, length: 10 };
    assert_eq!(context_bounds(selected, Some(elsewhere), Some(5_000)), Some((308, 702)));
    assert_eq!(context_bounds(selected, None, Some(600)), Some((308, 600)));
    assert_eq!(context_bounds(selected, None, None), None);
}
