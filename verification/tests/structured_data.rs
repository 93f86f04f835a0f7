use fasyslog::structured::{
    append_escaped, append_structured_data, is_valid_name, SDElement, SDError,
};

fn written(element: &SDElement) -> String {
    let mut out = Vec::new();
    element.append_to(&mut out);
    String::from_utf8(out).unwrap()
}

fn escaped(value: &str) -> String {
    let mut out = Vec::new();
    append_escaped(&mut out, value.as_bytes());
    String::from_utf8(out).unwrap()
}

#[test]
fn element_without_params() {
    let element = SDElement::new("ex").unwrap();
    assert_eq!(element.id(), "ex");
    assert_eq!(element.param_count(), 0);
    assert_eq!(written(&element), "[ex]");
}

#[test]
fn element_with_one_param() {
    let mut element = SDElement::new("ex").unwrap();
    assert_eq!(element.add_param("a", "1"), Ok(()));
    assert_eq!(element.param_count(), 1);
    assert_eq!(written(&element), "[ex a=\"1\"]");
}

#[test]
fn params_keep_their_order() {
    let mut element = SDElement::new("exampleSDID@32473").unwrap();
    element.add_param("iut", "3").unwrap();
    element.add_param("eventSource", "Application").unwrap();
    element.add_param("eventID", "1011").unwrap();
    assert_eq!(
        written(&element),
        "[exampleSDID@32473 iut=\"3\" eventSource=\"Application\" eventID=\"1011\"]"
    );
}

#[test]
fn special_bytes_in_a_value_get_a_backslash() {
    assert_eq!(escaped("plain"), "plain");
    assert_eq!(escaped(""), "");
    assert_eq!(escaped("\""), "\\\"");
    assert_eq!(escaped("\\"), "\\\\");
    assert_eq!(escaped("]"), "\\]");
    assert_eq!(escaped("a\"b\\c]d"), "a\\\"b\\\\c\\]d");
    assert_eq!(escaped("[ = "), "[ = ");
    assert_eq!(escaped("\u{e9}]"), "\u{e9}\\]");
}

#[test]
fn escaped_value_inside_an_element() {
    let mut element = SDElement::new("ex").unwrap();
    element.add_param("path", "C:\\dir\\[x]").unwrap();
    element.add_param("say", "he said \"hi\"").unwrap();
    assert_eq!(
        written(&element),
        "[ex path=\"C:\\\\dir\\\\[x\\]\" say=\"he said \\\"hi\\\"\"]"
    );
}

#[test]
fn append_escaped_keeps_what_was_there() {
    let mut out = b"x=".to_vec();
    append_escaped(&mut out, b"]");
    assert_eq!(out, b"x=\\]".to_vec());
}

#[test]
fn identifier_with_a_forbidden_byte_is_rejected() {
    assert_eq!(SDElement::new("a]b").err(), Some(SDError::InvalidId));
    assert_eq!(SDElement::new("a b").err(), Some(SDError::InvalidId));
    assert_eq!(SDElement::new("a=b").err(), Some(SDError::InvalidId));
    assert_eq!(SDElement::new("a\"b").err(), Some(SDError::InvalidId));
    assert_eq!(SDElement::new("a\tb").err(), Some(SDError::InvalidId));
    assert_eq!(SDElement::new("a\u{7f}").err(), Some(SDError::InvalidId));
    assert_eq!(SDElement::new("a\u{0}").err(), Some(SDError::InvalidId));
    assert!(SDElement::new("a[b\\c@1").is_ok());
    assert!(SDElement::new("\u{e9}t\u{e9}").is_ok());
}

#[test]
fn param_name_with_a_forbidden_byte_is_rejected() {
    let mut element = SDElement::new("ex").unwrap();
    element.add_param("a", "1").unwrap();
    assert_eq!(element.add_param("b c", "2"), Err(SDError::InvalidParamName));
    assert_eq!(element.add_param("b]", "2"), Err(SDError::InvalidParamName));
    assert_eq!(element.add_param("b=", "2"), Err(SDError::InvalidParamName));
    assert_eq!(element.add_param("\"", "2"), Err(SDError::InvalidParamName));
    assert_eq!(element.add_param("\n", "2"), Err(SDError::InvalidParamName));
    assert_eq!(element.param_count(), 1);
    assert_eq!(written(&element), "[ex a=\"1\"]");
}

#[test]
fn valid_names() {
    assert!(is_valid_name("ex"));
    assert!(is_valid_name(""));
    assert!(is_valid_name("!#$%&'()*+,-./:;<>?@[\\^_`{|}~"));
    assert!(!is_valid_name(" "));
    assert!(!is_valid_name("]"));
    assert!(!is_valid_name("="));
    assert!(!is_valid_name("\""));
    assert!(!is_valid_name("\u{1f}"));
    assert!(!is_valid_name("ok\u{7f}"));
}

#[test]
fn no_elements_is_the_nil_value() {
    let mut out = Vec::new();
    append_structured_data(&mut out, &[]);
    assert_eq!(out, b"-".to_vec());
}

#[test]
fn elements_are_written_in_order_without_separator() {
    let mut a = SDElement::new("a").unwrap();
    a.add_param("k", "v").unwrap();
    let b = SDElement::new("b").unwrap();
    let mut c = SDElement::new("c").unwrap();
    c.add_param("x", "").unwrap();
    let mut out = b">".to_vec();
    append_structured_data(&mut out, &[a, b, c]);
    assert_eq!(String::from_utf8(out).unwrap(), ">[a k=\"v\"][b][c x=\"\"]");
}
