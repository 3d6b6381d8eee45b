use pbac::{ElementParseError, WildcardToken};

#[test]
fn wildcard_pass() {
    let expected = WildcardToken::<String>::Wildcard;

    let result = WildcardToken::<String>::parse("*").unwrap();

    assert_eq!(result, expected);
}

#[test]
fn wildcard_value_pass() {
    let expected = WildcardToken::<String>::Value("value".to_string());

    let result = WildcardToken::<String>::parse("value").unwrap();

    assert_eq!(result, expected);
}

#[test]
fn wildcard_fail_empty() {
    let expected = ElementParseError {
        token: "".to_string(),
    };

    let result = WildcardToken::<String>::parse("").unwrap_err();

    assert_eq!(result, expected);
}

#[test]
fn wildcard_match_anything() {
    let document = WildcardToken::<String>::Wildcard;

    let result = document.is_match(&"value".to_string());

    assert_eq!(result, true);
}

#[test]
fn wildcard_value_match() {
    let document = WildcardToken::<String>::Value("value".to_string());

    let result = document.is_match(&"value".to_string());

    assert_eq!(result, true);
}

#[test]
fn fail() {
    let document = WildcardToken::<String>::Value("value".to_string());

    let result = document.is_match(&"x".to_string());

    assert_eq!(result, false);
}
