use pbac::{ElementParseError, ScopedResource};

#[test]
fn scoped_resource_pass() {
    let expected = ScopedResource {
        scope: "scope".to_string(),
        resource: "resource".to_string(),
    };

    let actual = ScopedResource::parse("scope:resource").unwrap();

    assert_eq!(actual, expected);
}

#[test]
fn fail_scope_empty() {
    let expected = ElementParseError {
        token: "".to_string(),
    };

    let actual = ScopedResource::parse("scope:").unwrap_err();

    assert_eq!(actual, expected);
}

#[test]
fn fail_empty_resource() {
    let expected = ElementParseError {
        token: "".to_string(),
    };

    let actual = ScopedResource::parse(":resource").unwrap_err();

    assert_eq!(actual, expected);
}

#[test]
fn fail_empty_empty() {
    let expected = ElementParseError {
        token: "".to_string(),
    };

    let actual = ScopedResource::parse(":").unwrap_err();

    assert_eq!(actual, expected);
}

#[test]
fn fail_token() {
    let expected = ElementParseError {
        token: "token".to_string(),
    };

    let actual = ScopedResource::parse("token").unwrap_err();

    assert_eq!(actual, expected);
}
