use pbac::{Action, ElementParseError, ScopedAction};

#[test]
fn action_pass() {
    let expected = ScopedAction {
        scope: "scope".to_string(),
        action: Action {
            verb: "verb".to_string(),
            resource: "resource".to_string(),
        },
    };

    let actual = ScopedAction::parse("scope:verb:resource").unwrap();

    assert_eq!(actual, expected);
}

#[test]
fn action_fail_scope_verb_empty() {
    let expected = ElementParseError {
        token: "".to_string(),
    };

    let actual = ScopedAction::parse("scope:verb:").unwrap_err();

    assert_eq!(actual, expected);
}

#[test]
fn action_fail_scope_empty_resource() {
    let expected = ElementParseError {
        token: "".to_string(),
    };

    let actual = ScopedAction::parse("scope::resource").unwrap_err();

    assert_eq!(actual, expected);
}

#[test]
fn action_fail_scope_empty_empty() {
    let expected = ElementParseError {
        token: "".to_string(),
    };

    let actual = ScopedAction::parse("scope::").unwrap_err();

    assert_eq!(actual, expected);
}

#[test]
fn fail_scope_token() {
    let expected = ElementParseError {
        token: "token".to_string(),
    };

    let actual = ScopedAction::parse("scope:token").unwrap_err();

    assert_eq!(actual, expected);
}

#[test]
fn action_fail_empty_verb_resource() {
    let expected = ElementParseError {
        token: "".to_string(),
    };

    let actual = ScopedAction::parse(":verb:resource").unwrap_err();

    assert_eq!(actual, expected);
}

#[test]
fn action_fail_empty_verb_empty() {
    let expected = ElementParseError {
        token: "".to_string(),
    };

    let actual = ScopedAction::parse(":verb:").unwrap_err();

    assert_eq!(actual, expected);
}

#[test]
fn action_fail_empty_empty_resource() {
    let expected = ElementParseError {
        token: "".to_string(),
    };

    let actual = ScopedAction::parse("::resource").unwrap_err();

    assert_eq!(actual, expected);
}

#[test]
fn action_fail_empty_empty_empty() {
    let expected = ElementParseError {
        token: "".to_string(),
    };

    let actual = ScopedAction::parse("::").unwrap_err();

    assert_eq!(actual, expected);
}

#[test]
fn fail_empty_token() {
    let expected = ElementParseError {
        token: "".to_string(),
    };

    let actual = ScopedAction::parse(":token").unwrap_err();

    assert_eq!(actual, expected);
}

#[test]
fn action_parse_alone_pass() {
    let expected = Action {
        verb: "verb".to_string(),
        resource: "resource".to_string(),
    };

    let actual = Action::parse("verb:resource").unwrap();

    assert_eq!(actual, expected);
}

#[test]
fn action_parse_alone_fail_no_colon() {
    let expected = ElementParseError {
        token: "verb".to_string(),
    };

    let actual = Action::parse("verb").unwrap_err();

    assert_eq!(actual, expected);
}
