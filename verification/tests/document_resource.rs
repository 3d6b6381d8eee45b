use pbac::{
    ElementParseError, ResourceDocument, ScopedResource, ScopedResourceToken, WildcardToken,
};

#[test]
fn resource_pass() {
    let expected = ResourceDocument {
        scoped_resource: WildcardToken::Wildcard,
    };

    let actual = ResourceDocument::parse("*").unwrap();

    assert_eq!(actual, expected);
}

#[test]
fn resource_fail_empty() {
    let expected = ElementParseError {
        token: "".to_string(),
    };

    let actual = ResourceDocument::parse("").unwrap_err();

    assert_eq!(actual, expected);
}

#[test]
fn resource_fail_token() {
    let expected = ElementParseError {
        token: "token".to_string(),
    };

    let actual = ResourceDocument::parse("token").unwrap_err();

    assert_eq!(actual, expected);
}

#[test]
fn resource_scope_resource_pass() {
    let expected = ResourceDocument {
        scoped_resource: WildcardToken::<ScopedResourceToken>::Value(ScopedResourceToken {
            scope: WildcardToken::Value("scope".to_string()),
            resource: WildcardToken::Value("resource".to_string()),
        }),
    };

    let actual = ResourceDocument::parse("scope:resource").unwrap();

    assert_eq!(actual, expected)
}

#[test]
fn resource_fail_scope_empty() {
    let expected = ElementParseError {
        token: "".to_string(),
    };

    let actual = ResourceDocument::parse("scope:").unwrap_err();

    assert_eq!(actual, expected);
}

#[test]
fn resource_fail_empty_resource() {
    let expected = ElementParseError {
        token: "".to_string(),
    };

    let actual = ResourceDocument::parse(":resource").unwrap_err();

    assert_eq!(actual, expected);
}

#[test]
fn resource_fail_empty_empty() {
    let expected = ElementParseError {
        token: "".to_string(),
    };

    let actual = ResourceDocument::parse(":").unwrap_err();

    assert_eq!(actual, expected);
}

#[test]
fn resource_scope_wildcard_pass() {
    let expected = ResourceDocument {
        scoped_resource: WildcardToken::<ScopedResourceToken>::Value(ScopedResourceToken {
            scope: WildcardToken::Value("scope".to_string()),
            resource: WildcardToken::Wildcard,
        }),
    };

    let actual = ResourceDocument::parse("scope:*").unwrap();

    assert_eq!(actual, expected)
}

#[test]
fn resource_fail_empty_wildcard() {
    let expected = ElementParseError {
        token: "".to_string(),
    };

    let actual = ResourceDocument::parse(":*").unwrap_err();

    assert_eq!(actual, expected)
}

#[test]
fn resource_wildcard_resource_pass() {
    let expected = ResourceDocument {
        scoped_resource: WildcardToken::<ScopedResourceToken>::Value(ScopedResourceToken {
            scope: WildcardToken::Wildcard,
            resource: WildcardToken::Value("resource".to_string()),
        }),
    };

    let actual = ResourceDocument::parse("*:resource").unwrap();

    assert_eq!(actual, expected)
}

#[test]
fn resource_fail_wildcard_empty() {
    let expected = ElementParseError {
        token: "".to_string(),
    };

    let actual = ResourceDocument::parse("*:").unwrap_err();

    assert_eq!(actual, expected)
}

#[test]
fn resource_wildcard_wildcard_pass() {
    let expected = ResourceDocument {
        scoped_resource: WildcardToken::<ScopedResourceToken>::Value(ScopedResourceToken {
            scope: WildcardToken::Wildcard,
            resource: WildcardToken::Wildcard,
        }),
    };

    let actual = ResourceDocument::parse("*:*").unwrap();

    assert_eq!(actual, expected)
}

fn literal_document() -> ResourceDocument {
    ResourceDocument {
        scoped_resource: WildcardToken::Value(ScopedResourceToken {
            scope: WildcardToken::Value("scope".to_string()),
            resource: WildcardToken::Value("resource".to_string()),
        }),
    }
}

#[test]
fn resource_wildcard_match_pass() {
    let document = ResourceDocument {
        scoped_resource: WildcardToken::Wildcard,
    };

    let scoped_resource = ScopedResource::parse("scope:resource").unwrap();

    let result = document.is_match(&scoped_resource);

    assert_eq!(result, true);
}

#[test]
fn resource_literal_match_pass() {
    let document = literal_document();

    let scoped_resource = ScopedResource::parse("scope:resource").unwrap();

    let result = document.is_match(&scoped_resource);

    assert_eq!(result, true);
}

#[test]
fn resource_fail_scope() {
    let document = literal_document();

    let scoped_resource = ScopedResource::parse("x:resource").unwrap();

    let result = document.is_match(&scoped_resource);

    assert_eq!(result, false);
}

#[test]
fn resource_fail_resource() {
    let document = literal_document();

    let scoped_resource = ScopedResource::parse("scope:x").unwrap();

    let result = document.is_match(&scoped_resource);

    assert_eq!(result, false);
}

#[test]
fn resource_pass_resource() {
    let document = ResourceDocument {
        scoped_resource: WildcardToken::Value(ScopedResourceToken {
            scope: WildcardToken::Value("scope".to_string()),
            resource: WildcardToken::Wildcard,
        }),
    };

    let scoped_resource = ScopedResource::parse("scope:x").unwrap();

    let result = document.is_match(&scoped_resource);

    assert_eq!(result, true);
}

#[test]
fn resource_pass_scope() {
    let document = ResourceDocument {
        scoped_resource: WildcardToken::Value(ScopedResourceToken {
            scope: WildcardToken::Wildcard,
            resource: WildcardToken::Value("resource".to_string()),
        }),
    };

    let scoped_resource = ScopedResource::parse("x:resource").unwrap();

    let result = document.is_match(&scoped_resource);

    assert_eq!(result, true);
}
