use pbac::{ActionDocument, ActionToken, ScopedAction, ScopedActionDocument, WildcardToken};

fn literal_document() -> ActionDocument {
    ActionDocument {
        scoped_action: WildcardToken::<ScopedActionDocument>::Value(ScopedActionDocument {
            scope: WildcardToken::Value("scope".to_string()),
            action: WildcardToken::Value(ActionToken {
                verb: WildcardToken::Value("verb".to_string()),
                resource: WildcardToken::Value("resource".to_string()),
            }),
        }),
    }
}

fn resource_wildcard_document() -> ActionDocument {
    ActionDocument {
        scoped_action: WildcardToken::<ScopedActionDocument>::Value(ScopedActionDocument {
            scope: WildcardToken::Value("scope".to_string()),
            action: WildcardToken::Value(ActionToken {
                verb: WildcardToken::Value("verb".to_string()),
                resource: WildcardToken::Wildcard,
            }),
        }),
    }
}

fn verb_wildcard_document() -> ActionDocument {
    ActionDocument {
        scoped_action: WildcardToken::<ScopedActionDocument>::Value(ScopedActionDocument {
            scope: WildcardToken::Value("scope".to_string()),
            action: WildcardToken::Value(ActionToken {
                verb: WildcardToken::Wildcard,
                resource: WildcardToken::Value("resource".to_string()),
            }),
        }),
    }
}

fn action_wildcard_document() -> ActionDocument {
    ActionDocument {
        scoped_action: WildcardToken::<ScopedActionDocument>::Value(ScopedActionDocument {
            scope: WildcardToken::Value("scope".to_string()),
            action: WildcardToken::Wildcard,
        }),
    }
}

fn scope_wildcard_document() -> ActionDocument {
    ActionDocument {
        scoped_action: WildcardToken::<ScopedActionDocument>::Value(ScopedActionDocument {
            scope: WildcardToken::Wildcard,
            action: WildcardToken::Value(ActionToken {
                verb: WildcardToken::Value("verb".to_string()),
                resource: WildcardToken::Value("resource".to_string()),
            }),
        }),
    }
}

fn scope_and_resource_wildcard_document() -> ActionDocument {
    ActionDocument {
        scoped_action: WildcardToken::<ScopedActionDocument>::Value(ScopedActionDocument {
            scope: WildcardToken::Wildcard,
            action: WildcardToken::Value(ActionToken {
                verb: WildcardToken::Value("verb".to_string()),
                resource: WildcardToken::Wildcard,
            }),
        }),
    }
}

#[test]
fn document_pass() {
    let document = ActionDocument {
        scoped_action: WildcardToken::<ScopedActionDocument>::Wildcard,
    };

    let scoped_action = ScopedAction::parse("scope:verb:resource").unwrap();

    let result = document.is_match(&scoped_action);

    assert_eq!(result, true);
}

#[test]
fn pass() {
    let document = literal_document();

    let scoped_action = ScopedAction::parse("scope:verb:resource").unwrap();

    let result = document.is_match(&scoped_action);

    assert_eq!(result, true);
}

#[test]
fn document_fail_scope() {
    let document = literal_document();

    let scoped_action = ScopedAction::parse("x:verb:resource").unwrap();

    let result = document.is_match(&scoped_action);

    assert_eq!(result, false);
}

#[test]
fn document_fail_verb() {
    let document = literal_document();

    let scoped_action = ScopedAction::parse("scope:x:resource").unwrap();

    let result = document.is_match(&scoped_action);

    assert_eq!(result, false);
}

#[test]
fn document_fail_resource() {
    let document = literal_document();

    let scoped_action = ScopedAction::parse("scope:verb:x").unwrap();

    let result = document.is_match(&scoped_action);

    assert_eq!(result, false);
}

#[test]
fn fail_scope() {
    let document = resource_wildcard_document();

    let scoped_action = ScopedAction::parse("x:verb:resource").unwrap();

    let result = document.is_match(&scoped_action);

    assert_eq!(result, false);
}

#[test]
fn fail_verb() {
    let document = resource_wildcard_document();

    let scoped_action = ScopedAction::parse("scope:x:resource").unwrap();

    let result = document.is_match(&scoped_action);

    assert_eq!(result, false);
}

#[test]
fn document_pass_resource() {
    let document = resource_wildcard_document();

    let scoped_action = ScopedAction::parse("scope:verb:x").unwrap();

    let result = document.is_match(&scoped_action);

    assert_eq!(result, true);
}

#[test]
fn document_pass_verb() {
    let document = verb_wildcard_document();

    let scoped_action = ScopedAction::parse("scope:x:resource").unwrap();

    let result = document.is_match(&scoped_action);

    assert_eq!(result, true);
}

#[test]
fn fail_resource() {
    let document = verb_wildcard_document();

    let scoped_action = ScopedAction::parse("scope:verb:x").unwrap();

    let result = document.is_match(&scoped_action);

    assert_eq!(result, false);
}

#[test]
fn pass_verb() {
    let document = action_wildcard_document();

    let scoped_action = ScopedAction::parse("scope:x:resource").unwrap();

    let result = document.is_match(&scoped_action);

    assert_eq!(result, true);
}

#[test]
fn pass_resource() {
    let document = action_wildcard_document();

    let scoped_action = ScopedAction::parse("scope:verb:x").unwrap();

    let result = document.is_match(&scoped_action);

    assert_eq!(result, true);
}

#[test]
fn document_pass_scope() {
    let document = scope_wildcard_document();

    let scoped_action = ScopedAction::parse("x:verb:resource").unwrap();

    let result = document.is_match(&scoped_action);

    assert_eq!(result, true);
}

#[test]
fn pass_scope() {
    let document = scope_and_resource_wildcard_document();

    let scoped_action = ScopedAction::parse("x:verb:resource").unwrap();

    let result = document.is_match(&scoped_action);

    assert_eq!(result, true);
}
