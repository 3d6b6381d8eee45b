//! A policy-based access-control decision engine.
//!
//! Scoped identifiers (`scope:verb:resource`, `scope:resource`) are parsed
//! into structured tokens, policy documents are parsed into wildcard-aware
//! matchers, and a set of policies is combined into one authorization
//! decision under a deny-overrides-allow rule with an implicit default deny.

mod action;
mod authorizer;
mod document;
mod error;
mod models;
mod resource;
mod segments;

pub use crate::action::{
    action_err_token, action_of, action_ok, lemma_action_rejects_empty_segment,
    lemma_scoped_action_rejects_empty_segment, scoped_action_err_token, scoped_action_of,
    scoped_action_ok, Action, ScopedAction,
};
pub use crate::authorizer::{
    allow_pred, allowing_candidates, any_action_doc_matches, any_resource_doc_matches,
    decision_effect, decision_policies, deny_pred, denying_candidates, deref_all, is_authorized,
    is_allowing_candidate, is_candidate, is_denying_candidate, lemma_default_deny,
    lemma_deny_overrides,
};
pub use crate::document::{
    action_doc_matches, action_doc_of, action_doc_ok, action_token_err_token,
    action_token_matches, action_token_of, action_token_ok, is_star,
    lemma_literal_scope_wildcard_resource, lemma_literal_scope_wildcard_resource_doc,
    lemma_scoped_action_doc_rejects_empty_segment,
    lemma_scoped_resource_token_rejects_empty_segment, lemma_wildcard_action_doc_matches_all,
    lemma_wildcard_resource_doc_matches_all, resource_doc_matches, resource_doc_of,
    resource_doc_ok, scoped_action_doc_err_token, scoped_action_doc_matches,
    scoped_action_doc_of, scoped_action_doc_ok, scoped_resource_token_err_token,
    scoped_resource_token_matches, scoped_resource_token_of, scoped_resource_token_ok,
    segment_matches, segment_token_of, wildcard_action_token_matches, wildcard_action_token_of,
    wildcard_action_token_ok, ActionDocument, ActionToken, Element, ResourceDocument,
    ScopedActionDocument, ScopedResourceToken, WildcardToken,
};
pub use crate::error::ElementParseError;
pub use crate::models::{Effect, Policy, Principal};
pub use crate::resource::{
    lemma_scoped_resource_rejects_empty_segment, scoped_resource_err_token, scoped_resource_of,
    scoped_resource_ok, ScopedResource,
};
pub use crate::segments::{
    first_colon, has_colon, head_of, is_first_colon, lemma_first_colon_is,
    lemma_first_colon_unique, rest_of,
};
