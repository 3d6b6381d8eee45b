//! Policy-side documents: the wildcard-capable mirror of the identifier
//! model. Every segment of a document may independently be a literal or a
//! wildcard, and a whole document may collapse to the single wildcard `*`.

mod action;
mod element;
mod resource;
mod wildcard;

pub use element::Element;

pub use action::{
    action_doc_matches, action_doc_of, action_doc_ok, action_token_err_token,
    action_token_matches, action_token_of, action_token_ok,
    lemma_scoped_action_doc_rejects_empty_segment, lemma_wildcard_action_doc_matches_all,
    scoped_action_doc_err_token, scoped_action_doc_matches, scoped_action_doc_of,
    scoped_action_doc_ok, wildcard_action_token_matches, wildcard_action_token_of,
    wildcard_action_token_ok, ActionDocument, ActionToken, ScopedActionDocument,
};
pub use resource::{
    lemma_literal_scope_wildcard_resource, lemma_literal_scope_wildcard_resource_doc,
    lemma_scoped_resource_token_rejects_empty_segment,
    lemma_wildcard_resource_doc_matches_all, resource_doc_matches, resource_doc_of,
    resource_doc_ok, scoped_resource_token_err_token, scoped_resource_token_matches,
    scoped_resource_token_of, scoped_resource_token_ok, ResourceDocument, ScopedResourceToken,
};
pub use wildcard::{is_star, segment_matches, segment_token_of, WildcardToken};
