//! The policy model: a statement of effect, actions, principals and
//! resources, read-only during evaluation.

use vstd::prelude::*;

use crate::document::{ActionDocument, ResourceDocument};

verus! {

/// The outcome polarity of a policy: whether a matching statement allows
/// or denies the request.
#[derive(Debug, PartialEq, Eq, Structural)]
pub enum Effect {
    Allow,
    Deny,
}

/// A policy statement: one effect, the action documents it covers, the
/// principals it names, and the resource documents it covers.
#[derive(Debug, PartialEq)]
pub struct Policy {
    /// The actions that this statement allows or denies.
    pub actions: Vec<ActionDocument>,
    /// Whether a match of this statement allows or denies the request.
    pub effect: Effect,
    /// The principals this statement names. They are carried on the policy
    /// but not consulted by the authorizer.
    pub principals: Vec<Principal>,
    /// The resources that this statement covers.
    pub resources: Vec<ResourceDocument>,
}

/// A principal named by a policy; carried but not evaluated.
#[derive(Debug, PartialEq)]
pub struct Principal(pub String);

} // verus!
