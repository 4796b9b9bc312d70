//! The values that callers hand to the vault and get back from it.

use vstd::prelude::*;

verus! {

/// One sensitive value and the token that stands in for it.
#[derive(Debug, Clone, PartialEq, Eq)]
pub struct Entity {
    pub original: String,
    pub token: String,
    pub entity_type: String,
    pub position: usize,
}

/// The mathematical value of an [`Entity`].
pub struct EntityView {
    pub original: Seq<char>,
    pub token: Seq<char>,
    pub entity_type: Seq<char>,
    pub position: usize,
}

impl View for Entity {
    type V = EntityView;

    open spec fn view(&self) -> EntityView {
        EntityView {
            original: self.original@,
            token: self.token@,
            entity_type: self.entity_type@,
            position: self.position,
        }
    }
}

impl DeepView for Entity {
    type V = EntityView;

    open spec fn deep_view(&self) -> EntityView {
        self@
    }
}

/// A batch of entities to keep under a request id that the caller chose.
#[derive(Debug, Clone, PartialEq, Eq)]
pub struct StoreRequest {
    pub request_id: String,
    pub entities: Vec<Entity>,
}

/// The answer to a store request that succeeded.
#[derive(Debug, Clone, PartialEq, Eq)]
pub struct StoreResponse {
    pub success: bool,
    pub request_id: String,
    pub expires_at: u64,
}

/// The answer to a retrieve request that succeeded.
#[derive(Debug, Clone, PartialEq, Eq)]
pub struct RetrieveResponse {
    pub entities: Vec<Entity>,
}

} // verus!
