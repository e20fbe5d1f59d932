//! Resource-neutral lifecycle transition metadata.
use vstd::prelude::*;
use crate::resource::{Id, ResourceRef};

verus! {

/// Transition record around a resource's own state machine.
#[derive(Debug, Clone, PartialEq, Eq)]
pub struct LifecycleTransition {
    pub transition_id: Id,
    pub resource_ref: ResourceRef,
    pub from_state: Option<String>,
    pub to_state: String,
    pub actor_ref: ResourceRef,
    pub occurred_at: String,
    pub reason: Option<String>,
    pub authorization_ref: Option<ResourceRef>,
    pub provenance_ref: Option<ResourceRef>,
    pub correlation_id: Id,
    pub causation_id: Option<Id>,
}

impl LifecycleTransition {
    pub open spec fn validity(&self) -> Result<(), &'static str> {
        if self.transition_id@.len() == 0 {
            Err("transition id is required")
        } else if self.resource_ref.id@.len() == 0 {
            Err("transition resource is required")
        } else if self.to_state@.len() == 0 {
            Err("transition target state is required")
        } else if self.actor_ref.id@.len() == 0 {
            Err("transition actor is required")
        } else if self.occurred_at@.len() == 0 {
            Err("transition time is required")
        } else if self.correlation_id@.len() == 0 {
            Err("transition correlation id is required")
        } else {
            Ok(())
        }
    }

    pub fn validate(&self) -> (r: Result<(), &'static str>)
        ensures
            r == self.validity(),
    {
        if self.transition_id.as_str().is_empty() {
            return Err("transition id is required");
        }
        if self.resource_ref.id.as_str().is_empty() {
            return Err("transition resource is required");
        }
        if self.to_state.as_str().is_empty() {
            return Err("transition target state is required");
        }
        if self.actor_ref.id.as_str().is_empty() {
            return Err("transition actor is required");
        }
        if self.occurred_at.as_str().is_empty() {
            return Err("transition time is required");
        }
        if self.correlation_id.as_str().is_empty() {
            return Err("transition correlation id is required");
        }
        Ok(())
    }
}

/// Common lifecycle metadata without imposing a universal state vocabulary.
#[derive(Debug, Clone, PartialEq, Eq)]
pub struct LifecycleMeta {
    pub state: String,
    pub state_changed_at: Option<String>,
    pub state_changed_by: Option<ResourceRef>,
}

impl LifecycleMeta {
    /// Any non-empty state name is accepted.
    pub fn new(state: String) -> (r: Result<Self, &'static str>)
        ensures
            state@.len() == 0 ==> r == Err::<LifecycleMeta, &'static str>("lifecycle state is required"),
            state@.len() > 0 ==> r == Ok::<LifecycleMeta, &'static str>(
                LifecycleMeta { state, state_changed_at: None, state_changed_by: None },
            ),
    {
        if state.as_str().is_empty() {
            return Err("lifecycle state is required");
        }
        Ok(LifecycleMeta { state, state_changed_at: None, state_changed_by: None })
    }
}

} // verus!
