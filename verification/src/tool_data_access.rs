//! The data-access boundary of tool executions. It grants no authority: it
//! turns an already authorized invocation into a bounded grant, so that a
//! provider cannot widen the resource, purpose, scope or classification.
use vstd::prelude::*;
use crate::resource::{Id, ResourceRef};
use crate::text::{is_blank, str_eq, str_is_blank};
use crate::tool_registry::{ToolDataClass, data_class_level, data_class_rank};

verus! {

#[derive(Debug, Clone, PartialEq, Eq)]
pub struct ToolDataAccessRequest {
    pub resource_ref: ResourceRef,
    pub purpose: String,
    pub data_class: ToolDataClass,
    pub scope: String,
}

#[derive(Debug, Clone, PartialEq, Eq)]
pub struct ToolDataAccessGrant {
    pub invocation_id: Id,
    pub authorization_ref: ResourceRef,
    pub resource_ref: ResourceRef,
    pub purpose: String,
    pub data_class: ToolDataClass,
    pub scope: String,
}

#[derive(Debug, Clone, Copy, PartialEq, Eq, Structural)]
pub enum ToolDataAccessError {
    ResourceMismatch,
    PurposeMismatch,
    DataClassExceedsAuthorization,
    ScopeMismatch,
    InvalidRequest,
}

impl ToolDataAccessGrant {
    /// The grant of one invocation; every identifying field must be given.
    pub fn from_invocation(
        invocation_id: Id,
        authorization_ref: ResourceRef,
        resource_ref: ResourceRef,
        purpose: String,
        data_class: ToolDataClass,
        scope: String,
    ) -> (r: Result<Self, ToolDataAccessError>)
        ensures
            (invocation_id@.len() == 0 || authorization_ref.id@.len() == 0 || resource_ref.id@.len() == 0
                || is_blank(purpose@) || is_blank(scope@)) ==> r == Err::<Self, ToolDataAccessError>(
                ToolDataAccessError::InvalidRequest,
            ),
            !(invocation_id@.len() == 0 || authorization_ref.id@.len() == 0 || resource_ref.id@.len() == 0
                || is_blank(purpose@) || is_blank(scope@)) ==> r == Ok::<Self, ToolDataAccessError>(
                ToolDataAccessGrant { invocation_id, authorization_ref, resource_ref, purpose, data_class, scope },
            ),
    {
        if invocation_id.as_str().is_empty() || authorization_ref.id.as_str().is_empty()
            || resource_ref.id.as_str().is_empty() || str_is_blank(purpose.as_str()) || str_is_blank(
            scope.as_str(),
        ) {
            return Err(ToolDataAccessError::InvalidRequest);
        }
        Ok(ToolDataAccessGrant { invocation_id, authorization_ref, resource_ref, purpose, data_class, scope })
    }

    /// What authorizing `request` against this grant answers.
    pub open spec fn decision(&self, request: ToolDataAccessRequest) -> Result<(), ToolDataAccessError> {
        if request.resource_ref@ != self.resource_ref@ {
            Err(ToolDataAccessError::ResourceMismatch)
        } else if request.purpose@ != self.purpose@ {
            Err(ToolDataAccessError::PurposeMismatch)
        } else if request.scope@ != self.scope@ {
            Err(ToolDataAccessError::ScopeMismatch)
        } else if data_class_level(request.data_class) > data_class_level(self.data_class) {
            Err(ToolDataAccessError::DataClassExceedsAuthorization)
        } else {
            Ok(())
        }
    }

    /// Authorizes an exact request: the same resource, purpose and scope,
    /// and a data class no more sensitive than the granted one.
    pub fn authorize(&self, request: &ToolDataAccessRequest) -> (r: Result<(), ToolDataAccessError>)
        ensures
            r == self.decision(*request),
    {
        if !request.resource_ref.same(&self.resource_ref) {
            return Err(ToolDataAccessError::ResourceMismatch);
        }
        if !str_eq(request.purpose.as_str(), self.purpose.as_str()) {
            return Err(ToolDataAccessError::PurposeMismatch);
        }
        if !str_eq(request.scope.as_str(), self.scope.as_str()) {
            return Err(ToolDataAccessError::ScopeMismatch);
        }
        if data_class_rank(request.data_class) > data_class_rank(self.data_class) {
            return Err(ToolDataAccessError::DataClassExceedsAuthorization);
        }
        Ok(())
    }
}

/// A granted request never exceeds the grant: same resource, purpose and
/// scope, and no more sensitive data.
pub proof fn lemma_grant_never_widens(grant: ToolDataAccessGrant, request: ToolDataAccessRequest)
    requires
        grant.decision(request) is Ok,
    ensures
        request.resource_ref@ == grant.resource_ref@,
        request.purpose@ == grant.purpose@,
        request.scope@ == grant.scope@,
        data_class_level(request.data_class) <= data_class_level(grant.data_class),
{
}

} // verus!
