//! Actions, human approvals and the execution gate that every consequential
//! execution must pass.
use vstd::prelude::*;
use crate::authorization::{AuthorizationDecision, AuthorizationResult};
use crate::resource::{Id, ResourceRef, ResourceType};
use crate::text::{is_blank, str_eq, str_is_blank};

verus! {

#[derive(Debug, Clone, Copy, PartialEq, Eq, Structural)]
pub enum ActionStatus {
    Proposed,
    Approved,
    Rejected,
    Executing,
    Completed,
    Failed,
    Cancelled,
}

#[derive(Debug, Clone, Copy, PartialEq, Eq, Structural)]
pub enum ActionKind {
    Information,
    Communication,
    DocumentCreation,
    EvidenceOperation,
    Submission,
    Escalation,
    Decision,
    ExternalOperation,
    Other,
}

#[derive(Debug, Clone, Copy, PartialEq, Eq, Structural)]
pub enum ApprovalOrigin {
    Human,
    System,
    Intelligence,
}

#[derive(Debug, Clone, Copy, PartialEq, Eq, Structural)]
pub enum ApprovalDecision {
    Granted,
    Rejected,
    Revoked,
}

#[derive(Debug, Clone, PartialEq, Eq)]
pub struct ApprovalRecord {
    pub approval_id: Id,
    pub action_ref: ResourceRef,
    pub approver_ref: ResourceRef,
    pub authorization_ref: ResourceRef,
    pub decision: ApprovalDecision,
    pub origin: ApprovalOrigin,
    pub rationale: String,
    pub provenance_ref: ResourceRef,
    pub decided_at: String,
}

impl ApprovalRecord {
    pub open spec fn validity(&self) -> Result<(), &'static str> {
        if self.approval_id@.len() == 0 {
            Err("approval id is required")
        } else if self.action_ref.resource_type != ResourceType::Action {
            Err("approval action reference must target an action")
        } else if self.approver_ref.id@.len() == 0 {
            Err("approval approver reference is required")
        } else if self.authorization_ref.id@.len() == 0 {
            Err("approval authorization reference is required")
        } else if is_blank(self.rationale@) {
            Err("approval rationale is required")
        } else if self.provenance_ref.id@.len() == 0 {
            Err("approval provenance reference is required")
        } else if self.decided_at@.len() == 0 {
            Err("approval decision timestamp is required")
        } else {
            Ok(())
        }
    }

    pub fn validate(&self) -> (r: Result<(), &'static str>)
        ensures
            r == self.validity(),
    {
        if self.approval_id.as_str().is_empty() {
            return Err("approval id is required");
        }
        if self.action_ref.resource_type != ResourceType::Action {
            return Err("approval action reference must target an action");
        }
        if self.approver_ref.id.as_str().is_empty() {
            return Err("approval approver reference is required");
        }
        if self.authorization_ref.id.as_str().is_empty() {
            return Err("approval authorization reference is required");
        }
        if str_is_blank(self.rationale.as_str()) {
            return Err("approval rationale is required");
        }
        if self.provenance_ref.id.as_str().is_empty() {
            return Err("approval provenance reference is required");
        }
        if self.decided_at.as_str().is_empty() {
            return Err("approval decision timestamp is required");
        }
        Ok(())
    }

    /// Only a granted decision made by a human grants execution.
    pub open spec fn grants(&self) -> bool {
        self.decision == ApprovalDecision::Granted && self.origin == ApprovalOrigin::Human
    }

    pub fn grants_execution(&self) -> (b: bool)
        ensures
            b == self.grants(),
    {
        self.decision == ApprovalDecision::Granted && self.origin == ApprovalOrigin::Human
    }
}

#[derive(Debug, Clone, Copy, PartialEq, Eq, Structural)]
pub enum ExecutionGateError {
    AuthorizationRequired,
    AuthorizationDenied,
    ApprovalRequired,
    ApprovalMismatch,
    ApprovalNotGranted,
    ApprovalNotHuman,
    ActionNotApproved,
}

impl ExecutionGateError {
    pub open spec fn message(self) -> &'static str {
        match self {
            ExecutionGateError::AuthorizationRequired => "authorization is required for execution",
            ExecutionGateError::AuthorizationDenied => "authorization does not permit execution",
            ExecutionGateError::ApprovalRequired => "human approval is required for execution",
            ExecutionGateError::ApprovalMismatch => "approval does not match the action authorization",
            ExecutionGateError::ApprovalNotGranted => "approval decision does not grant execution",
            ExecutionGateError::ApprovalNotHuman => "only human approval can permit consequential execution",
            ExecutionGateError::ActionNotApproved => "action must be approved before execution",
        }
    }

    pub fn as_str(self) -> (s: &'static str)
        ensures
            s == self.message(),
    {
        match self {
            ExecutionGateError::AuthorizationRequired => "authorization is required for execution",
            ExecutionGateError::AuthorizationDenied => "authorization does not permit execution",
            ExecutionGateError::ApprovalRequired => "human approval is required for execution",
            ExecutionGateError::ApprovalMismatch => "approval does not match the action authorization",
            ExecutionGateError::ApprovalNotGranted => "approval decision does not grant execution",
            ExecutionGateError::ApprovalNotHuman => "only human approval can permit consequential execution",
            ExecutionGateError::ActionNotApproved => "action must be approved before execution",
        }
    }
}

#[derive(Debug, Clone, Copy, PartialEq, Eq)]
pub struct ExecutionGateInput<'a> {
    pub authorization: Option<&'a AuthorizationResult>,
    pub approval: Option<&'a ApprovalRecord>,
}

#[derive(Debug, Clone, Copy, PartialEq, Eq)]
pub struct ExecutionGate;

/// Whether an action may execute, given the evaluated authorization and the
/// approval presented with it.
pub open spec fn gate_outcome(
    action: Action,
    authorization: Option<AuthorizationResult>,
    approval: Option<ApprovalRecord>,
) -> Result<(), ExecutionGateError> {
    if authorization is None {
        Err(ExecutionGateError::AuthorizationRequired)
    } else if authorization->0.decision != AuthorizationDecision::Allow {
        Err(ExecutionGateError::AuthorizationDenied)
    } else if action.authorization_ref is None {
        Err(ExecutionGateError::AuthorizationRequired)
    } else if authorization->0.authorization_ref.id@ != action.authorization_ref->0@ {
        Err(ExecutionGateError::ApprovalMismatch)
    } else if !action.requires_explicit_approval {
        Ok(())
    } else {
        approval_outcome(action, approval)
    }
}

/// The approval checks, for actions that require explicit approval.
pub open spec fn approval_outcome(action: Action, approval: Option<ApprovalRecord>) -> Result<
    (),
    ExecutionGateError,
> {
    if approval is None {
        Err(ExecutionGateError::ApprovalRequired)
    } else if approval->0.action_ref.id@ != action.action_id@ || approval->0.authorization_ref.id@
        != action.authorization_ref->0@ {
        Err(ExecutionGateError::ApprovalMismatch)
    } else if approval->0.origin != ApprovalOrigin::Human {
        Err(ExecutionGateError::ApprovalNotHuman)
    } else if approval->0.decision != ApprovalDecision::Granted {
        Err(ExecutionGateError::ApprovalNotGranted)
    } else if action.status != ActionStatus::Approved {
        Err(ExecutionGateError::ActionNotApproved)
    } else {
        Ok(())
    }
}

pub open spec fn deref_opt<T>(o: Option<&T>) -> Option<T> {
    match o {
        Some(x) => Some(*x),
        None => None,
    }
}

impl ExecutionGate {
    pub fn permit(action: &Action, input: ExecutionGateInput<'_>) -> (r: Result<(), ExecutionGateError>)
        ensures
            r == gate_outcome(*action, deref_opt(input.authorization), deref_opt(input.approval)),
    {
        let authorization = match input.authorization {
            Some(a) => a,
            None => return Err(ExecutionGateError::AuthorizationRequired),
        };
        if authorization.decision != AuthorizationDecision::Allow {
            return Err(ExecutionGateError::AuthorizationDenied);
        }
        let action_authorization = match &action.authorization_ref {
            Some(a) => a,
            None => return Err(ExecutionGateError::AuthorizationRequired),
        };
        if !str_eq(authorization.authorization_ref.id.as_str(), action_authorization.as_str()) {
            return Err(ExecutionGateError::ApprovalMismatch);
        }
        if !action.requires_explicit_approval {
            return Ok(());
        }
        let approval = match input.approval {
            Some(a) => a,
            None => return Err(ExecutionGateError::ApprovalRequired),
        };
        if !str_eq(approval.action_ref.id.as_str(), action.action_id.as_str()) || !str_eq(
            approval.authorization_ref.id.as_str(),
            action_authorization.as_str(),
        ) {
            return Err(ExecutionGateError::ApprovalMismatch);
        }
        if approval.origin != ApprovalOrigin::Human {
            return Err(ExecutionGateError::ApprovalNotHuman);
        }
        if approval.decision != ApprovalDecision::Granted {
            return Err(ExecutionGateError::ApprovalNotGranted);
        }
        if action.status != ActionStatus::Approved {
            return Err(ExecutionGateError::ActionNotApproved);
        }
        Ok(())
    }
}

/// Execution is permitted only for an allowing authorization bound to the action;
/// when the action requires explicit approval only for a human,
/// granted approval of this very action under the same authorization, and
/// only once the action is approved.
pub proof fn lemma_gate_requires_human_approval(
    action: Action,
    authorization: Option<AuthorizationResult>,
    approval: Option<ApprovalRecord>,
)
    requires
        gate_outcome(action, authorization, approval) is Ok,
    ensures
        authorization matches Some(auth) && auth.decision == AuthorizationDecision::Allow,
        action.authorization_ref matches Some(a) && authorization->0.authorization_ref.id@ == a@,
        action.requires_explicit_approval ==> {
            &&& approval matches Some(appr)
            &&& appr.origin == ApprovalOrigin::Human
            &&& appr.decision == ApprovalDecision::Granted
            &&& appr.action_ref.id@ == action.action_id@
            &&& appr.authorization_ref.id@ == action.authorization_ref->0@
            &&& action.status == ActionStatus::Approved
        },
{
}

#[derive(Debug, Clone, PartialEq, Eq)]
pub struct Action {
    pub action_id: Id,
    pub schema_version: u32,
    pub kind: ActionKind,
    pub status: ActionStatus,
    pub actor_id: Id,
    pub context_refs: Vec<Id>,
    pub target_refs: Vec<Id>,
    pub intent: String,
    pub authorization_ref: Option<Id>,
    pub approval_ref: Option<Id>,
    pub precondition_refs: Vec<Id>,
    pub input_refs: Vec<Id>,
    pub output_refs: Vec<Id>,
    pub evidence_refs: Vec<Id>,
    pub requires_explicit_approval: bool,
    pub provenance_ref: Id,
    pub created_at: String,
    pub updated_at: String,
}

/// The action state machine, including the explicit-approval rules.
pub open spec fn action_step(action: Action, next: ActionStatus) -> bool {
    if next == ActionStatus::Approved && action.requires_explicit_approval {
        action.authorization_ref is Some && action.approval_ref is Some
    } else if next == ActionStatus::Executing && action.requires_explicit_approval {
        action.status == ActionStatus::Approved && action.authorization_ref is Some
            && action.approval_ref is Some
    } else {
        match (action.status, next) {
            (ActionStatus::Proposed, ActionStatus::Approved) => true,
            (ActionStatus::Proposed, ActionStatus::Rejected) => true,
            (ActionStatus::Proposed, ActionStatus::Cancelled) => true,
            (ActionStatus::Approved, ActionStatus::Executing) => true,
            (ActionStatus::Approved, ActionStatus::Cancelled) => true,
            (ActionStatus::Executing, ActionStatus::Completed) => true,
            (ActionStatus::Executing, ActionStatus::Failed) => true,
            (ActionStatus::Executing, ActionStatus::Cancelled) => true,
            _ => false,
        }
    }
}

impl Action {
    /// What validation says of the freshly proposed action that `new` builds.
    pub open spec fn proposal_validity(
        action_id: Id,
        actor_id: Id,
        intent: String,
        provenance_ref: Id,
        created_at: String,
    ) -> Result<(), &'static str> {
        if action_id@.len() == 0 {
            Err("action id is required")
        } else if actor_id@.len() == 0 {
            Err("actor id is required")
        } else if is_blank(intent@) {
            Err("action intent is required")
        } else if provenance_ref@.len() == 0 {
            Err("provenance reference is required")
        } else if created_at@.len() == 0 {
            Err("action timestamps are required")
        } else {
            Ok(())
        }
    }

    pub open spec fn validity(&self) -> Result<(), &'static str> {
        if self.action_id@.len() == 0 {
            Err("action id is required")
        } else if self.schema_version == 0 {
            Err("schema version must be positive")
        } else if self.actor_id@.len() == 0 {
            Err("actor id is required")
        } else if is_blank(self.intent@) {
            Err("action intent is required")
        } else if self.provenance_ref@.len() == 0 {
            Err("provenance reference is required")
        } else if self.created_at@.len() == 0 || self.updated_at@.len() == 0 {
            Err("action timestamps are required")
        } else if self.requires_explicit_approval && self.authorization_ref is None {
            Err("authorization reference is required for explicitly approved actions")
        } else if self.requires_explicit_approval && self.approval_ref is None {
            Err("approval reference is required for explicitly approved actions")
        } else {
            Ok(())
        }
    }

    /// A new action starts `Proposed`, schema version 1, with no references,
    /// and must be valid.
    pub fn new(
        action_id: Id,
        kind: ActionKind,
        actor_id: Id,
        intent: String,
        provenance_ref: Id,
        created_at: String,
    ) -> (r: Result<Self, &'static str>)
        ensures
            ({
                let a = Action::proposal_validity(action_id, actor_id, intent, provenance_ref, created_at);
                &&& r is Ok <==> a is Ok
                &&& r matches Ok(v) ==> v.status == ActionStatus::Proposed && v.schema_version == 1
                    && v.action_id@ == action_id@ && v.actor_id@ == actor_id@ && v.intent@ == intent@
                    && v.provenance_ref@ == provenance_ref@ && v.created_at@ == created_at@
                    && v.updated_at@ == created_at@ && v.authorization_ref is None && v.approval_ref is None
                    && !v.requires_explicit_approval && v.kind == kind && v.context_refs@.len() == 0
                    && v.target_refs@.len() == 0 && v.precondition_refs@.len() == 0
                    && v.input_refs@.len() == 0 && v.output_refs@.len() == 0 && v.evidence_refs@.len() == 0
                &&& r matches Err(e) ==> a == Err::<(), &'static str>(e)
            }),
    {
        let updated_at = created_at.clone();
        let value = Action {
            action_id,
            schema_version: 1,
            kind,
            status: ActionStatus::Proposed,
            actor_id,
            context_refs: Vec::new(),
            target_refs: Vec::new(),
            intent,
            authorization_ref: None,
            approval_ref: None,
            precondition_refs: Vec::new(),
            input_refs: Vec::new(),
            output_refs: Vec::new(),
            evidence_refs: Vec::new(),
            requires_explicit_approval: false,
            provenance_ref,
            created_at,
            updated_at,
        };
        match value.validate() {
            Ok(()) => Ok(value),
            Err(e) => Err(e),
        }
    }

    pub fn validate(&self) -> (r: Result<(), &'static str>)
        ensures
            r == self.validity(),
    {
        if self.action_id.as_str().is_empty() {
            return Err("action id is required");
        }
        if self.schema_version == 0 {
            return Err("schema version must be positive");
        }
        if self.actor_id.as_str().is_empty() {
            return Err("actor id is required");
        }
        if str_is_blank(self.intent.as_str()) {
            return Err("action intent is required");
        }
        if self.provenance_ref.as_str().is_empty() {
            return Err("provenance reference is required");
        }
        if self.created_at.as_str().is_empty() || self.updated_at.as_str().is_empty() {
            return Err("action timestamps are required");
        }
        if self.requires_explicit_approval {
            if self.authorization_ref.is_none() {
                return Err("authorization reference is required for explicitly approved actions");
            }
            if self.approval_ref.is_none() {
                return Err("approval reference is required for explicitly approved actions");
            }
        }
        Ok(())
    }

    /// What binding `approval` does: the first failing rule, or success.
    pub open spec fn binding(&self, approval: ApprovalRecord, updated_at: String) -> Result<(), &'static str> {
        if approval.validity() is Err {
            approval.validity()
        } else if approval.action_ref.id@ != self.action_id@ {
            Err("approval action reference does not match action")
        } else if !(self.authorization_ref matches Some(a) && a@ == approval.authorization_ref.id@) {
            Err("approval authorization reference does not match action")
        } else if !approval.grants() {
            Err("approval decision does not grant execution")
        } else if updated_at@.len() == 0 {
            Err("action update timestamp is required")
        } else {
            Ok(())
        }
    }

    /// Records a granted human approval of this action under its own
    /// authorization; on any failure the action is unchanged.
    pub fn bind_approval(&mut self, approval: &ApprovalRecord, updated_at: String) -> (r: Result<(), &'static str>)
        ensures
            r == old(self).binding(*approval, updated_at),
            r is Ok ==> *final(self) == (Action {
                approval_ref: Some(approval.approval_id),
                updated_at,
                ..*old(self)
            }),
            r is Err ==> *final(self) == *old(self),
    {
        match approval.validate() {
            Ok(()) => {},
            Err(e) => return Err(e),
        }
        if !str_eq(approval.action_ref.id.as_str(), self.action_id.as_str()) {
            return Err("approval action reference does not match action");
        }
        let matches = match &self.authorization_ref {
            Some(a) => str_eq(a.as_str(), approval.authorization_ref.id.as_str()),
            None => false,
        };
        if !matches {
            return Err("approval authorization reference does not match action");
        }
        if !approval.grants_execution() {
            return Err("approval decision does not grant execution");
        }
        if updated_at.as_str().is_empty() {
            return Err("action update timestamp is required");
        }
        self.approval_ref = Some(approval.approval_id.clone());
        self.updated_at = updated_at;
        Ok(())
    }

    pub fn can_transition_to(&self, next: &ActionStatus) -> (b: bool)
        ensures
            b == action_step(*self, *next),
    {
        if *next == ActionStatus::Approved && self.requires_explicit_approval {
            return self.authorization_ref.is_some() && self.approval_ref.is_some();
        }
        if *next == ActionStatus::Executing && self.requires_explicit_approval {
            return self.status == ActionStatus::Approved && self.authorization_ref.is_some()
                && self.approval_ref.is_some();
        }
        match (&self.status, next) {
            (ActionStatus::Proposed, ActionStatus::Approved) => true,
            (ActionStatus::Proposed, ActionStatus::Rejected) => true,
            (ActionStatus::Proposed, ActionStatus::Cancelled) => true,
            (ActionStatus::Approved, ActionStatus::Executing) => true,
            (ActionStatus::Approved, ActionStatus::Cancelled) => true,
            (ActionStatus::Executing, ActionStatus::Completed) => true,
            (ActionStatus::Executing, ActionStatus::Failed) => true,
            (ActionStatus::Executing, ActionStatus::Cancelled) => true,
            _ => false,
        }
    }

    /// Moves to `next` with a new update time when the state machine allows it.
    pub fn transition(&mut self, next: ActionStatus, updated_at: String) -> (r: Result<(), &'static str>)
        ensures
            !action_step(*old(self), next) ==> r == Err::<(), &'static str>("invalid action state transition"),
            action_step(*old(self), next) && updated_at@.len() == 0 ==> r == Err::<(), &'static str>(
                "action update timestamp is required",
            ),
            r is Ok <==> action_step(*old(self), next) && updated_at@.len() > 0,
            r is Ok ==> *final(self) == (Action { status: next, updated_at, ..*old(self) }),
            r is Err ==> *final(self) == *old(self),
    {
        if !self.can_transition_to(&next) {
            return Err("invalid action state transition");
        }
        if updated_at.as_str().is_empty() {
            return Err("action update timestamp is required");
        }
        self.status = next;
        self.updated_at = updated_at;
        Ok(())
    }
}

/// An action that requires explicit approval cannot become approved, nor
/// start executing, before both its authorization and its approval are bound.
pub proof fn lemma_explicit_approval_needs_bound_references(action: Action, next: ActionStatus)
    requires
        action.requires_explicit_approval,
        next == ActionStatus::Approved || next == ActionStatus::Executing,
        action_step(action, next),
    ensures
        action.authorization_ref is Some,
        action.approval_ref is Some,
{
}

} // verus!
