use sidereth::response::{Escalation, EscalationState, Response, ResponseRegistry, ResponseState};
fn response() -> Response {
    Response {
        response_id: "resp-1".into(),
        case_id: "case-1".into(),
        obligation_id: Some("obl-1".into()),
        title: "Response to notice".into(),
        content_ref: "doc-1".into(),
        state: ResponseState::Draft,
        evidence_refs: vec!["ev-1".into()],
        source_refs: vec!["src-1".into()],
    }
}

fn escalation() -> Escalation {
    Escalation {
        escalation_id: "esc-1".into(),
        case_id: "case-1".into(),
        reason: "Response remains unresolved".into(),
        target_ref: "authority-2".into(),
        response_id: Some("resp-1".into()),
        state: EscalationState::Draft,
        evidence_refs: vec!["ev-1".into()],
        source_refs: vec!["src-1".into()],
    }
}

#[test]
fn response_lifecycle_is_deterministic() {
    let mut registry = ResponseRegistry::default();
    registry.insert_response(response()).unwrap();
    registry
        .transition_response(&"resp-1".into(), ResponseState::ReviewRequired)
        .unwrap();
    registry
        .transition_response(&"resp-1".into(), ResponseState::Approved)
        .unwrap();
    registry
        .transition_response(&"resp-1".into(), ResponseState::Submitted)
        .unwrap();
    assert_eq!(
        registry.get_response(&"resp-1".into()).unwrap().state,
        ResponseState::Submitted
    );
}

#[test]
fn invalid_response_transition_is_rejected() {
    let mut registry = ResponseRegistry::default();
    registry.insert_response(response()).unwrap();
    assert_eq!(
        registry.transition_response(&"resp-1".into(), ResponseState::Submitted),
        Err("invalid response state transition")
    );
}

#[test]
fn escalation_requires_existing_response_when_linked() {
    let mut registry = ResponseRegistry::default();
    assert_eq!(
        registry.insert_escalation(escalation()),
        Err("escalation response not found")
    );
}

#[test]
fn escalation_lifecycle_is_deterministic() {
    let mut registry = ResponseRegistry::default();
    registry.insert_response(response()).unwrap();
    registry.insert_escalation(escalation()).unwrap();
    registry
        .transition_escalation(&"esc-1".into(), EscalationState::Ready)
        .unwrap();
    registry
        .transition_escalation(&"esc-1".into(), EscalationState::Submitted)
        .unwrap();
    assert_eq!(
        registry.get_escalation(&"esc-1".into()).unwrap().state,
        EscalationState::Submitted
    );
}

#[test]
fn duplicate_response_ids_are_rejected() {
    let mut registry = ResponseRegistry::default();
    registry.insert_response(response()).unwrap();
    assert_eq!(
        registry.insert_response(response()),
        Err("duplicate response id")
    );
}
