use sidereth::provenance::{Provenance, ProvenanceRef};
use sidereth::resource::{ResourceRef, ResourceType};
fn reference(resource_type: ResourceType, id: &str) -> ResourceRef {
    ResourceRef::new(resource_type, id.into()).unwrap()
}



#[test]
fn provenance_validation_rejects_missing_identity() {
    let provenance = Provenance {
        provenance_id: String::new(),
        actor_ref: None,
        source_refs: Vec::new(),
        input_refs: Vec::new(),
        operation: "test".into(),
        occurred_at: "2026-09-04T00:00:00Z".into(),
    };
    assert_eq!(provenance.validate(), Err("provenance id is required"));
}

#[test]
fn provenance_reference_rejects_empty_id() {
    assert_eq!(
        ProvenanceRef::new("".into()),
        Err("provenance reference id is required")
    );
}
