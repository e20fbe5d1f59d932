use sidereth::resource::{ResourceRef, ResourceType};
use sidereth::tool_data_access::{ToolDataAccessError, ToolDataAccessGrant, ToolDataAccessRequest};
use sidereth::tool_registry::ToolDataClass;
fn reference(resource_type: ResourceType, id: &str) -> ResourceRef {
    ResourceRef::new(resource_type, id.into()).unwrap()
}

fn grant() -> ToolDataAccessGrant {
    ToolDataAccessGrant::from_invocation(
        "invocation-1".into(),
        reference(ResourceType::Other, "auth-1"),
        reference(ResourceType::Case, "case-1"),
        "case preparation".into(),
        ToolDataClass::Confidential,
        "case-1".into(),
    )
    .unwrap()
}

fn request(data_class: ToolDataClass) -> ToolDataAccessRequest {
    ToolDataAccessRequest {
        resource_ref: reference(ResourceType::Case, "case-1"),
        purpose: "case preparation".into(),
        data_class,
        scope: "case-1".into(),
    }
}

#[test]
fn exact_authorized_request_passes() {
    assert!(grant().authorize(&request(ToolDataClass::Confidential)).is_ok());
}

#[test]
fn less_sensitive_request_is_allowed() {
    assert!(grant().authorize(&request(ToolDataClass::Public)).is_ok());
}

#[test]
fn broader_classification_is_rejected() {
    assert_eq!(
        grant().authorize(&request(ToolDataClass::Restricted)),
        Err(ToolDataAccessError::DataClassExceedsAuthorization)
    );
}

#[test]
fn resource_cannot_be_widened() {
    let mut value = request(ToolDataClass::Confidential);
    value.resource_ref = reference(ResourceType::Case, "case-2");
    assert_eq!(
        grant().authorize(&value),
        Err(ToolDataAccessError::ResourceMismatch)
    );
}

#[test]
fn purpose_cannot_be_changed() {
    let mut value = request(ToolDataClass::Confidential);
    value.purpose = "different-purpose".into();
    assert_eq!(
        grant().authorize(&value),
        Err(ToolDataAccessError::PurposeMismatch)
    );
}

#[test]
fn scope_cannot_be_widened() {
    let mut value = request(ToolDataClass::Confidential);
    value.scope = "all-cases".into();
    assert_eq!(
        grant().authorize(&value),
        Err(ToolDataAccessError::ScopeMismatch)
    );
}

#[test]
fn empty_grant_context_is_rejected() {
    assert_eq!(
        ToolDataAccessGrant::from_invocation(
            String::new(),
            reference(ResourceType::Other, "auth-1"),
            reference(ResourceType::Case, "case-1"),
            "purpose".into(),
            ToolDataClass::Public,
            "case-1".into(),
        ),
        Err(ToolDataAccessError::InvalidRequest)
    );
}
