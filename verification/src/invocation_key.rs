//! The canonical bytes of a tool invocation read back unambiguously: two
//! invocations with the same canonical bytes agree on every field's value.
//! Their operation keys are digests of these bytes.
use vstd::prelude::*;
use crate::canonical::{
    lemma_number_frame_unique, lemma_opt_number_frame_unique, lemma_opt_ref_frame_unique,
    lemma_opt_text_frame_unique, lemma_ref_frame_unique, lemma_tag_unique, lemma_text_frame_unique, number_frame,
    opt_number_frame, opt_ref_frame, opt_text_frame, ref_frame, text_frame,
};
use crate::capability_lease::{CapabilityLease, CapabilityLeaseState};
use crate::resource::{opt_ref_view, opt_text_view};
use crate::tool_gateway::{
    ToolGatewayInvocation, data_class_wire, invocation_bytes, lease_frame, lease_state_label, mode_label,
    opt_data_class_frame, opt_lease_frame, requirement_frame,
};
use crate::tool_registry::{ToolDataClass, ToolExecutionMode, ToolVersionRequirement};

verus! {

/// The data class named `t`.
pub open spec fn data_class_of_wire(t: Seq<char>) -> Option<ToolDataClass> {
    if t == "public"@ {
        Some(ToolDataClass::Public)
    } else if t == "internal"@ {
        Some(ToolDataClass::Internal)
    } else if t == "confidential"@ {
        Some(ToolDataClass::Confidential)
    } else if t == "restricted"@ {
        Some(ToolDataClass::Restricted)
    } else {
        None
    }
}

pub proof fn lemma_data_class_of_wire_round_trip(x: ToolDataClass)
    ensures
        data_class_of_wire(data_class_wire(x)@) == Some(x),
{
    match x {
        ToolDataClass::Public => {
            reveal_strlit("public");
        },
        ToolDataClass::Internal => {
            reveal_strlit("internal");
            reveal_strlit("public");
            assert("internal"@ != "public"@) by { assert("internal"@.len() != "public"@.len()); }
        },
        ToolDataClass::Confidential => {
            reveal_strlit("confidential");
            reveal_strlit("public");
            assert("confidential"@ != "public"@) by { assert("confidential"@.len() != "public"@.len()); }
            reveal_strlit("internal");
            assert("confidential"@ != "internal"@) by { assert("confidential"@.len() != "internal"@.len()); }
        },
        ToolDataClass::Restricted => {
            reveal_strlit("restricted");
            reveal_strlit("public");
            assert("restricted"@ != "public"@) by { assert("restricted"@.len() != "public"@.len()); }
            reveal_strlit("internal");
            assert("restricted"@ != "internal"@) by { assert("restricted"@.len() != "internal"@.len()); }
            reveal_strlit("confidential");
            assert("restricted"@ != "confidential"@) by { assert("restricted"@.len() != "confidential"@.len()); }
        },
    }
}

/// The execution mode named `t`.
pub open spec fn mode_of_label(t: Seq<char>) -> Option<ToolExecutionMode> {
    if t == "sync"@ {
        Some(ToolExecutionMode::Sync)
    } else if t == "async"@ {
        Some(ToolExecutionMode::Async)
    } else if t == "offline"@ {
        Some(ToolExecutionMode::Offline)
    } else if t == "resumable"@ {
        Some(ToolExecutionMode::Resumable)
    } else {
        None
    }
}

pub proof fn lemma_mode_of_label_round_trip(x: ToolExecutionMode)
    ensures
        mode_of_label(mode_label(x)@) == Some(x),
{
    match x {
        ToolExecutionMode::Sync => {
            reveal_strlit("sync");
        },
        ToolExecutionMode::Async => {
            reveal_strlit("async");
            reveal_strlit("sync");
            assert("async"@ != "sync"@) by { assert("async"@.len() != "sync"@.len()); }
        },
        ToolExecutionMode::Offline => {
            reveal_strlit("offline");
            reveal_strlit("sync");
            assert("offline"@ != "sync"@) by { assert("offline"@.len() != "sync"@.len()); }
            reveal_strlit("async");
            assert("offline"@ != "async"@) by { assert("offline"@.len() != "async"@.len()); }
        },
        ToolExecutionMode::Resumable => {
            reveal_strlit("resumable");
            reveal_strlit("sync");
            assert("resumable"@ != "sync"@) by { assert("resumable"@.len() != "sync"@.len()); }
            reveal_strlit("async");
            assert("resumable"@ != "async"@) by { assert("resumable"@.len() != "async"@.len()); }
            reveal_strlit("offline");
            assert("resumable"@ != "offline"@) by { assert("resumable"@.len() != "offline"@.len()); }
        },
    }
}

/// The lease state named `t`.
pub open spec fn lease_state_of_label(t: Seq<char>) -> Option<CapabilityLeaseState> {
    if t == "requested"@ {
        Some(CapabilityLeaseState::Requested)
    } else if t == "authorized"@ {
        Some(CapabilityLeaseState::Authorized)
    } else if t == "active"@ {
        Some(CapabilityLeaseState::Active)
    } else if t == "completed"@ {
        Some(CapabilityLeaseState::Completed)
    } else if t == "released"@ {
        Some(CapabilityLeaseState::Released)
    } else if t == "revoked"@ {
        Some(CapabilityLeaseState::Revoked)
    } else if t == "cancelled"@ {
        Some(CapabilityLeaseState::Cancelled)
    } else if t == "expired"@ {
        Some(CapabilityLeaseState::Expired)
    } else {
        None
    }
}

pub proof fn lemma_lease_state_of_label_round_trip(x: CapabilityLeaseState)
    ensures
        lease_state_of_label(lease_state_label(x)@) == Some(x),
{
    match x {
        CapabilityLeaseState::Requested => {
            reveal_strlit("requested");
        },
        CapabilityLeaseState::Authorized => {
            reveal_strlit("authorized");
            reveal_strlit("requested");
            assert("authorized"@ != "requested"@) by { assert("authorized"@.len() != "requested"@.len()); }
        },
        CapabilityLeaseState::Active => {
            reveal_strlit("active");
            reveal_strlit("requested");
            assert("active"@ != "requested"@) by { assert("active"@.len() != "requested"@.len()); }
            reveal_strlit("authorized");
            assert("active"@ != "authorized"@) by { assert("active"@.len() != "authorized"@.len()); }
        },
        CapabilityLeaseState::Completed => {
            reveal_strlit("completed");
            reveal_strlit("requested");
            assert("completed"@ != "requested"@) by { assert("completed"@[0] != "requested"@[0]); }
            reveal_strlit("authorized");
            assert("completed"@ != "authorized"@) by { assert("completed"@.len() != "authorized"@.len()); }
            reveal_strlit("active");
            assert("completed"@ != "active"@) by { assert("completed"@.len() != "active"@.len()); }
        },
        CapabilityLeaseState::Released => {
            reveal_strlit("released");
            reveal_strlit("requested");
            assert("released"@ != "requested"@) by { assert("released"@.len() != "requested"@.len()); }
            reveal_strlit("authorized");
            assert("released"@ != "authorized"@) by { assert("released"@.len() != "authorized"@.len()); }
            reveal_strlit("active");
            assert("released"@ != "active"@) by { assert("released"@.len() != "active"@.len()); }
            reveal_strlit("completed");
            assert("released"@ != "completed"@) by { assert("released"@.len() != "completed"@.len()); }
        },
        CapabilityLeaseState::Revoked => {
            reveal_strlit("revoked");
            reveal_strlit("requested");
            assert("revoked"@ != "requested"@) by { assert("revoked"@.len() != "requested"@.len()); }
            reveal_strlit("authorized");
            assert("revoked"@ != "authorized"@) by { assert("revoked"@.len() != "authorized"@.len()); }
            reveal_strlit("active");
            assert("revoked"@ != "active"@) by { assert("revoked"@.len() != "active"@.len()); }
            reveal_strlit("completed");
            assert("revoked"@ != "completed"@) by { assert("revoked"@.len() != "completed"@.len()); }
            reveal_strlit("released");
            assert("revoked"@ != "released"@) by { assert("revoked"@.len() != "released"@.len()); }
        },
        CapabilityLeaseState::Cancelled => {
            reveal_strlit("cancelled");
            reveal_strlit("requested");
            assert("cancelled"@ != "requested"@) by { assert("cancelled"@[0] != "requested"@[0]); }
            reveal_strlit("authorized");
            assert("cancelled"@ != "authorized"@) by { assert("cancelled"@.len() != "authorized"@.len()); }
            reveal_strlit("active");
            assert("cancelled"@ != "active"@) by { assert("cancelled"@.len() != "active"@.len()); }
            reveal_strlit("completed");
            assert("cancelled"@ != "completed"@) by { assert("cancelled"@[1] != "completed"@[1]); }
            reveal_strlit("released");
            assert("cancelled"@ != "released"@) by { assert("cancelled"@.len() != "released"@.len()); }
            reveal_strlit("revoked");
            assert("cancelled"@ != "revoked"@) by { assert("cancelled"@.len() != "revoked"@.len()); }
        },
        CapabilityLeaseState::Expired => {
            reveal_strlit("expired");
            reveal_strlit("requested");
            assert("expired"@ != "requested"@) by { assert("expired"@.len() != "requested"@.len()); }
            reveal_strlit("authorized");
            assert("expired"@ != "authorized"@) by { assert("expired"@.len() != "authorized"@.len()); }
            reveal_strlit("active");
            assert("expired"@ != "active"@) by { assert("expired"@.len() != "active"@.len()); }
            reveal_strlit("completed");
            assert("expired"@ != "completed"@) by { assert("expired"@.len() != "completed"@.len()); }
            reveal_strlit("released");
            assert("expired"@ != "released"@) by { assert("expired"@.len() != "released"@.len()); }
            reveal_strlit("revoked");
            assert("expired"@ != "revoked"@) by { assert("expired"@[0] != "revoked"@[0]); }
            reveal_strlit("cancelled");
            assert("expired"@ != "cancelled"@) by { assert("expired"@.len() != "cancelled"@.len()); }
        },
    }
}

/// An optional data class at the front of an encoding is determined by it.
pub proof fn lemma_data_class_frame_unique(a: Option<ToolDataClass>, x: Seq<u8>, b: Option<ToolDataClass>, y: Seq<u8>)
    requires
        opt_data_class_frame(a) + x == opt_data_class_frame(b) + y,
    ensures
        a == b,
        x == y,
{
    let pa = match a {
        Some(c) => Some(text_frame(data_class_wire(c)@)),
        None => None,
    };
    let pb = match b {
        Some(c) => Some(text_frame(data_class_wire(c)@)),
        None => None,
    };
    lemma_tag_unique(pa, x, pb, y);
    if a is Some {
        lemma_text_frame_unique(data_class_wire(a->0)@, x, data_class_wire(b->0)@, y);
        lemma_data_class_of_wire_round_trip(a->0);
        lemma_data_class_of_wire_round_trip(b->0);
    }
}

/// A version requirement at the front of an encoding is determined by it.
pub proof fn lemma_requirement_frame_unique(
    a: ToolVersionRequirement,
    x: Seq<u8>,
    b: ToolVersionRequirement,
    y: Seq<u8>,
)
    requires
        requirement_frame(a) + x == requirement_frame(b) + y,
    ensures
        a == b,
        x == y,
{
    reveal_strlit("exact");
    reveal_strlit("compatible_major");
    assert("exact"@ != "compatible_major"@) by { assert("exact"@.len() != "compatible_major"@.len()); }
    match (a, b) {
        (ToolVersionRequirement::Exact(va), ToolVersionRequirement::Exact(vb)) => {
            let ta = text_frame("exact"@);
            let ra = number_frame(va.minor) + number_frame(va.patch) + x;
            let rb = number_frame(vb.minor) + number_frame(vb.patch) + y;
            assert(requirement_frame(a) + x =~= ta + (number_frame(va.major) + ra));
            assert(requirement_frame(b) + y =~= ta + (number_frame(vb.major) + rb));
            lemma_text_frame_unique("exact"@, number_frame(va.major) + ra, "exact"@, number_frame(vb.major) + rb);
            lemma_number_frame_unique(va.major, ra, vb.major, rb);
            assert(ra =~= number_frame(va.minor) + (number_frame(va.patch) + x));
            assert(rb =~= number_frame(vb.minor) + (number_frame(vb.patch) + y));
            lemma_number_frame_unique(va.minor, number_frame(va.patch) + x, vb.minor, number_frame(vb.patch) + y);
            lemma_number_frame_unique(va.patch, x, vb.patch, y);
        },
        (ToolVersionRequirement::CompatibleMajor(ma), ToolVersionRequirement::CompatibleMajor(mb)) => {
            let ta = text_frame("compatible_major"@);
            assert(requirement_frame(a) + x =~= ta + (number_frame(ma) + x));
            assert(requirement_frame(b) + y =~= ta + (number_frame(mb) + y));
            lemma_text_frame_unique("compatible_major"@, number_frame(ma) + x, "compatible_major"@, number_frame(mb) + y);
            lemma_number_frame_unique(ma, x, mb, y);
        },
        (ToolVersionRequirement::Exact(va), ToolVersionRequirement::CompatibleMajor(mb)) => {
            let ra = number_frame(va.major) + number_frame(va.minor) + number_frame(va.patch) + x;
            assert(requirement_frame(a) + x =~= text_frame("exact"@) + ra);
            assert(requirement_frame(b) + y =~= text_frame("compatible_major"@) + (number_frame(mb) + y));
            lemma_text_frame_unique("exact"@, ra, "compatible_major"@, number_frame(mb) + y);
        },
        (ToolVersionRequirement::CompatibleMajor(ma), ToolVersionRequirement::Exact(vb)) => {
            let rb = number_frame(vb.major) + number_frame(vb.minor) + number_frame(vb.patch) + y;
            assert(requirement_frame(a) + x =~= text_frame("compatible_major"@) + (number_frame(ma) + x));
            assert(requirement_frame(b) + y =~= text_frame("exact"@) + rb);
            lemma_text_frame_unique("compatible_major"@, number_frame(ma) + x, "exact"@, rb);
        },
    }
}

/// `a` and `b` agree on the value of every field.
pub open spec fn same_lease(a: CapabilityLease, b: CapabilityLease) -> bool {
    &&& a.lease_id@ == b.lease_id@
    &&& a.schema_version@ == b.schema_version@
    &&& a.capability_ref@ == b.capability_ref@
    &&& opt_ref_view(a.resource_ref) == opt_ref_view(b.resource_ref)
    &&& a.subject_ref@ == b.subject_ref@
    &&& opt_ref_view(a.actor_ref) == opt_ref_view(b.actor_ref)
    &&& a.purpose@ == b.purpose@
    &&& opt_text_view(a.purpose_version) == opt_text_view(b.purpose_version)
    &&& a.authorization_ref@ == b.authorization_ref@
    &&& opt_ref_view(a.incident_ref) == opt_ref_view(b.incident_ref)
    &&& opt_ref_view(a.session_ref) == opt_ref_view(b.session_ref)
    &&& a.scope@ == b.scope@
    &&& a.issued_at_epoch_seconds == b.issued_at_epoch_seconds
    &&& a.expires_at_epoch_seconds == b.expires_at_epoch_seconds
    &&& a.state == b.state
    &&& a.revoked_at_epoch_seconds == b.revoked_at_epoch_seconds
    &&& a.cancelled_at_epoch_seconds == b.cancelled_at_epoch_seconds
    &&& a.activated_at_epoch_seconds == b.activated_at_epoch_seconds
    &&& a.released_at_epoch_seconds == b.released_at_epoch_seconds
    &&& opt_ref_view(a.adapter_ref) == opt_ref_view(b.adapter_ref)
    &&& opt_ref_view(a.audit_ref) == opt_ref_view(b.audit_ref)
}

/// A lease at the front of an encoding is determined by it.
pub proof fn lemma_lease_frame_unique(a: CapabilityLease, x: Seq<u8>, b: CapabilityLease, y: Seq<u8>)
    requires
        lease_frame(a) + x == lease_frame(b) + y,
    ensures
        same_lease(a, b),
        x == y,
{
    let ac0 = ref_frame(a.lease_id@);
    let ac1 = text_frame(a.schema_version@);
    let ac2 = ref_frame(a.capability_ref@);
    let ac3 = opt_ref_frame(opt_ref_view(a.resource_ref));
    let ac4 = ref_frame(a.subject_ref@);
    let ac5 = opt_ref_frame(opt_ref_view(a.actor_ref));
    let ac6 = text_frame(a.purpose@);
    let ac7 = opt_text_frame(opt_text_view(a.purpose_version));
    let ac8 = ref_frame(a.authorization_ref@);
    let ac9 = opt_ref_frame(opt_ref_view(a.incident_ref));
    let ac10 = opt_ref_frame(opt_ref_view(a.session_ref));
    let ac11 = text_frame(a.scope@);
    let ac12 = number_frame(a.issued_at_epoch_seconds);
    let ac13 = number_frame(a.expires_at_epoch_seconds);
    let ac14 = text_frame(lease_state_label(a.state)@);
    let ac15 = opt_number_frame(a.revoked_at_epoch_seconds);
    let ac16 = opt_number_frame(a.cancelled_at_epoch_seconds);
    let ac17 = opt_number_frame(a.activated_at_epoch_seconds);
    let ac18 = opt_number_frame(a.released_at_epoch_seconds);
    let ac19 = opt_ref_frame(opt_ref_view(a.adapter_ref));
    let ac20 = opt_ref_frame(opt_ref_view(a.audit_ref));
    let ap0 = ac0;
    let ap1 = ap0 + ac1;
    let ap2 = ap1 + ac2;
    let ap3 = ap2 + ac3;
    let ap4 = ap3 + ac4;
    let ap5 = ap4 + ac5;
    let ap6 = ap5 + ac6;
    let ap7 = ap6 + ac7;
    let ap8 = ap7 + ac8;
    let ap9 = ap8 + ac9;
    let ap10 = ap9 + ac10;
    let ap11 = ap10 + ac11;
    let ap12 = ap11 + ac12;
    let ap13 = ap12 + ac13;
    let ap14 = ap13 + ac14;
    let ap15 = ap14 + ac15;
    let ap16 = ap15 + ac16;
    let ap17 = ap16 + ac17;
    let ap18 = ap17 + ac18;
    let ap19 = ap18 + ac19;
    let ap20 = ap19 + ac20;
    let at20 = x;
    let at19 = ac20 + at20;
    let at18 = ac19 + at19;
    let at17 = ac18 + at18;
    let at16 = ac17 + at17;
    let at15 = ac16 + at16;
    let at14 = ac15 + at15;
    let at13 = ac14 + at14;
    let at12 = ac13 + at13;
    let at11 = ac12 + at12;
    let at10 = ac11 + at11;
    let at9 = ac10 + at10;
    let at8 = ac9 + at9;
    let at7 = ac8 + at8;
    let at6 = ac7 + at7;
    let at5 = ac6 + at6;
    let at4 = ac5 + at5;
    let at3 = ac4 + at4;
    let at2 = ac3 + at3;
    let at1 = ac2 + at2;
    let at0 = ac1 + at1;
    vstd::seq_lib::lemma_concat_associative(ap19, ac20, at20);
    vstd::seq_lib::lemma_concat_associative(ap18, ac19, at19);
    vstd::seq_lib::lemma_concat_associative(ap17, ac18, at18);
    vstd::seq_lib::lemma_concat_associative(ap16, ac17, at17);
    vstd::seq_lib::lemma_concat_associative(ap15, ac16, at16);
    vstd::seq_lib::lemma_concat_associative(ap14, ac15, at15);
    vstd::seq_lib::lemma_concat_associative(ap13, ac14, at14);
    vstd::seq_lib::lemma_concat_associative(ap12, ac13, at13);
    vstd::seq_lib::lemma_concat_associative(ap11, ac12, at12);
    vstd::seq_lib::lemma_concat_associative(ap10, ac11, at11);
    vstd::seq_lib::lemma_concat_associative(ap9, ac10, at10);
    vstd::seq_lib::lemma_concat_associative(ap8, ac9, at9);
    vstd::seq_lib::lemma_concat_associative(ap7, ac8, at8);
    vstd::seq_lib::lemma_concat_associative(ap6, ac7, at7);
    vstd::seq_lib::lemma_concat_associative(ap5, ac6, at6);
    vstd::seq_lib::lemma_concat_associative(ap4, ac5, at5);
    vstd::seq_lib::lemma_concat_associative(ap3, ac4, at4);
    vstd::seq_lib::lemma_concat_associative(ap2, ac3, at3);
    vstd::seq_lib::lemma_concat_associative(ap1, ac2, at2);
    vstd::seq_lib::lemma_concat_associative(ap0, ac1, at1);
    let bc0 = ref_frame(b.lease_id@);
    let bc1 = text_frame(b.schema_version@);
    let bc2 = ref_frame(b.capability_ref@);
    let bc3 = opt_ref_frame(opt_ref_view(b.resource_ref));
    let bc4 = ref_frame(b.subject_ref@);
    let bc5 = opt_ref_frame(opt_ref_view(b.actor_ref));
    let bc6 = text_frame(b.purpose@);
    let bc7 = opt_text_frame(opt_text_view(b.purpose_version));
    let bc8 = ref_frame(b.authorization_ref@);
    let bc9 = opt_ref_frame(opt_ref_view(b.incident_ref));
    let bc10 = opt_ref_frame(opt_ref_view(b.session_ref));
    let bc11 = text_frame(b.scope@);
    let bc12 = number_frame(b.issued_at_epoch_seconds);
    let bc13 = number_frame(b.expires_at_epoch_seconds);
    let bc14 = text_frame(lease_state_label(b.state)@);
    let bc15 = opt_number_frame(b.revoked_at_epoch_seconds);
    let bc16 = opt_number_frame(b.cancelled_at_epoch_seconds);
    let bc17 = opt_number_frame(b.activated_at_epoch_seconds);
    let bc18 = opt_number_frame(b.released_at_epoch_seconds);
    let bc19 = opt_ref_frame(opt_ref_view(b.adapter_ref));
    let bc20 = opt_ref_frame(opt_ref_view(b.audit_ref));
    let bp0 = bc0;
    let bp1 = bp0 + bc1;
    let bp2 = bp1 + bc2;
    let bp3 = bp2 + bc3;
    let bp4 = bp3 + bc4;
    let bp5 = bp4 + bc5;
    let bp6 = bp5 + bc6;
    let bp7 = bp6 + bc7;
    let bp8 = bp7 + bc8;
    let bp9 = bp8 + bc9;
    let bp10 = bp9 + bc10;
    let bp11 = bp10 + bc11;
    let bp12 = bp11 + bc12;
    let bp13 = bp12 + bc13;
    let bp14 = bp13 + bc14;
    let bp15 = bp14 + bc15;
    let bp16 = bp15 + bc16;
    let bp17 = bp16 + bc17;
    let bp18 = bp17 + bc18;
    let bp19 = bp18 + bc19;
    let bp20 = bp19 + bc20;
    let bt20 = y;
    let bt19 = bc20 + bt20;
    let bt18 = bc19 + bt19;
    let bt17 = bc18 + bt18;
    let bt16 = bc17 + bt17;
    let bt15 = bc16 + bt16;
    let bt14 = bc15 + bt15;
    let bt13 = bc14 + bt14;
    let bt12 = bc13 + bt13;
    let bt11 = bc12 + bt12;
    let bt10 = bc11 + bt11;
    let bt9 = bc10 + bt10;
    let bt8 = bc9 + bt9;
    let bt7 = bc8 + bt8;
    let bt6 = bc7 + bt7;
    let bt5 = bc6 + bt6;
    let bt4 = bc5 + bt5;
    let bt3 = bc4 + bt4;
    let bt2 = bc3 + bt3;
    let bt1 = bc2 + bt2;
    let bt0 = bc1 + bt1;
    vstd::seq_lib::lemma_concat_associative(bp19, bc20, bt20);
    vstd::seq_lib::lemma_concat_associative(bp18, bc19, bt19);
    vstd::seq_lib::lemma_concat_associative(bp17, bc18, bt18);
    vstd::seq_lib::lemma_concat_associative(bp16, bc17, bt17);
    vstd::seq_lib::lemma_concat_associative(bp15, bc16, bt16);
    vstd::seq_lib::lemma_concat_associative(bp14, bc15, bt15);
    vstd::seq_lib::lemma_concat_associative(bp13, bc14, bt14);
    vstd::seq_lib::lemma_concat_associative(bp12, bc13, bt13);
    vstd::seq_lib::lemma_concat_associative(bp11, bc12, bt12);
    vstd::seq_lib::lemma_concat_associative(bp10, bc11, bt11);
    vstd::seq_lib::lemma_concat_associative(bp9, bc10, bt10);
    vstd::seq_lib::lemma_concat_associative(bp8, bc9, bt9);
    vstd::seq_lib::lemma_concat_associative(bp7, bc8, bt8);
    vstd::seq_lib::lemma_concat_associative(bp6, bc7, bt7);
    vstd::seq_lib::lemma_concat_associative(bp5, bc6, bt6);
    vstd::seq_lib::lemma_concat_associative(bp4, bc5, bt5);
    vstd::seq_lib::lemma_concat_associative(bp3, bc4, bt4);
    vstd::seq_lib::lemma_concat_associative(bp2, bc3, bt3);
    vstd::seq_lib::lemma_concat_associative(bp1, bc2, bt2);
    vstd::seq_lib::lemma_concat_associative(bp0, bc1, bt1);
    assert(ap20 == lease_frame(a) && bp20 == lease_frame(b));
    lemma_ref_frame_unique(a.lease_id@, at0, b.lease_id@, bt0);
    lemma_text_frame_unique(a.schema_version@, at1, b.schema_version@, bt1);
    lemma_ref_frame_unique(a.capability_ref@, at2, b.capability_ref@, bt2);
    lemma_opt_ref_frame_unique(opt_ref_view(a.resource_ref), at3, opt_ref_view(b.resource_ref), bt3);
    lemma_ref_frame_unique(a.subject_ref@, at4, b.subject_ref@, bt4);
    lemma_opt_ref_frame_unique(opt_ref_view(a.actor_ref), at5, opt_ref_view(b.actor_ref), bt5);
    lemma_text_frame_unique(a.purpose@, at6, b.purpose@, bt6);
    lemma_opt_text_frame_unique(opt_text_view(a.purpose_version), at7, opt_text_view(b.purpose_version), bt7);
    lemma_ref_frame_unique(a.authorization_ref@, at8, b.authorization_ref@, bt8);
    lemma_opt_ref_frame_unique(opt_ref_view(a.incident_ref), at9, opt_ref_view(b.incident_ref), bt9);
    lemma_opt_ref_frame_unique(opt_ref_view(a.session_ref), at10, opt_ref_view(b.session_ref), bt10);
    lemma_text_frame_unique(a.scope@, at11, b.scope@, bt11);
    lemma_number_frame_unique(a.issued_at_epoch_seconds, at12, b.issued_at_epoch_seconds, bt12);
    lemma_number_frame_unique(a.expires_at_epoch_seconds, at13, b.expires_at_epoch_seconds, bt13);
    lemma_text_frame_unique(lease_state_label(a.state)@, at14, lease_state_label(b.state)@, bt14);
    lemma_opt_number_frame_unique(a.revoked_at_epoch_seconds, at15, b.revoked_at_epoch_seconds, bt15);
    lemma_opt_number_frame_unique(a.cancelled_at_epoch_seconds, at16, b.cancelled_at_epoch_seconds, bt16);
    lemma_opt_number_frame_unique(a.activated_at_epoch_seconds, at17, b.activated_at_epoch_seconds, bt17);
    lemma_opt_number_frame_unique(a.released_at_epoch_seconds, at18, b.released_at_epoch_seconds, bt18);
    lemma_opt_ref_frame_unique(opt_ref_view(a.adapter_ref), at19, opt_ref_view(b.adapter_ref), bt19);
    lemma_opt_ref_frame_unique(opt_ref_view(a.audit_ref), at20, opt_ref_view(b.audit_ref), bt20);
    lemma_lease_state_of_label_round_trip(a.state);
    lemma_lease_state_of_label_round_trip(b.state);
}

/// An optional lease: none, or the value of every field.
pub open spec fn same_opt_lease(a: Option<CapabilityLease>, b: Option<CapabilityLease>) -> bool {
    match (a, b) {
        (None, None) => true,
        (Some(x), Some(y)) => same_lease(x, y),
        _ => false,
    }
}

/// An optional lease at the front of an encoding is determined by it.
pub proof fn lemma_opt_lease_frame_unique(a: Option<CapabilityLease>, x: Seq<u8>, b: Option<CapabilityLease>, y: Seq<u8>)
    requires
        opt_lease_frame(a) + x == opt_lease_frame(b) + y,
    ensures
        same_opt_lease(a, b),
        x == y,
{
    let pa = match a {
        Some(l) => Some(lease_frame(l)),
        None => None,
    };
    let pb = match b {
        Some(l) => Some(lease_frame(l)),
        None => None,
    };
    lemma_tag_unique(pa, x, pb, y);
    if a is Some {
        lemma_lease_frame_unique(a->0, x, b->0, y);
    }
}

/// `a` and `b` agree on the value of every field.
pub open spec fn same_invocation(a: ToolGatewayInvocation, b: ToolGatewayInvocation) -> bool {
    &&& a.request_id@ == b.request_id@
    &&& a.occurred_at@ == b.occurred_at@
    &&& a.authorization_ref@ == b.authorization_ref@
    &&& a.subject_ref@ == b.subject_ref@
    &&& opt_ref_view(a.actor_ref) == opt_ref_view(b.actor_ref)
    &&& a.action@ == b.action@
    &&& a.resource_ref@ == b.resource_ref@
    &&& a.capability_ref@ == b.capability_ref@
    &&& opt_ref_view(a.function_ref) == opt_ref_view(b.function_ref)
    &&& a.purpose@ == b.purpose@
    &&& opt_text_view(a.purpose_version) == opt_text_view(b.purpose_version)
    &&& opt_ref_view(a.jurisdiction_ref) == opt_ref_view(b.jurisdiction_ref)
    &&& a.data_class == b.data_class
    &&& a.tool_id@ == b.tool_id@
    &&& a.tool_version == b.tool_version
    &&& a.implementation_id@ == b.implementation_id@
    &&& a.provider_id@ == b.provider_id@
    &&& a.implementation_version@ == b.implementation_version@
    &&& a.idempotency_ref@ == b.idempotency_ref@
    &&& a.requested_scope@ == b.requested_scope@
    &&& a.execution_mode == b.execution_mode
    &&& opt_ref_view(a.incident_ref) == opt_ref_view(b.incident_ref)
    &&& opt_ref_view(a.session_ref) == opt_ref_view(b.session_ref)
    &&& same_opt_lease(a.capability_lease, b.capability_lease)
}

/// An invocation at the front of an encoding is determined by it.
pub proof fn lemma_invocation_bytes_prefix_unique(a: ToolGatewayInvocation, x: Seq<u8>, b: ToolGatewayInvocation, y: Seq<u8>)
    requires
        invocation_bytes(a) + x == invocation_bytes(b) + y,
    ensures
        same_invocation(a, b),
        x == y,
{
    let ac0 = text_frame(a.request_id@);
    let ac1 = text_frame(a.occurred_at@);
    let ac2 = ref_frame(a.authorization_ref@);
    let ac3 = ref_frame(a.subject_ref@);
    let ac4 = opt_ref_frame(opt_ref_view(a.actor_ref));
    let ac5 = ref_frame(a.action@);
    let ac6 = ref_frame(a.resource_ref@);
    let ac7 = ref_frame(a.capability_ref@);
    let ac8 = opt_ref_frame(opt_ref_view(a.function_ref));
    let ac9 = text_frame(a.purpose@);
    let ac10 = opt_text_frame(opt_text_view(a.purpose_version));
    let ac11 = opt_ref_frame(opt_ref_view(a.jurisdiction_ref));
    let ac12 = opt_data_class_frame(a.data_class);
    let ac13 = text_frame(a.tool_id@);
    let ac14 = requirement_frame(a.tool_version);
    let ac15 = text_frame(a.implementation_id@);
    let ac16 = text_frame(a.provider_id@);
    let ac17 = text_frame(a.implementation_version@);
    let ac18 = text_frame(a.idempotency_ref@);
    let ac19 = text_frame(a.requested_scope@);
    let ac20 = text_frame(mode_label(a.execution_mode)@);
    let ac21 = opt_lease_frame(a.capability_lease);
    let ac22 = opt_ref_frame(opt_ref_view(a.incident_ref));
    let ac23 = opt_ref_frame(opt_ref_view(a.session_ref));
    let ap0 = ac0;
    let ap1 = ap0 + ac1;
    let ap2 = ap1 + ac2;
    let ap3 = ap2 + ac3;
    let ap4 = ap3 + ac4;
    let ap5 = ap4 + ac5;
    let ap6 = ap5 + ac6;
    let ap7 = ap6 + ac7;
    let ap8 = ap7 + ac8;
    let ap9 = ap8 + ac9;
    let ap10 = ap9 + ac10;
    let ap11 = ap10 + ac11;
    let ap12 = ap11 + ac12;
    let ap13 = ap12 + ac13;
    let ap14 = ap13 + ac14;
    let ap15 = ap14 + ac15;
    let ap16 = ap15 + ac16;
    let ap17 = ap16 + ac17;
    let ap18 = ap17 + ac18;
    let ap19 = ap18 + ac19;
    let ap20 = ap19 + ac20;
    let ap21 = ap20 + ac21;
    let ap22 = ap21 + ac22;
    let ap23 = ap22 + ac23;
    let at23 = x;
    let at22 = ac23 + at23;
    let at21 = ac22 + at22;
    let at20 = ac21 + at21;
    let at19 = ac20 + at20;
    let at18 = ac19 + at19;
    let at17 = ac18 + at18;
    let at16 = ac17 + at17;
    let at15 = ac16 + at16;
    let at14 = ac15 + at15;
    let at13 = ac14 + at14;
    let at12 = ac13 + at13;
    let at11 = ac12 + at12;
    let at10 = ac11 + at11;
    let at9 = ac10 + at10;
    let at8 = ac9 + at9;
    let at7 = ac8 + at8;
    let at6 = ac7 + at7;
    let at5 = ac6 + at6;
    let at4 = ac5 + at5;
    let at3 = ac4 + at4;
    let at2 = ac3 + at3;
    let at1 = ac2 + at2;
    let at0 = ac1 + at1;
    vstd::seq_lib::lemma_concat_associative(ap22, ac23, at23);
    vstd::seq_lib::lemma_concat_associative(ap21, ac22, at22);
    vstd::seq_lib::lemma_concat_associative(ap20, ac21, at21);
    vstd::seq_lib::lemma_concat_associative(ap19, ac20, at20);
    vstd::seq_lib::lemma_concat_associative(ap18, ac19, at19);
    vstd::seq_lib::lemma_concat_associative(ap17, ac18, at18);
    vstd::seq_lib::lemma_concat_associative(ap16, ac17, at17);
    vstd::seq_lib::lemma_concat_associative(ap15, ac16, at16);
    vstd::seq_lib::lemma_concat_associative(ap14, ac15, at15);
    vstd::seq_lib::lemma_concat_associative(ap13, ac14, at14);
    vstd::seq_lib::lemma_concat_associative(ap12, ac13, at13);
    vstd::seq_lib::lemma_concat_associative(ap11, ac12, at12);
    vstd::seq_lib::lemma_concat_associative(ap10, ac11, at11);
    vstd::seq_lib::lemma_concat_associative(ap9, ac10, at10);
    vstd::seq_lib::lemma_concat_associative(ap8, ac9, at9);
    vstd::seq_lib::lemma_concat_associative(ap7, ac8, at8);
    vstd::seq_lib::lemma_concat_associative(ap6, ac7, at7);
    vstd::seq_lib::lemma_concat_associative(ap5, ac6, at6);
    vstd::seq_lib::lemma_concat_associative(ap4, ac5, at5);
    vstd::seq_lib::lemma_concat_associative(ap3, ac4, at4);
    vstd::seq_lib::lemma_concat_associative(ap2, ac3, at3);
    vstd::seq_lib::lemma_concat_associative(ap1, ac2, at2);
    vstd::seq_lib::lemma_concat_associative(ap0, ac1, at1);
    let bc0 = text_frame(b.request_id@);
    let bc1 = text_frame(b.occurred_at@);
    let bc2 = ref_frame(b.authorization_ref@);
    let bc3 = ref_frame(b.subject_ref@);
    let bc4 = opt_ref_frame(opt_ref_view(b.actor_ref));
    let bc5 = ref_frame(b.action@);
    let bc6 = ref_frame(b.resource_ref@);
    let bc7 = ref_frame(b.capability_ref@);
    let bc8 = opt_ref_frame(opt_ref_view(b.function_ref));
    let bc9 = text_frame(b.purpose@);
    let bc10 = opt_text_frame(opt_text_view(b.purpose_version));
    let bc11 = opt_ref_frame(opt_ref_view(b.jurisdiction_ref));
    let bc12 = opt_data_class_frame(b.data_class);
    let bc13 = text_frame(b.tool_id@);
    let bc14 = requirement_frame(b.tool_version);
    let bc15 = text_frame(b.implementation_id@);
    let bc16 = text_frame(b.provider_id@);
    let bc17 = text_frame(b.implementation_version@);
    let bc18 = text_frame(b.idempotency_ref@);
    let bc19 = text_frame(b.requested_scope@);
    let bc20 = text_frame(mode_label(b.execution_mode)@);
    let bc21 = opt_lease_frame(b.capability_lease);
    let bc22 = opt_ref_frame(opt_ref_view(b.incident_ref));
    let bc23 = opt_ref_frame(opt_ref_view(b.session_ref));
    let bp0 = bc0;
    let bp1 = bp0 + bc1;
    let bp2 = bp1 + bc2;
    let bp3 = bp2 + bc3;
    let bp4 = bp3 + bc4;
    let bp5 = bp4 + bc5;
    let bp6 = bp5 + bc6;
    let bp7 = bp6 + bc7;
    let bp8 = bp7 + bc8;
    let bp9 = bp8 + bc9;
    let bp10 = bp9 + bc10;
    let bp11 = bp10 + bc11;
    let bp12 = bp11 + bc12;
    let bp13 = bp12 + bc13;
    let bp14 = bp13 + bc14;
    let bp15 = bp14 + bc15;
    let bp16 = bp15 + bc16;
    let bp17 = bp16 + bc17;
    let bp18 = bp17 + bc18;
    let bp19 = bp18 + bc19;
    let bp20 = bp19 + bc20;
    let bp21 = bp20 + bc21;
    let bp22 = bp21 + bc22;
    let bp23 = bp22 + bc23;
    let bt23 = y;
    let bt22 = bc23 + bt23;
    let bt21 = bc22 + bt22;
    let bt20 = bc21 + bt21;
    let bt19 = bc20 + bt20;
    let bt18 = bc19 + bt19;
    let bt17 = bc18 + bt18;
    let bt16 = bc17 + bt17;
    let bt15 = bc16 + bt16;
    let bt14 = bc15 + bt15;
    let bt13 = bc14 + bt14;
    let bt12 = bc13 + bt13;
    let bt11 = bc12 + bt12;
    let bt10 = bc11 + bt11;
    let bt9 = bc10 + bt10;
    let bt8 = bc9 + bt9;
    let bt7 = bc8 + bt8;
    let bt6 = bc7 + bt7;
    let bt5 = bc6 + bt6;
    let bt4 = bc5 + bt5;
    let bt3 = bc4 + bt4;
    let bt2 = bc3 + bt3;
    let bt1 = bc2 + bt2;
    let bt0 = bc1 + bt1;
    vstd::seq_lib::lemma_concat_associative(bp22, bc23, bt23);
    vstd::seq_lib::lemma_concat_associative(bp21, bc22, bt22);
    vstd::seq_lib::lemma_concat_associative(bp20, bc21, bt21);
    vstd::seq_lib::lemma_concat_associative(bp19, bc20, bt20);
    vstd::seq_lib::lemma_concat_associative(bp18, bc19, bt19);
    vstd::seq_lib::lemma_concat_associative(bp17, bc18, bt18);
    vstd::seq_lib::lemma_concat_associative(bp16, bc17, bt17);
    vstd::seq_lib::lemma_concat_associative(bp15, bc16, bt16);
    vstd::seq_lib::lemma_concat_associative(bp14, bc15, bt15);
    vstd::seq_lib::lemma_concat_associative(bp13, bc14, bt14);
    vstd::seq_lib::lemma_concat_associative(bp12, bc13, bt13);
    vstd::seq_lib::lemma_concat_associative(bp11, bc12, bt12);
    vstd::seq_lib::lemma_concat_associative(bp10, bc11, bt11);
    vstd::seq_lib::lemma_concat_associative(bp9, bc10, bt10);
    vstd::seq_lib::lemma_concat_associative(bp8, bc9, bt9);
    vstd::seq_lib::lemma_concat_associative(bp7, bc8, bt8);
    vstd::seq_lib::lemma_concat_associative(bp6, bc7, bt7);
    vstd::seq_lib::lemma_concat_associative(bp5, bc6, bt6);
    vstd::seq_lib::lemma_concat_associative(bp4, bc5, bt5);
    vstd::seq_lib::lemma_concat_associative(bp3, bc4, bt4);
    vstd::seq_lib::lemma_concat_associative(bp2, bc3, bt3);
    vstd::seq_lib::lemma_concat_associative(bp1, bc2, bt2);
    vstd::seq_lib::lemma_concat_associative(bp0, bc1, bt1);
    assert(ap23 == invocation_bytes(a) && bp23 == invocation_bytes(b));
    lemma_text_frame_unique(a.request_id@, at0, b.request_id@, bt0);
    lemma_text_frame_unique(a.occurred_at@, at1, b.occurred_at@, bt1);
    lemma_ref_frame_unique(a.authorization_ref@, at2, b.authorization_ref@, bt2);
    lemma_ref_frame_unique(a.subject_ref@, at3, b.subject_ref@, bt3);
    lemma_opt_ref_frame_unique(opt_ref_view(a.actor_ref), at4, opt_ref_view(b.actor_ref), bt4);
    lemma_ref_frame_unique(a.action@, at5, b.action@, bt5);
    lemma_ref_frame_unique(a.resource_ref@, at6, b.resource_ref@, bt6);
    lemma_ref_frame_unique(a.capability_ref@, at7, b.capability_ref@, bt7);
    lemma_opt_ref_frame_unique(opt_ref_view(a.function_ref), at8, opt_ref_view(b.function_ref), bt8);
    lemma_text_frame_unique(a.purpose@, at9, b.purpose@, bt9);
    lemma_opt_text_frame_unique(opt_text_view(a.purpose_version), at10, opt_text_view(b.purpose_version), bt10);
    lemma_opt_ref_frame_unique(opt_ref_view(a.jurisdiction_ref), at11, opt_ref_view(b.jurisdiction_ref), bt11);
    lemma_data_class_frame_unique(a.data_class, at12, b.data_class, bt12);
    lemma_text_frame_unique(a.tool_id@, at13, b.tool_id@, bt13);
    lemma_requirement_frame_unique(a.tool_version, at14, b.tool_version, bt14);
    lemma_text_frame_unique(a.implementation_id@, at15, b.implementation_id@, bt15);
    lemma_text_frame_unique(a.provider_id@, at16, b.provider_id@, bt16);
    lemma_text_frame_unique(a.implementation_version@, at17, b.implementation_version@, bt17);
    lemma_text_frame_unique(a.idempotency_ref@, at18, b.idempotency_ref@, bt18);
    lemma_text_frame_unique(a.requested_scope@, at19, b.requested_scope@, bt19);
    lemma_text_frame_unique(mode_label(a.execution_mode)@, at20, mode_label(b.execution_mode)@, bt20);
    lemma_opt_lease_frame_unique(a.capability_lease, at21, b.capability_lease, bt21);
    lemma_opt_ref_frame_unique(opt_ref_view(a.incident_ref), at22, opt_ref_view(b.incident_ref), bt22);
    lemma_opt_ref_frame_unique(opt_ref_view(a.session_ref), at23, opt_ref_view(b.session_ref), bt23);
    lemma_mode_of_label_round_trip(a.execution_mode);
    lemma_mode_of_label_round_trip(b.execution_mode);
}

/// Invocations with the same canonical bytes agree on every field: the
/// bytes that operation keys are computed from tell invocations apart.
pub proof fn lemma_invocation_bytes_injective(a: ToolGatewayInvocation, b: ToolGatewayInvocation)
    requires
        invocation_bytes(a) == invocation_bytes(b),
    ensures
        same_invocation(a, b),
{
    assert(invocation_bytes(a) + Seq::<u8>::empty() =~= invocation_bytes(b) + Seq::<u8>::empty());
    lemma_invocation_bytes_prefix_unique(a, Seq::<u8>::empty(), b, Seq::<u8>::empty());
}

} // verus!
