use sidereth::authorization::{AuthorizationDecision, AuthorizationResult};
use sidereth::knowledge_graph::{
    KnowledgeEdge, KnowledgeGraph, KnowledgeGraphAccessContext, KnowledgeLinkClass, KnowledgeNode,
};
use sidereth::resource::{ResourceRef, ResourceType};

fn reference(resource_type: ResourceType, id: &str) -> ResourceRef {
    ResourceRef::new(resource_type, id.into()).unwrap()
}

fn access(resource: &ResourceRef, now: u64) -> KnowledgeGraphAccessContext {
    KnowledgeGraphAccessContext {
        authorization: AuthorizationResult {
            request_id: "req-kg-1".into(),
            authorization_ref: reference(ResourceType::Other, "auth-1"),
            subject_ref: reference(ResourceType::Party, "researcher-1"),
            action: reference(ResourceType::Action, "graph-read-write"),
            resource_ref: resource.clone(),
            purpose: "knowledge graph research".into(),
            jurisdiction_ref: None,
            data_class: Some("research".into()),
            decision: AuthorizationDecision::Allow,
            constraints: vec![],
            policy_refs: vec![reference(ResourceType::Other, "policy-kg")],
            evaluated_at_epoch_seconds: now,
            expires_at_epoch_seconds: Some(now + 60),
        },
        now_epoch_seconds: now,
    }
}

#[test]
fn strong_edges_require_materialized_targets() {
    let source = reference(ResourceType::Document, "doc-1");
    let target = reference(ResourceType::Evidence, "evidence-1");
    let provenance = reference(ResourceType::Provenance, "prov-1");
    let mut graph = KnowledgeGraph::default();
    graph
        .insert_node(
            KnowledgeNode {
                resource: source.clone(),
                labels: vec!["document".into()],
            },
            &access(&source, 100),
        )
        .unwrap();

    let edge = KnowledgeEdge::new(
        "edge-1".into(),
        source.clone(),
        "supports".into(),
        target.clone(),
        KnowledgeLinkClass::Strong,
        provenance,
    )
    .unwrap();

    assert_eq!(
        graph.insert_edge(edge, &access(&source, 100)),
        Err("strong knowledge link target must exist")
    );
}

#[test]
fn authorization_is_fail_closed_and_resource_bound() {
    let resource = reference(ResourceType::Document, "doc-1");
    let other = reference(ResourceType::Document, "doc-2");
    let denied = KnowledgeGraphAccessContext {
        authorization: AuthorizationResult {
            request_id: "req-kg-2".into(),
            authorization_ref: reference(ResourceType::Other, "auth-2"),
            subject_ref: reference(ResourceType::Party, "researcher-1"),
            action: reference(ResourceType::Action, "graph-read"),
            resource_ref: resource.clone(),
            purpose: "knowledge graph research".into(),
            jurisdiction_ref: None,
            data_class: Some("research".into()),
            decision: AuthorizationDecision::Deny,
            constraints: vec![],
            policy_refs: vec![],
            evaluated_at_epoch_seconds: 100,
            expires_at_epoch_seconds: Some(200),
        },
        now_epoch_seconds: 100,
    };

    assert!(!denied.permits(&resource));
    assert!(!access(&resource, 100).permits(&other));
}

#[test]
fn knowledge_graph_expired_authorization_is_rejected() {
    let resource = reference(ResourceType::Document, "doc-1");
    let mut ctx = access(&resource, 100);
    ctx.now_epoch_seconds = 161;
    assert!(!ctx.permits(&resource));
}

#[test]
fn traversal_is_deterministic_and_preserves_external_refs() {
    let a = reference(ResourceType::Document, "a");
    let b = reference(ResourceType::Evidence, "b");
    let external = reference(ResourceType::Other, "external-1");
    let provenance = reference(ResourceType::Provenance, "p1");
    let mut graph = KnowledgeGraph::default();

    for node in [&a, &b] {
        graph
            .insert_node(
                KnowledgeNode {
                    resource: node.clone(),
                    labels: Vec::new(),
                },
                &access(node, 100),
            )
            .unwrap();
    }

    graph
        .insert_edge(
            KnowledgeEdge::new(
                "e1".into(),
                a.clone(),
                "supports".into(),
                b.clone(),
                KnowledgeLinkClass::Strong,
                provenance.clone(),
            )
            .unwrap(),
            &access(&a, 100),
        )
        .unwrap();

    graph
        .insert_edge(
            KnowledgeEdge::new(
                "e2".into(),
                a.clone(),
                "references".into(),
                external.clone(),
                KnowledgeLinkClass::External,
                provenance,
            )
            .unwrap(),
            &access(&a, 100),
        )
        .unwrap();

    let result = graph.traverse(&a, 1, &access(&a, 100)).unwrap();
    assert_eq!(result, vec![a, b, external]);
    assert!(graph.validate_conformance().is_ok());
}

#[test]
fn node_mutation_is_bound_to_its_resource() {
    let a = reference(ResourceType::Document, "a");
    let b = reference(ResourceType::Document, "b");
    let mut graph = KnowledgeGraph::default();
    assert_eq!(
        graph.insert_node(KnowledgeNode { resource: b.clone(), labels: Vec::new() }, &access(&a, 100)),
        Err("knowledge graph node mutation is unauthorized")
    );
    assert_eq!(graph.node_count(), 0);
    assert_eq!(graph.get_node(&b, &access(&a, 100)), Err("knowledge graph read is unauthorized"));
}

#[test]
fn traversal_stops_at_depth_zero_and_reports_crossing() {
    let a = reference(ResourceType::Document, "a");
    let b = reference(ResourceType::Document, "b");
    let c = reference(ResourceType::Document, "c");
    let p = reference(ResourceType::Provenance, "p");
    let mut graph = KnowledgeGraph::default();
    graph
        .insert_edge(
            KnowledgeEdge::new("e1".into(), a.clone(), "x".into(), b.clone(), KnowledgeLinkClass::Forward, p.clone())
                .unwrap(),
            &access(&a, 100),
        )
        .unwrap();
    graph
        .insert_edge(
            KnowledgeEdge::new("e2".into(), b.clone(), "x".into(), c.clone(), KnowledgeLinkClass::Forward, p)
                .unwrap(),
            &access(&b, 100),
        )
        .unwrap();
    assert_eq!(graph.traverse(&a, 0, &access(&a, 100)).unwrap(), vec![a.clone()]);
    assert_eq!(
        graph.traverse(&a, 2, &access(&a, 100)),
        Err("knowledge graph traversal crossed an unauthorized source")
    );
    assert_eq!(graph.edge_count(), 2);
}

#[test]
fn traversal_stops_at_depth_and_at_unauthorized_sources() {
    let a = reference(ResourceType::Document, "doc-a");
    let b = reference(ResourceType::Document, "doc-b");
    let c = reference(ResourceType::Document, "doc-c");
    let provenance = reference(ResourceType::Provenance, "prov-1");
    let mut graph = KnowledgeGraph::default();
    for node in [&a, &b] {
        graph
            .insert_node(
                KnowledgeNode {
                    resource: node.clone(),
                    labels: vec![],
                },
                &access(node, 100),
            )
            .unwrap();
    }
    graph
        .insert_edge(
            KnowledgeEdge::new("e1".into(), a.clone(), "cites".into(), b.clone(), KnowledgeLinkClass::Strong, provenance.clone())
                .unwrap(),
            &access(&a, 100),
        )
        .unwrap();
    graph
        .insert_edge(
            KnowledgeEdge::new("e2".into(), b.clone(), "cites".into(), c.clone(), KnowledgeLinkClass::External, provenance)
                .unwrap(),
            &access(&b, 100),
        )
        .unwrap();

    assert_eq!(graph.traverse(&a, 0, &access(&a, 100)), Ok(vec![a.clone()]));
    assert_eq!(graph.traverse(&a, 1, &access(&a, 100)), Ok(vec![a.clone(), b.clone()]));
    assert_eq!(
        graph.traverse(&a, 2, &access(&a, 100)),
        Err("knowledge graph traversal crossed an unauthorized source")
    );
    assert_eq!(graph.traverse(&b, 5, &access(&b, 100)), Ok(vec![b.clone(), c.clone()]));
}

#[test]
fn traversal_visits_edges_in_id_order() {
    let a = reference(ResourceType::Document, "a");
    let b = reference(ResourceType::Evidence, "b");
    let c = reference(ResourceType::Evidence, "c");
    let provenance = reference(ResourceType::Provenance, "p1");
    let mut graph = KnowledgeGraph::default();
    for node in [&a, &b, &c] {
        graph
            .insert_node(KnowledgeNode { resource: node.clone(), labels: Vec::new() }, &access(node, 100))
            .unwrap();
    }
    for (id, target) in [("e2", &c), ("e1", &b)] {
        graph
            .insert_edge(
                KnowledgeEdge::new(
                    id.into(),
                    a.clone(),
                    "supports".into(),
                    target.clone(),
                    KnowledgeLinkClass::Strong,
                    provenance.clone(),
                )
                .unwrap(),
                &access(&a, 100),
            )
            .unwrap();
    }
    let result = graph.traverse(&a, 1, &access(&a, 100)).unwrap();
    assert_eq!(result, vec![a, b, c]);
}
