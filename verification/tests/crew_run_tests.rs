use oi_platform::audit::{hash_json, AuditTrace, TracePhase};
use oi_platform::crew::{complete_crew_stage, crew_step, first_stage, high_authority_sources};
use oi_platform::evidence::{Evidence, SourceAuthority};
use oi_platform::store::WorkflowStore;
use oi_platform::workflow::{ApprovalDecision, CrewStage, WorkflowKind, WorkflowRecord, WorkflowStatus};

fn topic_doc(topic: &str) -> serde_json::Value {
    let mut m = serde_json::Map::new();
    m.insert("topic".to_string(), serde_json::Value::String(topic.to_string()));
    serde_json::Value::Object(m)
}

#[test]
fn crew_steps_run_in_order_with_their_phases() {
    let mut stage = Some(first_stage());
    let mut seen = Vec::new();
    while let Some(s) = stage {
        let step = crew_step(s);
        seen.push((step.phase, step.agent, step.action));
        stage = step.next;
    }
    assert_eq!(
        seen,
        vec![
            (TracePhase::Retrieve, "research-agent".to_string(), "web_search".to_string()),
            (TracePhase::Reason, "analyst-agent".to_string(), "synthesize_outline".to_string()),
            (TracePhase::Generate, "writer-agent".to_string(), "draft_article".to_string()),
            (TracePhase::Validate, "editor-agent".to_string(), "edit_and_verify".to_string()),
        ]
    );
}

#[test]
fn completing_a_stage_records_its_event() {
    let mut w = WorkflowRecord::new(WorkflowKind::ContentCrew, "edge AI".to_string());
    let audit = AuditTrace::new(None);
    let output = serde_json::Value::String("outline".to_string());
    let e = complete_crew_stage(&mut w, &audit, CrewStage::Analyst, &output);
    assert_eq!(e.workflow_id, w.id);
    assert_eq!(e.phase, TracePhase::Reason);
    assert_eq!(e.agent, "analyst-agent");
    assert_eq!(e.action, "synthesize_outline");
    assert_eq!(e.input_hash, hash_json(&topic_doc("edge AI")));
    assert_eq!(e.output_hash, hash_json(&output));
    assert_eq!(e.metadata, serde_json::Value::Object(serde_json::Map::new()));
    assert!(e.signature.is_none());
    assert_eq!(w.state.completed_agents, vec!["analyst-agent".to_string()]);
}

#[test]
fn research_keeps_high_authority_sources() {
    let ev = vec![
        Evidence::new("a".to_string(), "A".to_string(), SourceAuthority::Low, "x".to_string()),
        Evidence::new("b".to_string(), "B".to_string(), SourceAuthority::Primary, "y".to_string()),
        Evidence::new("c".to_string(), "C".to_string(), SourceAuthority::Medium, "z".to_string()),
        Evidence::new("d".to_string(), "D".to_string(), SourceAuthority::High, "w".to_string()),
    ];
    let kept = high_authority_sources(&ev);
    let titles: Vec<&str> = kept.iter().map(|e| e.source_title.as_str()).collect();
    assert_eq!(titles, vec!["B", "D"]);
    assert_eq!(kept[0].id, ev[1].id);
}

#[test]
fn new_workflow_context_is_the_empty_object() {
    let w = WorkflowRecord::new(WorkflowKind::HiringAnalysis, "t".to_string());
    assert_eq!(serde_json::to_vec(&w.state.context).unwrap(), b"{}".to_vec());
}

#[test]
fn approving_a_stored_workflow_replaces_it() {
    let mut store = WorkflowStore::in_memory();
    let w = WorkflowRecord::new(WorkflowKind::ContentCrew, "t".to_string());
    let id = w.id;
    store.save(w).unwrap();
    let mut got = store.get(id).unwrap();
    assert_eq!(got.id, id);
    got.apply_decision(ApprovalDecision { approved: false, notes: None });
    store.save(got).unwrap();
    assert_eq!(store.get(id).unwrap().status, WorkflowStatus::Failed);
    assert_eq!(store.list().unwrap().len(), 1);
}
