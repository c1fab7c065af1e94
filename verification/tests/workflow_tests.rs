use oi_platform::workflow::{
    ApprovalDecision, ApprovalStatus, ArtifactFormat, CrewStage, WorkflowKind, WorkflowRecord,
    WorkflowStatus,
};

fn empty_json() -> serde_json::Value {
    serde_json::Value::Object(serde_json::Map::new())
}

#[test]
fn new_workflow_is_pending_and_empty() {
    let r = WorkflowRecord::new(WorkflowKind::OperationalQuery, "q".to_string());
    assert_eq!(r.kind, WorkflowKind::OperationalQuery);
    assert_eq!(r.status, WorkflowStatus::Pending);
    assert_eq!(r.topic, "q");
    assert!(r.state.current_agent.is_none());
    assert!(r.state.completed_agents.is_empty());
    assert!(r.artifacts.is_empty());
    assert!(r.approval.is_none());
    assert_eq!(r.created_at, r.updated_at);
    assert_eq!(r.state.context, empty_json());
}

#[test]
fn law_crew_records_agents_in_order() {
    let mut r = WorkflowRecord::new(WorkflowKind::ContentCrew, "t".to_string());
    r.start_running();
    let mut stage = Some(CrewStage::Research);
    let mut seen = Vec::new();
    while let Some(s) = stage {
        r.enter_stage(s);
        seen.push(r.state.current_agent.clone().unwrap());
        stage = r.complete_stage(s);
    }
    assert_eq!(seen, vec!["research-agent", "analyst-agent", "writer-agent", "editor-agent"]);
    assert_eq!(r.state.completed_agents, seen);
    assert_eq!(r.status, WorkflowStatus::Running);
}

#[test]
fn content_run_with_approval_waits() {
    let mut r = WorkflowRecord::new(WorkflowKind::ContentCrew, "t".to_string());
    r.enter_stage(CrewStage::Editor);
    let article = "é".repeat(600);
    r.finish_content("outline".to_string(), empty_json(), article.clone(), empty_json(), true);
    assert_eq!(r.status, WorkflowStatus::AwaitingApproval);
    assert!(r.state.current_agent.is_none());
    assert_eq!(r.artifacts.len(), 2);
    assert_eq!(r.artifacts[0].title, "Outline");
    assert_eq!(r.artifacts[0].body, "outline");
    assert_eq!(r.artifacts[0].format, ArtifactFormat::Markdown);
    assert_eq!(r.artifacts[1].title, "Article");
    assert_eq!(r.artifacts[1].body, article);
    let gate = r.approval.as_ref().unwrap();
    assert_eq!(gate.label, "Human review before publication");
    assert_eq!(gate.status, ApprovalStatus::Pending);
    assert_eq!(gate.artifact_preview.chars().count(), 500);
    assert!(gate.reviewer_notes.is_none());
}

#[test]
fn content_run_without_approval_completes() {
    let mut r = WorkflowRecord::new(WorkflowKind::ContentCrew, "t".to_string());
    r.finish_content("o".to_string(), empty_json(), "a".to_string(), empty_json(), false);
    assert_eq!(r.status, WorkflowStatus::Completed);
    assert!(r.approval.is_none());
}

#[test]
fn law_approval_completes_and_rejection_fails() {
    let mut r = WorkflowRecord::new(WorkflowKind::ContentCrew, "t".to_string());
    r.finish_content("o".to_string(), empty_json(), "short".to_string(), empty_json(), true);
    let mut rejected = r.clone();
    r.apply_decision(ApprovalDecision { approved: true, notes: Some("ship it".to_string()) });
    assert_eq!(r.status, WorkflowStatus::Completed);
    let gate = r.approval.as_ref().unwrap();
    assert_eq!(gate.status, ApprovalStatus::Approved);
    assert_eq!(gate.reviewer_notes.as_deref(), Some("ship it"));
    assert_eq!(gate.artifact_preview, "short");
    rejected.apply_decision(ApprovalDecision { approved: false, notes: None });
    assert_eq!(rejected.status, WorkflowStatus::Failed);
    assert_eq!(rejected.approval.as_ref().unwrap().status, ApprovalStatus::Rejected);
}

#[test]
fn decision_without_gate_still_settles_status() {
    let mut r = WorkflowRecord::new(WorkflowKind::HiringAnalysis, "t".to_string());
    r.apply_decision(ApprovalDecision { approved: false, notes: Some("n".to_string()) });
    assert_eq!(r.status, WorkflowStatus::Failed);
    assert!(r.approval.is_none());
}

#[test]
fn hiring_run_waits_for_decision() {
    let mut r = WorkflowRecord::new(WorkflowKind::HiringAnalysis, "t".to_string());
    let summary = "s".repeat(450);
    r.finish_hiring(&summary, "{}".to_string(), empty_json());
    assert_eq!(r.status, WorkflowStatus::AwaitingApproval);
    assert_eq!(r.artifacts.len(), 1);
    assert_eq!(r.artifacts[0].title, "Hiring Assessment");
    assert_eq!(r.artifacts[0].format, ArtifactFormat::Json);
    assert_eq!(r.artifacts[0].body, "{}");
    let gate = r.approval.as_ref().unwrap();
    assert_eq!(gate.label, "Hiring decision review");
    assert_eq!(gate.artifact_preview.len(), 400);
    assert_eq!(
        r.state.completed_agents,
        vec!["evidence-tracer", "pattern-analyzer", "hiring-assessor"]
    );
}
