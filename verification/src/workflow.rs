//! Workflow records and the decisions that move them from one status to
//! the next: running, passing through the crew's agents, waiting for a
//! person's approval, and the decision taken.
use vstd::prelude::*;

use crate::json::{empty_object, empty_object_encoding, json_encoding_of};
use crate::stamp::{fresh_id, now_rfc3339};
use crate::text::{first_chars, prefix};

verus! {

/// What a workflow does.
#[derive(Debug, Clone, Copy, PartialEq, Eq, Structural)]
pub enum WorkflowKind {
    ContentCrew,
    HiringAnalysis,
    OperationalQuery,
}

/// Where a workflow stands.
#[derive(Debug, Clone, Copy, PartialEq, Eq, Structural)]
pub enum WorkflowStatus {
    Pending,
    Running,
    AwaitingApproval,
    Completed,
    Failed,
}

/// Where a human review stands.
#[derive(Debug, Clone, Copy, PartialEq, Eq, Structural)]
pub enum ApprovalStatus {
    Pending,
    Approved,
    Rejected,
}

/// How an artifact's body is written.
#[derive(Debug, Clone, Copy, PartialEq, Eq, Structural)]
pub enum ArtifactFormat {
    Markdown,
    Json,
}

/// A document a workflow produced.
pub struct Artifact {
    pub title: String,
    pub format: ArtifactFormat,
    pub body: String,
    pub metadata: serde_json::Value,
}

impl Clone for Artifact {
    fn clone(&self) -> (res: Self)
        ensures
            res == *self,
    {
        Artifact {
            title: self.title.clone(),
            format: self.format,
            body: self.body.clone(),
            metadata: self.metadata.clone(),
        }
    }
}

/// An approval that a workflow waits for.
pub struct ApprovalGate {
    /// The 128-bit value of the approval's UUID.
    pub id: u128,
    pub label: String,
    pub status: ApprovalStatus,
    pub artifact_preview: String,
    pub reviewer_notes: Option<String>,
}

impl Clone for ApprovalGate {
    fn clone(&self) -> (res: Self)
        ensures
            res == *self,
    {
        ApprovalGate {
            id: self.id,
            label: self.label.clone(),
            status: self.status,
            artifact_preview: self.artifact_preview.clone(),
            reviewer_notes: self.reviewer_notes.clone(),
        }
    }
}

/// The decision taken at an approval gate.
pub struct ApprovalDecision {
    pub approved: bool,
    pub notes: Option<String>,
}

/// The progress of a workflow's agents.
pub struct WorkflowState {
    pub current_agent: Option<String>,
    pub completed_agents: Vec<String>,
    pub context: serde_json::Value,
}

/// A workflow with everything it produced.
pub struct WorkflowRecord {
    /// The 128-bit value of the workflow's UUID.
    pub id: u128,
    pub kind: WorkflowKind,
    pub status: WorkflowStatus,
    pub topic: String,
    pub state: WorkflowState,
    pub artifacts: Vec<Artifact>,
    pub approval: Option<ApprovalGate>,
    pub created_at: String,
    pub updated_at: String,
}

/// A workflow record as a mathematical value.
pub struct RecordView {
    pub id: u128,
    pub kind: WorkflowKind,
    pub status: WorkflowStatus,
    pub topic: Seq<char>,
    pub current_agent: Option<Seq<char>>,
    pub completed_agents: Seq<Seq<char>>,
    pub context: serde_json::Value,
    pub artifacts: Seq<Artifact>,
    pub approval: Option<ApprovalGate>,
    pub created_at: Seq<char>,
    pub updated_at: Seq<char>,
}

/// The view of an optional string.
pub open spec fn opt_view(s: Option<String>) -> Option<Seq<char>> {
    match s {
        Some(t) => Some(t@),
        None => None,
    }
}

/// The views of a vector of strings.
pub open spec fn strings_view(v: Seq<String>) -> Seq<Seq<char>> {
    v.map_values(|s: String| s@)
}

impl View for WorkflowRecord {
    type V = RecordView;

    open spec fn view(&self) -> RecordView {
        RecordView {
            id: self.id,
            kind: self.kind,
            status: self.status,
            topic: self.topic@,
            current_agent: opt_view(self.state.current_agent),
            completed_agents: strings_view(self.state.completed_agents@),
            context: self.state.context,
            artifacts: self.artifacts@,
            approval: self.approval,
            created_at: self.created_at@,
            updated_at: self.updated_at@,
        }
    }
}

impl Clone for WorkflowRecord {
    fn clone(&self) -> (res: Self)
        ensures
            res@ == self@,
    {
        let completed = self.state.completed_agents.clone();
        assert(strings_view(completed@) =~= strings_view(self.state.completed_agents@));
        let artifacts = self.artifacts.clone();
        assert(artifacts@ =~= self.artifacts@);
        let approval = match &self.approval {
            Some(g) => Some(g.clone()),
            None => None,
        };
        WorkflowRecord {
            id: self.id,
            kind: self.kind,
            status: self.status,
            topic: self.topic.clone(),
            state: WorkflowState {
                current_agent: self.state.current_agent.clone(),
                completed_agents: completed,
                context: self.state.context.clone(),
            },
            artifacts,
            approval,
            created_at: self.created_at.clone(),
            updated_at: self.updated_at.clone(),
        }
    }
}

// ---------------------------------------------------------------------------
// Creation and status changes
// ---------------------------------------------------------------------------

impl WorkflowRecord {
    /// A pending workflow with a fresh identifier, no agent work, no
    /// artifacts, no review, the empty object `{}` as context, created and
    /// updated now.
    pub fn new(kind: WorkflowKind, topic: String) -> (r: Self)
        ensures
            r@.kind == kind,
            r@.status == WorkflowStatus::Pending,
            r@.topic == topic@,
            r@.current_agent is None,
            r@.completed_agents.len() == 0,
            r@.artifacts.len() == 0,
            r@.approval is None,
            json_encoding_of(r@.context) == empty_object_encoding(),
            r@.created_at == r@.updated_at,
    {
        let now = now_rfc3339();
        let r = WorkflowRecord {
            id: fresh_id(),
            kind,
            status: WorkflowStatus::Pending,
            topic,
            state: WorkflowState {
                current_agent: None,
                completed_agents: Vec::new(),
                context: empty_object(),
            },
            artifacts: Vec::new(),
            approval: None,
            created_at: now.clone(),
            updated_at: now,
        };
        r
    }

    /// Marks the workflow as running; nothing else changes.
    pub fn start_running(&mut self)
        ensures
            final(self)@ == (RecordView { status: WorkflowStatus::Running, ..old(self)@ }),
    {
        self.status = WorkflowStatus::Running;
    }

    /// Applies a decision: the approval, if there is one, takes the outcome
    /// and the notes; the workflow completes when approved and fails
    /// otherwise; the update time is renewed.
    pub fn apply_decision(&mut self, decision: ApprovalDecision)
        ensures
            final(self)@ == (RecordView {
                status: decided_status(decision.approved),
                approval: decided_gate(old(self)@.approval, decision),
                updated_at: final(self)@.updated_at,
                ..old(self)@
            }),
    {
        let ApprovalDecision { approved, notes } = decision;
        let approval = match self.approval.take() {
            Some(gate) => {
                let mut g = gate;
                g.status = if approved {
                    ApprovalStatus::Approved
                } else {
                    ApprovalStatus::Rejected
                };
                g.reviewer_notes = notes;
                Some(g)
            },
            None => None,
        };
        self.approval = approval;
        self.status = if approved {
            WorkflowStatus::Completed
        } else {
            WorkflowStatus::Failed
        };
        self.updated_at = now_rfc3339();
    }
}

/// The status a decision leaves a workflow in.
pub open spec fn decided_status(approved: bool) -> WorkflowStatus {
    if approved {
        WorkflowStatus::Completed
    } else {
        WorkflowStatus::Failed
    }
}

/// The approval after a decision.
pub open spec fn decided_gate(gate: Option<ApprovalGate>, d: ApprovalDecision) -> Option<
    ApprovalGate,
> {
    match gate {
        Some(g) => Some(
            ApprovalGate {
                status: if d.approved {
                    ApprovalStatus::Approved
                } else {
                    ApprovalStatus::Rejected
                },
                reviewer_notes: d.notes,
                ..g
            },
        ),
        None => None,
    }
}

// ---------------------------------------------------------------------------
// The content crew
// ---------------------------------------------------------------------------

/// The agents of the content crew, in the order they work.
#[derive(Debug, Clone, Copy, PartialEq, Eq, Structural)]
pub enum CrewStage {
    Research,
    Analyst,
    Writer,
    Editor,
}

/// The name of the agent at a stage.
pub open spec fn stage_agent(stage: CrewStage) -> Seq<char> {
    match stage {
        CrewStage::Research => "research-agent"@,
        CrewStage::Analyst => "analyst-agent"@,
        CrewStage::Writer => "writer-agent"@,
        CrewStage::Editor => "editor-agent"@,
    }
}

/// The stage after `stage`, none after the editor.
pub open spec fn stage_after(stage: CrewStage) -> Option<CrewStage> {
    match stage {
        CrewStage::Research => Some(CrewStage::Analyst),
        CrewStage::Analyst => Some(CrewStage::Writer),
        CrewStage::Writer => Some(CrewStage::Editor),
        CrewStage::Editor => None,
    }
}

impl CrewStage {
    /// The name of the agent at this stage.
    pub fn agent(self) -> (s: String)
        ensures
            s@ == stage_agent(self),
    {
        match self {
            CrewStage::Research => String::from_str("research-agent"),
            CrewStage::Analyst => String::from_str("analyst-agent"),
            CrewStage::Writer => String::from_str("writer-agent"),
            CrewStage::Editor => String::from_str("editor-agent"),
        }
    }
}

/// The record after the agent of `stage` is done.
pub open spec fn completed(r: RecordView, stage: CrewStage) -> RecordView {
    RecordView { completed_agents: r.completed_agents.push(stage_agent(stage)), ..r }
}

/// Label of the review that a content run waits for.
pub open spec fn content_gate_label() -> Seq<char> {
    "Human review before publication"@
}

/// Label of the review that a hiring analysis waits for.
pub open spec fn hiring_gate_label() -> Seq<char> {
    "Hiring decision review"@
}

/// A review is open with this label and preview, and no decision or notes yet.
pub open spec fn is_pending_review(
    gate: Option<ApprovalGate>,
    label: Seq<char>,
    preview: Seq<char>,
) -> bool {
    &&& gate is Some
    &&& gate->0.label@ == label
    &&& gate->0.status == ApprovalStatus::Pending
    &&& gate->0.artifact_preview@ == preview
    &&& gate->0.reviewer_notes is None
}

/// How many characters of the article a content review previews.
pub const CONTENT_PREVIEW_CHARS: usize = 500;

/// How many characters of the assessment a hiring review previews.
pub const HIRING_PREVIEW_CHARS: usize = 400;

/// The agents a hiring analysis records as done.
pub open spec fn hiring_agents() -> Seq<Seq<char>> {
    seq!["evidence-tracer"@, "pattern-analyzer"@, "hiring-assessor"@]
}

impl WorkflowRecord {
    /// The agent of `stage` starts working.
    pub fn enter_stage(&mut self, stage: CrewStage)
        ensures
            final(self)@ == (RecordView { current_agent: Some(stage_agent(stage)), ..old(self)@ }),
    {
        self.state.current_agent = Some(stage.agent());
    }

    /// The agent of `stage` is done: it joins the completed agents, and the
    /// next stage, if any, is returned.
    pub fn complete_stage(&mut self, stage: CrewStage) -> (next: Option<CrewStage>)
        ensures
            final(self)@ == completed(old(self)@, stage),
            next == stage_after(stage),
    {
        let ghost before = self.state.completed_agents@;
        self.state.completed_agents.push(stage.agent());
        assert(strings_view(self.state.completed_agents@) =~= strings_view(before).push(
            stage_agent(stage),
        ));
        match stage {
            CrewStage::Research => Some(CrewStage::Analyst),
            CrewStage::Analyst => Some(CrewStage::Writer),
            CrewStage::Writer => Some(CrewStage::Editor),
            CrewStage::Editor => None,
        }
    }

    /// Ends a content run: the outline and the article become the artifacts;
    /// with `require_approval` the workflow waits for a review that previews
    /// the first 500 characters of the article, otherwise it is completed;
    /// no agent is current any more and the update time is renewed.
    pub fn finish_content(
        &mut self,
        outline: String,
        outline_metadata: serde_json::Value,
        article: String,
        article_metadata: serde_json::Value,
        require_approval: bool,
    )
        ensures
            final(self)@.artifacts == seq![
                Artifact {
                    title: final(self)@.artifacts[0].title,
                    format: ArtifactFormat::Markdown,
                    body: outline,
                    metadata: outline_metadata,
                },
                Artifact {
                    title: final(self)@.artifacts[1].title,
                    format: ArtifactFormat::Markdown,
                    body: article,
                    metadata: article_metadata,
                },
            ],
            final(self)@.artifacts[0].title@ == "Outline"@,
            final(self)@.artifacts[1].title@ == "Article"@,
            final(self)@.current_agent is None,
            require_approval ==> final(self)@.status == WorkflowStatus::AwaitingApproval,
            require_approval ==> is_pending_review(
                final(self)@.approval,
                content_gate_label(),
                prefix(article@, CONTENT_PREVIEW_CHARS as nat),
            ),
            !require_approval ==> final(self)@.status == WorkflowStatus::Completed,
            !require_approval ==> final(self)@.approval == old(self)@.approval,
            final(self)@.id == old(self)@.id,
            final(self)@.kind == old(self)@.kind,
            final(self)@.topic == old(self)@.topic,
            final(self)@.completed_agents == old(self)@.completed_agents,
            final(self)@.context == old(self)@.context,
            final(self)@.created_at == old(self)@.created_at,
    {
        let preview = if require_approval {
            Some(first_chars(article.as_str(), CONTENT_PREVIEW_CHARS))
        } else {
            None
        };
        let mut artifacts: Vec<Artifact> = Vec::new();
        artifacts.push(
            Artifact {
                title: String::from_str("Outline"),
                format: ArtifactFormat::Markdown,
                body: outline,
                metadata: outline_metadata,
            },
        );
        artifacts.push(
            Artifact {
                title: String::from_str("Article"),
                format: ArtifactFormat::Markdown,
                body: article,
                metadata: article_metadata,
            },
        );
        self.artifacts = artifacts;
        match preview {
            Some(p) => {
                self.status = WorkflowStatus::AwaitingApproval;
                self.approval = Some(
                    ApprovalGate {
                        id: fresh_id(),
                        label: String::from_str("Human review before publication"),
                        status: ApprovalStatus::Pending,
                        artifact_preview: p,
                        reviewer_notes: None,
                    },
                );
            },
            None => {
                self.status = WorkflowStatus::Completed;
            },
        }
        self.state.current_agent = None;
        self.updated_at = now_rfc3339();
    }

    /// Ends a hiring analysis: the assessment `body` joins the artifacts as
    /// JSON, the workflow waits for a review that previews the first 400
    /// characters of `summary`, the three hiring agents are recorded as done
    /// and the update time is renewed.
    pub fn finish_hiring(&mut self, summary: &str, body: String, metadata: serde_json::Value)
        ensures
            final(self)@.artifacts.len() == old(self)@.artifacts.len() + 1,
            final(self)@.artifacts.drop_last() == old(self)@.artifacts,
            final(self)@.artifacts.last().title@ == "Hiring Assessment"@,
            final(self)@.artifacts.last().format == ArtifactFormat::Json,
            final(self)@.artifacts.last().body == body,
            final(self)@.artifacts.last().metadata == metadata,
            final(self)@.status == WorkflowStatus::AwaitingApproval,
            is_pending_review(
                final(self)@.approval,
                hiring_gate_label(),
                prefix(summary@, HIRING_PREVIEW_CHARS as nat),
            ),
            final(self)@.completed_agents == hiring_agents(),
            final(self)@.id == old(self)@.id,
            final(self)@.kind == old(self)@.kind,
            final(self)@.topic == old(self)@.topic,
            final(self)@.current_agent == old(self)@.current_agent,
            final(self)@.context == old(self)@.context,
            final(self)@.created_at == old(self)@.created_at,
    {
        let ghost before = self.artifacts@;
        self.artifacts.push(
            Artifact {
                title: String::from_str("Hiring Assessment"),
                format: ArtifactFormat::Json,
                body,
                metadata,
            },
        );
        assert(self.artifacts@.drop_last() =~= before);
        self.status = WorkflowStatus::AwaitingApproval;
        self.approval = Some(
            ApprovalGate {
                id: fresh_id(),
                label: String::from_str("Hiring decision review"),
                status: ApprovalStatus::Pending,
                artifact_preview: first_chars(summary, HIRING_PREVIEW_CHARS),
                reviewer_notes: None,
            },
        );
        let mut agents: Vec<String> = Vec::new();
        agents.push(String::from_str("evidence-tracer"));
        agents.push(String::from_str("pattern-analyzer"));
        agents.push(String::from_str("hiring-assessor"));
        assert(strings_view(agents@) =~= hiring_agents());
        self.state.completed_agents = agents;
        self.updated_at = now_rfc3339();
    }
}

} // verus!
