//! The content crew's agents: what each is asked and what it claims.
use vstd::prelude::*;

use crate::audit::{json_digest, signature_of, signed_payload, AuditTrace, TraceEvent, TracePhase};
use crate::evidence::{Claim, Evidence};
use crate::json::{
    empty_object, empty_object_encoding, json_encoding_of, string_entry_object, string_entry_object_of,
};
use crate::text::{concat2, decimal, decimal_string, join, join_strings};
use crate::workflow::{completed, stage_after, stage_agent, CrewStage, WorkflowRecord};

verus! {

/// How a content run is configured.
pub struct ContentCrewConfig {
    /// Whether the article waits for a human review before it is final.
    pub require_approval: bool,
    /// The key audit events are signed with, if any.
    pub signing_key: Option<String>,
}

// ---------------------------------------------------------------------------
// The run: one step per agent, each recorded in the audit trace
// ---------------------------------------------------------------------------

/// The phase an agent's step is recorded under.
pub open spec fn stage_phase(stage: CrewStage) -> TracePhase {
    match stage {
        CrewStage::Research => TracePhase::Retrieve,
        CrewStage::Analyst => TracePhase::Reason,
        CrewStage::Writer => TracePhase::Generate,
        CrewStage::Editor => TracePhase::Validate,
    }
}

/// The action an agent's step is recorded as.
pub open spec fn stage_action(stage: CrewStage) -> Seq<char> {
    match stage {
        CrewStage::Research => "web_search"@,
        CrewStage::Analyst => "synthesize_outline"@,
        CrewStage::Writer => "draft_article"@,
        CrewStage::Editor => "edit_and_verify"@,
    }
}

/// What the run does at a stage: which agent works, how its step is
/// recorded, and which stage comes next (none after the editor).
pub struct CrewStep {
    pub phase: TracePhase,
    pub agent: String,
    pub action: String,
    pub next: Option<CrewStage>,
}

/// The stage the run starts with.
pub fn first_stage() -> (s: CrewStage)
    ensures
        s == CrewStage::Research,
{
    CrewStage::Research
}

/// The step of the run at `stage`.
pub fn crew_step(stage: CrewStage) -> (s: CrewStep)
    ensures
        s.phase == stage_phase(stage),
        s.agent@ == stage_agent(stage),
        s.action@ == stage_action(stage),
        s.next == stage_after(stage),
{
    match stage {
        CrewStage::Research => CrewStep {
            phase: TracePhase::Retrieve,
            agent: stage.agent(),
            action: String::from_str("web_search"),
            next: Some(CrewStage::Analyst),
        },
        CrewStage::Analyst => CrewStep {
            phase: TracePhase::Reason,
            agent: stage.agent(),
            action: String::from_str("synthesize_outline"),
            next: Some(CrewStage::Writer),
        },
        CrewStage::Writer => CrewStep {
            phase: TracePhase::Generate,
            agent: stage.agent(),
            action: String::from_str("draft_article"),
            next: Some(CrewStage::Editor),
        },
        CrewStage::Editor => CrewStep {
            phase: TracePhase::Validate,
            agent: stage.agent(),
            action: String::from_str("edit_and_verify"),
            next: None,
        },
    }
}

/// Closes the step at `stage` once its agent produced `output`: records the
/// step (its phase, agent and action, the document `{"topic": ...}` as its
/// input, `output` as its output, `{}` as metadata) and marks the agent done.
/// The event is returned for the store.
pub fn complete_crew_stage(
    workflow: &mut WorkflowRecord,
    audit: &AuditTrace,
    stage: CrewStage,
    output: &serde_json::Value,
) -> (e: TraceEvent)
    ensures
        final(workflow)@ == completed(old(workflow)@, stage),
        e.workflow_id == old(workflow)@.id,
        e.phase == stage_phase(stage),
        e.agent@ == stage_agent(stage),
        e.action@ == stage_action(stage),
        e.input_hash@ == json_digest(string_entry_object_of("topic"@, old(workflow)@.topic)),
        e.output_hash@ == json_digest(*output),
        json_encoding_of(e.metadata) == empty_object_encoding(),
        match audit.key() {
            None => e.signature is None,
            Some(k) => e.signature matches Some(sig) && sig@ == signature_of(
                signed_payload(e.input_hash@, e.output_hash@, e.timestamp@),
                k,
            ),
        },
{
    let step = crew_step(stage);
    let input = string_entry_object("topic", workflow.topic.as_str());
    let e = audit.record(
        workflow.id,
        step.phase,
        step.agent.as_str(),
        step.action.as_str(),
        &input,
        output,
        empty_object(),
    );
    workflow.complete_stage(stage);
    e
}

/// What the agent of a stage produced: the research finds sources and
/// claims; the analyst an outline; the writer a draft; the editor the
/// article and its own claims.
pub enum StageResult {
    Research(Vec<Evidence>, Vec<Claim>),
    Analyst(String),
    Writer(String),
    Editor(String, Vec<Claim>),
}

/// What a content run has gathered so far.
pub struct CrewProgress {
    pub evidence: Vec<Evidence>,
    pub claims: Vec<Claim>,
    pub outline: String,
    pub draft: String,
    pub article: String,
}

impl CrewProgress {
    /// Nothing gathered yet.
    pub fn new() -> (p: Self)
        ensures
            p.evidence@.len() == 0,
            p.claims@.len() == 0,
            p.outline@.len() == 0,
            p.draft@.len() == 0,
            p.article@.len() == 0,
    {
        CrewProgress {
            evidence: Vec::new(),
            claims: Vec::new(),
            outline: String::new(),
            draft: String::new(),
            article: String::new(),
        }
    }

    /// Takes in what a stage produced: the research's sources and claims
    /// replace any gathered before, the outline, draft and article are
    /// kept, and the editor's claims join the research claims.
    pub fn absorb(&mut self, result: StageResult)
        ensures
            match result {
                StageResult::Research(ev, cl) => {
                    &&& final(self).evidence == ev
                    &&& final(self).claims == cl
                    &&& final(self).outline == old(self).outline
                    &&& final(self).draft == old(self).draft
                    &&& final(self).article == old(self).article
                },
                StageResult::Analyst(o) => *final(self) == (CrewProgress { outline: o, ..*old(self) }),
                StageResult::Writer(d) => *final(self) == (CrewProgress { draft: d, ..*old(self) }),
                StageResult::Editor(a, cl) => {
                    &&& final(self).claims@ == old(self).claims@ + cl@
                    &&& final(self).article == a
                    &&& final(self).evidence == old(self).evidence
                    &&& final(self).outline == old(self).outline
                    &&& final(self).draft == old(self).draft
                },
            },
    {
        match result {
            StageResult::Research(ev, cl) => {
                self.evidence = ev;
                self.claims = cl;
            },
            StageResult::Analyst(o) => {
                self.outline = o;
            },
            StageResult::Writer(d) => {
                self.draft = d;
            },
            StageResult::Editor(a, cl) => {
                let mut cl = cl;
                self.claims.append(&mut cl);
                self.article = a;
            },
        }
    }
}

// ---------------------------------------------------------------------------
// The agents' requests and claims
// ---------------------------------------------------------------------------

/// Evidence of high or primary authority.
pub open spec fn high_authority() -> spec_fn(Evidence) -> bool {
    |e: Evidence| e.authority.spec_rank() >= 2
}

/// The sources the research agent keeps: those of high or primary
/// authority, in the order they were found.
pub fn high_authority_sources(evidence: &Vec<Evidence>) -> (res: Vec<Evidence>)
    ensures
        res@ == evidence@.filter(high_authority()),
{
    let mut res: Vec<Evidence> = Vec::new();
    let mut i: usize = 0;
    proof {
        assert(evidence@.take(0) =~= Seq::<Evidence>::empty());
        reveal_with_fuel(Seq::filter, 1);
    }
    while i < evidence.len()
        invariant
            i <= evidence@.len(),
            res@ == evidence@.take(i as int).filter(high_authority()),
        decreases evidence@.len() - i,
    {
        proof {
            assert(evidence@.take(i + 1).drop_last() =~= evidence@.take(i as int));
            reveal_with_fuel(Seq::filter, 1);
        }
        if evidence[i].authority.rank() >= 2 {
            res.push(evidence[i].clone());
        }
        i += 1;
    }
    assert(evidence@.take(evidence@.len() as int) =~= evidence@);
    res
}

/// The research request: the topic and the titles of the high-authority
/// sources, separated by commas.
pub open spec fn research_request(topic: Seq<char>, evidence: Seq<Evidence>) -> Seq<char> {
    "Research topic: "@ + topic + ". Sources: "@ + join(
        evidence.filter(high_authority()).map_values(|e: Evidence| e.source_title@),
        ", "@,
    )
}

/// The research agent's request for a topic and the sources found.
pub fn research_prompt(topic: &str, evidence: &Vec<Evidence>) -> (res: String)
    ensures
        res@ == research_request(topic@, evidence@),
{
    let mut titles: Vec<String> = Vec::new();
    let mut i: usize = 0;
    proof {
        assert(evidence@.take(0) =~= Seq::<Evidence>::empty());
        reveal_with_fuel(Seq::filter, 1);
    }
    while i < evidence.len()
        invariant
            i <= evidence@.len(),
            titles@.map_values(|s: String| s@) == evidence@.take(i as int).filter(
                high_authority(),
            ).map_values(|e: Evidence| e.source_title@),
        decreases evidence@.len() - i,
    {
        let e = &evidence[i];
        let ghost pre = evidence@.take(i as int);
        let ghost before = titles@;
        proof {
            assert(evidence@.take(i + 1).drop_last() =~= pre);
            reveal_with_fuel(Seq::filter, 1);
        }
        if e.authority.rank() >= 2 {
            titles.push(e.source_title.clone());
            proof {
                assert(titles@.map_values(|s: String| s@) =~= before.map_values(|s: String| s@).push(
                    e.source_title@,
                ));
                assert(evidence@.take(i + 1).filter(high_authority()) == pre.filter(
                    high_authority(),
                ).push(*e));
                assert(pre.filter(high_authority()).push(*e).map_values(
                    |e: Evidence| e.source_title@,
                ) =~= pre.filter(high_authority()).map_values(|e: Evidence| e.source_title@).push(
                    e.source_title@,
                ));
            }
        }
        i += 1;
    }
    assert(evidence@.take(evidence@.len() as int) =~= evidence@);
    let sources = join_strings(&titles, ", ");
    let mut res = String::from_str("Research topic: ");
    res.append(topic);
    res.append(". Sources: ");
    res.append(sources.as_str());
    res
}

/// The research agent's claim: its summary, citing every source found.
pub fn research_claim(summary: String, evidence: &Vec<Evidence>) -> (c: Claim)
    ensures
        c.statement == summary,
        c.agent@ == "research-agent"@,
        c.evidence_ids@ == evidence@.map_values(|e: Evidence| e.id),
        c.confidence_percent == if evidence@.len() == 0 {
            crate::evidence::UNGROUNDED_CONFIDENCE_PERCENT
        } else {
            crate::evidence::GROUNDED_CONFIDENCE_PERCENT
        },
{
    let mut ids: Vec<u128> = Vec::new();
    let mut i: usize = 0;
    while i < evidence.len()
        invariant
            i <= evidence@.len(),
            ids@ == evidence@.take(i as int).map_values(|e: Evidence| e.id),
        decreases evidence@.len() - i,
    {
        ids.push(evidence[i].id);
        assert(evidence@.take(i + 1).map_values(|e: Evidence| e.id) =~= evidence@.take(
            i as int,
        ).map_values(|e: Evidence| e.id).push(evidence@[i as int].id));
        i += 1;
    }
    assert(evidence@.take(evidence@.len() as int) =~= evidence@);
    Claim::new(summary, String::from_str("research-agent"), ids)
}

/// How the analyst sees a claim: `- <statement> (confidence: <n>%)`.
pub open spec fn insight_line(c: Claim) -> Seq<char> {
    "- "@ + c.statement@ + " (confidence: "@ + decimal(c.confidence_percent as nat) + "%)"@
}

/// The analyst's request: the topic and one insight line per claim.
pub open spec fn analyst_request(topic: Seq<char>, claims: Seq<Claim>) -> Seq<char> {
    "Topic: "@ + topic + "\nInsights:\n"@ + join(
        claims.map_values(|c: Claim| insight_line(c)),
        "\n"@,
    ) + "\n\nProduce a structured outline."@
}

/// The analyst agent's request for a topic and the research claims.
pub fn analyst_prompt(topic: &str, claims: &Vec<Claim>) -> (res: String)
    ensures
        res@ == analyst_request(topic@, claims@),
{
    let mut lines: Vec<String> = Vec::new();
    let mut i: usize = 0;
    while i < claims.len()
        invariant
            i <= claims@.len(),
            lines@.len() == i,
            forall|k: int| 0 <= k < i ==> #[trigger] lines@[k]@ == insight_line(claims@[k]),
        decreases claims@.len() - i,
    {
        let c = &claims[i];
        let mut s = String::from_str("- ");
        s.append(c.statement.as_str());
        s.append(" (confidence: ");
        let n = decimal_string(c.confidence_percent as u64);
        s.append(n.as_str());
        s.append("%)");
        lines.push(s);
        i += 1;
    }
    assert(lines@.map_values(|p: String| p@) =~= claims@.map_values(|c: Claim| insight_line(c)));
    let insights = join_strings(&lines, "\n");
    let mut res = String::from_str("Topic: ");
    res.append(topic);
    res.append("\nInsights:\n");
    res.append(insights.as_str());
    res.append("\n\nProduce a structured outline.");
    res
}

/// The writer agent's request for an outline.
pub fn writer_prompt(outline: &str) -> (res: String)
    ensures
        res@ == "Write article from outline:\n"@ + outline@,
{
    concat2("Write article from outline:\n", outline)
}

/// The editor agent's instructions, ending with the brand rules.
pub fn editor_system_prompt(brand: &str) -> (res: String)
    ensures
        res@ == "You are an editor agent. Verify factual accuracy and brand voice.\nBrand rules: "@
            + brand@,
{
    concat2("You are an editor agent. Verify factual accuracy and brand voice.\nBrand rules: ", brand)
}

/// The instructions an agent works under; the editor's end with the brand
/// rules.
pub open spec fn stage_instructions(stage: CrewStage, brand: Seq<char>) -> Seq<char> {
    match stage {
        CrewStage::Research => "You are a research agent. Summarize findings with source attribution."@,
        CrewStage::Analyst => "You are an analyst agent. Create a structured outline from research insights."@,
        CrewStage::Writer => "You are a writer agent. Produce SEO-optimized technical content."@,
        CrewStage::Editor => "You are an editor agent. Verify factual accuracy and brand voice.\nBrand rules: "@
            + brand,
    }
}

/// The instructions the agent of `stage` works under (`brand` is read by
/// the editor only).
pub fn crew_system_prompt(stage: CrewStage, brand: &str) -> (res: String)
    ensures
        res@ == stage_instructions(stage, brand@),
{
    match stage {
        CrewStage::Research => String::from_str(
            "You are a research agent. Summarize findings with source attribution.",
        ),
        CrewStage::Analyst => String::from_str(
            "You are an analyst agent. Create a structured outline from research insights.",
        ),
        CrewStage::Writer => String::from_str(
            "You are a writer agent. Produce SEO-optimized technical content.",
        ),
        CrewStage::Editor => editor_system_prompt(brand),
    }
}

/// What the agent of `stage` is asked: the researcher about the topic and
/// its sources, the analyst about the topic and the claims, the writer about
/// the outline, the editor about the draft.
pub fn stage_request(
    stage: CrewStage,
    topic: &str,
    evidence: &Vec<Evidence>,
    claims: &Vec<Claim>,
    outline: &str,
    draft: &str,
) -> (res: String)
    ensures
        res@ == match stage {
            CrewStage::Research => research_request(topic@, evidence@),
            CrewStage::Analyst => analyst_request(topic@, claims@),
            CrewStage::Writer => "Write article from outline:\n"@ + outline@,
            CrewStage::Editor => "Edit and finalize:\n"@ + draft@,
        },
{
    match stage {
        CrewStage::Research => research_prompt(topic, evidence),
        CrewStage::Analyst => analyst_prompt(topic, claims),
        CrewStage::Writer => writer_prompt(outline),
        CrewStage::Editor => editor_prompt(draft),
    }
}

/// The editor agent's request for a draft.
pub fn editor_prompt(draft: &str) -> (res: String)
    ensures
        res@ == "Edit and finalize:\n"@ + draft@,
{
    concat2("Edit and finalize:\n", draft)
}

/// The editor agent's claim, which cites no evidence.
pub fn editor_claim() -> (c: Claim)
    ensures
        c.statement@ == "Editor-verified final article"@,
        c.agent@ == "editor-agent"@,
        c.evidence_ids@.len() == 0,
        c.confidence_percent == crate::evidence::UNGROUNDED_CONFIDENCE_PERCENT,
{
    Claim::new(
        String::from_str("Editor-verified final article"),
        String::from_str("editor-agent"),
        Vec::new(),
    )
}

} // verus!
