//! Hiring analysis: findings traced to transcript lines, patterns across
//! answers, and the prompts given to the assessor.
use vstd::prelude::*;

use crate::audit::{json_digest, signature_of, signed_payload, AuditTrace, TraceEvent, TracePhase};
use crate::json::{number_entry_object, number_entry_object_of};
use crate::evidence::{Evidence, EvidenceSpan, SourceAuthority};
use crate::text::{
    chars_of, concat2, concat3, contains_chars, decimal, decimal_string, has_substring, join,
    lowercase_of, to_lowercase, word_count, words,
};
use crate::tools::ToolRegistry;
use crate::transcript::{LineView, TranscriptLine};

verus! {

/// Confidence, in hundredths, of a strength traced to a transcript line.
pub const STRENGTH_CONFIDENCE_PERCENT: u8 = 82;

/// Confidence, in hundredths, of a risk traced to a transcript line.
pub const RISK_CONFIDENCE_PERCENT: u8 = 75;


/// A conclusion with the evidence that supports it.
pub struct EvidenceBackedFinding {
    pub statement: String,
    pub evidence: Evidence,
    /// Confidence in hundredths (82 stands for 0.82).
    pub confidence_percent: u8,
}

// ---------------------------------------------------------------------------
// Classifying lines
// ---------------------------------------------------------------------------

/// The lower-cased text of a line shows technical depth.
pub open spec fn is_technical(lower: Seq<char>) -> bool {
    ||| has_substring(lower, "system"@)
    ||| has_substring(lower, "architecture"@)
    ||| has_substring(lower, "production"@)
    ||| has_substring(lower, "distributed"@)
}

/// The lower-cased text of a line signals uncertainty.
pub open spec fn is_risk(lower: Seq<char>) -> bool {
    ||| has_substring(lower, "unsure"@)
    ||| has_substring(lower, "don't know"@)
    ||| has_substring(lower, "maybe"@)
    ||| has_substring(lower, "i think"@)
}

/// The lower-cased text of a line hedges.
pub open spec fn is_hedge(lower: Seq<char>) -> bool {
    ||| has_substring(lower, "maybe"@)
    ||| has_substring(lower, "i think"@)
    ||| has_substring(lower, "probably"@)
}

/// What an already lower-cased line signals: technical depth, uncertainty,
/// and hedging, in that order.
pub fn line_signals(lower: &str) -> (res: (bool, bool, bool))
    ensures
        res.0 == is_technical(lower@),
        res.1 == is_risk(lower@),
        res.2 == is_hedge(lower@),
{
    let l = chars_of(lower);
    let maybe = contains_chars(&l, &chars_of("maybe"));
    let i_think = contains_chars(&l, &chars_of("i think"));
    let technical = contains_chars(&l, &chars_of("system")) || contains_chars(
        &l,
        &chars_of("architecture"),
    ) || contains_chars(&l, &chars_of("production")) || contains_chars(
        &l,
        &chars_of("distributed"),
    );
    let risk = contains_chars(&l, &chars_of("unsure")) || contains_chars(
        &l,
        &chars_of("don't know"),
    ) || maybe || i_think;
    let hedge = maybe || i_think || contains_chars(&l, &chars_of("probably"));
    (technical, risk, hedge)
}

/// Lines that show technical depth.
pub open spec fn technical_line() -> spec_fn(LineView) -> bool {
    |t: LineView| is_technical(lowercase_of(t.text))
}

/// Lines that signal uncertainty.
pub open spec fn risk_line() -> spec_fn(LineView) -> bool {
    |t: LineView| is_risk(lowercase_of(t.text))
}

/// Lines that hedge.
pub open spec fn hedge_line() -> spec_fn(LineView) -> bool {
    |t: LineView| is_hedge(lowercase_of(t.text))
}

/// Answers of more than 25 words.
pub open spec fn extended_line() -> spec_fn(LineView) -> bool {
    |t: LineView| words(t.text).len() > 25
}

/// The line numbers a set of findings cites: for each line, once if it
/// shows technical depth and once more if it signals uncertainty.
pub open spec fn cited_lines(ts: Seq<LineView>) -> Seq<u32>
    decreases ts.len(),
{
    if ts.len() == 0 {
        Seq::empty()
    } else {
        let t = ts.last();
        let low = lowercase_of(t.text);
        let a = cited_lines(ts.drop_last());
        let b = if is_technical(low) {
            a.push(t.line)
        } else {
            a
        };
        if is_risk(low) {
            b.push(t.line)
        } else {
            b
        }
    }
}

/// A finding quotes transcript line `t` as primary evidence with the
/// statement `lead` followed by the line number.
pub open spec fn traces_line(
    f: EvidenceBackedFinding,
    t: LineView,
    lead: Seq<char>,
    confidence: u8,
) -> bool {
    let n = decimal(t.line as nat);
    &&& f.statement@ == lead + n
    &&& f.evidence.source_uri@ == "transcript://line/"@ + n
    &&& f.evidence.source_title@ == "Line "@ + n
    &&& f.evidence.authority == SourceAuthority::Primary
    &&& f.evidence.content@ == t.text
    &&& f.evidence.span matches Some(s) && s.start_line == t.line && s.end_line == t.line
        && s.excerpt@ == t.text
    &&& f.confidence_percent == confidence
}

/// Statement lead of a strength traced to a line.
pub open spec fn strength_lead() -> Seq<char> {
    "Technical depth demonstrated at line "@
}

/// Statement lead of a risk traced to a line.
pub open spec fn risk_lead() -> Seq<char> {
    "Uncertainty signal at line "@
}

/// A finding cites one of the lines `ts`, and that line's number is among
/// the `cited` numbers.
pub open spec fn cites_some_line(f: EvidenceBackedFinding, ts: Seq<LineView>, cited: Seq<u32>) -> bool {
    exists|j: int| 0 <= j < ts.len() && #[trigger] cites_line(f, ts[j]) && cited.contains(ts[j].line)
}

/// A finding cites transcript line `t`: its source is that line and its
/// span quotes exactly that line.
pub open spec fn cites_line(f: EvidenceBackedFinding, t: LineView) -> bool {
    &&& f.evidence.source_uri@ == "transcript://line/"@ + decimal(t.line as nat)
    &&& f.evidence.span matches Some(s) && s.start_line == t.line && s.end_line == t.line
        && s.excerpt@ == t.text
}

/// The views of a slice of transcript lines.
pub open spec fn line_views(ts: Seq<TranscriptLine>) -> Seq<LineView> {
    ts.map_values(|t: TranscriptLine| t@)
}

proof fn lemma_filter_push(s: Seq<LineView>, x: LineView, p: spec_fn(LineView) -> bool)
    ensures
        s.push(x).filter(p) == if p(x) {
            s.filter(p).push(x)
        } else {
            s.filter(p)
        },
{
    reveal_with_fuel(Seq::filter, 1);
    assert(s.push(x).drop_last() =~= s);
}

pub(crate) proof fn lemma_cited_grows(p: Seq<LineView>, t: LineView, x: u32)
    requires
        cited_lines(p).contains(x),
    ensures
        cited_lines(p.push(t)).contains(x),
{
    let ts = p.push(t);
    assert(ts.drop_last() =~= p);
    assert(ts.last() == t);
    let a = cited_lines(p);
    let k = choose|k: int| 0 <= k < a.len() && a[k] == x;
    assert(cited_lines(ts)[k] == x);
}

pub(crate) proof fn lemma_cited_last(p: Seq<LineView>, t: LineView)
    requires
        is_technical(lowercase_of(t.text)) || is_risk(lowercase_of(t.text)),
    ensures
        cited_lines(p.push(t)).contains(t.line),
{
    let ts = p.push(t);
    assert(ts.drop_last() =~= p);
    assert(ts.last() == t);
    let c = cited_lines(ts);
    assert(c[c.len() - 1] == t.line);
}

/// Every line that a filter keeps is a line of the transcript whose number
/// is cited, when the filter keeps only technical or uncertain lines.
proof fn lemma_kept_lines_cited(ts: Seq<LineView>, pred: spec_fn(LineView) -> bool)
    requires
        forall|t: LineView|
            #[trigger] pred(t) ==> is_technical(lowercase_of(t.text)) || is_risk(lowercase_of(t.text)),
    ensures
        forall|i: int|
            #![trigger ts.filter(pred)[i]]
            0 <= i < ts.filter(pred).len() ==> exists|j: int|
                0 <= j < ts.len() && #[trigger] ts[j] == ts.filter(pred)[i] && cited_lines(
                    ts,
                ).contains(ts[j].line),
    decreases ts.len(),
{
    if ts.len() > 0 {
        let p = ts.drop_last();
        let t = ts.last();
        assert(p.push(t) =~= ts);
        lemma_kept_lines_cited(p, pred);
        lemma_filter_push(p, t, pred);
        assert forall|i: int|
            #![trigger ts.filter(pred)[i]]
            0 <= i < ts.filter(pred).len() implies exists|j: int|
            0 <= j < ts.len() && #[trigger] ts[j] == ts.filter(pred)[i] && cited_lines(ts).contains(
                ts[j].line,
            ) by {
            if i < p.filter(pred).len() {
                assert(ts.filter(pred)[i] == p.filter(pred)[i]);
                let j = choose|j: int|
                    0 <= j < p.len() && #[trigger] p[j] == p.filter(pred)[i] && cited_lines(
                        p,
                    ).contains(p[j].line);
                lemma_cited_grows(p, t, p[j].line);
                assert(ts[j] == p[j]);
            } else {
                assert(pred(t));
                lemma_cited_last(p, t);
                assert(ts[ts.len() - 1] == t);
                assert(ts.filter(pred)[i] == t);
            }
        }
    } else {
        reveal_with_fuel(Seq::filter, 1);
    }
}

/// A finding that quotes transcript line `t`.
fn line_finding(t: &TranscriptLine, lead: &str, confidence: u8) -> (f: EvidenceBackedFinding)
    ensures
        traces_line(f, t@, lead@, confidence),
{
    let n = decimal_string(t.line as u64);
    let uri = concat2("transcript://line/", n.as_str());
    let title = concat2("Line ", n.as_str());
    let statement = concat2(lead, n.as_str());
    let evidence = Evidence::new(uri, title, SourceAuthority::Primary, t.text.clone()).with_span(
        t.line,
        t.line,
        t.text.clone(),
    );
    EvidenceBackedFinding { statement, evidence, confidence_percent: confidence }
}

// ---------------------------------------------------------------------------
// The analyzer
// ---------------------------------------------------------------------------

/// Turns interview transcripts into findings traced to line evidence.
pub struct HiringAnalyzer {
    pub tools: ToolRegistry,
    pub audit: AuditTrace,
}

impl HiringAnalyzer {
    /// An analyzer with the default tools, signing its audit events with
    /// `signing_key` when one is given.
    pub fn new(signing_key: Option<String>) -> (a: Self)
        ensures
            a.tools@ == ToolRegistry::default_crew_view(),
            a.tools.registered().len() == 3,
            a.tools.registered()[0] is WebSearch,
            a.tools.registered()[1] matches crate::tools::RegisteredTool::KnowledgeBase(kb) && kb@
                == crate::tools::default_documents(),
            a.tools.registered()[2] is File,
            a.audit.key() == match signing_key {
                Some(k) => Some(k@),
                None => None::<Seq<char>>,
            },
    {
        HiringAnalyzer { tools: ToolRegistry::default_crew(), audit: AuditTrace::new(signing_key) }
    }

    /// Records the assessment step of an analysis of `line_count` lines:
    /// phase `Reason`, agent `hiring-assessor`, action `transcript_analysis`,
    /// the document `{"lines": line_count}` as input and the assessment
    /// document `output` as output.
    pub fn record_assessment(
        &self,
        workflow_id: u128,
        line_count: usize,
        output: &serde_json::Value,
        metadata: serde_json::Value,
    ) -> (e: TraceEvent)
        ensures
            e.workflow_id == workflow_id,
            e.phase == TracePhase::Reason,
            e.agent@ == "hiring-assessor"@,
            e.action@ == "transcript_analysis"@,
            e.input_hash@ == json_digest(number_entry_object_of("lines"@, line_count as u64)),
            e.output_hash@ == json_digest(*output),
            e.metadata == metadata,
            match self.audit.key() {
                None => e.signature is None,
                Some(k) => e.signature matches Some(sig) && sig@ == signature_of(
                    signed_payload(e.input_hash@, e.output_hash@, e.timestamp@),
                    k,
                ),
            },
    {
        let input = number_entry_object("lines", line_count as u64);
        self.audit.record(
            workflow_id,
            TracePhase::Reason,
            "hiring-assessor",
            "transcript_analysis",
            &input,
            output,
            metadata,
        )
    }

    /// Splits a transcript into numbered lines with speaker and text
    /// (see `transcript::parse_transcript`).
    pub fn parse_transcript(content: &str) -> (res: Vec<TranscriptLine>)
        ensures
            res@.map_values(|t: TranscriptLine| t@) == crate::transcript::parsed_transcript(
                content@,
            ),
    {
        crate::transcript::parse_transcript(content)
    }

    /// Strengths (lines that show technical depth), risks (lines that signal
    /// uncertainty) and the cited line numbers. Every finding cites a line of
    /// the transcript; the assessor's own summary is never evidence, so it is
    /// not consulted here.
    pub fn extract_findings(&self, transcript: &[TranscriptLine], _assessment: &str) -> (res: (
        Vec<EvidenceBackedFinding>,
        Vec<EvidenceBackedFinding>,
        Vec<u32>,
    ))
        ensures
            ({
                let ts = line_views(transcript@);
                let tech = ts.filter(technical_line());
                let risky = ts.filter(risk_line());
                let (strengths, risks, cited) = res;
                &&& cited@ == cited_lines(ts)
                &&& risks@.len() == risky.len()
                &&& forall|i: int|
                    0 <= i < risky.len() ==> traces_line(
                        #[trigger] risks@[i],
                        risky[i],
                        risk_lead(),
                        RISK_CONFIDENCE_PERCENT,
                    )
                &&& strengths@.len() == tech.len()
                &&& forall|i: int|
                    0 <= i < tech.len() ==> traces_line(
                        #[trigger] strengths@[i],
                        tech[i],
                        strength_lead(),
                        STRENGTH_CONFIDENCE_PERCENT,
                    )
                &&& forall|i: int|
                    0 <= i < strengths@.len() ==> #[trigger] cites_some_line(strengths@[i], ts, cited@)
                &&& forall|i: int|
                    0 <= i < risks@.len() ==> #[trigger] cites_some_line(risks@[i], ts, cited@)
            }),
    {
        let ghost ts = line_views(transcript@);
        let mut cited: Vec<u32> = Vec::new();
        let mut strengths: Vec<EvidenceBackedFinding> = Vec::new();
        let mut risks: Vec<EvidenceBackedFinding> = Vec::new();
        let mut i: usize = 0;
        proof {
            assert(ts.take(0) =~= Seq::<LineView>::empty());
            reveal_with_fuel(Seq::filter, 1);
        }
        while i < transcript.len()
            invariant
                i <= transcript@.len(),
                ts == line_views(transcript@),
                cited@ == cited_lines(ts.take(i as int)),
                strengths@.len() == ts.take(i as int).filter(technical_line()).len(),
                forall|k: int|
                    0 <= k < strengths@.len() ==> traces_line(
                        #[trigger] strengths@[k],
                        ts.take(i as int).filter(technical_line())[k],
                        strength_lead(),
                        STRENGTH_CONFIDENCE_PERCENT,
                    ),
                risks@.len() == ts.take(i as int).filter(risk_line()).len(),
                forall|k: int|
                    0 <= k < risks@.len() ==> traces_line(
                        #[trigger] risks@[k],
                        ts.take(i as int).filter(risk_line())[k],
                        risk_lead(),
                        RISK_CONFIDENCE_PERCENT,
                    ),
            decreases transcript@.len() - i,
        {
            let line = &transcript[i];
            let ghost pre = ts.take(i as int);
            let ghost t = line@;
            proof {
                assert(ts.take(i + 1) =~= pre.push(t));
                assert(ts.take(i + 1).drop_last() =~= pre);
                lemma_filter_push(pre, t, technical_line());
                lemma_filter_push(pre, t, risk_line());
            }
            let lower = to_lowercase(line.text.as_str());
            let (is_tech, is_rsk, _) = line_signals(lower.as_str());
            if is_tech {
                cited.push(line.line);
                let f = line_finding(line, "Technical depth demonstrated at line ", STRENGTH_CONFIDENCE_PERCENT);
                strengths.push(f);
            }
            if is_rsk {
                cited.push(line.line);
                let f = line_finding(line, "Uncertainty signal at line ", RISK_CONFIDENCE_PERCENT);
                risks.push(f);
            }
            i += 1;
        }
        proof {
            assert(ts.take(transcript@.len() as int) =~= ts);
        }
        proof {
            let tech = ts.filter(technical_line());
            let risky = ts.filter(risk_line());
            lemma_kept_lines_cited(ts, technical_line());
            lemma_kept_lines_cited(ts, risk_line());
            assert forall|i: int|
                0 <= i < strengths@.len() implies #[trigger] cites_some_line(strengths@[i], ts, cited@) by {
                let j = choose|j: int|
                    0 <= j < ts.len() && #[trigger] ts[j] == tech[i] && cited_lines(ts).contains(
                        ts[j].line,
                    );
                assert(cites_line(strengths@[i], ts[j]));
            }
            assert forall|i: int|
                0 <= i < risks@.len() implies #[trigger] cites_some_line(risks@[i], ts, cited@) by {
                let j = choose|j: int|
                    0 <= j < ts.len() && #[trigger] ts[j] == risky[i] && cited_lines(ts).contains(
                        ts[j].line,
                    );
                assert(cites_line(risks@[i], ts[j]));
            }
        }
        (strengths, risks, cited)
    }

    /// Patterns across answers: hedging when at least two lines hedge, and
    /// extended answers when at least two lines hold more than 25 words.
    pub fn detect_patterns(&self, transcript: &[TranscriptLine]) -> (res: Vec<String>)
        ensures
            res@.map_values(|s: String| s@) == patterns_of(line_views(transcript@)),
    {
        let ghost ts = line_views(transcript@);
        let mut hedges: usize = 0;
        let mut deep: usize = 0;
        let mut i: usize = 0;
        proof {
            assert(ts.take(0) =~= Seq::<LineView>::empty());
            reveal_with_fuel(Seq::filter, 1);
        }
        while i < transcript.len()
            invariant
                i <= transcript@.len(),
                ts == line_views(transcript@),
                hedges == ts.take(i as int).filter(hedge_line()).len(),
                deep == ts.take(i as int).filter(extended_line()).len(),
                hedges <= i,
                deep <= i,
            decreases transcript@.len() - i,
        {
            let line = &transcript[i];
            let ghost pre = ts.take(i as int);
            let ghost t = line@;
            proof {
                assert(ts.take(i + 1) =~= pre.push(t));
                lemma_filter_push(pre, t, hedge_line());
                lemma_filter_push(pre, t, extended_line());
            }
            let lower = to_lowercase(line.text.as_str());
            let (_, _, hedge) = line_signals(lower.as_str());
            if hedge {
                hedges += 1;
            }
            if word_count(line.text.as_str()) > 25 {
                deep += 1;
            }
            i += 1;
        }
        proof {
            assert(ts.take(transcript@.len() as int) =~= ts);
        }
        let mut patterns: Vec<String> = Vec::new();
        if hedges >= 2 {
            let n = decimal_string(hedges as u64);
            patterns.push(
                concat3(
                    "Hedging language appears ",
                    n.as_str(),
                    " times — impression may exceed evidence",
                ),
            );
        }
        if deep >= 2 {
            let n = decimal_string(deep as u64);
            patterns.push(concat2(n.as_str(), " extended responses — check depth vs fluency"));
        }
        assert(patterns@.map_values(|s: String| s@) =~= patterns_of(ts));
        patterns
    }
}

/// The hedging pattern for `n` hedging lines.
pub open spec fn hedging_pattern(n: nat) -> Seq<char> {
    "Hedging language appears "@ + decimal(n) + " times — impression may exceed evidence"@
}

/// The extended-answer pattern for `n` long answers.
pub open spec fn extended_pattern(n: nat) -> Seq<char> {
    decimal(n) + " extended responses — check depth vs fluency"@
}

/// The patterns found in a transcript.
pub open spec fn patterns_of(ts: Seq<LineView>) -> Seq<Seq<char>> {
    let hedges = ts.filter(hedge_line()).len();
    let deep = ts.filter(extended_line()).len();
    let a = if hedges >= 2 {
        seq![hedging_pattern(hedges)]
    } else {
        Seq::empty()
    };
    if deep >= 2 {
        a.push(extended_pattern(deep))
    } else {
        a
    }
}

// ---------------------------------------------------------------------------
// Prompts
// ---------------------------------------------------------------------------

/// How a transcript line is shown to the assessor: `L<n> <speaker>: <text>`.
pub open spec fn line_label(t: LineView) -> Seq<char> {
    "L"@ + decimal(t.line as nat) + " "@ + t.speaker + ": "@ + t.text
}

/// The transcript as the assessor reads it: one labelled line per entry,
/// separated by line feeds.
pub fn transcript_text(transcript: &[TranscriptLine]) -> (res: String)
    ensures
        res@ == join(line_views(transcript@).map_values(|t: LineView| line_label(t)), "\n"@),
{
    let mut labels: Vec<String> = Vec::new();
    let mut i: usize = 0;
    while i < transcript.len()
        invariant
            i <= transcript@.len(),
            labels@.len() == i,
            forall|k: int| 0 <= k < i ==> #[trigger] labels@[k]@ == line_label(transcript@[k]@),
        decreases transcript@.len() - i,
    {
        let t = &transcript[i];
        let mut s = String::from_str("L");
        let n = decimal_string(t.line as u64);
        s.append(n.as_str());
        s.append(" ");
        s.append(t.speaker.as_str());
        s.append(": ");
        s.append(t.text.as_str());
        labels.push(s);
        i += 1;
    }
    let res = crate::text::join_strings(&labels, "\n");
    assert(labels@.map_values(|p: String| p@) =~= line_views(transcript@).map_values(
        |t: LineView| line_label(t),
    ));
    res
}

/// The assessor's instructions, ending with the rubric.
pub open spec fn assessor_instructions(rubric: Seq<char>) -> Seq<char> {
    "You are a hiring assessor. Read transcripts like expert assessors. Trace every conclusion to specific line evidence. Rubric: "@
        + rubric
}

/// The assessor's instructions, ending with the rubric.
pub fn assessor_system_prompt(rubric: &str) -> (res: String)
    ensures
        res@ == assessor_instructions(rubric@),
{
    concat2(
        "You are a hiring assessor. Read transcripts like expert assessors. Trace every conclusion to specific line evidence. Rubric: ",
        rubric,
    )
}

/// The request to analyze a transcript.
pub fn assessor_user_prompt(transcript_text: &str) -> (res: String)
    ensures
        res@ == "Analyze interview transcript:\n"@ + transcript_text@,
{
    concat2("Analyze interview transcript:\n", transcript_text)
}

} // verus!
