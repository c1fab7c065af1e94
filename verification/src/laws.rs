//! Properties that span several operations of the library, each stated
//! over the models the operations' contracts use, and proved.
use vstd::prelude::*;

use crate::audit::TraceEvent;
use crate::eval::{contents_of, is_evidence_token, lower_words, supported_word};
use crate::evidence::Evidence;
use crate::connector::selected;
use crate::crew::high_authority;
use crate::eval::{brand_voice, grounded_claim, voice_of};
use crate::evidence::{Claim, SourceAuthority};
use crate::store::path_join;
use crate::text::{is_ws, lf_sep, nonempty, pieces, strip_cr, trim_end, trim_start, ws_sep};
use vstd::utf8::encode_utf8;
use crate::hiring::{
    cited_lines, extended_line, hedge_line, is_hedge, is_risk, is_technical, patterns_of,
    risk_line, technical_line,
};
use crate::llm::mock_reply;
use crate::text::{decimal, has_substring, lowercase_of, prefix, words};
use crate::tools::doc_matches;
use crate::transcript::is_first_colon;
use crate::store::{MemoryError, StoreView};
use crate::text::{lines, trim};
use crate::transcript::{entries, parse_entry, parsed_transcript, LineView};
use crate::workflow::{
    completed, decided_gate, decided_status, stage_after, stage_agent, ApprovalDecision,
    ApprovalGate, ApprovalStatus, CrewStage, RecordView, WorkflowStatus,
};

verus! {

// ---------------------------------------------------------------------------
// The store
// ---------------------------------------------------------------------------

/// A workflow read back after it is saved is the workflow that was saved.
pub proof fn law_get_after_save(s: StoreView, r: RecordView)
    ensures
        s.saved(r).lookup(r.id) == Ok::<RecordView, MemoryError>(r),
{
}

/// Saving a workflow leaves every other workflow as it was.
pub proof fn law_save_keeps_other_workflows(s: StoreView, r: RecordView, id: u128)
    requires
        id != r.id,
    ensures
        s.saved(r).lookup(id) == s.lookup(id),
{
    assert(s.saved(r).workflows.contains_key(id) == s.workflows.contains_key(id));
}

/// Saving a workflow a second time replaces the first record.
pub proof fn law_save_replaces(s: StoreView, r1: RecordView, r2: RecordView)
    requires
        r1.id == r2.id,
    ensures
        s.saved(r1).saved(r2) == s.saved(r2),
{
    assert(s.saved(r1).saved(r2).workflows =~= s.saved(r2).workflows);
}

/// Saving a workflow does not touch any audit trace.
pub proof fn law_save_keeps_traces(s: StoreView, r: RecordView, id: u128)
    ensures
        s.saved(r).trace_of(id) == s.trace_of(id),
{
}

/// Appending to a trace does not touch any workflow.
pub proof fn law_append_keeps_workflows(s: StoreView, e: TraceEvent, id: u128)
    ensures
        s.appended(e).lookup(id) == s.lookup(id),
{
}

/// An appended event comes last in the trace of its workflow, after the
/// events appended before it, in their order.
pub proof fn law_append_extends_trace(s: StoreView, e: TraceEvent)
    ensures
        s.appended(e).trace_of(e.workflow_id) == s.trace_of(e.workflow_id).push(e),
{
}

/// Appending to one workflow's trace leaves the traces of the others alone.
pub proof fn law_append_keeps_other_traces(s: StoreView, e: TraceEvent, id: u128)
    requires
        id != e.workflow_id,
    ensures
        s.appended(e).trace_of(id) == s.trace_of(id),
{
    assert(s.appended(e).traces.contains_key(id) == s.traces.contains_key(id));
}

/// A new store knows no workflow, and every trace in it is empty.
pub proof fn law_empty_store(id: u128)
    ensures
        StoreView::empty().lookup(id) == Err::<RecordView, MemoryError>(MemoryError::NotFound(id)),
        StoreView::empty().trace_of(id) == Seq::<TraceEvent>::empty(),
{
}

/// A listing taken after a save holds the saved workflow, once.
pub proof fn law_list_after_save(s: StoreView, r: RecordView, records: Seq<RecordView>)
    requires
        s.saved(r).lists(records),
    ensures
        exists|i: int| 0 <= i < records.len() && records[i] == r,
        forall|i: int, j: int|
            0 <= i < records.len() && 0 <= j < records.len() && records[i].id == r.id
                && records[j].id == r.id ==> i == j,
{
    let t = s.saved(r);
    assert(t.workflows.contains_key(r.id));
    let i = choose|i: int| 0 <= i < records.len() && #[trigger] records[i].id == r.id;
    assert(t.workflows[records[i].id] == records[i]);
    assert forall|i: int, j: int|
        0 <= i < records.len() && 0 <= j < records.len() && records[i].id == r.id
            && records[j].id == r.id implies i == j by {
        if i < j {
            assert(records[i].id != records[j].id);
        } else if j < i {
            assert(records[j].id != records[i].id);
        }
    }
}

// ---------------------------------------------------------------------------
// Approval
// ---------------------------------------------------------------------------

/// A decision settles the workflow: it completes exactly when approved and
/// fails otherwise, so nothing stays waiting; the approval takes the
/// decision and its notes and keeps its label, identifier and preview.
pub proof fn law_decision_settles(gate: Option<ApprovalGate>, d: ApprovalDecision)
    ensures
        (decided_status(d.approved) == WorkflowStatus::Completed) <==> d.approved,
        (decided_status(d.approved) == WorkflowStatus::Failed) <==> !d.approved,
        decided_status(d.approved) != WorkflowStatus::AwaitingApproval,
        gate is None ==> decided_gate(gate, d) is None,
        gate is Some ==> ({
            let g = decided_gate(gate, d)->0;
            &&& (g.status == ApprovalStatus::Approved) <==> d.approved
            &&& (g.status == ApprovalStatus::Rejected) <==> !d.approved
            &&& g.reviewer_notes == d.notes
            &&& g.id == gate->0.id
            &&& g.label == gate->0.label
            &&& g.artifact_preview == gate->0.artifact_preview
        }),
{
}

// ---------------------------------------------------------------------------
// The content crew
// ---------------------------------------------------------------------------

/// The crew works research, analyst, writer, editor, in that order, and
/// stops after the editor; a full run records the four agents in order.
pub proof fn law_crew_order(r: RecordView)
    ensures
        stage_after(CrewStage::Research) == Some(CrewStage::Analyst),
        stage_after(CrewStage::Analyst) == Some(CrewStage::Writer),
        stage_after(CrewStage::Writer) == Some(CrewStage::Editor),
        stage_after(CrewStage::Editor) == None::<CrewStage>,
        completed(
            completed(
                completed(completed(r, CrewStage::Research), CrewStage::Analyst),
                CrewStage::Writer,
            ),
            CrewStage::Editor,
        ).completed_agents == r.completed_agents + seq![
            "research-agent"@,
            "analyst-agent"@,
            "writer-agent"@,
            "editor-agent"@,
        ],
{
    let done = completed(
        completed(completed(completed(r, CrewStage::Research), CrewStage::Analyst), CrewStage::Writer),
        CrewStage::Editor,
    );
    assert(done.completed_agents =~= r.completed_agents + seq![
        "research-agent"@,
        "analyst-agent"@,
        "writer-agent"@,
        "editor-agent"@,
    ]);
}

// ---------------------------------------------------------------------------
// Hiring analysis
// ---------------------------------------------------------------------------

/// Every line number a hiring analysis cites is the number of a line of
/// the transcript.
pub proof fn law_citations_name_transcript_lines(ts: Seq<LineView>)
    ensures
        forall|k: int|
            0 <= k < cited_lines(ts).len() ==> exists|i: int|
                0 <= i < ts.len() && ts[i].line == #[trigger] cited_lines(ts)[k],
    decreases ts.len(),
{
    if ts.len() > 0 {
        let p = ts.drop_last();
        law_citations_name_transcript_lines(p);
        let c = cited_lines(ts);
        assert forall|k: int| 0 <= k < c.len() implies exists|i: int|
            0 <= i < ts.len() && ts[i].line == #[trigger] c[k] by {
            if k < cited_lines(p).len() {
                let i = choose|i: int| 0 <= i < p.len() && p[i].line == cited_lines(p)[k];
                assert(ts[i] == p[i]);
            } else {
                assert(c[k] == ts.last().line);
                assert(ts[ts.len() - 1] == ts.last());
            }
        }
    }
}

/// A hiring analysis cites each line once for technical depth and once
/// for uncertainty, and nothing else.
pub proof fn law_citation_count(ts: Seq<LineView>)
    ensures
        cited_lines(ts).len() == ts.filter(technical_line()).len() + ts.filter(risk_line()).len(),
    decreases ts.len(),
{
    reveal_with_fuel(Seq::filter, 1);
    if ts.len() > 0 {
        law_citation_count(ts.drop_last());
    }
}

// ---------------------------------------------------------------------------
// Transcripts
// ---------------------------------------------------------------------------

/// A line that is not blank once trimmed.
pub open spec fn non_blank() -> spec_fn(Seq<char>) -> bool {
    |l: Seq<char>| trim(l).len() > 0
}

proof fn lemma_entries_count(ls: Seq<Seq<char>>)
    ensures
        entries(ls).len() == ls.filter(non_blank()).len(),
        forall|k: int|
            0 <= k < entries(ls).len() ==> 1 <= #[trigger] entries(ls)[k].line as int <= ls.len()
                || ls.len() >= 0x1_0000_0000,
    decreases ls.len(),
{
    reveal_with_fuel(Seq::filter, 1);
    if ls.len() > 0 {
        let p = ls.drop_last();
        let x = ls.last();
        lemma_entries_count(p);
        crate::transcript::lemma_entries_push(p, x);
        assert(p.push(x) =~= ls);
    }
}

/// Blank lines give no entry and every other line gives one: a transcript
/// has as many entries as it has non-blank lines.
pub proof fn law_one_entry_per_non_blank_line(content: Seq<char>)
    ensures
        parsed_transcript(content).len() == lines(content).filter(non_blank()).len(),
{
    lemma_entries_count(lines(content));
}

proof fn lemma_entries_increasing(ls: Seq<Seq<char>>)
    requires
        ls.len() < 0x1_0000_0000,
    ensures
        forall|j: int, k: int|
            0 <= j < k < entries(ls).len() ==> #[trigger] entries(ls)[j].line < #[trigger] entries(
                ls,
            )[k].line,
    decreases ls.len(),
{
    if ls.len() > 0 {
        let p = ls.drop_last();
        let x = ls.last();
        lemma_entries_increasing(p);
        lemma_entries_count(p);
        crate::transcript::lemma_entries_push(p, x);
        assert(p.push(x) =~= ls);
        match parse_entry(p.len() as int + 1, x) {
            Some(e) => {
                assert(e.line as int == p.len() + 1);
                assert forall|j: int, k: int|
                    0 <= j < k < entries(ls).len() implies #[trigger] entries(ls)[j].line
                    < #[trigger] entries(ls)[k].line by {
                    assert(entries(ls)[j] == entries(p)[j]);
                    if k < entries(p).len() {
                        assert(entries(ls)[k] == entries(p)[k]);
                    } else {
                        assert(1 <= entries(p)[j].line as int <= p.len());
                    }
                }
            },
            None => {},
        }
    }
}

/// Entries keep the order of the lines they come from: their numbers
/// strictly increase (for transcripts of fewer than 2^32 lines, whose
/// numbers fit in a `u32`).
pub proof fn law_entry_numbers_increase(content: Seq<char>)
    requires
        lines(content).len() < 0x1_0000_0000,
    ensures
        forall|j: int, k: int|
            0 <= j < k < parsed_transcript(content).len() ==> #[trigger] parsed_transcript(
                content,
            )[j].line < #[trigger] parsed_transcript(content)[k].line,
{
    lemma_entries_increasing(lines(content));
}

// ---------------------------------------------------------------------------
// Content evaluation
// ---------------------------------------------------------------------------

proof fn lemma_filter_len_mono(s: Seq<Seq<char>>, p: spec_fn(Seq<char>) -> bool, q: spec_fn(Seq<char>) -> bool)
    requires
        forall|x: Seq<char>| #[trigger] p(x) ==> q(x),
    ensures
        s.filter(p).len() <= s.filter(q).len(),
    decreases s.len(),
{
    reveal_with_fuel(Seq::filter, 1);
    if s.len() > 0 {
        lemma_filter_len_mono(s.drop_last(), p, q);
    }
}

/// More evidence never supports fewer words: the words of a text that are
/// supported by some evidence stay supported when further evidence is added
/// after it, so the count of supported words (which the hallucination risk
/// falls with) cannot drop.
pub proof fn law_more_evidence_supports_more(
    content: Seq<char>,
    evidence: Seq<Evidence>,
    extra: Seq<Evidence>,
)
    ensures
        lower_words(content).filter(supported_word(contents_of(evidence))).len()
            <= lower_words(content).filter(supported_word(contents_of(evidence + extra))).len(),
{
    let c1 = contents_of(evidence);
    let c2 = contents_of(evidence + extra);
    assert forall|x: Seq<char>| #[trigger] supported_word(c1)(x) implies supported_word(c2)(x) by {
        let (a, b) = choose|a: int, b: int|
            0 <= a < c1.len() && 0 <= b < crate::text::words(c1[a]).len() && #[trigger] crate::text::lowercase_of(
                crate::text::words(c1[a])[b],
            ) == x;
        assert(c2[a] == c1[a]);
        assert(is_evidence_token(c2, x));
    }
    lemma_filter_len_mono(lower_words(content), supported_word(c1), supported_word(c2));
}

// ---------------------------------------------------------------------------
// What the classifiers look for
// ---------------------------------------------------------------------------

/// A lower-cased line signals uncertainty exactly when it contains
/// "unsure", "don't know", "maybe" or "i think"; it shows technical depth
/// exactly when it contains "system", "architecture", "production" or
/// "distributed"; it hedges exactly when it contains "maybe", "i think" or
/// "probably".
pub proof fn law_line_markers(lower: Seq<char>)
    ensures
        is_risk(lower) <==> (has_substring(lower, "unsure"@) || has_substring(lower, "don't know"@)
            || has_substring(lower, "maybe"@) || has_substring(lower, "i think"@)),
        is_technical(lower) <==> (has_substring(lower, "system"@) || has_substring(
            lower,
            "architecture"@,
        ) || has_substring(lower, "production"@) || has_substring(lower, "distributed"@)),
        is_hedge(lower) <==> (has_substring(lower, "maybe"@) || has_substring(lower, "i think"@)
            || has_substring(lower, "probably"@)),
{
}

proof fn lemma_line_cited(ts: Seq<LineView>, j: int)
    requires
        0 <= j < ts.len(),
        is_technical(lowercase_of(ts[j].text)) || is_risk(lowercase_of(ts[j].text)),
    ensures
        cited_lines(ts).contains(ts[j].line),
    decreases ts.len(),
{
    let p = ts.drop_last();
    let t = ts.last();
    assert(p.push(t) =~= ts);
    if j == ts.len() - 1 {
        crate::hiring::lemma_cited_last(p, t);
    } else {
        assert(p[j] == ts[j]);
        lemma_line_cited(p, j);
        crate::hiring::lemma_cited_grows(p, t, ts[j].line);
    }
}

/// A transcript line whose lower-cased text contains an uncertainty marker
/// ("unsure", "don't know", "maybe", "i think") is among the lines that give
/// risk findings, and its number is cited; likewise a line with a
/// technical marker ("system", "architecture", "production",
/// "distributed") gives a strength and is cited.
pub proof fn law_marked_lines_are_flagged(ts: Seq<LineView>, j: int)
    requires
        0 <= j < ts.len(),
    ensures
        ({
            let l = lowercase_of(ts[j].text);
            has_substring(l, "unsure"@) || has_substring(l, "don't know"@) || has_substring(
                l,
                "maybe"@,
            ) || has_substring(l, "i think"@)
        }) ==> ts.filter(risk_line()).contains(ts[j]) && cited_lines(ts).contains(ts[j].line),
        ({
            let l = lowercase_of(ts[j].text);
            has_substring(l, "system"@) || has_substring(l, "architecture"@) || has_substring(
                l,
                "production"@,
            ) || has_substring(l, "distributed"@)
        }) ==> ts.filter(technical_line()).contains(ts[j]) && cited_lines(ts).contains(ts[j].line),
{
    let l = lowercase_of(ts[j].text);
    law_line_markers(l);
    ts.filter_lemma(risk_line());
    ts.filter_lemma(technical_line());
    if is_risk(l) {
        assert(risk_line()(ts[j]));
        lemma_line_cited(ts, j);
    }
    if is_technical(l) {
        assert(technical_line()(ts[j]));
        lemma_line_cited(ts, j);
    }
}

/// The patterns of a transcript: with at least two hedging lines the first
/// reports their number as "Hedging language appears <n> times — impression
/// may exceed evidence"; with at least two answers of more than 25 words
/// the last reports "<n> extended responses — check depth vs fluency";
/// nothing else is reported.
pub proof fn law_patterns(ts: Seq<LineView>)
    ensures
        ({
            let h = ts.filter(hedge_line()).len();
            let d = ts.filter(extended_line()).len();
            let pats = patterns_of(ts);
            &&& pats.len() == (if h >= 2 { 1int } else { 0int }) + (if d >= 2 { 1int } else { 0int })
            &&& h >= 2 ==> pats[0] == "Hedging language appears "@ + decimal(h)
                + " times — impression may exceed evidence"@
            &&& d >= 2 ==> pats[pats.len() - 1] == decimal(d)
                + " extended responses — check depth vs fluency"@
        }),
        forall|t: LineView| #[trigger] extended_line()(t) <==> words(t.text).len() > 25,
        forall|t: LineView| #[trigger] hedge_line()(t) <==> is_hedge(lowercase_of(t.text)),
{
}

// ---------------------------------------------------------------------------
// Knowledge-base matching, brand voice, the mock model
// ---------------------------------------------------------------------------

/// Knowledge-base search ignores case on both sides: a document is a hit
/// for a query exactly when its lower-cased name or lower-cased content
/// contains the lower-cased query, or that query is empty.
pub proof fn law_search_ignores_case(
    docs: Seq<(Seq<char>, Seq<char>)>,
    query: Seq<char>,
    i: int,
)
    requires
        0 <= i < docs.len(),
    ensures
        docs.filter(doc_matches(lowercase_of(query))).contains(docs[i]) <==> (has_substring(
            lowercase_of(docs[i].0),
            lowercase_of(query),
        ) || has_substring(lowercase_of(docs[i].1), lowercase_of(query)) || lowercase_of(
            query,
        ).len() == 0),
{
    let q = lowercase_of(query);
    docs.filter_lemma(doc_matches(q));
    if docs.filter(doc_matches(q)).contains(docs[i]) {
        let k = choose|k: int|
            0 <= k < docs.filter(doc_matches(q)).len() && docs.filter(doc_matches(q))[k] == docs[i];
        assert(doc_matches(q)(docs.filter(doc_matches(q))[k]));
    }
}

/// Generated content keeps the brand voice exactly when, lower-cased, it
/// contains neither "guaranteed" nor "100% certain", and brand rules were
/// given.
pub proof fn law_brand_voice(content: Seq<char>, rules: Seq<char>, lower: Seq<char>)
    ensures
        brand_voice(content, rules) <==> (!has_substring(lowercase_of(content), "guaranteed"@)
            && !has_substring(lowercase_of(content), "100% certain"@) && rules.len() > 0),
        voice_of(lower, rules) <==> (!has_substring(lower, "guaranteed"@) && !has_substring(
            lower,
            "100% certain"@,
        ) && rules.len() > 0),
{
}

/// What the mock model answers to the last message `u`: the outline when
/// `u` mentions "outline"; otherwise an article about the first 80
/// characters of `u` when it mentions "article" or "write"; otherwise the
/// transcript assessment when it mentions "transcript" or "interview";
/// otherwise an analysis quoting the first 120 characters.
pub proof fn law_mock_replies(u: Seq<char>)
    ensures
        has_substring(u, "outline"@) ==> mock_reply(u)
            == "## Outline\n1. Executive summary\n2. Key trends\n3. Strategic implications\n4. Recommendations"@,
        !has_substring(u, "outline"@) && (has_substring(u, "article"@) || has_substring(u, "write"@))
            ==> mock_reply(u) == "# Technical Analysis\n\nSynthesized insights for: "@ + prefix(u, 80)
            + "\n\nEvidence-backed conclusions with operational intelligence mapping."@,
        !has_substring(u, "outline"@) && !has_substring(u, "article"@) && !has_substring(u, "write"@)
            && (has_substring(u, "transcript"@) || has_substring(u, "interview"@)) ==> mock_reply(u)
            == "Assessment: Candidate demonstrates strong systems thinking. Evidence: cited distributed systems tradeoffs at lines 12-18. Risk: limited depth on production incident response."@,
        !has_substring(u, "outline"@) && !has_substring(u, "article"@) && !has_substring(u, "write"@)
            && !has_substring(u, "transcript"@) && !has_substring(u, "interview"@) ==> mock_reply(u)
            == "Analysis complete. Topic context: "@ + prefix(u, 120),
{
}

// ---------------------------------------------------------------------------
// Transcript lines
// ---------------------------------------------------------------------------

/// A non-blank line with a `:` gives the trimmed text before its first `:`
/// as the speaker and the trimmed text after it as the text, whatever the
/// speaker holds (several words included).
pub proof fn law_speaker_before_first_colon(n: int, raw: Seq<char>, i: int)
    requires
        0 <= i < raw.len(),
        raw[i] == ':',
        forall|j: int| 0 <= j < i ==> raw[j] != ':',
        trim(raw).len() > 0,
    ensures
        parse_entry(n, raw) == Some(
            LineView { line: n as u32, speaker: trim(raw.take(i)), text: trim(raw.skip(i + 1)) },
        ),
{
    assert(is_first_colon(raw, i));
    crate::transcript::lemma_first_colon_unique(raw, i);
}

/// A non-blank line without `:` has the speaker `unknown` and the whole
/// trimmed line as text; a blank line gives no entry.
pub proof fn law_line_without_colon(n: int, raw: Seq<char>)
    ensures
        trim(raw).len() == 0 ==> parse_entry(n, raw) is None,
        (forall|j: int| 0 <= j < raw.len() ==> raw[j] != ':') && trim(raw).len() > 0 ==> parse_entry(
            n,
            raw,
        ) == Some(LineView { line: n as u32, speaker: "unknown"@, text: trim(raw) }),
{
    if forall|j: int| 0 <= j < raw.len() ==> raw[j] != ':' {
        assert forall|i: int| !is_first_colon(raw, i) by {
            if 0 <= i < raw.len() {
                assert(raw[i] != ':');
            }
        }
    }
}

// ---------------------------------------------------------------------------
// Trimming, evidence, claims, selection, the store's location
// ---------------------------------------------------------------------------

proof fn lemma_trim_start_shape(s: Seq<char>) -> (a: int)
    ensures
        0 <= a <= s.len(),
        trim_start(s) == s.skip(a),
        forall|k: int| 0 <= k < a ==> is_ws(#[trigger] s[k]),
        a < s.len() ==> !is_ws(s[a]),
    decreases s.len(),
{
    if s.len() > 0 && is_ws(s[0]) {
        let t = s.drop_first();
        let a = lemma_trim_start_shape(t);
        assert(t.skip(a) =~= s.skip(a + 1));
        assert forall|k: int| 0 <= k < a + 1 implies is_ws(#[trigger] s[k]) by {
            if k > 0 {
                assert(s[k] == t[k - 1]);
            }
        }
        if a + 1 < s.len() {
            assert(s[a + 1] == t[a]);
        }
        a + 1
    } else {
        assert(s.skip(0) =~= s);
        0
    }
}

proof fn lemma_trim_end_shape(s: Seq<char>) -> (b: int)
    ensures
        0 <= b <= s.len(),
        trim_end(s) == s.take(b),
        forall|k: int| b <= k < s.len() ==> is_ws(#[trigger] s[k]),
        b > 0 ==> !is_ws(s[b - 1]),
    decreases s.len(),
{
    if s.len() > 0 && is_ws(s.last()) {
        let t = s.drop_last();
        let b = lemma_trim_end_shape(t);
        assert(t.take(b) =~= s.take(b));
        assert forall|k: int| b <= k < s.len() implies is_ws(#[trigger] s[k]) by {
            if k < s.len() - 1 {
                assert(s[k] == t[k]);
            }
        }
        if b > 0 {
            assert(s[b - 1] == t[b - 1]);
        }
        b
    } else {
        assert(s.take(s.len() as int) =~= s);
        s.len() as int
    }
}

/// Trimming removes exactly the whitespace at both ends: what is left is a
/// contiguous part of the text, everything cut off before and after it is
/// whitespace, and it neither starts nor ends with whitespace.
pub proof fn law_trim(s: Seq<char>)
    ensures
        exists|a: int, b: int|
            {
                &&& 0 <= a <= b <= s.len()
                &&& #[trigger] s.subrange(a, b) == trim(s)
                &&& forall|k: int| 0 <= k < a ==> is_ws(#[trigger] s[k])
                &&& forall|k: int| b <= k < s.len() ==> is_ws(#[trigger] s[k])
                &&& a < b ==> !is_ws(s[a]) && !is_ws(s[b - 1])
            },
{
    let a = lemma_trim_start_shape(s);
    let t = s.skip(a);
    let b = lemma_trim_end_shape(t);
    assert(t.take(b) =~= s.subrange(a, a + b));
    assert forall|k: int| a + b <= k < s.len() implies is_ws(#[trigger] s[k]) by {
        assert(s[k] == t[k - a]);
    }
    if b > 0 {
        assert(t[0] == s[a]);
        assert(t[b - 1] == s[a + b - 1]);
    }
    assert(s.subrange(a, a + b) == trim(s));
}

/// The research keeps a source exactly when its authority is high or
/// primary.
pub proof fn law_high_authority(e: Evidence)
    ensures
        high_authority()(e) <==> (e.authority == SourceAuthority::High || e.authority
            == SourceAuthority::Primary),
{
}

/// A claim counts as grounded exactly when it cites at least one piece of
/// evidence.
pub proof fn law_grounded_claim(c: Claim)
    ensures
        grounded_claim()(c) <==> c.evidence_ids@.len() != 0,
{
}

/// A lower-cased content word counts as supported exactly when it is at
/// least six bytes long in UTF-8 and is the lower-cased form of a word of
/// one of the evidence contents.
pub proof fn law_supported_word(contents: Seq<Seq<char>>, w: Seq<char>)
    ensures
        supported_word(contents)(w) <==> (encode_utf8(w).len() >= 6 && exists|a: int, b: int|
            0 <= a < contents.len() && 0 <= b < words(contents[a]).len() && #[trigger] lowercase_of(
                words(contents[a])[b],
            ) == w),
{
}

/// A query about an initiative is answered about the first initiative with
/// the requested identifier; when none has it, or none is requested, about
/// the first initiative; and about none when there are none.
pub proof fn law_selection(ids: Seq<u128>, requested: Option<u128>)
    ensures
        (requested matches Some(id) && exists|k: int| 0 <= k < ids.len() && ids[k] == id) ==> ({
            let k = selected(ids, requested)->0;
            &&& selected(ids, requested) is Some
            &&& 0 <= k < ids.len()
            &&& ids[k] == requested->0
            &&& forall|j: int| 0 <= j < k ==> ids[j] != requested->0
        }),
        !(requested matches Some(id) && exists|k: int| 0 <= k < ids.len() && ids[k] == id) ==> selected(
            ids,
            requested,
        ) == if ids.len() > 0 {
            Some(0int)
        } else {
            None::<int>
        },
{
    if let Some(id) = requested {
        if exists|k: int| 0 <= k < ids.len() && ids[k] == id {
            let k0 = choose|k: int| 0 <= k < ids.len() && ids[k] == id;
            lemma_first_index(ids, id, k0);
        } else {
            assert forall|k: int| !crate::connector::is_first_id(ids, id, k) by {
                if 0 <= k < ids.len() && ids[k] == id {
                    assert(false);
                }
            }
        }
    }
}

proof fn lemma_first_index(ids: Seq<u128>, id: u128, k0: int)
    requires
        0 <= k0 < ids.len(),
        ids[k0] == id,
    ensures
        exists|k: int| crate::connector::is_first_id(ids, id, k),
    decreases k0,
{
    if exists|j: int| 0 <= j < k0 && ids[j] == id {
        let j = choose|j: int| 0 <= j < k0 && ids[j] == id;
        lemma_first_index(ids, id, j);
    } else {
        assert(crate::connector::is_first_id(ids, id, k0));
    }
}

/// A persistent store lives at `<root>/.oi/workflows.json`: with a `/`
/// added after a root that does not end in one, and relative to the
/// current directory for an empty root.
pub proof fn law_store_location(root: Seq<char>)
    ensures
        root.len() == 0 ==> path_join(path_join(root, ".oi"@), "workflows.json"@)
            == ".oi/workflows.json"@,
        root.len() > 0 && root.last() == '/' ==> path_join(path_join(root, ".oi"@), "workflows.json"@)
            == root + ".oi/workflows.json"@,
        root.len() > 0 && root.last() != '/' ==> path_join(path_join(root, ".oi"@), "workflows.json"@)
            == root + "/.oi/workflows.json"@,
{
    reveal_strlit(".oi");
    reveal_strlit("/");
    reveal_strlit("workflows.json");
    reveal_strlit(".oi/workflows.json");
    reveal_strlit("/.oi/workflows.json");
    assert(".oi/workflows.json"@ =~= ".oi"@ + "/"@ + "workflows.json"@);
    assert(root + ".oi/workflows.json"@ =~= root + ".oi"@ + "/"@ + "workflows.json"@);
    assert(root + "/.oi/workflows.json"@ =~= root + "/"@ + ".oi"@ + "/"@ + "workflows.json"@);
    if root.len() > 0 && root.last() == '/' {
        assert((root + ".oi"@).last() == 'i');
    } else if root.len() > 0 {
        assert((root + "/"@ + ".oi"@).last() == 'i');
    }
}

// ---------------------------------------------------------------------------
// Words
// ---------------------------------------------------------------------------

proof fn lemma_pieces_avoid_sep(s: Seq<char>, sep: spec_fn(char) -> bool)
    ensures
        pieces(s, sep).len() >= 1,
        forall|i: int, k: int|
            0 <= i < pieces(s, sep).len() && 0 <= k < pieces(s, sep)[i].len() ==> !sep(
                #[trigger] pieces(s, sep)[i][k],
            ),
    decreases s.len(),
{
    if s.len() > 0 {
        let t = s.drop_last();
        lemma_pieces_avoid_sep(t, sep);
        let p = pieces(t, sep);
        let q = pieces(s, sep);
        assert forall|i: int, k: int|
            0 <= i < q.len() && 0 <= k < q[i].len() implies !sep(#[trigger] q[i][k]) by {
            if sep(s.last()) {
                if i < p.len() {
                    assert(q[i] == p[i]);
                }
            } else {
                if i < p.len() - 1 {
                    assert(q[i] == p[i]);
                } else {
                    assert(q[i] == p.last().push(s.last()));
                    if k < p.last().len() {
                        assert(q[i][k] == p[p.len() - 1][k]);
                    }
                }
            }
        }
    }
}

proof fn lemma_filter_within(s: Seq<Seq<char>>, pred: spec_fn(Seq<char>) -> bool)
    ensures
        forall|i: int|
            0 <= i < s.filter(pred).len() ==> exists|j: int|
                0 <= j < s.len() && s[j] == #[trigger] s.filter(pred)[i],
    decreases s.len(),
{
    reveal_with_fuel(Seq::filter, 1);
    if s.len() > 0 {
        let t = s.drop_last();
        lemma_filter_within(t, pred);
        assert forall|i: int| 0 <= i < s.filter(pred).len() implies exists|j: int|
            0 <= j < s.len() && s[j] == #[trigger] s.filter(pred)[i] by {
            if i < t.filter(pred).len() {
                assert(s.filter(pred)[i] == t.filter(pred)[i]);
                let j = choose|j: int| 0 <= j < t.len() && t[j] == #[trigger] t.filter(pred)[i];
                assert(s[j] == t[j]);
            } else {
                assert(s.filter(pred)[i] == s.last());
                assert(s[s.len() - 1] == s.last());
            }
        }
    }
}

/// The words of a text are non-empty and hold no whitespace.
pub proof fn law_words_hold_no_whitespace(s: Seq<char>)
    ensures
        forall|i: int| 0 <= i < words(s).len() ==> #[trigger] words(s)[i].len() > 0,
        forall|i: int, k: int|
            0 <= i < words(s).len() && 0 <= k < words(s)[i].len() ==> !is_ws(#[trigger] words(s)[i][k]),
{
    let p = pieces(s, ws_sep());
    lemma_pieces_avoid_sep(s, ws_sep());
    lemma_filter_within(p, nonempty());
    p.filter_lemma(nonempty());
    assert forall|i: int, k: int|
        0 <= i < words(s).len() && 0 <= k < words(s)[i].len() implies !is_ws(#[trigger] words(s)[i][k]) by {
        let j = choose|j: int| 0 <= j < p.len() && p[j] == #[trigger] p.filter(nonempty())[i];
        assert(!ws_sep()(p[j][k]));
    }
    assert forall|i: int| 0 <= i < words(s).len() implies #[trigger] words(s)[i].len() > 0 by {
        assert(nonempty()(p.filter(nonempty())[i]));
    }
}

/// The lines of a text hold no line feed, and the text has as many lines
/// as line feeds, plus one when something follows the last line feed.
pub proof fn law_lines(s: Seq<char>)
    ensures
        forall|i: int, k: int|
            0 <= i < lines(s).len() && 0 <= k < lines(s)[i].len() ==> #[trigger] lines(s)[i][k]
                != '\n',
        lines(s).len() == pieces(s, lf_sep()).len() - (if pieces(s, lf_sep()).last().len() == 0 {
            1int
        } else {
            0int
        }),
{
    let p = pieces(s, lf_sep());
    lemma_pieces_avoid_sep(s, lf_sep());
    let ls = lines(s);
    assert forall|i: int, k: int| 0 <= i < ls.len() && 0 <= k < ls[i].len() implies #[trigger] ls[i][k]
        != '\n' by {
        if i < p.len() - 1 {
            assert(ls[i] == strip_cr(p[i]));
            assert(ls[i][k] == p[i][k]);
            assert(!lf_sep()(p[i][k]));
        } else {
            assert(ls[i] == p[p.len() - 1]);
            assert(!lf_sep()(p[p.len() - 1][k]));
        }
    }
}

} // verus!
