use oi_platform::evidence::SourceAuthority;
use oi_platform::hiring::{
    assessor_system_prompt, assessor_user_prompt, transcript_text, HiringAnalyzer,
};
use oi_platform::transcript::parse_transcript;

#[test]
fn findings_trace_technical_and_uncertain_lines() {
    let analyzer = HiringAnalyzer::new(None);
    let lines = parse_transcript(
        "Interviewer: Describe your SYSTEM design\nCandidate: I think it was fine\nCandidate: We shipped the Distributed cache to production, maybe too early\n",
    );
    let (strengths, risks, cited) = analyzer.extract_findings(&lines, "no opinion");
    assert_eq!(cited, vec![1, 2, 3, 3]);
    assert_eq!(strengths.len(), 2);
    assert_eq!(strengths[0].statement, "Technical depth demonstrated at line 1");
    assert_eq!(strengths[0].evidence.source_uri, "transcript://line/1");
    assert_eq!(strengths[0].evidence.source_title, "Line 1");
    assert_eq!(strengths[0].evidence.authority, SourceAuthority::Primary);
    assert_eq!(strengths[0].evidence.content, "Describe your SYSTEM design");
    let span = strengths[0].evidence.span.as_ref().unwrap();
    assert_eq!((span.start_line, span.end_line), (1, 1));
    assert_eq!(span.excerpt, "Describe your SYSTEM design");
    assert_eq!(strengths[0].confidence_percent, 82);
    assert_eq!(strengths[1].statement, "Technical depth demonstrated at line 3");
    assert_eq!(risks.len(), 2);
    assert_eq!(risks[0].statement, "Uncertainty signal at line 2");
    assert_eq!(risks[1].statement, "Uncertainty signal at line 3");
    assert_eq!(risks[1].confidence_percent, 75);
}

#[test]
fn findings_only_cite_transcript_lines() {
    let analyzer = HiringAnalyzer::new(None);
    let lines = parse_transcript("Candidate: I enjoy teamwork
Candidate: maybe later");
    let (strengths, risks, cited) =
        analyzer.extract_findings(&lines, "Candidate shows strong communication");
    assert!(strengths.is_empty());
    assert_eq!(cited, vec![2]);
    assert_eq!(risks.len(), 1);
    for f in risks.iter().chain(strengths.iter()) {
        let span = f.evidence.span.as_ref().unwrap();
        let line = lines.iter().find(|l| l.line == span.start_line).unwrap();
        assert_eq!(f.evidence.source_uri, format!("transcript://line/{}", line.line));
        assert_eq!((span.end_line, span.excerpt.as_str()), (line.line, line.text.as_str()));
        assert!(cited.contains(&line.line));
    }
    let (strengths, _, _) = analyzer.extract_findings(&[], "strong");
    assert!(strengths.is_empty());
}

#[test]
fn patterns_report_hedging_and_long_answers() {
    let analyzer = HiringAnalyzer::new(None);
    let long = vec!["word"; 26].join(" ");
    let content = format!("A: Maybe so\nB: I think yes\nC: probably\nD: {long}\nE: {long}\nF: {}", vec!["w"; 25].join(" "));
    let lines = parse_transcript(&content);
    let patterns = analyzer.detect_patterns(&lines);
    assert_eq!(
        patterns,
        vec![
            "Hedging language appears 3 times — impression may exceed evidence".to_string(),
            "2 extended responses — check depth vs fluency".to_string(),
        ]
    );
}

#[test]
fn patterns_need_two_occurrences() {
    let analyzer = HiringAnalyzer::new(None);
    let lines = parse_transcript("A: maybe\nB: sure");
    assert!(analyzer.detect_patterns(&lines).is_empty());
}

#[test]
fn transcript_text_labels_each_line() {
    let lines = parse_transcript("Interviewer: hi\n\nCandidate: hello there");
    assert_eq!(transcript_text(&lines), "L1 Interviewer: hi\nL3 Candidate: hello there");
    assert_eq!(transcript_text(&[]), "");
}

#[test]
fn assessor_prompts() {
    assert_eq!(
        assessor_system_prompt("Assess evidence vs impression."),
        "You are a hiring assessor. Read transcripts like expert assessors. Trace every conclusion to specific line evidence. Rubric: Assess evidence vs impression."
    );
    assert_eq!(assessor_user_prompt("L1 A: b"), "Analyze interview transcript:\nL1 A: b");
}

#[test]
fn law_citations_count_technical_and_risk_lines() {
    let analyzer = HiringAnalyzer::new(None);
    let lines = parse_transcript("A: production system, unsure\nB: nothing\nC: architecture");
    let (strengths, risks, cited) = analyzer.extract_findings(&lines, "");
    assert_eq!(cited.len(), strengths.len() + risks.len());
    for n in &cited {
        assert!(lines.iter().any(|l| l.line == *n));
    }
}

#[test]
fn assessment_event_records_line_count() {
    let analyzer = oi_platform::hiring::HiringAnalyzer::new(None);
    let output = serde_json::Value::String("assessment".to_string());
    let e = analyzer.record_assessment(9, 4, &output, serde_json::Value::Null);
    let mut m = serde_json::Map::new();
    m.insert("lines".to_string(), serde_json::Value::from(4u64));
    assert_eq!(e.workflow_id, 9);
    assert_eq!(e.phase, oi_platform::audit::TracePhase::Reason);
    assert_eq!(e.agent, "hiring-assessor");
    assert_eq!(e.action, "transcript_analysis");
    assert_eq!(e.input_hash, oi_platform::audit::hash_json(&serde_json::Value::Object(m)));
    assert_eq!(e.output_hash, oi_platform::audit::hash_json(&output));
    assert_eq!(e.metadata, serde_json::Value::Null);
}
