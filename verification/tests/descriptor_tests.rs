use oi_platform::audit::{hash_json, AuditTrace, TracePhase};
use oi_platform::crew::{CrewProgress, StageResult};
use oi_platform::eval::transcript_tally;
use oi_platform::evidence::{Claim, Evidence, SourceAuthority};
use oi_platform::tools::{KnowledgeBaseTool, ToolRegistry};

fn pairs(v: &[(String, String)]) -> Vec<(&str, &str)> {
    v.iter().map(|(a, b)| (a.as_str(), b.as_str())).collect()
}

#[test]
fn descriptors_carry_input_schemas() {
    let d = ToolRegistry::default_crew().descriptors();
    assert_eq!(d.len(), 3);
    assert_eq!(d[0].name, "web_search");
    assert_eq!(d[0].description, "Search the web for high-authority sources on a topic");
    assert_eq!(pairs(&d[0].input_schema.properties), vec![("query", "string"), ("max_results", "integer")]);
    assert_eq!(d[0].input_schema.required, vec!["query".to_string()]);
    assert_eq!(d[1].name, "knowledge_base");
    assert_eq!(pairs(&d[1].input_schema.properties), vec![("query", "string")]);
    assert_eq!(d[1].input_schema.required, vec!["query".to_string()]);
    assert_eq!(d[2].name, "read_file");
    assert_eq!(pairs(&d[2].input_schema.properties), vec![("path", "string")]);
    assert_eq!(d[2].input_schema.required, vec!["path".to_string()]);
    let kb = KnowledgeBaseTool::with_defaults().descriptor();
    assert_eq!(kb.name, "knowledge_base");
}

#[test]
fn record_at_uses_the_given_id_and_time() {
    let audit = AuditTrace::new(Some("k".to_string()));
    let v = serde_json::Value::Null;
    let e = audit.record_at(42, "2026-01-01T00:00:00+00:00".to_string(), 5, TracePhase::Query, "a", "b", &v, &v, v.clone());
    assert_eq!(e.id, 42);
    assert_eq!(e.timestamp, "2026-01-01T00:00:00+00:00");
    assert_eq!(e.input_hash, hash_json(&v));
    let again = audit.record_at(42, "2026-01-01T00:00:00+00:00".to_string(), 5, TracePhase::Query, "a", "b", &v, &v, v.clone());
    assert_eq!(e.signature, again.signature);
    assert_eq!(e.signature.unwrap().len(), 64);
}

#[test]
fn progress_gathers_stage_results() {
    let mut p = CrewProgress::new();
    let ev = Evidence::new("u".to_string(), "t".to_string(), SourceAuthority::High, "c".to_string());
    let research = Claim::new("r".to_string(), "research-agent".to_string(), vec![ev.id]);
    p.absorb(StageResult::Research(vec![ev], vec![research]));
    p.absorb(StageResult::Analyst("outline".to_string()));
    p.absorb(StageResult::Writer("draft".to_string()));
    let editor = Claim::new("e".to_string(), "editor-agent".to_string(), vec![]);
    p.absorb(StageResult::Editor("article".to_string(), vec![editor]));
    assert_eq!(p.evidence.len(), 1);
    let statements: Vec<&str> = p.claims.iter().map(|c| c.statement.as_str()).collect();
    assert_eq!(statements, vec!["r", "e"]);
    assert_eq!((p.outline.as_str(), p.draft.as_str(), p.article.as_str()), ("outline", "draft", "article"));
}

#[test]
fn transcript_tally_counts_citations() {
    let t = transcript_tally(&[3, 3, 7]);
    assert_eq!((t.grounded_claims, t.ungrounded_claims, t.has_citations), (3, 0, true));
    assert_eq!(t.notes, vec!["Transcript assessment requires line-level evidence".to_string()]);
    let t = transcript_tally(&[]);
    assert_eq!((t.grounded_claims, t.ungrounded_claims, t.has_citations), (0, 1, false));
}
