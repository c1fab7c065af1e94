use oi_platform::crew::{
    analyst_prompt, editor_claim, editor_prompt, editor_system_prompt, research_claim,
    research_prompt, writer_prompt,
};
use oi_platform::evidence::{Claim, Evidence, SourceAuthority};

fn source(title: &str, a: SourceAuthority) -> Evidence {
    Evidence::new("u".to_string(), title.to_string(), a, "c".to_string())
}

#[test]
fn research_prompt_lists_high_authority_titles() {
    let ev = vec![
        source("Trends", SourceAuthority::High),
        source("Blog", SourceAuthority::Low),
        source("Paper", SourceAuthority::Primary),
    ];
    assert_eq!(research_prompt("AI", &ev), "Research topic: AI. Sources: Trends, Paper");
    assert_eq!(research_prompt("AI", &vec![]), "Research topic: AI. Sources: ");
}

#[test]
fn research_claim_cites_all_sources() {
    let ev = vec![source("a", SourceAuthority::Low), source("b", SourceAuthority::High)];
    let c = research_claim("summary".to_string(), &ev);
    assert_eq!(c.evidence_ids, vec![ev[0].id, ev[1].id]);
    assert_eq!(c.agent, "research-agent");
    assert_eq!(c.confidence_percent, 85);
}

#[test]
fn analyst_prompt_lists_claims() {
    let claims = vec![
        Claim::new("First".to_string(), "x".to_string(), vec![9]),
        Claim::new("Second".to_string(), "x".to_string(), vec![]),
    ];
    assert_eq!(
        analyst_prompt("T", &claims),
        "Topic: T\nInsights:\n- First (confidence: 85%)\n- Second (confidence: 30%)\n\nProduce a structured outline."
    );
}

#[test]
fn writer_and_editor_prompts() {
    assert_eq!(writer_prompt("o"), "Write article from outline:\no");
    assert_eq!(editor_prompt("d"), "Edit and finalize:\nd");
    assert_eq!(
        editor_system_prompt("b"),
        "You are an editor agent. Verify factual accuracy and brand voice.\nBrand rules: b"
    );
    let c = editor_claim();
    assert_eq!(c.statement, "Editor-verified final article");
    assert_eq!(c.agent, "editor-agent");
    assert!(!c.is_grounded());
}
