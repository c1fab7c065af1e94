use oi_platform::crew::{crew_system_prompt, stage_request};
use oi_platform::eval::{content_tally, count_supported, voice_holds};
use oi_platform::evidence::{Claim, Evidence, SourceAuthority};
use oi_platform::hiring::line_signals;
use oi_platform::tools::document_matches;
use oi_platform::workflow::CrewStage;

fn chars(s: &str) -> Vec<char> {
    s.chars().collect()
}

#[test]
fn line_signals_on_lowered_text() {
    assert_eq!(line_signals("distributed caches"), (true, false, false));
    assert_eq!(line_signals("i think it was fine"), (false, true, true));
    assert_eq!(line_signals("probably"), (false, false, true));
    assert_eq!(line_signals("i don't know the architecture"), (true, true, false));
    assert_eq!(line_signals("SYSTEM"), (false, false, false));
}

#[test]
fn document_matching_on_lowered_text() {
    assert!(document_matches("brand_voice.md", "tone", "brand"));
    assert!(document_matches("a.md", "depth vs fluency", "fluency"));
    assert!(document_matches("a.md", "x", ""));
    assert!(!document_matches("a.md", "x", "brand"));
}

#[test]
fn voice_on_lowered_text() {
    assert!(voice_holds("calm and precise", "rules"));
    assert!(!voice_holds("results guaranteed", "rules"));
    assert!(!voice_holds("we are 100% certain", "rules"));
    assert!(!voice_holds("calm", ""));
}

#[test]
fn supported_words_on_lowered_words() {
    let words = vec![chars("intelligence"), chars("drives"), chars("fast"), chars("better")];
    let tokens = vec![chars("intelligence"), chars("fast"), chars("drives")];
    assert_eq!(count_supported(&words, &tokens), 2);
    assert_eq!(count_supported(&words, &vec![]), 0);
}

#[test]
fn law_more_evidence_supports_more_words() {
    let ev = |c: &str| Evidence::new("u".to_string(), "t".to_string(), SourceAuthority::High, c.to_string());
    let claims: Vec<Claim> = vec![];
    let content = "Intelligence drives better decisions";
    let few = vec![ev("intelligence")];
    let more = vec![ev("intelligence"), ev("Better DECISIONS")];
    let a = content_tally(content, &claims, &few, "r");
    let b = content_tally(content, &claims, &more, "r");
    assert_eq!(a.supported_words, 1);
    assert_eq!(b.supported_words, 3);
    assert_eq!(a.grounded_claims, b.grounded_claims);
    assert_eq!(a.brand_voice_ok, b.brand_voice_ok);
}

#[test]
fn crew_prompts_by_stage() {
    assert_eq!(
        crew_system_prompt(CrewStage::Research, "ignored"),
        "You are a research agent. Summarize findings with source attribution."
    );
    assert_eq!(
        crew_system_prompt(CrewStage::Writer, ""),
        "You are a writer agent. Produce SEO-optimized technical content."
    );
    assert_eq!(
        crew_system_prompt(CrewStage::Editor, "b"),
        "You are an editor agent. Verify factual accuracy and brand voice.\nBrand rules: b"
    );
    assert_eq!(
        stage_request(CrewStage::Writer, "t", &vec![], &vec![], "o", "d"),
        "Write article from outline:\no"
    );
    assert_eq!(
        stage_request(CrewStage::Editor, "t", &vec![], &vec![], "o", "d"),
        "Edit and finalize:\nd"
    );
    assert_eq!(
        stage_request(CrewStage::Research, "AI", &vec![], &vec![], "o", "d"),
        "Research topic: AI. Sources: "
    );
}
