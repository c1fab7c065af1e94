use oi_platform::evidence::SourceAuthority;
use oi_platform::tools::{
    FileTool, KnowledgeBaseTool, RegisteredTool, ToolError, ToolRegistry, WebSearchTool,
};

#[test]
fn default_crew_has_three_tools() {
    let r = ToolRegistry::default_crew();
    assert_eq!(r.names(), vec!["web_search", "knowledge_base", "read_file"]);
    let descriptions: Vec<&str> = r.tools().iter().map(|t| t.description()).collect();
    assert_eq!(descriptions[2], "Read a local file for agent context");
}

#[test]
fn resolve_finds_tools_by_name() {
    let r = ToolRegistry::default_crew();
    assert!(matches!(r.resolve("knowledge_base"), Ok(RegisteredTool::KnowledgeBase(_))));
    assert!(matches!(r.resolve("web_search"), Ok(RegisteredTool::WebSearch(_))));
    match r.resolve("translate") {
        Err(ToolError::Failed(m)) => assert_eq!(m, "unknown tool: translate"),
        Ok(_) => panic!("resolved an unknown tool"),
    }
}

#[test]
fn knowledge_base_matches_names_and_contents_without_case() {
    let kb = KnowledgeBaseTool::with_defaults();
    let hits = kb.search(Some("BRAND"));
    assert_eq!(hits.len(), 1);
    assert_eq!(hits[0].source_uri, "kb://brand_voice.md");
    assert_eq!(hits[0].source_title, "brand_voice.md");
    assert_eq!(hits[0].authority, SourceAuthority::Primary);
    assert!(hits[0].content.starts_with("Tone: precise"));
    let hits = kb.search(Some("fluency"));
    assert_eq!(hits.len(), 1);
    assert_eq!(hits[0].source_title, "hiring_rubric.md");
    assert!(kb.search(Some("nothing like this")).is_empty());
}

#[test]
fn knowledge_base_empty_query_returns_everything() {
    let kb = KnowledgeBaseTool::with_defaults();
    assert_eq!(kb.search(None).len(), 2);
    assert_eq!(kb.search(Some("")).len(), 2);
}

#[test]
fn knowledge_base_from_documents() {
    let kb = KnowledgeBaseTool::from_documents(vec![("a.md".to_string(), "alpha".to_string())]);
    let hits = kb.search(None);
    assert_eq!(hits.len(), 1);
    assert_eq!(hits[0].source_uri, "kb://a.md");
    let kb = KnowledgeBaseTool::from_documents(vec![]);
    assert_eq!(kb.search(None).len(), 2);
}

#[test]
fn web_search_returns_two_sources() {
    let hits = WebSearchTool.search(Some("edge AI"));
    assert_eq!(hits.len(), 2);
    assert_eq!(
        hits[0].content,
        "Latest trends on edge AI: real-time BI, agentic analytics, evidence-traced AI."
    );
    assert_eq!(hits[0].authority, SourceAuthority::High);
    assert_eq!(hits[1].source_title, "Enterprise AI ROI Framework");
    let hits = WebSearchTool.search(None);
    assert!(hits[0].content.contains("operational intelligence"));
}

#[test]
fn file_tool_error_without_path() {
    match FileTool::missing_path() {
        ToolError::Failed(m) => assert_eq!(m, "missing path"),
    }
}

#[test]
fn default_crew_knowledge_base_holds_the_default_documents() {
    let r = ToolRegistry::default_crew();
    match &r.tools()[1] {
        RegisteredTool::KnowledgeBase(kb) => {
            let hits = kb.search(None);
            let titles: Vec<&str> = hits.iter().map(|e| e.source_title.as_str()).collect();
            assert_eq!(titles, vec!["brand_voice.md", "hiring_rubric.md"]);
        }
        _ => panic!("the second tool is not the knowledge base"),
    }
    assert!(matches!(r.tools()[0], RegisteredTool::WebSearch(_)));
    assert!(matches!(r.tools()[2], RegisteredTool::File(_)));
}
