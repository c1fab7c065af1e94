use oi_platform::llm::{with_system_message, LlmMessage, MockLlm};

fn user(content: &str) -> Vec<LlmMessage> {
    vec![LlmMessage { role: "user".to_string(), content: content.to_string() }]
}

#[test]
fn mock_answers_by_wording() {
    let m = MockLlm;
    assert!(m.complete(&user("Produce a structured outline.")).starts_with("## Outline\n1."));
    let article = m.complete(&user("please write something"));
    assert_eq!(
        article,
        "# Technical Analysis\n\nSynthesized insights for: please write something\n\nEvidence-backed conclusions with operational intelligence mapping."
    );
    assert!(m.complete(&user("Analyze interview transcript:\nL1 A: b")).starts_with("Assessment: Candidate demonstrates strong"));
    assert_eq!(m.complete(&user("hello")), "Analysis complete. Topic context: hello");
    assert_eq!(m.complete(&vec![]), "Analysis complete. Topic context: ");
}

#[test]
fn mock_quotes_prefixes() {
    let m = MockLlm;
    let long = "z".repeat(300);
    let reply = m.complete(&user(&long));
    assert_eq!(reply, format!("Analysis complete. Topic context: {}", "z".repeat(120)));
    let reply = m.complete(&user(&format!("write {}", long)));
    assert!(reply.contains(&format!("for: write {}\n\n", "z".repeat(74))));
}

#[test]
fn system_message_goes_first() {
    let msgs = with_system_message("rules".to_string(), user("hi"));
    assert_eq!(msgs.len(), 2);
    assert_eq!(msgs[0].role, "system");
    assert_eq!(msgs[0].content, "rules");
    assert_eq!(msgs[1].content, "hi");
}
