use oi_platform::hiring::HiringAnalyzer;
use oi_platform::transcript::parse_transcript;

#[test]
fn parse_numbers_lines_and_splits_speakers() {
    let content = "Interviewer: Tell me about scaling\n\n  Candidate :  I built a distributed system \r\nno colon here\n";
    let lines = parse_transcript(content);
    assert_eq!(lines.len(), 3);
    assert_eq!(lines[0].line, 1);
    assert_eq!(lines[0].speaker, "Interviewer");
    assert_eq!(lines[0].text, "Tell me about scaling");
    assert_eq!(lines[1].line, 3);
    assert_eq!(lines[1].speaker, "Candidate");
    assert_eq!(lines[1].text, "I built a distributed system");
    assert_eq!(lines[2].line, 4);
    assert_eq!(lines[2].speaker, "unknown");
    assert_eq!(lines[2].text, "no colon here");
}

#[test]
fn parse_splits_at_first_colon_only() {
    let lines = parse_transcript("A: time is 10:30");
    assert_eq!(lines.len(), 1);
    assert_eq!(lines[0].speaker, "A");
    assert_eq!(lines[0].text, "time is 10:30");
}

#[test]
fn parse_skips_blank_lines_but_counts_them() {
    let lines = parse_transcript("\n \n\t\nQ: last");
    assert_eq!(lines.len(), 1);
    assert_eq!(lines[0].line, 4);
    assert!(parse_transcript("").is_empty());
    assert!(parse_transcript("\n\n").is_empty());
}

#[test]
fn parse_keeps_empty_text_after_colon() {
    let lines = HiringAnalyzer::parse_transcript("Speaker:   \r\n");
    assert_eq!(lines.len(), 1);
    assert_eq!(lines[0].speaker, "Speaker");
    assert_eq!(lines[0].text, "");
}

#[test]
fn law_entries_one_per_non_blank_line_in_order() {
    let lines = parse_transcript("a\n\nb\nc\n\n\nd");
    let numbers: Vec<u32> = lines.iter().map(|l| l.line).collect();
    assert_eq!(numbers, vec![1, 3, 4, 7]);
}

#[test]
fn parse_follows_str_lines_on_carriage_returns() {
    let lines = parse_transcript("foo\nbar\n\r\nbaz\r");
    let numbers: Vec<u32> = lines.iter().map(|l| l.line).collect();
    assert_eq!(numbers, vec![1, 2, 4]);
    assert_eq!(lines[2].speaker, "unknown");
    assert_eq!(lines[2].text, "baz");
    let lines = parse_transcript("Q: why\r");
    assert_eq!(lines.len(), 1);
    assert_eq!(lines[0].text, "why");
    assert!(parse_transcript("\r").is_empty());
}
