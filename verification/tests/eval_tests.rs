use oi_platform::settings::eq_ignore_ascii_case;
use oi_platform::eval::content_tally;
use oi_platform::evidence::{Claim, Evidence, SourceAuthority};
use oi_platform::settings::approval_required;

#[test]
fn tally_counts_grounding_and_support() {
    let claims = vec![
        Claim::new("a".to_string(), "x".to_string(), vec![1]),
        Claim::new("b".to_string(), "x".to_string(), vec![]),
        Claim::new("c".to_string(), "x".to_string(), vec![]),
    ];
    let evidence = vec![Evidence::new(
        "u".to_string(),
        "t".to_string(),
        SourceAuthority::High,
        "Operational INTELLIGENCE drives decisions".to_string(),
    )];
    let t = content_tally("Intelligence drives better decisions fast", &claims, &evidence, "rules");
    assert_eq!(t.grounded_claims, 1);
    assert_eq!(t.ungrounded_claims, 2);
    assert_eq!(t.content_words, 5);
    // "intelligence" and "decisions" are longer than five bytes and found; "drives" is six bytes too.
    assert_eq!(t.supported_words, 3);
    assert!(t.brand_voice_ok);
    assert_eq!(t.notes, vec!["2 claim(s) lack evidence citations".to_string()]);
}

#[test]
fn tally_brand_voice() {
    let t = content_tally("Results GUARANTEED", &[], &[], "rules");
    assert!(!t.brand_voice_ok);
    let t = content_tally("We are 100% certain", &[], &[], "rules");
    assert!(!t.brand_voice_ok);
    let t = content_tally("calm text", &[], &[], "");
    assert!(!t.brand_voice_ok);
    assert!(t.notes.is_empty());
    assert_eq!(t.supported_words, 0);
}

#[test]
fn approval_setting() {
    assert!(approval_required(None));
    assert!(approval_required(Some("1")));
    assert!(approval_required(Some("TRUE")));
    assert!(approval_required(Some("True")));
    assert!(!approval_required(Some("0")));
    assert!(!approval_required(Some("yes")));
}

#[test]
fn ascii_case_insensitive_equality() {
    assert!(eq_ignore_ascii_case("TrUe", "true"));
    assert!(eq_ignore_ascii_case("", ""));
    assert!(!eq_ignore_ascii_case("true", "tru"));
    assert!(!eq_ignore_ascii_case("É", "é"));
    assert!(eq_ignore_ascii_case("Ab-1", "aB-1"));
}
