use oi_platform::evidence::{Claim, Evidence, SourceAuthority};

#[test]
fn evidence_gets_span() {
    let e = Evidence::new("u".to_string(), "t".to_string(), SourceAuthority::High, "c".to_string());
    assert!(e.span.is_none());
    let id = e.id;
    let e = e.with_span(3, 5, "x".to_string());
    assert_eq!(e.id, id);
    let s = e.span.unwrap();
    assert_eq!((s.start_line, s.end_line, s.excerpt.as_str()), (3, 5, "x"));
}

#[test]
fn law_claim_confidence_follows_grounding() {
    let grounded = Claim::new("s".to_string(), "a".to_string(), vec![1, 2]);
    assert!(grounded.is_grounded());
    assert_eq!(grounded.confidence_percent, 85);
    let bare = Claim::new("s".to_string(), "a".to_string(), vec![]);
    assert!(!bare.is_grounded());
    assert_eq!(bare.confidence_percent, 30);
}

#[test]
fn authority_order() {
    assert!(SourceAuthority::Primary.at_least(SourceAuthority::High));
    assert!(SourceAuthority::High.at_least(SourceAuthority::High));
    assert!(!SourceAuthority::Medium.at_least(SourceAuthority::High));
    assert_eq!(SourceAuthority::Low.rank(), 0);
}
