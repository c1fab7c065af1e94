use oi_platform::connector::{Initiative, MockAnalyticsConnector};

#[test]
fn sample_initiative() {
    let c = MockAnalyticsConnector;
    assert_eq!(c.name(), "mock-qlik-analytics");
    let i = c.sample_initiative();
    assert_eq!(i.name, "Revenue Acceleration Q3");
    assert_eq!(i.owner, "CFO");
    assert_eq!(i.status, "active");
    assert_eq!(i.linked_data_models, vec!["sales_pipeline", "forecast_model"]);
}

#[test]
fn select_prefers_requested_then_first() {
    let c = MockAnalyticsConnector;
    let a = Initiative::new("a".to_string(), "d".to_string());
    let b = Initiative::new("b".to_string(), "d".to_string());
    let bid = b.id;
    let list = vec![a, b];
    assert_eq!(c.select(&list, Some(bid)), Some(1));
    assert_eq!(c.select(&list, Some(bid.wrapping_add(1))), Some(0));
    assert_eq!(c.select(&list, None), Some(0));
    assert_eq!(c.select(&vec![], Some(bid)), None);
}

#[test]
fn answer_names_the_initiative() {
    let c = MockAnalyticsConnector;
    assert_eq!(
        c.answer("Coverage?", Some("Rev")),
        "Operational intelligence answer for 'Coverage?': NA pipeline is $4.2M in Proposal stage. Initiative 'Rev' projects 14.2% ROI with 8-month payback."
    );
    assert!(c.answer("q", None).contains("Initiative 'unlinked'"));
}
