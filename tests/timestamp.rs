use rssterm::timestamp::{parse_date, relative_label, Timestamp};

#[test]
fn parse_date_reads_rfc2822() {
    let t = parse_date("Tue, 1 Jul 2003 10:52:37 +0200").unwrap();
    assert_eq!(t, Timestamp::new(1_057_049_557, 0));
    assert_eq!(parse_date("yesterday"), None);
}

#[test]
fn timestamps_order() {
    let a = Timestamp::new(10, 5);
    assert!(a.is_before(&Timestamp::new(10, 6)));
    assert!(a.is_before(&Timestamp::new(11, 0)));
    assert!(!a.is_before(&a));
    assert!(!Timestamp::new(11, 0).is_before(&a));
}

#[test]
fn relative_label_in_words() {
    let now = Timestamp::new(1_700_000_000, 0);
    assert_eq!(relative_label(&Timestamp::new(1_700_000_000 - 7200, 0), &now), "2 hours ago");
    assert_eq!(relative_label(&Timestamp::new(1_700_000_000 + 3 * 86400, 0), &now), "in 3 days");
}
