use rssterm::debounce::Debouncer;

#[test]
fn burst_emits_leading_and_trailing() {
    let mut d: Debouncer<u32> = Debouncer::new();
    let mut out = Vec::new();
    for e in 1..=10u32 {
        let step = d.on_input(e, true);
        assert_eq!(step.start_timer, e == 1);
        out.extend(step.emit);
    }
    let step = d.on_timer();
    assert!(step.start_timer);
    out.extend(step.emit);
    assert_eq!(out, vec![1, 10]);
    let quiet = d.on_timer();
    assert_eq!(quiet.emit, None);
    assert!(!quiet.start_timer);
    assert!(d.is_open());
}

#[test]
fn single_event_is_not_repeated() {
    let mut d: Debouncer<u32> = Debouncer::new();
    assert_eq!(d.on_input(7, true).emit, Some(7));
    assert_eq!(d.on_timer().emit, None);
    assert!(d.is_open());
}

#[test]
fn other_events_pass_through() {
    let mut d: Debouncer<u32> = Debouncer::new();
    assert_eq!(d.on_input(1, true).emit, Some(1));
    let step = d.on_input(2, false);
    assert_eq!(step.emit, Some(2));
    assert!(!step.start_timer);
    assert_eq!(d.on_input(3, true).emit, None);
    assert_eq!(d.on_input(4, false).emit, Some(4));
    assert_eq!(d.on_timer().emit, Some(3));
}

#[test]
fn end_flushes_pending() {
    let mut d: Debouncer<u32> = Debouncer::new();
    d.on_input(1, true);
    d.on_input(2, true);
    d.on_input(3, true);
    assert_eq!(d.on_end(), Some(3));
    assert_eq!(d.on_end(), None);
}
