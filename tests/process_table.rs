use maestro::process_table::SegmentProcesses;

#[test]
fn tracking_appends_in_order() {
    let mut t = SegmentProcesses::new();
    t.track("s1".to_string(), 10);
    t.track("s1".to_string(), 11);
    t.track("s2".to_string(), 20);
    assert_eq!(t.pids_of(&"s1".to_string()), Some(vec![10, 11]));
    assert_eq!(t.pids_of(&"s2".to_string()), Some(vec![20]));
    assert_eq!(t.pids_of(&"s3".to_string()), None);
}

#[test]
fn untracking_forgets_one_segment() {
    let mut t = SegmentProcesses::new();
    t.track("s1".to_string(), 10);
    t.track("s2".to_string(), 20);
    t.untrack(&"s1".to_string());
    t.untrack(&"missing".to_string());
    assert_eq!(t.pids_of(&"s1".to_string()), None);
    assert_eq!(t.pids_of(&"s2".to_string()), Some(vec![20]));
}

#[test]
fn all_pids_covers_every_segment() {
    let mut t = SegmentProcesses::new();
    assert!(t.all_pids().is_empty());
    t.track("s1".to_string(), 10);
    t.track("s2".to_string(), 20);
    t.track("s1".to_string(), 11);
    let mut all = t.all_pids();
    all.sort();
    assert_eq!(all, vec![10, 11, 20]);
}
