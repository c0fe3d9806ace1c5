use clipsync::detector::ChangeDetector;

#[test]
fn change_is_detected_exactly() {
    let mut det = ChangeDetector::new(b"c1".to_vec());
    assert_eq!(det.observe(&b"c2".to_vec()), Some(b"c2".to_vec()));
}

#[test]
fn unchanged_content_is_never_surfaced() {
    let mut det = ChangeDetector::new(b"c".to_vec());
    assert_eq!(det.observe(&b"c".to_vec()), None);
    assert_eq!(det.observe(&b"c".to_vec()), None);
}

#[test]
fn same_value_twice_emits_once() {
    let mut det = ChangeDetector::new(Vec::new());
    assert_eq!(det.observe(&b"x".to_vec()), Some(b"x".to_vec()));
    assert_eq!(det.observe(&b"x".to_vec()), None);
}

#[test]
fn detector_follows_a_run_of_polls() {
    let mut det = ChangeDetector::new(Vec::new());
    assert_eq!(det.observe(&Vec::new()), None);
    assert_eq!(det.observe(&b"a".to_vec()), Some(b"a".to_vec()));
    assert_eq!(det.observe(&b"a".to_vec()), None);
    assert_eq!(det.observe(&b"b".to_vec()), Some(b"b".to_vec()));
    assert_eq!(det.observe(&Vec::new()), Some(Vec::new()));
}

#[test]
fn applied_remote_update_is_not_echoed() {
    let mut det = ChangeDetector::new(b"old".to_vec());
    det.record_applied(&b"remote".to_vec());
    assert_eq!(det.observe(&b"remote".to_vec()), None);
}
