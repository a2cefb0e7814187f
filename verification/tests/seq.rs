use hyperion_core::input::SeqTracker;

#[test]
fn first_report_primes() {
    let mut t = SeqTracker::default();
    assert_eq!(t.update(42), (0, false));
}

#[test]
fn consecutive_no_drop() {
    let mut t = SeqTracker::default();
    t.update(10);
    assert_eq!(t.update(11), (0, false));
}

#[test]
fn one_dropped() {
    let mut t = SeqTracker::default();
    t.update(10);
    assert_eq!(t.update(12), (1, false));
}

#[test]
fn duplicate_flagged() {
    let mut t = SeqTracker::default();
    t.update(10);
    assert_eq!(t.update(10), (255, true));
}

#[test]
fn wraps_mod_256() {
    let mut t = SeqTracker::default();
    t.update(254);
    assert_eq!(t.update(0), (1, false));
    let mut t2 = SeqTracker::default();
    t2.update(255);
    assert_eq!(t2.update(0), (0, false));
}

#[test]
fn seq_reset_reprimes() {
    let mut t = SeqTracker::default();
    t.update(10);
    t.reset();
    assert_eq!(t.update(200), (0, false));
}
