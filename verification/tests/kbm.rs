use hyperion_core::output::{KbmBatch, KbmEvent, KeyKind, MouseButton, KBM_BATCH_CAP};

#[test]
fn new_is_empty() {
    let b = KbmBatch::new();
    assert!(b.is_empty());
    assert_eq!(b.len(), 0);
    assert_eq!(b.as_slice(), &[]);
}

#[test]
fn push_appends_in_order() {
    let mut b = KbmBatch::new();
    let e0 = KbmEvent::Key {
        vk: 0x41,
        down: true,
        kind: KeyKind::ScanCode,
    };
    let e1 = KbmEvent::MouseButton {
        btn: MouseButton::Left,
        down: true,
    };
    assert!(b.push(e0));
    assert!(b.push(e1));
    assert_eq!(b.len(), 2);
    assert_eq!(b.as_slice(), &[e0, e1]);
    assert!(!b.is_empty());
}

#[test]
fn clear_resets_len() {
    let mut b = KbmBatch::new();
    b.push(KbmEvent::Wheel {
        vertical: 120,
        horizontal: 0,
    });
    b.clear();
    assert!(b.is_empty());
    assert_eq!(b.as_slice(), &[]);
}

#[test]
fn push_saturates_at_cap_without_panic() {
    let mut b = KbmBatch::new();
    let e = KbmEvent::MouseMove { dx: 1, dy: 1 };
    for _ in 0..KBM_BATCH_CAP {
        assert!(b.push(e), "fills up to cap");
    }
    assert_eq!(b.len(), KBM_BATCH_CAP);
    assert!(!b.push(e));
    assert!(!b.push(e));
    assert_eq!(b.len(), KBM_BATCH_CAP);
    assert_eq!(b.as_slice().len(), KBM_BATCH_CAP);
}

#[test]
fn batch_is_copy_and_fits_the_pinned_cap() {
    fn assert_copy<T: Copy>() {}
    assert_copy::<KbmBatch>();
    let a = KbmBatch::new();
    let b = a;
    assert!(a.is_empty() && b.is_empty());
    assert_eq!(KBM_BATCH_CAP, 24);
}
