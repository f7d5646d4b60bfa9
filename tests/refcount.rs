use grust::refcount::RefCount;

#[test]
fn clone_then_drop_restores_count() {
    let mut c = RefCount::adopt();
    assert_eq!(c.count(), 1);
    c.inc_ref();
    assert_eq!(c.count(), 2);
    assert!(!c.dec_ref());
    assert_eq!(c.count(), 1);
}

#[test]
fn last_drop_frees() {
    let mut c = RefCount::adopt();
    c.inc_ref();
    assert!(!c.dec_ref());
    assert!(c.dec_ref());
    assert_eq!(c.count(), 0);
}
