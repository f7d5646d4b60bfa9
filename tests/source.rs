use grust::source::{SourceOwner, SourceState};
use grust::types::{PRIORITY_DEFAULT, PRIORITY_HIGH};

#[test]
fn source_lifecycle() {
    let mut s = SourceState::new();
    assert_eq!(s.priority, PRIORITY_DEFAULT);
    assert!(!s.has_callback);
    assert!(!s.set_callback());
    assert!(s.set_callback());
    s.set_priority(PRIORITY_HIGH);
    assert_eq!(s.priority, -100);
    s.attach();
    assert_eq!(s.owner, SourceOwner::Context);
    assert!(s.destroy());
    assert!(!s.destroy());
    assert!(s.destroyed);
}
