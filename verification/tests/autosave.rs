use tuxmix::autosave::AutoSave;

#[test]
fn the_mock_never_saves_and_forgets_its_last_save() {
    let mut a = AutoSave::new();
    a.saved("{}".to_string());
    assert!(!a.begin(true));
    assert_eq!(a.last_saved_json, None);
    assert!(a.begin(false));
}

#[test]
fn own_write_is_settled_and_the_other_write_reapplied() {
    let mut a = AutoSave::new();
    // Fresh start: an existing file is the other interface's.
    assert!(a.should_reapply(Some("theirs")));
    assert!(!a.should_reapply(None));
    assert!(a.should_save("ours"));
    a.saved("ours".to_string());
    assert!(!a.should_reapply(Some("ours")));
    assert!(!a.should_save("ours"));
    assert!(a.should_reapply(Some("theirs")));
    assert!(a.should_save("changed"));
}
