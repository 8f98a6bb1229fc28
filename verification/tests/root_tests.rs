use cider_mpris::mpris::root::Root;

#[test]
fn root_defaults() {
    let r = Root::new();
    assert!(r.can_quit());
    assert!(!r.can_set_fullscreen());
    assert!(!r.fullscreen());
    assert!(!r.has_track_list());
    assert_eq!(r.identity(), "Cider");
    assert!(r.can_raise());
    assert_eq!(r.desktop_entry(), "cider");
    assert!(r.supported_uri_schemes().is_empty());
    assert!(r.supported_mime_types().is_empty());
    let d = Root::default();
    assert_eq!(d.identity, r.identity);
}

#[test]
fn root_fullscreen_writes_change_nothing() {
    let mut r = Root::new();
    r.set_fullscreen(true);
    assert!(!r.fullscreen());
    assert_eq!(r.identity(), "Cider");
    r.can_set_fullscreen = true;
    r.set_fullscreen(true);
    assert!(!r.fullscreen());
    r.fullscreen = true;
    r.set_fullscreen(false);
    assert!(r.fullscreen());
}

#[test]
fn root_raise_changes_nothing() {
    let r = Root::new();
    r.raise();
    assert!(r.can_raise());
    assert!(!r.fullscreen());
}

#[test]
fn root_lists_are_cloned() {
    let mut r = Root::new();
    r.supported_uri_schemes = vec!["file".to_string()];
    r.supported_mime_types = vec!["audio/mpeg".to_string()];
    assert_eq!(r.supported_uri_schemes(), vec!["file".to_string()]);
    assert_eq!(r.supported_mime_types(), vec!["audio/mpeg".to_string()]);
}
