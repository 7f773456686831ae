use nexus::emitter::{matches_wildcard, Emitter};

#[test]
fn test_wildcard_matching() {
    assert!(matches_wildcard("items.*", "items.create"));
    assert!(matches_wildcard("items.*.before", "items.create.before"));
    assert!(!matches_wildcard("items.*", "items.create.before"));
    assert!(!matches_wildcard("items.create", "items.update"));
    assert!(matches_wildcard("*.*", "items.create"));
}

#[test]
fn exact_handlers_run_before_wildcard_handlers() {
    let mut e = Emitter::new();
    e.on_filter("items.*", 1);
    e.on_filter("items.create", 2);
    e.on_filter("items.create", 3);
    e.on_filter("users.*", 4);
    assert_eq!(e.emit_filter("items.create"), vec![2, 3, 1]);
    assert_eq!(e.emit_filter("users.create"), vec![4]);
    assert_eq!(e.emit_filter("files.upload"), Vec::<u64>::new());
}

#[test]
fn action_and_init_registries_are_separate() {
    let mut e = Emitter::new();
    e.on_action("items.create", 7);
    e.on_init("app.before", 8);
    assert_eq!(e.emit_action("items.create"), vec![7]);
    assert_eq!(e.emit_init("items.create"), Vec::<u64>::new());
    assert_eq!(e.emit_init("app.before"), vec![8]);
}
