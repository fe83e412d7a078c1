use roost_engine::resolve_home;

#[test]
fn only_an_absolute_home_is_somewhere_to_put_a_project() {
    assert_eq!(resolve_home(Some("/home/x")), "/home/x");
    assert_eq!(resolve_home(Some("/")), "/");
    // `HOME=` reaches us as `Ok("")`, not as "unset" — the case the
    // old `unwrap_or_else(|_| ..)` spelling silently let through.
    assert_eq!(resolve_home(Some("")), "/");
    // Relative resolves against a cwd the caller does not control;
    // a daemon has already `chdir("/")`d by the time it asks.
    assert_eq!(resolve_home(Some("home/x")), "/");
    assert_eq!(resolve_home(Some("./x")), "/");
    assert_eq!(resolve_home(None), "/");
}
