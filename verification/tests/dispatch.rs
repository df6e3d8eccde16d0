use zoraxy_plugin::static_router::StaticPathRouter;

#[test]
fn registered_path_resolves_with_trailing_slash() {
    let mut router: StaticPathRouter<u32> = StaticPathRouter::new(0);
    router.register_path_service("/test_a", 1);
    let header = "/test_a/".to_string();
    assert_eq!(*router.select_handler(Some(&header)), 1);
}

#[test]
fn registered_with_trailing_slash_resolves_without() {
    let mut router: StaticPathRouter<u32> = StaticPathRouter::new(0);
    router.register_path_service("/test_a/", 1);
    let header = "/test_a".to_string();
    assert_eq!(*router.select_handler(Some(&header)), 1);
}

#[test]
fn miss_falls_back_to_default() {
    let mut router: StaticPathRouter<u32> = StaticPathRouter::new(7);
    router.register_path_service("/test_a", 1);
    let header = "/not-registered".to_string();
    assert_eq!(*router.select_handler(Some(&header)), 7);
}

#[test]
fn missing_header_falls_back_to_default() {
    let mut router: StaticPathRouter<u32> = StaticPathRouter::new(7);
    router.register_path_service("/test_a", 1);
    assert_eq!(*router.select_handler(None), 7);
}

#[test]
fn last_registration_wins() {
    let mut router: StaticPathRouter<u32> = StaticPathRouter::new(0);
    router.register_path_service("/test_a", 1);
    router.register_path_service("/test_a/", 2);
    let header = "/test_a".to_string();
    assert_eq!(*router.select_handler(Some(&header)), 2);
}

#[test]
fn removal_restores_default() {
    let mut router: StaticPathRouter<u32> = StaticPathRouter::new(0);
    router.register_path_service("/test_a", 1);
    router.remove_path_handler("/test_a/");
    let header = "/test_a".to_string();
    assert_eq!(*router.select_handler(Some(&header)), 0);
}

#[test]
fn removing_unregistered_path_is_a_no_op() {
    let mut router: StaticPathRouter<u32> = StaticPathRouter::new(0);
    router.register_path_service("/a", 1);
    router.remove_path_handler("/b");
    let header = "/a".to_string();
    assert_eq!(*router.select_handler(Some(&header)), 1);
}

#[test]
fn debug_mode_toggles() {
    let mut router: StaticPathRouter<u32> = StaticPathRouter::new(0);
    assert!(!router.debug_enabled());
    router.set_debug_print_mode(true);
    assert!(router.debug_enabled());
    router.set_debug_print_mode(false);
    assert!(!router.debug_enabled());
}
