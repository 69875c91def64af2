use rust_site::router::Route;
use rust_site::shell::{MountState, Shell};

#[test]
fn new_shell_resolves_initial_path() {
    let shell = Shell::new("/blog1");
    assert_eq!(shell.current(), Route::Blog1);
    assert_eq!(shell.history_len(), 1);

    let lost = Shell::new("/no/such/page");
    assert_eq!(lost.current(), Route::NotFound);
}

#[test]
fn navigate_appends_exactly_one_entry() {
    let mut shell = Shell::new("/blog1");
    assert_eq!(shell.current(), Route::Blog1);
    let before = shell.history_len();

    shell.navigate(Route::Blog2);
    assert_eq!(shell.current(), Route::Blog2);
    assert_eq!(shell.history_len(), before + 1);
}

#[test]
fn scroll_reset_fires_once_per_mount() {
    let mut shell = Shell::new("/blog2");

    let (route, reset) = shell.render();
    assert_eq!(route, Route::Blog2);
    assert!(reset);

    let (route, reset) = shell.render();
    assert_eq!(route, Route::Blog2);
    assert!(!reset);

    let (_, reset) = shell.render();
    assert!(!reset);
}

#[test]
fn navigation_remounts_the_page() {
    let mut shell = Shell::new("/");
    let (_, reset) = shell.render();
    assert!(reset);

    shell.navigate(Route::Blog1);
    let (route, reset) = shell.render();
    assert_eq!(route, Route::Blog1);
    assert!(reset);
    let (_, reset) = shell.render();
    assert!(!reset);
}

#[test]
fn navigate_round_trip_each_route() {
    let routes = [Route::Home, Route::Blog1, Route::Blog2, Route::NotFound];
    for route in routes {
        let mut shell = Shell::new("/");
        shell.navigate(route);
        assert_eq!(shell.current(), route);
    }
}

#[test]
fn back_follows_history_stack_order() {
    let mut shell = Shell::new("/");
    shell.navigate(Route::Blog1);
    shell.navigate(Route::Blog2);
    assert_eq!(shell.current(), Route::Blog2);
    assert_eq!(shell.history_len(), 3);

    assert!(shell.back());
    assert_eq!(shell.current(), Route::Blog1);

    assert!(shell.back());
    assert_eq!(shell.current(), Route::Home);

    assert!(!shell.back());
    assert_eq!(shell.current(), Route::Home);
    assert_eq!(shell.history_len(), 3);
}

#[test]
fn forward_retraces_after_back() {
    let mut shell = Shell::new("/");
    shell.navigate(Route::Blog1);
    assert!(!shell.forward());

    assert!(shell.back());
    assert_eq!(shell.current(), Route::Home);

    assert!(shell.forward());
    assert_eq!(shell.current(), Route::Blog1);
    assert!(!shell.forward());
}

#[test]
fn navigate_after_back_drops_forward_entries() {
    let mut shell = Shell::new("/");
    shell.navigate(Route::Blog1);
    shell.navigate(Route::Blog2);
    assert!(shell.back());
    assert!(shell.back());
    assert_eq!(shell.current(), Route::Home);

    shell.navigate(Route::Blog2);
    assert_eq!(shell.current(), Route::Blog2);
    assert_eq!(shell.history_len(), 2);
    assert!(!shell.forward());
}

#[test]
fn mount_state_is_one_shot() {
    let mut mount = MountState::new();
    assert!(mount.take_first());
    assert!(!mount.take_first());
    assert!(!mount.take_first());
}
