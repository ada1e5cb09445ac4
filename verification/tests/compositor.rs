//! The way to the compositor.
use dual_cursor::protocol::{bind_version, global, surface_namespace, Global, HIDER};
use dual_cursor::socket::{is_display, runtime_dir, Search, Stage};

fn names(list: &[&str]) -> Vec<String> {
    list.iter().map(|s| s.to_string()).collect()
}

#[test]
fn sockets_are_told_by_their_names() {
    assert!(is_display("wayland-0"));
    assert!(is_display("wayland-"));
    assert!(is_display("wayland-1.locked"));
    assert!(!is_display("wayland-0.lock"));
    assert!(!is_display("wayland"));
    assert!(!is_display("pipewire-0"));
    assert!(!is_display("a-wayland-0"));
    assert!(!is_display(""));
}

#[test]
fn names_are_compared_by_character() {
    assert!(is_display("wayland-\u{e9}"));
    assert!(!is_display("waylan\u{e9}-0"));
    assert!(!is_display("wayland-\u{e9}.lock"));
}

#[test]
fn the_runtime_directory_is_that_of_the_user() {
    assert_eq!(runtime_dir(0), "/run/user/0");
    assert_eq!(runtime_dir(1000), "/run/user/1000");
}

#[test]
fn the_environment_comes_first() {
    let mut s = Search::new();
    assert_eq!(s.stage(), Stage::Environment);
    assert_eq!(s.display(), None);
    s.on_attempt(true);
    assert_eq!(s.stage(), Stage::Connected);
}

#[test]
fn the_first_live_display_is_chosen() {
    let mut s = Search::new();
    s.on_attempt(false);
    assert_eq!(s.stage(), Stage::Directory);
    s.on_listing(&names(&["bus", "wayland-2", "wayland-2.lock", "wayland-1", "wayland-0"]));
    assert_eq!(s.stage(), Stage::Displays);
    assert_eq!(s.display().unwrap(), "wayland-2");
    s.on_attempt(false);
    assert_eq!(s.display().unwrap(), "wayland-1");
    s.on_attempt(true);
    assert_eq!(s.stage(), Stage::Connected);
    assert_eq!(s.display(), None);
}

#[test]
fn the_search_fails_when_nothing_answers() {
    let mut s = Search::new();
    s.on_attempt(false);
    s.on_listing(&names(&["wayland-0", "wayland-1"]));
    s.on_attempt(false);
    s.on_attempt(false);
    assert_eq!(s.stage(), Stage::Failed);
    s.on_attempt(true);
    assert_eq!(s.stage(), Stage::Failed);
}

#[test]
fn the_search_fails_without_sockets() {
    let mut s = Search::new();
    s.on_attempt(false);
    s.on_listing(&names(&["bus", "wayland-0.lock"]));
    assert_eq!(s.stage(), Stage::Failed);
    let mut s = Search::new();
    s.on_attempt(false);
    s.on_listing(&names(&[]));
    assert_eq!(s.stage(), Stage::Failed);
}

#[test]
fn a_listing_counts_only_when_it_is_wanted() {
    let mut s = Search::new();
    s.on_listing(&names(&["wayland-0"]));
    assert_eq!(s.stage(), Stage::Environment);
}

#[test]
fn globals_are_told_by_their_interfaces() {
    assert_eq!(global("wl_compositor"), Some(Global::Compositor));
    assert_eq!(global("wl_shm"), Some(Global::Shm));
    assert_eq!(global("zwlr_layer_shell_v1"), Some(Global::LayerShell));
    assert_eq!(global("wl_output"), Some(Global::Output));
    assert_eq!(global("zxdg_output_manager_v1"), Some(Global::XdgOutputManager));
    assert_eq!(global("wl_seat"), Some(Global::Seat));
    assert_eq!(global("wl_seat2"), None);
    assert_eq!(global("wl_sea"), None);
    assert_eq!(global(""), None);
}

#[test]
fn globals_are_bound_at_their_versions() {
    assert_eq!(bind_version(Global::Compositor, 6), 1);
    assert_eq!(bind_version(Global::Shm, 2), 1);
    assert_eq!(bind_version(Global::LayerShell, 5), 4);
    assert_eq!(bind_version(Global::LayerShell, 3), 3);
    assert_eq!(bind_version(Global::Output, 4), 2);
    assert_eq!(bind_version(Global::XdgOutputManager, 4), 3);
    assert_eq!(bind_version(Global::XdgOutputManager, 2), 2);
    assert_eq!(bind_version(Global::Seat, 9), 1);
}

#[test]
fn surfaces_have_namespaces() {
    assert_eq!(surface_namespace(0), "dual-cursor-0");
    assert_eq!(surface_namespace(1), "dual-cursor-1");
    assert_eq!(surface_namespace(HIDER), "cursor-hider");
}
