//! The program's state and what it asks for.
use dual_cursor::input::Msg;
use dual_cursor::model::{Cursor, Fault, Readiness};
use dual_cursor::protocol::{
    Anchor, Event, Global, Layer, Margin, Rect, Request, SurfaceSetup, HIDER,
};
use dual_cursor::state::AppState;
use dual_cursor::virtual_mouse::Click;

fn offer(interface: &str) -> Event {
    Event::Global { name: 7, interface: interface.to_string(), version: 9 }
}

fn bind(global: Global, version: u32) -> Request {
    Request::Bind { name: 7, global, version }
}

fn cursor_setup(surface: u32) -> SurfaceSetup {
    SurfaceSetup {
        surface,
        layer: Layer::Overlay,
        anchor: Anchor { top: true, bottom: false, left: true, right: false },
        size: Some(32),
        exclusive_zone: -1,
        keyboard: false,
        click_through: true,
    }
}

fn hider_setup() -> SurfaceSetup {
    SurfaceSetup {
        surface: HIDER,
        layer: Layer::Bottom,
        anchor: Anchor { top: true, bottom: true, left: true, right: true },
        size: None,
        exclusive_zone: -1,
        keyboard: false,
        click_through: false,
    }
}

fn vmouse(idx: usize, width: i32, height: i32) -> Request {
    Request::CreateVirtualMouse { idx, width, height }
}

fn movement(idx: usize, dx: i64, dy: i64) -> Event {
    Event::Input { msg: Msg::Move { idx, dx, dy } }
}

fn button(idx: usize, code: u16, value: i32) -> Event {
    Event::Input { msg: Msg::Button { idx, code, value } }
}

/// Both cursors on a screen of 800 by 600, configured and with virtual mice.
fn ready() -> AppState {
    let mut s = AppState::new(32);
    for interface in ["wl_compositor", "wl_shm", "zwlr_layer_shell_v1", "wl_output", "wl_seat"] {
        s.event(&offer(interface)).unwrap();
    }
    s.event(&Event::LogicalSize { width: 800, height: 600 }).unwrap();
    s.set_virtual_mouse(0, true);
    s.set_virtual_mouse(1, true);
    s.event(&Event::Configure { surface: 0, serial: 1 }).unwrap();
    s.event(&Event::Configure { surface: 1, serial: 2 }).unwrap();
    s
}

fn at(s: &AppState, idx: usize) -> (i32, i32) {
    let c = s.cursor(idx).unwrap();
    (c.x, c.y)
}

#[test]
fn nothing_is_there_at_the_start() {
    let s = AppState::new(32);
    assert!(s.running());
    assert_eq!(s.screen(), (0, 0));
    assert_eq!(s.cursor(0), None);
    assert_eq!(s.readiness(), Readiness::NoLayerShell);
}

#[test]
fn globals_are_bound_as_they_come() {
    let mut s = AppState::new(32);
    assert_eq!(s.event(&offer("wl_compositor")), Ok(vec![bind(Global::Compositor, 1)]));
    assert_eq!(s.event(&offer("wl_shm")), Ok(vec![bind(Global::Shm, 1)]));
    assert_eq!(s.event(&offer("xdg_wm_base")), Ok(vec![]));
    assert_eq!(s.event(&offer("zwlr_layer_shell_v1")), Ok(vec![bind(Global::LayerShell, 4)]));
    assert_eq!(s.event(&offer("wl_output")), Ok(vec![bind(Global::Output, 2)]));
    assert_eq!(
        s.event(&offer("zxdg_output_manager_v1")),
        Ok(vec![bind(Global::XdgOutputManager, 3), Request::GetXdgOutput])
    );
    assert_eq!(
        s.event(&offer("wl_seat")),
        Ok(vec![
            bind(Global::Seat, 1),
            Request::GetPointer,
            Request::CreateHider { setup: hider_setup() },
        ])
    );
    assert_eq!(s.readiness(), Readiness::Waiting);
}

#[test]
fn the_logical_output_comes_with_the_second_object() {
    let mut s = AppState::new(32);
    assert_eq!(
        s.event(&offer("zxdg_output_manager_v1")),
        Ok(vec![bind(Global::XdgOutputManager, 3)])
    );
    assert_eq!(
        s.event(&offer("wl_output")),
        Ok(vec![bind(Global::Output, 2), Request::GetXdgOutput])
    );
}

#[test]
fn only_the_first_output_and_seat_are_bound() {
    let mut s = AppState::new(32);
    s.event(&offer("wl_output")).unwrap();
    s.event(&offer("wl_seat")).unwrap();
    s.event(&offer("wl_compositor")).unwrap();
    assert_eq!(s.event(&offer("wl_output")), Ok(vec![]));
    assert_eq!(s.event(&offer("wl_seat")), Ok(vec![]));
    assert_eq!(s.event(&offer("wl_compositor")), Ok(vec![bind(Global::Compositor, 1)]));
}

#[test]
fn cursors_wait_for_the_screen() {
    let mut s = AppState::new(32);
    for interface in ["wl_compositor", "wl_shm", "zwlr_layer_shell_v1", "wl_output"] {
        s.event(&offer(interface)).unwrap();
    }
    assert_eq!(s.cursor(0), None);
    assert_eq!(
        s.event(&Event::LogicalSize { width: 1921, height: 1081 }),
        Ok(vec![
            vmouse(0, 1921, 1081),
            vmouse(1, 1921, 1081),
            Request::CreateCursor { idx: 0, setup: cursor_setup(0) },
            Request::CreateCursor { idx: 1, setup: cursor_setup(1) },
        ])
    );
    assert_eq!(s.cursor(0), Some(Cursor { surface: 0, x: 480, y: 540, configured: false }));
    assert_eq!(s.cursor(1), Some(Cursor { surface: 1, x: 1440, y: 540, configured: false }));
    assert_eq!(s.cursor(2), None);
}

#[test]
fn cursors_wait_for_the_objects() {
    let mut s = AppState::new(32);
    s.event(&Event::LogicalSize { width: 100, height: 100 }).unwrap();
    for interface in ["wl_output", "wl_compositor", "wl_shm"] {
        s.event(&offer(interface)).unwrap();
    }
    assert_eq!(s.cursor(0), None);
    assert_eq!(
        s.event(&offer("zwlr_layer_shell_v1")),
        Ok(vec![
            bind(Global::LayerShell, 4),
            Request::CreateCursor { idx: 0, setup: cursor_setup(0) },
            Request::CreateCursor { idx: 1, setup: cursor_setup(1) },
        ])
    );
}

#[test]
fn cursors_are_created_once() {
    let mut s = ready();
    assert_eq!(
        s.event(&Event::LogicalSize { width: 500, height: 400 }),
        Ok(vec![vmouse(0, 500, 400), vmouse(1, 500, 400)])
    );
    assert_eq!(s.event(&offer("wl_shm")), Ok(vec![bind(Global::Shm, 1)]));
    assert_eq!(at(&s, 0), (200, 300));
}

#[test]
fn the_order_of_globals_does_not_matter() {
    let all = [
        "wl_compositor",
        "wl_shm",
        "zwlr_layer_shell_v1",
        "wl_output",
        "zxdg_output_manager_v1",
        "wl_seat",
    ];
    for first in 0..all.len() {
        let mut s = AppState::new(32);
        s.event(&Event::LogicalSize { width: 40, height: 20 }).unwrap();
        let mut count = 0;
        for i in 0..all.len() {
            let requests = s.event(&offer(all[(first + i) % all.len()])).unwrap();
            count += requests.len();
        }
        assert_eq!(count, 6 + 1 + 2 + 2);
        assert_eq!(at(&s, 0), (10, 10));
        assert_eq!(at(&s, 1), (30, 10));
    }
}

#[test]
fn configuration_shows_a_cursor() {
    let mut s = AppState::new(32);
    for interface in ["wl_compositor", "wl_shm", "zwlr_layer_shell_v1", "wl_output"] {
        s.event(&offer(interface)).unwrap();
    }
    s.event(&Event::LogicalSize { width: 800, height: 600 }).unwrap();
    assert_eq!(s.readiness(), Readiness::Waiting);
    assert_eq!(
        s.event(&Event::Configure { surface: 1, serial: 55 }),
        Ok(vec![
            Request::AckConfigure { surface: 1, serial: 55 },
            Request::Show {
                idx: 1,
                margin: Margin { top: 300, right: 0, bottom: 0, left: 600 },
                damage: Rect { x: 0, y: 0, width: 32, height: 32 },
            },
        ])
    );
    assert!(s.cursor(1).unwrap().configured);
    assert!(!s.cursor(0).unwrap().configured);
    assert_eq!(s.readiness(), Readiness::Waiting);
    s.event(&Event::Configure { surface: 0, serial: 56 }).unwrap();
    assert_eq!(s.readiness(), Readiness::Ready);
}

#[test]
fn the_hider_is_only_acknowledged() {
    let mut s = ready();
    assert_eq!(
        s.event(&Event::Configure { surface: HIDER, serial: 3 }),
        Ok(vec![Request::AckConfigure { surface: HIDER, serial: 3 }])
    );
}

#[test]
fn a_cursor_is_committed_if_it_is_there() {
    let s = ready();
    assert_eq!(s.commit_cursor(0).len(), 1);
    assert_eq!(s.commit_cursor(2), vec![]);
}

#[test]
fn movement_is_in_whole_pixels_toward_zero() {
    let mut s = ready();
    assert_eq!(at(&s, 0), (200, 300));
    assert_eq!(
        s.event(&movement(0, 9, -9)),
        Ok(vec![Request::Place {
            idx: 0,
            margin: Margin { top: 296, right: 0, bottom: 0, left: 204 },
        }])
    );
    assert_eq!(at(&s, 0), (204, 296));
    s.event(&movement(0, 1, -1)).unwrap();
    assert_eq!(at(&s, 0), (204, 296));
}

#[test]
fn movement_agrees_with_floating_point() {
    for steps in [-33, -7, -3, -1, 1, 2, 3, 8, 41] {
        let mut s = ready();
        s.event(&movement(0, 3 * steps as i64, 0)).unwrap();
        let dx: f64 = steps as f64 * 1.5;
        assert_eq!(at(&s, 0), (200 + dx as i32, 300));
    }
}

#[test]
fn movement_stops_at_the_edges() {
    let mut s = ready();
    s.event(&movement(0, 1_000_000, 1_000_000)).unwrap();
    assert_eq!(at(&s, 0), (799, 599));
    s.event(&movement(0, -1_000_000, -1_000_000)).unwrap();
    assert_eq!(at(&s, 0), (0, 0));
}

#[test]
fn a_cursor_off_a_shrunken_screen_comes_back_when_it_moves() {
    let mut s = ready();
    s.event(&Event::LogicalSize { width: 100, height: 100 }).unwrap();
    assert_eq!(at(&s, 1), (600, 300));
    s.event(&movement(1, 2, 2)).unwrap();
    assert_eq!(at(&s, 1), (99, 99));
}

#[test]
fn axes_are_independent() {
    let mut a = ready();
    a.event(&movement(0, 50, -70)).unwrap();
    let mut b = ready();
    b.event(&movement(0, 50, 0)).unwrap();
    b.event(&movement(0, 0, -70)).unwrap();
    assert_eq!(at(&a, 0), at(&b, 0));
}

#[test]
fn cursors_are_independent() {
    let mut s = ready();
    let other = s.cursor(1);
    s.event(&movement(0, 40, 40)).unwrap();
    s.event(&button(0, 0x110, 1)).unwrap();
    assert_eq!(s.cursor(1), other);
}

#[test]
fn an_unconfigured_cursor_does_not_move() {
    let mut s = AppState::new(32);
    for interface in ["wl_compositor", "wl_shm", "zwlr_layer_shell_v1", "wl_output"] {
        s.event(&offer(interface)).unwrap();
    }
    s.event(&Event::LogicalSize { width: 800, height: 600 }).unwrap();
    assert_eq!(s.event(&movement(0, 40, 40)), Ok(vec![]));
    assert_eq!(at(&s, 0), (200, 300));
    assert_eq!(s.event(&movement(5, 40, 40)), Ok(vec![]));
}

#[test]
fn movement_that_leaves_the_numbers_is_a_fault() {
    let mut s = ready();
    assert_eq!(s.event(&movement(0, i64::MAX, 0)), Err(Fault::MoveRange));
    assert_eq!(at(&s, 0), (200, 300));
    s.event(&Event::LogicalSize { width: 0, height: 100 }).unwrap();
    assert_eq!(s.event(&movement(0, 2, 2)), Err(Fault::MoveRange));
}

#[test]
fn movement_saturates_at_thirty_two_bits() {
    let mut s = ready();
    assert_eq!(s.event(&movement(0, i64::MIN, 0)).map(|r| r.len()), Ok(1));
    assert_eq!(at(&s, 0), (0, 300));
}

#[test]
fn a_screen_that_is_too_wide_is_a_fault() {
    let mut s = AppState::new(32);
    s.event(&Event::LogicalSize { width: i32::MAX, height: 10 }).unwrap();
    for interface in ["wl_compositor", "wl_shm", "zwlr_layer_shell_v1"] {
        s.event(&offer(interface)).unwrap();
    }
    assert_eq!(s.event(&offer("wl_output")), Err(Fault::StartPosition));
    assert_eq!(s.cursor(0), None);
    s.event(&Event::LogicalSize { width: 0, height: 10 }).unwrap();
    s.event(&offer("wl_output")).unwrap();
    assert_eq!(
        s.event(&Event::LogicalSize { width: 715827883, height: 10 }),
        Err(Fault::StartPosition)
    );
    assert_eq!(
        s.event(&Event::Mode { flags: Some(1), width: 715827883, height: 10 }),
        Err(Fault::StartPosition)
    );
    s.event(&Event::LogicalSize { width: 715827882, height: 10 }).unwrap();
    assert_eq!(at(&s, 1), (536870911, 5));
}

#[test]
fn a_button_clicks_at_its_cursor() {
    let mut s = ready();
    s.event(&movement(1, 20, -40)).unwrap();
    assert_eq!(
        s.event(&button(1, 0x111, 1)),
        Ok(vec![Request::Emit {
            idx: 1,
            click: Click { x: 610, y: 280, code: 0x111, value: 1 },
        }])
    );
    assert_eq!(s.event(&button(2, 0x111, 1)), Ok(vec![]));
}

#[test]
fn a_button_without_a_virtual_mouse_is_dropped() {
    let mut s = ready();
    s.set_virtual_mouse(1, false);
    assert_eq!(s.event(&button(1, 0x110, 1)), Ok(vec![]));
    assert_eq!(s.event(&button(0, 0x110, 1)).unwrap().len(), 1);
}

#[test]
fn a_mode_is_divided_by_the_scale() {
    let mut s = AppState::new(32);
    s.event(&Event::Scale { factor: 2 }).unwrap();
    assert_eq!(
        s.event(&Event::Mode { flags: Some(3), width: 3841, height: 2161 }),
        Ok(vec![vmouse(0, 1920, 1080), vmouse(1, 1920, 1080)])
    );
    assert_eq!(s.screen(), (1920, 1080));
}

#[test]
fn a_scale_below_one_counts_as_one() {
    let mut s = AppState::new(32);
    s.event(&Event::Scale { factor: -3 }).unwrap();
    s.event(&Event::Mode { flags: Some(1), width: 100, height: 50 }).unwrap();
    assert_eq!(s.screen(), (100, 50));
}

#[test]
fn only_the_current_mode_counts() {
    let mut s = AppState::new(32);
    assert_eq!(s.event(&Event::Mode { flags: Some(2), width: 10, height: 10 }), Ok(vec![]));
    assert_eq!(s.event(&Event::Mode { flags: None, width: 10, height: 10 }), Ok(vec![]));
    assert_eq!(s.screen(), (0, 0));
}

#[test]
fn the_logical_size_counts_before_and_after_a_mode() {
    let mode = Event::Mode { flags: Some(1), width: 3000, height: 2000 };
    let size = Event::LogicalSize { width: 2000, height: 1333 };
    let mut s = AppState::new(32);
    s.event(&mode).unwrap();
    s.event(&size).unwrap();
    assert_eq!(s.screen(), (2000, 1333));
    let mut s = AppState::new(32);
    s.event(&size).unwrap();
    assert_eq!(s.event(&mode), Ok(vec![]));
    assert_eq!(s.screen(), (2000, 1333));
}

#[test]
fn the_pointer_is_taken_once() {
    let mut s = AppState::new(32);
    s.event(&offer("wl_seat")).unwrap();
    assert_eq!(s.event(&Event::Capabilities { capabilities: Some(2) }), Ok(vec![]));
    assert_eq!(s.event(&Event::Capabilities { capabilities: None }), Ok(vec![]));
    assert_eq!(
        s.event(&Event::Capabilities { capabilities: Some(3) }),
        Ok(vec![Request::GetPointer])
    );
    assert_eq!(s.event(&Event::Capabilities { capabilities: Some(3) }), Ok(vec![]));
    s.event(&offer("wl_compositor")).unwrap();
    s.event(&offer("wl_output")).unwrap();
    assert_eq!(
        s.event(&offer("zwlr_layer_shell_v1")),
        Ok(vec![
            bind(Global::LayerShell, 4),
            Request::CreateHider { setup: hider_setup() },
        ])
    );
}

#[test]
fn the_real_pointer_is_hidden_wherever_it_enters() {
    let mut s = AppState::new(32);
    assert_eq!(
        s.event(&Event::PointerEnter { serial: 12 }),
        Ok(vec![Request::HidePointer { serial: 12 }])
    );
}

#[test]
fn a_closed_surface_ends_the_program() {
    let mut s = ready();
    assert_eq!(s.event(&Event::Closed), Ok(vec![]));
    assert!(!s.running());
    s.event(&Event::Configure { surface: 0, serial: 9 }).unwrap();
    assert!(!s.running());
}

#[test]
fn the_program_ends_with_its_mice() {
    let mut s = ready();
    assert_eq!(s.event(&Event::Disconnected), Ok(vec![]));
    assert!(!s.running());
}

#[test]
fn startup_takes_the_default_screen() {
    let mut s = AppState::new(32);
    assert_eq!(s.finish_startup(), (true, vec![vmouse(0, 3840, 2160), vmouse(1, 3840, 2160)]));
    assert_eq!(s.screen(), (3840, 2160));
    let mut s = AppState::new(32);
    s.event(&Event::LogicalSize { width: 500, height: 0 }).unwrap();
    s.set_virtual_mouse(0, true);
    assert_eq!(s.finish_startup(), (true, vec![vmouse(1, 3840, 2160)]));
}

#[test]
fn startup_keeps_a_known_screen() {
    let mut s = ready();
    assert_eq!(s.finish_startup(), (false, vec![]));
    assert_eq!(s.screen(), (800, 600));
    s.set_virtual_mouse(0, false);
    assert_eq!(s.finish_startup(), (false, vec![vmouse(0, 800, 600)]));
}
