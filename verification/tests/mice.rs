//! The physical mice and the virtual ones.
use dual_cursor::discovery::{device_pair, device_path, is_mouse, MouseDiscovery, KEY_A};
use dual_cursor::input::{
    MouseReader, Msg, RawEvent, Summary, BTN_LEFT, EV_ABS, EV_KEY, EV_REL, EV_SYN, REL_X, REL_Y,
};
use dual_cursor::virtual_mouse::{
    create_virtual_mouse, cursor_name, AbsAxis, Click, ABS_X, ABS_Y, BTN_TASK,
};
use evdev::{
    AbsoluteAxisCode, AttributeSet, EventType, InputEvent, KeyCode, RelativeAxisCode,
};

fn rel(code: u16, value: i32) -> RawEvent {
    RawEvent { kind: EV_REL, code, value }
}

fn key(code: u16, value: i32) -> RawEvent {
    RawEvent { kind: EV_KEY, code, value }
}

fn syn() -> RawEvent {
    RawEvent { kind: EV_SYN, code: 0, value: 0 }
}

#[test]
fn the_codes_are_those_of_the_input_layer() {
    assert_eq!(EV_SYN, EventType::SYNCHRONIZATION.0);
    assert_eq!(EV_KEY, EventType::KEY.0);
    assert_eq!(EV_REL, EventType::RELATIVE.0);
    assert_eq!(EV_ABS, EventType::ABSOLUTE.0);
    assert_eq!(REL_X, RelativeAxisCode::REL_X.0);
    assert_eq!(REL_Y, RelativeAxisCode::REL_Y.0);
    assert_eq!(ABS_X, AbsoluteAxisCode::ABS_X.0);
    assert_eq!(ABS_Y, AbsoluteAxisCode::ABS_Y.0);
    assert_eq!(BTN_LEFT, KeyCode::BTN_LEFT.0);
    assert_eq!(BTN_TASK, KeyCode::BTN_TASK.0);
    assert_eq!(KEY_A, KeyCode::KEY_A.0);
}

#[test]
fn movement_is_sent_at_the_synchronization() {
    let mut mouse = MouseReader::new(1);
    let msgs = mouse.on_events(&vec![rel(REL_X, 4), rel(REL_Y, -3), syn()]);
    assert_eq!(msgs, vec![Msg::Move { idx: 1, dx: 12, dy: -9 }]);
    assert_eq!(mouse, MouseReader::new(1));
}

#[test]
fn movement_waits_for_the_synchronization() {
    let mut mouse = MouseReader::new(0);
    assert_eq!(mouse.on_events(&vec![rel(REL_X, 1), rel(REL_X, 2)]), vec![]);
    assert_eq!(mouse.pdx, 9);
    assert_eq!(mouse.on_events(&vec![syn()]), vec![Msg::Move { idx: 0, dx: 9, dy: 0 }]);
    assert_eq!(mouse.pdx, 0);
}

#[test]
fn a_synchronization_without_movement_says_nothing() {
    let mut mouse = MouseReader::new(0);
    assert_eq!(mouse.on_events(&vec![syn(), syn()]), vec![]);
    assert_eq!(mouse.on_events(&vec![rel(REL_X, 5), rel(REL_X, -5), syn()]), vec![]);
}

#[test]
fn half_pixels_agree_with_floating_point() {
    let speed: f64 = 1.5;
    for v in [-1_000_000_007i32, -77, -3, -1, 0, 1, 2, 3, 5, 1001, 2_000_000_000] {
        let mut mouse = MouseReader::new(0);
        mouse.on_events(&vec![rel(REL_X, v), rel(REL_X, 1)]);
        let exact = v as f64 * speed + 1.0 * speed;
        assert_eq!(mouse.pdx as f64 / 2.0, exact);
    }
}

#[test]
fn the_counter_of_half_pixels_does_not_wrap() {
    let mut mouse = MouseReader { idx: 0, pdx: i64::MAX - 1, pdy: i64::MIN + 1 };
    mouse.on_events(&vec![rel(REL_X, 7), rel(REL_Y, -7)]);
    assert_eq!((mouse.pdx, mouse.pdy), (i64::MAX, i64::MIN));
}

#[test]
fn buttons_are_forwarded_at_once() {
    let mut mouse = MouseReader::new(1);
    let msgs = mouse.on_events(&vec![rel(REL_X, 2), key(0x110, 1), key(0x111, 0), syn()]);
    assert_eq!(
        msgs,
        vec![
            Msg::Button { idx: 1, code: 0x110, value: 1 },
            Msg::Button { idx: 1, code: 0x111, value: 0 },
            Msg::Move { idx: 1, dx: 6, dy: 0 },
        ]
    );
}

#[test]
fn keys_below_the_buttons_are_not_forwarded() {
    let mut mouse = MouseReader::new(0);
    assert_eq!(mouse.on_events(&vec![key(0x10f, 1), key(KEY_A, 1)]), vec![]);
    assert_eq!(mouse.on_events(&vec![key(0x2ff, 2)]).len(), 1);
}

#[test]
fn other_axes_and_other_events_are_ignored() {
    let mut mouse = MouseReader::new(0);
    let wheel = RelativeAxisCode::REL_WHEEL.0;
    let misc = RawEvent { kind: EventType::MISC.0, code: 4, value: 9 };
    let abs = RawEvent { kind: EV_ABS, code: ABS_X, value: 9 };
    let odd = RawEvent { kind: 0x7777, code: 0, value: 9 };
    assert_eq!(mouse.on_events(&vec![rel(wheel, 1), misc, abs, odd, syn()]), vec![]);
    assert_eq!(mouse, MouseReader::new(0));
}

#[test]
fn what_an_event_says_decides() {
    let mut mouse = MouseReader::new(0);
    assert_eq!(mouse.on_summary(Summary::RelativeAxis { code: REL_Y, value: 2 }), None);
    assert_eq!(mouse.on_summary(Summary::Other), None);
    assert_eq!(
        mouse.on_summary(Summary::Key { code: 0x117, value: 1 }),
        Some(Msg::Button { idx: 0, code: 0x117, value: 1 })
    );
    assert_eq!(
        mouse.on_summary(Summary::Synchronization),
        Some(Msg::Move { idx: 0, dx: 0, dy: 6 })
    );
}

#[test]
fn batches_can_be_cut_anywhere() {
    let evs = vec![
        rel(REL_X, 3),
        key(0x112, 1),
        rel(REL_Y, -8),
        syn(),
        key(0x112, 0),
        rel(REL_X, 1),
        syn(),
    ];
    let mut whole = MouseReader::new(0);
    let expected = whole.on_events(&evs);
    for cut in 0..evs.len() {
        let mut mouse = MouseReader::new(0);
        let mut msgs = mouse.on_events(&evs[..cut].to_vec());
        msgs.extend(mouse.on_events(&evs[cut..].to_vec()));
        assert_eq!(msgs, expected);
        assert_eq!(mouse, whole);
    }
}

#[test]
fn no_movement_is_lost() {
    let evs = vec![rel(REL_X, 3), syn(), rel(REL_X, -10), syn(), rel(REL_X, 4), rel(REL_Y, 2)];
    let mut mouse = MouseReader::new(0);
    let mut sent = 0;
    for msg in mouse.on_events(&evs) {
        if let Msg::Move { dx, .. } = msg {
            sent += dx;
        }
    }
    assert_eq!(sent + mouse.pdx, 3 * (3 - 10 + 4));
}

fn axes(codes: &[RelativeAxisCode]) -> AttributeSet<RelativeAxisCode> {
    let mut set = AttributeSet::new();
    for code in codes {
        set.insert(*code);
    }
    set
}

fn keys(codes: &[KeyCode]) -> AttributeSet<KeyCode> {
    let mut set = AttributeSet::new();
    for code in codes {
        set.insert(*code);
    }
    set
}

#[test]
fn a_mouse_moves_along_both_axes() {
    let both = axes(&[RelativeAxisCode::REL_X, RelativeAxisCode::REL_Y]);
    let only_x = axes(&[RelativeAxisCode::REL_X, RelativeAxisCode::REL_WHEEL]);
    let only_y = axes(&[RelativeAxisCode::REL_Y]);
    let buttons = keys(&[KeyCode::BTN_LEFT, KeyCode::BTN_RIGHT]);
    assert!(is_mouse(Some(&both), Some(&buttons)));
    assert!(is_mouse(Some(&both), None));
    assert!(!is_mouse(Some(&only_x), Some(&buttons)));
    assert!(!is_mouse(Some(&only_y), Some(&buttons)));
    assert!(!is_mouse(None, Some(&buttons)));
}

#[test]
fn a_keyboard_is_no_mouse() {
    let both = axes(&[RelativeAxisCode::REL_X, RelativeAxisCode::REL_Y]);
    let letters = keys(&[KeyCode::KEY_A, KeyCode::BTN_LEFT]);
    assert!(!is_mouse(Some(&both), Some(&letters)));
}

#[test]
fn devices_have_numbered_paths() {
    assert_eq!(device_path(0), "/dev/input/event0");
    assert_eq!(device_path(10), "/dev/input/event10");
    assert_eq!(device_path(99), "/dev/input/event99");
    assert_eq!(device_path(4294967295), "/dev/input/event4294967295");
}

fn discover(limit: usize, mice: &[u32]) -> (Vec<String>, u32) {
    let mut search = MouseDiscovery::new(limit);
    let mut probes = 0;
    while let Some(path) = search.next_device() {
        assert_eq!(path, device_path(probes));
        search.on_probe(mice.contains(&probes));
        probes += 1;
    }
    (search.paths(), probes)
}

#[test]
fn the_first_mice_are_found() {
    let (found, probes) = discover(2, &[3, 17, 40]);
    assert_eq!(found, vec!["/dev/input/event3", "/dev/input/event17"]);
    assert_eq!(probes, 18);
}

#[test]
fn the_search_ends_after_a_hundred_devices() {
    let (found, probes) = discover(2, &[99, 100]);
    assert_eq!(found, vec!["/dev/input/event99"]);
    assert_eq!(probes, 100);
}

#[test]
fn a_search_for_nothing_looks_at_nothing() {
    let (found, probes) = discover(0, &[0]);
    assert!(found.is_empty());
    assert_eq!(probes, 0);
}

#[test]
fn a_finished_search_takes_in_no_more() {
    let mut search = MouseDiscovery::new(1);
    search.on_probe(true);
    search.on_probe(true);
    assert_eq!(search.paths(), vec!["/dev/input/event0"]);
    assert_eq!(search.next_device(), None);
}

#[test]
fn two_devices_make_a_pair() {
    let paths: Vec<String> = vec!["a".to_string(), "b".to_string(), "c".to_string()];
    assert_eq!(device_pair(&paths), Some(("a".to_string(), "b".to_string())));
    assert_eq!(device_pair(&paths[..2].to_vec()), Some(("a".to_string(), "b".to_string())));
    assert_eq!(device_pair(&paths[..1].to_vec()), None);
    assert_eq!(device_pair(&Vec::new()), None);
}

#[test]
fn a_virtual_mouse_has_the_standard_buttons() {
    let mouse = create_virtual_mouse("dual-cursor-1", 1920, 1080);
    let expected = vec![
        KeyCode::BTN_LEFT,
        KeyCode::BTN_RIGHT,
        KeyCode::BTN_MIDDLE,
        KeyCode::BTN_SIDE,
        KeyCode::BTN_EXTRA,
        KeyCode::BTN_FORWARD,
        KeyCode::BTN_BACK,
        KeyCode::BTN_TASK,
    ];
    let has: Vec<KeyCode> = mouse.keys().iter().collect();
    assert_eq!(has, expected);
}

#[test]
fn a_virtual_mouse_covers_the_screen() {
    let mouse = create_virtual_mouse("dual-cursor-1", 1920, 1080);
    assert_eq!(mouse.name(), "dual-cursor-1");
    assert_eq!(
        mouse.x(),
        AbsAxis { code: ABS_X, value: 0, minimum: 0, maximum: 1920, fuzz: 0, flat: 0, resolution: 1 }
    );
    assert_eq!(
        mouse.y(),
        AbsAxis { code: ABS_Y, value: 0, minimum: 0, maximum: 1080, fuzz: 0, flat: 0, resolution: 1 }
    );
}

#[test]
fn cursors_have_numbered_names() {
    assert_eq!(cursor_name(0), "dual-cursor-0");
    assert_eq!(cursor_name(1), "dual-cursor-1");
}

#[test]
fn a_click_goes_to_its_position_first() {
    let click = Click { x: 100, y: 200, code: 0x111, value: 1 };
    let events = click.events();
    let expected = [
        InputEvent::new(EventType::ABSOLUTE.0, AbsoluteAxisCode::ABS_X.0, 100),
        InputEvent::new(EventType::ABSOLUTE.0, AbsoluteAxisCode::ABS_Y.0, 200),
        InputEvent::new(EventType::SYNCHRONIZATION.0, 0, 0),
        InputEvent::new(EventType::KEY.0, 0x111, 1),
        InputEvent::new(EventType::SYNCHRONIZATION.0, 0, 0),
    ];
    assert_eq!(events.len(), expected.len());
    for (e, x) in events.iter().zip(expected.iter()) {
        assert_eq!((e.kind, e.code, e.value), (x.event_type().0, x.code(), x.value()));
    }
}
