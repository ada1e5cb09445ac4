//! The virtual mice that click in the place of the physical ones.
use crate::attributes::KeySet;
use crate::input::{RawEvent, BTN_LEFT, EV_ABS, EV_KEY, EV_SYN};
use crate::text::numbered;
use vstd::prelude::*;
use vstd::string::*;

verus! {

/// The absolute axis that points right.
pub const ABS_X: u16 = 0x00;

/// The absolute axis that points down.
pub const ABS_Y: u16 = 0x01;

/// The highest button code of a virtual mouse, that of the task button.
pub const BTN_TASK: u16 = 0x117;

/// The set-up of an absolute axis.
#[derive(Clone, Copy, Debug, PartialEq, Eq, Structural)]
pub struct AbsAxis {
    pub code: u16,
    pub value: i32,
    pub minimum: i32,
    pub maximum: i32,
    pub fuzz: i32,
    pub flat: i32,
    pub resolution: i32,
}

/// The set-up of a virtual mouse.
pub struct VirtualMouse {
    name: String,
    keys: KeySet,
    x: AbsAxis,
    y: AbsAxis,
}

/// The buttons of a virtual mouse: left, right, middle, side, extra, forward, back
/// and task.
pub open spec fn mouse_buttons() -> Set<u16> {
    Set::new(|code: u16| BTN_LEFT <= code <= BTN_TASK)
}

/// An axis with positions from zero to `maximum`, one unit per pixel.
pub open spec fn screen_axis(code: u16, maximum: i32) -> AbsAxis {
    AbsAxis { code, value: 0, minimum: 0, maximum, fuzz: 0, flat: 0, resolution: 1 }
}

/// The name of the surface, and of the virtual mouse, of cursor `i`.
pub open spec fn name_of_cursor(i: u32) -> Seq<char> {
    "dual-cursor-"@ + crate::text::decimal(i as nat)
}

/// The name of the surface, and of the virtual mouse, of cursor `i`.
pub fn cursor_name(i: u32) -> (name: String)
    ensures
        name@ == name_of_cursor(i),
{
    numbered("dual-cursor-", i)
}

/// The standard mouse buttons as a set of keys.
fn button_set() -> (keys: KeySet)
    ensures
        crate::attributes::set_codes(&keys) == mouse_buttons(),
{
    let mut keys = KeySet::new();
    let mut code: u16 = BTN_LEFT;
    assert(crate::attributes::set_codes(&keys) =~= Set::new(|c: u16| BTN_LEFT <= c < code));
    while code <= BTN_TASK
        invariant
            BTN_LEFT <= code <= BTN_TASK + 1,
            crate::attributes::set_codes(&keys) == Set::new(|c: u16| BTN_LEFT <= c < code),
        decreases BTN_TASK + 1 - code,
    {
        keys.insert(code);
        code += 1;
        assert(crate::attributes::set_codes(&keys) =~= Set::new(|c: u16| BTN_LEFT <= c < code));
    }
    assert(crate::attributes::set_codes(&keys) =~= mouse_buttons());
    keys
}

/// The set-up of a virtual mouse with this name on a screen of this size.
pub fn create_virtual_mouse(name: &str, screen_w: i32, screen_h: i32) -> (mouse: VirtualMouse)
    ensures
        mouse@ == (VirtualMouseView {
            name: name@,
            keys: mouse_buttons(),
            x: screen_axis(ABS_X, screen_w),
            y: screen_axis(ABS_Y, screen_h),
        }),
        mouse@.x.minimum == 0,
        mouse@.x.maximum == screen_w,
        mouse@.y.minimum == 0,
        mouse@.y.maximum == screen_h,
{
    VirtualMouse {
        name: String::from_str(name),
        keys: button_set(),
        x: AbsAxis {
            code: ABS_X,
            value: 0,
            minimum: 0,
            maximum: screen_w,
            fuzz: 0,
            flat: 0,
            resolution: 1,
        },
        y: AbsAxis {
            code: ABS_Y,
            value: 0,
            minimum: 0,
            maximum: screen_h,
            fuzz: 0,
            flat: 0,
            resolution: 1,
        },
    }
}

/// What a virtual mouse is: its name, its buttons and its axes.
pub struct VirtualMouseView {
    pub name: Seq<char>,
    pub keys: Set<u16>,
    pub x: AbsAxis,
    pub y: AbsAxis,
}

impl View for VirtualMouse {
    type V = VirtualMouseView;

    closed spec fn view(&self) -> VirtualMouseView {
        VirtualMouseView {
            name: self.name@,
            keys: crate::attributes::set_codes(&self.keys),
            x: self.x,
            y: self.y,
        }
    }
}

impl VirtualMouse {
    /// The name of the device.
    pub fn name(&self) -> (name: &str)
        ensures
            name@ == self@.name,
    {
        self.name.as_str()
    }

    /// The buttons of the device, as `evdev` takes them.
    pub fn keys(&self) -> (keys: &evdev::AttributeSetRef<evdev::KeyCode>)
        ensures
            crate::attributes::key_codes(keys) == self@.keys,
    {
        self.keys.as_attributes()
    }

    /// The horizontal axis.
    pub fn x(&self) -> (axis: AbsAxis)
        ensures
            axis == self@.x,
    {
        self.x
    }

    /// The vertical axis.
    pub fn y(&self) -> (axis: AbsAxis)
        ensures
            axis == self@.y,
    {
        self.y
    }
}

/// A change of the button `code` at a position on the screen.
#[derive(Clone, Copy, Debug, PartialEq, Eq, Structural)]
pub struct Click {
    pub x: i32,
    pub y: i32,
    pub code: u16,
    pub value: i32,
}

impl Click {
    /// The events that a virtual mouse emits for the click: it goes to the position,
    /// and the first synchronization flushes that; then the button changes, and the
    /// second one flushes it.
    pub open spec fn spec_events(self) -> Seq<RawEvent> {
        seq![
            RawEvent { kind: EV_ABS, code: ABS_X, value: self.x },
            RawEvent { kind: EV_ABS, code: ABS_Y, value: self.y },
            RawEvent { kind: EV_SYN, code: 0, value: 0 },
            RawEvent { kind: EV_KEY, code: self.code, value: self.value },
            RawEvent { kind: EV_SYN, code: 0, value: 0 },
        ]
    }

    /// The events that a virtual mouse emits for the click.
    pub fn events(&self) -> (events: Vec<RawEvent>)
        ensures
            events@ == self.spec_events(),
    {
        let mut events: Vec<RawEvent> = Vec::new();
        events.push(RawEvent { kind: EV_ABS, code: ABS_X, value: self.x });
        events.push(RawEvent { kind: EV_ABS, code: ABS_Y, value: self.y });
        events.push(RawEvent { kind: EV_SYN, code: 0, value: 0 });
        events.push(RawEvent { kind: EV_KEY, code: self.code, value: self.value });
        events.push(RawEvent { kind: EV_SYN, code: 0, value: 0 });
        assert(events@ =~= self.spec_events());
        events
    }
}

/// The axes of a virtual mouse span exactly the screen, one unit per pixel, and start at
/// zero.
pub proof fn law_axes_span_the_screen(screen_w: i32, screen_h: i32)
    ensures
        ({
            let x = screen_axis(ABS_X, screen_w);
            let y = screen_axis(ABS_Y, screen_h);
            &&& x.code == 0 && y.code == 1
            &&& x.minimum == 0 && x.maximum == screen_w
            &&& y.minimum == 0 && y.maximum == screen_h
            &&& x.resolution == 1 && y.resolution == 1
            &&& x.value == 0 && x.fuzz == 0 && x.flat == 0
            &&& y.value == 0 && y.fuzz == 0 && y.flat == 0
        }),
{
}

/// A virtual mouse has exactly the eight buttons from the left one on.
pub proof fn law_virtual_mice_have_mouse_buttons(code: u16)
    ensures
        mouse_buttons().contains(code) <==> 0x110 <= code < 0x110 + 8,
{
}

/// The name of a cursor ends in its number.
pub proof fn law_cursors_are_named_by_number(i: u32)
    ensures
        name_of_cursor(i).len() > 12,
        name_of_cursor(i).take(12) == "dual-cursor-"@,
        crate::text::value_of(name_of_cursor(i).skip(12)) == i,
{
    reveal_strlit("dual-cursor-");
    crate::text::law_numerals_have_their_value(i as nat);
    assert(name_of_cursor(i).take(12) =~= "dual-cursor-"@);
    assert(name_of_cursor(i).skip(12) =~= crate::text::decimal(i as nat));
}

/// Among the events of a click is exactly one change of a key, that of the click with
/// its value, be it a press or a release. Before it the position of the click is set on
/// both axes and flushed; after it comes a synchronization, which ends the events.
pub proof fn law_a_click_changes_its_button_at_its_position(click: Click)
    ensures
        ({
            let evs = click.spec_events();
            &&& evs.len() == 5
            &&& forall|i: int| 0 <= i < 5 ==> ((#[trigger] evs[i]).kind == 1 <==> i == 3)
            &&& evs[3].code == click.code && evs[3].value == click.value
            &&& forall|i: int| 0 <= i < 5 ==> ((#[trigger] evs[i]).kind == 3 <==> i < 2)
            &&& evs[0].code == 0 && evs[0].value == click.x
            &&& evs[1].code == 1 && evs[1].value == click.y
            &&& forall|i: int|
                0 <= i < 5 && i != 3 && i >= 2 ==> (#[trigger] evs[i]).kind == 0 && evs[i].code == 0
                    && evs[i].value == 0
        }),
{
}

} // verus!
