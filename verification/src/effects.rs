//! What each event does, told field by field: what becomes of the state, what is asked
//! for, and when the event cannot be handled.
use crate::input::Msg;
use crate::model::{AppView, Fault};
use crate::protocol::{Event, Global, Request};
use vstd::prelude::*;

verus! {

/// Two half pixels are a pixel, and a half pixel that is left over is dropped, whichever
/// way the movement goes. What exceeds 32 bits ends at their range.
pub proof fn law_two_halves_make_a_pixel(halves: i64)
    ensures
        ({
            let pixels = crate::model::whole_pixels(halves);
            &&& 0 <= halves <= 0xFFFF_FFFF ==> pixels + pixels <= halves <= pixels + pixels + 1
            &&& -0x1_0000_0001 <= halves <= 0 ==> pixels + pixels - 1 <= halves <= pixels + pixels
            &&& halves > 0xFFFF_FFFF ==> pixels == 0x7FFF_FFFF
            &&& halves < -0x1_0000_0001 ==> pixels == -0x8000_0000
        }),
{
}

/// A movement and the opposite one are of the same length in pixels.
pub proof fn law_movements_are_symmetric(halves: i64)
    requires
        -0xFFFF_FFFF <= halves <= 0xFFFF_FFFF,
    ensures
        crate::model::whole_pixels((-halves) as i64) == -crate::model::whole_pixels(halves),
{
}

/// The position that a movement ends at is the one on the screen that is nearest to where
/// the movement leads.
pub proof fn law_movements_end_at_the_nearest_position(x: int, most: int, other: int)
    requires
        0 <= other <= most,
    ensures
        ({
            let end = crate::model::clamped(x, most);
            let far = if end <= x { x - end } else { end - x };
            let further = if other <= x { x - other } else { other - x };
            &&& 0 <= end <= most
            &&& far <= further
            &&& far == further ==> end == other
        }),
{
}

/// A quotient by a positive number is the whole number of times that the divisor goes
/// into the dividend, with the sign of the dividend.
pub proof fn law_quotients_are_rounded_toward_zero(a: int, b: int)
    requires
        b > 0,
    ensures
        ({
            let q = crate::model::quotient(a, b);
            &&& a >= 0 ==> 0 <= q <= a && b * q <= a < b * q + b
            &&& a <= 0 ==> a <= q <= 0 && b * q - b < a <= b * q
        }),
{
    let q = crate::model::quotient(a, b);
    let m = if a >= 0 { a } else { -a };
    vstd::arithmetic::div_mod::lemma_fundamental_div_mod(m, b);
    vstd::arithmetic::div_mod::lemma_div_pos_is_pos(m, b);
    vstd::arithmetic::div_mod::lemma_div_is_ordered_by_denominator(m, 1, b);
    vstd::arithmetic::div_mod::lemma_mod_pos_bound(m, b);
    assert(m / 1 == m);
    assert(b * (-(m / b)) == -(b * (m / b))) by (nonlinear_arith);
    assert(b * -0 == 0);
}

/// The program starts running, with nothing of the compositor, no cursors, no screen, a
/// scale of one and no virtual mice.
pub proof fn law_the_program_starts_with_nothing(cursor_size: u32)
    ensures
        ({
            let v = AppView::start(cursor_size);
            let o = v.objects;
            &&& v.running
            &&& v.cursor_size == cursor_size
            &&& v.cursors.len() == 0
            &&& v.screen_w == 0 && v.screen_h == 0
            &&& v.output_scale == 1
            &&& v.vdevices.len() == 2 && !v.vdevices[0] && !v.vdevices[1]
            &&& !o.compositor && !o.shm && !o.layer_shell && !o.output && !o.xdg_output_manager
            &&& !o.xdg_output && !o.seat && !o.pointer && !o.pointer_surface
        }),
{
}

/// A cursor that moves ends where the movement leads where that is on the screen, and at
/// the edge of the screen where the movement leads beyond it: at zero to the left and at
/// the top, at the last pixel to the right and at the bottom. Its surface is placed there.
/// Nothing else changes.
pub proof fn law_cursors_stop_at_the_edges(v: AppView, idx: usize, dx: i64, dy: i64)
    requires
        idx < v.cursors.len(),
        v.cursors[idx as int].configured,
        v.fault(Event::Input { msg: Msg::Move { idx, dx, dy } }) is None,
    ensures
        ({
            let event = Event::Input { msg: Msg::Move { idx, dx, dy } };
            let w = v.after(event);
            let r = v.requests(event);
            let from = v.cursors[idx as int];
            let to = w.cursors[idx as int];
            let x = from.x + crate::model::whole_pixels(dx);
            let y = from.y + crate::model::whole_pixels(dy);
            &&& 0 <= x <= v.screen_w - 1 ==> to.x == x
            &&& x < 0 ==> to.x == 0
            &&& x > v.screen_w - 1 ==> to.x == v.screen_w - 1
            &&& 0 <= y <= v.screen_h - 1 ==> to.y == y
            &&& y < 0 ==> to.y == 0
            &&& y > v.screen_h - 1 ==> to.y == v.screen_h - 1
            &&& to.surface == from.surface && to.configured
            &&& w.cursors.len() == v.cursors.len()
            &&& forall|i: int|
                0 <= i < v.cursors.len() && i != idx ==> #[trigger] w.cursors[i] == v.cursors[i]
            &&& w == (AppView { cursors: w.cursors, ..v })
            &&& r.len() == 1
            &&& r[0] matches Request::Place { idx: placed, margin } && placed == idx && margin.left
                == to.x && margin.top == to.y && margin.right == 0 && margin.bottom == 0
        }),
{
}

/// A cursor that is not there, or not configured yet, does not move, and nothing is asked
/// for.
pub proof fn law_unconfigured_cursors_do_not_move(v: AppView, idx: usize, dx: i64, dy: i64)
    requires
        idx >= v.cursors.len() || !v.cursors[idx as int].configured,
    ensures
        ({
            let event = Event::Input { msg: Msg::Move { idx, dx, dy } };
            &&& v.fault(event) is None
            &&& v.after(event) == v
            &&& v.requests(event).len() == 0
        }),
{
}

/// A movement of a configured cursor cannot be handled exactly where there is no screen
/// to move on, or where the position that it leads to is no number of 32 bits.
pub proof fn law_movements_fail_out_of_range(v: AppView, idx: usize, dx: i64, dy: i64)
    requires
        idx < v.cursors.len(),
        v.cursors[idx as int].configured,
    ensures
        ({
            let fault = v.fault(Event::Input { msg: Msg::Move { idx, dx, dy } });
            let x = v.cursors[idx as int].x + crate::model::whole_pixels(dx);
            let y = v.cursors[idx as int].y + crate::model::whole_pixels(dy);
            if v.screen_w > 0 && v.screen_h > 0 && -0x8000_0000 <= x <= 0x7FFF_FFFF && -0x8000_0000
                <= y <= 0x7FFF_FFFF {
                fault is None
            } else {
                fault == Some(Fault::MoveRange)
            }
        }),
{
}

/// A change of a button is emitted once, at the position of the cursor and from its own
/// virtual mouse, with the code and the value that it came with; where the cursor or its
/// virtual mouse is missing, nothing is emitted. The state stays as it is.
pub proof fn law_buttons_are_emitted_unaltered(v: AppView, idx: usize, code: u16, value: i32)
    requires
        v.vdevices.len() == 2,
        v.cursors.len() <= 2,
    ensures
        ({
            let event = Event::Input { msg: Msg::Button { idx, code, value } };
            let r = v.requests(event);
            &&& v.fault(event) is None
            &&& v.after(event) == v
            &&& r.len() == (if idx < v.cursors.len() && v.vdevices[idx as int] { 1nat } else { 0 })
            &&& r.len() == 1 ==> (r[0] matches Request::Emit { idx: from, click } && from == idx
                && click.x == v.cursors[idx as int].x && click.y == v.cursors[idx as int].y
                && click.code == code && click.value == value)
        }),
{
}

/// Whenever the real pointer enters a surface it is hidden, whatever the state, with the
/// serial of its entry. Nothing else is asked for, and the state stays as it is.
pub proof fn law_the_real_pointer_is_hidden_on_entry(v: AppView, serial: u32)
    ensures
        ({
            let event = Event::PointerEnter { serial };
            let r = v.requests(event);
            &&& v.fault(event) is None
            &&& v.after(event) == v
            &&& r.len() == 1
            &&& r[0] matches Request::HidePointer { serial: s } && s == serial
        }),
{
}

/// The pointer of the seat is asked for where the seat has one and it is not held yet.
/// Nothing else changes.
pub proof fn law_the_pointer_is_taken_from_a_seat_that_has_one(
    v: AppView,
    capabilities: Option<u32>,
)
    ensures
        ({
            let event = Event::Capabilities { capabilities };
            let w = v.after(event);
            let r = v.requests(event);
            let offered = capabilities is Some && capabilities->0 % 2 == 1;
            &&& v.fault(event) is None
            &&& w.objects.pointer == (v.objects.pointer || offered)
            &&& w.objects == (crate::model::Objects { pointer: w.objects.pointer, ..v.objects })
            &&& w == (AppView { objects: w.objects, ..v })
            &&& offered && !v.objects.pointer ==> r.len() == 1 && r[0] is GetPointer
            &&& !offered || v.objects.pointer ==> r.len() == 0
        }),
{
    if let Some(bits) = capabilities {
        crate::protocol::law_the_lowest_bit_is_oddness(bits);
    }
}

/// The scale of the output is kept as it was told, and nothing else changes.
pub proof fn law_the_scale_is_kept(v: AppView, factor: i32)
    ensures
        ({
            let event = Event::Scale { factor };
            &&& v.fault(event) is None
            &&& v.after(event).output_scale == factor
            &&& v.after(event) == (AppView { output_scale: factor, ..v })
            &&& v.requests(event).len() == 0
        }),
{
}

/// A closed surface, or the end of the mice, stops the program; nothing else changes.
pub proof fn law_the_program_stops_when_it_must(v: AppView, event: Event)
    requires
        event is Closed || event is Disconnected,
    ensures
        v.fault(event) is None,
        !v.after(event).running,
        v.after(event) == (AppView { running: false, ..v }),
        v.requests(event).len() == 0,
{
}

/// A configured surface of a cursor is acknowledged and then shown at the position of the
/// cursor, with the whole image as its damage; the cursor counts as configured from then
/// on and stays where it is. Any other surface is acknowledged only.
pub proof fn law_configured_cursors_are_shown(v: AppView, surface: u32, serial: u32)
    requires
        v.cursors.len() <= 2,
    ensures
        ({
            let event = Event::Configure { surface, serial };
            let w = v.after(event);
            let r = v.requests(event);
            let i = surface as int;
            &&& v.fault(event) is None
            &&& w == (AppView { cursors: w.cursors, ..v })
            &&& w.cursors.len() == v.cursors.len()
            &&& forall|j: int|
                0 <= j < v.cursors.len() && j != i ==> #[trigger] w.cursors[j] == v.cursors[j]
            &&& r.len() == (if i < v.cursors.len() { 2nat } else { 1 })
            &&& r[0] matches Request::AckConfigure { surface: s, serial: n } && s == surface && n
                == serial
            &&& i < v.cursors.len() ==> {
                let c = v.cursors[i];
                &&& w.cursors[i].configured
                &&& w.cursors[i].x == c.x && w.cursors[i].y == c.y
                &&& w.cursors[i].surface == c.surface
                &&& (r[1] matches Request::Show { idx, margin, damage } && idx == i && margin.left
                    == c.x && margin.top == c.y && margin.right == 0 && margin.bottom == 0
                    && damage.x == 0 && damage.y == 0 && damage.width == v.cursor_size as i32
                    && damage.height == v.cursor_size as i32)
            }
        }),
{
}

/// A cursor is shown at its position with the whole image as its damage; where there is
/// no such cursor nothing is asked for.
pub proof fn law_cursors_are_shown_where_they_are(v: AppView, idx: usize)
    ensures
        ({
            let r = v.show_requests(idx as int);
            &&& idx >= v.cursors.len() ==> r.len() == 0
            &&& idx < v.cursors.len() ==> {
                let c = v.cursors[idx as int];
                &&& r.len() == 1
                &&& (r[0] matches Request::Show { idx: shown, margin, damage } && shown == idx
                    && margin.left == c.x && margin.top == c.y && margin.right == 0
                    && margin.bottom == 0 && damage.x == 0 && damage.y == 0 && damage.width
                    == v.cursor_size as i32 && damage.height == v.cursor_size as i32)
            }
        }),
{
}

/// The cursors are created where they are not there yet, both lengths of the screen are
/// known, and the compositor, its memory, its layers and an output are held.
pub proof fn law_cursors_are_created_when_all_is_there(v: AppView)
    requires
        v.cursors.len() == 0 || v.cursors.len() == 2,
    ensures
        ({
            let o = v.objects;
            let w = v.with_cursors();
            let ready = v.screen_w != 0 && v.screen_h != 0 && o.compositor && o.shm
                && o.layer_shell && o.output;
            &&& w == (AppView { cursors: w.cursors, ..v })
            &&& v.cursors.len() == 2 || !ready ==> w == v && v.cursor_requests().len() == 0
            &&& v.cursors.len() == 0 && ready ==> w.cursors.len() == 2
                && v.cursor_requests().len() == 2
        }),
{
}

/// The cursors start in the middle of the left and of the right half of the screen, at
/// half its height: at a quarter and at three quarters of the width, in whole pixels.
pub proof fn law_cursors_start_in_their_halves(v: AppView)
    requires
        v.creates_cursors(),
        v.start_fits(),
        v.cursors.len() == 0,
    ensures
        ({
            let a = v.with_cursors().cursors[0];
            let b = v.with_cursors().cursors[1];
            &&& a.surface == 0 && b.surface == 1
            &&& !a.configured && !b.configured
            &&& a.y == b.y
            &&& v.screen_w > 0 ==> {
                &&& 4 * a.x <= v.screen_w < 4 * a.x + 4
                &&& 4 * b.x <= 3 * v.screen_w < 4 * b.x + 4
            }
            &&& v.screen_w < 0 ==> {
                &&& 4 * a.x - 4 < v.screen_w <= 4 * a.x
                &&& 4 * b.x - 4 < 3 * v.screen_w <= 4 * b.x
            }
            &&& v.screen_h > 0 ==> 2 * a.y <= v.screen_h < 2 * a.y + 2
            &&& v.screen_h < 0 ==> 2 * a.y - 2 < v.screen_h <= 2 * a.y
        }),
{
}

/// The two cursors are asked for in order, each with its own surface of the size of the
/// cursor image, on the top layer and open to clicks.
pub proof fn law_cursor_surfaces_fit_the_image(v: AppView, i: int)
    requires
        0 <= i < v.cursor_requests().len(),
    ensures
        v.cursor_requests()[i] matches Request::CreateCursor { idx, setup } && {
            &&& idx == i
            &&& setup.surface == i
            &&& setup.size == Some(v.cursor_size)
            &&& setup.layer is Overlay
            &&& setup.anchor.top && setup.anchor.left
            &&& !setup.anchor.bottom && !setup.anchor.right
            &&& setup.exclusive_zone == -1
            &&& !setup.keyboard
            &&& setup.click_through
        },
{
}

/// Whatever the event, each cursor surface that it asks for has the size of the cursor
/// image that the program was started with.
pub proof fn law_every_cursor_surface_has_the_image_size(v: AppView, event: Event, i: int)
    requires
        0 <= i < v.requests(event).len(),
        v.requests(event)[i] is CreateCursor,
    ensures
        v.requests(event)[i]->CreateCursor_setup.size == Some(v.cursor_size),
        v.requests(event)[i]->CreateCursor_setup.surface
            == v.requests(event)[i]->CreateCursor_idx,
        v.requests(event)[i]->CreateCursor_idx < 2,
        v.after(event).cursor_size == v.cursor_size,
{
    let p = v.prepared(event);
    let r = v.requests(event);
    let c = p.cursor_requests();
    match event {
        Event::Global { name, interface, version } => {
            let b = v.bind_requests(name, crate::protocol::global_of(interface@), version);
            let h = p.with_cursors().hider_requests();
            if i < b.len() {
                assert(r[i] == b[i]);
            } else if i < b.len() + c.len() {
                assert(r[i] == c[i - b.len()]);
            } else {
                assert(r[i] == h[i - b.len() - c.len()]);
            }
        },
        Event::Mode { .. } | Event::LogicalSize { .. } => {
            if i >= 2 {
                assert(r[i] == c[i - 2]);
            }
        },
        _ => {},
    }
}

/// The hider is created where it is not there yet and the compositor, its layers, an
/// output and a seat are held. The pointer is asked for before it, where it is not held.
pub proof fn law_the_hider_is_created_with_the_pointer(v: AppView)
    ensures
        ({
            let o = v.objects;
            let w = v.with_hider();
            let r = v.hider_requests();
            let creates = !o.pointer_surface && o.compositor && o.layer_shell && o.output && o.seat;
            &&& !creates ==> w == v && r.len() == 0
            &&& creates ==> {
                &&& w.objects.pointer && w.objects.pointer_surface
                &&& w.objects == (crate::model::Objects { pointer: true, pointer_surface: true, ..o })
                &&& w == (AppView { objects: w.objects, ..v })
                &&& r.len() == (if o.pointer { 1nat } else { 2 })
                &&& !o.pointer ==> r[0] is GetPointer
                &&& (r.last() matches Request::CreateHider { setup } && setup.surface == 2
                    && setup.layer is Bottom && setup.size is None && setup.exclusive_zone == -1
                    && !setup.keyboard && !setup.click_through && setup.anchor.top
                    && setup.anchor.bottom && setup.anchor.left && setup.anchor.right)
            }
        }),
{
}

/// An offer makes the program hold the object that its interface names, and no other;
/// what it then holds decides whether the logical output, the cursors and the hider are
/// there. Nothing else of the state changes.
pub proof fn law_an_offer_is_taken_by_its_interface(
    v: AppView,
    name: u32,
    interface: String,
    version: u32,
)
    requires
        v.wf(),
    ensures
        ({
            let event = Event::Global { name, interface, version };
            let w = v.after(event);
            let s = interface@;
            let o = v.objects;
            let n = w.objects;
            let ready = v.screen_w != 0 && v.screen_h != 0 && n.compositor && n.shm
                && n.layer_shell && n.output;
            let hides = n.compositor && n.layer_shell && n.output && n.seat;
            &&& n.compositor == (o.compositor || s == "wl_compositor"@)
            &&& n.shm == (o.shm || s == "wl_shm"@)
            &&& n.layer_shell == (o.layer_shell || s == "zwlr_layer_shell_v1"@)
            &&& n.output == (o.output || s == "wl_output"@)
            &&& n.xdg_output_manager == (o.xdg_output_manager || s == "zxdg_output_manager_v1"@)
            &&& n.seat == (o.seat || s == "wl_seat"@)
            &&& n.xdg_output == (n.output && n.xdg_output_manager)
            &&& n.pointer_surface == (o.pointer_surface || hides)
            &&& n.pointer == (o.pointer || hides)
            &&& w == (AppView { objects: n, cursors: w.cursors, ..v })
            &&& v.cursors.len() == 2 || !ready ==> w.cursors == v.cursors
            &&& v.cursors.len() == 0 && ready ==> w.cursors.len() == 2
        }),
{
    crate::protocol::law_interfaces_name_their_objects(interface@);
}

/// An offer is bound first of all, under its name: the first output and the first seat
/// only, the others whenever they are offered. The logical output is asked for next, where
/// an output and an output manager come together. What creates the cursors and then the
/// hider follows, and nothing else.
pub proof fn law_an_offer_is_bound_by_its_interface(
    v: AppView,
    name: u32,
    interface: String,
    version: u32,
)
    requires
        v.wf(),
    ensures
        ({
            let event = Event::Global { name, interface, version };
            let r = v.requests(event);
            let n = v.after(event).objects;
            let o = v.objects;
            let s = interface@;
            let output = s == "wl_output"@ && !o.output;
            let seat = s == "wl_seat"@ && !o.seat;
            let manager = s == "zxdg_output_manager_v1"@;
            let binds = s == "wl_compositor"@ || s == "wl_shm"@ || s == "zwlr_layer_shell_v1"@
                || manager || output || seat;
            let asks = (output && o.xdg_output_manager) || (manager && o.output);
            let creates = v.cursors.len() == 0 && v.after(event).cursors.len() == 2;
            let hides = !o.pointer_surface && n.pointer_surface;
            let at: int = (if binds { 1int } else { 0 }) + (if asks { 1int } else { 0 });
            let last: int = at + (if creates { 2int } else { 0 });
            &&& s == "wl_compositor"@ ==> r[0] == (Request::Bind {
                name,
                global: Global::Compositor,
                version: 1,
            })
            &&& s == "wl_shm"@ ==> r[0] == (Request::Bind { name, global: Global::Shm, version: 1 })
            &&& output ==> r[0] == (Request::Bind { name, global: Global::Output, version: 2 })
            &&& seat ==> r[0] == (Request::Bind { name, global: Global::Seat, version: 1 })
            &&& s == "zwlr_layer_shell_v1"@ ==> r[0] == (Request::Bind {
                name,
                global: Global::LayerShell,
                version: if version <= 4 { version } else { 4 },
            })
            &&& manager ==> r[0] == (Request::Bind {
                name,
                global: Global::XdgOutputManager,
                version: if version <= 3 { version } else { 3 },
            })
            &&& asks ==> r[1] is GetXdgOutput
            &&& creates ==> r[at] is CreateCursor && r[at]->CreateCursor_idx == 0
            &&& creates ==> r[at + 1] is CreateCursor && r[at + 1]->CreateCursor_idx == 1
            &&& hides && !o.pointer ==> r[last] is GetPointer && r[last + 1] is CreateHider
            &&& hides && o.pointer ==> r[last] is CreateHider
            &&& r.len() == last + (if !hides { 0int } else if o.pointer { 1 } else { 2 })
        }),
{
    let event = Event::Global { name, interface, version };
    crate::protocol::law_interfaces_name_their_objects(interface@);
    crate::protocol::law_versions_are_known_ones(version);
    let g = crate::protocol::global_of(interface@);
    let p = v.prepared(event);
    let b = v.bind_requests(name, g, version);
    let c = p.cursor_requests();
    let h = p.with_cursors().hider_requests();
    let r = v.requests(event);
    assert(r == b + c + h);
    assert(b.len() > 0 ==> r[0] == b[0]);
    assert(b.len() > 1 ==> r[1] == b[1]);
    assert(c.len() > 0 ==> r[b.len() as int] == c[0]);
    assert(c.len() > 1 ==> r[b.len() as int + 1] == c[1]);
    assert(h.len() > 0 ==> r[(b.len() + c.len()) as int] == h[0]);
    assert(h.len() > 1 ==> r[(b.len() + c.len()) as int + 1] == h[1]);
}

/// An offer, or a size of the screen, cannot be handled exactly where it would have the
/// cursors created on a screen three times whose width is no number of 32 bits.
pub proof fn law_only_too_wide_screens_fail(v: AppView, event: Event)
    requires
        v.wf(),
        event is Global || event is LogicalSize,
    ensures
        ({
            let w = v.after(event);
            let creates = v.cursors.len() == 0 && w.cursors.len() == 2;
            if creates && !(-0x8000_0000 <= 3 * w.screen_w <= 0x7FFF_FFFF) {
                v.fault(event) == Some(Fault::StartPosition)
            } else {
                v.fault(event) is None
            }
        }),
{
}

/// The logical size becomes the size of the screen. Both virtual mice are asked for, for a
/// screen of just this size, and after them the cursors, where they are created now. Where
/// they were there before they stay where they are.
pub proof fn law_the_logical_size_is_the_screen(v: AppView, width: i32, height: i32)
    requires
        v.wf(),
    ensures
        ({
            let event = Event::LogicalSize { width, height };
            let w = v.after(event);
            let r = v.requests(event);
            let o = v.objects;
            let ready = width != 0 && height != 0 && o.compositor && o.shm && o.layer_shell
                && o.output;
            let creates = v.cursors.len() == 0 && ready;
            &&& w.screen_w == width && w.screen_h == height
            &&& w == (AppView { screen_w: width, screen_h: height, cursors: w.cursors, ..v })
            &&& !creates ==> w.cursors == v.cursors
            &&& creates ==> w.cursors.len() == 2
            &&& r.len() == (if creates { 4nat } else { 2 })
            &&& r[0] == (Request::CreateVirtualMouse { idx: 0, width, height })
            &&& r[1] == (Request::CreateVirtualMouse { idx: 1, width, height })
            &&& creates ==> r[2] is CreateCursor && r[2]->CreateCursor_idx == 0
            &&& creates ==> r[3] is CreateCursor && r[3]->CreateCursor_idx == 1
        }),
{
    let event = Event::LogicalSize { width, height };
    let c = v.prepared(event).cursor_requests();
    assert(c.len() > 0 ==> v.requests(event)[2] == c[0]);
    assert(c.len() > 1 ==> v.requests(event)[3] == c[1]);
}

/// The current mode says the size of the screen as long as nothing has: its physical
/// pixels divided by the scale, a scale below one being taken for one. It then does what
/// the logical size of that many pixels would do.
pub proof fn law_the_current_mode_is_divided_by_the_scale(
    v: AppView,
    flags: u32,
    width: i32,
    height: i32,
)
    requires
        flags % 2 == 1,
        v.screen_w == 0,
    ensures
        ({
            let mode = Event::Mode { flags: Some(flags), width, height };
            let w = v.after(mode);
            let size = Event::LogicalSize { width: w.screen_w, height: w.screen_h };
            let scale: int = if v.output_scale >= 1 { v.output_scale as int } else { 1 };
            &&& width >= 0 ==> scale * w.screen_w <= width < scale * w.screen_w + scale
            &&& width < 0 ==> scale * w.screen_w - scale < width <= scale * w.screen_w
            &&& height >= 0 ==> scale * w.screen_h <= height < scale * w.screen_h + scale
            &&& height < 0 ==> scale * w.screen_h - scale < height <= scale * w.screen_h
            &&& w == v.after(size)
            &&& v.requests(mode) == v.requests(size)
            &&& v.fault(mode) == v.fault(size)
        }),
{
    crate::protocol::law_the_lowest_bit_is_oddness(flags);
    law_quotients_are_rounded_toward_zero(width as int, v.divisor());
    law_quotients_are_rounded_toward_zero(height as int, v.divisor());
}

/// A mode that is not the current one, or whose flags are unknown, or that comes when the
/// width of the screen is known, does nothing.
pub proof fn law_other_modes_do_nothing(v: AppView, flags: Option<u32>, width: i32, height: i32)
    requires
        flags is None || flags->0 % 2 == 0 || v.screen_w != 0,
    ensures
        ({
            let event = Event::Mode { flags, width, height };
            &&& v.fault(event) is None
            &&& v.after(event) == v
            &&& v.requests(event).len() == 0
        }),
{
    if let Some(bits) = flags {
        crate::protocol::law_the_lowest_bit_is_oddness(bits);
    }
}

/// At the end of the preparations a screen that lacks a length gets the default size, and
/// a known one is kept. Each missing virtual mouse is asked for once, for that screen, and
/// none that is there.
pub proof fn law_startup_fills_in_what_is_missing(v: AppView, idx: int)
    requires
        v.vdevices.len() == 2,
        0 <= idx < 2,
    ensures
        ({
            let w = v.with_default_screen();
            let lacks = v.screen_w == 0 || v.screen_h == 0;
            let r = w.missing_mouse(idx);
            &&& v.lacks_screen() == lacks
            &&& lacks ==> w.screen_w == 3840 && w.screen_h == 2160
            &&& !lacks ==> w == v
            &&& w == (AppView { screen_w: w.screen_w, screen_h: w.screen_h, ..v })
            &&& v.vdevices[idx] ==> r.len() == 0
            &&& !v.vdevices[idx] ==> r.len() == 1
            &&& !v.vdevices[idx] ==> (r[0] matches Request::CreateVirtualMouse {
                idx: i,
                width,
                height,
            } && i == idx && width == w.screen_w && height == w.screen_h)
        }),
{
}

} // verus!
