//! What holds of the program as a whole, whatever it hears and in whatever order.
use crate::input::{
    MouseReader, Msg, RawEvent, Summary, BTN_LEFT, EV_REL, EV_SYN, REL_X, REL_Y, SPEED,
};
use crate::model::{AppView, Cursor, Objects};
use crate::protocol::{Event, Global, Request, HIDER};
use crate::virtual_mouse::{Click, ABS_X, ABS_Y};
use vstd::prelude::*;

verus! {

/// Something that changes the program's state.
pub enum Step {
    /// An event is heard.
    Heard(Event),
    /// An attempt to create the virtual mouse of a cursor has come to an end.
    Mouse(usize, bool),
    /// The preparations end.
    Started,
}

impl AppView {
    /// The state after a step. An event that cannot be handled changes nothing.
    pub open spec fn stepped(self, step: Step) -> AppView {
        match step {
            Step::Heard(event) => if self.fault(event) is None {
                self.after(event)
            } else {
                self
            },
            Step::Mouse(idx, created) => if idx < 2 {
                AppView { vdevices: self.vdevices.update(idx as int, created), ..self }
            } else {
                self
            },
            Step::Started => self.with_default_screen(),
        }
    }

    /// The state after steps, one after the other.
    pub open spec fn stepped_all(self, steps: Seq<Step>) -> AppView
        decreases steps.len(),
    {
        if steps.len() == 0 {
            self
        } else {
            self.stepped_all(steps.drop_last()).stepped(steps.last())
        }
    }

    /// Whether cursor `c` is on the screen.
    pub open spec fn shows(self, c: Cursor) -> bool {
        0 <= c.x < self.screen_w && 0 <= c.y < self.screen_h
    }
}

/// What the state's invariant says holds in every state that the program can come to.
pub proof fn law_every_state_is_well_formed(cursor_size: u32, steps: Seq<Step>)
    ensures
        AppView::start(cursor_size).stepped_all(steps).wf(),
    decreases steps.len(),
{
    if steps.len() > 0 {
        law_every_state_is_well_formed(cursor_size, steps.drop_last());
        lemma_step_keeps_wf(
            AppView::start(cursor_size).stepped_all(steps.drop_last()),
            steps.last(),
        );
    }
}

/// A step keeps the invariant.
proof fn lemma_step_keeps_wf(v: AppView, step: Step)
    requires
        v.wf(),
    ensures
        v.stepped(step).wf(),
{
}

/// The requests that the offer of a global object leads to: to bind it, to create the
/// cursors, and to create the hider.
proof fn lemma_global_requests(v: AppView, event: Event)
    requires
        event is Global,
    ensures
        forall|i: int|
            0 <= i < v.requests(event).len() ==> match #[trigger] v.requests(event)[i] {
                Request::Bind { .. } | Request::GetXdgOutput => true,
                Request::CreateCursor { .. } => v.prepared(event).creates_cursors(),
                Request::GetPointer => v.prepared(event).creates_hider()
                    && !v.objects.pointer,
                Request::CreateHider { .. } => v.prepared(event).creates_hider(),
                _ => false,
            },
{
    if let Event::Global { name, interface, version } = event {
        let g = crate::protocol::global_of(interface@);
        let b = v.bind_requests(name, g, version);
        let p = v.prepared(event);
        let c = p.cursor_requests();
        let h = p.with_cursors().hider_requests();
        let r = v.requests(event);
        assert forall|i: int| 0 <= i < r.len() implies match #[trigger] r[i] {
            Request::Bind { .. } | Request::GetXdgOutput => true,
            Request::CreateCursor { .. } => p.creates_cursors(),
            Request::GetPointer => p.creates_hider() && !v.objects.pointer,
            Request::CreateHider { .. } => p.creates_hider(),
            _ => false,
        } by {
            if i < b.len() {
                assert(r[i] == b[i]);
            } else if i < b.len() + c.len() {
                assert(r[i] == c[i - b.len()]);
            } else {
                assert(r[i] == h[i - b.len() - c.len()]);
            }
        }
    }
}

/// The two cursors are created together and once, with one request each and only when
/// the size of the screen is known; then there are two of them for good.
pub proof fn law_cursors_are_created_once(v: AppView, event: Event)
    requires
        v.wf(),
        v.fault(event) is None,
    ensures
        v.after(event).cursors.len() >= v.cursors.len(),
        forall|i: int|
            0 <= i < v.requests(event).len() && #[trigger] v.requests(event)[i] is CreateCursor
                ==> {
                &&& v.cursors.len() == 0
                &&& v.after(event).cursors.len() == 2
                &&& v.after(event).screen_w != 0
                &&& v.after(event).screen_h != 0
            },
        v.cursors.len() == 0 && v.after(event).cursors.len() == 2 ==> exists|i: int|
            {
                &&& 0 <= i && i + 1 < v.requests(event).len()
                &&& #[trigger] v.requests(event)[i] == (Request::CreateCursor {
                    idx: 0,
                    setup: crate::protocol::cursor_setup(0, v.cursor_size),
                })
                &&& v.requests(event)[i + 1] == (Request::CreateCursor {
                    idx: 1,
                    setup: crate::protocol::cursor_setup(1, v.cursor_size),
                })
            },
{
    let p = v.prepared(event);
    let r = v.requests(event);
    if event is Global {
        lemma_global_requests(v, event);
    }
    if v.cursors.len() == 0 && v.after(event).cursors.len() == 2 {
        assert(p.creates_cursors());
        match event {
            Event::Global { name, interface, version } => {
                let b = v.bind_requests(name, crate::protocol::global_of(interface@), version);
                let i = b.len() as int;
                assert(r[i] == p.cursor_requests()[0]);
                assert(r[i + 1] == p.cursor_requests()[1]);
            },
            _ => {
                assert(r[2] == p.cursor_requests()[0]);
                assert(r[3] == p.cursor_requests()[1]);
            },
        }
    }
}

/// A cursor that moves stays on the screen. Where its way does not lead off the
/// screen it moves by exactly the whole pixels of the movement.
pub proof fn law_cursors_stay_on_the_screen(v: AppView, idx: usize, dx: i64, dy: i64)
    requires
        v.moves(idx),
        v.move_fits(idx, dx, dy),
    ensures
        ({
            let from = v.cursors[idx as int];
            let to = v.moved(idx, dx, dy).cursors[idx as int];
            let x = from.x + crate::model::whole_pixels(dx);
            let y = from.y + crate::model::whole_pixels(dy);
            &&& v.moved(idx, dx, dy).shows(to)
            &&& 0 <= x < v.screen_w ==> to.x == x
            &&& 0 <= y < v.screen_h ==> to.y == y
        }),
{
}

/// The axes do not disturb each other: to move along both at once is to move along one
/// and then along the other.
pub proof fn law_axes_are_independent(v: AppView, idx: usize, dx: i64, dy: i64)
    requires
        v.moves(idx),
        v.shows(v.cursors[idx as int]),
        v.move_fits(idx, dx, dy),
    ensures
        v.move_fits(idx, dx, 0),
        v.moved(idx, dx, 0).move_fits(idx, 0, dy),
        v.moved(idx, dx, dy) == v.moved(idx, dx, 0).moved(idx, 0, dy),
{
    assert(v.moved(idx, dx, dy) =~= v.moved(idx, dx, 0).moved(idx, 0, dy));
}

/// The cursors are independent: a message of one mouse changes nothing of the other
/// cursor, and asks nothing for it.
pub proof fn law_cursors_are_independent(v: AppView, msg: Msg, other: int)
    requires
        0 <= other < v.cursors.len(),
        other != crate::input::addressee(msg),
    ensures
        ({
            let event = Event::Input { msg };
            &&& v.after(event).cursors.len() == v.cursors.len()
            &&& v.after(event).cursors[other] == v.cursors[other]
            &&& v.after(event).objects == v.objects
            &&& v.after(event).vdevices == v.vdevices
            &&& forall|i: int| 0 <= i < v.requests(event).len() ==> match #[trigger] v.requests(
                event,
            )[i] {
                Request::Place { idx, .. } => idx == crate::input::addressee(msg),
                Request::Emit { idx, .. } => idx == crate::input::addressee(msg),
                _ => false,
            }
        }),
{
}

/// A button clicks where its cursor is, and moves nothing.
pub proof fn law_clicks_hit_the_cursor(v: AppView, idx: usize, code: u16, value: i32)
    requires
        v.wf(),
        idx < v.cursors.len(),
        v.vdevices[idx as int],
    ensures
        ({
            let event = Event::Input { msg: Msg::Button { idx, code, value } };
            let c = v.cursors[idx as int];
            &&& v.fault(event) is None
            &&& v.after(event) == v
            &&& v.requests(event) == seq![
                Request::Emit { idx, click: Click { x: c.x, y: c.y, code, value } },
            ]
        }),
{
}

/// A click of a cursor that is on the screen lies within the axes of a virtual mouse
/// that was made for the screen.
pub proof fn law_clicks_are_in_range(v: AppView, c: Cursor)
    requires
        v.shows(c),
    ensures
        ({
            let x = crate::virtual_mouse::screen_axis(ABS_X, v.screen_w);
            let y = crate::virtual_mouse::screen_axis(ABS_Y, v.screen_h);
            &&& x.minimum <= c.x <= x.maximum
            &&& y.minimum <= c.y <= y.maximum
        }),
{
}

/// Virtual mice are made for the screen as it is.
pub proof fn law_virtual_mice_fit_the_screen(v: AppView, event: Event)
    requires
        v.wf(),
        v.fault(event) is None,
    ensures
        forall|i: int|
            0 <= i < v.requests(event).len() ==> match #[trigger] v.requests(event)[i] {
                Request::CreateVirtualMouse { idx, width, height } => {
                    &&& idx < 2
                    &&& width == v.after(event).screen_w
                    &&& height == v.after(event).screen_h
                },
                _ => true,
            },
{
    if event is Global {
        lemma_global_requests(v, event);
    }
}

/// The logical size of the screen counts, whether a mode comes before it or after it.
pub proof fn law_the_logical_size_counts(
    v: AppView,
    flags: Option<u32>,
    mode_w: i32,
    mode_h: i32,
    width: i32,
    height: i32,
)
    requires
        width != 0,
    ensures
        ({
            let mode = Event::Mode { flags, width: mode_w, height: mode_h };
            let size = Event::LogicalSize { width, height };
            let late = v.after(size).after(mode);
            let early = v.after(mode).after(size);
            &&& late.screen_w == width && late.screen_h == height
            &&& early.screen_w == width && early.screen_h == height
        }),
{
}

/// It does not matter in which order two global objects are bound.
proof fn lemma_bindings_commute(o: Objects, a: Option<Global>, b: Option<Global>)
    requires
        o.xdg_output == (o.output && o.xdg_output_manager),
    ensures
        o.with_global(a).with_global(b) == o.with_global(b).with_global(a),
{
}

/// What an offered global object leads to can wait until the next one is bound too.
proof fn lemma_creation_can_wait(v: AppView, b: Option<Global>)
    requires
        v.wf(),
    ensures
        v.with_cursors().with_hider().bound(b).with_cursors().with_hider() == v.bound(
            b,
        ).with_cursors().with_hider(),
{
    let o = v.objects;
    let p = o.with_global(b);
    assert(p.compositor || !o.compositor);
    assert(p.shm || !o.shm);
    assert(p.layer_shell || !o.layer_shell);
    assert(p.output || !o.output);
    assert(p.seat || !o.seat);
    let late = v.bound(b).with_cursors().with_hider();
    let early = v.with_cursors().with_hider().bound(b).with_cursors().with_hider();
    assert(early.objects == late.objects);
    assert(early.cursors =~= late.cursors);
    assert(early =~= late);
}

/// It does not matter in which order the compositor offers its global objects.
pub proof fn law_the_order_of_globals_does_not_matter(v: AppView, a: Event, b: Event)
    requires
        v.wf(),
        a is Global,
        b is Global,
    ensures
        v.after(a).after(b) == v.after(b).after(a),
{
    let ga = crate::protocol::global_of(a->Global_interface@);
    let gb = crate::protocol::global_of(b->Global_interface@);
    assert(v.bound(ga).wf() && v.bound(gb).wf());
    lemma_creation_can_wait(v.bound(ga), gb);
    lemma_creation_can_wait(v.bound(gb), ga);
    lemma_bindings_commute(v.objects, ga, gb);
}

/// The logical output is asked for exactly when the second of the two objects that it
/// needs is bound, whichever that is.
pub proof fn law_the_logical_output_needs_both(v: AppView, event: Event)
    requires
        v.wf(),
        event is Global,
        !v.objects.xdg_output,
    ensures
        v.after(event).objects.xdg_output <==> v.requests(event).contains(Request::GetXdgOutput),
{
    if let Event::Global { name, interface, version } = event {
        let g = crate::protocol::global_of(interface@);
        let b = v.bind_requests(name, g, version);
        let p = v.prepared(event);
        let r = v.requests(event);
        if v.after(event).objects.xdg_output {
            assert(b[1] == Request::GetXdgOutput);
            assert(r[1] == Request::GetXdgOutput);
        } else {
            assert forall|i: int| 0 <= i < r.len() implies r[i] != Request::GetXdgOutput by {
                if i < b.len() {
                    assert(r[i] == b[i]);
                } else if i < b.len() + p.cursor_requests().len() {
                    assert(r[i] == p.cursor_requests()[i - b.len()]);
                } else {
                    assert(r[i] == p.with_cursors().hider_requests()[i - b.len()
                        - p.cursor_requests().len()]);
                }
            }
        }
    }
}

/// On a screen that has any pixels the cursors start on the screen, the first one not
/// right of the second.
pub proof fn law_cursors_start_on_the_screen(v: AppView)
    requires
        v.screen_w >= 1,
        v.screen_h >= 1,
        crate::model::is_i32(3 * v.screen_w),
    ensures
        v.shows(v.start_cursor(0)),
        v.shows(v.start_cursor(1)),
        v.start_cursor(0).x <= v.start_cursor(1).x,
        v.start_cursor(0).y == v.start_cursor(1).y,
{
}

/// The program stops for good, and only because a surface was closed or because the
/// mice are gone.
pub proof fn law_stopping_is_final(v: AppView, step: Step)
    ensures
        !v.running ==> !v.stepped(step).running,
        v.running && !v.stepped(step).running ==> (step matches Step::Heard(event) && (
        event is Closed || event is Disconnected)),
{
}

/// The pointer is asked for once, and the hider is created once, with the pointer at
/// hand.
pub proof fn law_the_pointer_is_taken_once(v: AppView, event: Event)
    requires
        v.wf(),
        v.fault(event) is None,
    ensures
        forall|i: int|
            0 <= i < v.requests(event).len() && #[trigger] v.requests(event)[i]
                == Request::GetPointer ==> !v.objects.pointer && v.after(event).objects.pointer,
        forall|i: int|
            0 <= i < v.requests(event).len() && #[trigger] v.requests(event)[i] is CreateHider ==> {
                &&& !v.objects.pointer_surface
                &&& v.after(event).objects.pointer_surface
                &&& v.after(event).objects.pointer
            },
{
    if event is Global {
        lemma_global_requests(v, event);
    }
}

/// Every configuration is acknowledged, and that comes first. Only the surface of a
/// cursor leads to anything else; that of the hider does not.
pub proof fn law_configurations_are_acknowledged(v: AppView, surface: u32, serial: u32)
    requires
        v.wf(),
    ensures
        ({
            let event = Event::Configure { surface, serial };
            &&& v.fault(event) is None
            &&& v.requests(event).len() >= 1
            &&& v.requests(event)[0] == (Request::AckConfigure { surface, serial })
            &&& surface == HIDER ==> v.requests(event).len() == 1 && v.after(event) == v
        }),
{
}

/// Whether a request draws a cursor only where it is configured, and then at its
/// position.
pub open spec fn draws_well(v: AppView, request: Request) -> bool {
    match request {
        Request::Place { idx, margin } => v.moves(idx) && margin == v.margin(idx as int),
        Request::Show { idx, margin, .. } => v.moves(idx) && margin == v.margin(idx as int),
        _ => true,
    }
}

/// A cursor is neither shown nor moved before its surface is configured.
pub proof fn law_only_configured_cursors_are_drawn(v: AppView, event: Event)
    requires
        v.wf(),
        v.fault(event) is None,
    ensures
        forall|i: int|
            0 <= i < v.requests(event).len() ==> draws_well(
                v.after(event),
                #[trigger] v.requests(event)[i],
            ),
{
    let w = v.after(event);
    let r = v.requests(event);
    match event {
        Event::Configure { surface, serial } => {
            if v.owns(surface) {
                assert(r =~= seq![Request::AckConfigure { surface, serial }]
                    + v.show_requests(surface as int));
                assert(w.margin(surface as int) == v.margin(surface as int));
            }
        },
        Event::Input { msg: Msg::Move { idx, dx, dy } } => {
            if v.moves(idx) {
                assert(w.cursors[idx as int] == v.moved_cursor(idx as int, dx, dy));
            }
        },
        Event::Global { .. } => {
            lemma_global_requests(v, event);
        },
        _ => {},
    }
}

/// Once a cursor is configured it stays so.
pub proof fn law_configured_cursors_stay_configured(v: AppView, step: Step, idx: int)
    requires
        v.wf(),
        0 <= idx < v.cursors.len(),
        v.cursors[idx].configured,
    ensures
        idx < v.stepped(step).cursors.len(),
        v.stepped(step).cursors[idx].configured,
{
}

/// When the preparations end, the size of the screen is known, and every cursor
/// without a virtual mouse has one asked for.
pub proof fn law_startup_leaves_nothing_open(v: AppView)
    requires
        v.wf(),
    ensures
        ({
            let w = v.with_default_screen();
            &&& !w.lacks_screen()
            &&& !v.lacks_screen() ==> w == v
            &&& forall|i: int|
                0 <= i < 2 ==> (#[trigger] w.vdevices[i] || (w.missing_mouse(0)
                    + w.missing_mouse(1)).contains(
                    Request::CreateVirtualMouse {
                        idx: i as usize,
                        width: w.screen_w,
                        height: w.screen_h,
                    },
                ))
        }),
{
    let w = v.with_default_screen();
    let r = w.missing_mouse(0) + w.missing_mouse(1);
    assert forall|i: int| 0 <= i < 2 && !(#[trigger] w.vdevices[i]) implies r.contains(
        Request::CreateVirtualMouse { idx: i as usize, width: w.screen_w, height: w.screen_h },
    ) by {
        if i == 0 {
            assert(r[0] == w.missing_mouse(0)[0]);
        } else {
            assert(r[w.missing_mouse(0).len() as int] == w.missing_mouse(1)[0]);
        }
    }
}

/// A press of a button of a mouse comes out as a click of the same button at the
/// position of its cursor.
pub proof fn law_a_press_clicks_at_the_cursor(
    v: AppView,
    reader: MouseReader,
    code: u16,
    value: i32,
)
    requires
        v.wf(),
        reader.idx < v.cursors.len(),
        v.vdevices[reader.idx as int],
        code >= BTN_LEFT,
    ensures
        ({
            let (after, msg) = crate::input::step(reader, Summary::Key { code, value });
            let c = v.cursors[reader.idx as int];
            &&& after == reader
            &&& msg is Some
            &&& v.requests(Event::Input { msg: msg->0 }) == seq![
                Request::Emit { idx: reader.idx, click: Click { x: c.x, y: c.y, code, value } },
            ]
        }),
{
}

/// A movement of a mouse, by steps right and down and a synchronization, moves its
/// cursor by one and a half pixels for each step, less the half pixel that may be
/// left over, and no further than the edges of the screen.
pub proof fn law_a_movement_moves_the_cursor(v: AppView, idx: usize, right: i32, down: i32)
    requires
        v.moves(idx),
        right != 0 || down != 0,
        v.move_fits(idx, (3 * right) as i64, (3 * down) as i64),
        crate::model::is_i32(crate::model::quotient(3 * right, 2)),
        crate::model::is_i32(crate::model::quotient(3 * down, 2)),
    ensures
        ({
            let evs = seq![
                RawEvent { kind: EV_REL, code: REL_X, value: right },
                RawEvent { kind: EV_REL, code: REL_Y, value: down },
                RawEvent { kind: EV_SYN, code: 0, value: 0 },
            ];
            let (after, msgs) = crate::input::run(MouseReader { idx, pdx: 0, pdy: 0 }, evs);
            let from = v.cursors[idx as int];
            let to = v.after(Event::Input { msg: msgs[0] }).cursors[idx as int];
            &&& after == (MouseReader { idx, pdx: 0, pdy: 0 })
            &&& msgs.len() == 1
            &&& to.x == crate::model::clamped(
                from.x + crate::model::quotient(3 * right, 2),
                v.screen_w - 1,
            )
            &&& to.y == crate::model::clamped(
                from.y + crate::model::quotient(3 * down, 2),
                v.screen_h - 1,
            )
        }),
{
    let e1 = RawEvent { kind: EV_REL, code: REL_X, value: right };
    let e2 = RawEvent { kind: EV_REL, code: REL_Y, value: down };
    let e3 = RawEvent { kind: EV_SYN, code: 0, value: 0 };
    let r0 = MouseReader { idx, pdx: 0, pdy: 0 };
    let r1 = MouseReader { idx, pdx: (3 * right) as i64, pdy: 0 };
    let r2 = MouseReader { idx, pdx: (3 * right) as i64, pdy: (3 * down) as i64 };
    assert(SPEED * right == 3 * right);
    assert(SPEED * down == 3 * down);
    assert(crate::input::run(r0, seq![]) == (r0, Seq::<Msg>::empty()));
    assert(seq![e1].drop_last() =~= seq![]);
    assert(crate::input::run(r0, seq![e1]) == (r1, Seq::<Msg>::empty()));
    assert(seq![e1, e2].drop_last() =~= seq![e1]);
    assert(crate::input::run(r0, seq![e1, e2]) == (r2, Seq::<Msg>::empty()));
    assert(seq![e1, e2, e3].drop_last() =~= seq![e1, e2]);
}

} // verus!
