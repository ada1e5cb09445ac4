//! What the program's state is, and what becomes of it: the two cursors, the screen
//! that they are on, and what is asked for when something is heard.
use crate::input::Msg;
use crate::protocol::{
    Event, Global, Margin, Rect, Request, CAPABILITY_POINTER, MODE_CURRENT,
};
use crate::virtual_mouse::Click;
use vstd::prelude::*;

verus! {

/// The width of the screen where the compositor does not say it.
pub const DEFAULT_SCREEN_W: i32 = 3840;

/// The height of the screen where the compositor does not say it.
pub const DEFAULT_SCREEN_H: i32 = 2160;

/// One cursor: its surface, its position on the screen, and whether the compositor
/// has configured the surface.
#[derive(Clone, Copy, Debug, PartialEq, Eq, Structural)]
pub struct Cursor {
    pub surface: u32,
    pub x: i32,
    pub y: i32,
    pub configured: bool,
}

/// Which objects of the compositor the program holds.
#[derive(Clone, Copy, Debug, PartialEq, Eq, Structural)]
pub struct Objects {
    pub compositor: bool,
    pub shm: bool,
    pub layer_shell: bool,
    pub output: bool,
    pub xdg_output_manager: bool,
    pub xdg_output: bool,
    pub seat: bool,
    pub pointer: bool,
    /// The surface that takes the real pointer so that it can be hidden.
    pub pointer_surface: bool,
}

/// Why an event cannot be handled: the numbers in it lead out of their range.
#[derive(Clone, Copy, Debug, PartialEq, Eq, Structural)]
pub enum Fault {
    /// The screen is too wide to place the cursors on it.
    StartPosition,
    /// The movement is too long, or there is no screen to move on.
    MoveRange,
}

/// Whether the program can start its work.
#[derive(Clone, Copy, Debug, PartialEq, Eq, Structural)]
pub enum Readiness {
    /// The compositor does not offer layer surfaces: there is nothing to draw on.
    NoLayerShell,
    /// Not all the cursors are configured yet.
    Waiting,
    /// Both cursors are on the screen.
    Ready,
}

impl Objects {
    /// The objects held once an offered global object is bound, where it is. The
    /// logical output is asked for as soon as there are an output and an output
    /// manager, whichever came first.
    pub open spec fn with_global(self, g: Option<Global>) -> Objects {
        match g {
            None => self,
            Some(Global::Compositor) => Objects { compositor: true, ..self },
            Some(Global::Shm) => Objects { shm: true, ..self },
            Some(Global::LayerShell) => Objects { layer_shell: true, ..self },
            Some(Global::Output) => Objects {
                output: true,
                xdg_output: self.xdg_output || (!self.output && self.xdg_output_manager),
                ..self
            },
            Some(Global::XdgOutputManager) => Objects {
                xdg_output_manager: true,
                xdg_output: self.xdg_output || self.output,
                ..self
            },
            Some(Global::Seat) => Objects { seat: true, ..self },
        }
    }
}

/// The quotient of `a` by a positive `b`, rounded toward zero.
pub open spec fn quotient(a: int, b: int) -> int {
    if a >= 0 {
        a / b
    } else {
        -((-a) / b)
    }
}

/// The whole pixels in a number of half pixels, as far as 32 bits reach.
pub open spec fn whole_pixels(halves: i64) -> i32 {
    let pixels = quotient(halves as int, 2);
    if pixels < i32::MIN {
        i32::MIN
    } else if pixels > i32::MAX {
        i32::MAX
    } else {
        pixels as i32
    }
}

/// The position from zero to `most` that is nearest to `x`.
pub open spec fn clamped(x: int, most: int) -> int {
    if x < 0 {
        0
    } else if x > most {
        most
    } else {
        x
    }
}

/// Whether `x` is a number of 32 bits.
pub open spec fn is_i32(x: int) -> bool {
    i32::MIN <= x <= i32::MAX
}

/// The program's state.
#[verifier::ext_equal]
pub struct AppView {
    pub running: bool,
    pub objects: Objects,
    pub cursors: Seq<Cursor>,
    pub screen_w: i32,
    pub screen_h: i32,
    pub output_scale: i32,
    pub cursor_size: u32,
    /// Which cursors have a virtual mouse.
    pub vdevices: Seq<bool>,
}

impl AppView {
    /// The state before anything was heard.
    pub open spec fn start(cursor_size: u32) -> AppView {
        AppView {
            running: true,
            objects: Objects {
                compositor: false,
                shm: false,
                layer_shell: false,
                output: false,
                xdg_output_manager: false,
                xdg_output: false,
                seat: false,
                pointer: false,
                pointer_surface: false,
            },
            cursors: Seq::empty(),
            screen_w: 0,
            screen_h: 0,
            output_scale: 1,
            cursor_size,
            vdevices: seq![false, false],
        }
    }

    /// What holds at all times: there are two cursors or none, each with its own
    /// surface; what was created from other objects was created after them; and the
    /// logical output is there as soon as both objects that it needs are.
    pub open spec fn wf(self) -> bool {
        let o = self.objects;
        &&& self.cursors.len() == 0 || self.cursors.len() == 2
        &&& forall|i: int| 0 <= i < self.cursors.len() ==> (#[trigger] self.cursors[i]).surface == i
        &&& self.cursors.len() == 2 ==> o.compositor && o.shm && o.layer_shell && o.output
        &&& o.xdg_output == (o.output && o.xdg_output_manager)
        &&& o.pointer_surface ==> o.compositor && o.layer_shell && o.output && o.seat && o.pointer
        &&& self.vdevices.len() == 2
    }

    /// Whether the cursors are still to be created, and everything that they need is
    /// there: the objects, and the size of the screen.
    pub open spec fn creates_cursors(self) -> bool {
        let o = self.objects;
        &&& self.cursors.len() != 2
        &&& self.screen_w != 0
        &&& self.screen_h != 0
        &&& o.compositor && o.shm && o.layer_shell && o.output
    }

    /// Whether the start positions can be computed where they are needed.
    pub open spec fn start_fits(self) -> bool {
        self.creates_cursors() ==> is_i32(3 * self.screen_w)
    }

    /// Cursor `i` as it is created: in the middle of its half of the screen.
    pub open spec fn start_cursor(self, i: int) -> Cursor {
        Cursor {
            surface: i as u32,
            x: (if i == 0 {
                quotient(self.screen_w as int, 4)
            } else {
                quotient(3 * self.screen_w, 4)
            }) as i32,
            y: quotient(self.screen_h as int, 2) as i32,
            configured: false,
        }
    }

    /// The state once the cursors are created, where they can be.
    pub open spec fn with_cursors(self) -> AppView {
        if self.creates_cursors() {
            AppView {
                cursors: self.cursors.push(self.start_cursor(0)).push(self.start_cursor(1)),
                ..self
            }
        } else {
            self
        }
    }

    /// The requests that create the cursors, where they can be created.
    pub open spec fn cursor_requests(self) -> Seq<Request> {
        if self.creates_cursors() {
            seq![
                Request::CreateCursor {
                    idx: 0,
                    setup: crate::protocol::cursor_setup(0, self.cursor_size),
                },
                Request::CreateCursor {
                    idx: 1,
                    setup: crate::protocol::cursor_setup(1, self.cursor_size),
                },
            ]
        } else {
            Seq::empty()
        }
    }

    /// Whether the hider is still to be created, and everything that it needs is there.
    pub open spec fn creates_hider(self) -> bool {
        let o = self.objects;
        !o.pointer_surface && o.compositor && o.layer_shell && o.output && o.seat
    }

    /// The state once the hider is created, where it can be.
    pub open spec fn with_hider(self) -> AppView {
        if self.creates_hider() {
            AppView {
                objects: Objects { pointer: true, pointer_surface: true, ..self.objects },
                ..self
            }
        } else {
            self
        }
    }

    /// The requests that create the hider, where it can be created.
    pub open spec fn hider_requests(self) -> Seq<Request> {
        if self.creates_hider() {
            let create = Request::CreateHider { setup: crate::protocol::hider_setup() };
            if self.objects.pointer {
                seq![create]
            } else {
                seq![Request::GetPointer, create]
            }
        } else {
            Seq::empty()
        }
    }

    /// Whether an offered global object is bound: the first output and the first seat
    /// only, the others whenever they are offered.
    pub open spec fn binds(self, g: Global) -> bool {
        match g {
            Global::Output => !self.objects.output,
            Global::Seat => !self.objects.seat,
            _ => true,
        }
    }

    /// The state once an offered global object is bound, where it is.
    pub open spec fn bound(self, g: Option<Global>) -> AppView {
        AppView { objects: self.objects.with_global(g), ..self }
    }

    /// The requests that bind an offered global object, where it is bound.
    pub open spec fn bind_requests(self, name: u32, g: Option<Global>, version: u32) -> Seq<
        Request,
    > {
        if g is Some && self.binds(g->0) {
            let bind = Request::Bind {
                name,
                global: g->0,
                version: crate::protocol::version_bound(g->0, version),
            };
            let completes = match g->0 {
                Global::Output => self.objects.xdg_output_manager,
                Global::XdgOutputManager => self.objects.output,
                _ => false,
            };
            if completes {
                seq![bind, Request::GetXdgOutput]
            } else {
                seq![bind]
            }
        } else {
            Seq::empty()
        }
    }

    /// The margin that puts cursor `idx` at its position.
    pub open spec fn margin(self, idx: int) -> Margin {
        Margin { top: self.cursors[idx].y, right: 0, bottom: 0, left: self.cursors[idx].x }
    }

    /// The requests that show cursor `idx`.
    pub open spec fn show_requests(self, idx: int) -> Seq<Request> {
        if 0 <= idx < self.cursors.len() {
            let size = self.cursor_size as i32;
            seq![
                Request::Show {
                    idx: idx as usize,
                    margin: self.margin(idx),
                    damage: Rect { x: 0, y: 0, width: size, height: size },
                },
            ]
        } else {
            Seq::empty()
        }
    }

    /// Whether the surface is that of a cursor.
    pub open spec fn owns(self, surface: u32) -> bool {
        surface < self.cursors.len()
    }

    /// The state once a surface is configured.
    pub open spec fn configured(self, surface: u32) -> AppView {
        if self.owns(surface) {
            AppView {
                cursors: self.cursors.update(
                    surface as int,
                    Cursor { configured: true, ..self.cursors[surface as int] },
                ),
                ..self
            }
        } else {
            self
        }
    }

    /// The requests that answer the configuration of a surface: an acknowledgement,
    /// and where it is the surface of a cursor, to show the cursor.
    pub open spec fn configure_requests(self, surface: u32, serial: u32) -> Seq<Request> {
        let ack = seq![Request::AckConfigure { surface, serial }];
        if self.owns(surface) {
            ack + self.show_requests(surface as int)
        } else {
            ack
        }
    }

    /// The state with a screen of this size.
    pub open spec fn with_screen(self, width: int, height: int) -> AppView {
        AppView { screen_w: width as i32, screen_h: height as i32, ..self }
    }

    /// The requests that create both virtual mice, for the screen as it is.
    pub open spec fn mouse_requests(self) -> Seq<Request> {
        seq![
            Request::CreateVirtualMouse { idx: 0, width: self.screen_w, height: self.screen_h },
            Request::CreateVirtualMouse { idx: 1, width: self.screen_w, height: self.screen_h },
        ]
    }

    /// Whether a mode of the output says the size of the screen: it is the current
    /// one, and nothing has said the size yet.
    pub open spec fn takes_mode(self, flags: Option<u32>) -> bool {
        crate::protocol::has_bit(flags, MODE_CURRENT) && self.screen_w == 0
    }

    /// The divisor that makes logical pixels of physical ones.
    pub open spec fn divisor(self) -> int {
        if self.output_scale >= 1 {
            self.output_scale as int
        } else {
            1
        }
    }

    /// The state with the screen that a mode of the output says.
    pub open spec fn with_mode(self, width: i32, height: i32) -> AppView {
        self.with_screen(
            quotient(width as int, self.divisor()),
            quotient(height as int, self.divisor()),
        )
    }

    /// Whether the seat's pointer is to be asked for.
    pub open spec fn takes_pointer(self, capabilities: Option<u32>) -> bool {
        crate::protocol::has_bit(capabilities, CAPABILITY_POINTER) && !self.objects.pointer
    }

    /// Whether a movement of cursor `idx` shows: there is such a cursor, and it is
    /// configured.
    pub open spec fn moves(self, idx: usize) -> bool {
        idx < self.cursors.len() && self.cursors[idx as int].configured
    }

    /// Whether a movement of cursor `idx` can be computed where it shows.
    pub open spec fn move_fits(self, idx: usize, dx: i64, dy: i64) -> bool {
        self.moves(idx) ==> {
            &&& self.screen_w >= 1
            &&& self.screen_h >= 1
            &&& is_i32(self.cursors[idx as int].x + whole_pixels(dx))
            &&& is_i32(self.cursors[idx as int].y + whole_pixels(dy))
        }
    }

    /// Cursor `idx` after a movement, which stops at the edges of the screen.
    pub open spec fn moved_cursor(self, idx: int, dx: i64, dy: i64) -> Cursor {
        let c = self.cursors[idx];
        Cursor {
            x: clamped(c.x + whole_pixels(dx), self.screen_w - 1) as i32,
            y: clamped(c.y + whole_pixels(dy), self.screen_h - 1) as i32,
            ..c
        }
    }

    /// The state after a movement of cursor `idx`.
    pub open spec fn moved(self, idx: usize, dx: i64, dy: i64) -> AppView {
        if self.moves(idx) {
            AppView {
                cursors: self.cursors.update(idx as int, self.moved_cursor(idx as int, dx, dy)),
                ..self
            }
        } else {
            self
        }
    }

    /// The requests that a movement of cursor `idx` leads to.
    pub open spec fn move_requests(self, idx: usize, dx: i64, dy: i64) -> Seq<Request> {
        if self.moves(idx) {
            seq![Request::Place { idx, margin: self.moved(idx, dx, dy).margin(idx as int) }]
        } else {
            Seq::empty()
        }
    }

    /// The requests that a change of a button of mouse `idx` leads to: a click at the
    /// position of its cursor, from its virtual mouse.
    pub open spec fn button_requests(self, idx: usize, code: u16, value: i32) -> Seq<Request> {
        if idx < self.cursors.len() && self.vdevices[idx as int] {
            let c = self.cursors[idx as int];
            seq![Request::Emit { idx, click: Click { x: c.x, y: c.y, code, value } }]
        } else {
            Seq::empty()
        }
    }

    /// The state that the event sets before the cursors are created, where it is one
    /// after which they may be.
    pub open spec fn prepared(self, event: Event) -> AppView {
        match event {
            Event::Global { name, interface, version } => self.bound(
                crate::protocol::global_of(interface@),
            ),
            Event::Mode { flags, width, height } => if self.takes_mode(flags) {
                self.with_mode(width, height)
            } else {
                self
            },
            Event::LogicalSize { width, height } => self.with_screen(width as int, height as int),
            _ => self,
        }
    }

    /// Why the event cannot be handled, if it cannot.
    pub open spec fn fault(self, event: Event) -> Option<Fault> {
        match event {
            Event::Global { .. } | Event::LogicalSize { .. } => if self.prepared(
                event,
            ).start_fits() {
                None
            } else {
                Some(Fault::StartPosition)
            },
            Event::Mode { flags, .. } => if !self.takes_mode(flags) || self.prepared(
                event,
            ).start_fits() {
                None
            } else {
                Some(Fault::StartPosition)
            },
            Event::Input { msg: Msg::Move { idx, dx, dy } } => if self.move_fits(idx, dx, dy) {
                None
            } else {
                Some(Fault::MoveRange)
            },
            _ => None,
        }
    }

    /// The state after the event.
    pub open spec fn after(self, event: Event) -> AppView {
        match event {
            Event::Global { .. } => self.prepared(event).with_cursors().with_hider(),
            Event::Configure { surface, serial } => self.configured(surface),
            Event::Closed | Event::Disconnected => AppView { running: false, ..self },
            Event::Scale { factor } => AppView { output_scale: factor, ..self },
            Event::Mode { flags, .. } => if self.takes_mode(flags) {
                self.prepared(event).with_cursors()
            } else {
                self
            },
            Event::LogicalSize { .. } => self.prepared(event).with_cursors(),
            Event::Capabilities { capabilities } => if self.takes_pointer(capabilities) {
                AppView { objects: Objects { pointer: true, ..self.objects }, ..self }
            } else {
                self
            },
            Event::PointerEnter { .. } => self,
            Event::Input { msg: Msg::Move { idx, dx, dy } } => self.moved(idx, dx, dy),
            Event::Input { msg: Msg::Button { .. } } => self,
        }
    }

    /// The requests that the event leads to, in order.
    pub open spec fn requests(self, event: Event) -> Seq<Request> {
        let p = self.prepared(event);
        match event {
            Event::Global { name, interface, version } => self.bind_requests(
                name,
                crate::protocol::global_of(interface@),
                version,
            ) + p.cursor_requests() + p.with_cursors().hider_requests(),
            Event::Configure { surface, serial } => self.configure_requests(surface, serial),
            Event::Mode { flags, .. } => if self.takes_mode(flags) {
                p.mouse_requests() + p.cursor_requests()
            } else {
                Seq::empty()
            },
            Event::LogicalSize { .. } => p.mouse_requests() + p.cursor_requests(),
            Event::Capabilities { capabilities } => if self.takes_pointer(capabilities) {
                seq![Request::GetPointer]
            } else {
                Seq::empty()
            },
            Event::PointerEnter { serial } => seq![Request::HidePointer { serial }],
            Event::Input { msg: Msg::Move { idx, dx, dy } } => self.move_requests(idx, dx, dy),
            Event::Input { msg: Msg::Button { idx, code, value } } => self.button_requests(
                idx,
                code,
                value,
            ),
            _ => Seq::empty(),
        }
    }

    /// Whether the size of the screen is not known.
    pub open spec fn lacks_screen(self) -> bool {
        self.screen_w == 0 || self.screen_h == 0
    }

    /// The state with a screen of the default size, where its size is not known.
    pub open spec fn with_default_screen(self) -> AppView {
        if self.lacks_screen() {
            self.with_screen(DEFAULT_SCREEN_W as int, DEFAULT_SCREEN_H as int)
        } else {
            self
        }
    }

    /// The requests that create the virtual mouse of cursor `idx` where it is missing.
    pub open spec fn missing_mouse(self, idx: int) -> Seq<Request> {
        if self.vdevices[idx] {
            Seq::empty()
        } else {
            seq![
                Request::CreateVirtualMouse {
                    idx: idx as usize,
                    width: self.screen_w,
                    height: self.screen_h,
                },
            ]
        }
    }
}

} // verus!
