//! The program's state at work.
use crate::input::Msg;
use crate::model::{
    AppView, Cursor, Fault, Objects, Readiness, DEFAULT_SCREEN_H, DEFAULT_SCREEN_W,
};
use crate::protocol::{
    bind_version, contains_bit, global, make_cursor_setup, make_hider_setup, Event, Global, Margin,
    Rect, Request, CAPABILITY_POINTER, MODE_CURRENT,
};
use crate::virtual_mouse::Click;
use vstd::prelude::*;

verus! {

/// The whole pixels in a number of half pixels, as far as 32 bits reach.
fn whole(halves: i64) -> (pixels: i32)
    ensures
        pixels == crate::model::whole_pixels(halves),
{
    let pixels: i64 = halves / 2;
    if pixels < i32::MIN as i64 {
        i32::MIN
    } else if pixels > i32::MAX as i64 {
        i32::MAX
    } else {
        pixels as i32
    }
}

/// The position from zero to `most` that is nearest to `x`.
fn clamp(x: i32, most: i32) -> (r: i32)
    requires
        most >= 0,
    ensures
        r == crate::model::clamped(x as int, most as int),
{
    if x < 0 {
        0
    } else if x > most {
        most
    } else {
        x
    }
}

/// The objects held once an offered global object is bound, where it is.
fn bind_object(o: Objects, g: Option<Global>) -> (r: Objects)
    ensures
        r == o.with_global(g),
{
    match g {
        None => o,
        Some(Global::Compositor) => Objects { compositor: true, ..o },
        Some(Global::Shm) => Objects { shm: true, ..o },
        Some(Global::LayerShell) => Objects { layer_shell: true, ..o },
        Some(Global::Output) => Objects {
            output: true,
            xdg_output: o.xdg_output || (!o.output && o.xdg_output_manager),
            ..o
        },
        Some(Global::XdgOutputManager) => Objects {
            xdg_output_manager: true,
            xdg_output: o.xdg_output || o.output,
            ..o
        },
        Some(Global::Seat) => Objects { seat: true, ..o },
    }
}

/// The program's state, and what it does with what it hears.
pub struct AppState {
    running: bool,
    objects: Objects,
    cursors: Vec<Cursor>,
    screen_w: i32,
    screen_h: i32,
    output_scale: i32,
    cursor_size: u32,
    vdevices: [bool; 2],
}

impl View for AppState {
    type V = AppView;

    closed spec fn view(&self) -> AppView {
        AppView {
            running: self.running,
            objects: self.objects,
            cursors: self.cursors@,
            screen_w: self.screen_w,
            screen_h: self.screen_h,
            output_scale: self.output_scale,
            cursor_size: self.cursor_size,
            vdevices: self.vdevices@,
        }
    }
}

impl AppState {
    /// The state before anything was heard, for cursor images of this size.
    pub fn new(cursor_size: u32) -> (s: AppState)
        ensures
            s@ == AppView::start(cursor_size),
            s@.wf(),
    {
        let s = AppState {
            running: true,
            objects: Objects {
                compositor: false,
                shm: false,
                layer_shell: false,
                output: false,
                xdg_output_manager: false,
                xdg_output: false,
                seat: false,
                pointer: false,
                pointer_surface: false,
            },
            cursors: Vec::new(),
            screen_w: 0,
            screen_h: 0,
            output_scale: 1,
            cursor_size,
            vdevices: [false, false],
        };
        assert(s@ =~= AppView::start(cursor_size));
        s
    }

    /// Creates the cursors once everything that they need is there.
    pub fn try_create_cursors(&mut self) -> (requests: Vec<Request>)
        requires
            old(self)@.wf(),
            old(self)@.start_fits(),
        ensures
            final(self)@.wf(),
            final(self)@ == old(self)@.with_cursors(),
            requests@ == old(self)@.cursor_requests(),
    {
        let mut requests: Vec<Request> = Vec::new();
        if self.cursors.len() == 2 {
            return requests;
        }
        if self.screen_w == 0 || self.screen_h == 0 {
            return requests;
        }
        let o = self.objects;
        if !(o.compositor && o.shm && o.layer_shell && o.output) {
            return requests;
        }
        let size: u32 = self.cursor_size;
        let start_y: i32 = self.screen_h / 2;
        let left: i32 = self.screen_w / 4;
        let right: i32 = self.screen_w * 3 / 4;
        self.cursors.push(Cursor { surface: 0, x: left, y: start_y, configured: false });
        self.cursors.push(Cursor { surface: 1, x: right, y: start_y, configured: false });
        requests.push(Request::CreateCursor { idx: 0, setup: make_cursor_setup(0, size) });
        requests.push(Request::CreateCursor { idx: 1, setup: make_cursor_setup(1, size) });
        assert(requests@ =~= old(self)@.cursor_requests());
        assert(self@ =~= old(self)@.with_cursors());
        requests
    }

    /// Creates the surface that takes the real pointer, once everything that it needs
    /// is there.
    pub fn try_hide_cursor(&mut self) -> (requests: Vec<Request>)
        requires
            old(self)@.wf(),
        ensures
            final(self)@.wf(),
            final(self)@ == old(self)@.with_hider(),
            requests@ == old(self)@.hider_requests(),
    {
        let mut requests: Vec<Request> = Vec::new();
        let o = self.objects;
        if o.pointer_surface || !(o.compositor && o.layer_shell && o.output && o.seat) {
            return requests;
        }
        if !o.pointer {
            requests.push(Request::GetPointer);
        }
        requests.push(Request::CreateHider { setup: make_hider_setup() });
        self.objects = Objects { pointer: true, pointer_surface: true, ..o };
        assert(requests@ =~= old(self)@.hider_requests());
        requests
    }

    /// Moves cursor `idx` by half pixels, within the screen.
    pub fn move_cursor(&mut self, idx: usize, dx: i64, dy: i64) -> (requests: Vec<Request>)
        requires
            old(self)@.wf(),
            old(self)@.move_fits(idx, dx, dy),
        ensures
            final(self)@.wf(),
            final(self)@ == old(self)@.moved(idx, dx, dy),
            requests@ == old(self)@.move_requests(idx, dx, dy),
    {
        let mut requests: Vec<Request> = Vec::new();
        if idx >= self.cursors.len() {
            return requests;
        }
        let c = self.cursors[idx];
        if !c.configured {
            return requests;
        }
        let x: i32 = clamp(c.x + whole(dx), self.screen_w - 1);
        let y: i32 = clamp(c.y + whole(dy), self.screen_h - 1);
        self.cursors[idx] = Cursor { x, y, ..c };
        requests.push(Request::Place { idx, margin: Margin { top: y, right: 0, bottom: 0, left: x } });
        assert(requests@ =~= old(self)@.move_requests(idx, dx, dy));
        requests
    }

    /// Shows cursor `idx` at its position.
    pub fn commit_cursor(&self, idx: usize) -> (requests: Vec<Request>)
        ensures
            requests@ == self@.show_requests(idx as int),
    {
        let mut requests: Vec<Request> = Vec::new();
        if idx >= self.cursors.len() {
            return requests;
        }
        let c = self.cursors[idx];
        let size: i32 = self.cursor_size as i32;
        requests.push(
            Request::Show {
                idx,
                margin: Margin { top: c.y, right: 0, bottom: 0, left: c.x },
                damage: Rect { x: 0, y: 0, width: size, height: size },
            },
        );
        assert(requests@ =~= self@.show_requests(idx as int));
        requests
    }

    /// Injects a change of a button at the position of cursor `idx`, by the virtual
    /// mouse of that cursor.
    pub fn handle_button(&self, idx: usize, code: u16, value: i32) -> (requests: Vec<Request>)
        requires
            self@.wf(),
        ensures
            requests@ == self@.button_requests(idx, code, value),
    {
        let mut requests: Vec<Request> = Vec::new();
        if idx >= self.cursors.len() {
            return requests;
        }
        let c = self.cursors[idx];
        if self.vdevices[idx] {
            requests.push(Request::Emit { idx, click: Click { x: c.x, y: c.y, code, value } });
        }
        assert(requests@ =~= self@.button_requests(idx, code, value));
        requests
    }

    /// Binds an offered global object where the program uses it.
    fn bind(&mut self, name: u32, interface: &str, version: u32) -> (requests: Vec<Request>)
        requires
            old(self)@.wf(),
        ensures
            final(self)@.wf(),
            final(self)@ == old(self)@.bound(crate::protocol::global_of(interface@)),
            requests@ == old(self)@.bind_requests(
                name,
                crate::protocol::global_of(interface@),
                version,
            ),
    {
        let mut requests: Vec<Request> = Vec::new();
        let g = match global(interface) {
            Some(g) => g,
            None => return requests,
        };
        let o = self.objects;
        let bound = match g {
            Global::Output => !o.output,
            Global::Seat => !o.seat,
            _ => true,
        };
        if bound {
            requests.push(Request::Bind { name, global: g, version: bind_version(g, version) });
            let completes = match g {
                Global::Output => o.xdg_output_manager,
                Global::XdgOutputManager => o.output,
                _ => false,
            };
            if completes {
                requests.push(Request::GetXdgOutput);
            }
        }
        self.objects = bind_object(o, Some(g));
        assert(requests@ =~= old(self)@.bind_requests(name, Some(g), version));
        requests
    }

    /// The cursor that owns a layer surface.
    fn position(&self, surface: u32) -> (idx: Option<usize>)
        requires
            self@.wf(),
        ensures
            idx == (if self@.owns(surface) {
                Some(surface as usize)
            } else {
                None
            }),
    {
        let mut i: usize = 0;
        while i < self.cursors.len()
            invariant
                self@.wf(),
                i <= self.cursors.len(),
                i <= surface,
            decreases self.cursors.len() - i,
        {
            assert(self@.cursors[i as int].surface == i);
            if self.cursors[i].surface == surface {
                return Some(i);
            }
            i += 1;
        }
        None
    }

    /// Whether the start positions can be computed where they are needed, once the
    /// state has these objects and this screen.
    fn check_start(&self, o: Objects, screen_w: i32, screen_h: i32) -> (b: bool)
        ensures
            b == (AppView { objects: o, screen_w, screen_h, ..self@ }).start_fits(),
    {
        let creates = self.cursors.len() != 2 && screen_w != 0 && screen_h != 0 && o.compositor
            && o.shm && o.layer_shell && o.output;
        let triple: i64 = 3 * screen_w as i64;
        !creates || (i32::MIN as i64 <= triple && triple <= i32::MAX as i64)
    }

    /// Whether a movement of cursor `idx` can be computed where it shows.
    fn check_move(&self, idx: usize, dx: i64, dy: i64) -> (b: bool)
        ensures
            b == self@.move_fits(idx, dx, dy),
    {
        if idx >= self.cursors.len() || !self.cursors[idx].configured {
            return true;
        }
        let c = self.cursors[idx];
        let x: i64 = c.x as i64 + whole(dx) as i64;
        let y: i64 = c.y as i64 + whole(dy) as i64;
        self.screen_w >= 1 && self.screen_h >= 1 && i32::MIN as i64 <= x && x <= i32::MAX as i64
            && i32::MIN as i64 <= y && y <= i32::MAX as i64
    }

    /// The requests that create both virtual mice, for the screen as it is.
    fn create_mice(&self) -> (requests: Vec<Request>)
        ensures
            requests@ == self@.mouse_requests(),
    {
        let mut requests: Vec<Request> = Vec::new();
        requests.push(
            Request::CreateVirtualMouse { idx: 0, width: self.screen_w, height: self.screen_h },
        );
        requests.push(
            Request::CreateVirtualMouse { idx: 1, width: self.screen_w, height: self.screen_h },
        );
        assert(requests@ =~= self@.mouse_requests());
        requests
    }

    /// Takes in the offer of a global object.
    pub fn on_global(&mut self, name: u32, interface: &str, version: u32) -> (requests: Vec<
        Request,
    >)
        requires
            old(self)@.wf(),
            old(self)@.bound(crate::protocol::global_of(interface@)).start_fits(),
        ensures
            final(self)@.wf(),
            ({
                let g = crate::protocol::global_of(interface@);
                let p = old(self)@.bound(g);
                &&& final(self)@ == p.with_cursors().with_hider()
                &&& requests@ == old(self)@.bind_requests(name, g, version) + p.cursor_requests()
                    + p.with_cursors().hider_requests()
            }),
    {
        let mut requests = self.bind(name, interface, version);
        let mut cursors = self.try_create_cursors();
        let mut hider = self.try_hide_cursor();
        requests.append(&mut cursors);
        requests.append(&mut hider);
        requests
    }

    /// Takes in the configuration of a layer surface.
    pub fn on_configure(&mut self, surface: u32, serial: u32) -> (requests: Vec<Request>)
        requires
            old(self)@.wf(),
        ensures
            final(self)@.wf(),
            final(self)@ == old(self)@.configured(surface),
            requests@ == old(self)@.configure_requests(surface, serial),
    {
        let mut requests: Vec<Request> = Vec::new();
        requests.push(Request::AckConfigure { surface, serial });
        if let Some(idx) = self.position(surface) {
            let c = self.cursors[idx];
            self.cursors[idx] = Cursor { configured: true, ..c };
            let mut show = self.commit_cursor(idx);
            requests.append(&mut show);
        }
        assert(requests@ =~= old(self)@.configure_requests(surface, serial));
        requests
    }

    /// Takes in a mode of the output, which says the size of the screen where the
    /// logical size has not.
    pub fn on_mode(&mut self, flags: Option<u32>, width: i32, height: i32) -> (requests: Vec<
        Request,
    >)
        requires
            old(self)@.wf(),
            old(self)@.takes_mode(flags) ==> old(self)@.with_mode(width, height).start_fits(),
        ensures
            final(self)@.wf(),
            final(self)@ == (if old(self)@.takes_mode(flags) {
                old(self)@.with_mode(width, height).with_cursors()
            } else {
                old(self)@
            }),
            requests@ == (if old(self)@.takes_mode(flags) {
                old(self)@.with_mode(width, height).mouse_requests() + old(self)@.with_mode(
                    width,
                    height,
                ).cursor_requests()
            } else {
                Seq::empty()
            }),
    {
        if !contains_bit(flags, MODE_CURRENT) || self.screen_w != 0 {
            return Vec::new();
        }
        let (logical_w, logical_h) = self.logical_size(width, height);
        self.on_logical_size(logical_w, logical_h)
    }

    /// The size in logical pixels of a mode in physical pixels.
    fn logical_size(&self, width: i32, height: i32) -> (size: (i32, i32))
        ensures
            size.0 == crate::model::quotient(width as int, self@.divisor()),
            size.1 == crate::model::quotient(height as int, self@.divisor()),
    {
        let divisor: i32 = self.output_scale.max(1);
        (width / divisor, height / divisor)
    }

    /// Takes in the size of the output in the compositor's coordinate space, which is
    /// what the positions of the cursors and of the virtual mice are in.
    pub fn on_logical_size(&mut self, width: i32, height: i32) -> (requests: Vec<Request>)
        requires
            old(self)@.wf(),
            old(self)@.with_screen(width as int, height as int).start_fits(),
        ensures
            final(self)@.wf(),
            ({
                let p = old(self)@.with_screen(width as int, height as int);
                &&& final(self)@ == p.with_cursors()
                &&& requests@ == p.mouse_requests() + p.cursor_requests()
            }),
    {
        self.screen_w = width;
        self.screen_h = height;
        let mut requests = self.create_mice();
        let mut cursors = self.try_create_cursors();
        requests.append(&mut cursors);
        requests
    }

    /// Takes in what the seat has.
    pub fn on_capabilities(&mut self, capabilities: Option<u32>) -> (requests: Vec<Request>)
        requires
            old(self)@.wf(),
        ensures
            final(self)@.wf(),
            final(self)@ == (if old(self)@.takes_pointer(capabilities) {
                AppView {
                    objects: Objects { pointer: true, ..old(self)@.objects },
                    ..old(self)@
                }
            } else {
                old(self)@
            }),
            requests@ == (if old(self)@.takes_pointer(capabilities) {
                seq![Request::GetPointer]
            } else {
                Seq::empty()
            }),
    {
        let mut requests: Vec<Request> = Vec::new();
        if contains_bit(capabilities, CAPABILITY_POINTER) && !self.objects.pointer {
            requests.push(Request::GetPointer);
            self.objects = Objects { pointer: true, ..self.objects };
            assert(requests@ =~= seq![Request::GetPointer]);
        }
        requests
    }

    /// Takes in an event, and gives the requests that it leads to, in order. Where the
    /// numbers in the event lead out of their range, the state stays as it is.
    pub fn event(&mut self, event: &Event) -> (r: Result<Vec<Request>, Fault>)
        requires
            old(self)@.wf(),
        ensures
            final(self)@.wf(),
            match r {
                Ok(requests) => {
                    &&& old(self)@.fault(*event) is None
                    &&& final(self)@ == old(self)@.after(*event)
                    &&& requests@ == old(self)@.requests(*event)
                },
                Err(fault) => {
                    &&& old(self)@.fault(*event) == Some(fault)
                    &&& final(self)@ == old(self)@
                },
            },
    {
        match event {
            Event::Global { name, interface, version } => {
                let objects = bind_object(self.objects, global(interface.as_str()));
                if self.check_start(objects, self.screen_w, self.screen_h) {
                    Ok(self.on_global(*name, interface.as_str(), *version))
                } else {
                    Err(Fault::StartPosition)
                }
            },
            Event::Configure { surface, serial } => Ok(self.on_configure(*surface, *serial)),
            Event::Closed | Event::Disconnected => {
                self.running = false;
                Ok(Vec::new())
            },
            Event::Scale { factor } => {
                self.output_scale = *factor;
                Ok(Vec::new())
            },
            Event::Mode { flags, width, height } => {
                let (w, h) = self.logical_size(*width, *height);
                if !contains_bit(*flags, MODE_CURRENT) || self.screen_w != 0 || self.check_start(
                    self.objects,
                    w,
                    h,
                ) {
                    Ok(self.on_mode(*flags, *width, *height))
                } else {
                    Err(Fault::StartPosition)
                }
            },
            Event::LogicalSize { width, height } => {
                if self.check_start(self.objects, *width, *height) {
                    Ok(self.on_logical_size(*width, *height))
                } else {
                    Err(Fault::StartPosition)
                }
            },
            Event::Capabilities { capabilities } => Ok(self.on_capabilities(*capabilities)),
            Event::PointerEnter { serial } => {
                let mut requests: Vec<Request> = Vec::new();
                requests.push(Request::HidePointer { serial: *serial });
                assert(requests@ =~= old(self)@.requests(*event));
                Ok(requests)
            },
            Event::Input { msg: Msg::Move { idx, dx, dy } } => {
                if self.check_move(*idx, *dx, *dy) {
                    Ok(self.move_cursor(*idx, *dx, *dy))
                } else {
                    Err(Fault::MoveRange)
                }
            },
            Event::Input { msg: Msg::Button { idx, code, value } } => {
                Ok(self.handle_button(*idx, *code, *value))
            },
        }
    }

    /// Takes in whether the virtual mouse of cursor `idx` was created.
    pub fn set_virtual_mouse(&mut self, idx: usize, created: bool)
        requires
            old(self)@.wf(),
            idx < 2,
        ensures
            final(self)@.wf(),
            final(self)@ == (AppView {
                vdevices: old(self)@.vdevices.update(idx as int, created),
                ..old(self)@
            }),
    {
        self.vdevices[idx] = created;
    }

    /// Ends the preparations: takes a screen of the default size where none is known,
    /// which the first result says, and asks for the virtual mice that are missing.
    pub fn finish_startup(&mut self) -> (r: (bool, Vec<Request>))
        requires
            old(self)@.wf(),
        ensures
            final(self)@.wf(),
            final(self)@ == old(self)@.with_default_screen(),
            r.0 == old(self)@.lacks_screen(),
            r.1@ == final(self)@.missing_mouse(0) + final(self)@.missing_mouse(1),
    {
        let defaulted = self.screen_w == 0 || self.screen_h == 0;
        if defaulted {
            self.screen_w = DEFAULT_SCREEN_W;
            self.screen_h = DEFAULT_SCREEN_H;
        }
        let mut requests: Vec<Request> = Vec::new();
        let mut i: usize = 0;
        while i < 2
            invariant
                i <= 2,
                requests@ == (if i == 0 {
                    Seq::empty()
                } else if i == 1 {
                    self@.missing_mouse(0)
                } else {
                    self@.missing_mouse(0) + self@.missing_mouse(1)
                }),
            decreases 2 - i,
        {
            let ghost before = requests@;
            if !self.vdevices[i] {
                requests.push(
                    Request::CreateVirtualMouse {
                        idx: i,
                        width: self.screen_w,
                        height: self.screen_h,
                    },
                );
            }
            assert(requests@ =~= before + self@.missing_mouse(i as int));
            assert(Seq::<Request>::empty() + self@.missing_mouse(0) =~= self@.missing_mouse(0));
            i += 1;
        }
        (defaulted, requests)
    }

    /// Whether the program can start its work.
    pub fn readiness(&self) -> (r: Readiness)
        requires
            self@.wf(),
        ensures
            r == (if !self@.objects.layer_shell {
                Readiness::NoLayerShell
            } else if self@.cursors.len() == 2 && self@.cursors[0].configured
                && self@.cursors[1].configured {
                Readiness::Ready
            } else {
                Readiness::Waiting
            }),
    {
        if !self.objects.layer_shell {
            return Readiness::NoLayerShell;
        }
        let mut configured: usize = 0;
        let mut i: usize = 0;
        while i < self.cursors.len()
            invariant
                self@.wf(),
                i <= self.cursors.len() <= 2,
                configured <= i,
                configured == i <==> forall|j: int|
                    0 <= j < i ==> (#[trigger] self@.cursors[j]).configured,
            decreases self.cursors.len() - i,
        {
            if self.cursors[i].configured {
                configured += 1;
            }
            i += 1;
        }
        if configured < 2 {
            Readiness::Waiting
        } else {
            Readiness::Ready
        }
    }

    /// Whether the program is to go on.
    pub fn running(&self) -> (b: bool)
        ensures
            b == self@.running,
    {
        self.running
    }

    /// Cursor `idx`, if there is one.
    pub fn cursor(&self, idx: usize) -> (c: Option<Cursor>)
        ensures
            c == (if idx < self@.cursors.len() {
                Some(self@.cursors[idx as int])
            } else {
                None
            }),
    {
        if idx < self.cursors.len() {
            Some(self.cursors[idx])
        } else {
            None
        }
    }

    /// The width and the height of the screen; zero where they are not known.
    pub fn screen(&self) -> (size: (i32, i32))
        ensures
            size == (self@.screen_w, self@.screen_h),
    {
        (self.screen_w, self.screen_h)
    }
}

} // verus!
