//! What the program hears from the compositor, and what it asks of it.
use crate::input::Msg;
use crate::text::same;
use crate::virtual_mouse::{cursor_name, Click};
use vstd::prelude::*;
use vstd::string::*;

verus! {

/// The surface of the hider, which takes the real pointer. The surface of cursor
/// `i` is `i`.
pub const HIDER: u32 = 2;

/// The bit of a pointer in the capabilities of a seat.
pub const CAPABILITY_POINTER: u32 = 0x1;

/// The bit of the mode in use in the flags of a mode.
pub const MODE_CURRENT: u32 = 0x1;

/// A global object of the compositor that the program uses.
#[derive(Clone, Copy, Debug, PartialEq, Eq, Structural)]
pub enum Global {
    Compositor,
    Shm,
    LayerShell,
    Output,
    XdgOutputManager,
    Seat,
}

/// The global object that an interface names.
pub open spec fn global_of(interface: Seq<char>) -> Option<Global> {
    if interface == "wl_compositor"@ {
        Some(Global::Compositor)
    } else if interface == "wl_shm"@ {
        Some(Global::Shm)
    } else if interface == "zwlr_layer_shell_v1"@ {
        Some(Global::LayerShell)
    } else if interface == "wl_output"@ {
        Some(Global::Output)
    } else if interface == "zxdg_output_manager_v1"@ {
        Some(Global::XdgOutputManager)
    } else if interface == "wl_seat"@ {
        Some(Global::Seat)
    } else {
        None
    }
}

/// The global object that an interface names, if the program uses it.
pub fn global(interface: &str) -> (g: Option<Global>)
    ensures
        g == global_of(interface@),
{
    if same(interface, "wl_compositor") {
        Some(Global::Compositor)
    } else if same(interface, "wl_shm") {
        Some(Global::Shm)
    } else if same(interface, "zwlr_layer_shell_v1") {
        Some(Global::LayerShell)
    } else if same(interface, "wl_output") {
        Some(Global::Output)
    } else if same(interface, "zxdg_output_manager_v1") {
        Some(Global::XdgOutputManager)
    } else if same(interface, "wl_seat") {
        Some(Global::Seat)
    } else {
        None
    }
}

/// The lesser of two versions.
pub open spec fn lesser(a: u32, b: u32) -> u32 {
    if a <= b {
        a
    } else {
        b
    }
}

/// The version at which a global object that is offered at `version` is bound.
pub open spec fn version_bound(g: Global, version: u32) -> u32 {
    match g {
        Global::Compositor => 1,
        Global::Shm => 1,
        Global::LayerShell => lesser(version, 4),
        Global::Output => 2,
        Global::XdgOutputManager => lesser(version, 3),
        Global::Seat => 1,
    }
}

/// The version at which a global object that is offered at `version` is bound.
pub fn bind_version(g: Global, version: u32) -> (v: u32)
    ensures
        v == version_bound(g, version),
{
    match g {
        Global::Compositor => 1,
        Global::Shm => 1,
        Global::LayerShell => version.min(4),
        Global::Output => 2,
        Global::XdgOutputManager => version.min(3),
        Global::Seat => 1,
    }
}

/// A layer of the screen.
#[derive(Clone, Copy, Debug, PartialEq, Eq, Structural)]
pub enum Layer {
    /// Below the windows.
    Bottom,
    /// Above everything.
    Overlay,
}

/// The edges of the screen that a surface holds on to.
#[derive(Clone, Copy, Debug, PartialEq, Eq, Structural)]
pub struct Anchor {
    pub top: bool,
    pub bottom: bool,
    pub left: bool,
    pub right: bool,
}

/// The set-up of a layer surface.
#[derive(Clone, Copy, Debug, PartialEq, Eq, Structural)]
pub struct SurfaceSetup {
    /// Which surface it is.
    pub surface: u32,
    pub layer: Layer,
    pub anchor: Anchor,
    /// The side of the square that it covers, where that does not follow from the
    /// anchor.
    pub size: Option<u32>,
    /// -1 for a surface that neither reserves space nor makes room for others.
    pub exclusive_zone: i32,
    /// Whether it takes keyboard input.
    pub keyboard: bool,
    /// Whether pointer input goes through it to what is below.
    pub click_through: bool,
}

/// The set-up of the surface of a cursor: it floats above everything, at a distance
/// from the top left corner, and lets clicks through.
pub open spec fn cursor_setup(surface: u32, size: u32) -> SurfaceSetup {
    SurfaceSetup {
        surface,
        layer: Layer::Overlay,
        anchor: Anchor { top: true, bottom: false, left: true, right: false },
        size: Some(size),
        exclusive_zone: (-1) as i32,
        keyboard: false,
        click_through: true,
    }
}

/// The set-up of the hider's surface: it covers the whole screen below the windows
/// and takes the pointer.
pub open spec fn hider_setup() -> SurfaceSetup {
    SurfaceSetup {
        surface: HIDER,
        layer: Layer::Bottom,
        anchor: Anchor { top: true, bottom: true, left: true, right: true },
        size: None,
        exclusive_zone: (-1) as i32,
        keyboard: false,
        click_through: false,
    }
}

/// The set-up of the surface of a cursor.
pub(crate) fn make_cursor_setup(surface: u32, size: u32) -> (s: SurfaceSetup)
    ensures
        s == cursor_setup(surface, size),
{
    SurfaceSetup {
        surface,
        layer: Layer::Overlay,
        anchor: Anchor { top: true, bottom: false, left: true, right: false },
        size: Some(size),
        exclusive_zone: -1,
        keyboard: false,
        click_through: true,
    }
}

/// The set-up of the hider's surface.
pub(crate) fn make_hider_setup() -> (s: SurfaceSetup)
    ensures
        s == hider_setup(),
{
    SurfaceSetup {
        surface: HIDER,
        layer: Layer::Bottom,
        anchor: Anchor { top: true, bottom: true, left: true, right: true },
        size: None,
        exclusive_zone: -1,
        keyboard: false,
        click_through: false,
    }
}

/// The namespace of a surface, by which the compositor tells its purpose.
pub fn surface_namespace(surface: u32) -> (name: String)
    ensures
        name@ == (if surface == HIDER {
            "cursor-hider"@
        } else {
            crate::virtual_mouse::name_of_cursor(surface)
        }),
{
    if surface == HIDER {
        String::from_str("cursor-hider")
    } else {
        cursor_name(surface)
    }
}

/// Distances of a surface from the edges of the screen.
#[derive(Clone, Copy, Debug, PartialEq, Eq, Structural)]
pub struct Margin {
    pub top: i32,
    pub right: i32,
    pub bottom: i32,
    pub left: i32,
}

/// A rectangle of a surface.
#[derive(Clone, Copy, Debug, PartialEq, Eq, Structural)]
pub struct Rect {
    pub x: i32,
    pub y: i32,
    pub width: i32,
    pub height: i32,
}

/// Something that the program asks of the compositor or of the machine.
#[derive(Clone, Copy, Debug, PartialEq, Eq, Structural)]
pub enum Request {
    /// Bind the global object `name`.
    Bind { name: u32, global: Global, version: u32 },
    /// Ask the output manager for the logical output of the bound output.
    GetXdgOutput,
    /// Ask the seat for its pointer.
    GetPointer,
    /// Create the virtual mouse of cursor `idx`, for a screen of this size.
    CreateVirtualMouse { idx: usize, width: i32, height: i32 },
    /// Create the surface of cursor `idx` and its buffer, and commit it without the
    /// buffer.
    CreateCursor { idx: usize, setup: SurfaceSetup },
    /// Create the surface of the hider and commit it.
    CreateHider { setup: SurfaceSetup },
    /// Acknowledge the configuration of a surface.
    AckConfigure { surface: u32, serial: u32 },
    /// Move the surface of cursor `idx` and commit it.
    Place { idx: usize, margin: Margin },
    /// Move the surface of cursor `idx`, attach its buffer, report the damage and
    /// commit it.
    Show { idx: usize, margin: Margin, damage: Rect },
    /// Emit the events of a click from the virtual mouse of cursor `idx`.
    Emit { idx: usize, click: Click },
    /// Hide the real pointer, which has entered a surface.
    HidePointer { serial: u32 },
}

/// Something that the program hears.
#[derive(Debug)]
pub enum Event {
    /// The compositor offers a global object.
    Global { name: u32, interface: String, version: u32 },
    /// The compositor configures a surface.
    Configure { surface: u32, serial: u32 },
    /// The compositor has closed a surface.
    Closed,
    /// The integer scale of the output.
    Scale { factor: i32 },
    /// A mode of the output in physical pixels. There are no flags where the
    /// compositor sent some that the protocol does not know.
    Mode { flags: Option<u32>, width: i32, height: i32 },
    /// The size of the output in the compositor's coordinate space.
    LogicalSize { width: i32, height: i32 },
    /// What the seat has. There is nothing where the compositor sent some that the
    /// protocol does not know.
    Capabilities { capabilities: Option<u32> },
    /// The real pointer has entered a surface.
    PointerEnter { serial: u32 },
    /// A message of one of the mice.
    Input { msg: Msg },
    /// All the mice are gone.
    Disconnected,
}

/// Whether all the bits of `bit` are among `bits`, where those are known.
pub open spec fn has_bit(bits: Option<u32>, bit: u32) -> bool {
    bits is Some && bits->0 & bit == bit
}

/// Whether all the bits of `bit` are among `bits`, where those are known.
pub(crate) fn contains_bit(bits: Option<u32>, bit: u32) -> (b: bool)
    ensures
        b == has_bit(bits, bit),
{
    match bits {
        Some(bits) => bits & bit == bit,
        None => false,
    }
}

/// Each of the six interfaces names its own global object, and no other name does.
pub proof fn law_interfaces_name_their_objects(interface: Seq<char>)
    ensures
        global_of(interface) == Some(Global::Compositor) <==> interface == "wl_compositor"@,
        global_of(interface) == Some(Global::Shm) <==> interface == "wl_shm"@,
        global_of(interface) == Some(Global::LayerShell) <==> interface == "zwlr_layer_shell_v1"@,
        global_of(interface) == Some(Global::Output) <==> interface == "wl_output"@,
        global_of(interface) == Some(Global::XdgOutputManager) <==> interface
            == "zxdg_output_manager_v1"@,
        global_of(interface) == Some(Global::Seat) <==> interface == "wl_seat"@,
{
    reveal_strlit("wl_compositor");
    reveal_strlit("wl_shm");
    reveal_strlit("zwlr_layer_shell_v1");
    reveal_strlit("wl_output");
    reveal_strlit("zxdg_output_manager_v1");
    reveal_strlit("wl_seat");
    assert("wl_compositor"@.len() == 13 && "wl_shm"@.len() == 6);
    assert("zwlr_layer_shell_v1"@.len() == 19 && "wl_output"@.len() == 9);
    assert("zxdg_output_manager_v1"@.len() == 22 && "wl_seat"@.len() == 7);
}

/// The layer shell and the output manager are bound at the offered version as far as the
/// program knows it, the others at a fixed one.
pub proof fn law_versions_are_known_ones(version: u32)
    ensures
        version_bound(Global::Compositor, version) == 1,
        version_bound(Global::Shm, version) == 1,
        version_bound(Global::Output, version) == 2,
        version_bound(Global::Seat, version) == 1,
        version <= 4 ==> version_bound(Global::LayerShell, version) == version,
        version > 4 ==> version_bound(Global::LayerShell, version) == 4,
        version <= 3 ==> version_bound(Global::XdgOutputManager, version) == version,
        version > 3 ==> version_bound(Global::XdgOutputManager, version) == 3,
{
}

/// The surface of a cursor has the size of the cursor image, floats above everything,
/// hangs on the top left corner, takes no room and no keyboard, and lets clicks through.
pub proof fn law_cursor_surfaces_float_and_let_clicks_through(surface: u32, size: u32)
    ensures
        ({
            let s = cursor_setup(surface, size);
            &&& s.surface == surface
            &&& s.size == Some(size)
            &&& s.layer is Overlay
            &&& s.anchor.top && s.anchor.left && !s.anchor.bottom && !s.anchor.right
            &&& s.exclusive_zone == -1
            &&& !s.keyboard
            &&& s.click_through
        }),
{
}

/// The surface of the hider is none of the cursors', lies below the windows on the whole
/// screen, takes no room and no keyboard, and takes the pointer.
pub proof fn law_the_hider_covers_the_screen_and_takes_the_pointer()
    ensures
        ({
            let s = hider_setup();
            &&& s.surface == 2 && HIDER == 2
            &&& s.size is None
            &&& s.layer is Bottom
            &&& s.anchor.top && s.anchor.left && s.anchor.bottom && s.anchor.right
            &&& s.exclusive_zone == -1
            &&& !s.keyboard
            &&& !s.click_through
        }),
{
}

/// The lowest bit is among known bits exactly where they are odd, and among unknown ones
/// it is not.
pub proof fn law_the_lowest_bit_is_oddness(bits: u32)
    ensures
        has_bit(Some(bits), 1) <==> bits % 2 == 1,
        !has_bit(None, 1),
        CAPABILITY_POINTER == 1,
        MODE_CURRENT == 1,
{
    assert((bits & 1 == 1) <==> (bits % 2 == 1)) by (bit_vector);
}

} // verus!
