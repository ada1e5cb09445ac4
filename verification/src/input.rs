//! The physical mice: events of a device turned into messages for its cursor.
//!
//! Movement is counted in half pixels. A mouse step is one and a half pixels, so
//! every sum of steps is a whole number of them.
use vstd::prelude::*;

verus! {

/// Event type of bookkeeping events, which end a group of events.
pub const EV_SYN: u16 = 0x00;

/// Event type of key and button changes.
pub const EV_KEY: u16 = 0x01;

/// Event type of movement on a relative axis.
pub const EV_REL: u16 = 0x02;

/// Event type of a position on an absolute axis.
pub const EV_ABS: u16 = 0x03;

/// The relative axis that points right.
pub const REL_X: u16 = 0x00;

/// The relative axis that points down.
pub const REL_Y: u16 = 0x01;

/// The lowest key code of a mouse button, that of the left one.
pub const BTN_LEFT: u16 = 0x110;

/// Half pixels that a cursor moves for one step of its mouse.
pub const SPEED: i64 = 3;

/// An event of the Linux input layer: its type, code and value.
#[derive(Clone, Copy, Debug, PartialEq, Eq, Structural)]
pub struct RawEvent {
    pub kind: u16,
    pub code: u16,
    pub value: i32,
}

/// What an event of a mouse says.
#[derive(Clone, Copy, Debug, PartialEq, Eq, Structural)]
pub enum Summary {
    /// The end of a group of events.
    Synchronization,
    /// A key or button changed.
    Key { code: u16, value: i32 },
    /// Movement on a relative axis.
    RelativeAxis { code: u16, value: i32 },
    /// Anything else.
    Other,
}

/// A message from one mouse to the cursors.
#[derive(Clone, Copy, Debug, PartialEq, Eq, Structural)]
pub enum Msg {
    /// Mouse movement delta from one physical device, in half pixels.
    Move { idx: usize, dx: i64, dy: i64 },
    /// Mouse button press or release from one physical device:
    /// `code` is the raw Linux key code,
    /// `value` is 0 for a release, 1 for a press, 2 for an autorepeat.
    Button { idx: usize, code: u16, value: i32 },
}

/// What the event `ev` says, by its type.
pub open spec fn summary(ev: RawEvent) -> Summary {
    if ev.kind == EV_SYN {
        Summary::Synchronization
    } else if ev.kind == EV_KEY {
        Summary::Key { code: ev.code, value: ev.value }
    } else if ev.kind == EV_REL {
        Summary::RelativeAxis { code: ev.code, value: ev.value }
    } else {
        Summary::Other
    }
}

/// Calls `evdev::InputEvent::destructure` on the event.
///
/// Trusted: the variant that comes back goes by the event's type, and it holds the
/// event's code and value.
#[verifier::external_body]
fn destructure(ev: &RawEvent) -> (r: Summary)
    ensures
        r == summary(*ev),
{
    match evdev::InputEvent::new(ev.kind, ev.code, ev.value).destructure() {
        evdev::EventSummary::Synchronization(..) => Summary::Synchronization,
        evdev::EventSummary::Key(_, key, value) => Summary::Key { code: key.0, value },
        evdev::EventSummary::RelativeAxis(_, axis, value) => {
            Summary::RelativeAxis { code: axis.0, value }
        }
        _ => Summary::Other,
    }
}

/// The nearest `i64` to `x`.
pub open spec fn saturated(x: int) -> i64 {
    if x < i64::MIN {
        i64::MIN
    } else if x > i64::MAX {
        i64::MAX
    } else {
        x as i64
    }
}

/// The sum of pending movement and the movement of `value` mouse steps.
fn advance(pending: i64, value: i32) -> (r: i64)
    ensures
        r == saturated(pending + SPEED * value),
{
    assert(SPEED * value == 3 * value);
    let sum: i128 = pending as i128 + SPEED as i128 * value as i128;
    if sum < i64::MIN as i128 {
        i64::MIN
    } else if sum > i64::MAX as i128 {
        i64::MAX
    } else {
        sum as i64
    }
}

/// The reader of one mouse: which cursor it drives, and the movement since the
/// last synchronization, in half pixels.
#[derive(Clone, Copy, Debug, PartialEq, Eq, Structural)]
pub struct MouseReader {
    pub idx: usize,
    pub pdx: i64,
    pub pdy: i64,
}

/// What `reader` becomes by an event that says `said`, and the message that it sends.
pub open spec fn step(reader: MouseReader, said: Summary) -> (MouseReader, Option<Msg>) {
    match said {
        Summary::RelativeAxis { code, value } => if code == REL_X {
            (
                MouseReader { pdx: saturated(reader.pdx + SPEED * value), ..reader },
                None,
            )
        } else if code == REL_Y {
            (
                MouseReader { pdy: saturated(reader.pdy + SPEED * value), ..reader },
                None,
            )
        } else {
            (reader, None)
        },
        Summary::Synchronization => if reader.pdx != 0 || reader.pdy != 0 {
            (
                MouseReader { pdx: 0, pdy: 0, ..reader },
                Some(Msg::Move { idx: reader.idx, dx: reader.pdx, dy: reader.pdy }),
            )
        } else {
            (reader, None)
        },
        Summary::Key { code, value } => if code >= BTN_LEFT {
            (reader, Some(Msg::Button { idx: reader.idx, code, value }))
        } else {
            (reader, None)
        },
        Summary::Other => (reader, None),
    }
}

/// `msgs`, and after them the message of `last` where there is one.
pub open spec fn sent(msgs: Seq<Msg>, last: Option<Msg>) -> Seq<Msg> {
    match last {
        Some(msg) => msgs.push(msg),
        None => msgs,
    }
}

/// What `reader` becomes by the events `evs`, in order, and the messages that it
/// sends, in order.
pub open spec fn run(reader: MouseReader, evs: Seq<RawEvent>) -> (MouseReader, Seq<Msg>)
    decreases evs.len(),
{
    if evs.len() == 0 {
        (reader, Seq::empty())
    } else {
        let before = run(reader, evs.drop_last());
        let (after, msg) = step(before.0, summary(evs.last()));
        (after, sent(before.1, msg))
    }
}

impl MouseReader {
    /// The reader of the mouse that drives cursor `idx`, before any movement.
    pub fn new(idx: usize) -> (r: MouseReader)
        ensures
            r == (MouseReader { idx, pdx: 0, pdy: 0 }),
    {
        MouseReader { idx, pdx: 0, pdy: 0 }
    }

    /// Takes in what one event says and gives the message to send, if any.
    pub fn on_summary(&mut self, said: Summary) -> (msg: Option<Msg>)
        ensures
            (*final(self), msg) == step(*old(self), said),
    {
        match said {
            Summary::RelativeAxis { code, value } => {
                if code == REL_X {
                    self.pdx = advance(self.pdx, value);
                } else if code == REL_Y {
                    self.pdy = advance(self.pdy, value);
                }
                None
            },
            Summary::Synchronization => {
                if self.pdx != 0 || self.pdy != 0 {
                    let msg = Msg::Move { idx: self.idx, dx: self.pdx, dy: self.pdy };
                    self.pdx = 0;
                    self.pdy = 0;
                    Some(msg)
                } else {
                    None
                }
            },
            Summary::Key { code, value } => {
                if code >= BTN_LEFT {
                    Some(Msg::Button { idx: self.idx, code, value })
                } else {
                    None
                }
            },
            Summary::Other => None,
        }
    }

    /// Takes in a batch of events and gives the messages to send, in order.
    pub fn on_events(&mut self, evs: &Vec<RawEvent>) -> (msgs: Vec<Msg>)
        ensures
            (*final(self), msgs@) == run(*old(self), evs@),
    {
        let ghost start = *self;
        let mut msgs: Vec<Msg> = Vec::new();
        let mut i: usize = 0;
        assert(evs@.take(0) =~= Seq::<RawEvent>::empty());
        while i < evs.len()
            invariant
                i <= evs.len(),
                (*self, msgs@) == run(start, evs@.take(i as int)),
            decreases evs.len() - i,
        {
            assert(evs@.take(i + 1).drop_last() =~= evs@.take(i as int));
            if let Some(msg) = self.on_summary(destructure(&evs[i])) {
                msgs.push(msg);
            }
            i += 1;
        }
        assert(evs@.take(evs@.len() as int) =~= evs@);
        msgs
    }
}

/// The steps of the mouse along `axis` that the events `evs` report.
pub open spec fn steps(evs: Seq<RawEvent>, axis: u16) -> int
    decreases evs.len(),
{
    if evs.len() == 0 {
        0
    } else {
        steps(evs.drop_last(), axis) + match summary(evs.last()) {
            Summary::RelativeAxis { code, value } => if code == axis {
                value as int
            } else {
                0
            },
            _ => 0,
        }
    }
}

/// The half pixels that the messages `msgs` move right and down.
pub open spec fn moved(msgs: Seq<Msg>) -> (int, int)
    decreases msgs.len(),
{
    if msgs.len() == 0 {
        (0, 0)
    } else {
        let before = moved(msgs.drop_last());
        match msgs.last() {
            Msg::Move { idx, dx, dy } => (before.0 + dx, before.1 + dy),
            Msg::Button { .. } => before,
        }
    }
}

/// The changes of mouse buttons that the events `evs` report: code and value.
pub open spec fn pressed(evs: Seq<RawEvent>) -> Seq<(u16, i32)>
    decreases evs.len(),
{
    if evs.len() == 0 {
        Seq::empty()
    } else {
        let before = pressed(evs.drop_last());
        match summary(evs.last()) {
            Summary::Key { code, value } => if code >= BTN_LEFT {
                before.push((code, value))
            } else {
                before
            },
            _ => before,
        }
    }
}

/// The changes of mouse buttons that the messages `msgs` carry: code and value.
pub open spec fn forwarded(msgs: Seq<Msg>) -> Seq<(u16, i32)>
    decreases msgs.len(),
{
    if msgs.len() == 0 {
        Seq::empty()
    } else {
        let before = forwarded(msgs.drop_last());
        match msgs.last() {
            Msg::Button { idx, code, value } => before.push((code, value)),
            Msg::Move { .. } => before,
        }
    }
}

/// The cursor that a message is for.
pub open spec fn addressee(msg: Msg) -> usize {
    match msg {
        Msg::Move { idx, .. } => idx,
        Msg::Button { idx, .. } => idx,
    }
}

/// It does not matter how the events of a mouse are cut into batches.
pub proof fn law_batches_do_not_matter(reader: MouseReader, a: Seq<RawEvent>, b: Seq<RawEvent>)
    ensures
        run(reader, a + b).0 == run(run(reader, a).0, b).0,
        run(reader, a + b).1 == run(reader, a).1 + run(run(reader, a).0, b).1,
    decreases b.len(),
{
    if b.len() == 0 {
        assert(a + b =~= a);
        assert(run(reader, a).1 + Seq::<Msg>::empty() =~= run(reader, a).1);
    } else {
        law_batches_do_not_matter(reader, a, b.drop_last());
        assert((a + b).drop_last() =~= a + b.drop_last());
        assert((a + b).last() == b.last());
        let mid = run(run(reader, a).0, b.drop_last());
        if let Some(msg) = step(mid.0, summary(b.last())).1 {
            assert(run(reader, a).1 + mid.1.push(msg) =~= (run(reader, a).1 + mid.1).push(msg));
        }
    }
}

/// Whether `n` events, which move by no more than `0x1_8000_0000` half pixels each,
/// cannot take a count of `pending` half pixels out of its range.
pub open spec fn counts(pending: i64, n: nat) -> bool {
    i64::MIN + 0x1_8000_0000 * n <= pending <= i64::MAX - 0x1_8000_0000 * n
}

/// Whether `after` is as near to `before`, or to zero, as `n` events allow.
spec fn near(before: i64, after: i64, n: nat) -> bool {
    let low: int = if before < 0 { before as int } else { 0 };
    let high: int = if before > 0 { before as int } else { 0 };
    low - 0x1_8000_0000 * n <= after <= high + 0x1_8000_0000 * n
}

/// No movement is lost or made up: what was sent and what is still pending is one
/// and a half pixels for each step of the mouse. This holds as long as the counter
/// of half pixels cannot run full.
pub proof fn law_movement_is_conserved(reader: MouseReader, evs: Seq<RawEvent>)
    requires
        counts(reader.pdx, evs.len()),
        counts(reader.pdy, evs.len()),
    ensures
        ({
            let (after, msgs) = run(reader, evs);
            &&& moved(msgs).0 + after.pdx == reader.pdx + 3 * steps(evs, REL_X)
            &&& moved(msgs).1 + after.pdy == reader.pdy + 3 * steps(evs, REL_Y)
        }),
{
    lemma_movement(reader, evs);
}

/// Movement is conserved, and the pending movement grows by no more than one event
/// can move.
proof fn lemma_movement(reader: MouseReader, evs: Seq<RawEvent>)
    requires
        counts(reader.pdx, evs.len()),
        counts(reader.pdy, evs.len()),
    ensures
        ({
            let (after, msgs) = run(reader, evs);
            &&& moved(msgs).0 + after.pdx == reader.pdx + 3 * steps(evs, REL_X)
            &&& moved(msgs).1 + after.pdy == reader.pdy + 3 * steps(evs, REL_Y)
            &&& near(reader.pdx, after.pdx, evs.len())
            &&& near(reader.pdy, after.pdy, evs.len())
        }),
    decreases evs.len(),
{
    if evs.len() > 0 {
        let before = run(reader, evs.drop_last());
        lemma_movement(reader, evs.drop_last());
        if let Some(msg) = step(before.0, summary(evs.last())).1 {
            assert(before.1.push(msg).drop_last() =~= before.1);
        }
        if let Summary::RelativeAxis { code, value } = summary(evs.last()) {
            assert(SPEED * value == 3 * value);
        }
    }
}

/// Every change of a mouse button is forwarded, in order and unaltered, and nothing
/// else is forwarded as one.
pub proof fn law_buttons_are_forwarded(reader: MouseReader, evs: Seq<RawEvent>)
    ensures
        forwarded(run(reader, evs).1) == pressed(evs),
    decreases evs.len(),
{
    if evs.len() > 0 {
        let before = run(reader, evs.drop_last());
        law_buttons_are_forwarded(reader, evs.drop_last());
        if let Some(msg) = step(before.0, summary(evs.last())).1 {
            assert(before.1.push(msg).drop_last() =~= before.1);
        }
    }
}

/// A reader speaks only for its own cursor, and never sends a movement by nothing.
pub proof fn law_messages_are_for_the_own_cursor(reader: MouseReader, evs: Seq<RawEvent>)
    ensures
        run(reader, evs).0.idx == reader.idx,
        forall|i: int|
            0 <= i < run(reader, evs).1.len() ==> addressee(#[trigger] run(reader, evs).1[i])
                == reader.idx,
        forall|i: int|
            0 <= i < run(reader, evs).1.len() ==> (#[trigger] run(reader, evs).1[i] matches Msg::Move {
                dx,
                dy,
                ..
            } ==> dx != 0 || dy != 0),
    decreases evs.len(),
{
    if evs.len() > 0 {
        law_messages_are_for_the_own_cursor(reader, evs.drop_last());
    }
}

/// After a synchronization no movement is pending.
pub proof fn law_synchronization_flushes(reader: MouseReader, evs: Seq<RawEvent>)
    requires
        evs.len() > 0,
        summary(evs.last()) == Summary::Synchronization,
    ensures
        run(reader, evs).0.pdx == 0,
        run(reader, evs).0.pdy == 0,
{
}

/// What one event does to the reader of a mouse. A step along an axis adds three half
/// pixels to the pending movement along that axis alone, as far as the counter reaches.
/// A synchronization sends the pending movement, where there is any, and leaves none. A
/// change of a mouse button is sent at once. Nothing else does anything.
pub proof fn law_each_event_has_its_effect(reader: MouseReader, ev: RawEvent)
    ensures
        ({
            let (after, msgs) = run(reader, seq![ev]);
            let x = reader.pdx + 3 * ev.value;
            let y = reader.pdy + 3 * ev.value;
            &&& ev.kind == 2 && ev.code == 0 ==> {
                &&& msgs.len() == 0
                &&& after.idx == reader.idx && after.pdy == reader.pdy
                &&& i64::MIN <= x <= i64::MAX ==> after.pdx == x
                &&& x < i64::MIN ==> after.pdx == i64::MIN
                &&& x > i64::MAX ==> after.pdx == i64::MAX
            }
            &&& ev.kind == 2 && ev.code == 1 ==> {
                &&& msgs.len() == 0
                &&& after.idx == reader.idx && after.pdx == reader.pdx
                &&& i64::MIN <= y <= i64::MAX ==> after.pdy == y
                &&& y < i64::MIN ==> after.pdy == i64::MIN
                &&& y > i64::MAX ==> after.pdy == i64::MAX
            }
            &&& ev.kind == 0 ==> {
                &&& after.idx == reader.idx && after.pdx == 0 && after.pdy == 0
                &&& reader.pdx == 0 && reader.pdy == 0 ==> msgs.len() == 0
                &&& reader.pdx != 0 || reader.pdy != 0 ==> msgs == seq![
                    Msg::Move { idx: reader.idx, dx: reader.pdx, dy: reader.pdy },
                ]
            }
            &&& ev.kind == 1 ==> {
                &&& after == reader
                &&& ev.code < 0x110 ==> msgs.len() == 0
                &&& ev.code >= 0x110 ==> msgs == seq![
                    Msg::Button { idx: reader.idx, code: ev.code, value: ev.value },
                ]
            }
            &&& ev.kind > 2 || (ev.kind == 2 && ev.code > 1) ==> after == reader && msgs.len() == 0
        }),
{
    let none = Seq::<Msg>::empty();
    assert(seq![ev].drop_last() =~= Seq::<RawEvent>::empty());
    assert(seq![ev].last() == ev);
    assert(run(reader, Seq::<RawEvent>::empty()) == (reader, none));
    assert(SPEED * ev.value == 3 * ev.value);
    assert(run(reader, seq![ev]).1 =~= sent(none, step(reader, summary(ev)).1));
    if let Some(msg) = step(reader, summary(ev)).1 {
        assert(none.push(msg) =~= seq![msg]);
    }
}

/// Without events nothing happens.
pub proof fn law_no_events_do_nothing(reader: MouseReader)
    ensures
        run(reader, Seq::empty()).0 == reader,
        run(reader, Seq::empty()).1.len() == 0,
{
}

} // verus!
