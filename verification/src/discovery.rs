//! The search for mice among the input devices of the machine.
use crate::attributes::{has_axis, has_key};
use crate::input::{REL_X, REL_Y};
use crate::text::numbered;
use vstd::prelude::*;

verus! {

/// The key code of the letter A, which every keyboard has and no mouse.
pub const KEY_A: u16 = 30;

/// The number of event devices that are looked at.
pub const DEVICE_COUNT: u32 = 100;

/// Whether a device with these relative axes and these keys is a mouse: it moves
/// along both axes. Keyboards may do so too, for their scroll wheels, but they have
/// letter keys.
pub fn is_mouse(
    axes: Option<&evdev::AttributeSetRef<evdev::RelativeAxisCode>>,
    keys: Option<&evdev::AttributeSetRef<evdev::KeyCode>>,
) -> (r: bool)
    ensures
        r <==> {
            &&& axes is Some
            &&& crate::attributes::axis_codes(axes->0).contains(REL_X)
            &&& crate::attributes::axis_codes(axes->0).contains(REL_Y)
            &&& !(keys is Some && crate::attributes::key_codes(keys->0).contains(KEY_A))
        },
{
    let has_rel_xy = match axes {
        Some(a) => has_axis(a, REL_X) && has_axis(a, REL_Y),
        None => false,
    };
    let is_keyboard = match keys {
        Some(k) => has_key(k, KEY_A),
        None => false,
    };
    has_rel_xy && !is_keyboard
}

/// The path of event device `i`.
pub open spec fn event_path(i: u32) -> Seq<char> {
    "/dev/input/event"@ + crate::text::decimal(i as nat)
}

/// The path of event device `i`.
pub fn device_path(i: u32) -> (path: String)
    ensures
        path@ == event_path(i),
{
    numbered("/dev/input/event", i)
}

/// A search for at most `limit` mice, which looks at the event devices one by one.
pub struct MouseDiscovery {
    limit: usize,
    next: u32,
    found: Vec<u32>,
}

/// A search for mice: how many are wanted, the number of the next device, and the
/// numbers of the mice found so far.
#[verifier::ext_equal]
pub struct DiscoveryView {
    pub limit: nat,
    pub next: nat,
    pub found: Seq<u32>,
}

impl DiscoveryView {
    /// The search before it has looked at any device.
    pub open spec fn start(limit: nat) -> DiscoveryView {
        DiscoveryView { limit, next: 0, found: Seq::empty() }
    }

    /// Whether there is no device left to look at.
    pub open spec fn done(self) -> bool {
        self.found.len() >= self.limit || self.next >= DEVICE_COUNT
    }

    /// The search after it has seen whether the next device is a mouse.
    pub open spec fn probed(self, mouse: bool) -> DiscoveryView {
        if self.done() {
            self
        } else {
            DiscoveryView {
                next: self.next + 1,
                found: if mouse {
                    self.found.push(self.next as u32)
                } else {
                    self.found
                },
                ..self
            }
        }
    }

    /// The search after it has seen which devices are mice, one after the other.
    pub open spec fn probed_all(self, mice: Seq<bool>) -> DiscoveryView
        decreases mice.len(),
    {
        if mice.len() == 0 {
            self
        } else {
            self.probed_all(mice.drop_last()).probed(mice.last())
        }
    }
}

impl View for MouseDiscovery {
    type V = DiscoveryView;

    closed spec fn view(&self) -> DiscoveryView {
        DiscoveryView { limit: self.limit as nat, next: self.next as nat, found: self.found@ }
    }
}

impl MouseDiscovery {
    /// A search for at most `limit` mice.
    pub fn new(limit: usize) -> (d: MouseDiscovery)
        ensures
            d@ == DiscoveryView::start(limit as nat),
    {
        MouseDiscovery { limit, next: 0, found: Vec::new() }
    }

    /// The path of the device to look at next, or nothing once the search is over.
    pub fn next_device(&self) -> (path: Option<String>)
        ensures
            match path {
                Some(path) => !self@.done() && path@ == event_path(self@.next as u32),
                None => self@.done(),
            },
    {
        if self.found.len() >= self.limit || self.next >= DEVICE_COUNT {
            None
        } else {
            Some(device_path(self.next))
        }
    }

    /// Takes in whether the device to look at next is a mouse. A device that is not
    /// there, or cannot be opened, is none.
    pub fn on_probe(&mut self, mouse: bool)
        ensures
            final(self)@ == old(self)@.probed(mouse),
    {
        if self.found.len() >= self.limit || self.next >= DEVICE_COUNT {
            return ;
        }
        if mouse {
            self.found.push(self.next);
        }
        self.next = self.next + 1;
    }

    /// The paths of the mice found so far, in the order of their numbers.
    pub fn paths(&self) -> (paths: Vec<String>)
        ensures
            paths@.len() == self@.found.len(),
            forall|i: int|
                0 <= i < paths@.len() ==> (#[trigger] paths@[i])@ == event_path(self@.found[i]),
    {
        let mut paths: Vec<String> = Vec::new();
        let mut i: usize = 0;
        while i < self.found.len()
            invariant
                i <= self.found.len(),
                paths@.len() == i,
                forall|j: int|
                    0 <= j < i ==> (#[trigger] paths@[j])@ == event_path(self.found@[j]),
            decreases self.found.len() - i,
        {
            paths.push(device_path(self.found[i]));
            i += 1;
        }
        paths
    }
}

/// The devices of the two cursors: the first two of `paths`, where there are two.
pub fn device_pair(paths: &Vec<String>) -> (pair: Option<(String, String)>)
    ensures
        match pair {
            Some((first, second)) => {
                &&& paths@.len() >= 2
                &&& first@ == paths@[0]@
                &&& second@ == paths@[1]@
            },
            None => paths@.len() < 2,
        },
{
    if paths.len() >= 2 {
        Some((paths[0].clone(), paths[1].clone()))
    } else {
        None
    }
}

/// The numbers of the devices that are mice, in ascending order.
pub open spec fn mouse_numbers(mice: Seq<bool>) -> Seq<u32>
    decreases mice.len(),
{
    if mice.len() == 0 {
        Seq::empty()
    } else {
        let before = mouse_numbers(mice.drop_last());
        if mice.last() {
            before.push((mice.len() - 1) as u32)
        } else {
            before
        }
    }
}

/// The first `limit` items of `s`, or all of them where there are fewer.
pub open spec fn at_most(s: Seq<u32>, limit: nat) -> Seq<u32> {
    if s.len() <= limit {
        s
    } else {
        s.take(limit as int)
    }
}

/// The search finds the mice with the lowest numbers, as many as were wanted, among
/// the first hundred devices; where there are not so many, it finds them all.
pub proof fn law_discovery_finds_the_first_mice(limit: nat, mice: Seq<bool>)
    ensures
        mice.len() <= DEVICE_COUNT ==> DiscoveryView::start(limit).probed_all(mice).found
            == at_most(mouse_numbers(mice), limit),
        mice.len() >= DEVICE_COUNT ==> DiscoveryView::start(limit).probed_all(mice).found
            == at_most(mouse_numbers(mice.take(DEVICE_COUNT as int)), limit),
        mice.len() >= DEVICE_COUNT ==> DiscoveryView::start(limit).probed_all(mice).done(),
{
    lemma_discovery(limit, mice);
    if mice.len() == DEVICE_COUNT {
        assert(mice.take(DEVICE_COUNT as int) =~= mice);
    }
}

/// Where the search stands after any number of devices.
proof fn lemma_discovery(limit: nat, mice: Seq<bool>)
    ensures
        ({
            let d = DiscoveryView::start(limit).probed_all(mice);
            let seen: Seq<bool> = if mice.len() <= DEVICE_COUNT {
                mice
            } else {
                mice.take(DEVICE_COUNT as int)
            };
            &&& d.limit == limit
            &&& d.found == at_most(mouse_numbers(seen), limit)
            &&& d.found.len() < limit ==> d.next == seen.len()
        }),
    decreases mice.len(),
{
    if mice.len() > 0 {
        lemma_discovery(limit, mice.drop_last());
        if mice.len() > DEVICE_COUNT {
            assert(mice.drop_last().take(DEVICE_COUNT as int) =~= mice.take(DEVICE_COUNT as int));
            if mice.len() == DEVICE_COUNT + 1 {
                assert(mice.drop_last() =~= mice.take(DEVICE_COUNT as int));
            }
        } else {
            let before = mouse_numbers(mice.drop_last());
            assert(before.take(before.len() as int) =~= before);
            if before.len() >= limit {
                assert(at_most(mouse_numbers(mice), limit) =~= at_most(before, limit));
            }
        }
    }
}

/// The mark of a keyboard is the key of the letter A.
pub proof fn law_keyboards_have_the_letter_a()
    ensures
        KEY_A == 30,
        REL_X == 0,
        REL_Y == 1,
{
}

/// The path of an event device ends in its number.
pub proof fn law_devices_are_named_by_number(i: u32)
    ensures
        event_path(i).len() > 16,
        event_path(i).take(16) == "/dev/input/event"@,
        crate::text::value_of(event_path(i).skip(16)) == i,
{
    reveal_strlit("/dev/input/event");
    crate::text::law_numerals_have_their_value(i as nat);
    assert(event_path(i).take(16) =~= "/dev/input/event"@);
    assert(event_path(i).skip(16) =~= crate::text::decimal(i as nat));
}

/// A search begins at device zero with nothing found. A probe goes on to the next device
/// and keeps the number of the probed one if it is a mouse; once enough mice are found,
/// or a hundred devices seen, it changes nothing.
pub proof fn law_a_probe_looks_at_one_device(d: DiscoveryView, mouse: bool)
    requires
        d.next <= 100,
    ensures
        ({
            let start = DiscoveryView::start(d.limit);
            &&& start.limit == d.limit && start.next == 0 && start.found.len() == 0
        }),
        d.done() <==> d.found.len() >= d.limit || d.next == 100,
        d.probed(mouse).limit == d.limit,
        d.found.len() >= d.limit || d.next == 100 ==> d.probed(mouse) == d,
        d.found.len() < d.limit && d.next < 100 ==> {
            &&& d.probed(mouse).next == d.next + 1
            &&& !mouse ==> d.probed(mouse).found == d.found
            &&& mouse ==> d.probed(mouse).found.len() == d.found.len() + 1
            &&& mouse ==> d.probed(mouse).found.last() == d.next
            &&& mouse ==> d.probed(mouse).found.drop_last() == d.found
        },
{
    if !d.done() && mouse {
        assert(d.probed(mouse).found.drop_last() =~= d.found);
    }
}

/// Of the first hundred devices the search finds mice only, each once and in ascending
/// order, and no more than were wanted. A mouse that it does not find has a higher number
/// than all of those that were wanted.
pub proof fn law_no_earlier_mouse_is_passed_over(limit: nat, mice: Seq<bool>)
    requires
        mice.len() <= 100,
    ensures
        ({
            let d = DiscoveryView::start(limit).probed_all(mice);
            let f = d.found;
            &&& f.len() <= limit
            &&& forall|i: int|
                0 <= i < f.len() ==> (#[trigger] f[i]) < mice.len() && mice[f[i] as int]
            &&& forall|i: int, j: int| 0 <= i < j < f.len() ==> f[i] < f[j]
            &&& forall|n: int|
                0 <= n < mice.len() && #[trigger] mice[n] ==> f.contains(n as u32) || (f.len()
                    == limit && forall|i: int| 0 <= i < f.len() ==> (#[trigger] f[i]) < n)
            &&& d.done() <==> f.len() == limit || mice.len() == 100
        }),
    decreases mice.len(),
{
    let d = DiscoveryView::start(limit).probed_all(mice);
    lemma_discovery(limit, mice);
    if mice.len() > 0 {
        let rest = mice.drop_last();
        let b = DiscoveryView::start(limit).probed_all(rest);
        law_no_earlier_mouse_is_passed_over(limit, rest);
        lemma_discovery(limit, rest);
        let f = d.found;
        assert forall|n: int| 0 <= n < mice.len() && #[trigger] mice[n] implies f.contains(
            n as u32,
        ) || (f.len() == limit && forall|i: int| 0 <= i < f.len() ==> (#[trigger] f[i]) < n) by {
            if n < rest.len() {
                assert(rest[n]);
                if b.found.contains(n as u32) {
                    let i = choose|i: int| 0 <= i < b.found.len() && b.found[i] == n as u32;
                    assert(f[i] == n as u32);
                }
            } else if !b.done() {
                assert(f.last() == n as u32);
                assert(f[f.len() - 1] == n as u32);
            }
        }
    }
}

} // verus!
