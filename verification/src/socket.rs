//! The search for the socket of the Wayland compositor.
//!
//! The environment names it. Where it does not, as under `sudo`, the sockets in the
//! runtime directory of the user are tried one after the other.
use crate::text::{ends_with, numbered, starts_with};
use vstd::prelude::*;

verus! {

/// Whether a file in the runtime directory is a socket of a compositor, by its name.
pub open spec fn names_display(name: Seq<char>) -> bool {
    "wayland-"@.is_prefix_of(name) && !".lock"@.is_suffix_of(name)
}

/// Whether a file in the runtime directory is a socket of a compositor, by its name.
pub fn is_display(name: &str) -> (b: bool)
    ensures
        b == names_display(name@),
{
    starts_with(name, "wayland-") && !ends_with(name, ".lock")
}

/// The runtime directory of the user `uid`.
pub fn runtime_dir(uid: u32) -> (dir: String)
    ensures
        dir@ == "/run/user/"@ + crate::text::decimal(uid as nat),
{
    numbered("/run/user/", uid)
}

/// The displays among the names of files, in the order in which they are given.
pub open spec fn displays(names: Seq<Seq<char>>) -> Seq<Seq<char>> {
    names.filter(|name: Seq<char>| names_display(name))
}

/// The characters of each string.
pub open spec fn texts(strings: Seq<String>) -> Seq<Seq<char>> {
    strings.map_values(|s: String| s@)
}

/// How far the search has come.
#[derive(Clone, Copy, Debug, PartialEq, Eq, Structural)]
pub enum Stage {
    /// To try what the environment names.
    Environment,
    /// To list the runtime directory.
    Directory,
    /// To try the next display.
    Displays,
    /// The compositor answered.
    Connected,
    /// No socket is left to try.
    Failed,
}

/// The search for the compositor.
pub struct Search {
    stage: Stage,
    displays: Vec<String>,
    next: usize,
}

/// The search for the compositor: its stage and the displays that are left to try.
#[verifier::ext_equal]
pub struct SearchView {
    pub stage: Stage,
    pub left: Seq<Seq<char>>,
}

impl SearchView {
    /// The search before anything was tried.
    pub open spec fn start() -> SearchView {
        SearchView { stage: Stage::Environment, left: Seq::empty() }
    }

    /// The stage of trying displays with these left to try.
    pub open spec fn trying(left: Seq<Seq<char>>) -> SearchView {
        SearchView {
            stage: if left.len() == 0 {
                Stage::Failed
            } else {
                Stage::Displays
            },
            left,
        }
    }

    /// The search after an attempt to connect.
    pub open spec fn attempted(self, connected: bool) -> SearchView {
        match self.stage {
            Stage::Environment => SearchView {
                stage: if connected {
                    Stage::Connected
                } else {
                    Stage::Directory
                },
                ..self
            },
            Stage::Displays => if connected {
                SearchView { stage: Stage::Connected, ..self }
            } else {
                SearchView::trying(self.left.drop_first())
            },
            _ => self,
        }
    }

    /// The search after the runtime directory was listed.
    pub open spec fn listed(self, names: Seq<Seq<char>>) -> SearchView {
        if self.stage == Stage::Directory {
            SearchView::trying(displays(names))
        } else {
            self
        }
    }

    /// The search after displays were tried in turn, of which those in `live` answer.
    pub open spec fn tried(self, live: Set<Seq<char>>) -> SearchView
        decreases self.left.len(),
    {
        if self.stage == Stage::Displays && self.left.len() > 0 {
            if live.contains(self.left.first()) {
                self.attempted(true)
            } else {
                self.attempted(false).tried(live)
            }
        } else {
            self
        }
    }
}

impl View for Search {
    type V = SearchView;

    closed spec fn view(&self) -> SearchView {
        SearchView { stage: self.stage, left: texts(self.displays@).skip(self.next as int) }
    }
}

impl Search {
    /// Whether the stage agrees with the displays that are left: in the stage of trying
    /// them there is one to try.
    pub closed spec fn wf(&self) -> bool {
        &&& self.next <= self.displays@.len()
        &&& self.stage == Stage::Displays ==> self.next < self.displays@.len()
    }

    /// A search that has tried nothing yet.
    pub fn new() -> (s: Search)
        ensures
            s.wf(),
            s@ == SearchView::start(),
    {
        let s = Search { stage: Stage::Environment, displays: Vec::new(), next: 0 };
        assert(s@.left =~= Seq::empty());
        s
    }

    /// How far the search has come.
    pub fn stage(&self) -> (stage: Stage)
        ensures
            stage == self@.stage,
    {
        self.stage
    }

    /// The display to try next, in the stage of trying them.
    pub fn display(&self) -> (display: Option<&String>)
        requires
            self.wf(),
        ensures
            match display {
                Some(d) => self@.stage == Stage::Displays && self@.left.len() > 0 && d@
                    == self@.left.first(),
                None => self@.stage != Stage::Displays,
            },
    {
        match self.stage {
            Stage::Displays => Some(&self.displays[self.next]),
            _ => None,
        }
    }

    /// Takes in whether the attempt to connect succeeded.
    pub fn on_attempt(&mut self, connected: bool)
        requires
            old(self).wf(),
        ensures
            final(self).wf(),
            final(self)@ == old(self)@.attempted(connected),
    {
        match self.stage {
            Stage::Environment => {
                self.stage = if connected { Stage::Connected } else { Stage::Directory };
            },
            Stage::Displays => {
                if connected {
                    self.stage = Stage::Connected;
                } else {
                    let count: usize = self.displays.len();
                    self.next = self.next + 1;
                    if self.next == count {
                        self.stage = Stage::Failed;
                    }
                    assert(self@.left =~= old(self)@.left.drop_first());
                }
            },
            _ => {},
        }
    }

    /// Takes in the names of the files in the runtime directory: none where it
    /// cannot be listed.
    pub fn on_listing(&mut self, names: &Vec<String>)
        requires
            old(self).wf(),
        ensures
            final(self).wf(),
            final(self)@ == old(self)@.listed(texts(names@)),
    {
        match self.stage {
            Stage::Directory => {
                let found = select_displays(names);
                self.stage = if found.len() == 0 { Stage::Failed } else { Stage::Displays };
                self.displays = found;
                self.next = 0;
                assert(self@.left =~= displays(texts(names@)));
            },
            _ => {},
        }
    }
}

/// The displays among the names of files, in the order in which they are given.
fn select_displays(names: &Vec<String>) -> (found: Vec<String>)
    ensures
        texts(found@) == displays(texts(names@)),
{
    let mut found: Vec<String> = Vec::new();
    let mut i: usize = 0;
    proof {
        reveal(Seq::filter);
    }
    assert(texts(found@) =~= displays(texts(names@).take(0)));
    while i < names.len()
        invariant
            i <= names.len(),
            texts(found@) == displays(texts(names@).take(i as int)),
        decreases names.len() - i,
    {
        let ghost before = texts(found@);
        proof {
            reveal(Seq::filter);
        }
        assert(texts(names@).take(i + 1).drop_last() =~= texts(names@).take(i as int));
        if is_display(names[i].as_str()) {
            found.push(names[i].clone());
            assert(texts(found@) =~= before.push(names@[i as int]@));
        }
        i += 1;
    }
    assert(texts(names@).take(names@.len() as int) =~= texts(names@));
    found
}

/// The search ends at the first display that answers, with those behind it untried,
/// and fails exactly where none answers.
pub proof fn law_the_first_live_display_is_chosen(left: Seq<Seq<char>>, live: Set<Seq<char>>)
    ensures
        ({
            let end = SearchView::trying(left).tried(live);
            if exists|i: int| 0 <= i < left.len() && live.contains(#[trigger] left[i]) {
                exists|i: int|
                    {
                        &&& 0 <= i < left.len()
                        &&& live.contains(#[trigger] left[i])
                        &&& forall|j: int| 0 <= j < i ==> !live.contains(#[trigger] left[j])
                        &&& end == (SearchView { stage: Stage::Connected, left: left.skip(i) })
                    }
            } else {
                end == (SearchView { stage: Stage::Failed, left: Seq::empty() })
            }
        }),
    decreases left.len(),
{
    let end = SearchView::trying(left).tried(live);
    if left.len() == 0 {
        assert(left =~= Seq::empty());
    } else if live.contains(left[0]) {
        assert(left.first() == left[0]);
        assert(left.skip(0) =~= left);
    } else {
        let rest = left.drop_first();
        assert(left.first() == left[0]);
        assert forall|j: int| 0 <= j < rest.len() implies rest[j] == #[trigger] left[j + 1] by {}
        law_the_first_live_display_is_chosen(rest, live);
        if exists|i: int| 0 <= i < rest.len() && live.contains(#[trigger] rest[i]) {
            let i = choose|i: int|
                {
                    &&& 0 <= i < rest.len()
                    &&& live.contains(#[trigger] rest[i])
                    &&& forall|j: int| 0 <= j < i ==> !live.contains(#[trigger] rest[j])
                    &&& end == (SearchView { stage: Stage::Connected, left: rest.skip(i) })
                };
            assert(live.contains(left[i + 1]));
            assert forall|j: int| 0 <= j < i + 1 implies !live.contains(#[trigger] left[j]) by {
                if j > 0 {
                    assert(rest[j - 1] == left[j]);
                }
            }
            assert(rest.skip(i) =~= left.skip(i + 1));
        } else {
            assert forall|i: int| 0 <= i < left.len() implies !live.contains(#[trigger] left[i]) by {
                if i > 0 {
                    assert(rest[i - 1] == left[i]);
                }
            }
        }
    }
}

/// A display is a file whose name starts with the mark of a Wayland socket and does not
/// end in that of a lock.
pub proof fn law_displays_are_sockets_without_locks(name: Seq<char>)
    ensures
        names_display(name) <==> {
            &&& name.len() >= 8
            &&& name.take(8) == seq!['w', 'a', 'y', 'l', 'a', 'n', 'd', '-']
            &&& !(name.skip(name.len() - 5) == seq!['.', 'l', 'o', 'c', 'k'])
        },
{
    reveal_strlit("wayland-");
    reveal_strlit(".lock");
    let mark = seq!['w', 'a', 'y', 'l', 'a', 'n', 'd', '-'];
    let lock = seq!['.', 'l', 'o', 'c', 'k'];
    assert("wayland-"@ =~= mark);
    assert(".lock"@ =~= lock);
    if name.len() >= 8 {
        assert(name.take(8) =~= name.subrange(0, 8));
        assert(name.skip(name.len() - 5) =~= name.subrange(name.len() - 5, name.len() as int));
    }
}

/// The displays of a listing are those of its parts, in order: a name that is a display
/// is kept as it is, and another one is left out.
pub proof fn law_listings_are_taken_name_by_name(
    a: Seq<Seq<char>>,
    b: Seq<Seq<char>>,
    name: Seq<char>,
)
    ensures
        displays(a + b) == displays(a) + displays(b),
        names_display(name) ==> displays(seq![name]) == seq![name],
        !names_display(name) ==> displays(seq![name]).len() == 0,
        displays(Seq::empty()).len() == 0,
{
    reveal(Seq::filter);
    Seq::filter_distributes_over_add(a, b, |name: Seq<char>| names_display(name));
    let one = seq![name];
    assert(one.drop_last() =~= Seq::empty());
    assert(one.last() == name);
    assert(displays(one.drop_last()) =~= Seq::empty());
    if names_display(name) {
        assert(displays(one) =~= one);
    } else {
        assert(displays(one) =~= Seq::empty());
    }
}

/// The search first tries the environment, then lists the directory, then tries the
/// displays of the listing from the first to the last. An attempt that succeeds ends it,
/// and it fails when no display is left. Once it is over nothing changes it.
pub proof fn law_the_search_goes_stage_by_stage(s: SearchView, names: Seq<Seq<char>>)
    ensures
        SearchView::start().stage == Stage::Environment,
        SearchView::start().left.len() == 0,
        s.stage == Stage::Environment ==> {
            &&& s.attempted(true).stage == Stage::Connected
            &&& s.attempted(false).stage == Stage::Directory
            &&& s.listed(names) == s
        },
        s.stage == Stage::Directory ==> {
            &&& s.attempted(true) == s && s.attempted(false) == s
            &&& s.listed(names).left == displays(names)
            &&& displays(names).len() == 0 ==> s.listed(names).stage == Stage::Failed
            &&& displays(names).len() > 0 ==> s.listed(names).stage == Stage::Displays
        },
        s.stage == Stage::Displays && s.left.len() > 0 ==> {
            &&& s.attempted(true).stage == Stage::Connected
            &&& s.attempted(true).left == s.left
            &&& seq![s.left[0]] + s.attempted(false).left == s.left
            &&& s.left.len() == 1 ==> s.attempted(false).stage == Stage::Failed
            &&& s.left.len() > 1 ==> s.attempted(false).stage == Stage::Displays
            &&& s.listed(names) == s
        },
        s.stage == Stage::Connected || s.stage == Stage::Failed ==> {
            &&& s.attempted(true) == s && s.attempted(false) == s
            &&& s.listed(names) == s
        },
{
    if s.stage == Stage::Displays && s.left.len() > 0 {
        assert(seq![s.left[0]] + s.left.drop_first() =~= s.left);
    }
}

} // verus!
