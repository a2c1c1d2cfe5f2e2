use vstd::prelude::*;
use vstd::string::StringExecFns;

verus! {

/// What a window-open request does: focus the instance that already
/// exists, or create a new one.
#[derive(Clone, Copy, Debug, PartialEq, Eq, Structural)]
pub enum WindowAction {
    FocusExisting,
    CreateNew,
}

/// The identifier under which the informational window is registered.
pub open spec fn info_window_id() -> Seq<char> {
    "hc3-info"@
}

/// The fixed parameters with which the informational window is created.
pub struct WindowConfig {
    pub id: String,
    pub title: String,
    pub url: String,
    pub width: u32,
    pub height: u32,
    pub resizable: bool,
}

/// The creation parameters of the informational window: fixed
/// identifier, title, page, size and resizability.
pub fn info_window_config() -> (c: WindowConfig)
    ensures
        c.id@ == info_window_id(),
        c.title@ == "HC3 System Info"@,
        c.url@ == "hc3-info.html"@,
        c.width == 700,
        c.height == 600,
        c.resizable,
{
    WindowConfig {
        id: String::from_str("hc3-info"),
        title: String::from_str("HC3 System Info"),
        url: String::from_str("hc3-info.html"),
        width: 700,
        height: 600,
        resizable: true,
    }
}

/// The open-or-focus decision for the informational window: focus it
/// where an instance with its identifier is already registered, create
/// it otherwise.
pub fn open_decision(already_present: bool) -> (a: WindowAction)
    ensures
        a == (if already_present {
            WindowAction::FocusExisting
        } else {
            WindowAction::CreateNew
        }),
{
    if already_present {
        WindowAction::FocusExisting
    } else {
        WindowAction::CreateNew
    }
}

/// No two registered windows carry the same identifier: what a real
/// window map guarantees by construction, and what every operation here
/// preserves.
pub open spec fn unique_ids(s: Seq<Seq<char>>) -> bool {
    forall|i: int, j: int| 0 <= i < j < s.len() ==> s[i] != s[j]
}

/// How many of the registered windows carry the identifier `id`.
pub open spec fn count_of(s: Seq<Seq<char>>, id: Seq<char>) -> nat
    decreases s.len(),
{
    if s.len() == 0 {
        0
    } else {
        (if s[0] == id {
            1nat
        } else {
            0nat
        }) + count_of(s.drop_first(), id)
    }
}

/// What opening the informational window does to the registered set: an
/// existing instance is focused and nothing changes; otherwise one
/// instance is created and registered.
pub open spec fn open_info_spec(s: Seq<Seq<char>>) -> (Seq<Seq<char>>, WindowAction) {
    if s.contains(info_window_id()) {
        (s, WindowAction::FocusExisting)
    } else {
        (s.push(info_window_id()), WindowAction::CreateNew)
    }
}

/// The windowing subsystem's registry, modelled as the identifiers of
/// the windows that exist, in order of creation.
pub struct WindowRegistry {
    ids: Vec<String>,
}

impl View for WindowRegistry {
    type V = Seq<Seq<char>>;

    closed spec fn view(&self) -> Seq<Seq<char>> {
        self.ids@.map_values(|s: String| s@)
    }
}

proof fn lemma_count_push(s: Seq<Seq<char>>, x: Seq<char>, id: Seq<char>)
    ensures
        count_of(s.push(x), id) == count_of(s, id) + (if x == id {
            1nat
        } else {
            0nat
        }),
    decreases s.len(),
{
    if s.len() == 0 {
        assert(s.push(x).drop_first() =~= s);
    } else {
        assert(s.push(x).drop_first() =~= s.drop_first().push(x));
        lemma_count_push(s.drop_first(), x, id);
    }
}

proof fn lemma_count_unique(s: Seq<Seq<char>>, id: Seq<char>)
    requires
        unique_ids(s),
        s.contains(id),
    ensures
        count_of(s, id) == 1,
    decreases s.len(),
{
    let rest = s.drop_first();
    assert(unique_ids(rest)) by {
        assert forall|i: int, j: int| 0 <= i < j < rest.len() implies rest[i] != rest[j] by {
            assert(rest[i] == s[i + 1] && rest[j] == s[j + 1]);
        }
    }
    if s[0] == id {
        assert(forall|j: int| 0 <= j < rest.len() ==> rest[j] == s[j + 1] && s[j + 1] != s[0]);
        assert(!rest.contains(id));
        lemma_count_zero_iff_absent(rest, id);
    } else {
        let i = choose|i: int| 0 <= i < s.len() && s[i] == id;
        assert(rest[i - 1] == id);
        assert(rest.contains(id));
        lemma_count_unique(rest, id);
    }
}

proof fn lemma_count_zero_iff_absent(s: Seq<Seq<char>>, id: Seq<char>)
    ensures
        (count_of(s, id) == 0) <==> !s.contains(id),
    decreases s.len(),
{
    if s.len() > 0 {
        lemma_count_zero_iff_absent(s.drop_first(), id);
        if s.contains(id) && s[0] != id {
            let i = choose|i: int| 0 <= i < s.len() && s[i] == id;
            assert(s.drop_first()[i - 1] == id);
            assert(s.drop_first().contains(id));
        }
        if s.drop_first().contains(id) {
            let i = choose|i: int| 0 <= i < s.drop_first().len() && s.drop_first()[i] == id;
            assert(s[i + 1] == id);
        }
    }
}

impl WindowRegistry {
    /// A subsystem in which no window exists yet.
    pub fn new() -> (w: WindowRegistry)
        ensures
            w@ == Seq::<Seq<char>>::empty(),
    {
        let w = WindowRegistry { ids: Vec::new() };
        proof {
            assert(w@ =~= Seq::<Seq<char>>::empty());
        }
        w
    }

    /// Whether a window with the given identifier exists.
    pub fn contains(&self, id: &String) -> (b: bool)
        ensures
            b == self@.contains(id@),
    {
        let n = self.ids.len();
        let mut i: usize = 0;
        while i < n
            invariant
                n == self.ids@.len(),
                0 <= i <= n,
                forall|j: int| 0 <= j < i ==> self.ids@[j]@ != id@,
            decreases n - i,
        {
            if self.ids[i] == *id {
                assert(self@[i as int] == id@);
                return true;
            }
            i += 1;
        }
        assert(forall|j: int| 0 <= j < self@.len() ==> self@[j] != id@);
        false
    }

    /// How many instances with the given identifier exist.
    pub fn instance_count(&self, id: &String) -> (n: usize)
        ensures
            n == count_of(self@, id@),
    {
        let total = self.ids.len();
        let mut i: usize = 0;
        let mut n: usize = 0;
        while i < total
            invariant
                total == self.ids@.len(),
                0 <= i <= total,
                n <= i,
                n == count_of(self@.subrange(0, i as int), id@),
            decreases total - i,
        {
            let ghost prefix = self@.subrange(0, i as int);
            let matched = self.ids[i] == *id;
            proof {
                assert(self@.subrange(0, i as int + 1) =~= prefix.push(self@[i as int]));
                lemma_count_push(prefix, self@[i as int], id@);
            }
            if matched {
                n += 1;
            }
            i += 1;
        }
        proof {
            assert(self@.subrange(0, total as int) =~= self@);
        }
        n
    }

    /// Handles a request to open the informational window: where an
    /// instance already exists the subsystem is asked to focus it and
    /// nothing is registered; otherwise exactly one instance is created.
    pub fn open_info_window(&mut self) -> (a: WindowAction)
        ensures
            (final(self)@, a) == open_info_spec(old(self)@),
            unique_ids(old(self)@) ==> unique_ids(final(self)@),
    {
        let id = String::from_str("hc3-info");
        if self.contains(&id) {
            WindowAction::FocusExisting
        } else {
            let ghost ids0 = self.ids@;
            self.ids.push(id);
            proof {
                let s0 = ids0.map_values(|s: String| s@);
                assert(self@ =~= s0.push("hc3-info"@));
                if unique_ids(s0) {
                    assert forall|i: int, j: int| 0 <= i < j < self@.len() implies self@[i]
                        != self@[j] by {
                        if j == s0.len() {
                            assert(!s0.contains(info_window_id()));
                            assert(s0[i] != info_window_id());
                        }
                    }
                }
            }
            WindowAction::CreateNew
        }
    }
}

/// Law: opening the informational window twice in succession leaves
/// exactly one instance, from any state a real window map can be in (no
/// duplicate identifiers).  The first request creates the window if and
/// only if no instance exists; the second request always focuses the
/// existing instance and registers nothing new.
pub proof fn lemma_open_twice_single_instance(s: Seq<Seq<char>>)
    requires
        unique_ids(s),
    ensures
        open_info_spec(s).1 == WindowAction::CreateNew <==> !s.contains(info_window_id()),
        open_info_spec(open_info_spec(s).0).1 == WindowAction::FocusExisting,
        open_info_spec(open_info_spec(s).0).0 == open_info_spec(s).0,
        count_of(open_info_spec(open_info_spec(s).0).0, info_window_id()) == 1,
{
    if s.contains(info_window_id()) {
        lemma_count_unique(s, info_window_id());
    } else {
        let s1 = s.push(info_window_id());
        assert(s1[s.len() as int] == info_window_id());
        assert(s1.contains(info_window_id()));
        lemma_count_zero_iff_absent(s, info_window_id());
        lemma_count_push(s, info_window_id(), info_window_id());
    }
}

} // verus!
