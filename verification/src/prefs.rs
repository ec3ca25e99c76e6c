//! User preferences and the bindings of the global shortcuts.

use vstd::prelude::*;

use crate::text::same;

verus! {

/// The user's settings.
#[derive(Debug, PartialEq, Eq)]
pub struct Prefs {
    pub strip_exif: bool,
    pub open_in_browser: bool,
    pub clipboard_copy: bool,
    pub launch_at_login: bool,
    pub auto_check_for_updates: bool,
    pub private_upload: bool,
    /// "url" or "image".
    pub clipboard_mode: String,
    /// Where downloads go; nothing for the system's own folder.
    pub download_dir: Option<String>,
    /// Whether every download asks where to go.
    pub ask_where_to_save: bool,
}

/// The settings of a user who has changed nothing: metadata is stripped, links are copied
/// and opened, uploads are public.
pub open spec fn is_default(p: Prefs) -> bool {
    &&& p.strip_exif
    &&& p.open_in_browser
    &&& p.clipboard_copy
    &&& !p.launch_at_login
    &&& p.auto_check_for_updates
    &&& !p.private_upload
    &&& p.clipboard_mode@ == "url"@
    &&& p.download_dir is None
    &&& !p.ask_where_to_save
}

impl Default for Prefs {
    fn default() -> (r: Self)
        ensures
            is_default(r),
    {
        Prefs {
            strip_exif: true,
            open_in_browser: true,
            clipboard_copy: true,
            launch_at_login: false,
            auto_check_for_updates: true,
            private_upload: false,
            clipboard_mode: "url".to_owned(),
            download_dir: None,
            ask_where_to_save: false,
        }
    }
}

/// The settings to start with: those of the settings file, or the defaults where it could
/// not be read.
pub fn load_prefs(stored: Option<Prefs>) -> (r: Prefs)
    ensures
        match stored {
            Some(p) => r == p,
            None => is_default(r),
        },
{
    match stored {
        Some(p) => p,
        None => Prefs::default(),
    }
}

impl Prefs {
    /// Whether captures themselves are copied, rather than the links to them.
    pub open spec fn copies_image(&self) -> bool {
        self.clipboard_copy && self.clipboard_mode@ == "image"@
    }

    /// Whether links to captures are copied.
    pub open spec fn copies_link(&self) -> bool {
        self.clipboard_copy && self.clipboard_mode@ != "image"@
    }

    /// Whether captures themselves are copied, rather than the links to them.
    pub fn copy_image(&self) -> (r: bool)
        ensures
            r == self.copies_image(),
    {
        self.clipboard_copy && same(self.clipboard_mode.as_str(), "image")
    }

    /// Whether links to captures are copied.
    pub fn copy_link(&self) -> (r: bool)
        ensures
            r == self.copies_link(),
    {
        self.clipboard_copy && !same(self.clipboard_mode.as_str(), "image")
    }
}

// ---- Shortcuts -----------------------------------------------------------------------

/// A capture mode and the shortcut that triggers it.
#[derive(Debug, PartialEq, Eq)]
pub struct Binding {
    pub mode: String,
    pub accelerator: String,
}

impl View for Binding {
    type V = (Seq<char>, Seq<char>);

    open spec fn view(&self) -> (Seq<char>, Seq<char>) {
        (self.mode@, self.accelerator@)
    }
}

/// The shortcuts: for each mode at most one.
#[derive(Debug, PartialEq, Eq)]
pub struct Shortcuts {
    pub bindings: Vec<Binding>,
}

/// What bindings hold.
pub open spec fn entries(bindings: Seq<Binding>) -> Seq<(Seq<char>, Seq<char>)> {
    bindings.map_values(|b: Binding| b@)
}

/// The map that a list of entries makes.
pub open spec fn map_of(list: Seq<(Seq<char>, Seq<char>)>) -> Map<Seq<char>, Seq<char>>
    decreases list.len(),
{
    if list.len() == 0 {
        Map::empty()
    } else {
        map_of(list.drop_last()).insert(list.last().0, list.last().1)
    }
}

impl View for Shortcuts {
    type V = Map<Seq<char>, Seq<char>>;

    open spec fn view(&self) -> Map<Seq<char>, Seq<char>> {
        map_of(entries(self.bindings@))
    }
}

/// No mode occurs twice.
pub open spec fn distinct(list: Seq<(Seq<char>, Seq<char>)>) -> bool {
    forall|i: int, j: int|
        0 <= i < j < list.len() ==> (#[trigger] list[i]).0 != (#[trigger] list[j]).0
}

impl Shortcuts {
    pub open spec fn wf(&self) -> bool {
        distinct(entries(self.bindings@))
    }

    /// The shortcut of a mode.
    pub fn get(&self, mode: &str) -> (r: Option<String>)
        requires
            self.wf(),
        ensures
            match r {
                Some(a) => self@.contains_key(mode@) && self@[mode@] == a@,
                None => !self@.contains_key(mode@),
            },
    {
        match self.find(mode) {
            Some(i) => {
                proof {
                    lemma_map_of(entries(self.bindings@));
                    assert(entries(self.bindings@)[i as int] == self.bindings@[i as int]@);
                }
                Some(self.bindings[i].accelerator.clone())
            },
            None => {
                proof {
                    lemma_map_of(entries(self.bindings@));
                }
                None
            },
        }
    }

    fn find(&self, mode: &str) -> (r: Option<usize>)
        ensures
            match r {
                Some(i) => i < self.bindings@.len() && self.bindings@[i as int].mode@ == mode@,
                None => forall|i: int|
                    0 <= i < entries(self.bindings@).len() ==> (#[trigger] entries(
                        self.bindings@,
                    )[i]).0 != mode@,
            },
    {
        let n: usize = self.bindings.len();
        let mut i: usize = 0;
        while i < n
            invariant
                n == self.bindings@.len(),
                i <= n,
                forall|j: int|
                    0 <= j < i ==> (#[trigger] entries(self.bindings@)[j]).0 != mode@,
            decreases n - i,
        {
            if same(self.bindings[i].mode.as_str(), mode) {
                return Some(i);
            }
            i = i + 1;
        }
        None
    }

    /// Binds a mode to a shortcut, in place of the one that it had.
    pub fn insert(&mut self, mode: String, accelerator: String)
        requires
            old(self).wf(),
        ensures
            final(self).wf(),
            final(self)@ == old(self)@.insert(mode@, accelerator@),
    {
        let ghost before = entries(self.bindings@);
        let ghost (m, a) = (mode@, accelerator@);
        match self.find(mode.as_str()) {
            Some(i) => {
                self.bindings.set(i, Binding { mode, accelerator });
                proof {
                    let after = entries(self.bindings@);
                    assert(before[i as int].0 == m);
                    assert(after =~= before.update(i as int, (m, a)));
                    lemma_update(before, i as int, a);
                }
            },
            None => {
                self.bindings.push(Binding { mode, accelerator });
                proof {
                    let after = entries(self.bindings@);
                    assert(after =~= before.push((m, a)));
                    assert(after.drop_last() =~= before);
                }
            },
        }
    }

    /// All bindings: the modes, and the shortcut of each.
    pub fn accelerators(&self) -> (r: Vec<String>)
        ensures
            crate::text::texts(r@) == entries(self.bindings@).map_values(
                |e: (Seq<char>, Seq<char>)| e.1,
            ),
    {
        let n: usize = self.bindings.len();
        let mut out: Vec<String> = Vec::new();
        let mut i: usize = 0;
        while i < n
            invariant
                n == self.bindings@.len(),
                i <= n,
                out@.len() == i,
                forall|j: int| 0 <= j < i ==> (#[trigger] out@[j])@ == self.bindings@[j].accelerator@,
            decreases n - i,
        {
            out.push(self.bindings[i].accelerator.clone());
            i = i + 1;
        }
        assert(crate::text::texts(out@) =~= entries(self.bindings@).map_values(
            |e: (Seq<char>, Seq<char>)| e.1,
        ));
        out
    }
}

/// Where no mode occurs twice, the map holds exactly the entries of the list.
pub proof fn lemma_map_of(list: Seq<(Seq<char>, Seq<char>)>)
    requires
        distinct(list),
    ensures
        forall|i: int|
            0 <= i < list.len() ==> map_of(list).contains_key((#[trigger] list[i]).0)
                && map_of(list)[list[i].0] == list[i].1,
        forall|m: Seq<char>| #[trigger]
            map_of(list).contains_key(m) ==> exists|i: int|
                0 <= i < list.len() && (#[trigger] list[i]).0 == m,
    decreases list.len(),
{
    if list.len() > 0 {
        let head = list.drop_last();
        let n = list.len() - 1;
        assert forall|i: int| 0 <= i < head.len() implies #[trigger] head[i] == list[i] by {}
        assert(distinct(head)) by {
            assert forall|i: int, j: int| 0 <= i < j < head.len() implies (#[trigger] head[i]).0 != (
            #[trigger] head[j]).0 by {
                assert(list[i].0 != list[j].0);
            }
        }
        lemma_map_of(head);
        assert forall|i: int| 0 <= i < list.len() implies map_of(list).contains_key(
            (#[trigger] list[i]).0,
        ) && map_of(list)[list[i].0] == list[i].1 by {
            if i < n {
                assert(head[i] == list[i]);
                assert(list[i].0 != list[n].0);
            }
        }
        assert forall|m: Seq<char>| #[trigger] map_of(list).contains_key(m) implies exists|i: int|
            0 <= i < list.len() && (#[trigger] list[i]).0 == m by {
            if m == list[n].0 {
            } else {
                assert(map_of(head).contains_key(m));
                let i = choose|i: int| 0 <= i < head.len() && (#[trigger] head[i]).0 == m;
                assert(list[i].0 == m);
            }
        }
    }
}

/// Changing the shortcut of one entry changes the map at its mode.
proof fn lemma_update(list: Seq<(Seq<char>, Seq<char>)>, i: int, accelerator: Seq<char>)
    requires
        distinct(list),
        0 <= i < list.len(),
    ensures
        distinct(list.update(i, (list[i].0, accelerator))),
        map_of(list.update(i, (list[i].0, accelerator))) == map_of(list).insert(
            list[i].0,
            accelerator,
        ),
{
    let after = list.update(i, (list[i].0, accelerator));
    assert forall|j: int, k: int| 0 <= j < k < after.len() implies (#[trigger] after[j]).0 != (
    #[trigger] after[k]).0 by {
        assert(after[j].0 == list[j].0);
        assert(after[k].0 == list[k].0);
    }
    lemma_map_of(list);
    lemma_map_of(after);
    let (old_map, new_map) = (map_of(list), map_of(after));
    assert forall|m: Seq<char>| #[trigger] new_map.contains_key(m) <==> old_map.insert(
        list[i].0,
        accelerator,
    ).contains_key(m) by {
        if new_map.contains_key(m) {
            let k = choose|k: int| 0 <= k < after.len() && (#[trigger] after[k]).0 == m;
            assert(list[k].0 == m);
        }
        if old_map.contains_key(m) {
            let k = choose|k: int| 0 <= k < list.len() && (#[trigger] list[k]).0 == m;
            assert(after[k].0 == m);
        }
        assert(after[i].0 == list[i].0);
    }
    assert forall|m: Seq<char>| #[trigger] new_map.contains_key(m) implies new_map[m]
        == old_map.insert(list[i].0, accelerator)[m] by {
        let k = choose|k: int| 0 <= k < after.len() && (#[trigger] after[k]).0 == m;
        assert(list[k].0 == m);
        if k != i {
            assert(after[k] == list[k]);
            if k < i {
                assert(list[k].0 != list[i].0);
            } else {
                assert(list[i].0 != list[k].0);
            }
        } else {
            assert(after[i] == (list[i].0, accelerator));
        }
    }
    assert(new_map =~= old_map.insert(list[i].0, accelerator));
}

/// The shortcuts of a user who has changed nothing.
pub open spec fn default_bindings() -> Seq<(Seq<char>, Seq<char>)> {
    seq![
        ("region"@, "CmdOrCtrl+Shift+X"@),
        ("fullscreen"@, "CmdOrCtrl+Shift+S"@),
        ("window"@, "CmdOrCtrl+Shift+C"@),
    ]
}

fn binding(mode: &str, accelerator: &str) -> (r: Binding)
    ensures
        r@ == (mode@, accelerator@),
{
    Binding { mode: mode.to_owned(), accelerator: accelerator.to_owned() }
}

/// The shortcuts of a user who has changed nothing. `CmdOrCtrl` is the command key on
/// macOS and the control key elsewhere.
pub fn default_shortcuts() -> (r: Shortcuts)
    ensures
        entries(r.bindings@) == default_bindings(),
        r.wf(),
        r@ == map_of(default_bindings()),
{
    let mut bindings: Vec<Binding> = Vec::new();
    bindings.push(binding("region", "CmdOrCtrl+Shift+X"));
    bindings.push(binding("fullscreen", "CmdOrCtrl+Shift+S"));
    bindings.push(binding("window", "CmdOrCtrl+Shift+C"));
    assert(entries(bindings@) =~= default_bindings());
    proof {
        reveal_strlit("region");
        reveal_strlit("fullscreen");
        reveal_strlit("window");
        assert("region"@[0] != "fullscreen"@[0]);
        assert("region"@[0] != "window"@[0]);
        assert("fullscreen"@[0] != "window"@[0]);
    }
    Shortcuts { bindings }
}

/// The shortcuts to start with: those of the settings file, or the defaults where it could
/// not be read.
pub fn load_shortcuts(stored: Option<Shortcuts>) -> (r: Shortcuts)
    ensures
        match stored {
            Some(s) => r == s,
            None => entries(r.bindings@) == default_bindings() && r.wf(),
        },
{
    match stored {
        Some(s) => s,
        None => default_shortcuts(),
    }
}

/// By default every capture mode has a shortcut, and nothing else has one.
pub proof fn law_every_mode_has_a_default_shortcut(mode: Seq<char>)
    ensures
        map_of(default_bindings()).contains_key(mode) <==> crate::mode::CaptureMode::named(
            mode,
        ) is Some,
{
    let list = default_bindings();
    reveal_strlit("region");
    reveal_strlit("fullscreen");
    reveal_strlit("window");
    assert("region"@[0] != "fullscreen"@[0]);
    assert("region"@[0] != "window"@[0]);
    assert("fullscreen"@[0] != "window"@[0]);
    assert(distinct(list));
    lemma_map_of(list);
    assert(list[0].0 == "region"@ && list[1].0 == "fullscreen"@ && list[2].0 == "window"@);
    if map_of(list).contains_key(mode) {
        let i = choose|i: int| 0 <= i < list.len() && (#[trigger] list[i]).0 == mode;
        assert(i == 0 || i == 1 || i == 2);
    }
}

} // verus!
