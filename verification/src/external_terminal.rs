//! The companion terminal: which of the open terminal windows is the
//! companion, the tab a project is activated in, and the dock state.

use vstd::prelude::*;

use crate::dock::{DockState, WindowRect, MAX_CLOCK_MS};
use crate::text::{
    clone_strings, decimal, has_substring, list_contains, push_decimal, str_contains, string_views,
};
use crate::titles::{
    chosen_title, choose_title, lemma_chosen_title_is_free, title_in_use, ProjectTitles,
};

verus! {

/// Name of the terminal window the app opens its tabs in.
pub fn companion_window_name() -> (s: &'static str)
    ensures
        s@ == "mini-term-companion"@,
{
    "mini-term-companion"
}

/// Milliseconds since the Unix epoch by the system clock.
///
/// Calls `std::time::SystemTime::now` and measures it from `UNIX_EPOCH`
/// (zero when the clock is set before the epoch). Nothing is stated of the
/// value but that, being a `Duration` in milliseconds, it is at most
/// `MAX_CLOCK_MS`.
#[verifier::external_body]
pub fn now_ms() -> (ms: u128)
    ensures
        ms <= MAX_CLOCK_MS,
{
    std::time::SystemTime::now().duration_since(std::time::UNIX_EPOCH).unwrap_or_default().as_millis()
}

/// A top-level terminal window as read from the desktop: its name, the titles
/// of its tabs, its visible rectangle and its handle.
#[derive(Clone, Debug)]
pub struct TerminalWindowInfo {
    pub name: String,
    pub titles: Vec<String>,
    pub rect: WindowRect,
    pub hwnd: usize,
}

/// The window carries the companion name.
pub open spec fn is_companion_named(w: TerminalWindowInfo) -> bool {
    has_substring(w.name@, "mini-term-companion"@)
}

/// How many of `titles` are among `preferred`, counted with repetition.
pub open spec fn preferred_count(titles: Seq<Seq<char>>, preferred: Seq<Seq<char>>) -> nat
    decreases titles.len(),
{
    if titles.len() == 0 {
        0
    } else {
        preferred_count(titles.drop_last(), preferred) + if preferred.contains(titles.last()) {
            1nat
        } else {
            0nat
        }
    }
}

pub open spec fn window_score(w: TerminalWindowInfo, preferred: Seq<Seq<char>>) -> nat {
    preferred_count(string_views(w.titles@), preferred)
}

pub open spec fn is_first_named(ws: Seq<TerminalWindowInfo>, i: int) -> bool {
    &&& 0 <= i < ws.len()
    &&& is_companion_named(ws[i])
    &&& forall|j: int| 0 <= j < i ==> !is_companion_named(#[trigger] ws[j])
}

pub open spec fn is_best_scoring(ws: Seq<TerminalWindowInfo>, preferred: Seq<Seq<char>>, i: int) -> bool {
    &&& 0 <= i < ws.len()
    &&& forall|j: int| 0 <= j < ws.len() ==> window_score(#[trigger] ws[j], preferred) <= window_score(ws[i], preferred)
    &&& forall|j: int| 0 <= j < i ==> window_score(#[trigger] ws[j], preferred) < window_score(ws[i], preferred)
}

/// The companion terminal window among `ws`: the first one carrying the
/// companion name; else, if some titles are preferred, the first of those
/// with the most tabs carrying a preferred title, if that is more than none;
/// else the only window, if there is exactly one.
pub open spec fn companion_index(ws: Seq<TerminalWindowInfo>, preferred: Seq<Seq<char>>) -> Option<int> {
    if exists|i: int| 0 <= i < ws.len() && is_companion_named(#[trigger] ws[i]) {
        Some(choose|i: int| is_first_named(ws, i))
    } else if preferred.len() > 0 && exists|i: int|
        0 <= i < ws.len() && window_score(#[trigger] ws[i], preferred) > 0 {
        Some(choose|i: int| is_best_scoring(ws, preferred, i))
    } else if ws.len() == 1 {
        Some(0)
    } else {
        None
    }
}

proof fn lemma_first_named_exists(ws: Seq<TerminalWindowInfo>, i: int)
    requires
        0 <= i < ws.len(),
        is_companion_named(ws[i]),
    ensures
        exists|k: int| is_first_named(ws, k),
    decreases i,
{
    if exists|j: int| 0 <= j < i && is_companion_named(#[trigger] ws[j]) {
        let j = choose|j: int| 0 <= j < i && is_companion_named(#[trigger] ws[j]);
        lemma_first_named_exists(ws, j);
    } else {
        assert(is_first_named(ws, i));
    }
}

/// `b` scores highest among the first `n` windows, strictly above those before it.
spec fn is_prefix_best(ws: Seq<TerminalWindowInfo>, preferred: Seq<Seq<char>>, n: int, b: int) -> bool {
    &&& 0 <= b < n
    &&& forall|j: int| 0 <= j < n ==> window_score(#[trigger] ws[j], preferred) <= window_score(ws[b], preferred)
    &&& forall|j: int| 0 <= j < b ==> window_score(#[trigger] ws[j], preferred) < window_score(ws[b], preferred)
}

proof fn lemma_prefix_best(ws: Seq<TerminalWindowInfo>, preferred: Seq<Seq<char>>, n: int)
    requires
        1 <= n <= ws.len(),
    ensures
        exists|b: int| is_prefix_best(ws, preferred, n, b),
    decreases n,
{
    if n == 1 {
        assert(is_prefix_best(ws, preferred, 1, 0));
    } else {
        let m = n - 1;
        lemma_prefix_best(ws, preferred, m);
        let b = choose|b: int| is_prefix_best(ws, preferred, m, b);
        if window_score(ws[n - 1], preferred) > window_score(ws[b], preferred) {
            assert(is_prefix_best(ws, preferred, n, n - 1));
        } else {
            assert(is_prefix_best(ws, preferred, n, b));
        }
    }
}

/// The companion pick is one of the windows. When some window carries the
/// companion name, the first such window is picked whatever the tab titles;
/// otherwise, when preferred titles are given and some window has one, a
/// window with the most tabs carrying a preferred title is picked.
pub proof fn lemma_companion_pick(ws: Seq<TerminalWindowInfo>, preferred: Seq<Seq<char>>)
    ensures
        (companion_index(ws, preferred) matches Some(i) ==> 0 <= i < ws.len()),
        (exists|i: int| 0 <= i < ws.len() && is_companion_named(#[trigger] ws[i]))
            ==> (companion_index(ws, preferred) matches Some(i) && is_first_named(ws, i)),
        (!exists|i: int| 0 <= i < ws.len() && is_companion_named(#[trigger] ws[i])) && preferred.len()
            > 0 && (exists|i: int| 0 <= i < ws.len() && window_score(#[trigger] ws[i], preferred) > 0)
            ==> (companion_index(ws, preferred) matches Some(i) && is_best_scoring(ws, preferred, i)
            && window_score(ws[i], preferred) > 0),
{
    if exists|i: int| 0 <= i < ws.len() && is_companion_named(#[trigger] ws[i]) {
        let i = choose|i: int| 0 <= i < ws.len() && is_companion_named(#[trigger] ws[i]);
        lemma_first_named_exists(ws, i);
    } else if preferred.len() > 0 && exists|i: int|
        0 <= i < ws.len() && window_score(#[trigger] ws[i], preferred) > 0 {
        let i = choose|i: int| 0 <= i < ws.len() && window_score(#[trigger] ws[i], preferred) > 0;
        lemma_prefix_best(ws, preferred, ws.len() as int);
        let len = ws.len() as int;
        let b = choose|b: int| is_prefix_best(ws, preferred, len, b);
        assert(is_best_scoring(ws, preferred, b));
        assert(window_score(ws[i], preferred) <= window_score(ws[b], preferred));
    }
}

/// Counts the titles that are among `preferred`.
fn count_preferred(titles: &Vec<String>, preferred: &[String]) -> (r: usize)
    ensures
        r == preferred_count(string_views(titles@), string_views(preferred@)),
{
    let ghost pv = string_views(preferred@);
    let ghost tv = string_views(titles@);
    let n = titles.len();
    let mut count: usize = 0;
    let mut i: usize = 0;
    while i < n
        invariant
            n == titles@.len(),
            tv == string_views(titles@),
            pv == string_views(preferred@),
            i <= n,
            count <= i,
            count == preferred_count(tv.subrange(0, i as int), pv),
        decreases n - i,
    {
        assert(tv.subrange(0, i + 1).drop_last() =~= tv.subrange(0, i as int));
        if list_contains(preferred, titles[i].as_str()) {
            count = count + 1;
        }
        i = i + 1;
    }
    assert(tv.subrange(0, n as int) =~= tv);
    count
}

/// Picks the companion terminal window among `windows`.
pub fn select_companion_window(windows: &[TerminalWindowInfo], preferred_titles: &[String]) -> (r:
    Option<usize>)
    ensures
        match r {
            Some(i) => i < windows@.len() && companion_index(windows@, string_views(preferred_titles@))
                == Some(i as int),
            None => companion_index(windows@, string_views(preferred_titles@)) is None,
        },
{
    let ghost ws = windows@;
    let ghost pv = string_views(preferred_titles@);
    let n = windows.len();
    let name = companion_window_name();
    let mut i: usize = 0;
    while i < n
        invariant
            n == ws.len(),
            ws == windows@,
            name@ == "mini-term-companion"@,
            i <= n,
            forall|j: int| 0 <= j < i ==> !is_companion_named(#[trigger] ws[j]),
        decreases n - i,
    {
        if str_contains(windows[i].name.as_str(), name) {
            proof {
                assert(is_first_named(ws, i as int));
                let k = choose|k: int| is_first_named(ws, k);
                assert(k == i) by {
                    if k < i {
                        assert(!is_companion_named(ws[k]));
                    } else if k > i {
                        assert(!is_companion_named(ws[i as int]));
                    }
                }
            }
            return Some(i);
        }
        i = i + 1;
    }
    assert(!exists|i: int| 0 <= i < ws.len() && is_companion_named(#[trigger] ws[i]));
    if preferred_titles.len() > 0 {
        let mut best_score: usize = 0;
        let mut best: usize = 0;
        let mut i: usize = 0;
        while i < n
            invariant
                n == ws.len(),
                ws == windows@,
                pv == string_views(preferred_titles@),
                i <= n,
                best_score == 0 ==> forall|j: int| 0 <= j < i ==> window_score(#[trigger] ws[j], pv) == 0,
                best_score > 0 ==> {
                    &&& best < i
                    &&& window_score(ws[best as int], pv) == best_score
                    &&& forall|j: int| 0 <= j < i ==> window_score(#[trigger] ws[j], pv) <= best_score
                    &&& forall|j: int| 0 <= j < best ==> window_score(#[trigger] ws[j], pv) < best_score
                },
            decreases n - i,
        {
            let score = count_preferred(&windows[i].titles, preferred_titles);
            if score > best_score {
                best_score = score;
                best = i;
            }
            i = i + 1;
        }
        if best_score > 0 {
            proof {
                assert(is_best_scoring(ws, pv, best as int));
                let k = choose|k: int| is_best_scoring(ws, pv, k);
                assert(k == best) by {
                    if k < best {
                        assert(window_score(ws[k], pv) < window_score(ws[best as int], pv));
                    } else if k > best {
                        assert(window_score(ws[best as int], pv) < window_score(ws[k], pv));
                    }
                }
            }
            return Some(best);
        }
    }
    if n == 1 {
        return Some(0);
    }
    None
}

/// The tab titles of the companion window among `windows`, or none when no
/// window is the companion.
pub fn list_companion_tab_titles(windows: &[TerminalWindowInfo], preferred_titles: &[String]) -> (r:
    Vec<String>)
    ensures
        r@ == match companion_index(windows@, string_views(preferred_titles@)) {
            Some(i) => windows@[i].titles@,
            None => Seq::<String>::empty(),
        },
{
    match select_companion_window(windows, preferred_titles) {
        Some(i) => clone_strings(&windows[i].titles),
        None => Vec::new(),
    }
}

/// The visible rectangle of the companion window among `windows`.
pub fn find_companion_window_rect(
    windows: &[TerminalWindowInfo],
    preferred_titles: &[String],
) -> (r: Option<WindowRect>)
    ensures
        r == match companion_index(windows@, string_views(preferred_titles@)) {
            Some(i) => Some(windows@[i].rect),
            None => None,
        },
{
    match select_companion_window(windows, preferred_titles) {
        Some(i) => Some(windows[i].rect),
        None => None,
    }
}

/// The visible rectangle and handle of the companion window among `windows`.
pub fn find_companion_window_info(
    windows: &[TerminalWindowInfo],
    preferred_titles: &[String],
) -> (r: Option<(WindowRect, usize)>)
    ensures
        r == match companion_index(windows@, string_views(preferred_titles@)) {
            Some(i) => Some((windows@[i].rect, windows@[i].hwnd)),
            None => None,
        },
{
    match select_companion_window(windows, preferred_titles) {
        Some(i) => Some((windows[i].rect, windows[i].hwnd)),
        None => None,
    }
}

/// What to do to bring a project's tab up in the companion terminal.
#[derive(Clone, Debug)]
pub enum ActivationStep {
    /// Focus the open tab at `index`; if that fails, open a new tab titled `title`.
    FocusTab { index: usize, title: String },
    /// Open a new tab titled `title`.
    OpenTab { title: String },
}

/// `i` is the first position of `t` in `s`.
pub open spec fn is_first_position(s: Seq<Seq<char>>, t: Seq<char>, i: int) -> bool {
    &&& 0 <= i < s.len()
    &&& s[i] == t
    &&& forall|j: int| 0 <= j < i ==> s[j] != t
}

/// The titles kept once the open tabs were read: none when no tab is open.
pub open spec fn titles_after_listing(
    titles: Map<Seq<char>, Seq<char>>,
    open: Seq<Seq<char>>,
) -> Map<Seq<char>, Seq<char>> {
    if open.len() == 0 {
        Map::empty()
    } else {
        titles
    }
}

/// The project's title is that of an open tab.
pub open spec fn has_open_tab(
    titles: Map<Seq<char>, Seq<char>>,
    project_id: Seq<char>,
    open: Seq<Seq<char>>,
) -> bool {
    titles.contains_key(project_id) && open.contains(titles[project_id])
}

/// Once a project's tab is recorded under `title`, activating the project
/// while a tab with that title is open focuses that tab.
pub proof fn lemma_recorded_tab_is_focused(
    titles: Map<Seq<char>, Seq<char>>,
    project_id: Seq<char>,
    title: Seq<char>,
    open: Seq<Seq<char>>,
)
    requires
        open.contains(title),
    ensures
        has_open_tab(titles_after_listing(titles.insert(project_id, title), open), project_id, open),
        titles_after_listing(titles.insert(project_id, title), open)[project_id] == title,
{
}

/// A project whose recorded tab is no longer open is given a title that no
/// open tab carries.
pub proof fn lemma_reopened_tab_title_is_free(
    base: Seq<char>,
    titles: Map<Seq<char>, Seq<char>>,
    project_id: Seq<char>,
    open: Seq<Seq<char>>,
)
    ensures
        !open.contains(chosen_title(base, project_id, titles.remove(project_id), open)),
{
    lemma_chosen_title_is_free(base, project_id, titles.remove(project_id), open);
}

/// State of the companion terminal: the title each project's tab was opened
/// under, and the dock, if the app window is docked to the terminal.
pub struct ExternalTerminalState {
    titles_by_project: ProjectTitles,
    dock_state: Option<DockState>,
}

impl ExternalTerminalState {
    /// The title of each project's tab.
    pub closed spec fn titles(&self) -> Map<Seq<char>, Seq<char>> {
        self.titles_by_project@
    }

    /// The dock.
    pub closed spec fn dock(&self) -> Option<DockState> {
        self.dock_state
    }

    /// No titles and no dock.
    pub fn new() -> (r: Self)
        ensures
            r.titles() == Map::<Seq<char>, Seq<char>>::empty(),
            r.dock() is None,
    {
        ExternalTerminalState { titles_by_project: ProjectTitles::new(), dock_state: None }
    }

    /// The titles of the projects' tabs, each once per project.
    pub fn preferred_titles(&self) -> (r: Vec<String>)
        ensures
            r@.len() == self.titles().len(),
            forall|t: Seq<char>|
                #![trigger string_views(r@).contains(t)]
                string_views(r@).contains(t) <==> title_in_use(self.titles(), t),
    {
        self.titles_by_project.values()
    }

    /// Decides how to bring up project `project_id` given the titles of the
    /// open tabs. All titles are forgotten when no tab is open. A project whose
    /// title is an open tab's has that tab focused (the first tab with that
    /// title); otherwise its title is forgotten and a new tab is opened under
    /// the title `choose_title` picks.
    pub fn begin_activation(
        &mut self,
        project_id: &str,
        project_name: &str,
        open_titles: &[String],
    ) -> (r: ActivationStep)
        requires
            open_titles@.len() < usize::MAX,
        ensures
            final(self).dock() == old(self).dock(),
            ({
                let open = string_views(open_titles@);
                let m0 = titles_after_listing(old(self).titles(), open);
                if has_open_tab(m0, project_id@, open) {
                    &&& final(self).titles() == m0
                    &&& r matches ActivationStep::FocusTab { index, title } && is_first_position(
                        open,
                        m0[project_id@],
                        index as int,
                    ) && title@ == m0[project_id@]
                } else {
                    &&& final(self).titles() == m0.remove(project_id@)
                    &&& r matches ActivationStep::OpenTab { title } && title@ == chosen_title(
                        project_name@,
                        project_id@,
                        m0.remove(project_id@),
                        open,
                    )
                }
            }),
    {
        let ghost open = string_views(open_titles@);
        if open_titles.len() == 0 {
            self.titles_by_project.clear();
        }
        let ghost m0 = self.titles_by_project@;
        let existing = match self.titles_by_project.get(project_id) {
            Some(t) => Some(t.clone()),
            None => None,
        };
        match existing {
            Some(existing_title) => {
                let n = open_titles.len();
                let mut i: usize = 0;
                while i < n
                    invariant
                        n == open_titles@.len(),
                        open == string_views(open_titles@),
                        open_titles@.len() < usize::MAX,
                        self.titles_by_project@ == m0,
                        self.dock_state == old(self).dock_state,
                        m0.contains_key(project_id@),
                        m0[project_id@] == existing_title@,
                        m0 == titles_after_listing(old(self).titles(), open),
                        i <= n,
                        forall|j: int| 0 <= j < i ==> open[j] != existing_title@,
                    decreases n - i,
                {
                    if open_titles[i] == existing_title {
                        assert(is_first_position(open, existing_title@, i as int));
                        let title = choose_title(
                            project_name,
                            project_id,
                            &self.titles_by_project,
                            open_titles,
                        );
                        return ActivationStep::FocusTab { index: i, title };
                    }
                    i = i + 1;
                }
                assert(!open.contains(existing_title@)) by {
                    if open.contains(existing_title@) {
                        let j = choose|j: int| 0 <= j < open.len() && open[j] == existing_title@;
                        assert(open[j] != existing_title@);
                    }
                }
                self.titles_by_project.remove(project_id);
            },
            None => {
                self.titles_by_project.remove(project_id);
                assert(m0.remove(project_id@) =~= m0);
            },
        }
        let title = choose_title(project_name, project_id, &self.titles_by_project, open_titles);
        ActivationStep::OpenTab { title }
    }

    /// Records that project `project_id`'s tab was opened under `title`.
    pub fn finish_activation(&mut self, project_id: String, title: String)
        ensures
            final(self).titles() == old(self).titles().insert(project_id@, title@),
            final(self).dock() == old(self).dock(),
    {
        self.titles_by_project.insert(project_id, title);
    }

    /// The dock.
    pub fn dock_state(&self) -> (r: Option<DockState>)
        ensures
            r == self.dock(),
    {
        self.dock_state
    }

    /// Replaces the dock.
    pub fn set_dock_state(&mut self, dock: Option<DockState>)
        ensures
            final(self).dock() == dock,
            final(self).titles() == old(self).titles(),
    {
        self.dock_state = dock;
    }

    /// Undocks the app window.
    pub fn clear_companion_dock(&mut self)
        ensures
            final(self).dock() is None,
            final(self).titles() == old(self).titles(),
    {
        self.dock_state = None;
    }

    /// The dock, when a move of the app window at time `now` is to be
    /// followed: there is a dock and `now` is past its quiet period.
    pub fn follow_target_at(&self, now: u128) -> (r: Option<DockState>)
        ensures
            r == match self.dock() {
                Some(d) => if now >= d.ignore_app_moves_until_ms {
                    Some(d)
                } else {
                    None
                },
                None => None,
            },
    {
        match self.dock_state {
            Some(d) => if d.follows_app_move_at(now) {
                Some(d)
            } else {
                None
            },
            None => None,
        }
    }
}

/// Arguments to the terminal program that open a new tab in the companion
/// window, starting in `project_path` and titled `title` for good.
pub fn new_tab_args(project_path: &str, title: &str) -> (r: Vec<String>)
    ensures
        string_views(r@) == seq![
            "-w"@,
            "mini-term-companion"@,
            "nt"@,
            "-d"@,
            project_path@,
            "--title"@,
            title@,
            "--suppressApplicationTitle"@,
        ],
{
    let mut r: Vec<String> = Vec::new();
    r.push(String::from_str("-w"));
    r.push(String::from_str(companion_window_name()));
    r.push(String::from_str("nt"));
    r.push(String::from_str("-d"));
    r.push(String::from_str(project_path));
    r.push(String::from_str("--title"));
    r.push(String::from_str(title));
    r.push(String::from_str("--suppressApplicationTitle"));
    assert(string_views(r@) =~= seq![
        "-w"@,
        "mini-term-companion"@,
        "nt"@,
        "-d"@,
        project_path@,
        "--title"@,
        title@,
        "--suppressApplicationTitle"@,
    ]);
    r
}

/// Arguments to the terminal program that focus the tab at `tab_index` of
/// the companion window.
pub fn focus_tab_args(tab_index: usize) -> (r: Vec<String>)
    ensures
        string_views(r@) == seq![
            "-w"@,
            "mini-term-companion"@,
            "focus-tab"@,
            "-t"@,
            decimal(tab_index as nat),
        ],
{
    let mut r: Vec<String> = Vec::new();
    r.push(String::from_str("-w"));
    r.push(String::from_str(companion_window_name()));
    r.push(String::from_str("focus-tab"));
    r.push(String::from_str("-t"));
    let mut index = String::new();
    push_decimal(&mut index, tab_index);
    r.push(index);
    assert(string_views(r@) =~= seq![
        "-w"@,
        "mini-term-companion"@,
        "focus-tab"@,
        "-t"@,
        decimal(tab_index as nat),
    ]);
    r
}

} // verus!
