//! The tab titles given to projects in the companion terminal, and the rule
//! that picks the title of a new tab.

use vstd::prelude::*;
use vstd::set_lib::{lemma_int_range, lemma_len_subset, lemma_map_size, set_int_range};
use vstd::seq_lib::seq_to_set_is_finite;

use crate::text::{decimal, lemma_decimal_injective, list_contains, push_decimal, str_eq, string_views};

verus! {

/// A map from project id to the tab title that project was opened under.
pub struct ProjectTitles {
    entries: Vec<(String, String)>,
    model: Ghost<Map<Seq<char>, Seq<char>>>,
}

/// The entries hold each project id once, and agree with the map.
pub open spec fn entries_agree(
    entries: Seq<(String, String)>,
    model: Map<Seq<char>, Seq<char>>,
) -> bool {
    &&& forall|i: int, j: int|
        0 <= i < entries.len() && 0 <= j < entries.len() && i != j ==> #[trigger] entries[i].0@
            != #[trigger] entries[j].0@
    &&& forall|i: int|
        0 <= i < entries.len() ==> model.contains_key(#[trigger] entries[i].0@) && model[entries[i].0@]
            == entries[i].1@
    &&& forall|k: Seq<char>|
        #[trigger] model.contains_key(k) ==> exists|i: int|
            0 <= i < entries.len() && #[trigger] entries[i].0@ == k
}

/// Agreeing entries hold exactly as many projects as the map.
proof fn lemma_agree_len(entries: Seq<(String, String)>, model: Map<Seq<char>, Seq<char>>)
    requires
        entries_agree(entries, model),
    ensures
        model.dom().finite(),
        model.len() == entries.len(),
{
    let x = set_int_range(0, entries.len() as int);
    let f = |i: int| entries[i].0@;
    lemma_int_range(0, entries.len() as int);
    assert forall|a: int, b: int|
        x.contains(a) && x.contains(b) && #[trigger] f(a) == #[trigger] f(b) implies a == b by {
        if a != b {
            assert(entries[a].0@ != entries[b].0@);
        }
    }
    assert forall|k: Seq<char>| #[trigger] x.map(f).contains(k) == model.dom().contains(k) by {
        if model.dom().contains(k) {
            let i = choose|i: int| 0 <= i < entries.len() && #[trigger] entries[i].0@ == k;
            assert(x.contains(i) && f(i) == k);
        }
        if x.map(f).contains(k) {
            let i = choose|i: int| x.contains(i) && k == f(i);
            assert(model.contains_key(entries[i].0@));
        }
    }
    assert(x.map(f) =~= model.dom());
    lemma_map_size(x, model.dom(), f);
}

impl View for ProjectTitles {
    type V = Map<Seq<char>, Seq<char>>;

    closed spec fn view(&self) -> Map<Seq<char>, Seq<char>> {
        self.model@
    }
}

/// The position of `key` among agreeing entries.
fn find_entry(entries: &Vec<(String, String)>, model: Ghost<Map<Seq<char>, Seq<char>>>, key: &str) -> (r:
    Option<usize>)
    requires
        entries_agree(entries@, model@),
    ensures
        match r {
            Some(i) => i < entries@.len() && entries@[i as int].0@ == key@,
            None => !model@.contains_key(key@),
        },
{
    let n = entries.len();
    let mut i: usize = 0;
    while i < n
        invariant
            n == entries@.len(),
            i <= n,
            forall|j: int| 0 <= j < i ==> entries@[j].0@ != key@,
        decreases n - i,
    {
        if str_eq(entries[i].0.as_str(), key) {
            return Some(i);
        }
        i = i + 1;
    }
    proof {
        if model@.contains_key(key@) {
            let j = choose|j: int| 0 <= j < entries@.len() && #[trigger] entries@[j].0@ == key@;
            assert(entries@[j].0@ != key@);
        }
    }
    None
}

impl ProjectTitles {
    #[verifier::type_invariant]
    closed spec fn agrees(&self) -> bool {
        entries_agree(self.entries@, self.model@)
    }

    /// An empty map.
    pub fn new() -> (r: Self)
        ensures
            r@ == Map::<Seq<char>, Seq<char>>::empty(),
    {
        ProjectTitles { entries: Vec::new(), model: Ghost(Map::empty()) }
    }

    /// The title of project `key`, if it has one.
    pub fn get(&self, key: &str) -> (r: Option<&String>)
        ensures
            match r {
                Some(v) => self@.contains_key(key@) && v@ == self@[key@],
                None => !self@.contains_key(key@),
            },
    {
        proof {
            use_type_invariant(self);
        }
        match find_entry(&self.entries, self.model, key) {
            Some(i) => Some(&self.entries[i].1),
            None => None,
        }
    }

    /// Gives project `key` the title `value`.
    pub fn insert(&mut self, key: String, value: String)
        ensures
            final(self)@ == old(self)@.insert(key@, value@),
    {
        proof {
            use_type_invariant(&*self);
        }
        let ghost k = key@;
        let ghost v = value@;
        let ghost m = self.model@;
        let mut taken = ProjectTitles::new();
        std::mem::swap(&mut taken, self);
        proof {
            use_type_invariant(&taken);
        }
        let ProjectTitles { mut entries, model } = taken;
        let ghost old_entries = entries@;
        assert(entries_agree(old_entries, m));
        let ghost new_model = m.insert(k, v);
        match find_entry(&entries, model, key.as_str()) {
            Some(i) => {
                entries.set(i, (key, value));
                assert forall|j: Seq<char>| #[trigger]
                    new_model.contains_key(j) implies exists|t: int|
                    0 <= t < entries@.len() && #[trigger] entries@[t].0@ == j by {
                    if j != k {
                        let t = choose|t: int|
                            0 <= t < old_entries.len() && #[trigger] old_entries[t].0@ == j;
                        assert(entries@[t].0@ == j);
                    } else {
                        assert(entries@[i as int].0@ == j);
                    }
                }
            },
            None => {
                entries.push((key, value));
                assert forall|j: Seq<char>| #[trigger]
                    new_model.contains_key(j) implies exists|t: int|
                    0 <= t < entries@.len() && #[trigger] entries@[t].0@ == j by {
                    if j != k {
                        let t = choose|t: int|
                            0 <= t < old_entries.len() && #[trigger] old_entries[t].0@ == j;
                        assert(entries@[t].0@ == j);
                    } else {
                        assert(entries@[old_entries.len() as int].0@ == j);
                    }
                }
            },
        }
        assert(entries_agree(entries@, new_model));
        *self = ProjectTitles { entries, model: Ghost(new_model) };
    }

    /// Forgets the title of project `key`.
    pub fn remove(&mut self, key: &str)
        ensures
            final(self)@ == old(self)@.remove(key@),
    {
        proof {
            use_type_invariant(&*self);
        }
        let ghost m = self.model@;
        let mut taken = ProjectTitles::new();
        std::mem::swap(&mut taken, self);
        proof {
            use_type_invariant(&taken);
        }
        let ProjectTitles { mut entries, model } = taken;
        let ghost old_entries = entries@;
        let ghost new_model = m.remove(key@);
        match find_entry(&entries, model, key) {
            Some(i) => {
                entries.remove(i);
                assert forall|a: int|
                    0 <= a < entries@.len() implies new_model.contains_key(
                    #[trigger] entries@[a].0@,
                ) && new_model[entries@[a].0@] == entries@[a].1@ by {
                    if a < i {
                        assert(entries@[a] == old_entries[a]);
                    } else {
                        assert(entries@[a] == old_entries[a + 1]);
                    }
                }
                assert forall|j: Seq<char>| #[trigger]
                    new_model.contains_key(j) implies exists|t: int|
                    0 <= t < entries@.len() && #[trigger] entries@[t].0@ == j by {
                    let t = choose|t: int|
                        0 <= t < old_entries.len() && #[trigger] old_entries[t].0@ == j;
                    if t < i {
                        assert(entries@[t].0@ == j);
                    } else {
                        assert(t != i);
                        assert(entries@[t - 1].0@ == j);
                    }
                }
            },
            None => {
                assert(new_model =~= m);
            },
        }
        assert(entries_agree(entries@, new_model));
        *self = ProjectTitles { entries, model: Ghost(new_model) };
    }

    /// Forgets every title.
    pub fn clear(&mut self)
        ensures
            final(self)@ == Map::<Seq<char>, Seq<char>>::empty(),
    {
        *self = ProjectTitles::new();
    }

    /// Every title in use, one per project.
    pub fn values(&self) -> (r: Vec<String>)
        ensures
            r@.len() == self@.len(),
            forall|t: Seq<char>|
                #![trigger string_views(r@).contains(t)]
                string_views(r@).contains(t) <==> title_in_use(self@, t),
    {
        proof {
            use_type_invariant(self);
            lemma_agree_len(self.entries@, self.model@);
        }
        let n = self.entries.len();
        let mut r: Vec<String> = Vec::new();
        let mut i: usize = 0;
        while i < n
            invariant
                entries_agree(self.entries@, self.model@),
                n == self.entries@.len(),
                i <= n,
                r@.len() == i,
                forall|j: int| 0 <= j < i ==> #[trigger] r@[j]@ == self.entries@[j].1@,
            decreases n - i,
        {
            r.push(self.entries[i].1.clone());
            i = i + 1;
        }
        assert forall|t: Seq<char>|
            string_views(r@).contains(t) <==> title_in_use(self@, t) by {
            if string_views(r@).contains(t) {
                let j = choose|j: int| 0 <= j < string_views(r@).len() && string_views(r@)[j] == t;
                assert(r@[j]@ == t);
                let k = self.entries@[j].0@;
                assert(self@.contains_key(k) && self@[k] == t);
            }
            if title_in_use(self@, t) {
                let k = choose|k: Seq<char>| #[trigger] self@.contains_key(k) && self@[k] == t;
                let j = choose|j: int| 0 <= j < self.entries@.len() && #[trigger] self.entries@[j].0@ == k;
                assert(string_views(r@)[j] == t);
            }
        }
        r
    }
}

/// Some project has the title `t`.
pub open spec fn title_in_use(titles: Map<Seq<char>, Seq<char>>, t: Seq<char>) -> bool {
    exists|k: Seq<char>| #[trigger] titles.contains_key(k) && titles[k] == t
}

/// The title `base(k)` tried when `base` is taken.
pub open spec fn title_candidate(base: Seq<char>, k: nat) -> Seq<char> {
    base + seq!['('] + decimal(k) + seq![')']
}

/// `k` is the least index from 1 whose candidate is not among `open`.
pub open spec fn is_first_free_candidate(base: Seq<char>, open: Seq<Seq<char>>, k: nat) -> bool {
    &&& k >= 1
    &&& !open.contains(title_candidate(base, k))
    &&& forall|j: nat| 1 <= j < k ==> open.contains(#[trigger] title_candidate(base, j))
}

/// The title a project gets: the one it already has, else its base name if no
/// open tab carries it, else the first `base(k)` no open tab carries.
pub open spec fn chosen_title(
    base: Seq<char>,
    project_id: Seq<char>,
    titles: Map<Seq<char>, Seq<char>>,
    open: Seq<Seq<char>>,
) -> Seq<char> {
    if titles.contains_key(project_id) {
        titles[project_id]
    } else if !open.contains(base) {
        base
    } else {
        title_candidate(base, choose|k: nat| is_first_free_candidate(base, open, k))
    }
}

/// Different indices give different candidates.
pub proof fn lemma_candidate_injective(base: Seq<char>, a: nat, b: nat)
    requires
        title_candidate(base, a) == title_candidate(base, b),
    ensures
        a == b,
{
    let ca = title_candidate(base, a);
    let cb = title_candidate(base, b);
    assert(ca.len() == cb.len());
    assert(ca.len() == base.len() + decimal(a).len() + 2);
    assert(cb.len() == base.len() + decimal(b).len() + 2);
    assert(decimal(a).len() == decimal(b).len());
    let lo: int = base.len() as int + 1;
    assert(ca.subrange(lo, lo + decimal(a).len()) =~= decimal(a));
    assert(cb.subrange(lo, lo + decimal(b).len()) =~= decimal(b));
    lemma_decimal_injective(a, b);
}

/// At most one index is the first free one.
pub proof fn lemma_first_free_unique(base: Seq<char>, open: Seq<Seq<char>>, a: nat, b: nat)
    requires
        is_first_free_candidate(base, open, a),
        is_first_free_candidate(base, open, b),
    ensures
        a == b,
{
    if a < b {
        assert(open.contains(title_candidate(base, a)));
    } else if b < a {
        assert(open.contains(title_candidate(base, b)));
    }
}

/// Taken candidates are distinct, so no more of them than open titles.
proof fn lemma_taken_candidates_bound(base: Seq<char>, open: Seq<Seq<char>>, idx: nat)
    requires
        idx >= 1,
        forall|j: nat| 1 <= j < idx ==> open.contains(#[trigger] title_candidate(base, j)),
    ensures
        idx - 1 <= open.len(),
{
    let x = set_int_range(1, idx as int);
    let f = |j: int| title_candidate(base, j as nat);
    lemma_int_range(1, idx as int);
    let y = x.map(f);
    assert forall|a: int, b: int|
        x.contains(a) && x.contains(b) && #[trigger] f(a) == #[trigger] f(b) implies a == b by {
        lemma_candidate_injective(base, a as nat, b as nat);
    }
    lemma_map_size(x, y, f);
    assert forall|v: Seq<char>| y.contains(v) implies #[trigger] open.to_set().contains(v) by {
        let j = choose|j: int| x.contains(j) && v == f(j);
        assert(open.contains(title_candidate(base, j as nat)));
    }
    seq_to_set_is_finite(open);
    open.lemma_cardinality_of_set();
    lemma_len_subset(y, open.to_set());
}

/// From any index all of whose predecessors are taken, a first free
/// candidate exists.
proof fn lemma_first_free_from(base: Seq<char>, open: Seq<Seq<char>>, k: nat)
    requires
        k >= 1,
        forall|j: nat| 1 <= j < k ==> open.contains(#[trigger] title_candidate(base, j)),
    ensures
        exists|m: nat| is_first_free_candidate(base, open, m),
    decreases open.len() + 1 - k,
{
    lemma_taken_candidates_bound(base, open, k);
    if !open.contains(title_candidate(base, k)) {
        assert(is_first_free_candidate(base, open, k));
    } else {
        lemma_taken_candidates_bound(base, open, k + 1);
        lemma_first_free_from(base, open, k + 1);
    }
}

/// A project without a title gets one that no open tab carries: its name, or
/// else the first free `name(k)`.
pub proof fn lemma_chosen_title_is_free(
    base: Seq<char>,
    project_id: Seq<char>,
    titles: Map<Seq<char>, Seq<char>>,
    open: Seq<Seq<char>>,
)
    requires
        !titles.contains_key(project_id),
    ensures
        !open.contains(chosen_title(base, project_id, titles, open)),
        open.contains(base) ==> exists|k: nat|
            k >= 1 && chosen_title(base, project_id, titles, open) == title_candidate(base, k),
{
    if open.contains(base) {
        lemma_first_free_from(base, open, 1);
    }
}

/// A project that has a title keeps it, whatever tabs are open.
pub proof fn lemma_chosen_title_kept(
    base: Seq<char>,
    project_id: Seq<char>,
    titles: Map<Seq<char>, Seq<char>>,
    open: Seq<Seq<char>>,
)
    requires
        titles.contains_key(project_id),
    ensures
        chosen_title(base, project_id, titles, open) == titles[project_id],
{
}

/// Builds `base(k)`.
fn make_candidate(base: &str, k: usize) -> (r: String)
    ensures
        r@ == title_candidate(base@, k as nat),
{
    proof {
        reveal_strlit("(");
        reveal_strlit(")");
    }
    let mut c = String::from_str(base);
    c.append("(");
    push_decimal(&mut c, k);
    c.append(")");
    assert(c@ =~= title_candidate(base@, k as nat));
    c
}

/// Picks the tab title for a project: the title it already has, else its
/// name if no open tab carries it, else the first of `name(1)`, `name(2)`, ...
/// that no open tab carries.
pub fn choose_title(
    base_name: &str,
    project_id: &str,
    titles_by_project: &ProjectTitles,
    open_titles: &[String],
) -> (r: String)
    requires
        open_titles@.len() < usize::MAX,
    ensures
        r@ == chosen_title(
            base_name@,
            project_id@,
            titles_by_project@,
            string_views(open_titles@),
        ),
{
    let ghost open = string_views(open_titles@);
    match titles_by_project.get(project_id) {
        Some(existing) => {
            return existing.clone();
        },
        None => {},
    }
    if !list_contains(open_titles, base_name) {
        return String::from_str(base_name);
    }
    let mut idx: usize = 1;
    loop
        invariant
            open == string_views(open_titles@),
            open.len() == open_titles@.len(),
            open_titles@.len() < usize::MAX,
            !titles_by_project@.contains_key(project_id@),
            open.contains(base_name@),
            1 <= idx <= open_titles@.len() + 1,
            forall|j: nat| 1 <= j < idx ==> open.contains(#[trigger] title_candidate(base_name@, j)),
        decreases open_titles@.len() + 1 - idx,
    {
        let candidate = make_candidate(base_name, idx);
        if !list_contains(open_titles, candidate.as_str()) {
            proof {
                assert(is_first_free_candidate(base_name@, open, idx as nat));
                let k = choose|k: nat| is_first_free_candidate(base_name@, open, k);
                lemma_first_free_unique(base_name@, open, k, idx as nat);
            }
            return candidate;
        }
        proof {
            lemma_taken_candidates_bound(base_name@, open, (idx + 1) as nat);
        }
        idx = idx + 1;
    }
}

} // verus!
