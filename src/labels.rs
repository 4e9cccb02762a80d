//! From a pull request's labels to a workflow status.
//!
//! Each label is looked up in the caller's override table first and in the
//! built-in table after that. Of the labels that map to a status, in the order
//! the pull request lists them, the first is passed over and the second one
//! decides; with fewer than two such labels no status is asked for.
use vstd::prelude::*;

verus! {

/// The text of an optional string.
pub open spec fn opt_text(o: Option<String>) -> Option<Seq<char>> {
    match o {
        Some(s) => Some(s@),
        None => None,
    }
}

/// The texts of a sequence of strings.
pub open spec fn texts(v: Seq<String>) -> Seq<Seq<char>> {
    v.map_values(|s: String| s@)
}

/// A table from label to workflow status, supplied by the caller to take
/// precedence over the built-in one.
#[derive(Clone, Debug)]
pub struct LabelOverrides {
    entries: Vec<(String, String)>,
}

impl LabelOverrides {
    /// The entry at `i` has label `k` and no earlier entry has.
    pub closed spec fn first_at(&self, i: int, k: Seq<char>) -> bool {
        &&& 0 <= i < self.entries@.len()
        &&& self.entries@[i].0@ == k
        &&& forall|j: int| 0 <= j < i ==> self.entries@[j].0@ != k
    }

    proof fn lemma_first_unique(&self, i: int, j: int, k: Seq<char>)
        requires
            self.first_at(i, k),
            self.first_at(j, k),
        ensures
            i == j,
    {
    }
}

impl View for LabelOverrides {
    type V = Map<Seq<char>, Seq<char>>;

    closed spec fn view(&self) -> Map<Seq<char>, Seq<char>> {
        Map::new(
            |k: Seq<char>| exists|i: int| self.first_at(i, k),
            |k: Seq<char>| self.entries@[choose|i: int| self.first_at(i, k)].1@,
        )
    }
}

impl LabelOverrides {
    /// An empty table.
    pub fn new() -> (r: LabelOverrides)
        ensures
            r@ == Map::<Seq<char>, Seq<char>>::empty(),
    {
        let r = LabelOverrides { entries: Vec::new() };
        assert(r@ =~= Map::<Seq<char>, Seq<char>>::empty());
        r
    }

    /// The index of the first entry for `label`, if there is one.
    fn find(&self, label: &String) -> (r: Option<usize>)
        ensures
            match r {
                Some(i) => self.first_at(i as int, label@),
                None => forall|i: int|
                    0 <= i < self.entries@.len() ==> self.entries@[i].0@ != label@,
            },
    {
        let mut i: usize = 0;
        while i < self.entries.len()
            invariant
                i <= self.entries@.len(),
                forall|j: int| 0 <= j < i ==> self.entries@[j].0@ != label@,
            decreases self.entries@.len() - i,
        {
            if self.entries[i].0 == *label {
                return Some(i);
            }
            i = i + 1;
        }
        None
    }

    /// The status that `label` is mapped to, if the table has the label.
    pub fn get(&self, label: &String) -> (r: Option<String>)
        ensures
            opt_text(r) == (if self@.contains_key(label@) {
                Some(self@[label@])
            } else {
                None
            }),
    {
        match self.find(label) {
            Some(i) => {
                proof {
                    assert(self@.contains_key(label@));
                    let c = choose|c: int| self.first_at(c, label@);
                    self.lemma_first_unique(c, i as int, label@);
                }
                Some(self.entries[i].1.clone())
            },
            None => {
                assert(!self@.contains_key(label@));
                None
            },
        }
    }

    /// Maps `label` to `status`, replacing what the label was mapped to.
    pub fn insert(&mut self, label: String, status: String)
        ensures
            final(self)@ == old(self)@.insert(label@, status@),
    {
        let ghost k = label@;
        let ghost v = status@;
        let ghost before = *self;
        match self.find(&label) {
            Some(i) => {
                self.entries.set(i, (label, status));
                proof {
                    assert forall|j: int| 0 <= j < self.entries@.len() implies #[trigger]
                        self.entries@[j].0@ == before.entries@[j].0@ by {
                        if j != i {
                            assert(self.entries@[j] == before.entries@[j]);
                        }
                    }
                    assert forall|x: Seq<char>, f: int| #[trigger]
                        self.first_at(f, x) == before.first_at(f, x) by {
                        if self.first_at(f, x) {
                            assert forall|j: int| 0 <= j < f implies before.entries@[j].0@ != x by {
                                assert(self.entries@[j].0@ == before.entries@[j].0@);
                            }
                        }
                        if before.first_at(f, x) {
                            assert forall|j: int| 0 <= j < f implies self.entries@[j].0@ != x by {
                                assert(self.entries@[j].0@ == before.entries@[j].0@);
                            }
                            assert(self.entries@[f].0@ == before.entries@[f].0@);
                        }
                    }
                    assert forall|x: Seq<char>| #[trigger]
                        self@.contains_key(x) == before@.insert(k, v).contains_key(x) by {
                        if x == k {
                            assert(self.first_at(i as int, k));
                        }
                        if self@.contains_key(x) {
                            let c = choose|c: int| self.first_at(c, x);
                            assert(before.first_at(c, x));
                        }
                        if before@.contains_key(x) {
                            let c = choose|c: int| before.first_at(c, x);
                            assert(self.first_at(c, x));
                        }
                    }
                    assert forall|x: Seq<char>| self@.contains_key(x) implies #[trigger] self@[x]
                        == before@.insert(k, v)[x] by {
                        let c = choose|c: int| self.first_at(c, x);
                        if x == k {
                            self.lemma_first_unique(c, i as int, k);
                        } else {
                            let d = choose|d: int| before.first_at(d, x);
                            before.lemma_first_unique(c, d, x);
                            assert(c != i);
                        }
                    }
                    assert(self@ =~= before@.insert(k, v));
                }
            },
            None => {
                self.entries.push((label, status));
                proof {
                    let n = before.entries@.len() as int;
                    assert forall|x: Seq<char>, f: int|
                        0 <= f < n implies #[trigger] self.first_at(f, x) == before.first_at(
                        f,
                        x,
                    ) by {
                        assert(self.entries@[f] == before.entries@[f]);
                        if self.first_at(f, x) {
                            assert forall|j: int| 0 <= j < f implies before.entries@[j].0@ != x by {
                                assert(self.entries@[j] == before.entries@[j]);
                            }
                        }
                        if before.first_at(f, x) {
                            assert forall|j: int| 0 <= j < f implies self.entries@[j].0@ != x by {
                                assert(self.entries@[j] == before.entries@[j]);
                            }
                        }
                    }
                    assert(self.first_at(n, k)) by {
                        assert forall|j: int| 0 <= j < n implies self.entries@[j].0@ != k by {
                            assert(self.entries@[j] == before.entries@[j]);
                        }
                    }
                    assert forall|x: Seq<char>| #[trigger]
                        self@.contains_key(x) == before@.insert(k, v).contains_key(x) by {
                        if x != k && self@.contains_key(x) {
                            let c = choose|c: int| self.first_at(c, x);
                            assert(c < n);
                        }
                        if x != k && before@.contains_key(x) {
                            let c = choose|c: int| before.first_at(c, x);
                            assert(self.first_at(c, x));
                        }
                    }
                    assert forall|x: Seq<char>| self@.contains_key(x) implies #[trigger] self@[x]
                        == before@.insert(k, v)[x] by {
                        let c = choose|c: int| self.first_at(c, x);
                        if x == k {
                            self.lemma_first_unique(c, n, k);
                        } else {
                            assert(c < n);
                            let d = choose|d: int| before.first_at(d, x);
                            assert(self.first_at(d, x));
                            self.lemma_first_unique(c, d, x);
                            assert(self.entries@[c] == before.entries@[c]);
                        }
                    }
                    assert(self@ =~= before@.insert(k, v));
                }
            },
        }
    }
}

/// The built-in table from label to workflow status.
pub open spec fn default_status(label: Seq<char>) -> Option<Seq<char>> {
    if label == "In development"@ {
        Some("In development"@)
    } else if label == "Needs code review"@ {
        Some("In code review"@)
    } else if label == "Needs PM review"@ {
        Some("In PM review"@)
    } else if label == "Ready"@ {
        Some("Ready to ship"@)
    } else {
        None
    }
}

/// The table of overrides, if one was supplied.
pub open spec fn overrides_view(o: Option<LabelOverrides>) -> Option<Map<Seq<char>, Seq<char>>> {
    match o {
        Some(t) => Some(t@),
        None => None,
    }
}

/// The status that one label maps to: the override table's entry if it has
/// one, else the built-in table's.
pub open spec fn status_for_label(
    label: Seq<char>,
    overrides: Option<Map<Seq<char>, Seq<char>>>,
) -> Option<Seq<char>> {
    match overrides {
        Some(m) => if m.contains_key(label) {
            Some(m[label])
        } else {
            default_status(label)
        },
        None => default_status(label),
    }
}

/// The statuses that the labels map to, in label order, leaving out labels
/// that map to none.
pub open spec fn status_hits(
    labels: Seq<Seq<char>>,
    overrides: Option<Map<Seq<char>, Seq<char>>>,
) -> Seq<Seq<char>>
    decreases labels.len(),
{
    if labels.len() == 0 {
        Seq::empty()
    } else {
        let earlier = status_hits(labels.drop_last(), overrides);
        match status_for_label(labels.last(), overrides) {
            Some(st) => earlier.push(st),
            None => earlier,
        }
    }
}

/// The status asked for by a list of labels: the second of its hits, if it
/// has two or more.
pub open spec fn mapped_status(
    labels: Seq<Seq<char>>,
    overrides: Option<Map<Seq<char>, Seq<char>>>,
) -> Option<Seq<char>> {
    let hits = status_hits(labels, overrides);
    if hits.len() >= 2 {
        Some(hits[1])
    } else {
        None
    }
}

/// The built-in status for `label`.
fn default_status_for(label: &String) -> (r: Option<String>)
    ensures
        opt_text(r) == default_status(label@),
{
    if *label == String::from_str("In development") {
        Some(String::from_str("In development"))
    } else if *label == String::from_str("Needs code review") {
        Some(String::from_str("In code review"))
    } else if *label == String::from_str("Needs PM review") {
        Some(String::from_str("In PM review"))
    } else if *label == String::from_str("Ready") {
        Some(String::from_str("Ready to ship"))
    } else {
        None
    }
}

/// The status that one label maps to.
pub fn label_status(label: &String, overrides: &Option<LabelOverrides>) -> (r: Option<String>)
    ensures
        opt_text(r) == status_for_label(label@, overrides_view(*overrides)),
{
    match overrides {
        Some(table) => match table.get(label) {
            Some(st) => Some(st),
            None => default_status_for(label),
        },
        None => default_status_for(label),
    }
}

/// The workflow status that a pull request's labels ask for: the second label
/// in list order that maps to a status decides, the first is passed over.
pub fn status_for_labels(labels: &Vec<String>, overrides: &Option<LabelOverrides>) -> (r: Option<
    String,
>)
    ensures
        opt_text(r) == mapped_status(texts(labels@), overrides_view(*overrides)),
{
    let ghost ov = overrides_view(*overrides);
    let ghost all = texts(labels@);
    let mut seen: usize = 0;
    let mut second: Option<String> = None;
    let mut i: usize = 0;
    while i < labels.len()
        invariant
            i <= labels@.len(),
            ov == overrides_view(*overrides),
            all == texts(labels@),
            seen <= 2,
            seen as int == (if status_hits(all.take(i as int), ov).len() >= 2 {
                2
            } else {
                status_hits(all.take(i as int), ov).len() as int
            }),
            opt_text(second) == mapped_status(all.take(i as int), ov),
        decreases labels@.len() - i,
    {
        let ghost before = all.take(i as int);
        let st = label_status(&labels[i], overrides);
        assert(all.take(i + 1).drop_last() =~= before);
        assert(all.take(i + 1).last() == labels@[i as int]@);
        match st {
            Some(x) => {
                if seen == 0 {
                    seen = 1;
                } else if seen == 1 {
                    seen = 2;
                    second = Some(x);
                }
            },
            None => {},
        }
        i = i + 1;
    }
    assert(all.take(labels@.len() as int) =~= all);
    second
}

} // verus!
