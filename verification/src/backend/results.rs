//! A table from result names to result texts.

use vstd::prelude::*;

verus! {

/// The text of result `key`, or `?` where there is none.
pub open spec fn res_text(results: Map<Seq<char>, Seq<char>>, key: Seq<char>) -> Seq<char> {
    if results.contains_key(key) {
        results[key]
    } else {
        "?"@
    }
}

/// Entry `i` of `entries` is named `name`.
pub open spec fn named_at(entries: Seq<(String, String)>, i: int, name: Seq<char>) -> bool {
    0 <= i < entries.len() && entries[i].0@ == name
}

/// No two entries share a name.
pub open spec fn names_distinct(entries: Seq<(String, String)>) -> bool {
    forall|i: int, j: int|
        0 <= i < entries.len() && 0 <= j < entries.len() && i != j
            ==> #[trigger] entries[i].0@ != #[trigger] entries[j].0@
}

/// The table that a list of named entries stands for.
pub open spec fn entries_map(entries: Seq<(String, String)>) -> Map<Seq<char>, Seq<char>> {
    Map::new(
        |k: Seq<char>| exists|i: int| #[trigger] named_at(entries, i, k),
        |k: Seq<char>| entries[choose|i: int| #[trigger] named_at(entries, i, k)].1@,
    )
}

proof fn lemma_named_unique(entries: Seq<(String, String)>, i: int, j: int, k: Seq<char>)
    requires
        names_distinct(entries),
        named_at(entries, i, k),
        named_at(entries, j, k),
    ensures
        i == j,
{
    if i != j {
        assert(entries[i].0@ != entries[j].0@);
    }
}

proof fn lemma_value_at(entries: Seq<(String, String)>, i: int, k: Seq<char>)
    requires
        names_distinct(entries),
        named_at(entries, i, k),
    ensures
        entries_map(entries).contains_key(k),
        entries_map(entries)[k] == entries[i].1@,
{
    let c = choose|j: int| #[trigger] named_at(entries, j, k);
    assert(named_at(entries, c, k));
    lemma_named_unique(entries, c, i, k);
}

proof fn lemma_update(entries: Seq<(String, String)>, i: int, name: String, value: String)
    requires
        names_distinct(entries),
        named_at(entries, i, name@),
    ensures
        names_distinct(entries.update(i, (name, value))),
        entries_map(entries.update(i, (name, value))) =~= entries_map(entries).insert(name@, value@),
{
    let e2 = entries.update(i, (name, value));
    assert forall|a: int, b: int|
        0 <= a < e2.len() && 0 <= b < e2.len() && a != b implies #[trigger] e2[a].0@
        != #[trigger] e2[b].0@ by {
        assert(entries[a].0@ != entries[b].0@);
    }
    let m1 = entries_map(entries);
    let m2 = entries_map(e2);
    assert forall|k: Seq<char>| #[trigger] m2.contains_key(k) <==> m1.insert(name@, value@).contains_key(k) by {
        if m2.contains_key(k) {
            let j = choose|j: int| #[trigger] named_at(e2, j, k);
            assert(named_at(e2, j, k));
            if j != i {
                assert(named_at(entries, j, k));
            }
        }
        if m1.contains_key(k) {
            let j = choose|j: int| #[trigger] named_at(entries, j, k);
            assert(named_at(entries, j, k));
            assert(named_at(e2, j, k));
        }
        if k == name@ {
            assert(named_at(e2, i, k));
        }
    }
    assert forall|k: Seq<char>| #[trigger] m2.contains_key(k) implies m2[k] == m1.insert(
        name@,
        value@,
    )[k] by {
        let j = choose|j: int| #[trigger] named_at(e2, j, k);
        assert(named_at(e2, j, k));
        lemma_value_at(e2, j, k);
        if k != name@ {
            assert(named_at(entries, j, k));
            lemma_value_at(entries, j, k);
        } else {
            lemma_named_unique(e2, i, j, k);
        }
    }
}

proof fn lemma_push(entries: Seq<(String, String)>, name: String, value: String)
    requires
        names_distinct(entries),
        !entries_map(entries).contains_key(name@),
    ensures
        names_distinct(entries.push((name, value))),
        entries_map(entries.push((name, value))) =~= entries_map(entries).insert(name@, value@),
{
    let e2 = entries.push((name, value));
    let n = entries.len() as int;
    assert forall|a: int| 0 <= a < n implies entries[a].0@ != name@ by {
        if entries[a].0@ == name@ {
            assert(named_at(entries, a, name@));
        }
    }
    assert forall|a: int, b: int|
        0 <= a < e2.len() && 0 <= b < e2.len() && a != b implies #[trigger] e2[a].0@
        != #[trigger] e2[b].0@ by {
        if a < n && b < n {
            assert(entries[a].0@ != entries[b].0@);
        }
    }
    let m1 = entries_map(entries);
    let m2 = entries_map(e2);
    assert forall|k: Seq<char>| #[trigger] m2.contains_key(k) <==> m1.insert(name@, value@).contains_key(k) by {
        if m2.contains_key(k) {
            let j = choose|j: int| #[trigger] named_at(e2, j, k);
            assert(named_at(e2, j, k));
            if j != n {
                assert(named_at(entries, j, k));
            }
        }
        if m1.contains_key(k) {
            let j = choose|j: int| #[trigger] named_at(entries, j, k);
            assert(named_at(entries, j, k));
            assert(named_at(e2, j, k));
        }
        if k == name@ {
            assert(named_at(e2, n, k));
        }
    }
    assert forall|k: Seq<char>| #[trigger] m2.contains_key(k) implies m2[k] == m1.insert(
        name@,
        value@,
    )[k] by {
        let j = choose|j: int| #[trigger] named_at(e2, j, k);
        assert(named_at(e2, j, k));
        lemma_value_at(e2, j, k);
        if j != n {
            assert(named_at(entries, j, k));
            lemma_value_at(entries, j, k);
        }
    }
}


/// What a table gives back after a write: the written text under the
/// written name, and under every other name what it gave before.
pub proof fn lemma_read_after_write(
    m: Map<Seq<char>, Seq<char>>,
    name: Seq<char>,
    value: Seq<char>,
    other: Seq<char>,
)
    ensures
        res_text(m.insert(name, value), name) == value,
        other != name ==> res_text(m.insert(name, value), other) == res_text(m, other),
{
}

/// Named result texts. Each name occurs at most once; inserting under a
/// name that is already present replaces its text.
pub struct ResultMap {
    entries: Vec<(String, String)>,
}

impl ResultMap {
    #[verifier::type_invariant]
    closed spec fn distinct_names(self) -> bool {
        names_distinct(self.entries@)
    }
}

impl View for ResultMap {
    type V = Map<Seq<char>, Seq<char>>;

    closed spec fn view(&self) -> Map<Seq<char>, Seq<char>> {
        entries_map(self.entries@)
    }
}

impl ResultMap {
    /// An empty table.
    pub fn new() -> (m: ResultMap)
        ensures
            m@ == Map::<Seq<char>, Seq<char>>::empty(),
    {
        let m = ResultMap { entries: Vec::new() };
        assert(m@ =~= Map::<Seq<char>, Seq<char>>::empty());
        m
    }

    /// The position of `name`, if it is present.
    fn position(&self, name: &String) -> (r: Option<usize>)
        ensures
            match r {
                Some(i) => named_at(self.entries@, i as int, name@),
                None => !self@.contains_key(name@),
            },
    {
        let n = self.entries.len();
        let mut i: usize = 0;
        while i < n
            invariant
                n == self.entries.len(),
                i <= n,
                forall|j: int| 0 <= j < i ==> self.entries[j].0@ != name@,
            decreases n - i,
        {
            if self.entries[i].0 == *name {
                return Some(i);
            }
            i = i + 1;
        }
        assert forall|j: int| !#[trigger] named_at(self.entries@, j, name@) by {}
        None
    }

    /// Whether `name` has a text.
    pub fn contains_key(&self, name: &str) -> (b: bool)
        ensures
            b == self@.contains_key(name@),
    {
        let key = String::from_str(name);
        let r = self.position(&key);
        proof {
            if let Some(i) = r {
                assert(named_at(self.entries@, i as int, name@));
            }
        }
        r.is_some()
    }

    /// The text stored under `name`.
    pub fn get(&self, name: &str) -> (r: Option<String>)
        ensures
            match r {
                Some(v) => self@.contains_key(name@) && v@ == self@[name@],
                None => !self@.contains_key(name@),
            },
    {
        proof { use_type_invariant(self); }
        let key = String::from_str(name);
        match self.position(&key) {
            Some(i) => {
                proof { lemma_value_at(self.entries@, i as int, name@); }
                Some(self.entries[i].1.clone())
            },
            None => None,
        }
    }

    /// The text stored under `name`, or `?` where there is none.
    pub fn text_or_unknown(&self, name: &str) -> (s: String)
        ensures
            s@ == res_text(self@, name@),
    {
        match self.get(name) {
            Some(v) => v,
            None => {
                proof { reveal_strlit("?"); }
                String::from_str("?")
            },
        }
    }

    /// Stores `value` under `name`, replacing any earlier text of `name`.
    pub fn insert(&mut self, name: String, value: String)
        ensures
            final(self)@ == old(self)@.insert(name@, value@),
    {
        proof { use_type_invariant(&*self); }
        let found = self.position(&name);
        let mut entries: Vec<(String, String)> = Vec::new();
        std::mem::swap(&mut entries, &mut self.entries);
        match found {
            Some(i) => {
                proof { lemma_update(entries@, i as int, name, value); }
                entries.set(i, (name, value));
            },
            None => {
                proof { lemma_push(entries@, name, value); }
                entries.push((name, value));
            },
        }
        self.entries = entries;
    }
}

} // verus!
