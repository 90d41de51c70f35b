use vstd::prelude::*;

verus! {

/// True if `k` is the name of some entry of `e`.
pub open spec fn has_name(e: Seq<(String, String)>, k: Seq<char>) -> bool {
    exists|i: int| 0 <= i < e.len() && #[trigger] e[i].0@ == k
}

/// No two entries of `e` have the same name.
pub open spec fn names_unique(e: Seq<(String, String)>) -> bool {
    forall|i: int, j: int|
        0 <= i < e.len() && 0 <= j < e.len() && i != j ==> #[trigger] e[i].0@ != #[trigger] e[j].0@
}

/// The variables that the entries `e` define, as a map from name to value.
pub open spec fn vars_map(e: Seq<(String, String)>) -> Map<Seq<char>, Seq<char>> {
    Map::new(
        |k: Seq<char>| has_name(e, k),
        |k: Seq<char>| e[choose|i: int| 0 <= i < e.len() && #[trigger] e[i].0@ == k].1@,
    )
}

proof fn lemma_entry_in_map(e: Seq<(String, String)>, i: int)
    requires
        names_unique(e),
        0 <= i < e.len(),
    ensures
        vars_map(e).contains_key(e[i].0@),
        vars_map(e)[e[i].0@] == e[i].1@,
{
    let k = e[i].0@;
    assert(has_name(e, k));
    let j = choose|j: int| 0 <= j < e.len() && #[trigger] e[j].0@ == k;
    assert(e[j].0@ == k);
    assert(j == i);
}

proof fn lemma_map_remove_at(e: Seq<(String, String)>, i: int)
    requires
        names_unique(e),
        0 <= i < e.len(),
    ensures
        names_unique(e.remove(i)),
        vars_map(e.remove(i)) =~= vars_map(e).remove(e[i].0@),
{
    let n = e.remove(i);
    let k = e[i].0@;
    assert forall|a: int, b: int|
        0 <= a < n.len() && 0 <= b < n.len() && a != b implies #[trigger] n[a].0@
        != #[trigger] n[b].0@ by {
        let a2 = if a < i { a } else { a + 1 };
        let b2 = if b < i { b } else { b + 1 };
        assert(n[a] == e[a2]);
        assert(n[b] == e[b2]);
    }
    assert forall|k2: Seq<char>| #[trigger]
        vars_map(n).contains_key(k2) implies vars_map(e).remove(k).contains_key(k2)
        && vars_map(n)[k2] == vars_map(e).remove(k)[k2] by {
        let a = choose|a: int| 0 <= a < n.len() && #[trigger] n[a].0@ == k2;
        let a2 = if a < i { a } else { a + 1 };
        assert(n[a] == e[a2]);
        lemma_entry_in_map(n, a);
        lemma_entry_in_map(e, a2);
    }
    assert forall|k2: Seq<char>| #[trigger]
        vars_map(e).remove(k).contains_key(k2) implies vars_map(n).contains_key(k2) by {
        let a = choose|a: int| 0 <= a < e.len() && #[trigger] e[a].0@ == k2;
        assert(a != i);
        let a2 = if a < i { a } else { a - 1 };
        assert(n[a2] == e[a]);
    }
}

proof fn lemma_map_push(e: Seq<(String, String)>, entry: (String, String))
    requires
        names_unique(e),
        !has_name(e, entry.0@),
    ensures
        names_unique(e.push(entry)),
        vars_map(e.push(entry)) =~= vars_map(e).insert(entry.0@, entry.1@),
{
    let n = e.push(entry);
    assert forall|a: int, b: int|
        0 <= a < n.len() && 0 <= b < n.len() && a != b implies #[trigger] n[a].0@
        != #[trigger] n[b].0@ by {
        if a < e.len() && b < e.len() {
            assert(n[a] == e[a]);
            assert(n[b] == e[b]);
        } else if a < e.len() {
            assert(n[a] == e[a]);
        } else {
            assert(n[b] == e[b]);
        }
    }
    assert forall|k2: Seq<char>| #[trigger]
        vars_map(n).contains_key(k2) implies vars_map(e).insert(entry.0@, entry.1@).contains_key(
        k2) && vars_map(n)[k2] == vars_map(e).insert(entry.0@, entry.1@)[k2] by {
        let a = choose|a: int| 0 <= a < n.len() && #[trigger] n[a].0@ == k2;
        lemma_entry_in_map(n, a);
        if a < e.len() {
            assert(n[a] == e[a]);
            lemma_entry_in_map(e, a);
        }
    }
    assert forall|k2: Seq<char>| #[trigger]
        vars_map(e).insert(entry.0@, entry.1@).contains_key(k2) implies vars_map(
        n,
    ).contains_key(k2) by {
        if k2 == entry.0@ {
            assert(n[e.len() as int] == entry);
        } else {
            let a = choose|a: int| 0 <= a < e.len() && #[trigger] e[a].0@ == k2;
            assert(n[a] == e[a]);
        }
    }
}

/// The environment variables that a child process is started with.
#[derive(Debug, Clone)]
pub struct EnvVars {
    pub entries: Vec<(String, String)>,
}

impl EnvVars {
    /// The variables as a map from name to value.
    pub open spec fn view(&self) -> Map<Seq<char>, Seq<char>> {
        vars_map(self.entries@)
    }

    /// No variable is defined twice.
    pub open spec fn wf(&self) -> bool {
        names_unique(self.entries@)
    }

    /// No variables.
    pub fn new() -> (r: EnvVars)
        ensures
            r.wf(),
            r.view() == Map::<Seq<char>, Seq<char>>::empty(),
    {
        let r = EnvVars { entries: Vec::new() };
        assert(r.view() =~= Map::<Seq<char>, Seq<char>>::empty());
        r
    }

    fn position(&self, name: &String) -> (r: Option<usize>)
        requires
            self.wf(),
        ensures
            match r {
                Some(i) => i < self.entries@.len() && self.entries@[i as int].0@ == name@,
                None => !has_name(self.entries@, name@),
            },
    {
        let mut i: usize = 0;
        while i < self.entries.len()
            invariant
                i <= self.entries@.len(),
                forall|j: int| 0 <= j < i ==> #[trigger] self.entries@[j].0@ != name@,
            decreases self.entries@.len() - i,
        {
            if self.entries[i].0 == *name {
                return Some(i);
            }
            i = i + 1;
        }
        None
    }

    /// The value of a variable, if it is defined.
    pub fn get(&self, name: &str) -> (r: Option<String>)
        requires
            self.wf(),
        ensures
            match r {
                Some(v) => self.view().contains_key(name@) && self.view()[name@] == v@,
                None => !self.view().contains_key(name@),
            },
    {
        let key = String::from_str(name);
        match self.position(&key) {
            Some(i) => {
                proof {
                    lemma_entry_in_map(self.entries@, i as int);
                }
                Some(self.entries[i].1.clone())
            },
            None => None,
        }
    }

    /// Removes a variable and returns its value, if it was defined.
    pub fn take(&mut self, name: &str) -> (r: Option<String>)
        requires
            old(self).wf(),
        ensures
            final(self).wf(),
            final(self).view() == old(self).view().remove(name@),
            match r {
                Some(v) => old(self).view().contains_key(name@) && old(self).view()[name@] == v@,
                None => !old(self).view().contains_key(name@),
            },
    {
        let key = String::from_str(name);
        match self.position(&key) {
            Some(i) => {
                proof {
                    lemma_entry_in_map(self.entries@, i as int);
                    lemma_map_remove_at(self.entries@, i as int);
                }
                let (_, value) = self.entries.remove(i);
                Some(value)
            },
            None => {
                assert(self.view() =~= self.view().remove(name@));
                None
            },
        }
    }

    /// Defines a variable, in place of any earlier value.
    pub fn set(&mut self, name: &str, value: &str)
        requires
            old(self).wf(),
        ensures
            final(self).wf(),
            final(self).view() == old(self).view().insert(name@, value@),
    {
        let _ = self.take(name);
        let entry = (String::from_str(name), String::from_str(value));
        proof {
            assert(!has_name(self.entries@, name@)) by {
                if has_name(self.entries@, name@) {
                    let a = choose|a: int|
                        0 <= a < self.entries@.len() && #[trigger] self.entries@[a].0@ == name@;
                    assert(self.view().contains_key(name@));
                }
            }
            lemma_map_push(self.entries@, entry);
        }
        self.entries.push(entry);
        assert(self.view() =~= old(self).view().insert(name@, value@));
    }

    /// Removes a variable.
    pub fn remove(&mut self, name: &str)
        requires
            old(self).wf(),
        ensures
            final(self).wf(),
            final(self).view() == old(self).view().remove(name@),
    {
        let _ = self.take(name);
    }

    /// Removes every variable.
    pub fn clear(&mut self)
        ensures
            final(self).wf(),
            final(self).view() == Map::<Seq<char>, Seq<char>>::empty(),
    {
        self.entries.clear();
        assert(self.view() =~= Map::<Seq<char>, Seq<char>>::empty());
    }
}

} // verus!
