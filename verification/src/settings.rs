//! The settings of a session.

use vstd::prelude::*;

use crate::text::same_text;

verus! {

/// The settings of a session: each name has one value.
#[derive(Debug, Clone)]
pub struct SessionSettings {
    entries: Vec<(String, String)>,
}

/// The place of a name, from an entry on.
closed spec fn place(l: Seq<(String, String)>, name: Seq<char>, i: int) -> Option<int>
    decreases l.len() - i,
{
    if i < 0 || i >= l.len() {
        None
    } else if l[i].0@ == name {
        Some(i)
    } else {
        place(l, name, i + 1)
    }
}

proof fn lemma_place(l: Seq<(String, String)>, name: Seq<char>, i: int)
    requires
        0 <= i,
    ensures
        match place(l, name, i) {
            Some(k) => i <= k < l.len() && l[k].0@ == name && (forall|j: int| i <= j < k ==> (#[trigger] l[j]).0@ != name),
            None => forall|j: int| i <= j < l.len() ==> (#[trigger] l[j]).0@ != name,
        },
    decreases l.len() - i,
{
    if i < l.len() && l[i].0@ != name {
        lemma_place(l, name, i + 1);
    }
}

impl SessionSettings {
    /// The value of each name.
    pub closed spec fn view(&self) -> Map<Seq<char>, Seq<char>> {
        Map::new(
            |n: Seq<char>| place(self.entries@, n, 0) is Some,
            |n: Seq<char>| self.entries@[place(self.entries@, n, 0)->0].1@,
        )
    }

    /// No settings.
    pub fn new() -> (r: SessionSettings)
        ensures
            r@ == Map::<Seq<char>, Seq<char>>::empty(),
    {
        let r = SessionSettings { entries: Vec::new() };
        assert(r@ =~= Map::empty());
        r
    }

    fn find(&self, name: &str) -> (r: Option<usize>)
        ensures
            match r {
                Some(k) => place(self.entries@, name@, 0) == Some(k as int) && k < self.entries@.len(),
                None => place(self.entries@, name@, 0) is None,
            },
    {
        for i in 0..self.entries.len()
            invariant
                place(self.entries@, name@, 0) == place(self.entries@, name@, i as int),
        {
            if same_text(self.entries[i].0.as_str(), name) {
                return Some(i);
            }
        }
        None
    }

    /// Gives a name a value, in place of the value that it had.
    pub fn insert(&mut self, name: String, value: String)
        ensures
            final(self)@ == old(self)@.insert(name@, value@),
    {
        let ghost before = self.entries@;
        let ghost n = name@;
        let ghost v = value@;
        match self.find(name.as_str()) {
            Some(k) => {
                self.entries.set(k, (name, value));
            },
            None => {
                self.entries.push((name, value));
            },
        }
        proof {
            let after = self.entries@;
            assert forall|x: Seq<char>| #[trigger] self@.dom().contains(x) == old(self)@.insert(n, v).dom().contains(x) && (
            self@.dom().contains(x) ==> self@[x] == old(self)@.insert(n, v)[x]) by {
                lemma_place(before, x, 0);
                lemma_place(after, x, 0);
                lemma_place(before, n, 0);
                if x == n {
                    let k = match place(before, n, 0) {
                        Some(k) => k,
                        None => before.len() as int,
                    };
                    assert(after[k].0@ == n && after[k].1@ == v);
                } else {
                    if let Some(k) = place(before, x, 0) {
                        assert(after[k] == before[k]);
                    }
                    if let Some(k) = place(after, x, 0) {
                        assert(k < before.len() && after[k] == before[k]);
                    }
                }
            }
            assert(self@ =~= old(self)@.insert(n, v));
        }
    }

    /// The value of a name.
    pub fn get(&self, name: &str) -> (r: Option<String>)
        ensures
            match r {
                Some(v) => self@.dom().contains(name@) && self@[name@] == v@,
                None => !self@.dom().contains(name@),
            },
    {
        match self.find(name) {
            Some(k) => Some(self.entries[k].1.clone()),
            None => None,
        }
    }
}

fn agree(a: &SessionSettings, b: &SessionSettings, from: &SessionSettings) -> (r: bool)
    ensures
        r == (forall|n: Seq<char>| #[trigger]
            from@.dom().contains(n) ==> (a@.dom().contains(n) == b@.dom().contains(n)) && (a@.dom().contains(n) ==> a@[n] == b@[n])),
{
    for i in 0..from.entries.len()
        invariant
            forall|k: int|
                0 <= k < i ==> {
                    let n = (#[trigger] from.entries@[k]).0@;
                    (a@.dom().contains(n) == b@.dom().contains(n)) && (a@.dom().contains(n) ==> a@[n] == b@[n])
                },
    {
        let name = from.entries[i].0.as_str();
        let same = match (a.get(name), b.get(name)) {
            (Some(x), Some(y)) => same_text(x.as_str(), y.as_str()),
            (None, None) => true,
            _ => false,
        };
        if !same {
            proof {
                lemma_place(from.entries@, name@, 0);
                assert(from.entries@[i as int].0@ == name@);
                assert(from@.dom().contains(name@));
            }
            return false;
        }
    }
    proof {
        assert forall|n: Seq<char>| #[trigger] from@.dom().contains(n) implies (a@.dom().contains(n) == b@.dom().contains(n)) && (
        a@.dom().contains(n) ==> a@[n] == b@[n]) by {
            lemma_place(from.entries@, n, 0);
            let k = place(from.entries@, n, 0)->0;
            assert(from.entries@[k].0@ == n);
        }
    }
    true
}

impl PartialEq for SessionSettings {
    /// Two settings are equal where each name has the same value in both.
    fn eq(&self, other: &SessionSettings) -> (r: bool) {
        let r = agree(self, other, self) && agree(self, other, other);
        proof {
            if r {
                assert(self@ =~= other@);
            }
        }
        r
    }
}

impl vstd::std_specs::cmp::PartialEqSpecImpl for SessionSettings {
    open spec fn obeys_eq_spec() -> bool {
        true
    }

    open spec fn eq_spec(&self, other: &SessionSettings) -> bool {
        self@ == other@
    }
}

impl Eq for SessionSettings {
}

} // verus!
