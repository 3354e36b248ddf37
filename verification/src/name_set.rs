//! A set of names (package identifiers) kept as a duplicate-free vector.
use vstd::prelude::*;
use crate::text::views;

verus! {

/// A finite set of names; no name is stored twice.
pub struct NameSet {
    items: Vec<String>,
}

impl View for NameSet {
    type V = Set<Seq<char>>;

    closed spec fn view(&self) -> Set<Seq<char>> {
        views(self.items@).to_set()
    }
}

impl NameSet {
    #[verifier::type_invariant]
    closed spec fn wf(self) -> bool {
        views(self.items@).no_duplicates()
    }

    /// The stored names, in insertion order.
    pub closed spec fn seq(self) -> Seq<Seq<char>> {
        views(self.items@)
    }

    /// The empty set.
    pub fn new() -> (s: Self)
        ensures
            s@ == Set::<Seq<char>>::empty(),
    {
        let s = NameSet { items: Vec::new() };
        assert(views(s.items@).to_set() =~= Set::<Seq<char>>::empty());
        s
    }

    fn index_of(&self, name: &str) -> (r: Option<usize>)
        ensures
            match r {
                Some(i) => i < self.items@.len() && self.items@[i as int]@ == name@,
                None => !views(self.items@).contains(name@),
            },
    {
        let key = name.to_owned();
        let mut i: usize = 0;
        while i < self.items.len()
            invariant
                i <= self.items@.len(),
                key@ == name@,
                forall|j: int| 0 <= j < i ==> self.items@[j]@ != name@,
            decreases self.items.len() - i,
        {
            if self.items[i] == key {
                return Some(i);
            }
            i += 1;
        }
        proof {
            if views(self.items@).contains(name@) {
                let j = choose|j: int| 0 <= j < views(self.items@).len() && views(self.items@)[j] == name@;
                assert(self.items@[j]@ == name@);
            }
        }
        None
    }

    /// Whether `name` is in the set.
    pub fn contains(&self, name: &str) -> (r: bool)
        ensures
            r == self@.contains(name@),
    {
        let i = self.index_of(name);
        proof {
            if let Some(k) = i {
                assert(views(self.items@)[k as int] == name@);
            }
        }
        i.is_some()
    }

    /// Adds `name`; answers whether it was absent before.
    pub fn insert(&mut self, name: &str) -> (r: bool)
        ensures
            final(self)@ == old(self)@.insert(name@),
            r == !old(self)@.contains(name@),
    {
        proof {
            use_type_invariant(&*self);
        }
        if let Some(k) = self.index_of(name) {
            proof {
                assert(views(self.items@)[k as int] == name@);
                assert(old(self)@.insert(name@) =~= old(self)@);
            }
            return false;
        }
        let owned = name.to_owned();
        let ghost before = views(self.items@);
        let mut items: Vec<String> = Vec::new();
        std::mem::swap(&mut items, &mut self.items);
        items.push(owned);
        proof {
            assert(views(items@) =~= before.push(name@));
            assert(!before.contains(name@));
        }
        self.items = items;
        proof {
            assert(views(self.items@) =~= before.push(name@));
            assert(views(self.items@).to_set() =~= before.to_set().insert(name@)) by {
                assert forall|x: Seq<char>| views(self.items@).to_set().contains(x)
                    == before.to_set().insert(name@).contains(x) by {
                    if x == name@ {
                        assert(views(self.items@)[before.len() as int] == x);
                    } else if before.contains(x) {
                        let j = choose|j: int| 0 <= j < before.len() && before[j] == x;
                        assert(views(self.items@)[j] == x);
                    }
                }
            }
        }
        true
    }

    /// Removes `name`; answers whether it was present before.
    pub fn remove(&mut self, name: &str) -> (r: bool)
        ensures
            final(self)@ == old(self)@.remove(name@),
            r == old(self)@.contains(name@),
    {
        proof {
            use_type_invariant(&*self);
        }
        match self.index_of(name) {
            None => {
                proof {
                    assert(old(self)@.remove(name@) =~= old(self)@);
                }
                false
            },
            Some(i) => {
                let ghost before = views(self.items@);
                assert(before[i as int] == name@);
                let mut items: Vec<String> = Vec::new();
                std::mem::swap(&mut items, &mut self.items);
                let _ = items.remove(i);
                proof {
                    assert(views(items@) =~= before.remove(i as int));
                    assert forall|a: int, b: int|
                        0 <= a < b < views(items@).len() implies views(items@)[a] != views(items@)[b] by {
                        if a < i {
                            if b < i {
                            } else {
                                assert(views(items@)[b] == before[b + 1]);
                            }
                        } else {
                            assert(views(items@)[a] == before[a + 1]);
                            assert(views(items@)[b] == before[b + 1]);
                        }
                    }
                }
                self.items = items;
                proof {
                    assert(views(self.items@) =~= before.remove(i as int));
                    let after = views(self.items@);
                    assert forall|x: Seq<char>| after.contains(x)
                        == before.to_set().remove(name@).contains(x) by {
                        if after.contains(x) {
                            let j = choose|j: int| 0 <= j < after.len() && after[j] == x;
                            if j < i {
                                assert(before[j] == x);
                                assert(j != i);
                            } else {
                                assert(before[j + 1] == x);
                                assert(j + 1 != i);
                            }
                            assert(x != name@);
                        }
                        if x != name@ && before.contains(x) {
                            let j = choose|j: int| 0 <= j < before.len() && before[j] == x;
                            if j < i {
                                assert(after[j] == x);
                            } else {
                                assert(j != i);
                                assert(after[j - 1] == x);
                            }
                        }
                    }
                    assert(views(self.items@).to_set() =~= before.to_set().remove(name@));
                }
                true
            },
        }
    }

    /// The number of names.
    pub fn len(&self) -> (r: usize)
        ensures
            r == self@.len(),
    {
        proof {
            use_type_invariant(self);
            views(self.items@).unique_seq_to_set();
        }
        self.items.len()
    }
}

/// Inserting a name makes it a member, and leaves every other name as it was.
pub proof fn law_insert_then_contains(s: Set<Seq<char>>, name: Seq<char>, other: Seq<char>)
    requires
        other != name,
    ensures
        s.insert(name).contains(name),
        s.insert(name).contains(other) == s.contains(other),
{
}

/// Removing a name makes it no member, and leaves every other name as it was.
pub proof fn law_remove_then_absent(s: Set<Seq<char>>, name: Seq<char>, other: Seq<char>)
    requires
        other != name,
    ensures
        !s.remove(name).contains(name),
        s.remove(name).contains(other) == s.contains(other),
{
}

} // verus!
