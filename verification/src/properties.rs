//! String properties by name, as messages and commands carry them.
use crate::text::texts;
use vstd::prelude::*;

verus! {

/// The map that a list of named values stands for.
spec fn map_of(entries: Seq<(String, String)>) -> Map<Seq<char>, Seq<char>>
    decreases entries.len(),
{
    if entries.len() == 0 {
        Map::empty()
    } else {
        map_of(entries.drop_last()).insert(entries.last().0@, entries.last().1@)
    }
}

/// Whether no name occurs twice.
spec fn distinct_names(entries: Seq<(String, String)>) -> bool {
    forall|i: int, j: int|
        #![trigger entries[i], entries[j]]
        0 <= i < j < entries.len() ==> entries[i].0@ != entries[j].0@
}

/// The map knows exactly the listed names, each with the value listed for it.
proof fn lemma_map_of(entries: Seq<(String, String)>)
    requires
        distinct_names(entries),
    ensures
        forall|i: int|
            #![trigger entries[i]]
            0 <= i < entries.len() ==> map_of(entries).contains_key(entries[i].0@) && map_of(
                entries,
            )[entries[i].0@] == entries[i].1@,
        forall|k: Seq<char>| #[trigger]
            map_of(entries).contains_key(k) ==> exists|i: int|
                0 <= i < entries.len() && (#[trigger] entries[i]).0@ == k,
    decreases entries.len(),
{
    if entries.len() > 0 {
        let init = entries.drop_last();
        assert forall|i: int, j: int|
            #![trigger init[i], init[j]]
            0 <= i < j < init.len() implies init[i].0@ != init[j].0@ by {
            assert(init[i] == entries[i] && init[j] == entries[j]);
        }
        lemma_map_of(init);
        assert forall|i: int|
            #![trigger entries[i]]
            0 <= i < entries.len() implies map_of(entries).contains_key(entries[i].0@) && map_of(
            entries,
        )[entries[i].0@] == entries[i].1@ by {
            if i < init.len() {
                assert(init[i] == entries[i]);
                assert(entries[i].0@ != entries[entries.len() - 1].0@);
            }
        }
        assert forall|k: Seq<char>| #[trigger] map_of(entries).contains_key(k) implies exists|i: int|
            0 <= i < entries.len() && (#[trigger] entries[i]).0@ == k by {
            if k == entries.last().0@ {
                assert(entries[entries.len() - 1].0@ == k);
            } else {
                assert(map_of(init).contains_key(k));
                let i = choose|i: int| 0 <= i < init.len() && (#[trigger] init[i]).0@ == k;
                assert(entries[i].0@ == k);
            }
        }
    }
}

/// Named string values; a name has one value at most.
#[derive(Debug)]
pub struct PropertyMap {
    entries: Vec<(String, String)>,
}

impl View for PropertyMap {
    type V = Map<Seq<char>, Seq<char>>;

    closed spec fn view(&self) -> Map<Seq<char>, Seq<char>> {
        map_of(self.entries@)
    }
}

impl PropertyMap {
    #[verifier::type_invariant]
    spec fn well_formed(self) -> bool {
        distinct_names(self.entries@)
    }

    /// No properties.
    pub fn new() -> (r: PropertyMap)
        ensures
            r@ == Map::<Seq<char>, Seq<char>>::empty(),
    {
        PropertyMap { entries: Vec::new() }
    }

    /// The index of the entry named `name`, or the number of entries.
    fn position(&self, name: &String) -> (r: usize)
        ensures
            r <= self.entries@.len(),
            forall|i: int| 0 <= i < r ==> (#[trigger] self.entries@[i]).0@ != name@,
            r < self.entries@.len() ==> self.entries@[r as int].0@ == name@,
    {
        let mut i: usize = 0;
        while i < self.entries.len() && self.entries[i].0 != *name
            invariant
                i <= self.entries@.len(),
                forall|j: int| 0 <= j < i ==> (#[trigger] self.entries@[j]).0@ != name@,
            decreases self.entries@.len() - i,
        {
            i = i + 1;
        }
        i
    }

    /// The value of a property, if it is set.
    pub fn get(&self, name: &str) -> (r: Option<String>)
        ensures
            match r {
                Some(value) => self@.contains_key(name@) && value@ == self@[name@],
                None => !self@.contains_key(name@),
            },
    {
        proof {
            use_type_invariant(self);
            lemma_map_of(self.entries@);
        }
        let i: usize = self.position(&name.to_owned());
        if i < self.entries.len() {
            Some(self.entries[i].1.clone())
        } else {
            None
        }
    }

    /// The names of the properties that are set, each once.
    pub fn names(&self) -> (r: Vec<String>)
        ensures
            texts(r@).no_duplicates(),
            forall|k: Seq<char>| #[trigger] self@.contains_key(k) <==> texts(r@).contains(k),
            texts(r@).to_set() == self@.dom(),
    {
        proof {
            use_type_invariant(self);
            lemma_map_of(self.entries@);
        }
        let mut names: Vec<String> = Vec::new();
        let mut i: usize = 0;
        while i < self.entries.len()
            invariant
                i <= self.entries@.len(),
                names@.len() == i,
                forall|j: int| 0 <= j < i ==> (#[trigger] names@[j])@ == self.entries@[j].0@,
            decreases self.entries@.len() - i,
        {
            names.push(self.entries[i].0.clone());
            i = i + 1;
        }
        proof {
            assert forall|k: Seq<char>| #[trigger]
                self@.contains_key(k) <==> texts(names@).contains(k) by {
                if self@.contains_key(k) {
                    let j = choose|j: int|
                        0 <= j < self.entries@.len() && (#[trigger] self.entries@[j]).0@ == k;
                    assert(texts(names@)[j] == k);
                }
            }
            assert(texts(names@).to_set() =~= self@.dom()) by {
                assert forall|k: Seq<char>|
                    self@.dom().contains(k) <==> #[trigger] texts(names@).to_set().contains(k) by {
                    assert(self@.contains_key(k) <==> texts(names@).contains(k));
                }
            }
        }
        names
    }

    /// Sets a property, in place of the value it had.
    pub fn put(&mut self, name: String, value: String)
        ensures
            final(self)@ == old(self)@.insert(name@, value@),
    {
        proof {
            use_type_invariant(&*self);
            lemma_map_of(self.entries@);
        }
        let i: usize = self.position(&name);
        let mut entries: Vec<(String, String)> = Vec::new();
        std::mem::swap(&mut entries, &mut self.entries);
        let ghost before = entries@;
        if i < entries.len() {
            entries.set(i, (name, value));
        } else {
            entries.push((name, value));
        }
        proof {
            assert(distinct_names(entries@));
            lemma_map_of(entries@);
            let m = map_of(before).insert(name@, value@);
            assert(entries@[i as int].0@ == name@);
            assert forall|k: Seq<char>| #[trigger] map_of(entries@).contains_key(k) implies m.contains_key(k) by {
                let j = choose|j: int| 0 <= j < entries@.len() && (#[trigger] entries@[j]).0@ == k;
                if j != i {
                    assert(before[j] == entries@[j]);
                }
            }
            assert forall|k: Seq<char>| #[trigger] m.contains_key(k) implies map_of(entries@).contains_key(k)
                && map_of(entries@)[k] == m[k] by {
                if k != name@ {
                    let j = choose|j: int| 0 <= j < before.len() && (#[trigger] before[j]).0@ == k;
                    assert(entries@[j] == before[j]);
                }
            }
            assert(map_of(entries@) =~= m);
        }
        self.entries = entries;
    }
}

} // verus!
