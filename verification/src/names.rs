//! The set of parameter names that a deployment makes mandatory.
//!
//! The set is a vector without repetition and not a `HashSet`: what Verus
//! knows of a hash set holds only for keys whose hashing it has a model of,
//! and `String` is not among them.

use vstd::prelude::*;

verus! {

/// The characters of each name, in the order of the names.
pub open spec fn texts(names: Seq<String>) -> Seq<Seq<char>> {
    Seq::new(names.len(), |i: int| names[i]@)
}

/// A set of parameter names. The names are kept in the order in which they
/// were first inserted, and no name is held twice.
pub struct NameSet {
    names: Vec<String>,
}

impl View for NameSet {
    type V = Seq<Seq<char>>;

    closed spec fn view(&self) -> Seq<Seq<char>> {
        texts(self.names@)
    }
}

impl NameSet {
    #[verifier::type_invariant]
    spec fn distinct(&self) -> bool {
        texts(self.names@).no_duplicates()
    }

    /// The empty set.
    pub fn new() -> (set: NameSet)
        ensures
            set@ == Seq::<Seq<char>>::empty(),
    {
        NameSet { names: Vec::new() }
    }

    /// The number of names in the set.
    pub fn len(&self) -> (n: usize)
        ensures
            n == self@.len(),
    {
        self.names.len()
    }

    /// Whether `name` is in the set.
    pub fn contains(&self, name: &str) -> (found: bool)
        ensures
            found == self@.contains(name@),
    {
        let wanted = name.to_owned();
        let mut i: usize = 0;
        while i < self.names.len()
            invariant
                i <= self.names@.len(),
                wanted@ == name@,
                forall|j: int| 0 <= j < i ==> self.names@[j]@ != name@,
            decreases self.names@.len() - i,
        {
            if self.names[i] == wanted {
                assert(self@[i as int] == name@);
                return true;
            }
            i += 1;
        }
        false
    }

    /// The set with `name` in it as well. A name that the set already holds
    /// leaves it as it was.
    pub fn with_name(self, name: String) -> (set: NameSet)
        ensures
            set@ == if self@.contains(name@) { self@ } else { self@.push(name@) },
            set@.no_duplicates(),
    {
        proof {
            use_type_invariant(&self);
        }
        if self.contains(name.as_str()) {
            self
        } else {
            let ghost before = self.names@;
            let mut names = self.names;
            names.push(name);
            assert(texts(names@) =~= texts(before).push(name@));
            NameSet { names }
        }
    }

    /// The set of the names in `names`; a name that occurs again is passed
    /// over.
    pub fn from_names(names: Vec<String>) -> (set: NameSet)
        ensures
            set@.no_duplicates(),
            set@.to_set() == texts(names@).to_set(),
            texts(names@).no_duplicates() ==> set@ == texts(names@),
    {
        let ghost all_names = names@;
        let mut set = NameSet::new();
        for name in it: names
            invariant
                it.seq() == all_names,
                set@.no_duplicates(),
                set@.to_set() == texts(all_names.take(it.index())).to_set(),
                texts(all_names.take(it.index())).no_duplicates() ==> set@ == texts(
                    all_names.take(it.index()),
                ),
        {
            let ghost seen = texts(all_names.take(it.index()));
            let ghost all = texts(all_names.take(it.index() + 1));
            assert(all =~= seen.push(name@));
            let ghost before = set@;
            set = set.with_name(name);
            assert(set@.to_set() =~= before.to_set().insert(name@)) by {
                before.lemma_push_to_set_commute(name@);
            }
            assert(all.to_set() =~= seen.to_set().insert(name@)) by {
                seen.lemma_push_to_set_commute(name@);
            }
            assert(all.no_duplicates() ==> seen.no_duplicates() && !seen.contains(name@)) by {
                if all.no_duplicates() {
                    assert forall|i: int, j: int|
                        0 <= i < seen.len() && 0 <= j < seen.len() && i != j implies seen[i]
                        != seen[j] by {
                        assert(all[i] == seen[i] && all[j] == seen[j]);
                    }
                    if seen.contains(name@) {
                        let k = choose|k: int| 0 <= k < seen.len() && seen[k] == name@;
                        assert(all[k] == all[seen.len() as int]);
                    }
                }
            }
        }
        assert(all_names.take(all_names.len() as int) =~= all_names);
        set
    }

    /// The names, in the order in which they were inserted.
    pub fn names(&self) -> (names: &Vec<String>)
        ensures
            texts(names@) == self@,
            self@.no_duplicates(),
    {
        proof {
            use_type_invariant(self);
        }
        &self.names
    }
}

} // verus!
