//! The registry: loaded algorithms, each under the name it was registered with.

use crate::algorithm::Algorithm;
use crate::error::{Error, ErrorKind};
use crate::text::same_text;
use vstd::prelude::*;
use vstd::string::StringExecFns;

verus! {

/// The text of the error for a name that is already registered.
pub open spec fn duplicate_message(name: Seq<char>) -> Seq<char> {
    "An algorithm with the name `"@ + name + "` already exists"@
}

/// The names, each on a line of its own behind a tab, under a first line that
/// holds a tab alone.
pub open spec fn names_listed(names: Seq<Seq<char>>) -> Seq<char>
    decreases names.len(),
{
    if names.len() == 0 {
        "\t"@
    } else {
        names_listed(names.drop_last()) + "\n\t"@ + names.last()
    }
}

/// The registry as text: the heading, then the names listed, or `None` where
/// there are none.
pub open spec fn listing(names: Seq<Seq<char>>) -> Seq<char> {
    if names.len() > 0 {
        "ALGORITHMS:"@ + names_listed(names)
    } else {
        "ALGORITHMS:"@ + "None"@
    }
}

/// One registered algorithm under its key.
struct Entry<I> {
    key: String,
    algorithm: Algorithm<I>,
}

/// Algorithms by name. No name occurs twice.
pub struct Algorithms<I> {
    algorithms: Vec<Entry<I>>,
}

impl<I> Algorithms<I> {
    /// No name is registered twice. Every registry this library hands out
    /// satisfies it, and every operation keeps it.
    pub closed spec fn well_formed(&self) -> bool {
        forall|i: int, j: int|
            0 <= i < j < self.algorithms@.len() ==> self.algorithms@[i].key@
                != self.algorithms@[j].key@
    }

    /// In a well-formed registry the names are pairwise distinct and each has
    /// its algorithm.
    pub proof fn names_distinct(&self)
        requires
            self.well_formed(),
        ensures
            self.keys().no_duplicates(),
            self.keys().len() == self.values().len(),
    {
    }

    /// The registered names, in the order of registration.
    pub closed spec fn keys(&self) -> Seq<Seq<char>> {
        Seq::new(self.algorithms@.len(), |i: int| self.algorithms@[i].key@)
    }

    /// The registered algorithms, in the order of registration.
    pub closed spec fn values(&self) -> Seq<Algorithm<I>> {
        Seq::new(self.algorithms@.len(), |i: int| self.algorithms@[i].algorithm)
    }

    /// The algorithm registered under `name`, if there is one.
    pub open spec fn lookup(&self, name: Seq<char>) -> Option<Algorithm<I>> {
        if self.keys().contains(name) {
            Some(self.values()[self.keys().index_of(name)])
        } else {
            None
        }
    }

    /// How registering `algorithm` changes a registry: under a name that is
    /// taken, not at all; otherwise the name and the algorithm come last.
    pub open spec fn registered(&self, algorithm: Algorithm<I>, after: Self) -> bool {
        if self.keys().contains(algorithm.name_text()) {
            &&& after.keys() == self.keys()
            &&& after.values() == self.values()
        } else {
            &&& after.keys() == self.keys().push(algorithm.name_text())
            &&& after.values() == self.values().push(algorithm)
        }
    }

    /// Of two algorithms with one name, registered one after the other, the
    /// second is refused, the registry stays as the first left it, and the
    /// first is still found under the name.
    pub proof fn law_second_of_a_name_refused(
        before: Self,
        first: Algorithm<I>,
        between: Self,
        second: Algorithm<I>,
        after: Self,
    )
        requires
            before.well_formed(),
            !before.keys().contains(first.name_text()),
            before.registered(first, between),
            second.name_text() == first.name_text(),
            between.registered(second, after),
        ensures
            between.keys().contains(second.name_text()),
            after.keys() == between.keys(),
            after.values() == between.values(),
            between.lookup(first.name_text()) == Some(first),
            after.lookup(first.name_text()) == Some(first),
    {
        before.names_distinct();
        let name = first.name_text();
        let last = before.keys().len() as int;
        assert(between.keys()[last] == name);
        assert(between.keys().contains(name));
        let chosen = between.keys().index_of(name);
        assert(0 <= chosen < between.keys().len() && between.keys()[chosen] == name);
        if chosen < last {
            assert(before.keys()[chosen] == name);
            assert(before.keys().contains(name));
        }
        assert(chosen == last);
    }

    /// A registry without algorithms.
    pub fn empty() -> (registry: Self)
        ensures
            registry.well_formed(),
            registry.keys() == Seq::<Seq<char>>::empty(),
            registry.values() == Seq::<Algorithm<I>>::empty(),
    {
        Algorithms { algorithms: Vec::new() }
    }

    /// The index of the entry under `name`.
    fn find(&self, name: &str) -> (found: Option<usize>)
        requires
            self.well_formed(),
        ensures
            self.keys().len() == self.values().len(),
            self.keys().len() == self.algorithms@.len(),
            self.keys().no_duplicates(),
            match found {
                Some(index) => index < self.keys().len() && self.keys()[index as int] == name@
                    && self.keys().index_of(name@) == index,
                None => !self.keys().contains(name@),
            },
    {
        proof {
            self.names_distinct();
        }
        let mut index: usize = 0;
        while index < self.algorithms.len()
            invariant
                index <= self.algorithms@.len(),
                forall|k: int| 0 <= k < index ==> self.keys()[k] != name@,
                self.keys().len() == self.algorithms@.len(),
                self.keys().len() == self.values().len(),
                self.keys().no_duplicates(),
            decreases self.algorithms@.len() - index,
        {
            if same_text(self.algorithms[index].key.as_str(), name) {
                assert(self.keys()[index as int] == name@);
                return Some(index);
            }
            index += 1;
        }
        None
    }

    /// Whether an algorithm is registered under `name`.
    pub fn contains(&self, name: &str) -> (present: bool)
        requires
            self.well_formed(),
        ensures
            present == self.keys().contains(name@),
    {
        self.find(name).is_some()
    }

    /// Registers a loaded algorithm under its name. A name that is already
    /// registered is refused as `DuplicateAlgorithm`: the registry stays as it
    /// was and the newcomer is dropped.
    pub fn load(&mut self, algorithm: Algorithm<I>) -> (outcome: Result<(), Error<ErrorKind>>)
        requires
            old(self).well_formed(),
        ensures
            final(self).well_formed(),
            old(self).registered(algorithm, *final(self)),
            outcome is Err <==> old(self).keys().contains(algorithm.name_text()),
            outcome matches Err(error) ==> {
                &&& error.kind_of() == ErrorKind::DuplicateAlgorithm
                &&& error.message() == duplicate_message(algorithm.name_text())
            },
    {
        let found = self.find(algorithm.name());
        match found {
            Some(_) => {
                let mut text = String::from_str("An algorithm with the name `");
                text.append(algorithm.name());
                text.append("` already exists");
                Err(Error::new(text, ErrorKind::DuplicateAlgorithm))
            },
            None => {
                let key = String::from_str(algorithm.name());
                proof {
                    assert forall|i: int| 0 <= i < self.keys().len() implies self.keys()[i]
                        != key@ by {
                        assert(self.keys().contains(self.keys()[i]));
                    }
                }
                self.algorithms.push(Entry { key, algorithm });
                proof {
                    assert forall|i: int, j: int|
                        0 <= i < j < self.algorithms@.len() implies self.algorithms@[i].key@
                        != self.algorithms@[j].key@ by {
                        if j == old(self).algorithms@.len() {
                            assert(old(self).keys()[i] == old(self).algorithms@[i].key@);
                        }
                    }
                }
                assert(self.keys() == old(self).keys().push(algorithm.name_text()));
                assert(self.values() == old(self).values().push(algorithm));
                Ok(())
            },
        }
    }

    /// The algorithm registered under `algorithm`, to drive it. The key stays
    /// whatever is done through the reference.
    pub fn get_mut(&mut self, algorithm: &str) -> (found: Option<&mut Algorithm<I>>)
        requires
            old(self).well_formed(),
        ensures
            final(self).well_formed(),
            final(self).keys() == old(self).keys(),
            match found {
                Some(held) => {
                    &&& old(self).lookup(algorithm@) == Some(*held)
                    &&& final(self).values() == old(self).values().update(
                        old(self).keys().index_of(algorithm@),
                        *final(held),
                    )
                },
                None => {
                    &&& old(self).lookup(algorithm@) is None
                    &&& final(self).values() == old(self).values()
                },
            },
    {
        match self.find(algorithm) {
            Some(index) => Some(&mut self.algorithms[index].algorithm),
            None => None,
        }
    }

    /// Writes the registry as text: its names in the order of registration.
    pub fn to_text(&self) -> (out: String)
        ensures
            out@ == listing(self.keys()),
    {
        let mut names = String::from_str("\t");
        let mut index: usize = 0;
        while index < self.algorithms.len()
            invariant
                index <= self.algorithms@.len(),
                self.keys().len() == self.algorithms@.len(),
                names@ == names_listed(self.keys().take(index as int)),
            decreases self.algorithms@.len() - index,
        {
            proof {
                assert(self.keys().take(index + 1).drop_last() == self.keys().take(index as int));
            }
            names.append("\n\t");
            names.append(self.algorithms[index].key.as_str());
            index += 1;
        }
        assert(self.keys().take(index as int) == self.keys());
        let mut out = String::from_str("ALGORITHMS:");
        if self.algorithms.len() > 0 {
            out.append(names.as_str());
        } else {
            out.append("None");
        }
        out
    }

    /// The algorithm registered under `algorithm`.
    pub fn get(&self, algorithm: &str) -> (found: Option<&Algorithm<I>>)
        requires
            self.well_formed(),
        ensures
            match found {
                Some(held) => self.lookup(algorithm@) == Some(*held),
                None => self.lookup(algorithm@) is None,
            },
    {
        match self.find(algorithm) {
            Some(index) => Some(&self.algorithms[index].algorithm),
            None => None,
        }
    }
}

} // verus!
