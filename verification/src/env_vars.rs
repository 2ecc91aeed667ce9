//! Environment variables that are set for a command.

use vstd::prelude::*;
use vstd::string::*;

use crate::text::str_eq;

verus! {

/// What the entries say about a key.
pub open spec fn value_of(entries: Seq<(String, String)>, key: Seq<char>) -> Option<Seq<char>>
    decreases entries.len(),
{
    if entries.len() == 0 {
        None
    } else if entries.last().0@ == key {
        Some(entries.last().1@)
    } else {
        value_of(entries.drop_last(), key)
    }
}

/// No key is there twice.
pub open spec fn keys_are_distinct(entries: Seq<(String, String)>) -> bool {
    forall|i: int, j: int|
        0 <= i < j < entries.len() ==> (#[trigger] entries[i]).0@ != (#[trigger] entries[j]).0@
}

proof fn value_at(entries: Seq<(String, String)>, i: int)
    requires
        keys_are_distinct(entries),
        0 <= i < entries.len(),
    ensures
        value_of(entries, entries[i].0@) == Some(entries[i].1@),
    decreases entries.len(),
{
    if i < entries.len() - 1 {
        assert(entries[i].0@ != entries[entries.len() - 1].0@);
        value_at(entries.drop_last(), i);
    }
}

proof fn value_after_update(
    before: Seq<(String, String)>,
    after: Seq<(String, String)>,
    at: int,
    key: Seq<char>,
)
    requires
        keys_are_distinct(before),
        0 <= at < before.len(),
        after.len() == before.len(),
        after[at].0@ == before[at].0@,
        forall|i: int| 0 <= i < before.len() && i != at ==> #[trigger] after[i] == before[i],
        key != before[at].0@,
    ensures
        value_of(after, key) == value_of(before, key),
    decreases before.len(),
{
    let last = before.len() - 1;
    if at == last {
        assert(after.drop_last() =~= before.drop_last());
    } else {
        assert(after[last] == before[last]);
        if before[last].0@ != key {
            value_after_update(before.drop_last(), after.drop_last(), at, key);
        }
    }
}

/// Environment variables, each with one value.
#[derive(Debug)]
pub struct EnvVars {
    entries: Vec<(String, String)>,
}

impl EnvVars {
    #[verifier::type_invariant]
    spec fn wf(self) -> bool {
        keys_are_distinct(self.entries@)
    }

    /// The value of a variable, if it is set.
    pub closed spec fn get(self, key: Seq<char>) -> Option<Seq<char>> {
        value_of(self.entries@, key)
    }

    pub fn new() -> (r: EnvVars)
        ensures
            forall|key: Seq<char>| #[trigger] r.get(key) is None,
    {
        EnvVars { entries: Vec::new() }
    }

    /// Sets a variable.
    pub fn insert(&mut self, key: &str, value: &str)
        ensures
            forall|k: Seq<char>| #[trigger]
                final(self).get(k) == if k == key@ {
                    Some(value@)
                } else {
                    old(self).get(k)
                },
    {
        proof {
            use_type_invariant(&*self);
        }
        let mut entries: Vec<(String, String)> = Vec::new();
        std::mem::swap(&mut entries, &mut self.entries);
        let ghost before = entries@;
        let mut i: usize = 0;
        while i < entries.len()
            invariant
                i <= entries.len(),
                entries@ == before,
                before == old(self).entries@,
                keys_are_distinct(before),
                forall|j: int| 0 <= j < i ==> (#[trigger] before[j]).0@ != key@,
                self.entries@.len() == 0,
            decreases entries.len() - i,
        {
            if str_eq(entries[i].0.as_str(), key) {
                entries[i].1 = value.to_owned();
                proof {
                    assert(keys_are_distinct(entries@));
                    value_at(entries@, i as int);
                    assert forall|k: Seq<char>| k != key@ implies #[trigger] value_of(entries@, k)
                        == value_of(before, k) by {
                        value_after_update(before, entries@, i as int, k);
                    }
                }
                self.entries = entries;
                return ;
            }
            i += 1;
        }
        entries.push((key.to_owned(), value.to_owned()));
        proof {
            assert(entries@.drop_last() =~= before);
            assert(keys_are_distinct(entries@));
        }
        self.entries = entries;
    }

    /// Sets all variables of another set.
    pub fn insert_all(&mut self, other: &EnvVars)
        ensures
            forall|k: Seq<char>| #[trigger]
                final(self).get(k) == match other.get(k) {
                    Some(value) => Some(value),
                    None => old(self).get(k),
                },
    {
        proof {
            use_type_invariant(other);
        }
        let mut i: usize = 0;
        assert(other.entries@.take(0) =~= Seq::empty());
        while i < other.entries.len()
            invariant
                i <= other.entries.len(),
                forall|k: Seq<char>| #[trigger]
                    self.get(k) == match value_of(other.entries@.take(i as int), k) {
                        Some(value) => Some(value),
                        None => old(self).get(k),
                    },
            decreases other.entries.len() - i,
        {
            let (key, value) = &other.entries[i];
            self.insert(key.as_str(), value.as_str());
            assert(other.entries@.take(i + 1).drop_last() =~= other.entries@.take(i as int));
            assert(other.entries@.take(i + 1).last() == other.entries@[i as int]);
            i += 1;
        }
        assert(other.entries@.take(i as int) =~= other.entries@);
    }

    /// The variables and their values, each variable once.
    pub fn entries(&self) -> (r: &Vec<(String, String)>)
        ensures
            keys_are_distinct(r@),
            forall|k: Seq<char>| #[trigger] self.get(k) == value_of(r@, k),
    {
        proof {
            use_type_invariant(self);
        }
        &self.entries
    }
}

/// Where no key is there twice, each entry is a variable that is set to the entry's value, whatever its place,
/// and no variable but those of the entries is set.
pub proof fn entries_are_the_variables(entries: Seq<(String, String)>, key: Seq<char>, i: int)
    requires
        keys_are_distinct(entries),
    ensures
        0 <= i < entries.len() ==> value_of(entries, entries[i].0@) == Some(entries[i].1@),
        (forall|k: int| 0 <= k < entries.len() ==> (#[trigger] entries[k]).0@ != key) ==> value_of(
            entries,
            key,
        ) is None,
        forall|k: int|
            0 <= k < entries.len() && k != i && 0 <= i < entries.len() ==> (
            #[trigger] entries[k]).0@ != entries[i].0@,
{
    if 0 <= i < entries.len() {
        value_at(entries, i);
    }
    if forall|k: int| 0 <= k < entries.len() ==> (#[trigger] entries[k]).0@ != key {
        no_value_without_an_entry(entries, key);
    }
}

proof fn no_value_without_an_entry(entries: Seq<(String, String)>, key: Seq<char>)
    requires
        forall|k: int| 0 <= k < entries.len() ==> (#[trigger] entries[k]).0@ != key,
    ensures
        value_of(entries, key) is None,
    decreases entries.len(),
{
    if entries.len() > 0 {
        assert(entries[entries.len() - 1].0@ != key);
        no_value_without_an_entry(entries.drop_last(), key);
    }
}

} // verus!
