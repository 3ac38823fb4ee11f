//! A small map from capability instances to what is known of them.

use crate::text::text_equal;
use vstd::prelude::*;

verus! {

/// The map that a list of entries stands for: of two entries for one instance, the later counts.
pub open spec fn entries_map<V>(entries: Seq<(String, V)>) -> Map<Seq<char>, V>
    decreases entries.len(),
{
    if entries.len() == 0 {
        Map::empty()
    } else {
        entries_map(entries.drop_last()).insert(entries.last().0@, entries.last().1)
    }
}

/// An instance that no entry names is not in the map.
proof fn lemma_absent<V>(entries: Seq<(String, V)>, instance: Seq<char>)
    requires
        forall|i: int| 0 <= i < entries.len() ==> (#[trigger] entries[i]).0@ != instance,
    ensures
        !entries_map(entries).dom().contains(instance),
    decreases entries.len(),
{
    if entries.len() > 0 {
        lemma_absent(entries.drop_last(), instance);
    }
}

/// The last entry that names an instance is what the map holds of it.
proof fn lemma_last_entry<V>(entries: Seq<(String, V)>, at: int)
    requires
        0 <= at < entries.len(),
        forall|i: int| at < i < entries.len() ==> (#[trigger] entries[i]).0@ != entries[at].0@,
    ensures
        entries_map(entries).dom().contains(entries[at].0@),
        entries_map(entries)[entries[at].0@] == entries[at].1,
    decreases entries.len(),
{
    if at < entries.len() - 1 {
        lemma_last_entry(entries.drop_last(), at);
    }
}

/// To replace the last entry that names an instance is to replace what the map holds of it.
proof fn lemma_replace_entry<V>(entries: Seq<(String, V)>, at: int, entry: (String, V))
    requires
        0 <= at < entries.len(),
        entry.0@ == entries[at].0@,
        forall|i: int| at < i < entries.len() ==> (#[trigger] entries[i]).0@ != entries[at].0@,
    ensures
        entries_map(entries.update(at, entry)) == entries_map(entries).insert(entry.0@, entry.1),
    decreases entries.len(),
{
    let updated = entries.update(at, entry);
    if at == entries.len() - 1 {
        assert(updated.drop_last() =~= entries.drop_last());
    } else {
        lemma_replace_entry(entries.drop_last(), at, entry);
        assert(updated.drop_last() =~= entries.drop_last().update(at, entry));
    }
    assert(entries_map(updated) =~= entries_map(entries).insert(entry.0@, entry.1));
}

/// What is known of each capability instance of a device.
#[derive(Clone, Debug)]
pub struct InstanceMap<V> {
    entries: Vec<(String, V)>,
}

impl<V> View for InstanceMap<V> {
    type V = Map<Seq<char>, V>;

    closed spec fn view(&self) -> Map<Seq<char>, V> {
        entries_map(self.entries@)
    }
}

impl<V> InstanceMap<V> {
    /// What is known of an instance, if anything is.
    pub open spec fn known(self, instance: Seq<char>) -> Option<V> {
        if self@.dom().contains(instance) {
            Some(self@[instance])
        } else {
            None
        }
    }

    pub fn new() -> (map: Self)
        ensures
            map@ == Map::<Seq<char>, V>::empty(),
    {
        InstanceMap { entries: Vec::new() }
    }

    /// The index of the last entry that names an instance.
    fn position(&self, instance: &str) -> (found: Option<usize>)
        ensures
            match found {
                Some(at) => at < self.entries.len() && self.entries[at as int].0@ == instance@
                    && forall|i: int|
                    at < i < self.entries.len() ==> (#[trigger] self.entries[i]).0@ != instance@,
                None => forall|i: int|
                    0 <= i < self.entries.len() ==> (#[trigger] self.entries[i]).0@ != instance@,
            },
    {
        let mut end: usize = self.entries.len();
        while end > 0
            invariant
                end <= self.entries.len(),
                forall|i: int|
                    end <= i < self.entries.len() ==> (#[trigger] self.entries[i]).0@ != instance@,
            decreases end,
        {
            end -= 1;
            if text_equal(self.entries[end].0.as_str(), instance) {
                return Some(end);
            }
        }
        None
    }

    pub fn get(&self, instance: &str) -> (known: Option<&V>)
        ensures
            match known {
                Some(value) => self.known(instance@) == Some(*value),
                None => self.known(instance@) is None,
            },
    {
        match self.position(instance) {
            Some(at) => {
                proof {
                    lemma_last_entry(self.entries@, at as int);
                }
                Some(&self.entries[at].1)
            },
            None => {
                proof {
                    lemma_absent(self.entries@, instance@);
                }
                None
            },
        }
    }

    pub fn set(&mut self, instance: &str, value: V)
        ensures
            final(self)@ == old(self)@.insert(instance@, value),
    {
        let entry: (String, V) = (instance.to_owned(), value);
        match self.position(instance) {
            Some(at) => {
                proof {
                    lemma_replace_entry(self.entries@, at as int, entry);
                }
                self.entries.set(at, entry);
            },
            None => {
                self.entries.push(entry);
                assert(self.entries@.drop_last() =~= old(self).entries@);
            },
        }
    }
}

} // verus!
