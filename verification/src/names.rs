//! Things that are found by name.

use crate::text::same_text;
use vstd::prelude::*;

verus! {

/// Values by name. A name has at most one value.
pub struct NameMap<V> {
    entries: Vec<(String, V)>,
}

/// The values of a list of entries, the last of each name.
pub open spec fn named<V>(entries: Seq<(String, V)>) -> Map<Seq<char>, V>
    decreases entries.len(),
{
    if entries.len() == 0 {
        Map::empty()
    } else {
        named(entries.drop_last()).insert(entries.last().0@, entries.last().1)
    }
}

/// Whether no name occurs twice.
pub open spec fn names_differ<V>(entries: Seq<(String, V)>) -> bool {
    forall|i: int, j: int|
        0 <= i < j < entries.len() ==> #[trigger] entries[i].0@ != #[trigger] entries[j].0@
}

proof fn lemma_differ_prefix<V>(entries: Seq<(String, V)>)
    requires
        entries.len() > 0,
        names_differ(entries),
    ensures
        names_differ(entries.drop_last()),
{
    let rest = entries.drop_last();
    assert forall|i: int, j: int| 0 <= i < j < rest.len() implies #[trigger] rest[i].0@
        != #[trigger] rest[j].0@ by {
        assert(entries[i].0@ != entries[j].0@);
    }
}

proof fn lemma_named_dom<V>(entries: Seq<(String, V)>, name: Seq<char>)
    ensures
        named(entries).contains_key(name) <==> exists|i: int|
            0 <= i < entries.len() && #[trigger] entries[i].0@ == name,
    decreases entries.len(),
{
    if entries.len() > 0 {
        let rest = entries.drop_last();
        lemma_named_dom(rest, name);
        if exists|i: int| 0 <= i < rest.len() && #[trigger] rest[i].0@ == name {
            let i = choose|i: int| 0 <= i < rest.len() && #[trigger] rest[i].0@ == name;
            assert(entries[i].0@ == name);
        }
        if entries.last().0@ == name {
            assert(entries[entries.len() - 1].0@ == name);
        }
        if exists|i: int| 0 <= i < entries.len() && #[trigger] entries[i].0@ == name {
            let i = choose|i: int| 0 <= i < entries.len() && #[trigger] entries[i].0@ == name;
            if i < rest.len() {
                assert(rest[i].0@ == name);
            }
        }
    }
}

proof fn lemma_named_at<V>(entries: Seq<(String, V)>, i: int)
    requires
        names_differ(entries),
        0 <= i < entries.len(),
    ensures
        named(entries).contains_key(entries[i].0@),
        named(entries)[entries[i].0@] == entries[i].1,
    decreases entries.len(),
{
    let last = entries.len() - 1;
    if i < last {
        lemma_differ_prefix(entries);
        lemma_named_at(entries.drop_last(), i);
        assert(entries[i].0@ != entries[last].0@);
    }
}

proof fn lemma_named_update<V>(entries: Seq<(String, V)>, i: int, entry: (String, V))
    requires
        names_differ(entries),
        0 <= i < entries.len(),
        entry.0@ == entries[i].0@,
    ensures
        named(entries.update(i, entry)) == named(entries).insert(entry.0@, entry.1),
    decreases entries.len(),
{
    let changed = entries.update(i, entry);
    let last = entries.len() - 1;
    let rest = entries.drop_last();
    if i == last {
        assert(changed.drop_last() =~= rest);
    } else {
        assert(changed.drop_last() =~= rest.update(i, entry));
        lemma_differ_prefix(entries);
        lemma_named_update(rest, i, entry);
        assert(entries[i].0@ != entries[last].0@);
    }
    assert(named(changed) =~= named(entries).insert(entry.0@, entry.1));
}

impl<V> View for NameMap<V> {
    type V = Map<Seq<char>, V>;

    closed spec fn view(&self) -> Map<Seq<char>, V> {
        named(self.entries@)
    }
}

impl<V> NameMap<V> {
    /// Whether no name has two values.
    #[verifier::type_invariant]
    spec fn inv(self) -> bool {
        names_differ(self.entries@)
    }

    /// A map without values.
    pub fn new() -> (map: NameMap<V>)
        ensures
            map@ == Map::<Seq<char>, V>::empty(),
    {
        NameMap { entries: Vec::new() }
    }

    fn find(entries: &Vec<(String, V)>, name: &str) -> (at: usize)
        ensures
            at <= entries.len(),
            at < entries.len() ==> entries@[at as int].0@ == name@,
            at == entries.len() ==> forall|i: int|
                0 <= i < entries.len() ==> #[trigger] entries@[i].0@ != name@,
    {
        let mut at: usize = 0;
        while at < entries.len()
            invariant
                at <= entries.len(),
                forall|i: int| 0 <= i < at ==> #[trigger] entries@[i].0@ != name@,
            decreases entries.len() - at,
        {
            if same_text(entries[at].0.as_str(), name) {
                return at;
            }
            at += 1;
        }
        at
    }

    /// Gives a name a value, in place of the one it had.
    pub fn insert(&mut self, name: &str, value: V)
        ensures
            final(self)@ == old(self)@.insert(name@, value),
    {
        proof {
            use_type_invariant(&*self);
        }
        let mut entries: Vec<(String, V)> = Vec::new();
        std::mem::swap(&mut entries, &mut self.entries);
        let ghost before = entries@;
        let at: usize = Self::find(&entries, name);
        let entry = (name.to_owned(), value);
        if at < entries.len() {
            entries.set(at, entry);
            proof {
                lemma_named_update(before, at as int, entry);
                assert(names_differ(entries@)) by {
                    assert forall|i: int, j: int|
                        0 <= i < j < entries@.len() implies #[trigger] entries@[i].0@
                        != #[trigger] entries@[j].0@ by {
                        assert(before[i].0@ != before[j].0@);
                    }
                }
            }
        } else {
            entries.push(entry);
            assert(entries@.drop_last() =~= before);
        }
        self.entries = entries;
    }

    /// The value of a name.
    pub fn get(&self, name: &str) -> (value: Option<&V>)
        ensures
            match value {
                Some(value) => self@.contains_key(name@) && self@[name@] == value,
                None => !self@.contains_key(name@),
            },
    {
        proof {
            use_type_invariant(self);
        }
        let at: usize = Self::find(&self.entries, name);
        if at < self.entries.len() {
            proof {
                lemma_named_at(self.entries@, at as int);
            }
            Some(&self.entries[at].1)
        } else {
            proof {
                lemma_named_dom(self.entries@, name@);
            }
            None
        }
    }
}

} // verus!
