//! Named values that a trace or a response carries along.
//!
//! A measured value is of a type `M` that nothing here looks into.

use crate::text::same_text;
use vstd::prelude::*;

verus! {

/// A value.
#[derive(Clone, PartialEq, Debug)]
pub enum AttrValue<M> {
    Null,
    Bool(bool),
    Count(u64),
    Signed(i64),
    Text(String),
    /// A measured value.
    Measure(M),
    /// A length of time in nanoseconds.
    Duration(u128),
    /// A quotient of two counts, zero where the second is zero.
    Ratio { part: u64, whole: u64 },
}

/// What a value holds.
pub enum AttrView<M> {
    Null,
    Bool(bool),
    Count(int),
    Signed(int),
    Text(Seq<char>),
    Measure(M),
    Duration(int),
    Ratio { part: int, whole: int },
}

impl<M> View for AttrValue<M> {
    type V = AttrView<M>;

    open spec fn view(&self) -> AttrView<M> {
        match *self {
            AttrValue::Null => AttrView::Null,
            AttrValue::Signed(value) => AttrView::Signed(value as int),
            AttrValue::Bool(value) => AttrView::Bool(value),
            AttrValue::Count(value) => AttrView::Count(value as int),
            AttrValue::Text(value) => AttrView::Text(value@),
            AttrValue::Measure(value) => AttrView::Measure(value),
            AttrValue::Duration(value) => AttrView::Duration(value as int),
            AttrValue::Ratio { part, whole } => AttrView::Ratio {
                part: part as int,
                whole: whole as int,
            },
        }
    }
}

/// Values by name. A name has at most one value.
pub struct AttrMap<M> {
    entries: Vec<(String, AttrValue<M>)>,
}

/// The values of a list of entries, the last of each name.
pub open spec fn values_of<M>(entries: Seq<(String, AttrValue<M>)>) -> Map<Seq<char>, AttrView<M>>
    decreases entries.len(),
{
    if entries.len() == 0 {
        Map::empty()
    } else {
        values_of(entries.drop_last()).insert(entries.last().0@, entries.last().1@)
    }
}

/// Whether no name occurs twice.
pub open spec fn names_unique<M>(entries: Seq<(String, AttrValue<M>)>) -> bool {
    forall|i: int, j: int|
        0 <= i < j < entries.len() ==> #[trigger] entries[i].0@ != #[trigger] entries[j].0@
}

proof fn lemma_values_dom<M>(entries: Seq<(String, AttrValue<M>)>, name: Seq<char>)
    ensures
        values_of(entries).contains_key(name) <==> exists|i: int|
            0 <= i < entries.len() && #[trigger] entries[i].0@ == name,
    decreases entries.len(),
{
    if entries.len() > 0 {
        let rest = entries.drop_last();
        lemma_values_dom(rest, name);
        if exists|i: int| 0 <= i < rest.len() && #[trigger] rest[i].0@ == name {
            let i = choose|i: int| 0 <= i < rest.len() && #[trigger] rest[i].0@ == name;
            assert(entries[i].0@ == name);
        }
        if entries.last().0@ == name {
            assert(entries[entries.len() - 1].0@ == name);
        }
        if exists|i: int| 0 <= i < entries.len() && #[trigger] entries[i].0@ == name {
            let i = choose|i: int| 0 <= i < entries.len() && #[trigger] entries[i].0@ == name;
            if i < rest.len() {
                assert(rest[i].0@ == name);
            }
        }
    }
}

proof fn lemma_values_at<M>(entries: Seq<(String, AttrValue<M>)>, i: int)
    requires
        names_unique(entries),
        0 <= i < entries.len(),
    ensures
        values_of(entries).contains_key(entries[i].0@),
        values_of(entries)[entries[i].0@] == entries[i].1@,
    decreases entries.len(),
{
    let last = entries.len() - 1;
    if i < last {
        let rest = entries.drop_last();
        assert(names_unique(rest)) by {
            assert forall|a: int, b: int| 0 <= a < b < rest.len() implies #[trigger] rest[a].0@
                != #[trigger] rest[b].0@ by {
                assert(entries[a].0@ != entries[b].0@);
            }
        }
        lemma_values_at(rest, i);
        assert(rest[i] == entries[i]);
        assert(entries[i].0@ != entries[last].0@);
    }
}

proof fn lemma_values_update<M>(
    entries: Seq<(String, AttrValue<M>)>,
    i: int,
    entry: (String, AttrValue<M>),
)
    requires
        names_unique(entries),
        0 <= i < entries.len(),
        entry.0@ == entries[i].0@,
    ensures
        values_of(entries.update(i, entry)) == values_of(entries).insert(entry.0@, entry.1@),
    decreases entries.len(),
{
    let changed = entries.update(i, entry);
    let last = entries.len() - 1;
    if i == last {
        assert(changed.drop_last() =~= entries.drop_last());
        assert(values_of(changed) =~= values_of(entries).insert(entry.0@, entry.1@));
    } else {
        let rest = entries.drop_last();
        assert(changed.drop_last() =~= rest.update(i, entry));
        assert(names_unique(rest)) by {
            assert forall|a: int, b: int| 0 <= a < b < rest.len() implies #[trigger] rest[a].0@
                != #[trigger] rest[b].0@ by {
                assert(entries[a].0@ != entries[b].0@);
            }
        }
        assert(rest[i] == entries[i]);
        lemma_values_update(rest, i, entry);
        assert(entries[i].0@ != entries[last].0@);
        assert(values_of(changed) =~= values_of(entries).insert(entry.0@, entry.1@));
    }
}

impl<M> View for AttrMap<M> {
    type V = Map<Seq<char>, AttrView<M>>;

    closed spec fn view(&self) -> Map<Seq<char>, AttrView<M>> {
        values_of(self.entries@)
    }
}

impl<M> AttrMap<M> {
    /// Whether no name has two values.
    #[verifier::type_invariant]
    spec fn inv(self) -> bool {
        names_unique(self.entries@)
    }

    /// A map without values.
    pub fn new() -> (map: AttrMap<M>)
        ensures
            map@ == Map::<Seq<char>, AttrView<M>>::empty(),
    {
        AttrMap { entries: Vec::new() }
    }

    fn find(entries: &Vec<(String, AttrValue<M>)>, name: &str) -> (at: usize)
        ensures
            at <= entries.len(),
            at < entries.len() ==> entries@[at as int].0@ == name@,
            at == entries.len() ==> forall|i: int|
                0 <= i < entries.len() ==> #[trigger] entries@[i].0@ != name@,
    {
        let mut at: usize = 0;
        while at < entries.len()
            invariant
                at <= entries.len(),
                forall|i: int| 0 <= i < at ==> #[trigger] entries@[i].0@ != name@,
            decreases entries.len() - at,
        {
            if same_text(entries[at].0.as_str(), name) {
                return at;
            }
            at += 1;
        }
        at
    }

    /// Gives a name a value, in place of the one it had.
    pub fn insert(&mut self, name: &str, value: AttrValue<M>)
        ensures
            final(self)@ == old(self)@.insert(name@, value@),
    {
        proof {
            use_type_invariant(&*self);
        }
        let mut entries: Vec<(String, AttrValue<M>)> = Vec::new();
        std::mem::swap(&mut entries, &mut self.entries);
        let ghost before = entries@;
        let at: usize = Self::find(&entries, name);
        let entry = (name.to_owned(), value);
        if at < entries.len() {
            entries.set(at, entry);
            proof {
                lemma_values_update(before, at as int, entry);
                assert(names_unique(entries@)) by {
                    assert forall|i: int, j: int|
                        0 <= i < j < entries@.len() implies #[trigger] entries@[i].0@
                        != #[trigger] entries@[j].0@ by {
                        assert(before[i].0@ != before[j].0@);
                    }
                }
            }
        } else {
            entries.push(entry);
            assert(entries@.drop_last() =~= before);
        }
        self.entries = entries;
    }

    /// The value of a name.
    pub fn get(&self, name: &str) -> (value: Option<&AttrValue<M>>)
        ensures
            match value {
                Some(value) => self@.contains_key(name@) && self@[name@] == value@,
                None => !self@.contains_key(name@),
            },
    {
        proof {
            use_type_invariant(self);
        }
        let at: usize = Self::find(&self.entries, name);
        if at < self.entries.len() {
            proof {
                lemma_values_at(self.entries@, at as int);
            }
            Some(&self.entries[at].1)
        } else {
            proof {
                lemma_values_dom(self.entries@, name@);
            }
            None
        }
    }

    /// All names with their values, each name once.
    pub fn entries(&self) -> (entries: &Vec<(String, AttrValue<M>)>)
        ensures
            values_of(entries@) == self@,
            names_unique(entries@),
    {
        proof {
            use_type_invariant(self);
        }
        &self.entries
    }

    /// Gives a name a truth value.
    pub fn insert_bool(&mut self, name: &str, value: bool)
        ensures
            final(self)@ == old(self)@.insert(name@, AttrView::Bool(value)),
    {
        self.insert(name, AttrValue::Bool(value));
    }

    /// Gives a name a count.
    pub fn insert_count(&mut self, name: &str, value: usize)
        ensures
            final(self)@ == old(self)@.insert(name@, AttrView::Count(value as int)),
    {
        self.insert(name, AttrValue::Count(value as u64));
    }

    /// Gives a name a number.
    pub fn insert_number(&mut self, name: &str, value: u64)
        ensures
            final(self)@ == old(self)@.insert(name@, AttrView::Count(value as int)),
    {
        self.insert(name, AttrValue::Count(value));
    }

    /// Gives a name a text.
    pub fn insert_text(&mut self, name: &str, value: &str)
        ensures
            final(self)@ == old(self)@.insert(name@, AttrView::Text(value@)),
    {
        self.insert(name, AttrValue::Text(value.to_owned()));
    }

    /// Gives a name a measured value.
    pub fn insert_measure(&mut self, name: &str, value: M)
        ensures
            final(self)@ == old(self)@.insert(name@, AttrView::Measure(value)),
    {
        self.insert(name, AttrValue::Measure(value));
    }
}

/// A value is what it holds.
pub proof fn law_values_are_what_they_hold<M>(
    flag: bool,
    count: u64,
    signed: i64,
    text: String,
    measured: M,
    nanos: u128,
    whole: u64,
)
    ensures
        AttrValue::<M>::Null@ == AttrView::<M>::Null,
        AttrValue::<M>::Bool(flag)@ == AttrView::<M>::Bool(flag),
        AttrValue::<M>::Count(count)@ == AttrView::<M>::Count(count as int),
        AttrValue::<M>::Signed(signed)@ == AttrView::<M>::Signed(signed as int),
        AttrValue::<M>::Text(text)@ == AttrView::<M>::Text(text@),
        AttrValue::Measure(measured)@ == AttrView::Measure(measured),
        AttrValue::<M>::Duration(nanos)@ == AttrView::<M>::Duration(nanos as int),
        (AttrValue::<M>::Ratio { part: count, whole })@ == (AttrView::<M>::Ratio {
            part: count as int,
            whole: whole as int,
        }),
{
}

/// Among entries of different names, each gives its name its value, and no other
/// name has one.
pub proof fn law_entries_give_their_values<M>(
    entries: Seq<(String, AttrValue<M>)>,
    i: int,
    name: Seq<char>,
)
    requires
        forall|a: int, b: int|
            0 <= a < b < entries.len() ==> #[trigger] entries[a].0@ != #[trigger] entries[b].0@,
    ensures
        names_unique(entries),
        0 <= i < entries.len() ==> values_of(entries).contains_key(entries[i].0@) && values_of(
            entries,
        )[entries[i].0@] == entries[i].1@,
        values_of(entries).contains_key(name) <==> exists|k: int|
            0 <= k < entries.len() && #[trigger] entries[k].0@ == name,
{
    lemma_values_dom(entries, name);
    if 0 <= i < entries.len() {
        lemma_values_at(entries, i);
    }
}

} // verus!
