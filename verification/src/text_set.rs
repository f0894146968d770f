//! Sets of texts, walked in order.

use crate::order::{
    law_precedes_irreflexive, law_precedes_total, law_precedes_transitive, precedes, text_precedes,
};
use crate::text::{same_text, texts};
use vstd::prelude::*;

verus! {

/// Whether each text comes after the one before it.
pub open spec fn strictly_sorted(list: Seq<Seq<char>>) -> bool {
    forall|i: int, j: int|
        0 <= i < j < list.len() ==> precedes(#[trigger] list[i], #[trigger] list[j])
}

/// A set of texts.
#[derive(Debug)]
pub struct TextSet {
    list: Vec<String>,
}

impl View for TextSet {
    type V = Set<Seq<char>>;

    closed spec fn view(&self) -> Set<Seq<char>> {
        texts(self.list@).to_set()
    }
}

/// Where a text is in a sorted list, or belongs.
fn find_position(list: &Vec<String>, text: &str) -> (at: usize)
    requires
        strictly_sorted(texts(list@)),
    ensures
        at <= list@.len(),
        forall|i: int| 0 <= i < at ==> precedes(#[trigger] texts(list@)[i], text@),
        at < list@.len() ==> !precedes(texts(list@)[at as int], text@),
        forall|i: int| at < i < list@.len() ==> #[trigger] texts(list@)[i] != text@,
        forall|i: int| 0 <= i < at ==> #[trigger] texts(list@)[i] != text@,
{
    let ghost all = texts(list@);
    let mut at: usize = 0;
    while at < list.len() && text_precedes(list[at].as_str(), text)
        invariant
            at <= list@.len(),
            all == texts(list@),
            forall|i: int| 0 <= i < at ==> precedes(#[trigger] all[i], text@),
        decreases list@.len() - at,
    {
        assert(all[at as int] == list@[at as int]@);
        at += 1;
    }
    proof {
        law_precedes_irreflexive(text@);
        if at < list@.len() {
            assert(all[at as int] == list@[at as int]@);
            assert forall|i: int| at < i < list@.len() implies #[trigger] all[i] != text@ by {
                assert(precedes(all[at as int], all[i]));
            }
        }
    }
    at
}

impl TextSet {
    /// Whether the texts are sorted, each once.
    #[verifier::type_invariant]
    spec fn inv(self) -> bool {
        strictly_sorted(texts(self.list@))
    }

    /// A set without texts.
    pub fn new() -> (set: TextSet)
        ensures
            set@ == Set::<Seq<char>>::empty(),
    {
        let set = TextSet { list: Vec::new() };
        assert(set@ =~= Set::<Seq<char>>::empty());
        set
    }

    /// Puts a text into the set; tells whether it was new.
    pub fn insert(&mut self, text: &str) -> (new: bool)
        ensures
            final(self)@ == old(self)@.insert(text@),
            new == !old(self)@.contains(text@),
    {
        proof {
            use_type_invariant(&*self);
        }
        let mut list: Vec<String> = Vec::new();
        std::mem::swap(&mut list, &mut self.list);
        let ghost before = texts(list@);
        let at: usize = find_position(&list, text);
        if at < list.len() && same_text(list[at].as_str(), text) {
            proof {
                assert(before[at as int] == text@);
                assert(before.to_set().insert(text@) =~= before.to_set());
            }
            self.list = list;
            return false;
        }
        proof {
            if at < list@.len() {
                assert(before[at as int] == list@[at as int]@);
                law_precedes_total(before[at as int], text@);
            }
            assert forall|i: int| 0 <= i < before.len() implies before[i] != text@ by {
                if i == at {
                    assert(before[i] == list@[i]@);
                }
            }
        }
        list.insert(at, text.to_owned());
        proof {
            let after = texts(list@);
            assert(after =~= before.insert(at as int, text@));
            assert forall|i: int, j: int| 0 <= i < j < after.len() implies precedes(
                #[trigger] after[i],
                #[trigger] after[j],
            ) by {
                if j < at {
                    assert(after[i] == before[i] && after[j] == before[j]);
                } else if i > at {
                    assert(after[i] == before[i - 1] && after[j] == before[j - 1]);
                } else if j == at {
                    assert(after[i] == before[i]);
                } else {
                    assert(after[j] == before[j - 1]);
                    if i == at {
                        if j - 1 > at {
                            assert(precedes(before[at as int], before[j - 1]));
                            law_precedes_transitive(text@, before[at as int], before[j - 1]);
                        }
                    } else {
                        assert(after[i] == before[i]);
                    }
                }
            }
            assert forall|other: Seq<char>|
                #![auto]
                after.contains(other) <==> before.contains(other) || other == text@ by {
                if after.contains(other) {
                    let i = choose|i: int| 0 <= i < after.len() && after[i] == other;
                    if i < at {
                        assert(before[i] == other);
                    } else if i > at {
                        assert(before[i - 1] == other);
                    }
                }
                if before.contains(other) {
                    let i = choose|i: int| 0 <= i < before.len() && before[i] == other;
                    if i < at {
                        assert(after[i] == other);
                    } else {
                        assert(after[i + 1] == other);
                    }
                }
                if other == text@ {
                    assert(after[at as int] == other);
                }
            }
            assert(after.to_set() =~= before.to_set().insert(text@));
        }
        self.list = list;
        true
    }

    /// Whether the set holds a text.
    pub fn contains(&self, text: &str) -> (found: bool)
        ensures
            found == self@.contains(text@),
    {
        proof {
            use_type_invariant(self);
        }
        let at: usize = find_position(&self.list, text);
        let found = at < self.list.len() && same_text(self.list[at].as_str(), text);
        proof {
            let all = texts(self.list@);
            if found {
                assert(all[at as int] == text@);
            } else {
                assert forall|i: int| 0 <= i < all.len() implies all[i] != text@ by {
                    if i == at {
                        assert(all[i] == self.list@[i]@);
                    }
                }
            }
        }
        found
    }

    /// Whether the set holds nothing.
    pub fn is_empty(&self) -> (empty: bool)
        ensures
            empty == (self@ == Set::<Seq<char>>::empty()),
    {
        let empty = self.list.len() == 0;
        proof {
            if empty {
                assert(self@ =~= Set::<Seq<char>>::empty());
            } else {
                assert(texts(self.list@)[0] == self.list@[0]@);
                assert(self@.contains(texts(self.list@)[0]));
            }
        }
        empty
    }

    /// The texts in order, each once.
    pub fn sorted(&self) -> (list: &Vec<String>)
        ensures
            strictly_sorted(texts(list@)),
            texts(list@).to_set() == self@,
    {
        proof {
            use_type_invariant(self);
        }
        &self.list
    }

    /// The texts that another set does not hold, in order.
    pub fn difference(&self, other: &TextSet) -> (list: Vec<String>)
        ensures
            strictly_sorted(texts(list@)),
            texts(list@).to_set() == self@.difference(other@),
    {
        proof {
            use_type_invariant(self);
        }
        let mut list: Vec<String> = Vec::new();
        let ghost all = texts(self.list@);
        let mut i: usize = 0;
        while i < self.list.len()
            invariant
                i <= self.list@.len(),
                all == texts(self.list@),
                strictly_sorted(all),
                strictly_sorted(texts(list@)),
                forall|text: Seq<char>|
                    #![trigger texts(list@).contains(text)]
                    texts(list@).contains(text) <==> all.take(i as int).contains(text)
                        && !other@.contains(text),
                list@.len() > 0 ==> i > 0,
            decreases self.list@.len() - i,
        {
            let ghost before = texts(list@);
            let ghost now = all[i as int];
            let ghost past = all.take(i as int);
            let ghost seen = all.take(i + 1);
            assert(now == self.list@[i as int]@);
            proof {
                assert(seen =~= past.push(now));
                assert forall|text: Seq<char>|
                    #![trigger seen.contains(text)]
                    seen.contains(text) <==> past.contains(text) || text
                        == now by {
                    if past.contains(text) {
                        let k = choose|k: int|
                            0 <= k < past.len() && past[k] == text;
                        assert(seen[k] == text);
                    }
                    if text == now {
                        assert(seen[i as int] == text);
                    }
                    if seen.contains(text) {
                        let k = choose|k: int| 0 <= k < seen.len() && seen[k] == text;
                        if k < i {
                            assert(past[k] == text);
                        }
                    }
                }
            }
            if !other.contains(self.list[i].as_str()) {
                proof {
                    assert forall|k: int| 0 <= k < before.len() implies precedes(
                        #[trigger] before[k],
                        now,
                    ) by {
                        assert(before.contains(before[k]));
                        let m = choose|m: int|
                            0 <= m < past.len() && past[m] == before[k];
                        assert(precedes(all[m], all[i as int]));
                    }
                }
                list.push(self.list[i].clone());
                proof {
                    let after = texts(list@);
                    assert(after =~= before.push(now));
                    assert forall|text: Seq<char>|
                        #![trigger after.contains(text)]
                        after.contains(text) <==> before.contains(text) || text == now by {
                        if before.contains(text) {
                            let k = choose|k: int| 0 <= k < before.len() && before[k] == text;
                            assert(after[k] == text);
                        }
                        if text == now {
                            assert(after[before.len() as int] == text);
                        }
                        if after.contains(text) {
                            let k = choose|k: int| 0 <= k < after.len() && after[k] == text;
                            if k < before.len() {
                                assert(before[k] == text);
                            }
                        }
                    }
                }
            }
            i += 1;
        }
        assert(all.take(i as int) =~= all);
        assert(texts(list@).to_set() =~= self@.difference(other@));
        list
    }
}

/// A sorted list without repetition is determined by what it holds.
pub proof fn law_sorted_list_is_determined(left: Seq<Seq<char>>, right: Seq<Seq<char>>)
    requires
        strictly_sorted(left),
        strictly_sorted(right),
        left.to_set() == right.to_set(),
    ensures
        left == right,
    decreases left.len(),
{
    if left.len() == 0 {
        if right.len() > 0 {
            assert(right.to_set().contains(right[0]));
        }
        assert(left =~= right);
    } else {
        assert(left.to_set().contains(left[0]));
        assert(right.contains(left[0]));
        let h = choose|h: int| 0 <= h < right.len() && right[h] == left[0];
        assert(right.to_set().contains(right[0]));
        assert(left.contains(right[0]));
        let g = choose|g: int| 0 <= g < left.len() && left[g] == right[0];
        if g > 0 && h > 0 {
            assert(precedes(left[0], left[g]));
            assert(precedes(right[0], right[h]));
            law_precedes_transitive(left[0], right[0], left[0]);
            law_precedes_irreflexive(left[0]);
        }
        assert(left[0] == right[0]);
        let rest = left.drop_first();
        let others = right.drop_first();
        assert forall|name: Seq<char>| #[trigger] rest.contains(name) <==> others.contains(name) by {
            if rest.contains(name) {
                let a = choose|a: int| 0 <= a < rest.len() && rest[a] == name;
                assert(left[a + 1] == name);
                assert(left.to_set().contains(name));
                assert(right.contains(name));
                let b = choose|b: int| 0 <= b < right.len() && right[b] == name;
                if b == 0 {
                    assert(precedes(left[0], left[a + 1]));
                    law_precedes_irreflexive(left[0]);
                }
                assert(others[b - 1] == name);
            }
            if others.contains(name) {
                let a = choose|a: int| 0 <= a < others.len() && others[a] == name;
                assert(right[a + 1] == name);
                assert(right.to_set().contains(name));
                assert(left.contains(name));
                let b = choose|b: int| 0 <= b < left.len() && left[b] == name;
                if b == 0 {
                    assert(precedes(right[0], right[a + 1]));
                    law_precedes_irreflexive(right[0]);
                }
                assert(rest[b - 1] == name);
            }
        }
        assert(rest.to_set() =~= others.to_set());
        assert(strictly_sorted(rest)) by {
            assert forall|a: int, b: int| 0 <= a < b < rest.len() implies precedes(
                #[trigger] rest[a],
                #[trigger] rest[b],
            ) by {
                assert(precedes(left[a + 1], left[b + 1]));
            }
        }
        assert(strictly_sorted(others)) by {
            assert forall|a: int, b: int| 0 <= a < b < others.len() implies precedes(
                #[trigger] others[a],
                #[trigger] others[b],
            ) by {
                assert(precedes(right[a + 1], right[b + 1]));
            }
        }
        law_sorted_list_is_determined(rest, others);
        assert(left =~= seq![left[0]] + rest);
        assert(right =~= seq![right[0]] + others);
    }
}

} // verus!
