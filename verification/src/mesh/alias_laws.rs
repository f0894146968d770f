//! What holds of every grouping of model names.

use crate::mesh::aliases::{
    InferenceTarget, ModelTargets, alphanumerics, ascii_base, ascii_lower, base, base_of_lowered,
    first_local, is_ascii, is_group, is_grouping, is_plain, law_base_is_plain, lowered,
    occurrences, port_of, raised, served_here, tried_first, without_branch, without_capitals,
    without_publisher,
};
use crate::order::{law_precedes_irreflexive, law_precedes_transitive, precedes};
use crate::scan::{index_of, lemma_index_of_bounds, lemma_index_of_is, replaced};
use crate::scan_laws::{law_first_occurrence_is_replaced, law_nothing_to_replace};
use vstd::prelude::*;
use vstd::utf8::encode_utf8;

verus! {

proof fn lemma_antisymmetric(a: Seq<char>, b: Seq<char>, targets: Option<&ModelTargets>)
    requires
        tried_first(a, b, targets),
        tried_first(b, a, targets),
    ensures
        a == b,
{
    law_precedes_irreflexive(a);
    if precedes(a, b) && precedes(b, a) {
        law_precedes_transitive(a, b, a);
    }
}

/// Two lists of names that are tried in order, with the same names, are equal.
proof fn lemma_sorted_lists_equal(
    left: Seq<Seq<char>>,
    right: Seq<Seq<char>>,
    targets: Option<&ModelTargets>,
)
    requires
        forall|i: int, j: int|
            0 <= i < j < left.len() ==> tried_first(#[trigger] left[i], #[trigger] left[j], targets),
        forall|i: int, j: int|
            0 <= i < j < right.len() ==> tried_first(
                #[trigger] right[i],
                #[trigger] right[j],
                targets,
            ),
        left.to_multiset() == right.to_multiset(),
    ensures
        left == right,
    decreases left.len(),
{
    vstd::seq_lib::to_multiset_len(left);
    vstd::seq_lib::to_multiset_len(right);
    if left.len() == 0 {
        assert(left =~= right);
    } else {
        vstd::seq_lib::to_multiset_contains(left, left[0]);
        vstd::seq_lib::to_multiset_contains(right, left[0]);
        vstd::seq_lib::to_multiset_contains(left, right[0]);
        vstd::seq_lib::to_multiset_contains(right, right[0]);
        assert(left.contains(left[0]));
        assert(right.contains(right[0]));
        let i = choose|i: int| 0 <= i < right.len() && right[i] == left[0];
        let j = choose|j: int| 0 <= j < left.len() && left[j] == right[0];
        if i > 0 && j > 0 {
            assert(tried_first(right[0], right[i], targets));
            assert(tried_first(left[0], left[j], targets));
            lemma_antisymmetric(left[0], right[0], targets);
        }
        assert(left[0] == right[0]);
        vstd::seq_lib::to_multiset_remove(left, 0);
        vstd::seq_lib::to_multiset_remove(right, 0);
        assert(left.remove(0) =~= left.drop_first());
        assert(right.remove(0) =~= right.drop_first());
        assert forall|a: int, b: int| 0 <= a < b < left.drop_first().len() implies tried_first(
            #[trigger] left.drop_first()[a],
            #[trigger] left.drop_first()[b],
            targets,
        ) by {
            assert(tried_first(left[a + 1], left[b + 1], targets));
        }
        assert forall|a: int, b: int| 0 <= a < b < right.drop_first().len() implies tried_first(
            #[trigger] right.drop_first()[a],
            #[trigger] right.drop_first()[b],
            targets,
        ) by {
            assert(tried_first(right[a + 1], right[b + 1], targets));
        }
        lemma_sorted_lists_equal(left.drop_first(), right.drop_first(), targets);
        assert(left =~= seq![left[0]] + left.drop_first());
        assert(right =~= seq![right[0]] + right.drop_first());
    }
}

/// Whether the groups are groups of different models.
spec fn separate(groups: Seq<Seq<Seq<char>>>, targets: Option<&ModelTargets>) -> bool {
    &&& forall|g: int| 0 <= g < groups.len() ==> is_group(#[trigger] groups[g], targets)
    &&& forall|g: int, h: int|
        0 <= g < h < groups.len() ==> base((#[trigger] groups[g])[0]) != base(
            (#[trigger] groups[h])[0],
        )
}

proof fn lemma_not_in_other_base(
    group: Seq<Seq<char>>,
    targets: Option<&ModelTargets>,
    name: Seq<char>,
)
    requires
        is_group(group, targets),
        base(name) != base(group[0]),
    ensures
        group.to_multiset().count(name) == 0,
{
    vstd::seq_lib::to_multiset_contains(group, name);
    if group.contains(name) {
        let i = choose|i: int| 0 <= i < group.len() && group[i] == name;
        assert(base(group[i]) == base(group[0]));
    }
}

/// The names of a model occur in its group only.
proof fn lemma_occurrences_in_group(
    groups: Seq<Seq<Seq<char>>>,
    targets: Option<&ModelTargets>,
    g: int,
    name: Seq<char>,
)
    requires
        separate(groups, targets),
        0 <= g < groups.len(),
        base(name) == base(groups[g][0]),
    ensures
        occurrences(groups, name) == groups[g].to_multiset().count(name),
    decreases groups.len(),
{
    let last = groups.len() - 1;
    let rest = groups.drop_last();
    assert(separate(rest, targets)) by {
        assert forall|a: int| 0 <= a < rest.len() implies is_group(#[trigger] rest[a], targets) by {
            assert(rest[a] == groups[a]);
        }
        assert forall|a: int, b: int| 0 <= a < b < rest.len() implies base((#[trigger] rest[a])[0])
            != base((#[trigger] rest[b])[0]) by {
            assert(rest[a] == groups[a] && rest[b] == groups[b]);
        }
    }
    if g == last {
        lemma_occurrences_nowhere(rest, targets, name);
    } else {
        assert(base(groups[g][0]) != base(groups[last][0]));
        lemma_not_in_other_base(groups[last], targets, name);
        assert(rest[g] == groups[g]);
        lemma_occurrences_in_group(rest, targets, g, name);
    }
}

proof fn lemma_occurrences_nowhere(
    groups: Seq<Seq<Seq<char>>>,
    targets: Option<&ModelTargets>,
    name: Seq<char>,
)
    requires
        forall|g: int|
            0 <= g < groups.len() ==> is_group(#[trigger] groups[g], targets) && base(groups[g][0])
                != base(name),
    ensures
        occurrences(groups, name) == 0,
    decreases groups.len(),
{
    if groups.len() > 0 {
        let rest = groups.drop_last();
        assert forall|g: int| 0 <= g < rest.len() implies is_group(#[trigger] rest[g], targets)
            && base(rest[g][0]) != base(name) by {
            assert(rest[g] == groups[g]);
        }
        lemma_occurrences_nowhere(rest, targets, name);
        assert(is_group(groups[groups.len() - 1], targets));
        lemma_not_in_other_base(groups.last(), targets, name);
    }
}

/// A group of one grouping is a group of any other of the same names.
proof fn lemma_group_in_other(
    names: Seq<Seq<char>>,
    targets: Option<&ModelTargets>,
    left: Seq<Seq<Seq<char>>>,
    right: Seq<Seq<Seq<char>>>,
    g: int,
)
    requires
        is_grouping(names, targets, left),
        is_grouping(names, targets, right),
        0 <= g < left.len(),
    ensures
        right.contains(left[g]),
{
    let group = left[g];
    let first = group[0];
    assert(is_group(left[g], targets));
    vstd::seq_lib::to_multiset_contains(group, first);
    assert(group.contains(group[0]));
    lemma_occurrences_in_group(left, targets, g, first);
    assert(occurrences(left, first) == names.to_multiset().count(first));
    assert(occurrences(right, first) == names.to_multiset().count(first));
    if forall|h: int| 0 <= h < right.len() ==> base((#[trigger] right[h])[0]) != base(first) {
        assert forall|h: int| 0 <= h < right.len() implies is_group(#[trigger] right[h], targets)
            && base(right[h][0]) != base(first) by {}
        lemma_occurrences_nowhere(right, targets, first);
    }
    let h = choose|h: int|
        0 <= h < right.len() && base((#[trigger] right[h])[0]) == base(first);
    let other = right[h];
    assert(is_group(right[h], targets));
    assert forall|name: Seq<char>|
        group.to_multiset().count(name) == other.to_multiset().count(name) by {
        if base(name) == base(first) {
            lemma_occurrences_in_group(left, targets, g, name);
            lemma_occurrences_in_group(right, targets, h, name);
            assert(occurrences(left, name) == names.to_multiset().count(name));
            assert(occurrences(right, name) == names.to_multiset().count(name));
        } else {
            lemma_not_in_other_base(group, targets, name);
            lemma_not_in_other_base(other, targets, name);
        }
    }
    assert(group.to_multiset() =~= other.to_multiset());
    lemma_sorted_lists_equal(group, other, targets);
    assert(right[h] == left[g]);
}

/// Whether the first names of the groups follow each other.
spec fn in_order(groups: Seq<Seq<Seq<char>>>) -> bool {
    forall|g: int, h: int|
        0 <= g < h < groups.len() ==> precedes((#[trigger] groups[g])[0], (#[trigger] groups[h])[0])
}

proof fn lemma_ordered_groups_equal(left: Seq<Seq<Seq<char>>>, right: Seq<Seq<Seq<char>>>)
    requires
        in_order(left),
        in_order(right),
        forall|g: int| 0 <= g < left.len() ==> right.contains(#[trigger] left[g]),
        forall|g: int| 0 <= g < right.len() ==> left.contains(#[trigger] right[g]),
    ensures
        left == right,
    decreases left.len(),
{
    if left.len() == 0 {
        if right.len() > 0 {
            assert(left.contains(right[0]));
        }
        assert(left =~= right);
    } else {
        assert(right.contains(left[0]));
        let h = choose|h: int| 0 <= h < right.len() && right[h] == left[0];
        assert(left.contains(right[0]));
        let g = choose|g: int| 0 <= g < left.len() && left[g] == right[0];
        if g > 0 && h > 0 {
            assert(precedes(left[0][0], left[g][0]));
            assert(precedes(right[0][0], right[h][0]));
            law_precedes_transitive(left[0][0], right[0][0], left[0][0]);
            law_precedes_irreflexive(left[0][0]);
        }
        assert(left[0] == right[0]);
        let rest = left.drop_first();
        let others = right.drop_first();
        assert forall|a: int| 0 <= a < rest.len() implies others.contains(#[trigger] rest[a]) by {
            assert(right.contains(left[a + 1]));
            let b = choose|b: int| 0 <= b < right.len() && right[b] == left[a + 1];
            if b == 0 {
                assert(precedes(left[0][0], left[a + 1][0]));
                law_precedes_irreflexive(left[0][0]);
            }
            assert(others[b - 1] == rest[a]);
        }
        assert forall|a: int| 0 <= a < others.len() implies rest.contains(#[trigger] others[a]) by {
            assert(left.contains(right[a + 1]));
            let b = choose|b: int| 0 <= b < left.len() && left[b] == right[a + 1];
            if b == 0 {
                assert(precedes(right[0][0], right[a + 1][0]));
                law_precedes_irreflexive(right[0][0]);
            }
            assert(rest[b - 1] == others[a]);
        }
        assert(in_order(rest)) by {
            assert forall|a: int, b: int| 0 <= a < b < rest.len() implies precedes(
                (#[trigger] rest[a])[0],
                (#[trigger] rest[b])[0],
            ) by {
                assert(precedes(left[a + 1][0], left[b + 1][0]));
            }
        }
        assert(in_order(others)) by {
            assert forall|a: int, b: int| 0 <= a < b < others.len() implies precedes(
                (#[trigger] others[a])[0],
                (#[trigger] others[b])[0],
            ) by {
                assert(precedes(right[a + 1][0], right[b + 1][0]));
            }
        }
        lemma_ordered_groups_equal(rest, others);
        assert(left =~= seq![left[0]] + rest);
        assert(right =~= seq![right[0]] + others);
    }
}

/// The grouping depends on nothing but which names there are and how often,
/// not on the order in which they come in: the list of workers is stable.
pub proof fn law_grouping_is_stable(
    names: Seq<Seq<char>>,
    same_names: Seq<Seq<char>>,
    targets: Option<&ModelTargets>,
    groups: Seq<Seq<Seq<char>>>,
    same_groups: Seq<Seq<Seq<char>>>,
)
    requires
        names.to_multiset() == same_names.to_multiset(),
        is_grouping(names, targets, groups),
        is_grouping(same_names, targets, same_groups),
    ensures
        groups == same_groups,
{
    assert(is_grouping(names, targets, same_groups));
    assert forall|g: int| 0 <= g < groups.len() implies same_groups.contains(
        #[trigger] groups[g],
    ) by {
        lemma_group_in_other(names, targets, groups, same_groups, g);
    }
    assert forall|g: int| 0 <= g < same_groups.len() implies groups.contains(
        #[trigger] same_groups[g],
    ) by {
        lemma_group_in_other(names, targets, same_groups, groups, g);
    }
    lemma_ordered_groups_equal(groups, same_groups);
}

/// Every name that was given is in a group, and every name in a group was
/// given: no name is dropped in favour of another.
pub proof fn law_every_alias_is_kept(
    names: Seq<Seq<char>>,
    targets: Option<&ModelTargets>,
    groups: Seq<Seq<Seq<char>>>,
    name: Seq<char>,
)
    requires
        is_grouping(names, targets, groups),
    ensures
        names.contains(name) <==> exists|g: int|
            0 <= g < groups.len() && (#[trigger] groups[g]).contains(name),
{
    vstd::seq_lib::to_multiset_contains(names, name);
    assert(occurrences(groups, name) == names.to_multiset().count(name));
    if exists|g: int| 0 <= g < groups.len() && (#[trigger] groups[g]).contains(name) {
        let g = choose|g: int| 0 <= g < groups.len() && (#[trigger] groups[g]).contains(name);
        assert(is_group(groups[g], targets));
        let i = choose|i: int| 0 <= i < groups[g].len() && groups[g][i] == name;
        assert(base(groups[g][i]) == base(groups[g][0]));
        lemma_occurrences_in_group(groups, targets, g, name);
        vstd::seq_lib::to_multiset_contains(groups[g], name);
    } else {
        if names.contains(name) {
            if exists|g: int| 0 <= g < groups.len() && base((#[trigger] groups[g])[0]) == base(name) {
                let g = choose|g: int|
                    0 <= g < groups.len() && base((#[trigger] groups[g])[0]) == base(name);
                lemma_occurrences_in_group(groups, targets, g, name);
                vstd::seq_lib::to_multiset_contains(groups[g], name);
            } else {
                lemma_occurrences_nowhere(groups, targets, name);
            }
        }
    }
}

/// A name that this node serves itself is tried before all others of its
/// model, however long it is.
pub proof fn law_local_alias_comes_first(
    names: Seq<Seq<char>>,
    targets: Option<&ModelTargets>,
    groups: Seq<Seq<Seq<char>>>,
    g: int,
    i: int,
)
    requires
        is_grouping(names, targets, groups),
        0 <= g < groups.len(),
        0 <= i < groups[g].len(),
        served_here(groups[g][i], targets),
    ensures
        served_here(groups[g][0], targets),
{
    assert(is_group(groups[g], targets));
    if i > 0 {
        assert(tried_first(groups[g][0], groups[g][i], targets));
    }
}

/// The base of an ASCII name is plain: it does not matter how the name
/// separates its parts.
pub proof fn law_ascii_base_is_plain(name: Seq<char>)
    requires
        is_ascii(name),
    ensures
        is_plain(ascii_base(name)),
{
    assert(without_capitals(lowered(name))) by {
        assert forall|i: int| 0 <= i < name.len() implies !('A' <= #[trigger] lowered(name)[i]
            && lowered(name)[i] <= 'Z') by {
            assert(lowered(name)[i] == ascii_lower(name[i]));
        }
    }
    law_base_is_plain(lowered(name));
}

/// The case in which an ASCII name is written does not matter.
pub proof fn law_case_does_not_matter(name: Seq<char>)
    requires
        is_ascii(name),
    ensures
        is_ascii(raised(name)),
        ascii_base(raised(name)) == ascii_base(name),
{
    assert forall|i: int| 0 <= i < name.len() implies #[trigger] raised(name)[i] as u32 <= 0x7f by {
        assert(name[i] as u32 <= 0x7f);
    }
    assert(lowered(raised(name)) =~= lowered(name));
}

proof fn lemma_index_behind(head: Seq<char>, tail: Seq<char>, c: char)
    requires
        forall|i: int| 0 <= i < head.len() ==> head[i] != c,
    ensures
        index_of(head + tail, c) == head.len() + index_of(tail, c),
        0 <= index_of(tail, c) <= tail.len(),
{
    lemma_index_of_bounds(tail, c);
    let at = head.len() + index_of(tail, c);
    assert forall|i: int| 0 <= i < at implies (head + tail)[i] != c by {
        if i >= head.len() {
            assert((head + tail)[i] == tail[i - head.len()]);
        }
    }
    lemma_index_of_is(head + tail, c, at);
}

/// One model under different publishers is one model: the name with any
/// publisher in front has the base of the name without.
pub proof fn law_publisher_does_not_matter(publisher: Seq<char>, name: Seq<char>)
    requires
        !publisher.contains('/'),
        !publisher.contains('@'),
        !without_branch(name).contains('/'),
    ensures
        base_of_lowered(publisher.push('/') + name) == base_of_lowered(name),
{
    let head = publisher.push('/');
    let full = head + name;
    let short = without_branch(name);
    assert forall|i: int| 0 <= i < head.len() implies head[i] != '@' by {
        if i < publisher.len() {
            assert(publisher.contains(publisher[i]));
        }
    }
    lemma_index_behind(head, name, '@');
    let at = index_of(name, '@');
    if at < name.len() {
        assert(full.skip(head.len() + at + 1) =~= name.skip(at + 1));
        assert(full.take(head.len() + at) =~= head + name.take(at));
    }
    assert(without_branch(full) =~= head + short);
    assert forall|i: int| 0 <= i < short.len() implies short[i] != '/' by {
        assert(short.contains(short[i]));
    }
    assert forall|i: int| 0 <= i < publisher.len() implies (head + short)[i] != '/' by {
        assert(publisher.contains(publisher[i]));
    }
    lemma_index_of_is(head + short, '/', publisher.len() as int);
    lemma_index_of_is(short, '/', short.len() as int);
    assert((head + short).skip(head.len() as int) =~= short);
}

/// The same of an ASCII name as it is advertised, whatever its case.
pub proof fn law_publisher_of_ascii_name_does_not_matter(publisher: Seq<char>, name: Seq<char>)
    requires
        is_ascii(publisher.push('/') + name),
        !publisher.contains('/'),
        !publisher.contains('@'),
        !without_branch(lowered(name)).contains('/'),
    ensures
        ascii_base(publisher.push('/') + name) == ascii_base(name),
{
    let small = lowered(publisher);
    assert forall|i: int| 0 <= i < small.len() implies small[i] != '/' && small[i] != '@' by {
        assert(publisher.contains(publisher[i]));
        assert(small[i] == ascii_lower(publisher[i]));
    }
    law_publisher_does_not_matter(small, lowered(name));
    assert(lowered(publisher.push('/') + name) =~= small.push('/') + lowered(name));
}

proof fn lemma_kept_characters(text: Seq<char>)
    requires
        forall|i: int| 0 <= i < text.len() ==> !('A' <= #[trigger] text[i] && text[i] <= 'Z'),
    ensures
        alphanumerics(text) == text.filter(
            |c: char| ('a' <= c && c <= 'z') || ('0' <= c && c <= '9'),
        ),
    decreases text.len(),
{
    reveal(Seq::filter);
    if text.len() > 0 {
        let rest = text.drop_last();
        assert forall|i: int| 0 <= i < rest.len() implies !('A' <= #[trigger] rest[i] && rest[i]
            <= 'Z') by {
            assert(rest[i] == text[i]);
        }
        lemma_kept_characters(rest);
        assert(text.last() == text[text.len() - 1]);
    }
}

proof fn lemma_absent(text: Seq<char>, from: Seq<char>, at: int)
    requires
        0 <= at < from.len(),
        !text.contains(from[at]),
    ensures
        replaced(text, from, ""@) == text,
{
    assert forall|k: int| 0 <= k && k + from.len() <= text.len() implies #[trigger] text.subrange(
        k,
        k + from.len(),
    ) != from by {
        assert(text.subrange(k, k + from.len())[at] == text[k + at]);
        assert(text.contains(text[k + at]));
    }
    law_nothing_to_replace(text, from, ""@);
}

proof fn lemma_no_path(name: Seq<char>)
    requires
        !name.contains('@'),
        !name.contains('/'),
    ensures
        without_publisher(without_branch(name)) == name,
{
    assert forall|i: int| 0 <= i < name.len() implies name[i] != '@' && name[i] != '/' by {
        assert(name.contains(name[i]));
    }
    lemma_index_of_is(name, '@', name.len() as int);
    lemma_index_of_is(name, '/', name.len() as int);
}

/// No part of a name is lost but branch, publisher and format: of a lower-case
/// name without any of these, the base is all its letters and digits, in order.
pub proof fn law_base_keeps_letters_and_digits(name: Seq<char>)
    requires
        forall|i: int| 0 <= i < name.len() ==> !('A' <= #[trigger] name[i] && name[i] <= 'Z'),
        !name.contains('@'),
        !name.contains('/'),
        forall|k: int|
            0 <= k && k + "-gguf"@.len() <= name.len() ==> #[trigger] name.subrange(
                k,
                k + "-gguf"@.len(),
            ) != "-gguf"@,
    ensures
        base_of_lowered(name) == name.filter(
            |c: char| ('a' <= c && c <= 'z') || ('0' <= c && c <= '9'),
        ),
{
    reveal_strlit("-gguf");
    reveal_strlit("unsloth/");
    reveal_strlit("meshllm/");
    lemma_no_path(name);
    law_nothing_to_replace(name, "-gguf"@, ""@);
    lemma_absent(name, "unsloth/"@, 7);
    lemma_absent(name, "meshllm/"@, 7);
    lemma_kept_characters(name);
}

/// Two such names are names of one model only if their letters and digits agree.
pub proof fn law_different_letters_are_different_models(left: Seq<char>, right: Seq<char>)
    requires
        forall|i: int| 0 <= i < left.len() ==> !('A' <= #[trigger] left[i] && left[i] <= 'Z'),
        forall|i: int| 0 <= i < right.len() ==> !('A' <= #[trigger] right[i] && right[i] <= 'Z'),
        !left.contains('@') && !left.contains('/'),
        !right.contains('@') && !right.contains('/'),
        forall|k: int|
            0 <= k && k + "-gguf"@.len() <= left.len() ==> #[trigger] left.subrange(
                k,
                k + "-gguf"@.len(),
            ) != "-gguf"@,
        forall|k: int|
            0 <= k && k + "-gguf"@.len() <= right.len() ==> #[trigger] right.subrange(
                k,
                k + "-gguf"@.len(),
            ) != "-gguf"@,
    ensures
        base_of_lowered(left) == base_of_lowered(right) <==> left.filter(
            |c: char| ('a' <= c && c <= 'z') || ('0' <= c && c <= '9'),
        ) == right.filter(|c: char| ('a' <= c && c <= 'z') || ('0' <= c && c <= '9')),
{
    law_base_keeps_letters_and_digits(left);
    law_base_keeps_letters_and_digits(right);
}

/// Of a name behind a publisher everything is kept as well, further parts of the
/// path too, unless it names one of the two publishers that are dropped
/// anywhere.
pub proof fn law_publisher_alone_is_lost(publisher: Seq<char>, rest: Seq<char>)
    requires
        !publisher.contains('@'),
        !publisher.contains('/'),
        !rest.contains('@'),
        forall|i: int| 0 <= i < rest.len() ==> !('A' <= #[trigger] rest[i] && rest[i] <= 'Z'),
        forall|k: int|
            0 <= k && k + "-gguf"@.len() <= rest.len() ==> #[trigger] rest.subrange(
                k,
                k + "-gguf"@.len(),
            ) != "-gguf"@,
        forall|k: int|
            0 <= k && k + "unsloth/"@.len() <= rest.len() ==> #[trigger] rest.subrange(
                k,
                k + "unsloth/"@.len(),
            ) != "unsloth/"@,
        forall|k: int|
            0 <= k && k + "meshllm/"@.len() <= rest.len() ==> #[trigger] rest.subrange(
                k,
                k + "meshllm/"@.len(),
            ) != "meshllm/"@,
    ensures
        base_of_lowered(publisher.push('/') + rest) == rest.filter(
            |c: char| ('a' <= c && c <= 'z') || ('0' <= c && c <= '9'),
        ),
{
    reveal_strlit("-gguf");
    reveal_strlit("unsloth/");
    reveal_strlit("meshllm/");
    lemma_publisher_comes_off(publisher, rest);
    law_nothing_to_replace(rest, "-gguf"@, ""@);
    law_nothing_to_replace(rest, "unsloth/"@, ""@);
    law_nothing_to_replace(rest, "meshllm/"@, ""@);
    lemma_kept_characters(rest);
}

proof fn lemma_publisher_comes_off(publisher: Seq<char>, rest: Seq<char>)
    requires
        !publisher.contains('@'),
        !publisher.contains('/'),
        !rest.contains('@'),
    ensures
        without_publisher(without_branch(publisher.push('/') + rest)) == rest,
{
    let name = publisher.push('/') + rest;
    assert forall|i: int| 0 <= i < name.len() implies name[i] != '@' by {
        if i < publisher.len() {
            assert(publisher.contains(publisher[i]));
        } else if i > publisher.len() {
            assert(name[i] == rest[i - publisher.len() - 1]);
            assert(rest.contains(rest[i - publisher.len() - 1]));
        }
    }
    lemma_index_of_is(name, '@', name.len() as int);
    assert forall|i: int| 0 <= i < publisher.len() implies name[i] != '/' by {
        assert(publisher.contains(publisher[i]));
    }
    lemma_index_of_is(name, '/', publisher.len() as int);
    assert(name.skip(publisher.len() as int + 1) =~= rest);
}

/// The two publishers that also stand behind another part of a path are
/// dropped there.
pub proof fn law_inner_publisher_is_lost(publisher: Seq<char>, name: Seq<char>)
    requires
        !publisher.contains('@'),
        !publisher.contains('/'),
        !name.contains('@'),
        !name.contains('/'),
        forall|i: int| 0 <= i < name.len() ==> !('A' <= #[trigger] name[i] && name[i] <= 'Z'),
        forall|k: int|
            0 <= k && k + "-gguf"@.len() <= name.len() ==> #[trigger] name.subrange(
                k,
                k + "-gguf"@.len(),
            ) != "-gguf"@,
    ensures
        base_of_lowered(publisher.push('/') + ("unsloth/"@ + name)) == base_of_lowered(name),
        base_of_lowered(publisher.push('/') + ("meshllm/"@ + name)) == base_of_lowered(name),
        base_of_lowered(name) == name.filter(
            |c: char| ('a' <= c && c <= 'z') || ('0' <= c && c <= '9'),
        ),
{
    reveal_strlit("");
    reveal_strlit("-gguf");
    reveal_strlit("unsloth/");
    reveal_strlit("meshllm/");
    law_base_keeps_letters_and_digits(name);
    lemma_absent(name, "unsloth/"@, 7);
    lemma_absent(name, "meshllm/"@, 7);
    lemma_no_path(name);
    law_nothing_to_replace(name, "-gguf"@, ""@);
    let nothing = Seq::<char>::empty();
    let first = "unsloth/"@ + name;
    lemma_inner_name(publisher, "unsloth/"@, name);
    assert(nothing + "unsloth/"@ + name =~= first);
    law_first_occurrence_is_replaced(nothing, "unsloth/"@, name, ""@);
    assert(nothing + ""@ + name =~= name);
    let second = "meshllm/"@ + name;
    lemma_inner_name(publisher, "meshllm/"@, name);
    assert(nothing + "meshllm/"@ + name =~= second);
    law_first_occurrence_is_replaced(nothing, "meshllm/"@, name, ""@);
    assert forall|k: int|
        0 <= k && k + "unsloth/"@.len() <= second.len() implies #[trigger] second.subrange(
        k,
        k + "unsloth/"@.len(),
    ) != "unsloth/"@ by {
        let here = second.subrange(k, k + "unsloth/"@.len());
        if k == 0 {
            assert(here[0] == 'm');
        } else {
            assert(here[7] == second[k + 7]);
            assert(second[k + 7] == name[k - 1]);
            assert(name.contains(name[k - 1]));
        }
    }
    law_nothing_to_replace(second, "unsloth/"@, ""@);
}

proof fn lemma_inner_name(publisher: Seq<char>, inner: Seq<char>, name: Seq<char>)
    requires
        inner == "unsloth/"@ || inner == "meshllm/"@,
        !publisher.contains('@'),
        !publisher.contains('/'),
        !name.contains('@'),
        forall|k: int|
            0 <= k && k + "-gguf"@.len() <= name.len() ==> #[trigger] name.subrange(
                k,
                k + "-gguf"@.len(),
            ) != "-gguf"@,
    ensures
        without_publisher(without_branch(publisher.push('/') + (inner + name))) == inner + name,
        replaced(inner + name, "-gguf"@, ""@) == inner + name,
{
    reveal_strlit("-gguf");
    reveal_strlit("unsloth/");
    reveal_strlit("meshllm/");
    let rest = inner + name;
    assert(!rest.contains('@')) by {
        assert forall|i: int| 0 <= i < rest.len() implies rest[i] != '@' by {
            if i >= 8 {
                assert(rest[i] == name[i - 8]);
                assert(name.contains(name[i - 8]));
            }
        }
    }
    lemma_publisher_comes_off(publisher, rest);
    assert forall|k: int| 0 <= k && k + "-gguf"@.len() <= rest.len() implies #[trigger] rest.subrange(
        k,
        k + "-gguf"@.len(),
    ) != "-gguf"@ by {
        let here = rest.subrange(k, k + "-gguf"@.len());
        if k < 8 {
            assert(here[0] == inner[k]);
        } else {
            assert(here =~= name.subrange(k - 8, k - 8 + "-gguf"@.len()));
        }
    }
    law_nothing_to_replace(rest, "-gguf"@, ""@);
}

/// The branch behind an at sign does not matter; a tag behind a colon stays.
pub proof fn law_branch_does_not_matter(head: Seq<char>, branch: Seq<char>, tag: Seq<char>)
    requires
        !head.contains('@'),
        !branch.contains(':'),
        tag.len() > 0 ==> tag[0] == ':',
        !tag.contains('@'),
    ensures
        base_of_lowered(head.push('@') + branch + tag) == base_of_lowered(head + tag),
{
    let name = head.push('@') + branch + tag;
    assert forall|i: int| 0 <= i < head.len() implies name[i] != '@' by {
        assert(head.contains(head[i]));
    }
    lemma_index_of_is(name, '@', head.len() as int);
    let after = name.skip(head.len() as int + 1);
    assert(after =~= branch + tag);
    assert forall|i: int| 0 <= i < branch.len() implies after[i] != ':' by {
        assert(branch.contains(branch[i]));
    }
    lemma_index_of_is(after, ':', branch.len() as int);
    assert(after.skip(branch.len() as int) =~= tag);
    assert(name.take(head.len() as int) =~= head);
    let short = head + tag;
    assert forall|i: int| 0 <= i < short.len() implies short[i] != '@' by {
        if i < head.len() {
            assert(head.contains(head[i]));
        } else {
            assert(tag.contains(tag[i - head.len()]));
        }
    }
    lemma_index_of_is(short, '@', short.len() as int);
}

/// The format does not matter, wherever in the name it stands.
pub proof fn law_format_does_not_matter(head: Seq<char>, tail: Seq<char>)
    requires
        forall|i: int|
            0 <= i < (head + tail).len() ==> !('A' <= #[trigger] (head + tail)[i] && (head
                + tail)[i] <= 'Z'),
        !head.contains('@') && !head.contains('/'),
        !tail.contains('@') && !tail.contains('/'),
        forall|k: int|
            0 <= k < head.len() ==> #[trigger] (head + "-gguf"@ + tail).subrange(
                k,
                k + "-gguf"@.len(),
            ) != "-gguf"@,
        forall|k: int|
            0 <= k && k + "-gguf"@.len() <= tail.len() ==> #[trigger] tail.subrange(
                k,
                k + "-gguf"@.len(),
            ) != "-gguf"@,
    ensures
        base_of_lowered(head + "-gguf"@ + tail) == (head + tail).filter(
            |c: char| ('a' <= c && c <= 'z') || ('0' <= c && c <= '9'),
        ),
{
    reveal_strlit("");
    reveal_strlit("-gguf");
    reveal_strlit("unsloth/");
    reveal_strlit("meshllm/");
    let name = head + "-gguf"@ + tail;
    let kept = head + tail;
    assert forall|i: int| 0 <= i < name.len() implies name[i] != '@' && name[i] != '/' by {
        if i < head.len() {
            assert(head.contains(head[i]));
        } else if i >= head.len() + 5 {
            assert(name[i] == tail[i - head.len() - 5]);
            assert(tail.contains(tail[i - head.len() - 5]));
        } else {
            assert(name[i] == "-gguf"@[i - head.len()]);
        }
    }
    assert forall|i: int| 0 <= i < kept.len() implies kept[i] != '/' by {
        if i < head.len() {
            assert(head.contains(head[i]));
        } else {
            assert(tail.contains(tail[i - head.len()]));
        }
    }
    lemma_no_path(name);
    law_first_occurrence_is_replaced(head, "-gguf"@, tail, ""@);
    law_nothing_to_replace(tail, "-gguf"@, ""@);
    assert(head + ""@ + tail =~= kept);
    lemma_absent(kept, "unsloth/"@, 7);
    lemma_absent(kept, "meshllm/"@, 7);
    lemma_kept_characters(kept);
}

/// A capital letter and its small letter are one; every other character stands
/// for itself.
pub proof fn law_capitals_are_lowered(c: char)
    ensures
        'A' <= c && c <= 'Z' ==> ascii_lower(c) as int == c as int + 32,
        !('A' <= c && c <= 'Z') ==> ascii_lower(c) == c,
{
}

/// In which order the names of one model are tried: those that this node serves
/// first, then the shorter, and names of one length by their text.
pub proof fn law_names_are_tried_in_order(
    names: Seq<Seq<char>>,
    targets: Option<&ModelTargets>,
    groups: Seq<Seq<Seq<char>>>,
    g: int,
    i: int,
    j: int,
)
    requires
        is_grouping(names, targets, groups),
        0 <= g < groups.len(),
        0 <= i < j < groups[g].len(),
    ensures
        port_of(groups[g][j], targets) is Some ==> port_of(groups[g][i], targets) is Some,
        (port_of(groups[g][i], targets) is Some <==> port_of(groups[g][j], targets) is Some)
            ==> encode_utf8(groups[g][i]).len() <= encode_utf8(groups[g][j]).len(),
        (port_of(groups[g][i], targets) is Some <==> port_of(groups[g][j], targets) is Some)
            && encode_utf8(groups[g][i]).len() == encode_utf8(groups[g][j]).len() ==> (
        groups[g][i] == groups[g][j] || precedes(groups[g][i], groups[g][j])),
{
    assert(is_group(groups[g], targets));
    assert(tried_first(groups[g][i], groups[g][j], targets));
}

/// Two names that were given are in one group exactly if they have one base,
/// and the groups come in the order of their first names.
pub proof fn law_one_group_for_each_base(
    names: Seq<Seq<char>>,
    targets: Option<&ModelTargets>,
    groups: Seq<Seq<Seq<char>>>,
    g: int,
    i: int,
    h: int,
    j: int,
)
    requires
        is_grouping(names, targets, groups),
        0 <= g < groups.len(),
        0 <= h < groups.len(),
        0 <= i < groups[g].len(),
        0 <= j < groups[h].len(),
    ensures
        g == h <==> base(groups[g][i]) == base(groups[h][j]),
        g < h ==> precedes(groups[g][0], groups[h][0]),
{
    assert(is_group(groups[g], targets));
    assert(is_group(groups[h], targets));
    assert(base(groups[g][i]) == base(groups[g][0]));
    assert(base(groups[h][j]) == base(groups[h][0]));
    if g < h {
        assert(base(groups[g][0]) != base(groups[h][0]));
    } else if h < g {
        assert(base(groups[h][0]) != base(groups[g][0]));
    }
}

/// A name is served here on the port of the first local target that the routing
/// table holds for it, and not at all where it holds none.
pub proof fn law_first_local_target_serves(
    name: Seq<char>,
    targets: &ModelTargets,
    at: int,
    port: u16,
)
    requires
        targets.targets@.contains_key(name),
        0 <= at < targets.targets@[name]@.len(),
        targets.targets@[name]@[at] == InferenceTarget::Local(port),
        forall|k: int| 0 <= k < at ==> targets.targets@[name]@[k] is Elsewhere,
    ensures
        port_of(name, Some(targets)) == Some(port),
{
    lemma_first_local(targets.targets@[name]@, at, port);
}

proof fn lemma_first_local(list: Seq<InferenceTarget>, at: int, port: u16)
    requires
        0 <= at < list.len(),
        list[at] == InferenceTarget::Local(port),
        forall|k: int| 0 <= k < at ==> list[k] is Elsewhere,
    ensures
        first_local(list) == Some(port),
    decreases list.len(),
{
    if at > 0 {
        assert(list[0] is Elsewhere);
        let rest = list.drop_first();
        assert forall|k: int| 0 <= k < at - 1 implies rest[k] is Elsewhere by {
            assert(rest[k] == list[k + 1]);
        }
        lemma_first_local(rest, at - 1, port);
    }
}

/// A name without a local target is not served here.
pub proof fn law_only_local_targets_serve(name: Seq<char>, targets: Option<&ModelTargets>)
    requires
        targets matches Some(table) ==> table.targets@.contains_key(name) ==> forall|k: int|
            0 <= k < table.targets@[name]@.len() ==> table.targets@[name]@[k] is Elsewhere,
    ensures
        port_of(name, targets) is None,
        !served_here(name, targets),
{
    if let Some(table) = targets {
        if table.targets@.contains_key(name) {
            lemma_none_local(table.targets@[name]@);
        }
    }
}

proof fn lemma_none_local(list: Seq<InferenceTarget>)
    requires
        forall|k: int| 0 <= k < list.len() ==> list[k] is Elsewhere,
    ensures
        first_local(list) is None,
    decreases list.len(),
{
    if list.len() > 0 {
        assert(list[0] is Elsewhere);
        let rest = list.drop_first();
        assert forall|k: int| 0 <= k < rest.len() implies rest[k] is Elsewhere by {
            assert(rest[k] == list[k + 1]);
        }
        lemma_none_local(rest);
    }
}

} // verus!
