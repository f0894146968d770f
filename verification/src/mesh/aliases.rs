//! The names under which peers advertise one and the same model.

use crate::names::NameMap;
use crate::order::{
    law_precedes_irreflexive, law_precedes_total, law_precedes_transitive, precedes, text_precedes,
};
use crate::scan::{
    begins, find_char, index_of, lemma_index_of_bounds, lemma_index_of_is, replace, replaced,
};
use crate::text::{chars_of, concat, same_text, string_between, string_of, texts};
use vstd::prelude::*;
use vstd::utf8::encode_utf8;

verus! {

/// The text in lower case, as the standard library's `str::to_lowercase`
/// gives it.
pub uninterp spec fn lowercase(text: Seq<char>) -> Seq<char>;

/// Whether a text has only ASCII characters.
pub open spec fn is_ascii(text: Seq<char>) -> bool {
    forall|i: int| 0 <= i < text.len() ==> #[trigger] text[i] as u32 <= 0x7f
}

/// An ASCII character in lower case.
pub open spec fn ascii_lower(c: char) -> char {
    if 'A' <= c && c <= 'Z' {
        (c as u32 + 32) as char
    } else {
        c
    }
}

/// An ASCII text in lower case.
pub open spec fn lowered(text: Seq<char>) -> Seq<char> {
    text.map_values(|c: char| ascii_lower(c))
}

/// Whether a text has no ASCII capital letter.
pub open spec fn without_capitals(text: Seq<char>) -> bool {
    forall|i: int| 0 <= i < text.len() ==> !('A' <= #[trigger] text[i] && text[i] <= 'Z')
}

/// An ASCII character in upper case.
pub open spec fn ascii_upper(c: char) -> char {
    if 'a' <= c && c <= 'z' {
        (c as u32 - 32) as char
    } else {
        c
    }
}

/// The text with its ASCII letters in upper case.
pub open spec fn raised(text: Seq<char>) -> Seq<char> {
    text.map_values(|c: char| ascii_upper(c))
}

/// Calls `str::to_lowercase`. The result depends on the text alone and has no
/// ASCII capital letter; of an ASCII text each character is turned into lower
/// case by itself. In any text an ASCII letter and its capital have the same
/// lower case, and the one rule that looks at the letters around, that for the
/// sigma at the end of a word, does not tell them apart: the text with its
/// ASCII letters in upper case has the same result.
#[verifier::external_body]
pub(crate) fn to_lowercase(text: &str) -> (lower: String)
    ensures
        lower@ == lowercase(text@),
        without_capitals(lower@),
        is_ascii(text@) ==> lower@ == lowered(text@),
        lower@ == lowercase(raised(text@)),
{
    text.to_lowercase()
}

/// Whether a character is an ASCII letter or digit.
pub open spec fn is_alphanumeric(c: char) -> bool {
    ('a' <= c && c <= 'z') || ('A' <= c && c <= 'Z') || ('0' <= c && c <= '9')
}

/// The ASCII letters and digits of a text.
pub open spec fn alphanumerics(text: Seq<char>) -> Seq<char>
    decreases text.len(),
{
    if text.len() == 0 {
        seq![]
    } else if is_alphanumeric(text.last()) {
        alphanumerics(text.drop_last()).push(text.last())
    } else {
        alphanumerics(text.drop_last())
    }
}

/// The name without the branch behind an at sign; a tag behind the next colon
/// stays.
pub open spec fn without_branch(name: Seq<char>) -> Seq<char> {
    let at = index_of(name, '@');
    if at < name.len() {
        let after = name.skip(at + 1);
        name.take(at) + after.skip(index_of(after, ':'))
    } else {
        name
    }
}

/// The name without its publisher, which stands before the first slash.
pub open spec fn without_publisher(name: Seq<char>) -> Seq<char> {
    let at = index_of(name, '/');
    if at < name.len() {
        name.skip(at + 1)
    } else {
        name
    }
}

/// What is left of a lower-case name when everything that differs between
/// conventions is taken out: branch, publisher and format, the two publishers
/// that also stand behind another part of a path, and all separators.
pub open spec fn base_of_lowered(lower: Seq<char>) -> Seq<char> {
    let model = without_publisher(without_branch(lower));
    let no_format = replaced(model, "-gguf"@, ""@);
    alphanumerics(replaced(replaced(no_format, "unsloth/"@, ""@), "meshllm/"@, ""@))
}

/// The name by which a model is told from others.
pub open spec fn base(name: Seq<char>) -> Seq<char> {
    base_of_lowered(lowercase(name))
}

/// The name by which a model with an ASCII name is told from others.
pub open spec fn ascii_base(name: Seq<char>) -> Seq<char> {
    base_of_lowered(lowered(name))
}

/// Whether a text is made of lower-case ASCII letters and digits alone.
pub open spec fn is_plain(text: Seq<char>) -> bool {
    forall|i: int|
        0 <= i < text.len() ==> ('a' <= #[trigger] text[i] && text[i] <= 'z') || ('0' <= text[i]
            && text[i] <= '9')
}

proof fn lemma_replaced_without_capitals(text: Seq<char>, from: Seq<char>)
    requires
        without_capitals(text),
    ensures
        without_capitals(replaced(text, from, ""@)),
    decreases text.len(),
{
    reveal_strlit("");
    if from.len() != 0 && text.len() >= from.len() {
        if begins(text, from) {
            lemma_replaced_without_capitals(text.skip(from.len() as int), from);
        } else {
            lemma_replaced_without_capitals(text.drop_first(), from);
        }
    }
}

proof fn lemma_alphanumerics_plain(text: Seq<char>)
    requires
        without_capitals(text),
    ensures
        is_plain(alphanumerics(text)),
    decreases text.len(),
{
    if text.len() > 0 {
        lemma_alphanumerics_plain(text.drop_last());
    }
}

/// What is left of a name without capital letters is plain, so that it does not
/// matter how a name separates its parts.
pub proof fn law_base_is_plain(lower: Seq<char>)
    requires
        without_capitals(lower),
    ensures
        is_plain(base_of_lowered(lower)),
{
    let model = without_publisher(without_branch(lower));
    lemma_index_of_bounds(lower, '@');
    let after = lower.skip(index_of(lower, '@') + 1);
    if index_of(lower, '@') < lower.len() {
        lemma_index_of_bounds(after, ':');
    }
    lemma_index_of_bounds(without_branch(lower), '/');
    assert(without_capitals(without_branch(lower)));
    assert(without_capitals(model));
    let no_format = replaced(model, "-gguf"@, ""@);
    lemma_replaced_without_capitals(model, "-gguf"@);
    lemma_replaced_without_capitals(no_format, "unsloth/"@);
    lemma_replaced_without_capitals(replaced(no_format, "unsloth/"@, ""@), "meshllm/"@);
    lemma_alphanumerics_plain(
        replaced(replaced(no_format, "unsloth/"@, ""@), "meshllm/"@, ""@),
    );
}

proof fn lemma_nothing_replaced(text: Seq<char>, from: Seq<char>, at: int)
    requires
        0 <= at < from.len(),
        forall|i: int| 0 <= i < text.len() ==> text[i] != from[at],
    ensures
        replaced(text, from, ""@) == text,
    decreases text.len(),
{
    if text.len() >= from.len() {
        if begins(text, from) {
            assert(text.subrange(0, from.len() as int)[at] == from[at]);
        } else {
            lemma_nothing_replaced(text.drop_first(), from, at);
            assert(seq![text[0]] + text.drop_first() =~= text);
        }
    }
}

proof fn lemma_all_alphanumeric(text: Seq<char>)
    requires
        is_plain(text),
    ensures
        alphanumerics(text) == text,
    decreases text.len(),
{
    if text.len() > 0 {
        lemma_all_alphanumeric(text.drop_last());
        assert(text.drop_last().push(text.last()) =~= text);
    } else {
        assert(alphanumerics(text) =~= text);
    }
}

/// A base is its own base.
pub proof fn law_base_of_base(text: Seq<char>)
    requires
        is_plain(text),
    ensures
        is_ascii(text),
        ascii_base(text) == text,
{
    reveal_strlit("-gguf");
    reveal_strlit("unsloth/");
    reveal_strlit("meshllm/");
    assert(lowered(text) =~= text);
    lemma_index_of_is(text, '@', text.len() as int);
    lemma_index_of_is(text, '/', text.len() as int);
    lemma_nothing_replaced(text, "-gguf"@, 0);
    lemma_nothing_replaced(text, "unsloth/"@, 7);
    lemma_nothing_replaced(text, "meshllm/"@, 7);
    lemma_all_alphanumeric(text);
}

fn keep_alphanumerics(text: &str) -> (kept: String)
    ensures
        kept@ == alphanumerics(text@),
{
    let chars = chars_of(text);
    let mut kept: Vec<char> = Vec::new();
    let mut i: usize = 0;
    while i < chars.len()
        invariant
            i <= chars.len(),
            kept@ == alphanumerics(chars@.take(i as int)),
        decreases chars.len() - i,
    {
        let c = chars[i];
        assert(chars@.take(i + 1).drop_last() =~= chars@.take(i as int));
        if ('a' <= c && c <= 'z') || ('A' <= c && c <= 'Z') || ('0' <= c && c <= '9') {
            kept.push(c);
        }
        i += 1;
    }
    assert(chars@.take(i as int) =~= chars@);
    string_of(kept.as_slice())
}

fn strip_branch(name: &str) -> (stripped: String)
    ensures
        stripped@ == without_branch(name@),
{
    let chars = chars_of(name);
    let at: usize = find_char(chars.as_slice(), '@', 0);
    assert(chars@.skip(0) =~= chars@);
    if at == chars.len() {
        return name.to_owned();
    }
    let colon: usize = find_char(chars.as_slice(), ':', at + 1);
    let head = string_between(chars.as_slice(), 0, at);
    let tail = string_between(chars.as_slice(), colon, chars.len());
    proof {
        let after = chars@.skip(at + 1);
        assert(head@ =~= chars@.take(at as int));
        assert(tail@ =~= after.skip(colon - (at + 1)));
    }
    concat(head, tail.as_str())
}

fn strip_publisher(name: &str) -> (stripped: String)
    ensures
        stripped@ == without_publisher(name@),
{
    let chars = chars_of(name);
    let at: usize = find_char(chars.as_slice(), '/', 0);
    assert(chars@.skip(0) =~= chars@);
    if at == chars.len() {
        return name.to_owned();
    }
    let model = string_between(chars.as_slice(), at + 1, chars.len());
    assert(model@ =~= chars@.skip(at + 1));
    model
}

/// The base of a name that is in lower case already.
pub fn canonical_base_of_lowered(lower: &str) -> (name: String)
    ensures
        name@ == base_of_lowered(lower@),
{
    proof {
        reveal_strlit("-gguf");
        reveal_strlit("unsloth/");
        reveal_strlit("meshllm/");
    }
    let no_branch = strip_branch(lower);
    let model = strip_publisher(no_branch.as_str());
    let no_format = replace(model.as_str(), "-gguf", "");
    let stripped = replace(no_format.as_str(), "unsloth/", "");
    let kept = replace(stripped.as_str(), "meshllm/", "");
    keep_alphanumerics(kept.as_str())
}

/// The name by which a model is told from others: in lower case, without
/// branch, publisher and format, and only the letters and digits. It is its own
/// base, and the case of a name's ASCII letters does not matter to it.
pub fn canonical_base_name(name: &str) -> (result: String)
    ensures
        result@ == base(name@),
        result@ == base(raised(name@)),
        is_plain(result@),
        is_ascii(result@) && ascii_base(result@) == result@,
        is_ascii(name@) ==> result@ == ascii_base(name@),
{
    let lower = to_lowercase(name);
    proof {
        law_base_is_plain(lower@);
        law_base_of_base(base_of_lowered(lower@));
    }
    canonical_base_of_lowered(lower.as_str())
}

/// Where a request for a model can go.
#[derive(Clone, Copy, Debug, PartialEq, Eq, Structural)]
pub enum InferenceTarget {
    /// A port of this node.
    Local(u16),
    /// Anywhere else.
    Elsewhere,
}

/// The routing table of this node.
pub struct ModelTargets {
    pub targets: NameMap<Vec<InferenceTarget>>,
}

impl ModelTargets {
    /// A table without routes.
    pub fn new() -> (targets: ModelTargets)
        ensures
            targets.targets@ == Map::<Seq<char>, Vec<InferenceTarget>>::empty(),
    {
        ModelTargets { targets: NameMap::new() }
    }
}

/// The port of the first local target of a list.
pub open spec fn first_local(targets: Seq<InferenceTarget>) -> Option<u16>
    decreases targets.len(),
{
    if targets.len() == 0 {
        None
    } else {
        match targets[0] {
            InferenceTarget::Local(port) => Some(port),
            InferenceTarget::Elsewhere => first_local(targets.drop_first()),
        }
    }
}

/// The port on which this node serves a name, if it does.
pub open spec fn port_of(name: Seq<char>, targets: Option<&ModelTargets>) -> Option<u16> {
    match targets {
        Some(targets) => if targets.targets@.contains_key(name) {
            first_local(targets.targets@[name]@)
        } else {
            None
        },
        None => None,
    }
}

fn first_local_port(list: &Vec<InferenceTarget>) -> (port: Option<u16>)
    ensures
        port == first_local(list@),
{
    let mut i: usize = 0;
    assert(list@.skip(0) =~= list@);
    while i < list.len()
        invariant
            i <= list@.len(),
            first_local(list@) == first_local(list@.skip(i as int)),
        decreases list@.len() - i,
    {
        assert(list@.skip(i as int).drop_first() =~= list@.skip(i + 1));
        match list[i] {
            InferenceTarget::Local(port) => {
                return Some(port);
            },
            InferenceTarget::Elsewhere => {},
        }
        i += 1;
    }
    None
}

/// The port on which this node serves a name, if it does.
pub fn local_port(name: &str, targets: Option<&ModelTargets>) -> (port: Option<u16>)
    ensures
        port == port_of(name@, targets),
{
    match targets {
        Some(targets) => match targets.targets.get(name) {
            Some(list) => first_local_port(list),
            None => None,
        },
        None => None,
    }
}

/// Whether this node serves a name itself.
pub open spec fn served_here(name: Seq<char>, targets: Option<&ModelTargets>) -> bool {
    port_of(name, targets) is Some
}

/// Whether this node serves a name itself.
pub fn is_locally_served(name: &str, targets: Option<&ModelTargets>) -> (local: bool)
    ensures
        local == served_here(name@, targets),
{
    local_port(name, targets).is_some()
}

/// Whether one name of a model is tried no later than another: those served
/// here first, then the shorter, then by their text.
pub open spec fn tried_first(
    left: Seq<char>,
    right: Seq<char>,
    targets: Option<&ModelTargets>,
) -> bool {
    if served_here(left, targets) != served_here(right, targets) {
        served_here(left, targets)
    } else if encode_utf8(left).len() != encode_utf8(right).len() {
        encode_utf8(left).len() < encode_utf8(right).len()
    } else {
        left == right || precedes(left, right)
    }
}

fn is_tried_first(left: &str, right: &str, targets: Option<&ModelTargets>) -> (first: bool)
    ensures
        first == tried_first(left@, right@, targets),
{
    let left_here = is_locally_served(left, targets);
    let right_here = is_locally_served(right, targets);
    if left_here != right_here {
        return left_here;
    }
    let left_len: usize = left.as_bytes().len();
    let right_len: usize = right.as_bytes().len();
    if left_len != right_len {
        return left_len < right_len;
    }
    same_text(left, right) || text_precedes(left, right)
}

proof fn lemma_tried_first_order(
    a: Seq<char>,
    b: Seq<char>,
    c: Seq<char>,
    targets: Option<&ModelTargets>,
)
    ensures
        tried_first(a, a, targets),
        tried_first(a, b, targets) || tried_first(b, a, targets),
        tried_first(a, b, targets) && tried_first(b, a, targets) ==> a == b,
        tried_first(a, b, targets) && tried_first(b, c, targets) ==> tried_first(a, c, targets),
{
    law_precedes_total(a, b);
    law_precedes_total(a, c);
    law_precedes_total(b, c);
    law_precedes_irreflexive(a);
    if precedes(a, b) && precedes(b, a) {
        law_precedes_transitive(a, b, a);
    }
    if precedes(a, b) && precedes(b, c) {
        law_precedes_transitive(a, b, c);
    }
}

/// The groups as lists of texts.
pub open spec fn group_texts(groups: Seq<Vec<String>>) -> Seq<Seq<Seq<char>>> {
    groups.map_values(|group: Vec<String>| texts(group@))
}

/// How often a name occurs in the groups.
pub open spec fn occurrences(groups: Seq<Seq<Seq<char>>>, name: Seq<char>) -> nat
    decreases groups.len(),
{
    if groups.len() == 0 {
        0
    } else {
        occurrences(groups.drop_last(), name) + groups.last().to_multiset().count(name)
    }
}

/// Whether a group holds names of one model, in the order in which they are
/// tried.
pub open spec fn is_group(group: Seq<Seq<char>>, targets: Option<&ModelTargets>) -> bool {
    &&& group.len() > 0
    &&& forall|i: int| 0 <= i < group.len() ==> base(#[trigger] group[i]) == base(group[0])
    &&& forall|i: int, j: int|
        0 <= i < j < group.len() ==> tried_first(#[trigger] group[i], #[trigger] group[j], targets)
}

/// Whether the groups hold each of the names as often as it was given, one
/// group for each model, and the groups in the order of their first names.
pub open spec fn is_grouping(
    names: Seq<Seq<char>>,
    targets: Option<&ModelTargets>,
    groups: Seq<Seq<Seq<char>>>,
) -> bool {
    &&& forall|g: int| 0 <= g < groups.len() ==> is_group(#[trigger] groups[g], targets)
    &&& forall|g: int, h: int|
        0 <= g < h < groups.len() ==> base((#[trigger] groups[g])[0]) != base(
            (#[trigger] groups[h])[0],
        )
    &&& forall|g: int, h: int|
        0 <= g < h < groups.len() ==> precedes(
            (#[trigger] groups[g])[0],
            (#[trigger] groups[h])[0],
        )
    &&& forall|name: Seq<char>| #[trigger]
        occurrences(groups, name) == names.to_multiset().count(name)
}

proof fn lemma_occurrences_insert(
    groups: Seq<Seq<Seq<char>>>,
    at: int,
    group: Seq<Seq<char>>,
    name: Seq<char>,
)
    requires
        0 <= at <= groups.len(),
    ensures
        occurrences(groups.insert(at, group), name) == occurrences(groups, name)
            + group.to_multiset().count(name),
    decreases groups.len(),
{
    let more = groups.insert(at, group);
    if at == groups.len() {
        assert(more.drop_last() =~= groups);
    } else {
        assert(more.drop_last() =~= groups.drop_last().insert(at, group));
        assert(more.last() == groups.last());
        lemma_occurrences_insert(groups.drop_last(), at, group, name);
    }
}

proof fn lemma_occurrences_remove(groups: Seq<Seq<Seq<char>>>, at: int, name: Seq<char>)
    requires
        0 <= at < groups.len(),
    ensures
        occurrences(groups.remove(at), name) + groups[at].to_multiset().count(name) == occurrences(
            groups,
            name,
        ),
{
    let fewer = groups.remove(at);
    lemma_occurrences_insert(fewer, at, groups[at], name);
    assert(fewer.insert(at, groups[at]) =~= groups);
}

proof fn lemma_group_texts_at(groups: Seq<Vec<String>>, at: int)
    requires
        0 <= at < groups.len(),
    ensures
        group_texts(groups)[at] == texts(groups[at]@),
        group_texts(groups.remove(at)) == group_texts(groups).remove(at),
{
    assert(group_texts(groups.remove(at)) =~= group_texts(groups).remove(at));
}

fn insert_alias(group: &mut Vec<String>, name: String, targets: Option<&ModelTargets>)
    requires
        old(group)@.len() > 0 ==> is_group(texts(old(group)@), targets) && base(name@) == base(
            texts(old(group)@)[0],
        ),
    ensures
        is_group(texts(final(group)@), targets),
        base(texts(final(group)@)[0]) == base(name@),
        forall|other: Seq<char>| #[trigger]
            texts(final(group)@).to_multiset().count(other) == texts(
                old(group)@,
            ).to_multiset().insert(name@).count(other),
{
    let ghost before = texts(group@);
    let mut at: usize = 0;
    while at < group.len() && is_tried_first(group[at].as_str(), name.as_str(), targets)
        invariant
            before == texts(group@),
            at <= group@.len(),
            forall|i: int| 0 <= i < at ==> tried_first(#[trigger] before[i], name@, targets),
        decreases group@.len() - at,
    {
        assert(before[at as int] == group@[at as int]@);
        at += 1;
    }
    let ghost text = name@;
    proof {
        if at < group@.len() {
            assert(before[at as int] == group@[at as int]@);
            assert(!tried_first(before[at as int], text, targets));
        }
    }
    group.insert(at, name);
    proof {
        broadcast use vstd::seq_lib::group_to_multiset_ensures;

        let after = texts(group@);
        assert(after =~= before.insert(at as int, text));
        vstd::seq_lib::to_multiset_insert(before, at as int, text);
        assert forall|i: int, j: int| 0 <= i < j < after.len() implies tried_first(
            #[trigger] after[i],
            #[trigger] after[j],
            targets,
        ) by {
            if j < at {
                assert(after[i] == before[i] && after[j] == before[j]);
            } else if i > at {
                assert(after[i] == before[i - 1] && after[j] == before[j - 1]);
            } else if j == at {
                assert(after[i] == before[i]);
            } else {
                assert(after[j] == before[j - 1]);
                let next = before[at as int];
                lemma_tried_first_order(next, text, text, targets);
                if i == at {
                    if j - 1 > at {
                        assert(tried_first(next, before[j - 1], targets));
                        lemma_tried_first_order(text, next, before[j - 1], targets);
                    }
                } else {
                    assert(after[i] == before[i]);
                }
            }
        }
        assert forall|i: int| 0 <= i < after.len() implies base(#[trigger] after[i]) == base(
            after[0],
        ) by {
            let first = if at == 0 {
                text
            } else {
                before[0]
            };
            assert(after[0] == first);
            if before.len() > 0 {
                if i < at {
                    assert(after[i] == before[i]);
                } else if i > at {
                    assert(after[i] == before[i - 1]);
                }
            }
        }
        if at > 0 {
            assert(after[0] == before[0]);
        }
    }
}

fn find_base(bases: &Vec<String>, wanted: &str) -> (at: usize)
    ensures
        at <= bases@.len(),
        at < bases@.len() ==> bases@[at as int]@ == wanted@,
        at == bases@.len() ==> forall|i: int|
            0 <= i < bases@.len() ==> (#[trigger] bases@[i])@ != wanted@,
{
    let mut at: usize = 0;
    while at < bases.len()
        invariant
            at <= bases@.len(),
            forall|i: int| 0 <= i < at ==> (#[trigger] bases@[i])@ != wanted@,
        decreases bases@.len() - at,
    {
        if same_text(bases[at].as_str(), wanted) {
            return at;
        }
        at += 1;
    }
    at
}

/// Whether the groups are one for each of the bases, and the bases differ.
spec fn grouped_by(
    bases: Seq<String>,
    groups: Seq<Seq<Seq<char>>>,
    targets: Option<&ModelTargets>,
) -> bool {
    &&& bases.len() == groups.len()
    &&& forall|g: int|
        0 <= g < groups.len() ==> is_group(#[trigger] groups[g], targets) && base(groups[g][0])
            == bases[g]@
    &&& forall|g: int, h: int|
        0 <= g < h < bases.len() ==> (#[trigger] bases[g])@ != (#[trigger] bases[h])@
}

fn collect_groups(names: Vec<String>, targets: Option<&ModelTargets>) -> (groups: Vec<Vec<String>>)
    ensures
        forall|g: int|
            0 <= g < groups@.len() ==> is_group(#[trigger] group_texts(groups@)[g], targets),
        forall|g: int, h: int|
            0 <= g < h < groups@.len() ==> base((#[trigger] group_texts(groups@)[g])[0]) != base(
                (#[trigger] group_texts(groups@)[h])[0],
            ),
        forall|name: Seq<char>| #[trigger]
            occurrences(group_texts(groups@), name) == texts(names@).to_multiset().count(name),
{
    let ghost all = texts(names@);
    let mut rest = names;
    let mut bases: Vec<String> = Vec::new();
    let mut groups: Vec<Vec<String>> = Vec::new();
    while rest.len() > 0
        invariant
            grouped_by(bases@, group_texts(groups@), targets),
            forall|name: Seq<char>| #[trigger]
                occurrences(group_texts(groups@), name) + texts(rest@).to_multiset().count(name)
                    == all.to_multiset().count(name),
        decreases rest@.len(),
    {
        let ghost before = group_texts(groups@);
        let ghost waiting = texts(rest@);
        if let Some(name) = rest.pop() {
            let ghost text = name@;
            proof {
                broadcast use vstd::seq_lib::group_to_multiset_ensures;

                assert(waiting =~= texts(rest@).push(text));
                vstd::seq_lib::to_multiset_build(texts(rest@), text);
            }
            let wanted = canonical_base_name(name.as_str());
            let at: usize = find_base(&bases, wanted.as_str());
            if at < groups.len() {
                proof {
                    lemma_group_texts_at(groups@, at as int);
                    assert forall|other: Seq<char>| #[trigger]
                        occurrences(before.remove(at as int), other)
                            + before[at as int].to_multiset().count(other) == occurrences(
                        before,
                        other,
                    ) by {
                        lemma_occurrences_remove(before, at as int, other);
                    }
                }
                let mut group = groups.remove(at);
                let ghost fewer = group_texts(groups@);
                insert_alias(&mut group, name, targets);
                let ghost changed = texts(group@);
                groups.insert(at, group);
                proof {
                    assert(group_texts(groups@) =~= fewer.insert(at as int, changed));
                    assert(group_texts(groups@) =~= before.update(at as int, changed));
                    assert forall|other: Seq<char>| #[trigger]
                        occurrences(group_texts(groups@), other) + texts(
                            rest@,
                        ).to_multiset().count(other) == all.to_multiset().count(other) by {
                        lemma_occurrences_insert(fewer, at as int, changed, other);
                        assert(occurrences(before, other) + waiting.to_multiset().count(other)
                            == all.to_multiset().count(other));
                    }
                }
            } else {
                let mut group: Vec<String> = Vec::new();
                proof {
                    assert(texts(group@) =~= Seq::<Seq<char>>::empty());
                }
                insert_alias(&mut group, name, targets);
                let ghost added = texts(group@);
                groups.push(group);
                bases.push(wanted);
                proof {
                    assert(group_texts(groups@) =~= before.push(added));
                    assert(before.push(added).drop_last() =~= before);
                    broadcast use vstd::seq_lib::group_to_multiset_ensures;

                    assert forall|other: Seq<char>| #[trigger]
                        occurrences(group_texts(groups@), other) + texts(
                            rest@,
                        ).to_multiset().count(other) == all.to_multiset().count(other) by {
                        assert(occurrences(before, other) + waiting.to_multiset().count(other)
                            == all.to_multiset().count(other));
                        assert(Seq::<Seq<char>>::empty().to_multiset().count(other) == 0) by {
                            vstd::seq_lib::to_multiset_contains(
                                Seq::<Seq<char>>::empty(),
                                other,
                            );
                        }
                    }
                }
            }
        }
    }
    proof {
        assert(texts(rest@) =~= Seq::<Seq<char>>::empty());
        assert forall|name: Seq<char>| #[trigger]
            occurrences(group_texts(groups@), name) == all.to_multiset().count(name) by {
            vstd::seq_lib::to_multiset_contains(texts(rest@), name);
        }
        assert forall|g: int, h: int| 0 <= g < h < groups@.len() implies base(
            (#[trigger] group_texts(groups@)[g])[0],
        ) != base((#[trigger] group_texts(groups@)[h])[0]) by {
            assert(bases@[g]@ != bases@[h]@);
        }
    }
    groups
}

/// Where a group whose first name is `first` belongs.
fn position_before(groups: &Vec<Vec<String>>, first: &str) -> (at: usize)
    requires
        forall|g: int| 0 <= g < groups@.len() ==> (#[trigger] groups@[g])@.len() > 0,
    ensures
        at <= groups@.len(),
        forall|g: int| 0 <= g < at ==> precedes((#[trigger] groups@[g])@[0]@, first@),
        at < groups@.len() ==> !precedes(groups@[at as int]@[0]@, first@),
{
    let mut at: usize = 0;
    while at < groups.len()
        invariant
            forall|g: int| 0 <= g < groups@.len() ==> (#[trigger] groups@[g])@.len() > 0,
            at <= groups@.len(),
            forall|g: int| 0 <= g < at ==> precedes((#[trigger] groups@[g])@[0]@, first@),
        decreases groups@.len() - at,
    {
        if !text_precedes(groups[at][0].as_str(), first) {
            return at;
        }
        at += 1;
    }
    at
}

/// Puts the names of each model together, in the order in which they are to
/// be tried, and the models in the order of their first names.
pub fn group_aliases_by_canonical_base(
    names: Vec<String>,
    targets: Option<&ModelTargets>,
) -> (groups: Vec<Vec<String>>)
    ensures
        is_grouping(texts(names@), targets, group_texts(groups@)),
{
    let ghost all = texts(names@);
    let mut waiting = collect_groups(names, targets);
    let ghost every = group_texts(waiting@);
    let mut groups: Vec<Vec<String>> = Vec::new();
    while waiting.len() > 0
        invariant
            forall|g: int|
                0 <= g < waiting@.len() ==> is_group(#[trigger] group_texts(waiting@)[g], targets),
            forall|g: int|
                0 <= g < groups@.len() ==> is_group(#[trigger] group_texts(groups@)[g], targets),
            forall|g: int, h: int|
                0 <= g < h < waiting@.len() ==> base((#[trigger] group_texts(waiting@)[g])[0])
                    != base((#[trigger] group_texts(waiting@)[h])[0]),
            forall|g: int, h: int|
                0 <= g < h < groups@.len() ==> base((#[trigger] group_texts(groups@)[g])[0])
                    != base((#[trigger] group_texts(groups@)[h])[0]),
            forall|g: int, h: int|
                0 <= g < waiting@.len() && 0 <= h < groups@.len() ==> base(
                    (#[trigger] group_texts(waiting@)[g])[0],
                ) != base((#[trigger] group_texts(groups@)[h])[0]),
            forall|g: int, h: int|
                0 <= g < h < groups@.len() ==> precedes(
                    (#[trigger] group_texts(groups@)[g])[0],
                    (#[trigger] group_texts(groups@)[h])[0],
                ),
            forall|name: Seq<char>| #[trigger]
                occurrences(group_texts(groups@), name) + occurrences(group_texts(waiting@), name)
                    == all.to_multiset().count(name),
        decreases waiting@.len(),
    {
        let ghost sorted = group_texts(groups@);
        let ghost pending = group_texts(waiting@);
        if let Some(group) = waiting.pop() {
            let ghost text = texts(group@);
            let ghost fewer = group_texts(waiting@);
            proof {
                assert(pending.last() == text);
                assert(pending.drop_last() =~= fewer);
                assert(is_group(pending[pending.len() - 1], targets));
                assert(text[0] == group@[0]@);
            }
            proof {
                assert forall|g: int| 0 <= g < groups@.len() implies (#[trigger] groups@[g])@.len()
                    > 0 by {
                    assert(is_group(sorted[g], targets));
                }
            }
            let at: usize = position_before(&groups, group[0].as_str());
            proof {
                assert forall|g: int| 0 <= g < at implies precedes(
                    (#[trigger] sorted[g])[0],
                    text[0],
                ) by {
                    assert(is_group(sorted[g], targets));
                    assert(sorted[g][0] == groups@[g]@[0]@);
                }
            }
            proof {
                if at < groups@.len() {
                    let next = sorted[at as int][0];
                    assert(is_group(sorted[at as int], targets));
                    assert(next == groups@[at as int]@[0]@);
                    assert(base(pending[pending.len() - 1][0]) != base(sorted[at as int][0]));
                    law_precedes_total(next, text[0]);
                }
            }
            groups.insert(at, group);
            proof {
                let after = group_texts(groups@);
                assert(after =~= sorted.insert(at as int, text));
                assert forall|name: Seq<char>| #[trigger]
                    occurrences(after, name) + occurrences(fewer, name)
                        == all.to_multiset().count(name) by {
                    lemma_occurrences_insert(sorted, at as int, text, name);
                    assert(occurrences(sorted, name) + occurrences(pending, name)
                        == all.to_multiset().count(name));
                }
                assert forall|g: int, h: int| 0 <= g < h < after.len() implies precedes(
                    (#[trigger] after[g])[0],
                    (#[trigger] after[h])[0],
                ) by {
                    if h < at {
                        assert(after[g] == sorted[g] && after[h] == sorted[h]);
                    } else if g > at {
                        assert(after[g] == sorted[g - 1] && after[h] == sorted[h - 1]);
                    } else if h == at {
                        assert(after[g] == sorted[g]);
                    } else {
                        assert(after[h] == sorted[h - 1]);
                        if g == at {
                            if h - 1 > at {
                                assert(precedes(sorted[at as int][0], sorted[h - 1][0]));
                                law_precedes_transitive(
                                    text[0],
                                    sorted[at as int][0],
                                    sorted[h - 1][0],
                                );
                            }
                        } else {
                            assert(after[g] == sorted[g]);
                            assert(precedes(sorted[g][0], sorted[h - 1][0]));
                        }
                    }
                }
                assert forall|g: int| 0 <= g < after.len() implies is_group(
                    #[trigger] after[g],
                    targets,
                ) by {
                    if g < at {
                        assert(after[g] == sorted[g]);
                    } else if g > at {
                        assert(after[g] == sorted[g - 1]);
                    }
                }
                assert forall|g: int, h: int| 0 <= g < h < after.len() implies base(
                    (#[trigger] after[g])[0],
                ) != base((#[trigger] after[h])[0]) by {
                    let p = pending.len() - 1;
                    if g < at {
                        assert(after[g] == sorted[g]);
                    } else if g > at {
                        assert(after[g] == sorted[g - 1]);
                    }
                    if h < at {
                        assert(after[h] == sorted[h]);
                    } else if h > at {
                        assert(after[h] == sorted[h - 1]);
                    }
                    if g == at {
                        assert(base(pending[p][0]) != base(sorted[h - 1][0]));
                    } else if h == at {
                        assert(base(pending[p][0]) != base(sorted[g][0]));
                    }
                }
                assert forall|g: int, h: int|
                    0 <= g < fewer.len() && 0 <= h < after.len() implies base(
                    (#[trigger] fewer[g])[0],
                ) != base((#[trigger] after[h])[0]) by {
                    let p = pending.len() - 1;
                    assert(fewer[g] == pending[g]);
                    if h < at {
                        assert(after[h] == sorted[h]);
                    } else if h > at {
                        assert(after[h] == sorted[h - 1]);
                    } else {
                        assert(base(pending[g][0]) != base(pending[p][0]));
                    }
                }
                assert forall|g: int, h: int| 0 <= g < h < fewer.len() implies base(
                    (#[trigger] fewer[g])[0],
                ) != base((#[trigger] fewer[h])[0]) by {
                    assert(fewer[g] == pending[g] && fewer[h] == pending[h]);
                }
                assert forall|g: int| 0 <= g < fewer.len() implies is_group(
                    #[trigger] fewer[g],
                    targets,
                ) by {
                    assert(fewer[g] == pending[g]);
                }
            }
        }
    }
    groups
}

} // verus!
