//! Trimming, searching, splitting and replacing in text.

use crate::text::{chars_of, is_white, string_between, string_of, texts, white_space};
use vstd::prelude::*;

verus! {

/// `text` without its leading white space.
pub open spec fn trimmed_start(text: Seq<char>) -> Seq<char>
    decreases text.len(),
{
    if text.len() > 0 && is_white(text[0]) {
        trimmed_start(text.drop_first())
    } else {
        text
    }
}

/// `text` without its trailing white space.
pub open spec fn trimmed_end(text: Seq<char>) -> Seq<char>
    decreases text.len(),
{
    if text.len() > 0 && is_white(text.last()) {
        trimmed_end(text.drop_last())
    } else {
        text
    }
}

/// `text` without the white space at either end.
pub open spec fn trimmed(text: Seq<char>) -> Seq<char> {
    trimmed_end(trimmed_start(text))
}

/// Whether `pattern` stands in `text` at position `at`.
pub open spec fn occurs_at(text: Seq<char>, pattern: Seq<char>, at: int) -> bool {
    &&& 0 <= at
    &&& at + pattern.len() <= text.len()
    &&& text.subrange(at, at + pattern.len()) == pattern
}

/// Whether `pattern` stands anywhere in `text`.
pub open spec fn occurs(text: Seq<char>, pattern: Seq<char>) -> bool {
    exists|at: int| occurs_at(text, pattern, at)
}

/// Where `pattern` first stands in `text`.
pub open spec fn position(text: Seq<char>, pattern: Seq<char>) -> Option<int>
    decreases text.len(),
{
    if begins(text, pattern) {
        Some(0)
    } else if text.len() == 0 {
        None
    } else {
        match position(text.drop_first(), pattern) {
            Some(at) => Some(at + 1),
            None => None,
        }
    }
}

/// Whether `text` begins with `prefix`.
pub open spec fn begins(text: Seq<char>, prefix: Seq<char>) -> bool {
    occurs_at(text, prefix, 0)
}

/// Whether `text` ends with `suffix`.
pub open spec fn ends(text: Seq<char>, suffix: Seq<char>) -> bool {
    occurs_at(text, suffix, text.len() - suffix.len())
}

/// What follows `prefix`, for a text that begins with it.
pub open spec fn after_prefix(text: Seq<char>, prefix: Seq<char>) -> Option<Seq<char>> {
    if begins(text, prefix) {
        Some(text.skip(prefix.len() as int))
    } else {
        None
    }
}

/// What precedes `suffix`, for a text that ends with it.
pub open spec fn before_suffix(text: Seq<char>, suffix: Seq<char>) -> Option<Seq<char>> {
    if ends(text, suffix) {
        Some(text.take(text.len() - suffix.len()))
    } else {
        None
    }
}

/// The position of the first `c`, or the length where there is none.
pub open spec fn index_of(text: Seq<char>, c: char) -> int
    decreases text.len(),
{
    if text.len() == 0 || text[0] == c {
        0
    } else {
        1 + index_of(text.drop_first(), c)
    }
}

/// The parts of `text` between the separators `c`.
pub open spec fn parts(text: Seq<char>, c: char) -> Seq<Seq<char>>
    decreases text.len(),
{
    let at = index_of(text, c);
    if 0 <= at < text.len() {
        seq![text.take(at)] + parts(text.skip(at + 1), c)
    } else {
        seq![text]
    }
}

/// A line without the carriage return that ends it, if one does.
pub open spec fn without_return(line: Seq<char>) -> Seq<char> {
    if line.len() > 0 && line.last() == '\r' {
        line.drop_last()
    } else {
        line
    }
}

/// The lines of `text`: each ends at a line feed, with or without a carriage
/// return before it; the last need not end in one.
pub open spec fn lines_of(text: Seq<char>) -> Seq<Seq<char>>
    decreases text.len(),
{
    let at = index_of(text, '\n');
    if text.len() == 0 {
        seq![]
    } else if 0 <= at < text.len() {
        seq![without_return(text.take(at))] + lines_of(text.skip(at + 1))
    } else {
        seq![text]
    }
}

/// `text` with every occurrence of `from` replaced by `to`, taken from left to
/// right without overlap.
pub open spec fn replaced(text: Seq<char>, from: Seq<char>, to: Seq<char>) -> Seq<char>
    decreases text.len(),
{
    if from.len() == 0 || text.len() < from.len() {
        text
    } else if begins(text, from) {
        to + replaced(text.skip(from.len() as int), from, to)
    } else {
        seq![text[0]] + replaced(text.drop_first(), from, to)
    }
}

/// The words of `text`: its longest runs without white space.
pub open spec fn words(text: Seq<char>) -> Seq<Seq<char>>
    decreases text.len(),
{
    let rest = trimmed_start(text);
    let end = word_end(rest);
    if rest.len() == 0 || end <= 0 || rest.len() > text.len() || end > rest.len() {
        seq![]
    } else {
        seq![rest.take(end)] + words(rest.skip(end))
    }
}

/// The position of the first white space, or the length where there is none.
pub open spec fn word_end(text: Seq<char>) -> int
    decreases text.len(),
{
    if text.len() == 0 || is_white(text[0]) {
        0
    } else {
        1 + word_end(text.drop_first())
    }
}

/// The texts of a list with the separator between each two.
pub open spec fn joined(list: Seq<Seq<char>>, separator: Seq<char>) -> Seq<char>
    decreases list.len(),
{
    if list.len() == 0 {
        seq![]
    } else if list.len() == 1 {
        list[0]
    } else {
        joined(list.drop_last(), separator) + separator + list.last()
    }
}

/// The first `c` stands within the text or at its end, and none before it.
pub proof fn lemma_index_of_bounds(text: Seq<char>, c: char)
    ensures
        0 <= index_of(text, c) <= text.len(),
        index_of(text, c) < text.len() ==> text[index_of(text, c)] == c,
        forall|i: int| 0 <= i < index_of(text, c) ==> text[i] != c,
    decreases text.len(),
{
    if text.len() > 0 && text[0] != c {
        lemma_index_of_bounds(text.drop_first(), c);
        assert forall|i: int| 0 <= i < index_of(text, c) implies text[i] != c by {
            if i > 0 {
                assert(text.drop_first()[i - 1] == text[i]);
            }
        }
    }
}

/// Where `c` stands for the first time, there it is found.
pub proof fn lemma_index_of_is(text: Seq<char>, c: char, at: int)
    requires
        0 <= at <= text.len(),
        forall|i: int| 0 <= i < at ==> text[i] != c,
        at < text.len() ==> text[at] == c,
    ensures
        index_of(text, c) == at,
    decreases text.len(),
{
    if at > 0 {
        assert forall|i: int| 0 <= i < at - 1 implies text.drop_first()[i] != c by {
            assert(text.drop_first()[i] == text[i + 1]);
        }
        lemma_index_of_is(text.drop_first(), c, at - 1);
    }
}

/// A text with a character that is not white space is not empty when trimmed.
pub proof fn lemma_trim_keeps_solid(text: Seq<char>, at: int)
    requires
        0 <= at < text.len(),
        !is_white(text[at]),
    ensures
        trimmed(text).len() > 0,
    decreases text.len(),
{
    if is_white(text[0]) {
        assert(text.drop_first()[at - 1] == text[at]);
        lemma_trim_keeps_solid(text.drop_first(), at - 1);
    } else {
        lemma_trim_end_keeps_solid(text, 0);
    }
}

proof fn lemma_trim_end_keeps_solid(text: Seq<char>, at: int)
    requires
        0 <= at < text.len(),
        !is_white(text[at]),
    ensures
        trimmed_end(text).len() > 0,
    decreases text.len(),
{
    if is_white(text.last()) {
        assert(text.drop_last()[at] == text[at]);
        lemma_trim_end_keeps_solid(text.drop_last(), at);
    }
}

/// The first position at or after `from` that holds `c`, or the length.
pub fn find_char(chars: &[char], c: char, from: usize) -> (at: usize)
    requires
        from <= chars.len(),
    ensures
        from <= at <= chars.len(),
        at == from + index_of(chars@.skip(from as int), c),
        at < chars.len() ==> chars@[at as int] == c,
        forall|i: int| from <= i < at ==> chars@[i] != c,
{
    let mut at: usize = from;
    while at < chars.len() && chars[at] != c
        invariant
            from <= at <= chars.len(),
            forall|i: int| from <= i < at ==> chars@[i] != c,
        decreases chars.len() - at,
    {
        at += 1;
    }
    proof {
        let rest = chars@.skip(from as int);
        assert forall|i: int| 0 <= i < at - from implies rest[i] != c by {
            assert(rest[i] == chars@[i + from]);
        }
        lemma_index_of_is(rest, c, at - from);
    }
    at
}

/// Where the text without leading white space begins.
fn start_of_trimmed(chars: &[char]) -> (start: usize)
    ensures
        start <= chars.len(),
        trimmed_start(chars@) == chars@.skip(start as int),
{
    let mut start: usize = 0;
    assert(chars@.skip(0) =~= chars@);
    while start < chars.len() && white_space(chars[start])
        invariant
            start <= chars.len(),
            trimmed_start(chars@) == trimmed_start(chars@.skip(start as int)),
        decreases chars.len() - start,
    {
        assert(chars@.skip(start as int).drop_first() =~= chars@.skip(start + 1));
        start += 1;
    }
    start
}

/// `text` without the white space at either end.
pub fn trim(text: &str) -> (result: String)
    ensures
        result@ == trimmed(text@),
{
    let chars = chars_of(text);
    let start: usize = start_of_trimmed(chars.as_slice());
    let mut end: usize = chars.len();
    let ghost rest = chars@.skip(start as int);
    assert(rest =~= chars@.subrange(start as int, end as int));
    while end > start && white_space(chars[end - 1])
        invariant
            start <= end <= chars.len(),
            trimmed_end(rest) == trimmed_end(chars@.subrange(start as int, end as int)),
        decreases end - start,
    {
        assert(chars@.subrange(start as int, end as int).drop_last() =~= chars@.subrange(
            start as int,
            end - 1,
        ));
        assert(chars@.subrange(start as int, end as int).last() == chars@[end - 1]);
        end -= 1;
    }
    proof {
        let kept = chars@.subrange(start as int, end as int);
        if kept.len() > 0 {
            assert(kept.last() == chars@[end - 1]);
        }
        assert(trimmed_end(kept) == kept);
    }
    string_between(chars.as_slice(), start, end)
}

/// Whether `text` holds nothing but white space.
pub fn is_blank(text: &str) -> (blank: bool)
    ensures
        blank == (trimmed(text@).len() == 0),
{
    trim(text).as_str().is_empty()
}

/// Whether `pattern` stands in `chars` at `at`.
pub fn stands_at(chars: &[char], pattern: &[char], at: usize) -> (found: bool)
    ensures
        found == occurs_at(chars@, pattern@, at as int),
{
    if chars.len() < pattern.len() || at > chars.len() - pattern.len() {
        return false;
    }
    let mut i: usize = 0;
    while i < pattern.len()
        invariant
            i <= pattern.len(),
            at + pattern.len() <= chars.len(),
            forall|k: int| 0 <= k < i ==> chars@[at + k] == pattern@[k],
        decreases pattern.len() - i,
    {
        if chars[at + i] != pattern[i] {
            assert(chars@.subrange(at as int, at + pattern.len())[i as int] == chars@[at + i]);
            return false;
        }
        i += 1;
    }
    assert(chars@.subrange(at as int, at + pattern.len()) =~= pattern@);
    true
}

proof fn lemma_occurs_shifted(text: Seq<char>, pattern: Seq<char>, at: int)
    requires
        text.len() > 0,
        at > 0,
    ensures
        occurs_at(text.drop_first(), pattern, at - 1) == occurs_at(text, pattern, at),
{
    if at + pattern.len() <= text.len() {
        assert(text.drop_first().subrange(at - 1, at - 1 + pattern.len()) =~= text.subrange(
            at,
            at + pattern.len(),
        ));
    }
}

/// The first position at which `pattern` stands is where it was found.
pub proof fn lemma_position_is(text: Seq<char>, pattern: Seq<char>, at: int)
    requires
        occurs_at(text, pattern, at),
        forall|k: int| 0 <= k < at ==> !occurs_at(text, pattern, k),
    ensures
        position(text, pattern) == Some(at),
    decreases text.len(),
{
    if at > 0 {
        assert(!occurs_at(text, pattern, 0));
        lemma_occurs_shifted(text, pattern, at);
        assert forall|k: int| 0 <= k < at - 1 implies !occurs_at(text.drop_first(), pattern, k) by {
            lemma_occurs_shifted(text, pattern, k + 1);
        }
        lemma_position_is(text.drop_first(), pattern, at - 1);
    }
}

/// Where it stands nowhere, there is no first position.
pub proof fn lemma_position_none(text: Seq<char>, pattern: Seq<char>)
    requires
        !occurs(text, pattern),
    ensures
        position(text, pattern) is None,
    decreases text.len(),
{
    assert(!occurs_at(text, pattern, 0));
    if text.len() > 0 {
        assert(!occurs(text.drop_first(), pattern)) by {
            if occurs(text.drop_first(), pattern) {
                let at = choose|at: int| occurs_at(text.drop_first(), pattern, at);
                lemma_occurs_shifted(text, pattern, at + 1);
                assert(occurs_at(text, pattern, at + 1));
            }
        }
        lemma_position_none(text.drop_first(), pattern);
    }
}

/// Where `pattern` first stands in `chars`.
pub fn find_chars(chars: &[char], pattern: &[char]) -> (at: Option<usize>)
    ensures
        match at {
            Some(at) => occurs_at(chars@, pattern@, at as int) && position(chars@, pattern@)
                == Some(at as int),
            None => !occurs(chars@, pattern@) && position(chars@, pattern@) is None,
        },
{
    if chars.len() < pattern.len() {
        proof {
            lemma_position_none(chars@, pattern@);
        }
        return None;
    }
    let last: usize = chars.len() - pattern.len();
    let mut at: usize = 0;
    loop
        invariant
            at <= last,
            last == chars.len() - pattern.len(),
            forall|k: int| 0 <= k < at ==> !occurs_at(chars@, pattern@, k),
        decreases last - at,
    {
        if stands_at(chars, pattern, at) {
            proof {
                lemma_position_is(chars@, pattern@, at as int);
            }
            return Some(at);
        }
        if at == last {
            proof {
                lemma_position_none(chars@, pattern@);
            }
            return None;
        }
        at += 1;
    }
}

/// Whether `pattern` stands anywhere in `text`.
pub fn contains(text: &str, pattern: &str) -> (found: bool)
    ensures
        found == occurs(text@, pattern@),
{
    let chars = chars_of(text);
    let wanted = chars_of(pattern);
    match find_chars(chars.as_slice(), wanted.as_slice()) {
        Some(_) => true,
        None => false,
    }
}

/// Whether `text` begins with `prefix`.
pub fn starts_with(text: &str, prefix: &str) -> (found: bool)
    ensures
        found == begins(text@, prefix@),
{
    let chars = chars_of(text);
    let wanted = chars_of(prefix);
    stands_at(chars.as_slice(), wanted.as_slice(), 0)
}

/// What follows `prefix`, for a text that begins with it.
pub fn strip_prefix(text: &str, prefix: &str) -> (rest: Option<String>)
    ensures
        rest matches Some(rest) ==> after_prefix(text@, prefix@) == Some(rest@),
        rest is None ==> after_prefix(text@, prefix@) is None,
{
    let chars = chars_of(text);
    let wanted = chars_of(prefix);
    if stands_at(chars.as_slice(), wanted.as_slice(), 0) {
        let ghost kept = text@.skip(prefix@.len() as int);
        let rest = string_between(chars.as_slice(), wanted.len(), chars.len());
        assert(rest@ =~= kept);
        Some(rest)
    } else {
        None
    }
}

/// What precedes `suffix`, for a text that ends with it.
pub fn strip_suffix(text: &str, suffix: &str) -> (rest: Option<String>)
    ensures
        rest matches Some(rest) ==> before_suffix(text@, suffix@) == Some(rest@),
        rest is None ==> before_suffix(text@, suffix@) is None,
{
    let chars = chars_of(text);
    let wanted = chars_of(suffix);
    if chars.len() < wanted.len() {
        return None;
    }
    let at: usize = chars.len() - wanted.len();
    if stands_at(chars.as_slice(), wanted.as_slice(), at) {
        let rest = string_between(chars.as_slice(), 0, at);
        assert(rest@ =~= text@.take(text@.len() - suffix@.len()));
        Some(rest)
    } else {
        None
    }
}

/// The parts of `text` between the separators `c`.
pub fn split(text: &str, c: char) -> (result: Vec<String>)
    ensures
        texts(result@) == parts(text@, c),
        result.len() > 0,
{
    let chars = chars_of(text);
    let mut result: Vec<String> = Vec::new();
    let mut from: usize = 0;
    assert(chars@.skip(0) =~= chars@);
    assert(texts(result@) + parts(chars@, c) =~= parts(chars@, c));
    loop
        invariant
            from <= chars.len(),
            texts(result@) + parts(chars@.skip(from as int), c) == parts(chars@, c),
        ensures
            from <= chars.len(),
            texts(result@) + seq![chars@.skip(from as int)] == parts(chars@, c),
        decreases chars.len() - from,
    {
        let at: usize = find_char(chars.as_slice(), c, from);
        let ghost rest = chars@.skip(from as int);
        if at == chars.len() {
            break;
        }
        let part = string_between(chars.as_slice(), from, at);
        let ghost before = texts(result@);
        result.push(part);
        proof {
            assert(part@ =~= rest.take(at - from));
            assert(rest.skip(at - from + 1) =~= chars@.skip(at + 1));
            assert(texts(result@) =~= before.push(part@));
            assert(before + (seq![part@] + parts(chars@.skip(at + 1), c)) =~= texts(result@)
                + parts(chars@.skip(at + 1), c));
        }
        from = at + 1;
    }
    let last = string_between(chars.as_slice(), from, chars.len());
    let ghost before = texts(result@);
    result.push(last);
    proof {
        assert(last@ =~= chars@.skip(from as int));
        assert(texts(result@) =~= before + seq![last@]);
    }
    result
}

/// The lines of `text`.
pub fn lines(text: &str) -> (result: Vec<String>)
    ensures
        texts(result@) == lines_of(text@),
{
    let chars = chars_of(text);
    let mut result: Vec<String> = Vec::new();
    let mut from: usize = 0;
    assert(chars@.skip(0) =~= chars@);
    assert(texts(result@) + lines_of(chars@) =~= lines_of(chars@));
    while from < chars.len()
        invariant
            from <= chars.len(),
            texts(result@) + lines_of(chars@.skip(from as int)) == lines_of(chars@),
        decreases chars.len() - from,
    {
        let at: usize = find_char(chars.as_slice(), '\n', from);
        let ghost rest = chars@.skip(from as int);
        let ghost before = texts(result@);
        if at == chars.len() {
            let line = string_between(chars.as_slice(), from, at);
            result.push(line);
            proof {
                assert(line@ =~= rest);
                assert(texts(result@) =~= before + seq![line@]);
                assert(chars@.skip(at as int).len() == 0);
                assert(texts(result@) + lines_of(chars@.skip(at as int)) =~= texts(result@));
            }
            from = at;
        } else {
            let end: usize = if at > from && chars[at - 1] == '\r' {
                at - 1
            } else {
                at
            };
            let line = string_between(chars.as_slice(), from, end);
            result.push(line);
            proof {
                let whole = rest.take(at - from);
                if at > from {
                    assert(whole.last() == chars@[at - 1]);
                }
                assert(line@ =~= without_return(whole));
                assert(rest.skip(at - from + 1) =~= chars@.skip(at + 1));
                assert(texts(result@) =~= before + seq![line@]);
                assert(before + (seq![line@] + lines_of(chars@.skip(at + 1))) =~= texts(result@)
                    + lines_of(chars@.skip(at + 1)));
            }
            from = at + 1;
        }
    }
    proof {
        assert(chars@.skip(from as int).len() == 0);
        assert(texts(result@) + lines_of(chars@.skip(from as int)) =~= texts(result@));
    }
    result
}

/// `text` with every occurrence of `from` replaced by `to`.
pub fn replace(text: &str, from: &str, to: &str) -> (result: String)
    requires
        from@.len() > 0,
    ensures
        result@ == replaced(text@, from@, to@),
{
    let chars = chars_of(text);
    let wanted = chars_of(from);
    let put = chars_of(to);
    let mut out: Vec<char> = Vec::new();
    let mut i: usize = 0;
    assert(chars@.skip(0) =~= chars@);
    assert(out@ + replaced(chars@, from@, to@) =~= replaced(chars@, from@, to@));
    while i < chars.len()
        invariant
            i <= chars.len(),
            wanted@ == from@,
            wanted@.len() > 0,
            put@ == to@,
            out@ + replaced(chars@.skip(i as int), from@, to@) == replaced(chars@, from@, to@),
        decreases chars.len() - i,
    {
        let ghost rest = chars@.skip(i as int);
        let ghost before = out@;
        if stands_at(chars.as_slice(), wanted.as_slice(), i) {
            assert(rest.subrange(0, wanted@.len() as int) =~= chars@.subrange(
                i as int,
                i + wanted@.len(),
            ));
            let mut k: usize = 0;
            while k < put.len()
                invariant
                    k <= put.len(),
                    out@ == before + put@.take(k as int),
                decreases put.len() - k,
            {
                out.push(put[k]);
                assert(put@.take(k + 1) =~= put@.take(k as int).push(put@[k as int]));
                assert(out@ =~= before + put@.take(k + 1));
                k += 1;
            }
            proof {
                assert(put@.take(k as int) =~= put@);
                assert(rest.skip(wanted@.len() as int) =~= chars@.skip(i + wanted@.len()));
                let tail = replaced(chars@.skip(i + wanted@.len()), from@, to@);
                assert(before + (to@ + tail) =~= (before + to@) + tail);
            }
            i += wanted.len();
        } else {
            proof {
                if begins(rest, from@) {
                    assert(rest.subrange(0, from@.len() as int) =~= chars@.subrange(
                        i as int,
                        i + from@.len(),
                    ));
                }
            }
            out.push(chars[i]);
            proof {
                assert(rest.drop_first() =~= chars@.skip(i + 1));
                let tail = replaced(chars@.skip(i + 1), from@, to@);
                if rest.len() < from@.len() {
                    assert(tail == chars@.skip(i + 1));
                    assert(rest =~= seq![rest[0]] + tail);
                }
                assert(before + (seq![rest[0]] + tail) =~= out@ + tail);
            }
            i += 1;
        }
    }
    proof {
        assert(chars@.skip(i as int).len() == 0);
        assert(out@ + replaced(chars@.skip(i as int), from@, to@) =~= out@);
    }
    string_of(out.as_slice())
}

proof fn lemma_word_end_is(text: Seq<char>, at: int)
    requires
        0 <= at <= text.len(),
        forall|i: int| 0 <= i < at ==> !is_white(text[i]),
        at < text.len() ==> is_white(text[at]),
    ensures
        word_end(text) == at,
    decreases text.len(),
{
    if at > 0 {
        assert forall|i: int| 0 <= i < at - 1 implies !is_white(text.drop_first()[i]) by {
            assert(text.drop_first()[i] == text[i + 1]);
        }
        lemma_word_end_is(text.drop_first(), at - 1);
    }
}

/// The words of `text`.
pub fn split_words(text: &str) -> (result: Vec<String>)
    ensures
        texts(result@) == words(text@),
{
    let chars = chars_of(text);
    let mut result: Vec<String> = Vec::new();
    let mut from: usize = 0;
    assert(chars@.skip(0) =~= chars@);
    assert(texts(result@) + words(chars@) =~= words(chars@));
    loop
        invariant
            from <= chars.len(),
            texts(result@) + words(chars@.skip(from as int)) == words(chars@),
        ensures
            texts(result@) == words(chars@),
        decreases chars.len() - from,
    {
        let ghost whole = chars@.skip(from as int);
        let mut start: usize = from;
        while start < chars.len() && white_space(chars[start])
            invariant
                from <= start <= chars.len(),
                trimmed_start(whole) == trimmed_start(chars@.skip(start as int)),
            decreases chars.len() - start,
        {
            assert(chars@.skip(start as int).drop_first() =~= chars@.skip(start + 1));
            start += 1;
        }
        let ghost rest = chars@.skip(start as int);
        assert(trimmed_start(whole) == rest);
        if start == chars.len() {
            assert(words(whole) =~= seq![]);
            assert(texts(result@) + words(whole) =~= texts(result@));
            break;
        }
        let mut end: usize = start;
        while end < chars.len() && !white_space(chars[end])
            invariant
                start <= end <= chars.len(),
                forall|i: int| start <= i < end ==> !is_white(chars@[i]),
            decreases chars.len() - end,
        {
            end += 1;
        }
        let word = string_between(chars.as_slice(), start, end);
        let ghost before = texts(result@);
        result.push(word);
        proof {
            assert forall|i: int| 0 <= i < end - start implies !is_white(rest[i]) by {
                assert(rest[i] == chars@[i + start]);
            }
            lemma_word_end_is(rest, end - start);
            assert(word@ =~= rest.take(end - start));
            assert(rest.skip(end - start) =~= chars@.skip(end as int));
            assert(texts(result@) =~= before + seq![word@]);
            assert(before + (seq![word@] + words(chars@.skip(end as int))) =~= texts(result@)
                + words(chars@.skip(end as int)));
        }
        from = end;
    }
    result
}

/// The strings of a list, one after the other, with `separator` between them.
pub fn join(list: &Vec<String>, separator: &str) -> (result: String)
    ensures
        result@ == joined(texts(list@), separator@),
{
    let mut result = String::new();
    let mut i: usize = 0;
    let ghost all = texts(list@);
    while i < list.len()
        invariant
            i <= list.len(),
            all == texts(list@),
            result@ == joined(all.take(i as int), separator@),
        decreases list.len() - i,
    {
        let ghost before = result@;
        if i > 0 {
            result = crate::text::concat(result, separator);
        }
        result = crate::text::concat(result, list[i].as_str());
        proof {
            let now = all.take(i + 1);
            assert(now.drop_last() =~= all.take(i as int));
            assert(now.last() == list@[i as int]@);
            if i == 0 {
                assert(result@ =~= now[0]);
            }
        }
        i += 1;
    }
    assert(all.take(i as int) =~= all);
    result
}

} // verus!
