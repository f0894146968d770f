//! What holds of trimming, searching, splitting and replacing in any text, and
//! of numbers in decimal.

use crate::number::{decimal, digit, digit_value, is_digit, parsed, signed_decimal, value_of};
use crate::scan::{
    after_prefix, before_suffix, begins, ends, index_of, joined, lemma_index_of_bounds,
    lemma_index_of_is, lemma_position_is, lemma_position_none, lines_of, occurs, occurs_at, parts,
    position, replaced, trimmed, trimmed_end, trimmed_start, word_end, words,
};
use crate::text::is_white;
use vstd::prelude::*;

verus! {

/// Space, tab, line feed and carriage return are white space; letters, digits
/// and the other visible ASCII characters are not.
pub proof fn law_white_space_is_invisible(c: char)
    ensures
        c == ' ' || c == '\t' || c == '\n' || c == '\r' ==> is_white(c),
        '!' <= c && c <= '~' ==> !is_white(c),
{
}

proof fn lemma_trimmed_start(text: Seq<char>) -> (a: int)
    ensures
        0 <= a <= text.len(),
        trimmed_start(text) == text.skip(a),
        forall|i: int| 0 <= i < a ==> is_white(#[trigger] text[i]),
        a < text.len() ==> !is_white(text[a]),
    decreases text.len(),
{
    if text.len() > 0 && is_white(text[0]) {
        let rest = text.drop_first();
        let b = lemma_trimmed_start(rest);
        assert(rest.skip(b) =~= text.skip(b + 1));
        assert forall|i: int| 0 <= i < b + 1 implies is_white(#[trigger] text[i]) by {
            if i > 0 {
                assert(rest[i - 1] == text[i]);
            }
        }
        b + 1
    } else {
        assert(text.skip(0) =~= text);
        0
    }
}

proof fn lemma_trimmed_end(text: Seq<char>) -> (b: int)
    ensures
        0 <= b <= text.len(),
        trimmed_end(text) == text.take(b),
        forall|i: int| b <= i < text.len() ==> is_white(#[trigger] text[i]),
        b > 0 ==> !is_white(text[b - 1]),
    decreases text.len(),
{
    if text.len() > 0 && is_white(text.last()) {
        let rest = text.drop_last();
        let b = lemma_trimmed_end(rest);
        assert(rest.take(b) =~= text.take(b));
        assert forall|i: int| b <= i < text.len() implies is_white(#[trigger] text[i]) by {
            if i < rest.len() {
                assert(rest[i] == text[i]);
            }
        }
        b
    } else {
        assert(text.take(text.len() as int) =~= text);
        text.len() as int
    }
}

/// Trimming takes white space off both ends, all of it and nothing else: text
/// between white space that begins and ends with something else is what is left.
pub proof fn law_trimming_takes_white_space(lead: Seq<char>, core: Seq<char>, tail: Seq<char>)
    requires
        forall|i: int| 0 <= i < lead.len() ==> is_white(#[trigger] lead[i]),
        forall|i: int| 0 <= i < tail.len() ==> is_white(#[trigger] tail[i]),
        core.len() > 0 ==> !is_white(core[0]) && !is_white(core.last()),
    ensures
        trimmed(lead + core + tail) == core,
{
    let text = lead + core + tail;
    let a = lemma_trimmed_start(text);
    let b = lemma_trimmed_end(text.skip(a));
    assert forall|i: int| 0 <= i < lead.len() implies is_white(#[trigger] text[i]) by {
        assert(text[i] == lead[i]);
    }
    assert forall|i: int| lead.len() + core.len() <= i < text.len() implies is_white(
        #[trigger] text[i],
    ) by {
        assert(text[i] == tail[i - lead.len() - core.len()]);
    }
    if core.len() > 0 {
        assert(text[lead.len() as int] == core[0]);
        assert(a == lead.len());
        let rest = text.skip(a);
        let last = core.len() - 1;
        assert(rest[last] == core.last());
        assert(b >= core.len());
        if b > core.len() {
            assert(rest[b - 1] == text[a + b - 1]);
        }
        assert(rest.take(b) =~= core);
    } else {
        if a < text.len() {
            assert(is_white(text[a]));
        }
        assert(text.skip(a).take(b) =~= core);
    }
}

/// A pattern is found where it first stands, and only where it stands.
pub proof fn law_first_occurrence_is_found(text: Seq<char>, pattern: Seq<char>)
    ensures
        match position(text, pattern) {
            Some(at) => {
                &&& 0 <= at <= text.len() - pattern.len()
                &&& text.subrange(at, at + pattern.len()) == pattern
                &&& forall|k: int|
                    0 <= k < at && k + pattern.len() <= text.len() ==> #[trigger] text.subrange(
                        k,
                        k + pattern.len(),
                    ) != pattern
            },
            None => forall|k: int|
                0 <= k && k + pattern.len() <= text.len() ==> #[trigger] text.subrange(
                    k,
                    k + pattern.len(),
                ) != pattern,
        },
        occurs(text, pattern) <==> position(text, pattern) is Some,
{
    if occurs(text, pattern) {
        let some = choose|at: int| occurs_at(text, pattern, at);
        let first = lemma_least(text, pattern, some);
        lemma_position_is(text, pattern, first);
        assert forall|k: int|
            0 <= k < first && k + pattern.len() <= text.len() implies #[trigger] text.subrange(
            k,
            k + pattern.len(),
        ) != pattern by {
            assert(!occurs_at(text, pattern, k));
        }
    } else {
        lemma_position_none(text, pattern);
        assert forall|k: int|
            0 <= k && k + pattern.len() <= text.len() implies #[trigger] text.subrange(
            k,
            k + pattern.len(),
        ) != pattern by {
            assert(!occurs_at(text, pattern, k));
        }
    }
}

proof fn lemma_least(text: Seq<char>, pattern: Seq<char>, at: int) -> (first: int)
    requires
        occurs_at(text, pattern, at),
    ensures
        occurs_at(text, pattern, first),
        forall|k: int| 0 <= k < first ==> !occurs_at(text, pattern, k),
    decreases at,
{
    if exists|k: int| 0 <= k < at && occurs_at(text, pattern, k) {
        let k = choose|k: int| 0 <= k < at && occurs_at(text, pattern, k);
        lemma_least(text, pattern, k)
    } else {
        at
    }
}

/// What follows a prefix is what was put behind it, and what precedes a suffix
/// what was put before it.
pub proof fn law_prefix_and_suffix_come_off(text: Seq<char>, part: Seq<char>, rest: Seq<char>)
    ensures
        after_prefix(text, part) == Some(rest) <==> text == part + rest,
        before_suffix(text, part) == Some(rest) <==> text == rest + part,
        after_prefix(text, part) is Some <==> begins(text, part),
        before_suffix(text, part) is Some <==> ends(text, part),
{
    if text == part + rest {
        assert(text.subrange(0, part.len() as int) =~= part);
        assert(text.skip(part.len() as int) =~= rest);
    }
    if begins(text, part) {
        assert(part + text.skip(part.len() as int) =~= text) by {
            assert(text.subrange(0, part.len() as int) + text.skip(part.len() as int) =~= text);
        }
    }
    if text == rest + part {
        assert(text.subrange(text.len() - part.len(), text.len() as int) =~= part);
        assert(text.take(text.len() - part.len()) =~= rest);
    }
    if ends(text, part) {
        let at = text.len() - part.len();
        assert(text.take(at) + text.subrange(at, text.len() as int) =~= text);
    }
}

/// The first of a character is found, or the end where there is none.
pub proof fn law_first_character_is_found(text: Seq<char>, c: char)
    ensures
        0 <= index_of(text, c) <= text.len(),
        forall|i: int| 0 <= i < index_of(text, c) ==> text[i] != c,
        index_of(text, c) < text.len() ==> text[index_of(text, c)] == c,
{
    lemma_index_of_bounds(text, c);
}

/// A text is split at its separators: what stands before the first is the first
/// part, and the parts of what stands behind it follow.
pub proof fn law_parts_make_the_text(first: Seq<char>, rest: Seq<char>, c: char)
    requires
        !first.contains(c),
    ensures
        parts(first, c) == seq![first],
        parts(first.push(c) + rest, c) == seq![first] + parts(rest, c),
{
    assert forall|i: int| 0 <= i < first.len() implies first[i] != c by {
        assert(first.contains(first[i]));
    }
    lemma_index_of_is(first, c, first.len() as int);
    let text = first.push(c) + rest;
    lemma_index_of_is(text, c, first.len() as int);
    assert(text.take(first.len() as int) =~= first);
    assert(text.skip(first.len() as int + 1) =~= rest);
}

/// A text is split into lines behind each line feed. A carriage return before
/// the line feed is no part of the line; without a line feed the rest is the
/// last line as it is, and there is none where nothing is left.
pub proof fn law_line_feeds_end_lines(line: Seq<char>, rest: Seq<char>)
    requires
        !line.contains('\n'),
    ensures
        lines_of(Seq::<char>::empty()) == Seq::<Seq<char>>::empty(),
        line.len() > 0 ==> lines_of(line) == seq![line],
        !(line.len() > 0 && line.last() == '\r') ==> lines_of(line.push('\n') + rest) == seq![line]
            + lines_of(rest),
        lines_of(line.push('\r').push('\n') + rest) == seq![line] + lines_of(rest),
{
    assert forall|i: int| 0 <= i < line.len() implies line[i] != '\n' by {
        assert(line.contains(line[i]));
    }
    lemma_index_of_is(line, '\n', line.len() as int);
    let text = line.push('\n') + rest;
    lemma_index_of_is(text, '\n', line.len() as int);
    assert(text.take(line.len() as int) =~= line);
    assert(text.skip(line.len() as int + 1) =~= rest);
    let wide = line.push('\r').push('\n') + rest;
    lemma_index_of_is(wide, '\n', line.len() as int + 1);
    assert(wide.take(line.len() as int + 1) =~= line.push('\r'));
    assert(line.push('\r').drop_last() =~= line);
    assert(wide.skip(line.len() as int + 2) =~= rest);
}

/// A text in which a pattern stands nowhere is not changed by replacing it.
pub proof fn law_nothing_to_replace(text: Seq<char>, from: Seq<char>, to: Seq<char>)
    requires
        from.len() > 0,
        forall|k: int|
            0 <= k && k + from.len() <= text.len() ==> #[trigger] text.subrange(k, k + from.len())
                != from,
    ensures
        replaced(text, from, to) == text,
    decreases text.len(),
{
    if text.len() >= from.len() {
        let rest = text.drop_first();
        assert(text.subrange(0, 0int + from.len()) != from);
        assert forall|k: int| 0 <= k && k + from.len() <= rest.len() implies #[trigger] rest.subrange(
            k,
            k + from.len(),
        ) != from by {
            assert(rest.subrange(k, k + from.len()) =~= text.subrange(k + 1, k + 1 + from.len()));
        }
        law_nothing_to_replace(rest, from, to);
        assert(seq![text[0]] + rest =~= text);
    }
}

/// Replacing takes the first occurrence out, puts the replacement there, and
/// goes on behind it.
pub proof fn law_first_occurrence_is_replaced(
    before: Seq<char>,
    from: Seq<char>,
    behind: Seq<char>,
    to: Seq<char>,
)
    requires
        from.len() > 0,
        forall|k: int|
            0 <= k < before.len() ==> #[trigger] (before + from + behind).subrange(
                k,
                k + from.len(),
            ) != from,
    ensures
        replaced(before + from + behind, from, to) == before + to + replaced(behind, from, to),
    decreases before.len(),
{
    let text = before + from + behind;
    if before.len() == 0 {
        assert(text.subrange(0, from.len() as int) =~= from);
        assert(text.skip(from.len() as int) =~= behind);
        assert(before + to =~= to);
    } else {
        let fewer = before.drop_first();
        let rest = fewer + from + behind;
        assert(text.subrange(0, 0int + from.len()) != from);
        assert(text.drop_first() =~= rest);
        assert forall|k: int| 0 <= k < fewer.len() implies #[trigger] rest.subrange(
            k,
            k + from.len(),
        ) != from by {
            assert(rest.subrange(k, k + from.len()) =~= text.subrange(k + 1, k + 1 + from.len()));
        }
        law_first_occurrence_is_replaced(fewer, from, behind, to);
        assert(seq![text[0]] + (fewer + to + replaced(behind, from, to)) =~= before + to
            + replaced(behind, from, to));
    }
}

proof fn lemma_word_ends(text: Seq<char>, at: int)
    requires
        0 <= at <= text.len(),
        forall|i: int| 0 <= i < at ==> !is_white(text[i]),
        at < text.len() ==> is_white(text[at]),
    ensures
        word_end(text) == at,
    decreases text.len(),
{
    if at > 0 {
        assert forall|i: int| 0 <= i < at - 1 implies !is_white(text.drop_first()[i]) by {
            assert(text.drop_first()[i] == text[i + 1]);
        }
        lemma_word_ends(text.drop_first(), at - 1);
    }
}

/// White space has no words; a run without white space between white space is
/// one word, and the words of what follows come behind it.
pub proof fn law_words_are_runs_without_white_space(
    lead: Seq<char>,
    word: Seq<char>,
    rest: Seq<char>,
)
    requires
        forall|i: int| 0 <= i < lead.len() ==> is_white(#[trigger] lead[i]),
        word.len() > 0,
        forall|i: int| 0 <= i < word.len() ==> !is_white(#[trigger] word[i]),
        rest.len() > 0 ==> is_white(rest[0]),
    ensures
        words(lead) == Seq::<Seq<char>>::empty(),
        words(lead + word + rest) == seq![word] + words(rest),
{
    let a = lemma_trimmed_start(lead);
    if a < lead.len() {
        assert(is_white(lead[a]));
    }
    let text = lead + word + rest;
    let b = lemma_trimmed_start(text);
    assert forall|i: int| 0 <= i < lead.len() implies is_white(#[trigger] text[i]) by {
        assert(text[i] == lead[i]);
    }
    assert(text[lead.len() as int] == word[0]);
    assert(b == lead.len());
    let open = text.skip(b);
    assert(open =~= word + rest);
    assert forall|i: int| 0 <= i < word.len() implies !is_white(open[i]) by {
        assert(open[i] == word[i]);
    }
    lemma_word_ends(open, word.len() as int);
    assert(open.take(word.len() as int) =~= word);
    assert(open.skip(word.len() as int) =~= rest);
}

/// Joining puts the separator between each two texts of a list and nowhere else.
pub proof fn law_joining_separates(list: Seq<Seq<char>>, last: Seq<char>, separator: Seq<char>)
    ensures
        joined(Seq::<Seq<char>>::empty(), separator) == Seq::<char>::empty(),
        joined(seq![last], separator) == last,
        list.len() > 0 ==> joined(list.push(last), separator) == joined(list, separator)
            + separator + last,
{
    assert(list.push(last).drop_last() =~= list);
}

/// A number in decimal is made of digits, without a zero in front unless it is
/// zero, and stands for that number.
pub proof fn law_decimal_stands_for_its_number(value: nat)
    ensures
        decimal(value).len() > 0,
        value_of(decimal(value)) == value,
        forall|i: int|
            0 <= i < decimal(value).len() ==> '0' <= #[trigger] decimal(value)[i] && decimal(
                value,
            )[i] <= '9',
        value > 0 ==> decimal(value)[0] != '0',
    decreases value,
{
    assert forall|d: int| 0 <= d < 10 implies #[trigger] digit_value(digit(d)) == d by {}
    if value < 10 {
        let one = seq![digit(value as int)];
        assert(one.drop_last() =~= Seq::<char>::empty());
        assert(value_of(Seq::<char>::empty()) == 0);
        assert(digit_value(digit(value as int)) == value);
    } else {
        law_decimal_stands_for_its_number(value / 10);
        let d = (value % 10) as int;
        assert(decimal(value).drop_last() =~= decimal(value / 10));
        assert(digit_value(digit(d)) == d);
    }
}

/// The decimal of a number is read as that number, with or without a plus sign,
/// where it is not too great.
pub proof fn law_decimal_is_read_back(value: nat, max: nat)
    ensures
        parsed(decimal(value), max) == if value <= max {
            Some(value)
        } else {
            None
        },
        parsed(seq!['+'] + decimal(value), max) == if value <= max {
            Some(value)
        } else {
            None
        },
{
    law_decimal_stands_for_its_number(value);
    let text = decimal(value);
    assert((seq!['+'] + text).drop_first() =~= text);
}

/// Only digits are read, behind at most one plus sign, each digit counting ten
/// times those behind it.
pub proof fn law_only_digits_are_read(text: Seq<char>, max: nat, i: int, c: char)
    ensures
        parsed(Seq::<char>::empty(), max) is None,
        parsed(seq!['+'], max) is None,
        0 < i < text.len() && !('0' <= text[i] && text[i] <= '9') ==> parsed(text, max) is None,
        text.len() > 0 && text[0] != '+' && !('0' <= text[0] && text[0] <= '9') ==> parsed(
            text,
            max,
        ) is None,
        '0' <= c && c <= '9' ==> value_of(text.push(c)) == 10 * value_of(text) + (c as int
            - '0' as int),
        parsed(text, max) matches Some(value) ==> value <= max,
{
    assert(seq!['+'].drop_first() =~= Seq::<char>::empty());
    assert(text.push(c).drop_last() =~= text);
    if 0 < i < text.len() && !('0' <= text[i] && text[i] <= '9') {
        if text[0] == '+' {
            assert(text.drop_first()[i - 1] == text[i]);
            assert(!is_digit(text.drop_first()[i - 1]));
        } else {
            assert(!is_digit(text[i]));
        }
    }
    if text.len() > 0 {
        assert(is_digit(text[0]) || !is_digit(text[0]));
    }
}

/// A negative number is written as its size behind a minus sign.
pub proof fn law_minus_stands_before_negative(value: nat)
    ensures
        signed_decimal(value as int) == decimal(value),
        value > 0 ==> signed_decimal(-(value as int)) == seq!['-'] + decimal(value),
{
}

/// Nothing is left of a text when it is trimmed exactly if it is white space
/// throughout.
pub proof fn law_blank_texts_trim_to_nothing(text: Seq<char>)
    ensures
        trimmed(text).len() == 0 <==> forall|i: int|
            0 <= i < text.len() ==> is_white(#[trigger] text[i]),
{
    let a = lemma_trimmed_start(text);
    let b = lemma_trimmed_end(text.skip(a));
    if a < text.len() {
        assert(text.skip(a)[0] == text[a]);
        if b == 0 {
            assert(is_white(text.skip(a)[0]));
        }
    }
}

} // verus!
