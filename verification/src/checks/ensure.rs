//! Single checks on texts, and what they report.

use crate::scan::{contains, join, joined, occurs, split_words, words};
use crate::text::{concat, same_text, texts};
use crate::text_set::{strictly_sorted, TextSet};
use vstd::prelude::*;

verus! {

/// Whether a check reports this problem, or none.
pub open spec fn reports(result: Result<(), String>, problem: Option<Seq<char>>) -> bool {
    match (result, problem) {
        (Ok(_), None) => true,
        (Err(message), Some(problem)) => message@ == problem,
        _ => false,
    }
}

/// The first of two problems.
pub open spec fn or_else(first: Option<Seq<char>>, second: Option<Seq<char>>) -> Option<Seq<char>> {
    match first {
        Some(problem) => Some(problem),
        None => second,
    }
}

/// A text with each run of white space as one space, and none at the ends.
pub open spec fn normalized(text: Seq<char>) -> Seq<char> {
    joined(words(text), " "@)
}

/// What is said of a text that is not there.
pub open spec fn missing(needle: Seq<char>, context: Seq<char>) -> Seq<char> {
    context + ": missing `"@ + needle + "`"@
}

/// What is said of a text that should not be there.
pub open spec fn unexpected(needle: Seq<char>, context: Seq<char>) -> Seq<char> {
    context + ": unexpected `"@ + needle + "`"@
}

/// The problem where a text does not contain another.
pub open spec fn absent_problem(
    haystack: Seq<char>,
    needle: Seq<char>,
    context: Seq<char>,
) -> Option<Seq<char>> {
    if occurs(haystack, needle) {
        None
    } else {
        Some(missing(needle, context))
    }
}

/// The problem where a text contains another.
pub open spec fn present_problem(
    haystack: Seq<char>,
    needle: Seq<char>,
    context: Seq<char>,
) -> Option<Seq<char>> {
    if occurs(haystack, needle) {
        Some(unexpected(needle, context))
    } else {
        None
    }
}

/// The problem where a text does not contain another, whatever the white space
/// between the words.
pub open spec fn absent_words_problem(
    haystack: Seq<char>,
    needle: Seq<char>,
    context: Seq<char>,
) -> Option<Seq<char>> {
    if occurs(normalized(haystack), normalized(needle)) {
        None
    } else {
        Some(missing(needle, context))
    }
}

fn quoted(context: &str, middle: &str, needle: &str) -> (message: String)
    ensures
        message@ == context@ + middle@ + needle@ + "`"@,
{
    concat(concat(concat(context.to_owned(), middle), needle), "`")
}

/// Checks that a text contains another.
pub fn ensure_contains(haystack: &str, needle: &str, context: &str) -> (result: Result<(), String>)
    ensures
        reports(result, absent_problem(haystack@, needle@, context@)),
{
    if contains(haystack, needle) {
        Ok(())
    } else {
        Err(quoted(context, ": missing `", needle))
    }
}

/// Checks that a text does not contain another.
pub fn ensure_not_contains(haystack: &str, needle: &str, context: &str) -> (result: Result<
    (),
    String,
>)
    ensures
        reports(result, present_problem(haystack@, needle@, context@)),
{
    if contains(haystack, needle) {
        Err(quoted(context, ": unexpected `", needle))
    } else {
        Ok(())
    }
}

/// A text with each run of white space as one space, and none at the ends.
pub fn normalize(text: &str) -> (result: String)
    ensures
        result@ == normalized(text@),
{
    join(&split_words(text), " ")
}

/// Checks that a text contains another, whatever the white space between the
/// words.
pub fn ensure_contains_normalized(haystack: &str, needle: &str, context: &str) -> (result: Result<
    (),
    String,
>)
    ensures
        reports(result, absent_words_problem(haystack@, needle@, context@)),
{
    if contains(normalize(haystack).as_str(), normalize(needle).as_str()) {
        Ok(())
    } else {
        Err(quoted(context, ": missing `", needle))
    }
}

/// The problem where two texts differ.
pub open spec fn differing_problem(
    expected: Seq<char>,
    actual: Seq<char>,
    context: Seq<char>,
) -> Option<Seq<char>> {
    if expected == actual {
        None
    } else {
        Some(context + ": expected `"@ + expected + "`, got `"@ + actual + "`"@)
    }
}

/// Checks that two texts are the same.
pub fn ensure_eq(expected: &str, actual: &str, context: &str) -> (result: Result<(), String>)
    ensures
        reports(result, differing_problem(expected@, actual@, context@)),
{
    if same_text(expected, actual) {
        Ok(())
    } else {
        let start = concat(concat(context.to_owned(), ": expected `"), expected);
        Err(quoted(start.as_str(), "`, got `", actual))
    }
}

/// Whether a list is what a set holds, in order.
pub open spec fn lists(list: Seq<Seq<char>>, set: Set<Seq<char>>) -> bool {
    strictly_sorted(list) && list.to_set() == set
}

/// What is said of two sets that differ: the texts that are missing and those
/// that are too many, in order.
pub open spec fn set_difference_message(
    lacking: Seq<Seq<char>>,
    surplus: Seq<Seq<char>>,
    context: Seq<char>,
) -> Seq<char> {
    context + ": missing ["@ + joined(lacking, ", "@) + "], unexpected ["@ + joined(surplus, ", "@)
        + "]"@
}

/// Whether a check of two sets reports that they differ, where they do.
pub open spec fn reports_sets(
    result: Result<(), String>,
    expected: Set<Seq<char>>,
    actual: Set<Seq<char>>,
    context: Seq<char>,
) -> bool {
    match result {
        Ok(_) => expected == actual,
        Err(message) => expected != actual && exists|
            lacking: Seq<Seq<char>>,
            surplus: Seq<Seq<char>>,
        |
            #![trigger set_difference_message(lacking, surplus, context)]
            lists(lacking, expected.difference(actual)) && lists(
                surplus,
                actual.difference(expected),
            ) && message@ == set_difference_message(lacking, surplus, context),
    }
}

/// Checks that two sets are the same.
pub fn ensure_set_eq(expected: &TextSet, actual: &TextSet, context: &str) -> (result: Result<
    (),
    String,
>)
    ensures
        reports_sets(result, expected@, actual@, context@),
{
    let lacking: Vec<String> = expected.difference(actual);
    let surplus: Vec<String> = actual.difference(expected);
    let ghost less = texts(lacking@);
    let ghost more = texts(surplus@);
    if lacking.len() == 0 && surplus.len() == 0 {
        proof {
            assert forall|text: Seq<char>|
                #![trigger expected@.contains(text)]
                expected@.contains(text) == actual@.contains(text) by {
                if expected@.contains(text) && !actual@.contains(text) {
                    assert(less.to_set().contains(text));
                }
                if actual@.contains(text) && !expected@.contains(text) {
                    assert(more.to_set().contains(text));
                }
            }
            assert(expected@ =~= actual@);
        }
        return Ok(());
    }
    proof {
        if less.len() > 0 {
            assert(less.to_set().contains(less[0]));
            assert(expected@.difference(actual@).contains(less[0]));
        }
        if more.len() > 0 {
            assert(more.to_set().contains(more[0]));
            assert(actual@.difference(expected@).contains(more[0]));
        }
    }
    let start = concat(
        concat(context.to_owned(), ": missing ["),
        join(&lacking, ", ").as_str(),
    );
    let message = concat(
        concat(concat(start, "], unexpected ["), join(&surplus, ", ").as_str()),
        "]",
    );
    assert(message@ == set_difference_message(less, more, context@));
    Err(message)
}

} // verus!
