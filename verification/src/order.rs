//! The order of texts by their characters' code points, first difference
//! first. It is also the order of their UTF-8 bytes
//! ([`law_order_is_that_of_the_bytes`]).

use crate::text::chars_of;
use vstd::prelude::*;
use vstd::utf8::{
    char_is_scalar, char_u32_cast, encode_scalar, encode_utf8, has_width_1_encoding, has_width_2_encoding,
    has_width_3_encoding, has_width_4_encoding, is_scalar, last_continuation_byte,
    leading_byte_width_1, leading_byte_width_2, leading_byte_width_3, leading_byte_width_4,
    second_last_continuation_byte, third_last_continuation_byte,
};

verus! {

/// Whether one text comes before another.
pub open spec fn precedes(left: Seq<char>, right: Seq<char>) -> bool
    decreases left.len(),
{
    if right.len() == 0 {
        false
    } else if left.len() == 0 {
        true
    } else if left[0] == right[0] {
        precedes(left.drop_first(), right.drop_first())
    } else {
        left[0] < right[0]
    }
}

/// No text comes before itself.
pub proof fn law_precedes_irreflexive(text: Seq<char>)
    ensures
        !precedes(text, text),
    decreases text.len(),
{
    if text.len() > 0 {
        law_precedes_irreflexive(text.drop_first());
    }
}

/// What comes before something comes before all that follows it.
pub proof fn law_precedes_transitive(left: Seq<char>, middle: Seq<char>, right: Seq<char>)
    requires
        precedes(left, middle),
        precedes(middle, right),
    ensures
        precedes(left, right),
    decreases left.len(),
{
    if left.len() > 0 && middle.len() > 0 && right.len() > 0 && left[0] == middle[0] && middle[0]
        == right[0] {
        law_precedes_transitive(left.drop_first(), middle.drop_first(), right.drop_first());
    }
}

/// Of two different texts one comes before the other.
pub proof fn law_precedes_total(left: Seq<char>, right: Seq<char>)
    ensures
        precedes(left, right) || left == right || precedes(right, left),
    decreases left.len(),
{
    if left.len() > 0 && right.len() > 0 && left[0] == right[0] {
        law_precedes_total(left.drop_first(), right.drop_first());
        if left.drop_first() == right.drop_first() {
            assert(left =~= seq![left[0]] + left.drop_first());
            assert(right =~= seq![right[0]] + right.drop_first());
        }
    } else if left.len() == 0 && right.len() == 0 {
        assert(left =~= right);
    }
}

/// Whether some bytes come before others, first difference first.
pub open spec fn bytes_precede(left: Seq<u8>, right: Seq<u8>) -> bool
    decreases left.len(),
{
    if right.len() == 0 {
        false
    } else if left.len() == 0 {
        true
    } else if left[0] == right[0] {
        bytes_precede(left.drop_first(), right.drop_first())
    } else {
        left[0] < right[0]
    }
}

proof fn lemma_first_difference(left: Seq<u8>, right: Seq<u8>, at: int)
    requires
        0 <= at < left.len(),
        at < right.len(),
        forall|i: int| 0 <= i < at ==> left[i] == right[i],
        left[at] < right[at],
    ensures
        bytes_precede(left, right),
        !bytes_precede(right, left),
    decreases at,
{
    if at > 0 {
        assert(left[0] == right[0]);
        assert forall|i: int| 0 <= i < at - 1 implies left.drop_first()[i]
            == right.drop_first()[i] by {
            assert(left[i + 1] == right[i + 1]);
        }
        lemma_first_difference(left.drop_first(), right.drop_first(), at - 1);
    }
}

proof fn lemma_same_beginning(head: Seq<u8>, left: Seq<u8>, right: Seq<u8>)
    ensures
        bytes_precede(head + left, head + right) == bytes_precede(left, right),
    decreases head.len(),
{
    if head.len() > 0 {
        lemma_same_beginning(head.drop_first(), left, right);
        assert((head + left).drop_first() =~= head.drop_first() + left);
        assert((head + right).drop_first() =~= head.drop_first() + right);
    } else {
        assert(head + left =~= left);
        assert(head + right =~= right);
    }
}

proof fn lemma_leading_bytes(c: u32)
    by (bit_vector)
    ensures
        has_width_1_encoding(c) ==> leading_byte_width_1(c) <= 0x7f,
        has_width_2_encoding(c) ==> 0xc0 <= leading_byte_width_2(c) <= 0xdf,
        has_width_3_encoding(c) ==> 0xe0 <= leading_byte_width_3(c) <= 0xef,
        has_width_4_encoding(c) ==> 0xf0 <= leading_byte_width_4(c) <= 0xf7,
{
}

proof fn lemma_width_1(c: u32, d: u32)
    by (bit_vector)
    requires
        c < d,
        has_width_1_encoding(d),
    ensures
        leading_byte_width_1(c) < leading_byte_width_1(d),
{
}

proof fn lemma_width_2(c: u32, d: u32)
    by (bit_vector)
    requires
        c < d,
        has_width_2_encoding(c),
        has_width_2_encoding(d),
    ensures
        leading_byte_width_2(c) < leading_byte_width_2(d) || (leading_byte_width_2(c)
            == leading_byte_width_2(d) && last_continuation_byte(c) < last_continuation_byte(d)),
{
}

proof fn lemma_width_3(c: u32, d: u32)
    by (bit_vector)
    requires
        c < d,
        has_width_3_encoding(c),
        has_width_3_encoding(d),
    ensures
        leading_byte_width_3(c) < leading_byte_width_3(d) || (leading_byte_width_3(c)
            == leading_byte_width_3(d) && (second_last_continuation_byte(c)
            < second_last_continuation_byte(d) || (second_last_continuation_byte(c)
            == second_last_continuation_byte(d) && last_continuation_byte(c)
            < last_continuation_byte(d)))),
{
}

proof fn lemma_width_4(c: u32, d: u32)
    by (bit_vector)
    requires
        c < d,
        has_width_4_encoding(c),
        has_width_4_encoding(d),
    ensures
        leading_byte_width_4(c) < leading_byte_width_4(d) || (leading_byte_width_4(c)
            == leading_byte_width_4(d) && (third_last_continuation_byte(c)
            < third_last_continuation_byte(d) || (third_last_continuation_byte(c)
            == third_last_continuation_byte(d) && (second_last_continuation_byte(c)
            < second_last_continuation_byte(d) || (second_last_continuation_byte(c)
            == second_last_continuation_byte(d) && last_continuation_byte(c)
            < last_continuation_byte(d)))))),
{
}

proof fn lemma_scalar_order(c: u32, d: u32) -> (at: int)
    requires
        is_scalar(c),
        is_scalar(d),
        c < d,
    ensures
        0 <= at < encode_scalar(c).len(),
        at < encode_scalar(d).len(),
        forall|i: int| 0 <= i < at ==> encode_scalar(c)[i] == encode_scalar(d)[i],
        encode_scalar(c)[at] < encode_scalar(d)[at],
{
    lemma_leading_bytes(c);
    lemma_leading_bytes(d);
    let left = encode_scalar(c);
    let right = encode_scalar(d);
    if has_width_1_encoding(d) {
        lemma_width_1(c, d);
    } else if has_width_2_encoding(c) && has_width_2_encoding(d) {
        lemma_width_2(c, d);
    } else if has_width_3_encoding(c) && has_width_3_encoding(d) {
        lemma_width_3(c, d);
    } else if has_width_4_encoding(c) {
        lemma_width_4(c, d);
    }
    if left[0] != right[0] {
        0
    } else if left[1] != right[1] {
        1
    } else if left[2] != right[2] {
        2
    } else {
        3
    }
}

proof fn lemma_first_characters_decide(left: Seq<char>, right: Seq<char>)
    requires
        left.len() > 0,
        right.len() > 0,
        left[0] < right[0],
    ensures
        bytes_precede(encode_utf8(left), encode_utf8(right)),
        !bytes_precede(encode_utf8(right), encode_utf8(left)),
{
    char_is_scalar(left[0]);
    char_is_scalar(right[0]);
    let c = left[0] as u32;
    let d = right[0] as u32;
    char_u32_cast(left[0], c);
    char_u32_cast(right[0], d);
    assert(c < d);
    let at = lemma_scalar_order(c, d);
    let a = encode_utf8(left);
    let b = encode_utf8(right);
    assert(a =~= encode_scalar(c) + encode_utf8(left.drop_first()));
    assert(b =~= encode_scalar(d) + encode_utf8(right.drop_first()));
    assert forall|i: int| 0 <= i < at implies a[i] == b[i] by {
        assert(encode_scalar(c)[i] == encode_scalar(d)[i]);
    }
    lemma_first_difference(a, b, at);
}

/// The order of texts is that of their UTF-8 bytes.
pub proof fn law_order_is_that_of_the_bytes(left: Seq<char>, right: Seq<char>)
    ensures
        precedes(left, right) == bytes_precede(encode_utf8(left), encode_utf8(right)),
    decreases left.len(),
{
    if left.len() == 0 || right.len() == 0 {
        if left.len() > 0 {
            assert(encode_scalar(left[0] as u32).len() > 0);
        }
        if right.len() > 0 {
            assert(encode_scalar(right[0] as u32).len() > 0);
        }
    } else if left[0] == right[0] {
        law_order_is_that_of_the_bytes(left.drop_first(), right.drop_first());
        lemma_same_beginning(
            encode_scalar(left[0] as u32),
            encode_utf8(left.drop_first()),
            encode_utf8(right.drop_first()),
        );
    } else if left[0] < right[0] {
        lemma_first_characters_decide(left, right);
    } else {
        lemma_first_characters_decide(right, left);
    }
}

/// Whether one text comes before another.
pub fn text_precedes(left: &str, right: &str) -> (before: bool)
    ensures
        before == precedes(left@, right@),
{
    let a = chars_of(left);
    let b = chars_of(right);
    let mut i: usize = 0;
    assert(a@.skip(0) =~= a@);
    assert(b@.skip(0) =~= b@);
    while i < a.len() && i < b.len()
        invariant
            i <= a.len(),
            i <= b.len(),
            a@ == left@,
            b@ == right@,
            precedes(a@, b@) == precedes(a@.skip(i as int), b@.skip(i as int)),
        decreases a.len() - i,
    {
        if a[i] != b[i] {
            return a[i] < b[i];
        }
        assert(a@.skip(i as int).drop_first() =~= a@.skip(i + 1));
        assert(b@.skip(i as int).drop_first() =~= b@.skip(i + 1));
        i += 1;
    }
    i < b.len()
}

} // verus!
