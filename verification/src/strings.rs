//! Character-sequence models of the string operations the pipeline is built
//! on: first-occurrence search and replacement, and mention escaping.

use vstd::prelude::*;
use vstd::utf8::{encode_utf8, encode_scalar};

verus! {

/// The length in bytes of one character's UTF-8 encoding.
pub open spec fn char_utf8_width(c: char) -> int {
    if c as u32 <= 0x7F {
        1
    } else if c as u32 <= 0x7FF {
        2
    } else if c as u32 <= 0xFFFF {
        3
    } else {
        4
    }
}

proof fn lemma_encode_scalar_len(c: char)
    ensures
        encode_scalar(c as u32).len() == char_utf8_width(c),
{
}

proof fn lemma_encode_utf8_len_ge(s: Seq<char>)
    ensures
        encode_utf8(s).len() >= s.len(),
    decreases s.len(),
{
    if s.len() > 0 {
        lemma_encode_scalar_len(s[0]);
        lemma_encode_utf8_len_ge(s.drop_first());
    }
}

/// Whether the UTF-8 encoding of `s` is longer than two bytes, put in
/// terms of the characters alone: three or more characters always are, two
/// are unless both are one byte wide, one only when it is at least three
/// bytes wide.
pub proof fn lemma_utf8_longer_than_two_bytes(s: Seq<char>)
    ensures
        encode_utf8(s).len() > 2 <==> (s.len() >= 3 || (s.len() == 2 && (char_utf8_width(s[0])
            >= 2 || char_utf8_width(s[1]) >= 2)) || (s.len() == 1 && char_utf8_width(s[0])
            >= 3)),
{
    reveal_with_fuel(encode_utf8, 4);
    if s.len() == 1 {
        lemma_encode_scalar_len(s[0]);
        assert(s.drop_first() =~= Seq::<char>::empty());
        assert(encode_utf8(s) == encode_scalar(s[0] as u32) + encode_utf8(s.drop_first()));
    } else if s.len() == 2 {
        lemma_encode_scalar_len(s[0]);
        lemma_encode_scalar_len(s[1]);
        assert(s.drop_first()[0] == s[1]);
        assert(s.drop_first().drop_first() =~= Seq::<char>::empty());
        assert(encode_utf8(s) == encode_scalar(s[0] as u32) + encode_scalar(s[1] as u32)
            + encode_utf8(s.drop_first().drop_first()));
    } else if s.len() >= 3 {
        lemma_encode_scalar_len(s[0]);
        lemma_encode_scalar_len(s.drop_first()[0]);
        lemma_encode_utf8_len_ge(s.drop_first().drop_first());
        assert(encode_utf8(s) == encode_scalar(s[0] as u32) + (encode_scalar(
            s.drop_first()[0] as u32,
        ) + encode_utf8(s.drop_first().drop_first())));
    }
}

/// The least index at or after `from` where `pat` occurs in `text`, or
/// `None` when it does not occur there.
pub open spec fn find_from(text: Seq<char>, pat: Seq<char>, from: int) -> Option<int>
    decreases text.len() - from,
{
    if from < 0 || from + pat.len() > text.len() {
        Option::None
    } else if pat.len() == 0 {
        Option::Some(from)
    } else if text.subrange(from, from + pat.len()) == pat {
        Option::Some(from)
    } else {
        find_from(text, pat, from + 1)
    }
}

/// Whether `pat` occurs anywhere in `text`.
pub open spec fn seq_contains_seq(text: Seq<char>, pat: Seq<char>) -> bool {
    find_from(text, pat, 0) is Some
}

/// `text` with the first occurrence of `pat` replaced by `to`; `text`
/// unchanged when `pat` does not occur.
pub open spec fn spec_replace_first(text: Seq<char>, pat: Seq<char>, to: Seq<char>) -> Seq<char> {
    match find_from(text, pat, 0) {
        Option::Some(i) => text.subrange(0, i) + to + text.subrange(
            i + pat.len() as int,
            text.len() as int,
        ),
        Option::None => text,
    }
}

/// Relies on `str::replacen` with count 1: replaces the first occurrence of
/// `pat` in `text` with `to`, and returns `text` unchanged when `pat` does
/// not occur.
#[verifier::external_body]
pub(crate) fn replace_first(text: &str, pat: &str, to: &str) -> (r: String)
    ensures
        r@ == spec_replace_first(text@, pat@, to@),
{
    text.replacen(pat, to, 1)
}

/// Relies on `String::push`: appends one character.
#[verifier::external_body]
pub(crate) fn push_char(s: &mut String, c: char)
    ensures
        final(s)@ == old(s)@.push(c),
{
    s.push(c);
}

/// Every `@` doubled into `@-`, all other characters unchanged.
pub open spec fn escape_mentions(s: Seq<char>) -> Seq<char>
    decreases s.len(),
{
    if s.len() == 0 {
        Seq::empty()
    } else if s.last() == '@' {
        escape_mentions(s.drop_last()) + seq!['@', '-']
    } else {
        escape_mentions(s.drop_last()) + seq![s.last()]
    }
}

/// The sanitized form of a nickname: mention escaping applies only when the
/// name contains `@` and its encoding is longer than two bytes; anything
/// else is returned unchanged.
pub open spec fn spec_format_mention(s: Seq<char>) -> Seq<char> {
    if s.contains('@') && encode_utf8(s).len() > 2 {
        escape_mentions(s)
    } else {
        s
    }
}

/// Escaping commutes with appending one character at the end.
pub proof fn lemma_escape_mentions_push(s: Seq<char>, c: char)
    ensures
        escape_mentions(s.push(c)) == escape_mentions(s) + (if c == '@' {
            seq!['@', '-']
        } else {
            seq![c]
        }),
{
    assert(s.push(c).last() == c);
    assert(s.push(c).drop_last() =~= s);
}

/// A step of iteration: the suffix of `s` from `i` is its element at `i`
/// followed by the suffix from `i + 1`.
pub proof fn lemma_skip_step<A>(s: Seq<A>, i: int)
    requires
        0 <= i < s.len(),
    ensures
        s.skip(i)[0] == s[i],
        s.skip(i).drop_first() =~= s.skip(i + 1),
{
}

} // verus!
