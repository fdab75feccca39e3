//! What trimming, decimal digits and searching mean, said of the characters.

use crate::text::{
    all_digits, contains_text, digits, digits_value, is_white_space, occurs_at, signed_value,
    trimmed,
};
use vstd::prelude::*;

verus! {

/// White space around a text does not matter: putting it there leaves what is inside.
pub proof fn law_white_space_around_is_dropped(s: Seq<char>, c: char)
    requires
        is_white_space(c),
    ensures
        trimmed(seq![c] + s) == trimmed(s),
        trimmed(s + seq![c]) == trimmed(s),
        trimmed(trimmed(s)) == trimmed(s),
    decreases s.len(),
{
    assert((seq![c] + s).drop_first() =~= s);
    if s.len() == 0 {
        assert(s + seq![c] =~= seq![c] + s);
    } else if is_white_space(s.first()) {
        assert((s + seq![c]).drop_first() =~= s.drop_first() + seq![c]);
        law_white_space_around_is_dropped(s.drop_first(), c);
    } else if is_white_space(s.last()) {
        law_white_space_around_is_dropped(s.drop_last(), c);
        assert((s + seq![c]).drop_last() =~= s);
        assert((s + seq![c]).first() == s.first());
    } else {
        assert((s + seq![c]).drop_last() =~= s);
        assert((s + seq![c]).first() == s.first());
    }
}

/// What is left of a text starts and ends with no white space, and only white space
/// was dropped: it is the text between two runs of it.
pub proof fn law_trimming_drops_white_space_alone(s: Seq<char>) -> (r: (int, int))
    ensures
        trimmed(s).len() > 0 ==> !is_white_space(trimmed(s).first()) && !is_white_space(
            trimmed(s).last(),
        ),
        0 <= r.0 <= r.1 <= s.len(),
        trimmed(s) == s.subrange(r.0, r.1),
        forall|i: int|
            0 <= i < r.0 || r.1 <= i < s.len() ==> is_white_space(#[trigger] s[i]),
    decreases s.len(),
{
    if s.len() == 0 {
        assert(s.subrange(0, 0) =~= s);
        (0, 0)
    } else if is_white_space(s.first()) {
        let rest = s.drop_first();
        let (a, b) = law_trimming_drops_white_space_alone(rest);
        assert(s.subrange(a + 1, b + 1) =~= rest.subrange(a, b));
        assert forall|i: int| 0 <= i < a + 1 || b + 1 <= i < s.len() implies is_white_space(
            #[trigger] s[i],
        ) by {
            if i > 0 {
                assert(s[i] == rest[i - 1]);
            }
        }
        (a + 1, b + 1)
    } else if is_white_space(s.last()) {
        let rest = s.drop_last();
        let (a, b) = law_trimming_drops_white_space_alone(rest);
        assert(s.subrange(a, b) =~= rest.subrange(a, b));
        assert forall|i: int| 0 <= i < a || b <= i < s.len() implies is_white_space(
            #[trigger] s[i],
        ) by {
            if i < s.len() - 1 {
                assert(s[i] == rest[i]);
            }
        }
        (a, b)
    } else {
        assert(s.subrange(0, s.len() as int) =~= s);
        (0, s.len() as int)
    }
}

/// White space is what Unicode calls so, in every range of characters, and nothing
/// between them is.
pub proof fn law_white_space(c: char)
    ensures
        c == ' ' || c == '\t' || c == '\n' || c == '\r' || c == '\u{b}' || c == '\u{c}'
            ==> is_white_space(c),
        c == '\u{85}' || c == '\u{a0}' || c == '\u{1680}' || c == '\u{2028}' || c == '\u{2029}'
            || c == '\u{202f}' || c == '\u{205f}' || c == '\u{3000}' ==> is_white_space(c),
        '\u{2000}' <= c <= '\u{200a}' ==> is_white_space(c),
        c < '\t' || '\u{e}' <= c <= '\u{1f}' || '!' <= c <= '\u{84}' ==> !is_white_space(c),
        '\u{86}' <= c <= '\u{9f}' || '\u{a1}' <= c <= '\u{167f}' ==> !is_white_space(c),
        '\u{1681}' <= c <= '\u{1fff}' || '\u{200b}' <= c <= '\u{2027}' ==> !is_white_space(c),
        '\u{202a}' <= c <= '\u{202e}' || '\u{2030}' <= c <= '\u{205e}' ==> !is_white_space(c),
        '\u{2060}' <= c <= '\u{2fff}' || c > '\u{3000}' ==> !is_white_space(c),
{
}

/// One more digit behind a number makes ten times that number and the digit.
pub proof fn law_digits_count_in_tens(s: Seq<char>, c: char)
    requires
        '0' <= c <= '9',
    ensures
        digits_value(Seq::empty()) == 0,
        digits_value(s.push(c)) == 10 * digits_value(s) + (c as int - '0' as int),
{
    assert(s.push(c).drop_last() =~= s);
}

/// The decimal notation of a number grows by its last digit as the number grows
/// tenfold, and that of a number below ten is that digit.
pub proof fn law_notation_counts_in_tens(n: nat, d: nat)
    requires
        d < 10,
    ensures
        digits(d) == seq![('0' as nat + d) as char],
        n > 0 ==> digits(10 * n + d) == digits(n).push(('0' as nat + d) as char),
{
}

/// A run of digits denotes its value as a signed number, behind a plus sign too; behind
/// a minus sign it denotes the negative. Beyond 64 bits it denotes nothing.
pub proof fn law_signs(s: Seq<char>)
    requires
        s.len() > 0,
        forall|i: int| 0 <= i < s.len() ==> '0' <= #[trigger] s[i] && s[i] <= '9',
    ensures
        digits_value(s) <= 0x7fff_ffff_ffff_ffff ==> signed_value(s) == Some(digits_value(s) as int)
            && signed_value(seq!['+'] + s) == Some(digits_value(s) as int),
        digits_value(s) > 0x7fff_ffff_ffff_ffff ==> signed_value(s) is None && signed_value(
            seq!['+'] + s,
        ) is None,
        digits_value(s) <= 0x8000_0000_0000_0000 ==> signed_value(seq!['-'] + s) == Some(
            -(digits_value(s) as int),
        ),
        digits_value(s) > 0x8000_0000_0000_0000 ==> signed_value(seq!['-'] + s) is None,
{
    assert('0' <= s[0]);
    assert((seq!['+'] + s).drop_first() =~= s);
    assert((seq!['-'] + s).drop_first() =~= s);
    assert(all_digits(s));
}

/// A text with any other character than digits behind its sign, or with no digit at
/// all, denotes no signed number: white space is not taken either.
pub proof fn law_other_texts_are_no_numbers(s: Seq<char>, i: int)
    ensures
        signed_value(Seq::empty()) is None,
        signed_value(seq!['-']) is None,
        signed_value(seq!['+']) is None,
        0 <= i < s.len() && !('0' <= s[i] <= '9') && (i > 0 || (s[0] != '-' && s[0] != '+'))
            ==> signed_value(s) is None,
{
    if 0 <= i < s.len() && !('0' <= s[i] <= '9') && (i > 0 || (s[0] != '-' && s[0] != '+')) {
        if s[0] == '-' || s[0] == '+' {
            assert(s.drop_first()[i - 1] == s[i]);
        }
    }
}

/// A text holds a word exactly where it is something, the word, and something.
pub proof fn law_words_are_found(before: Seq<char>, word: Seq<char>, after: Seq<char>)
    ensures
        contains_text(before + word + after, word),
{
    let s = before + word + after;
    assert(s.subrange(before.len() as int, (before.len() + word.len()) as int) =~= word);
    assert(occurs_at(s, word, before.len() as int));
}

/// Where a word is found the text falls into what stands before it, the word, and what
/// stands behind it.
pub proof fn law_found_words_are_there(s: Seq<char>, word: Seq<char>) -> (r: (
    Seq<char>,
    Seq<char>,
))
    requires
        contains_text(s, word),
    ensures
        s == r.0 + word + r.1,
{
    let i = choose|i: int| occurs_at(s, word, i);
    let before = s.take(i);
    let after = s.skip(i + word.len());
    assert(before + word + after =~= s) by {
        let found = s.subrange(i, i + word.len());
        assert(forall|k: int| 0 <= k < word.len() ==> found[k] == s[i + k]);
        assert(found == word);
    }
    (before, after)
}

} // verus!
