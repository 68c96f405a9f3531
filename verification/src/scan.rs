//! Taking texts apart: words, the first place of a separator, numbers.

use crate::text;
use crate::text::{chars_of, space, text_of};
use vstd::prelude::*;

verus! {

/// The runs of characters between white space.
pub open spec fn words_of(s: Seq<char>) -> Seq<Seq<char>>
    decreases s.len(),
{
    if s.len() == 0 {
        seq![]
    } else {
        let before = words_of(s.drop_last());
        if text::is_space(s.last()) {
            before
        } else if s.len() == 1 || text::is_space(s[s.len() - 2]) {
            before.push(seq![s.last()])
        } else {
            before.drop_last().push(before.last().push(s.last()))
        }
    }
}

/// A word ends where the text does, unless the text ends in white space.
proof fn lemma_last_word(s: Seq<char>)
    requires
        s.len() > 0,
        !text::is_space(s.last()),
    ensures
        words_of(s).len() > 0,
        words_of(s).last().len() > 0,
    decreases s.len(),
{
    if s.len() > 1 && !text::is_space(s[s.len() - 2]) {
        lemma_last_word(s.drop_last());
    }
}

/// The runs of characters between white space.
pub fn words(line: &str) -> (found: Vec<String>)
    ensures
        found.deep_view() == words_of(line@),
{
    let chars = chars_of(line);
    let mut found: Vec<String> = Vec::new();
    let mut word = String::new();
    let mut at: usize = 0;
    let mut inside: bool = false;
    assert(found.deep_view() =~= words_of(chars@.take(0)));
    while at < chars.len()
        invariant
            at <= chars@.len(),
            inside == (at > 0 && !text::is_space(chars@[at - 1])),
            inside ==> words_of(chars@.take(at as int)) == found.deep_view().push(word@),
            !inside ==> words_of(chars@.take(at as int)) == found.deep_view() && word@.len() == 0,
        decreases chars@.len() - at,
    {
        assert(chars@.take(at + 1).drop_last() =~= chars@.take(at as int));
        let c = chars[at];
        if space(c) {
            if inside {
                let ghost before = found.deep_view();
                found.push(word);
                assert(found.deep_view() =~= before.push(word@));
                word = String::new();
                inside = false;
            }
        } else {
            let ghost before = word@;
            let ghost so_far = words_of(chars@.take(at as int));
            word.push(c);
            proof {
                if inside {
                    assert(so_far.drop_last() =~= found.deep_view());
                } else {
                    assert(word@ =~= seq![c]);
                }
            }
            inside = true;
        }
        at += 1;
    }
    assert(chars@.take(at as int) =~= chars@);
    if inside {
        let ghost before = found.deep_view();
        found.push(word);
        assert(found.deep_view() =~= before.push(word@));
    }
    found
}

/// No word is empty, and none holds white space.
pub proof fn law_words_hold_no_space(s: Seq<char>)
    ensures
        forall|i: int| #![auto]
            0 <= i < words_of(s).len() ==> words_of(s)[i].len() > 0 && forall|j: int|
                0 <= j < words_of(s)[i].len() ==> !text::is_space(words_of(s)[i][j]),
    decreases s.len(),
{
    if s.len() > 0 {
        law_words_hold_no_space(s.drop_last());
        if s.len() > 1 && !text::is_space(s.last()) && !text::is_space(s[s.len() - 2]) {
            lemma_last_word(s.drop_last());
        }
    }
}

/// Whether `part` stands at place `at` of `s`.
pub open spec fn stands_at(s: Seq<char>, part: Seq<char>, at: int) -> bool {
    0 <= at && at + part.len() <= s.len() && s.subrange(at, at + part.len()) == part
}

/// The first place from `from` on at which `part` stands.
pub open spec fn place_from(s: Seq<char>, part: Seq<char>, from: int) -> Option<int>
    decreases s.len() + 1 - from,
{
    if from + part.len() > s.len() {
        None
    } else if stands_at(s, part, from) {
        Some(from)
    } else {
        place_from(s, part, from + 1)
    }
}

/// The first place at which `part` stands.
pub open spec fn place_of(s: Seq<char>, part: Seq<char>) -> Option<int> {
    place_from(s, part, 0)
}

/// The first place is one, and none comes before it.
pub proof fn lemma_place_from(s: Seq<char>, part: Seq<char>, from: int)
    requires
        0 <= from,
    ensures
        match place_from(s, part, from) {
            Some(at) => from <= at && stands_at(s, part, at) && forall|i: int|
                from <= i < at ==> !#[trigger] stands_at(s, part, i),
            None => forall|i: int| from <= i ==> !#[trigger] stands_at(s, part, i),
        },
    decreases s.len() + 1 - from,
{
    if from + part.len() <= s.len() && !stands_at(s, part, from) {
        lemma_place_from(s, part, from + 1);
    }
}

/// Whether `part` stands at place `at` of `chars`.
fn found_at(chars: &Vec<char>, part: &Vec<char>, at: usize) -> (yes: bool)
    requires
        at + part@.len() <= chars@.len(),
    ensures
        yes == stands_at(chars@, part@, at as int),
{
    let total: usize = chars.len();
    let mut i: usize = 0;
    while i < part.len()
        invariant
            i <= part@.len(),
            at + part@.len() <= chars@.len() == total,
            forall|j: int| 0 <= j < i ==> chars@[at + j] == part@[j],
        decreases part@.len() - i,
    {
        if chars[at + i] != part[i] {
            assert(chars@.subrange(at as int, at + part@.len())[i as int] != part@[i as int]);
            return false;
        }
        i += 1;
    }
    assert(chars@.subrange(at as int, at + part@.len()) =~= part@);
    true
}

/// The first place at which `part` stands.
fn place(chars: &Vec<char>, part: &Vec<char>) -> (at: Option<usize>)
    ensures
        match at {
            Some(at) => place_of(chars@, part@) == Some(at as int) && at + part@.len()
                <= chars@.len(),
            None => place_of(chars@, part@) is None,
        },
{
    let mut at: usize = 0;
    while part.len() <= chars.len() - at
        invariant
            at <= chars@.len(),
            place_of(chars@, part@) == place_from(chars@, part@, at as int),
        decreases chars@.len() - at,
    {
        if found_at(chars, part, at) {
            return Some(at);
        }
        assert(part@.len() == 0 ==> chars@.subrange(at as int, at as int) =~= part@);
        at += 1;
    }
    None
}

/// Whether `part` stands somewhere in `line`.
pub fn holds_text(line: &str, part: &str) -> (yes: bool)
    ensures
        yes == (place_of(line@, part@) is Some),
{
    place(&chars_of(line), &chars_of(part)).is_some()
}

/// What stands before and after the first `mark`.
pub open spec fn split_at(s: Seq<char>, mark: Seq<char>) -> Option<(Seq<char>, Seq<char>)> {
    match place_of(s, mark) {
        Some(at) => Some((s.take(at), s.skip(at + mark.len()))),
        None => None,
    }
}

/// What stands before and after the first `mark`.
pub fn split_once(line: &str, mark: &str) -> (parts: Option<(String, String)>)
    ensures
        parts.deep_view() == split_at(line@, mark@),
{
    let chars = chars_of(line);
    let part = chars_of(mark);
    proof {
        lemma_place_from(line@, mark@, 0);
    }
    match place(&chars, &part) {
        Some(at) => {
            let total: usize = chars.len();
            let before = text_of(&chars, 0, at);
            let after = text_of(&chars, at + part.len(), total);
            assert(before@ =~= line@.take(at as int));
            assert(after@ =~= line@.skip(at + part@.len()));
            Some((before, after))
        },
        None => None,
    }
}

/// Splitting loses nothing: the two parts and the mark between them are the
/// text, and the mark does not stand any earlier.
pub proof fn law_split_keeps_all(s: Seq<char>, mark: Seq<char>)
    requires
        split_at(s, mark) is Some,
    ensures
        split_at(s, mark)->Some_0.0 + mark + split_at(s, mark)->Some_0.1 == s,
        forall|i: int|
            0 <= i < split_at(s, mark)->Some_0.0.len() ==> !#[trigger] stands_at(s, mark, i),
{
    lemma_place_from(s, mark, 0);
    let (before, after) = split_at(s, mark)->Some_0;
    let at = place_of(s, mark)->Some_0;
    assert(s =~= before + s.subrange(at, at + mark.len()) + after);
}

/// The text without `prefix`, where it starts with it.
pub open spec fn without_prefix(s: Seq<char>, prefix: Seq<char>) -> Option<Seq<char>> {
    if prefix.is_prefix_of(s) {
        Some(s.skip(prefix.len() as int))
    } else {
        None
    }
}

/// The text without `prefix`, where it starts with it.
pub fn strip_prefix(line: &str, prefix: &str) -> (rest: Option<String>)
    ensures
        rest.deep_view() == without_prefix(line@, prefix@),
{
    if text::starts_with(line, prefix) {
        let chars = chars_of(line);
        let rest = text_of(&chars, prefix.unicode_len(), chars.len());
        assert(rest@ =~= line@.skip(prefix@.len() as int));
        Some(rest)
    } else {
        None
    }
}

/// Whether a character is a decimal digit.
pub open spec fn is_digit(c: char) -> bool {
    '0' <= c <= '9'
}

/// Whether a text holds decimal digits only.
pub open spec fn only_digits(s: Seq<char>) -> bool {
    forall|i: int| 0 <= i < s.len() ==> is_digit(s[i])
}

/// The number that decimal digits stand for.
pub open spec fn value_of(digits: Seq<char>) -> nat
    decreases digits.len(),
{
    if digits.len() == 0 {
        0
    } else {
        value_of(digits.drop_last()) * 10 + (digits.last() as nat - '0' as nat) as nat
    }
}

/// The number that a text writes in decimal, where it is no larger than
/// `max`. A plus sign may stand before the digits.
pub open spec fn number_of(s: Seq<char>, max: nat) -> Option<nat> {
    let digits = if s.len() > 0 && s[0] == '+' {
        s.drop_first()
    } else {
        s
    };
    if digits.len() > 0 && only_digits(digits) && value_of(digits) <= max {
        Some(value_of(digits))
    } else {
        None
    }
}

/// Longer digits stand for a number at least as large.
proof fn lemma_value_grows(digits: Seq<char>, count: int)
    requires
        0 <= count <= digits.len(),
    ensures
        value_of(digits.take(count)) <= value_of(digits),
    decreases digits.len() - count,
{
    if count < digits.len() {
        lemma_value_grows(digits, count + 1);
        assert(digits.take(count + 1).drop_last() =~= digits.take(count));
    } else {
        assert(digits.take(count) =~= digits);
    }
}

/// The number that a text writes in decimal, where it is no larger than
/// `max`.
pub fn read_number(line: &str, max: u64) -> (n: Option<u64>)
    ensures
        match n {
            Some(n) => number_of(line@, max as nat) == Some(n as nat),
            None => number_of(line@, max as nat) is None,
        },
{
    let chars = chars_of(line);
    let from: usize = if chars.len() > 0 && chars[0] == '+' {
        1
    } else {
        0
    };
    let ghost digits = chars@.skip(from as int);
    proof {
        if from == 1 {
            assert(digits =~= line@.drop_first());
        } else {
            assert(digits =~= line@);
        }
    }
    if from == chars.len() {
        return None;
    }
    let mut n: u64 = 0;
    let mut at: usize = from;
    assert(digits.take(0) =~= seq![]);
    assert(digits == if line@.len() > 0 && line@[0] == '+' {
        line@.drop_first()
    } else {
        line@
    });
    while at < chars.len()
        invariant
            from <= at <= chars@.len(),
            digits == chars@.skip(from as int),
            n == value_of(digits.take(at - from)),
            n <= max,
            forall|i: int| 0 <= i < at - from ==> is_digit(digits[i]),
            number_of(line@, max as nat) is Some ==> value_of(digits) <= max && only_digits(digits),
        decreases chars@.len() - at,
    {
        let c = chars[at];
        assert(c == digits[at - from]);
        if c < '0' || c > '9' {
            return None;
        }
        let d: u64 = (c as u32 - 48) as u64;
        assert(digits.take(at - from + 1).drop_last() =~= digits.take(at - from));
        assert(value_of(digits.take(at - from + 1)) == n * 10 + d);
        if n > max / 10 || d > max - n * 10 {
            proof {
                lemma_value_grows(digits, at - from + 1);
            }
            return None;
        }
        n = n * 10 + d;
        at += 1;
    }
    assert(digits.take(at - from) =~= digits);
    Some(n)
}

/// A number read back from its decimal digits is the number.
pub proof fn law_decimal_reads_back(n: nat, max: nat)
    requires
        n <= max,
    ensures
        number_of(text::decimal_of(n), max) == Some(n),
{
    lemma_decimal(n);
}

/// The decimal digits of a number are digits, and stand for it.
proof fn lemma_decimal(n: nat)
    ensures
        text::decimal_of(n).len() > 0,
        only_digits(text::decimal_of(n)),
        value_of(text::decimal_of(n)) == n,
    decreases n,
{
    let digits = text::decimal_of(n);
    if n < 10 {
        assert(digits.drop_last() =~= seq![]);
        assert(value_of(digits.drop_last()) == 0);
    } else {
        lemma_decimal(n / 10);
        assert(digits.drop_last() =~= text::decimal_of(n / 10));
    }
}

/// The decimal digits of a text.
pub open spec fn digits_of(s: Seq<char>) -> Seq<char>
    decreases s.len(),
{
    if s.len() == 0 {
        seq![]
    } else if is_digit(s.last()) {
        digits_of(s.drop_last()).push(s.last())
    } else {
        digits_of(s.drop_last())
    }
}

/// The decimal digits of a text.
pub fn digits(line: &str) -> (found: String)
    ensures
        found@ == digits_of(line@),
{
    let chars = chars_of(line);
    let mut found = String::new();
    let mut at: usize = 0;
    assert(found@ =~= digits_of(chars@.take(0)));
    while at < chars.len()
        invariant
            at <= chars@.len(),
            found@ == digits_of(chars@.take(at as int)),
        decreases chars@.len() - at,
    {
        assert(chars@.take(at + 1).drop_last() =~= chars@.take(at as int));
        let c = chars[at];
        if '0' <= c && c <= '9' {
            found.push(c);
        }
        at += 1;
    }
    assert(chars@.take(at as int) =~= chars@);
    found
}

/// The small letter of a capital one of `A` to `Z`.
pub open spec fn lower(c: char) -> char {
    if 'A' <= c <= 'Z' {
        (c as u32 + 32) as char
    } else {
        c
    }
}

/// Whether two texts are the same but for the case of the letters `A` to `Z`.
pub open spec fn same_but_case(a: Seq<char>, b: Seq<char>) -> bool {
    a.len() == b.len() && forall|i: int| 0 <= i < a.len() ==> lower(a[i]) == lower(b[i])
}

/// The small letter of a capital one.
fn small(c: char) -> (s: char)
    ensures
        s == lower(c),
{
    if 'A' <= c && c <= 'Z' {
        (c as u8 + 32) as char
    } else {
        c
    }
}

/// Whether two texts are the same but for the case of their ASCII letters.
pub fn same_ignoring_case(a: &str, b: &str) -> (same: bool)
    ensures
        same == same_but_case(a@, b@),
{
    let left = chars_of(a);
    let right = chars_of(b);
    if left.len() != right.len() {
        return false;
    }
    let mut at: usize = 0;
    while at < left.len()
        invariant
            at <= left@.len(),
            left@ == a@,
            right@ == b@,
            left@.len() == right@.len(),
            forall|i: int| 0 <= i < at ==> lower(left@[i]) == lower(right@[i]),
        decreases left@.len() - at,
    {
        if small(left[at]) != small(right[at]) {
            return false;
        }
        at += 1;
    }
    true
}

/// The text without the white space at its front.
pub fn trim_front(line: &str) -> (rest: String)
    ensures
        rest@ == text::trim_start(line@),
{
    let chars = chars_of(line);
    let from: usize = text::skip_space(&chars, 0, chars.len());
    assert(chars@.subrange(0, chars@.len() as int) =~= chars@);
    text_of(&chars, from, chars.len())
}

proof fn lemma_words_join(a: Seq<char>, c: char, b: Seq<char>)
    requires
        text::is_space(c),
    ensures
        words_of(a.push(c) + b) == words_of(a) + words_of(b),
    decreases b.len(),
{
    let s = a.push(c) + b;
    if b.len() == 0 {
        assert(s =~= a.push(c));
        assert(s.drop_last() =~= a);
        assert(words_of(a) + words_of(b) =~= words_of(a));
    } else {
        let front = b.drop_last();
        lemma_words_join(a, c, front);
        assert(s.drop_last() =~= a.push(c) + front);
        assert(s.last() == b.last());
        if !text::is_space(b.last()) {
            if b.len() == 1 {
                assert(s[s.len() - 2] == c);
            } else {
                assert(s[s.len() - 2] == b[b.len() - 2]);
                if !text::is_space(b[b.len() - 2]) {
                    lemma_last_word(front);
                    let both = words_of(a) + words_of(front);
                    assert(both.drop_last() =~= words_of(a) + words_of(front).drop_last());
                    assert(both.last() == words_of(front).last());
                }
            }
        }
        assert(words_of(s) =~= words_of(a) + words_of(b));
    }
}

proof fn lemma_one_word(w: Seq<char>)
    requires
        w.len() > 0,
        forall|i: int| 0 <= i < w.len() ==> !text::is_space(#[trigger] w[i]),
    ensures
        words_of(w) == seq![w],
    decreases w.len(),
{
    if w.len() == 1 {
        assert(w.drop_last() =~= seq![]);
        assert(w =~= seq![w.last()]);
        assert(words_of(w.drop_last()) =~= seq![]);
        assert(words_of(w) =~= seq![w]);
    } else {
        let front = w.drop_last();
        assert forall|i: int| 0 <= i < front.len() implies !text::is_space(#[trigger] front[i]) by {
            assert(front[i] == w[i]);
        }
        lemma_one_word(front);
        assert(!text::is_space(w[w.len() - 2]));
        assert(front.push(w.last()) =~= w);
        assert(words_of(w) =~= seq![w]);
    }
}

/// The words of a text are its runs of characters between white space, in order: a
/// text without white space is one word, an empty one has none, and a space between
/// two texts parts the words of the one from those of the other.
pub proof fn law_words_are_what_is_between_spaces(a: Seq<char>, c: char, b: Seq<char>)
    requires
        text::is_space(c),
    ensures
        words_of(a.push(c) + b) == words_of(a) + words_of(b),
        words_of(Seq::empty()).len() == 0,
        a.len() > 0 && (forall|i: int| 0 <= i < a.len() ==> !text::is_space(#[trigger] a[i]))
            ==> words_of(a) == seq![a],
{
    lemma_words_join(a, c, b);
    if a.len() > 0 && (forall|i: int| 0 <= i < a.len() ==> !text::is_space(#[trigger] a[i])) {
        lemma_one_word(a);
    }
}

/// A text is split wherever the mark stands in it, and only then.
pub proof fn law_split_finds_the_mark(s: Seq<char>, mark: Seq<char>)
    ensures
        split_at(s, mark) is Some <==> exists|before: Seq<char>, after: Seq<char>|
            s == #[trigger] (before + mark + after),
{
    lemma_place_from(s, mark, 0);
    if split_at(s, mark) is Some {
        law_split_keeps_all(s, mark);
        let (before, after) = split_at(s, mark)->Some_0;
        assert(s == before + mark + after);
    } else if exists|before: Seq<char>, after: Seq<char>| s == #[trigger] (before + mark + after) {
        let (before, after) = choose|before: Seq<char>, after: Seq<char>|
            s == #[trigger] (before + mark + after);
        let at = before.len() as int;
        assert(s.subrange(at, at + mark.len()) =~= mark);
        assert(stands_at(s, mark, at));
    }
}

/// The digits of a text are those of its characters from `0` to `9`, in order.
pub proof fn law_digits_are_kept_in_order(s: Seq<char>)
    ensures
        digits_of(s) == s.filter(|c: char| '0' <= c && c <= '9'),
    decreases s.len(),
{
    reveal(Seq::filter);
    if s.len() > 0 {
        law_digits_are_kept_in_order(s.drop_last());
    }
}

proof fn lemma_value_behind_zeros(count: nat, digits: Seq<char>)
    ensures
        value_of(text::zeros(count) + digits) == value_of(digits),
    decreases digits.len(), count,
{
    let s = text::zeros(count) + digits;
    if digits.len() > 0 {
        lemma_value_behind_zeros(count, digits.drop_last());
        assert(s.drop_last() =~= text::zeros(count) + digits.drop_last());
        assert(s.last() == digits.last());
    } else if count > 0 {
        lemma_value_behind_zeros((count - 1) as nat, digits);
        assert(s.drop_last() =~= text::zeros((count - 1) as nat) + digits);
        assert(s.last() == '0');
    } else {
        assert(s =~= digits);
    }
}

/// A number is read from its decimal digits, with a plus sign or zeros in front or
/// without; one above the limit is not.
pub proof fn law_number_is_read(n: nat, max: nat, count: nat)
    ensures
        ({
            let written = text::zeros(count) + text::decimal_of(n);
            let read = if n <= max {
                Some(n)
            } else {
                None
            };
            &&& number_of(written, max) == read
            &&& number_of(seq!['+'] + written, max) == read
        }),
{
    lemma_decimal(n);
    lemma_value_behind_zeros(count, text::decimal_of(n));
    let written = text::zeros(count) + text::decimal_of(n);
    assert forall|i: int| 0 <= i < written.len() implies is_digit(written[i]) by {
        if i >= count {
            assert(written[i] == text::decimal_of(n)[i - count]);
        }
    }
    assert(is_digit(written[0]));
    assert((seq!['+'] + written).drop_first() =~= written);
}

/// Nothing but digits, with at most a plus sign in front, is a number.
pub proof fn law_only_digits_are_a_number(s: Seq<char>, max: nat, i: int)
    requires
        0 <= i < s.len(),
        !('0' <= s[i] && s[i] <= '9'),
        i > 0 || s[i] != '+' || s.len() == 1,
    ensures
        number_of(s, max) is None,
        number_of(Seq::empty(), max) is None,
{
    if s[0] == '+' {
        if i > 0 {
            assert(s.drop_first()[i - 1] == s[i]);
        }
    }
}

/// A number is written in digits alone, without a zero in front but that of zero
/// itself; padded, it is as wide as asked or as wide as it is, and the same number.
pub proof fn law_number_is_written(n: nat, width: nat)
    ensures
        only_digits(text::decimal_of(n)),
        n > 0 ==> text::decimal_of(n)[0] != '0',
        n == 0 ==> text::decimal_of(n) == seq!['0'],
        only_digits(text::padded_of(n, width)),
        value_of(text::padded_of(n, width)) == n,
        text::padded_of(n, width).len() == if width < text::decimal_of(n).len() {
            text::decimal_of(n).len()
        } else {
            width
        },
{
    lemma_decimal(n);
    lemma_no_zero_in_front(n);
    let digits = text::decimal_of(n);
    let padded = text::padded_of(n, width);
    if digits.len() < width {
        lemma_value_behind_zeros((width - digits.len()) as nat, digits);
        assert forall|i: int| 0 <= i < padded.len() implies is_digit(padded[i]) by {
            if i >= width - digits.len() {
                assert(padded[i] == digits[i - (width - digits.len())]);
            }
        }
    }
}

proof fn lemma_no_zero_in_front(n: nat)
    ensures
        text::decimal_of(n).len() > 0,
        n > 0 ==> text::decimal_of(n)[0] != '0',
        n == 0 ==> text::decimal_of(n) == seq!['0'],
    decreases n,
{
    if n >= 10 {
        lemma_no_zero_in_front(n / 10);
        assert(text::decimal_of(n)[0] == text::decimal_of(n / 10)[0]);
    }
}

/// Two texts are the same but for case where each pair of characters is the same,
/// or is a letter from `A` to `Z` and its small one.
pub proof fn law_only_case_is_ignored(a: Seq<char>, b: Seq<char>)
    ensures
        same_but_case(a, b) <==> a.len() == b.len() && forall|i: int|
            0 <= i < a.len() ==> {
                ||| #[trigger] a[i] == b[i]
                ||| 'A' <= a[i] && a[i] <= 'Z' && b[i] as int == a[i] as int + 32
                ||| 'A' <= b[i] && b[i] <= 'Z' && a[i] as int == b[i] as int + 32
            },
{
    if a.len() == b.len() {
        assert forall|i: int| 0 <= i < a.len() implies (lower(a[i]) == lower(b[i])) == ({
            ||| #[trigger] a[i] == b[i]
            ||| 'A' <= a[i] && a[i] <= 'Z' && b[i] as int == a[i] as int + 32
            ||| 'A' <= b[i] && b[i] <= 'Z' && a[i] as int == b[i] as int + 32
        }) by {
            lemma_lower(a[i]);
            lemma_lower(b[i]);
        }
    }
}

proof fn lemma_lower(c: char)
    ensures
        'A' <= c <= 'Z' ==> lower(c) as int == c as int + 32,
        !('A' <= c <= 'Z') ==> lower(c) == c,
{
}

} // verus!
