//! Text helpers: comparison, decimal numbers, and the scanning that the
//! parsers of this crate share.

use vstd::prelude::*;

verus! {

/// `String::push` puts the character at the end.
pub assume_specification[ std::string::String::push ](into: &mut std::string::String, c: char)
    ensures
        final(into)@ == old(into)@.push(c),
;

/// Whether two texts are the same.
pub fn same_text(a: &str, b: &str) -> (same: bool)
    ensures
        same == (a@ == b@),
{
    a.to_owned() == b.to_owned()
}

/// The character of a decimal digit.
pub open spec fn digit(d: nat) -> char {
    (('0' as u32) + d) as char
}

/// A number in decimal, without leading zeros.
pub open spec fn decimal_of(n: nat) -> Seq<char>
    decreases n,
{
    if n < 10 {
        seq![digit(n)]
    } else {
        decimal_of(n / 10).push(digit(n % 10))
    }
}

/// A number in decimal, without leading zeros.
pub fn decimal(n: u64) -> (text: String)
    ensures
        text@ == decimal_of(n as nat),
    decreases n,
{
    let c: char = (48u8 + (n % 10) as u8) as char;
    let mut text = if n < 10 {
        String::new()
    } else {
        decimal(n / 10)
    };
    text.push(c);
    text
}

/// An integer in decimal, with a minus sign where it is below zero.
pub open spec fn integer_of(n: int) -> Seq<char> {
    if n < 0 {
        seq!['-'] + decimal_of((-n) as nat)
    } else {
        decimal_of(n as nat)
    }
}

/// An integer in decimal, with a minus sign where it is below zero.
pub fn integer(n: i64) -> (text: String)
    ensures
        text@ == integer_of(n as int),
{
    if n < 0 {
        let mut text = String::new();
        text.push('-');
        assert(text@ =~= seq!['-']);
        let digits = decimal((-1 - n) as u64 + 1);
        text.append(digits.as_str());
        text
    } else {
        decimal(n as u64)
    }
}

/// As many zeros.
pub open spec fn zeros(count: nat) -> Seq<char> {
    Seq::new(count, |i: int| '0')
}

/// A number in decimal, with zeros in front where it has fewer than `width`
/// digits.
pub open spec fn padded_of(n: nat, width: nat) -> Seq<char> {
    let digits = decimal_of(n);
    if digits.len() < width {
        zeros((width - digits.len()) as nat) + digits
    } else {
        digits
    }
}

/// A number in decimal, with zeros in front where it has fewer than `width`
/// digits.
pub fn padded(n: u64, width: usize) -> (text: String)
    ensures
        text@ == padded_of(n as nat, width as nat),
{
    let digits = decimal(n);
    let count: usize = digits.as_str().unicode_len();
    let mut text = String::new();
    let mut have: usize = count;
    assert(text@ =~= zeros(0));
    while have < width
        invariant
            count <= have,
            have <= width || have == count,
            text@ == zeros((have - count) as nat),
        decreases width - have,
    {
        text.push('0');
        have += 1;
        assert(text@ =~= zeros((have - count) as nat));
    }
    assert(count >= width ==> zeros(0) + digits@ =~= digits@);
    text.append(digits.as_str());
    text
}

/// The text as `format!("{text:?}")` shows it.
pub uninterp spec fn debug_text(s: Seq<char>) -> Seq<char>;

/// The text as the `Debug` of `str` shows it: in double quotes, with what
/// cannot be shown as it is escaped. Which characters those are is not said
/// here.
#[verifier::external_body]
pub(crate) fn debug(line: &str) -> (shown: String)
    ensures
        shown@ == debug_text(line@),
{
    format!("{line:?}")
}

/// The characters that count as white space: the ones with the Unicode
/// property `White_Space`.
pub open spec fn is_space(c: char) -> bool {
    let n = c as u32;
    ||| 0x09 <= n <= 0x0d
    ||| n == 0x20 || n == 0x85 || n == 0xa0 || n == 0x1680
    ||| 0x2000 <= n <= 0x200a
    ||| n == 0x2028 || n == 0x2029 || n == 0x202f || n == 0x205f || n == 0x3000
}

/// Whether a character counts as white space.
pub fn space(c: char) -> (yes: bool)
    ensures
        yes == is_space(c),
{
    let n: u32 = c as u32;
    (0x09 <= n && n <= 0x0d) || n == 0x20 || n == 0x85 || n == 0xa0 || n == 0x1680 || (0x2000 <= n
        && n <= 0x200a) || n == 0x2028 || n == 0x2029 || n == 0x202f || n == 0x205f || n == 0x3000
}

/// The text without the white space at its front.
pub open spec fn trim_start(s: Seq<char>) -> Seq<char>
    decreases s.len(),
{
    if s.len() > 0 && is_space(s[0]) {
        trim_start(s.drop_first())
    } else {
        s
    }
}

/// The text without the white space at its end.
pub open spec fn trim_end(s: Seq<char>) -> Seq<char>
    decreases s.len(),
{
    if s.len() > 0 && is_space(s.last()) {
        trim_end(s.drop_last())
    } else {
        s
    }
}

/// The text without the white space around it.
pub open spec fn trimmed(s: Seq<char>) -> Seq<char> {
    trim_end(trim_start(s))
}

/// The characters of a text.
pub fn chars_of(text: &str) -> (chars: Vec<char>)
    ensures
        chars@ == text@,
{
    let mut chars: Vec<char> = Vec::new();
    for c in it: text.chars()
        invariant
            it.seq() == text@,
            chars@ == it.seq().take(it.index()),
    {
        chars.push(c);
    }
    chars
}

/// The text that some of the characters make.
pub fn text_of(chars: &Vec<char>, from: usize, to: usize) -> (text: String)
    requires
        from <= to <= chars@.len(),
    ensures
        text@ == chars@.subrange(from as int, to as int),
{
    let mut text = String::new();
    let mut at: usize = from;
    while at < to
        invariant
            from <= at <= to <= chars@.len(),
            text@ == chars@.subrange(from as int, at as int),
        decreases to - at,
    {
        text.push(chars[at]);
        at += 1;
        assert(text@ =~= chars@.subrange(from as int, at as int));
    }
    text
}

/// How many characters of white space stand from `from` on.
pub fn skip_space(chars: &Vec<char>, from: usize, to: usize) -> (at: usize)
    requires
        from <= to <= chars@.len(),
    ensures
        from <= at <= to,
        chars@.subrange(at as int, to as int) == trim_start(chars@.subrange(from as int, to as int)),
        at < to ==> !is_space(chars@[at as int]),
        forall|i: int| from <= i < at ==> is_space(chars@[i]),
{
    let mut at: usize = from;
    while at < to && space(chars[at])
        invariant
            from <= at <= to <= chars@.len(),
            forall|i: int| from <= i < at ==> is_space(chars@[i]),
            trim_start(chars@.subrange(from as int, to as int)) == trim_start(
                chars@.subrange(at as int, to as int),
            ),
        decreases to - at,
    {
        assert(chars@.subrange(at as int, to as int).drop_first() =~= chars@.subrange(
            at + 1,
            to as int,
        ));
        at += 1;
    }
    at
}

/// The text without the white space around it.
pub fn trim(text: &str) -> (inner: String)
    ensures
        inner@ == trimmed(text@),
{
    let chars = chars_of(text);
    let from: usize = skip_space(&chars, 0, chars.len());
    assert(chars@.subrange(0, chars@.len() as int) =~= chars@);
    let mut to: usize = chars.len();
    while to > from && space(chars[to - 1])
        invariant
            from <= to <= chars@.len(),
            trim_end(chars@.subrange(from as int, chars@.len() as int)) == trim_end(
                chars@.subrange(from as int, to as int),
            ),
        decreases to,
    {
        assert(chars@.subrange(from as int, to as int).drop_last() =~= chars@.subrange(
            from as int,
            to - 1,
        ));
        to -= 1;
    }
    text_of(&chars, from, to)
}

/// Whether `text` starts with `prefix`.
pub fn starts_with(text: &str, prefix: &str) -> (yes: bool)
    ensures
        yes == prefix@.is_prefix_of(text@),
{
    let chars = chars_of(text);
    let wanted = chars_of(prefix);
    if wanted.len() > chars.len() {
        return false;
    }
    let mut at: usize = 0;
    while at < wanted.len()
        invariant
            at <= wanted@.len() <= chars@.len(),
            forall|i: int| 0 <= i < at ==> wanted@[i] == chars@[i],
            wanted@ == prefix@,
            chars@ == text@,
        decreases wanted@.len() - at,
    {
        if chars[at] != wanted[at] {
            assert(text@.take(prefix@.len() as int)[at as int] != prefix@[at as int]);
            return false;
        }
        at += 1;
    }
    assert(prefix@ =~= text@.take(prefix@.len() as int));
    true
}

/// The order of texts: character by character, and a text before every longer
/// one that it begins.
pub open spec fn precedes(a: Seq<char>, b: Seq<char>) -> bool
    decreases a.len(),
{
    if b.len() == 0 {
        false
    } else if a.len() == 0 {
        true
    } else if a[0] == b[0] {
        precedes(a.drop_first(), b.drop_first())
    } else {
        a[0] < b[0]
    }
}

/// Whether `a` comes before `b`.
pub fn text_precedes(a: &str, b: &str) -> (yes: bool)
    ensures
        yes == precedes(a@, b@),
{
    let left = chars_of(a);
    let right = chars_of(b);
    let mut at: usize = 0;
    assert(left@.skip(0) =~= left@);
    assert(right@.skip(0) =~= right@);
    while at < left.len() && at < right.len()
        invariant
            at <= left@.len(),
            at <= right@.len(),
            left@ == a@,
            right@ == b@,
            precedes(left@, right@) == precedes(left@.skip(at as int), right@.skip(at as int)),
        decreases left@.len() - at,
    {
        if left[at] != right[at] {
            return left[at] < right[at];
        }
        assert(left@.skip(at as int).drop_first() =~= left@.skip(at + 1));
        assert(right@.skip(at as int).drop_first() =~= right@.skip(at + 1));
        at += 1;
    }
    at < right.len()
}

/// The order of texts is one: of two different texts, one comes first, and
/// the order carries over.
pub proof fn lemma_precedes_total(a: Seq<char>, b: Seq<char>)
    ensures
        !(precedes(a, b) && precedes(b, a)),
        a != b ==> precedes(a, b) || precedes(b, a),
        !precedes(a, a),
    decreases a.len(),
{
    if a.len() > 0 && b.len() > 0 {
        lemma_precedes_total(a.drop_first(), b.drop_first());
        if a[0] == b[0] && a.drop_first() == b.drop_first() {
            assert(a =~= seq![a[0]] + a.drop_first());
            assert(b =~= seq![b[0]] + b.drop_first());
        }
    } else if a.len() > 0 {
        lemma_precedes_total(a.drop_first(), a.drop_first());
    } else if a.len() == 0 && b.len() == 0 {
        assert(a =~= b);
    }
}

/// The order of texts carries over.
pub proof fn lemma_precedes_transitive(a: Seq<char>, b: Seq<char>, c: Seq<char>)
    requires
        precedes(a, b),
        precedes(b, c),
    ensures
        precedes(a, c),
    decreases a.len(),
{
    if a.len() > 0 && a[0] == b[0] && b[0] == c[0] {
        lemma_precedes_transitive(a.drop_first(), b.drop_first(), c.drop_first());
    }
}

proof fn lemma_trim_start(s: Seq<char>) -> (cut: int)
    ensures
        0 <= cut <= s.len(),
        trim_start(s) == s.skip(cut),
        forall|i: int| 0 <= i < cut ==> is_space(#[trigger] s[i]),
        cut < s.len() ==> !is_space(s[cut]),
    decreases s.len(),
{
    if s.len() > 0 && is_space(s[0]) {
        let rest = s.drop_first();
        let cut = lemma_trim_start(rest);
        assert(rest.skip(cut) =~= s.skip(cut + 1));
        assert forall|i: int| 0 <= i < cut + 1 implies is_space(#[trigger] s[i]) by {
            if i > 0 {
                assert(rest[i - 1] == s[i]);
            }
        }
        cut + 1
    } else {
        assert(s.skip(0) =~= s);
        0
    }
}

proof fn lemma_trim_end(s: Seq<char>) -> (end: int)
    ensures
        0 <= end <= s.len(),
        trim_end(s) == s.take(end),
        forall|i: int| end <= i < s.len() ==> is_space(#[trigger] s[i]),
        end > 0 ==> !is_space(s[end - 1]),
    decreases s.len(),
{
    if s.len() > 0 && is_space(s.last()) {
        let rest = s.drop_last();
        let end = lemma_trim_end(rest);
        assert(rest.take(end) =~= s.take(end));
        assert forall|i: int| end <= i < s.len() implies is_space(#[trigger] s[i]) by {
            if i < rest.len() {
                assert(rest[i] == s[i]);
            }
        }
        end
    } else {
        assert(s.take(s.len() as int) =~= s);
        s.len() as int
    }
}

/// Trimming takes away the white space in front and behind and nothing else: the
/// text is what is left between white space, and what is left neither begins nor
/// ends with any.
pub proof fn law_trimmed_is_what_is_between(s: Seq<char>)
    ensures
        exists|from: int, to: int|
            0 <= from <= to <= s.len() && #[trigger] s.subrange(from, to) == trimmed(s) && (
            forall|i: int| 0 <= i < from || to <= i < s.len() ==> is_space(#[trigger] s[i])),
        trimmed(s).len() > 0 ==> !is_space(trimmed(s)[0]) && !is_space(trimmed(s).last()),
{
    let from = lemma_trim_start(s);
    let rest = s.skip(from);
    let kept = lemma_trim_end(rest);
    assert(s.subrange(from, from + kept) =~= trimmed(s));
    assert forall|i: int| 0 <= i < from || from + kept <= i < s.len() implies is_space(
        #[trigger] s[i],
    ) by {
        if i >= from + kept {
            assert(rest[i - from] == s[i]);
        }
    }
}

/// Which of two texts comes first is decided where they first differ: by the two
/// characters there, or, where one of them ends there, by that.
pub proof fn law_first_difference_decides(
    front: Seq<char>,
    x: char,
    y: char,
    a: Seq<char>,
    b: Seq<char>,
)
    requires
        x != y,
    ensures
        precedes(front + seq![x] + a, front + seq![y] + b) == (x < y),
        precedes(front, front + seq![x] + a),
        !precedes(front + seq![x] + a, front),
        !precedes(front, front),
    decreases front.len(),
{
    let left = front + seq![x] + a;
    let right = front + seq![y] + b;
    if front.len() > 0 {
        let rest = front.drop_first();
        law_first_difference_decides(rest, x, y, a, b);
        assert(left.drop_first() =~= rest + seq![x] + a);
        assert(right.drop_first() =~= rest + seq![y] + b);
    }
}

/// White space is taken off the front, and nothing else.
pub proof fn law_front_is_trimmed(s: Seq<char>)
    ensures
        exists|cut: int|
            0 <= cut <= s.len() && #[trigger] s.skip(cut) == trim_start(s) && (forall|i: int|
                0 <= i < cut ==> is_space(#[trigger] s[i])),
        trim_start(s).len() > 0 ==> !is_space(trim_start(s)[0]),
{
    let cut = lemma_trim_start(s);
    assert(s.skip(cut) == trim_start(s));
}

/// A blank, a tab and a line end are white space; a letter, a digit or another
/// visible character of ASCII is none.
pub proof fn law_what_counts_as_space(c: char)
    ensures
        c as int <= 127 ==> (is_space(c) <==> c == ' ' || 9 <= c as int <= 13),
{
}

} // verus!
