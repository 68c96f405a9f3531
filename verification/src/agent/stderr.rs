//! What the log lines of a Hermes agent say of context compaction.
//!
//! The format is not ours: a line is searched for known marks, every field may
//! be missing, and a line that holds no mark says nothing.

use crate::assoc;
use crate::scan;
use crate::scan::{digits, holds_text, read_number, split_once, strip_prefix, trim_front, words};
use crate::table;
use crate::text;
use crate::text::{same_text, trim};
use vstd::prelude::*;

verus! {

/// What a line says. Lines without a mark say nothing; the caller still
/// mirrors them into its own log.
#[derive(Debug, Clone, PartialEq, Eq)]
pub enum HermesStderrSignal {
    CompactionStarted {
        hermes_session_id: Option<String>,
        messages_before: Option<u64>,
        tokens_approx_before: Option<u64>,
        model: Option<String>,
        focus: Option<String>,
    },
    /// A word to the user, without fields.
    CompactionStatus,
    /// Which model compresses, where it is not the usual one.
    AuxiliaryCompression {
        provider: Option<String>,
        model: Option<String>,
        base_url: Option<String>,
    },
    RepeatedCompressionWarning { count: Option<u64> },
    CompactionDone {
        hermes_session_id: Option<String>,
        messages_before: Option<u64>,
        messages_after: Option<u64>,
        tokens_approx_after: Option<u64>,
    },
}

/// What a line says, with texts and numbers as such.
pub enum SignalView {
    CompactionStarted {
        hermes_session_id: Option<Seq<char>>,
        messages_before: Option<nat>,
        tokens_approx_before: Option<nat>,
        model: Option<Seq<char>>,
        focus: Option<Seq<char>>,
    },
    CompactionStatus,
    AuxiliaryCompression {
        provider: Option<Seq<char>>,
        model: Option<Seq<char>>,
        base_url: Option<Seq<char>>,
    },
    RepeatedCompressionWarning { count: Option<nat> },
    CompactionDone {
        hermes_session_id: Option<Seq<char>>,
        messages_before: Option<nat>,
        messages_after: Option<nat>,
        tokens_approx_after: Option<nat>,
    },
}

/// A number that may be missing.
pub open spec fn count_view(n: Option<u64>) -> Option<nat> {
    match n {
        Some(n) => Some(n as nat),
        None => None,
    }
}

impl DeepView for HermesStderrSignal {
    type V = SignalView;

    open spec fn deep_view(&self) -> SignalView {
        match *self {
            HermesStderrSignal::CompactionStarted {
                hermes_session_id,
                messages_before,
                tokens_approx_before,
                model,
                focus,
            } => SignalView::CompactionStarted {
                hermes_session_id: hermes_session_id.deep_view(),
                messages_before: count_view(messages_before),
                tokens_approx_before: count_view(tokens_approx_before),
                model: model.deep_view(),
                focus: focus.deep_view(),
            },
            HermesStderrSignal::CompactionStatus => SignalView::CompactionStatus,
            HermesStderrSignal::AuxiliaryCompression { provider, model, base_url } =>
                SignalView::AuxiliaryCompression {
                provider: provider.deep_view(),
                model: model.deep_view(),
                base_url: base_url.deep_view(),
            },
            HermesStderrSignal::RepeatedCompressionWarning { count } =>
                SignalView::RepeatedCompressionWarning { count: count_view(count) },
            HermesStderrSignal::CompactionDone {
                hermes_session_id,
                messages_before,
                messages_after,
                tokens_approx_after,
            } => SignalView::CompactionDone {
                hermes_session_id: hermes_session_id.deep_view(),
                messages_before: count_view(messages_before),
                messages_after: count_view(messages_after),
                tokens_approx_after: count_view(tokens_approx_after),
            },
        }
    }
}

pub const MARKER_STARTED: &'static str = "context compression started:";

pub const MARKER_DONE: &'static str = "context compression done:";

pub const MARKER_STATUS: &'static str = "Compacting context";

pub const MARKER_AUXILIARY: &'static str = "Auxiliary compression:";

pub const MARKER_REPEATED: &'static str = "Session compressed";

/// What stands behind the first mark, without the white space between.
pub open spec fn behind(line: Seq<char>, mark: Seq<char>) -> Option<Seq<char>> {
    match scan::split_at(line, mark) {
        Some(parts) => Some(text::trim_start(parts.1)),
        None => None,
    }
}

/// What stands behind the first mark.
fn find_after(line: &str, mark: &str) -> (rest: Option<String>)
    ensures
        rest.deep_view() == behind(line@, mark@),
{
    match split_once(line, mark) {
        Some((_, after)) => Some(trim_front(after.as_str())),
        None => None,
    }
}

/// The `key=value` words among `words`. A word's key ends at its first equals
/// sign; a later word with the same key counts.
pub open spec fn fields_in(words: Seq<Seq<char>>) -> Seq<(Seq<char>, Seq<char>)>
    decreases words.len(),
{
    if words.len() == 0 {
        seq![]
    } else {
        let before = fields_in(words.drop_last());
        match scan::split_at(words.last(), "="@) {
            Some((key, value)) => assoc::store(before, key, value),
            None => before,
        }
    }
}

/// The `key=value` words of a line.
pub open spec fn fields_of(rest: Seq<char>) -> Seq<(Seq<char>, Seq<char>)> {
    fields_in(scan::words_of(rest))
}

/// The `key=value` words of a line.
fn key_value_fields(rest: &str) -> (fields: Vec<(String, String)>)
    ensures
        fields.deep_view() == fields_of(rest@),
{
    let found = words(rest);
    let ghost all = found.deep_view();
    let mut fields: Vec<(String, String)> = Vec::new();
    let mut at: usize = 0;
    assert(fields.deep_view() =~= fields_in(all.take(0)));
    while at < found.len()
        invariant
            at <= found@.len(),
            all == found.deep_view(),
            fields.deep_view() == fields_in(all.take(at as int)),
        decreases found@.len() - at,
    {
        assert(all.take(at + 1).drop_last() =~= all.take(at as int));
        assert(all.take(at + 1).last() == found@[at as int]@);
        match split_once(found[at].as_str(), "=") {
            Some((key, value)) => {
                table::put(&mut fields, key, value);
            },
            None => {},
        }
        at += 1;
    }
    assert(all.take(at as int) =~= all);
    fields
}

/// The number that the digits of a value make, whatever stands between them.
pub open spec fn number_in(raw: Seq<char>) -> Option<nat> {
    scan::number_of(scan::digits_of(raw), u64::MAX as nat)
}

/// The number that the digits of a value make, whatever stands between them.
fn parse_number(raw: &str) -> (n: Option<u64>)
    ensures
        count_view(n) == number_in(raw@),
{
    read_number(digits(raw).as_str(), u64::MAX)
}

/// A value, where there is one, as a number.
pub open spec fn number_at(fields: Seq<(Seq<char>, Seq<char>)>, key: Seq<char>) -> Option<nat> {
    match assoc::lookup(fields, key) {
        Some(raw) => number_in(raw),
        None => None,
    }
}

/// A value of the fields.
fn field(fields: &Vec<(String, String)>, key: &str) -> (value: Option<String>)
    ensures
        value.deep_view() == assoc::lookup(fields.deep_view(), key@),
{
    let key = key.to_owned();
    match table::get(fields, &key) {
        Some(value) => Some(value.clone()),
        None => None,
    }
}

/// A value of the fields, as a number.
fn number_field(fields: &Vec<(String, String)>, key: &str) -> (n: Option<u64>)
    ensures
        count_view(n) == number_at(fields.deep_view(), key@),
{
    match field(fields, key) {
        Some(raw) => parse_number(raw.as_str()),
        None => None,
    }
}

/// What a line says behind the mark of a compaction that starts. A focus of
/// `None` is none.
pub open spec fn started(rest: Seq<char>) -> SignalView {
    let fields = fields_of(rest);
    let focus = assoc::lookup(fields, "focus"@);
    SignalView::CompactionStarted {
        hermes_session_id: assoc::lookup(fields, "session"@),
        messages_before: number_at(fields, "messages"@),
        tokens_approx_before: number_at(fields, "tokens"@),
        model: assoc::lookup(fields, "model"@),
        focus: if focus == Some("None"@) {
            None
        } else {
            focus
        },
    }
}

/// What a line says of a compaction that starts.
fn parse_started(rest: &str) -> (signal: HermesStderrSignal)
    ensures
        signal.deep_view() == started(rest@),
{
    let fields = key_value_fields(rest);
    let focus = match field(&fields, "focus") {
        Some(focus) => if same_text(focus.as_str(), "None") {
            None
        } else {
            Some(focus)
        },
        None => None,
    };
    HermesStderrSignal::CompactionStarted {
        hermes_session_id: field(&fields, "session"),
        messages_before: number_field(&fields, "messages"),
        tokens_approx_before: number_field(&fields, "tokens"),
        model: field(&fields, "model"),
        focus,
    }
}

/// The numbers before and after an arrow, `->` or `\u{2192}`. Without an arrow
/// there is only a number before.
pub open spec fn arrow_pair(raw: Seq<char>) -> (Option<nat>, Option<nat>) {
    match scan::split_at(raw, "->"@) {
        Some((before, after)) => (number_in(before), number_in(after)),
        None => match scan::split_at(raw, "\u{2192}"@) {
            Some((before, after)) => (number_in(before), number_in(after)),
            None => (number_in(raw), None),
        },
    }
}

/// The numbers before and after an arrow.
fn parse_arrow_pair(raw: &str) -> (pair: (Option<u64>, Option<u64>))
    ensures
        (count_view(pair.0), count_view(pair.1)) == arrow_pair(raw@),
{
    let parts = match split_once(raw, "->") {
        Some(parts) => Some(parts),
        None => split_once(raw, "\u{2192}"),
    };
    match parts {
        Some((before, after)) => (parse_number(before.as_str()), parse_number(after.as_str())),
        None => (parse_number(raw), None),
    }
}

/// What a line says behind the mark of a compaction that is done.
pub open spec fn done(rest: Seq<char>) -> SignalView {
    let fields = fields_of(rest);
    let messages = match assoc::lookup(fields, "messages"@) {
        Some(raw) => arrow_pair(raw),
        None => (None, None),
    };
    SignalView::CompactionDone {
        hermes_session_id: assoc::lookup(fields, "session"@),
        messages_before: messages.0,
        messages_after: messages.1,
        tokens_approx_after: number_at(fields, "tokens"@),
    }
}

/// What a line says of a compaction that is done.
fn parse_done(rest: &str) -> (signal: HermesStderrSignal)
    ensures
        signal.deep_view() == done(rest@),
{
    let fields = key_value_fields(rest);
    let (before, after) = match field(&fields, "messages") {
        Some(raw) => parse_arrow_pair(raw.as_str()),
        None => (None, None),
    };
    HermesStderrSignal::CompactionDone {
        hermes_session_id: field(&fields, "session"),
        messages_before: before,
        messages_after: after,
        tokens_approx_after: number_field(&fields, "tokens"),
    }
}

/// The model in round brackets at the front, and what stands behind it. Without
/// one, or where the bracket does not close, nothing is taken off.
pub open spec fn bracketed(after: Seq<char>) -> (Option<Seq<char>>, Seq<char>) {
    match scan::without_prefix(after, "("@) {
        Some(inner) => match scan::split_at(inner, ")"@) {
            Some((model, rest)) => (Some(model), text::trim_start(rest)),
            None => (None, after),
        },
        None => (None, after),
    }
}

/// What a line of the form `using <provider> (<model>) at <base-url>` says.
pub open spec fn auxiliary(rest: Seq<char>) -> SignalView {
    let named = match scan::without_prefix(rest, "using "@) {
        Some(named) => named,
        None => rest,
    };
    let (provider, after) = match scan::split_at(named, " "@) {
        Some(parts) => parts,
        None => (named, ""@),
    };
    let (model, last) = bracketed(after);
    SignalView::AuxiliaryCompression {
        provider: Some(provider),
        model,
        base_url: match scan::without_prefix(last, "at "@) {
            Some(url) => if text::trimmed(url).len() > 0 {
                Some(text::trimmed(url))
            } else {
                None
            },
            None => None,
        },
    }
}

/// The model in round brackets at the front, and what stands behind it.
fn parse_bracketed(after: String) -> (parts: (Option<String>, String))
    ensures
        parts.deep_view() == bracketed(after@),
{
    match strip_prefix(after.as_str(), "(") {
        Some(inner) => match split_once(inner.as_str(), ")") {
            Some((model, rest)) => (Some(model), trim_front(rest.as_str())),
            None => (None, after),
        },
        None => (None, after),
    }
}

/// What a line of the form `using <provider> (<model>) at <base-url>` says.
fn parse_auxiliary(rest: &str) -> (signal: HermesStderrSignal)
    ensures
        signal.deep_view() == auxiliary(rest@),
{
    let named = match strip_prefix(rest, "using ") {
        Some(named) => named,
        None => rest.to_owned(),
    };
    let (provider, after) = match split_once(named.as_str(), " ") {
        Some(parts) => parts,
        None => (named, "".to_owned()),
    };
    let (model, last) = parse_bracketed(after);
    let base_url = match strip_prefix(last.as_str(), "at ") {
        Some(url) => {
            let url = trim(url.as_str());
            if url.as_str().unicode_len() > 0 {
                Some(url)
            } else {
                None
            }
        },
        None => None,
    };
    HermesStderrSignal::AuxiliaryCompression { provider: Some(provider), model, base_url }
}

/// What a line of the form `<count> times ...` says.
pub open spec fn repeated(rest: Seq<char>) -> SignalView {
    let words = scan::words_of(rest);
    SignalView::RepeatedCompressionWarning {
        count: if words.len() > 0 {
            scan::number_of(words[0], u64::MAX as nat)
        } else {
            None
        },
    }
}

/// What a line of the form `<count> times ...` says.
fn parse_repeated(rest: &str) -> (signal: HermesStderrSignal)
    ensures
        signal.deep_view() == repeated(rest@),
{
    let found = words(rest);
    assert(found.deep_view().len() == found@.len());
    let count: Option<u64> = if found.len() > 0 {
        assert(found.deep_view()[0] == found@[0]@);
        read_number(found[0].as_str(), u64::MAX)
    } else {
        None
    };
    HermesStderrSignal::RepeatedCompressionWarning { count }
}

/// What a line says: the first of the marks that it holds decides.
pub open spec fn signal_of(line: Seq<char>) -> Option<SignalView> {
    match behind(line, MARKER_STARTED@) {
        Some(rest) => Some(started(rest)),
        None => match behind(line, MARKER_DONE@) {
            Some(rest) => Some(done(rest)),
            None => match behind(line, MARKER_AUXILIARY@) {
                Some(rest) => Some(auxiliary(rest)),
                None => match behind(line, MARKER_REPEATED@) {
                    Some(rest) => Some(repeated(rest)),
                    None => if scan::place_of(line, MARKER_STATUS@) is Some {
                        Some(SignalView::CompactionStatus)
                    } else {
                        None
                    },
                },
            },
        },
    }
}

/// What a line says, where it holds one of the marks.
pub fn parse(line: &str) -> (signal: Option<HermesStderrSignal>)
    ensures
        signal.deep_view() == signal_of(line@),
{
    if let Some(rest) = find_after(line, MARKER_STARTED) {
        return Some(parse_started(rest.as_str()));
    }
    if let Some(rest) = find_after(line, MARKER_DONE) {
        return Some(parse_done(rest.as_str()));
    }
    if let Some(rest) = find_after(line, MARKER_AUXILIARY) {
        return Some(parse_auxiliary(rest.as_str()));
    }
    if let Some(rest) = find_after(line, MARKER_REPEATED) {
        return Some(parse_repeated(rest.as_str()));
    }
    if holds_text(line, MARKER_STATUS) {
        return Some(HermesStderrSignal::CompactionStatus);
    }
    None
}

/// A line says nothing exactly where it holds none of the marks.
pub proof fn law_silent_without_marks(line: Seq<char>)
    ensures
        signal_of(line) is None <==> scan::place_of(line, MARKER_STARTED@) is None
            && scan::place_of(line, MARKER_DONE@) is None && scan::place_of(
            line,
            MARKER_AUXILIARY@,
        ) is None && scan::place_of(line, MARKER_REPEATED@) is None && scan::place_of(
            line,
            MARKER_STATUS@,
        ) is None,
{
}

/// Both arrows give the same pair: the number before and the number after. A text
/// without an arrow has a number before only.
pub proof fn law_both_arrows_are_read(before: Seq<char>, after: Seq<char>)
    requires
        scan::place_of(before, "->"@) is None,
        scan::place_of(before, "\u{2192}"@) is None,
        scan::place_of(after, "->"@) is None,
        scan::place_of(after, "\u{2192}"@) is None,
    ensures
        arrow_pair(before + "->"@ + after) == (number_in(before), number_in(after)),
        arrow_pair(before + "\u{2192}"@ + after) == (number_in(before), number_in(after)),
        arrow_pair(before) == (number_in(before), None::<nat>),
{
    reveal_strlit("->");
    reveal_strlit("\u{2192}");
    let (ascii, arrow) = ("->"@, "\u{2192}"@);
    assert(ascii.len() == 2 && ascii[0] == '-' && ascii[1] == '>');
    assert(arrow.len() == 1 && arrow[0] == '\u{2192}');
    lemma_split_at_mark(before, ascii, after);
    lemma_split_at_mark(before, arrow, after);
    let s = before + arrow + after;
    scan::lemma_place_from(s, ascii, 0);
    scan::lemma_place_from(before, ascii, 0);
    scan::lemma_place_from(after, ascii, 0);
    if let Some(at) = scan::place_of(s, ascii) {
        assert(s.subrange(at, at + 2)[0] == s[at] && s.subrange(at, at + 2)[1] == s[at + 1]);
        if at + 2 <= before.len() {
            assert(before.subrange(at, at + 2) =~= ascii);
            assert(scan::stands_at(before, ascii, at));
        } else if at > before.len() {
            let there = at - before.len() - 1;
            assert(after.subrange(there, there + 2) =~= ascii);
            assert(scan::stands_at(after, ascii, there));
        }
        assert(false);
    }
}

/// A text is split at the mark that was put between its parts, where the part in
/// front does not hold it and the mark is an arrow.
proof fn lemma_split_at_mark(before: Seq<char>, mark: Seq<char>, after: Seq<char>)
    requires
        scan::place_of(before, mark) is None,
        mark.len() == 1 || mark.len() == 2 && mark[0] != mark[1],
    ensures
        scan::split_at(before + mark + after, mark) == Some((before, after)),
{
    let s = before + mark + after;
    let n = before.len() as int;
    scan::lemma_place_from(s, mark, 0);
    scan::lemma_place_from(before, mark, 0);
    assert(s.subrange(n, n + mark.len()) =~= mark);
    assert(scan::stands_at(s, mark, n));
    let at = scan::place_of(s, mark)->Some_0;
    if at < n {
        if at + mark.len() <= n {
            assert(before.subrange(at, at + mark.len()) =~= mark);
            assert(scan::stands_at(before, mark, at));
        } else {
            assert(s.subrange(at, at + mark.len())[1] == s[at + 1]);
            assert(s[n] == mark[0]);
        }
        assert(false);
    }
    assert(s.take(n) =~= before);
    assert(s.skip(n + mark.len()) =~= after);
}

/// What stands behind a mark is what follows it where it first stands, but for the
/// white space between.
pub proof fn law_what_is_behind_a_mark(line: Seq<char>, mark: Seq<char>)
    ensures
        behind(line, mark) is Some <==> exists|before: Seq<char>, after: Seq<char>|
            line == #[trigger] (before + mark + after),
        behind(line, mark) matches Some(rest) ==> {
            &&& exists|before: Seq<char>| line == #[trigger] (before + rest)
            &&& rest.len() > 0 ==> !text::is_space(rest[0])
            &&& scan::split_at(line, mark) matches Some((_, after)) && text::trim_start(after)
                == rest
        },
{
    scan::law_split_finds_the_mark(line, mark);
    if let Some((before, after)) = scan::split_at(line, mark) {
        scan::law_split_keeps_all(line, mark);
        text::law_front_is_trimmed(after);
        let rest = text::trim_start(after);
        let cut = choose|cut: int|
            0 <= cut <= after.len() && #[trigger] after.skip(cut) == rest && (forall|i: int|
                0 <= i < cut ==> text::is_space(#[trigger] after[i]));
        assert(line =~= (before + mark + after.take(cut)) + rest);
    }
}

/// Whether a word gives a key a value: the key stands before its first equals sign,
/// the value behind it.
pub open spec fn gives(word: Seq<char>, key: Seq<char>, value: Seq<char>) -> bool {
    scan::split_at(word, "="@) == Some((key, value))
}

/// Whether the last of the words that give a key a value gives it this one.
pub open spec fn last_gives(words: Seq<Seq<char>>, key: Seq<char>, value: Seq<char>) -> bool {
    exists|i: int|
        0 <= i < words.len() && gives(#[trigger] words[i], key, value) && forall|j: int, v: Seq<char>|
            i < j < words.len() ==> !#[trigger] gives(words[j], key, v)
}

/// A field has the value that the last word with its key gives it, and none where no
/// word has the key.
pub proof fn law_last_word_with_a_key_counts(
    words: Seq<Seq<char>>,
    key: Seq<char>,
    value: Seq<char>,
)
    ensures
        assoc::lookup(fields_in(words), key) == Some(value) <==> last_gives(words, key, value),
    decreases words.len(),
{
    if words.len() > 0 {
        let front = words.drop_last();
        let last = words.last();
        law_last_word_with_a_key_counts(front, key, value);
        let before = fields_in(front);
        match scan::split_at(last, "="@) {
            Some((k, v)) => {
                assoc::lemma_store(before, k, v, key);
                assert(gives(last, k, v));
                if k == key {
                    if v == value {
                        assert(gives(words[words.len() - 1], key, value));
                        assert(last_gives(words, key, value));
                    } else if last_gives(words, key, value) {
                        let i = choose|i: int|
                            0 <= i < words.len() && gives(#[trigger] words[i], key, value) && forall|
                                j: int,
                                v: Seq<char>,
                            |
                                i < j < words.len() ==> !#[trigger] gives(words[j], key, v);
                        if i < words.len() - 1 {
                            assert(gives(words[words.len() - 1], key, v));
                        }
                    }
                } else {
                    lemma_last_gives_front(words, key, value);
                }
            },
            None => {
                lemma_last_gives_front(words, key, value);
            },
        }
    }
}

proof fn lemma_last_gives_front(words: Seq<Seq<char>>, key: Seq<char>, value: Seq<char>)
    requires
        words.len() > 0,
        forall|v: Seq<char>| !gives(words.last(), key, v),
    ensures
        last_gives(words, key, value) == last_gives(words.drop_last(), key, value),
{
    let front = words.drop_last();
    assert(words[words.len() - 1] == words.last());
    if last_gives(words, key, value) {
        let i = choose|i: int|
            0 <= i < words.len() && gives(#[trigger] words[i], key, value) && forall|
                j: int,
                v: Seq<char>,
            |
                i < j < words.len() ==> !#[trigger] gives(words[j], key, v);
        assert(!gives(words.last(), key, value));
        assert(i < front.len());
        assert(gives(front[i], key, value));
        assert forall|j: int, v: Seq<char>|
            i < j < front.len() implies !#[trigger] gives(front[j], key, v) by {
            assert(front[j] == words[j]);
        }
    }
    if last_gives(front, key, value) {
        let i = choose|i: int|
            0 <= i < front.len() && gives(#[trigger] front[i], key, value) && forall|
                j: int,
                v: Seq<char>,
            |
                i < j < front.len() ==> !#[trigger] gives(front[j], key, v);
        assert(gives(words[i], key, value));
        assert forall|j: int, v: Seq<char>|
            i < j < words.len() implies !#[trigger] gives(words[j], key, v) by {
            if j < front.len() {
                assert(!gives(front[j], key, v));
            } else {
                assert(!gives(words.last(), key, v));
            }
        }
    }
}

/// The number in a value is the one that its digits write, whatever stands between
/// them.
pub proof fn law_number_in_a_value(raw: Seq<char>)
    ensures
        number_in(raw) == scan::number_of(
            raw.filter(|c: char| '0' <= c && c <= '9'),
            u64::MAX as nat,
        ),
{
    scan::law_digits_are_kept_in_order(raw);
}

/// A line with the mark of a compaction that starts says which session it is of, how
/// much there was before, and by which model and with which focus, each as the words
/// behind the mark give it.
pub proof fn law_start_is_read(line: Seq<char>, rest: Seq<char>)
    requires
        behind(line, "context compression started:"@) == Some(rest),
    ensures
        ({
            let words = scan::words_of(rest);
            let value = |key: Seq<char>| assoc::lookup(fields_in(words), key);
            match signal_of(line) {
                Some(SignalView::CompactionStarted {
                    hermes_session_id,
                    messages_before,
                    tokens_approx_before,
                    model,
                    focus,
                }) => {
                    &&& hermes_session_id == value("session"@)
                    &&& model == value("model"@)
                    &&& value("focus"@) == Some("None"@) ==> focus is None
                    &&& value("focus"@) != Some("None"@) ==> focus == value("focus"@)
                    &&& value("messages"@) matches Some(raw) ==> messages_before == number_in(raw)
                    &&& value("messages"@) is None ==> messages_before is None
                    &&& value("tokens"@) matches Some(raw) ==> tokens_approx_before == number_in(
                        raw,
                    )
                    &&& value("tokens"@) is None ==> tokens_approx_before is None
                },
                _ => false,
            }
        }),
{
}

/// A line with the mark of a compaction that is done, and not that of one that
/// starts, says which session it was of, how much there was before and after, and
/// how large the context is now.
pub proof fn law_end_is_read(line: Seq<char>, rest: Seq<char>)
    requires
        behind(line, "context compression started:"@) is None,
        behind(line, "context compression done:"@) == Some(rest),
    ensures
        ({
            let words = scan::words_of(rest);
            let value = |key: Seq<char>| assoc::lookup(fields_in(words), key);
            match signal_of(line) {
                Some(SignalView::CompactionDone {
                    hermes_session_id,
                    messages_before,
                    messages_after,
                    tokens_approx_after,
                }) => {
                    &&& hermes_session_id == value("session"@)
                    &&& value("messages"@) matches Some(raw) ==> (messages_before, messages_after)
                        == arrow_pair(raw)
                    &&& value("messages"@) is None ==> messages_before is None
                        && messages_after is None
                    &&& value("tokens"@) matches Some(raw) ==> tokens_approx_after == number_in(raw)
                    &&& value("tokens"@) is None ==> tokens_approx_after is None
                },
                _ => false,
            }
        }),
{
}

/// Of the other marks, that of the model that compresses comes before that of
/// repeated compression, and that one before the word to the user.
pub proof fn law_first_mark_decides(line: Seq<char>)
    requires
        behind(line, "context compression started:"@) is None,
        behind(line, "context compression done:"@) is None,
    ensures
        behind(line, "Auxiliary compression:"@) is Some ==> signal_of(line) matches Some(
            SignalView::AuxiliaryCompression { .. },
        ),
        behind(line, "Session compressed"@) matches Some(rest) ==> behind(
            line,
            "Auxiliary compression:"@,
        ) is None ==> signal_of(line) == Some(
            SignalView::RepeatedCompressionWarning {
                count: if scan::words_of(rest).len() > 0 {
                    scan::number_of(scan::words_of(rest)[0], u64::MAX as nat)
                } else {
                    None
                },
            },
        ),
        behind(line, "Auxiliary compression:"@) is None && behind(line, "Session compressed"@)
            is None && scan::place_of(line, "Compacting context"@) is Some ==> signal_of(line)
            == Some(SignalView::CompactionStatus),
{
}

/// A line that names a provider, a model in brackets and an address says just these;
/// one without brackets says no model.
pub proof fn law_compressing_model_is_read(
    line: Seq<char>,
    provider: Seq<char>,
    model: Seq<char>,
    url: Seq<char>,
)
    requires
        behind(line, "context compression started:"@) is None,
        behind(line, "context compression done:"@) is None,
        !provider.contains(' '),
        !model.contains(')'),
        text::trimmed(url).len() > 0,
    ensures
        behind(line, "Auxiliary compression:"@) == Some(
            "using "@ + provider + " "@ + "("@ + model + ")"@ + " "@ + "at "@ + url,
        ) ==> signal_of(line) == Some(
            SignalView::AuxiliaryCompression {
                provider: Some(provider),
                model: Some(model),
                base_url: Some(text::trimmed(url)),
            },
        ),
        behind(line, "Auxiliary compression:"@) == Some(
            "using "@ + provider + " "@ + "at "@ + url,
        ) ==> signal_of(line) == Some(
            SignalView::AuxiliaryCompression {
                provider: Some(provider),
                model: None,
                base_url: Some(text::trimmed(url)),
            },
        ),
{
    reveal_strlit("using ");
    reveal_strlit(" ");
    reveal_strlit("(");
    reveal_strlit(")");
    reveal_strlit("at ");
    let (using, blank, left, right, at) = ("using "@, " "@, "("@, ")"@, "at "@);
    assert(using.len() == 6 && blank.len() == 1 && blank[0] == ' ' && left.len() == 1 && left[0]
        == '(' && right.len() == 1 && right[0] == ')' && at.len() == 3 && at[0] == 'a');
    let place = at + url;
    let inner = model + right + (blank + place);
    let full = using + (provider + blank + (left + inner));
    let short = using + (provider + blank + place);
    assert(using + provider + blank + left + model + right + blank + at + url =~= full);
    assert(using + provider + blank + at + url =~= short);
    lemma_without_prefix(using, provider + blank + (left + inner));
    lemma_without_prefix(using, provider + blank + place);
    lemma_without_prefix(left, inner);
    lemma_without_prefix(at, url);
    lemma_no_place(provider, blank);
    lemma_no_place(model, right);
    lemma_split_at_mark(provider, blank, left + inner);
    lemma_split_at_mark(provider, blank, place);
    lemma_split_at_mark(model, right, blank + place);
    assert((blank + place).drop_first() =~= place);
    assert(place[0] == 'a' && !text::is_space('a') && text::is_space(' '));
    assert(text::trim_start(place) == place);
    assert(text::trim_start(blank + place) == place);
    assert(scan::without_prefix(place, left) is None) by {
        if left.is_prefix_of(place) {
            assert(place.take(1)[0] == left[0]);
        }
    }
}

proof fn lemma_without_prefix(prefix: Seq<char>, rest: Seq<char>)
    ensures
        scan::without_prefix(prefix + rest, prefix) == Some(rest),
{
    assert((prefix + rest).take(prefix.len() as int) =~= prefix);
    assert((prefix + rest).skip(prefix.len() as int) =~= rest);
}

proof fn lemma_no_place(s: Seq<char>, mark: Seq<char>)
    requires
        mark.len() == 1,
        !s.contains(mark[0]),
    ensures
        scan::place_of(s, mark) is None,
{
    scan::lemma_place_from(s, mark, 0);
    if let Some(at) = scan::place_of(s, mark) {
        assert(s.subrange(at, at + 1)[0] == s[at]);
        assert(s.contains(s[at]));
    }
}

} // verus!
