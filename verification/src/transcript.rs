//! Reading the report of the transcription program, and cutting a text
//! into words.

use crate::text::{chars_of, is_white_space, string_of};
use crate::validation::{spec_trim, trim_chars};
use vstd::prelude::*;

verus! {

/// Length of the line of dashes that frames the text in a report.
pub const MARKER_LENGTH: usize = 43;

/// Time allotted to each word of a transcription, in milliseconds.
pub const WORD_DURATION_MS: u64 = 500;

/// Confidence given to every transcription and every word of it, in
/// thousandths.
pub const DEFAULT_CONFIDENCE_PERMILLE: u32 = 950;

/// One word of a transcription with the stretch of time allotted to it.
#[derive(Clone, Debug, PartialEq, Eq)]
pub struct WordResult {
    pub word: String,
    pub start_time_ms: u64,
    pub end_time_ms: u64,
    pub confidence_permille: u32,
}

/// The line of dashes that frames the text in a report.
pub open spec fn marker() -> Seq<char> {
    Seq::new(MARKER_LENGTH as nat, |i: int| '-')
}

/// The line break.
pub open spec fn line_break() -> Seq<char> {
    seq!['\n']
}

/// `pattern` stands in `text` at offset `at`.
pub open spec fn occurs_at(text: Seq<char>, pattern: Seq<char>, at: int) -> bool {
    &&& 0 <= at
    &&& at + pattern.len() <= text.len()
    &&& text.subrange(at, at + pattern.len()) == pattern
}

/// The first offset from `from` on at which `pattern` stands in `text`.
pub open spec fn first_occurrence_from(text: Seq<char>, pattern: Seq<char>, from: int) -> Option<
    int,
>
    decreases text.len() - from + 1,
{
    if from < 0 || from + pattern.len() > text.len() {
        None
    } else if occurs_at(text, pattern, from) {
        Some(from)
    } else {
        first_occurrence_from(text, pattern, from + 1)
    }
}

/// The first occurrence is an occurrence, and none comes before it; where
/// there is no first occurrence, there is none at all.
pub proof fn lemma_first_occurrence_is_least(text: Seq<char>, pattern: Seq<char>, from: int)
    requires
        0 <= from,
    ensures
        match first_occurrence_from(text, pattern, from) {
            Some(at) => from <= at && occurs_at(text, pattern, at) && forall|j: int|
                from <= j < at ==> !occurs_at(text, pattern, j),
            None => forall|j: int| from <= j ==> !occurs_at(text, pattern, j),
        },
    decreases text.len() - from + 1,
{
    if from + pattern.len() <= text.len() && !occurs_at(text, pattern, from) {
        lemma_first_occurrence_is_least(text, pattern, from + 1);
    }
}

/// The text that a report of the transcription program frames: what
/// stands between the end of the line that holds the first marker and
/// the next marker, without the white space around it. There is none
/// where a marker or the line's end is missing, or where nothing but
/// white space is framed.
pub open spec fn spec_transcription(output: Seq<char>) -> Option<Seq<char>> {
    match first_occurrence_from(output, marker(), 0) {
        None => None,
        Some(opening) => match first_occurrence_from(output, line_break(), opening) {
            None => None,
            Some(line_end) => match first_occurrence_from(output, marker(), line_end + 1) {
                None => None,
                Some(closing) => {
                    let framed = spec_trim(output.subrange(line_end + 1, closing));
                    if framed.len() > 0 {
                        Some(framed)
                    } else {
                        None
                    }
                },
            },
        },
    }
}

/// The offset as a plain number.
pub open spec fn offset_view(offset: Option<usize>) -> Option<int> {
    match offset {
        Some(at) => Some(at as int),
        None => None,
    }
}

/// The text as plain characters.
pub open spec fn text_view(text: Option<String>) -> Option<Seq<char>> {
    match text {
        Some(text) => Some(text@),
        None => None,
    }
}

fn stands_at(text: &Vec<char>, pattern: &Vec<char>, at: usize) -> (stands: bool)
    requires
        at + pattern@.len() <= text@.len(),
    ensures
        stands == occurs_at(text@, pattern@, at as int),
{
    let total: usize = text.len();
    let mut k: usize = 0;
    while k < pattern.len()
        invariant
            k <= pattern@.len(),
            at + pattern@.len() <= text@.len(),
            total == text@.len(),
            text@.subrange(at as int, at + k) == pattern@.take(k as int),
        decreases pattern@.len() - k,
    {
        if text[at + k] != pattern[k] {
            assert(text@.subrange(at as int, at + pattern@.len())[k as int] != pattern@[k as int]);
            return false;
        }
        assert(text@.subrange(at as int, at + k + 1) =~= text@.subrange(at as int, at + k).push(
            text@[at + k],
        ));
        assert(pattern@.take(k as int + 1) =~= pattern@.take(k as int).push(pattern@[k as int]));
        k = k + 1;
    }
    assert(pattern@.take(pattern@.len() as int) =~= pattern@);
    true
}

/// Finds the first offset from `from` on at which `pattern` stands in
/// `text`.
pub fn find_from(text: &Vec<char>, pattern: &Vec<char>, from: usize) -> (found: Option<usize>)
    ensures
        offset_view(found) == first_occurrence_from(text@, pattern@, from as int),
{
    if pattern.len() > text.len() || from > text.len() - pattern.len() {
        return None;
    }
    let last: usize = text.len() - pattern.len();
    let mut at: usize = from;
    while at <= last
        invariant
            from <= at <= last,
            last == text@.len() - pattern@.len(),
            first_occurrence_from(text@, pattern@, from as int) == first_occurrence_from(
                text@,
                pattern@,
                at as int,
            ),
        decreases last - at,
    {
        if stands_at(text, pattern, at) {
            return Some(at);
        }
        if at == last {
            assert(first_occurrence_from(text@, pattern@, at as int + 1) is None);
            return None;
        }
        at = at + 1;
    }
    None
}

fn marker_chars() -> (dashes: Vec<char>)
    ensures
        dashes@ == marker(),
{
    let mut dashes: Vec<char> = Vec::new();
    let mut i: usize = 0;
    while i < MARKER_LENGTH
        invariant
            i <= MARKER_LENGTH,
            dashes@ == Seq::new(i as nat, |k: int| '-'),
        decreases MARKER_LENGTH - i,
    {
        dashes.push('-');
        assert(dashes@ =~= Seq::new((i + 1) as nat, |k: int| '-'));
        i = i + 1;
    }
    dashes
}

fn copy_chars(text: &Vec<char>, start: usize, end: usize) -> (part: Vec<char>)
    requires
        start <= end <= text@.len(),
    ensures
        part@ == text@.subrange(start as int, end as int),
{
    let mut part: Vec<char> = Vec::new();
    let mut i: usize = start;
    while i < end
        invariant
            start <= i <= end <= text@.len(),
            part@ == text@.subrange(start as int, i as int),
        decreases end - i,
    {
        part.push(text[i]);
        assert(part@ =~= text@.subrange(start as int, i as int + 1));
        i = i + 1;
    }
    part
}

/// Reads the transcribed text out of a report of the transcription
/// program.
pub fn parse_transcription_output(output: &str) -> (text: Option<String>)
    ensures
        text_view(text) == spec_transcription(output@),
{
    let chars = chars_of(output);
    let total: usize = chars.len();
    let dashes = marker_chars();
    let mut newline: Vec<char> = Vec::new();
    newline.push('\n');
    assert(newline@ =~= line_break());
    let opening = match find_from(&chars, &dashes, 0) {
        Some(opening) => opening,
        None => {
            return None;
        },
    };
    let line_end = match find_from(&chars, &newline, opening) {
        Some(line_end) => line_end,
        None => {
            return None;
        },
    };
    proof {
        lemma_first_occurrence_is_least(chars@, newline@, opening as int);
        lemma_first_occurrence_is_least(chars@, dashes@, line_end + 1);
    }
    let closing = match find_from(&chars, &dashes, line_end + 1) {
        Some(closing) => closing,
        None => {
            return None;
        },
    };
    let framed = trim_chars(&copy_chars(&chars, line_end + 1, closing));
    if framed.len() == 0 {
        None
    } else {
        Some(string_of(&framed))
    }
}

/// The offset at which the word that begins at `from` ends.
pub open spec fn word_end(text: Seq<char>, from: int) -> int
    decreases text.len() - from,
{
    if from < 0 || from >= text.len() || is_white_space(text[from]) {
        from
    } else {
        word_end(text, from + 1)
    }
}

/// The words of `text` from offset `from` on: the longest stretches
/// without white space, in order.
pub open spec fn words_from(text: Seq<char>, from: int) -> Seq<Seq<char>>
    decreases text.len() - from,
{
    if from < 0 || from >= text.len() {
        Seq::empty()
    } else if is_white_space(text[from]) {
        words_from(text, from + 1)
    } else {
        let end = if from < word_end(text, from) <= text.len() {
            word_end(text, from)
        } else {
            from + 1
        };
        seq![text.subrange(from, end)] + words_from(text, end)
    }
}

/// The words of `text`.
pub open spec fn spec_words(text: Seq<char>) -> Seq<Seq<char>> {
    words_from(text, 0)
}

/// The texts as plain characters.
pub open spec fn words_view(words: Seq<String>) -> Seq<Seq<char>> {
    Seq::new(words.len(), |i: int| words[i]@)
}

/// A word ends after its begin and within the text, no white space
/// stands in it, and white space or the text's end follows it.
pub proof fn lemma_word_end(text: Seq<char>, from: int)
    requires
        0 <= from < text.len(),
        !is_white_space(text[from]),
    ensures
        from < word_end(text, from) <= text.len(),
        forall|j: int| from <= j < word_end(text, from) ==> !is_white_space(text[j]),
        word_end(text, from) < text.len() ==> is_white_space(text[word_end(text, from)]),
    decreases text.len() - from,
{
    assert(word_end(text, from) == word_end(text, from + 1));
    if from + 1 < text.len() && !is_white_space(text[from + 1]) {
        lemma_word_end(text, from + 1);
    } else {
        assert(word_end(text, from + 1) == from + 1);
    }
}

/// Cuts `text` into its words.
pub fn split_words(text: &Vec<char>) -> (words: Vec<String>)
    ensures
        words_view(words@) == spec_words(text@),
{
    let mut words: Vec<String> = Vec::new();
    let mut at: usize = 0;
    assert(words_view(words@) =~= Seq::<Seq<char>>::empty());
    while at < text.len()
        invariant
            at <= text@.len(),
            spec_words(text@) == words_view(words@) + words_from(text@, at as int),
        decreases text@.len() - at,
    {
        if text[at].is_whitespace() {
            at = at + 1;
        } else {
            let mut end: usize = at + 1;
            while end < text.len() && !text[end].is_whitespace()
                invariant
                    at < end <= text@.len(),
                    !is_white_space(text@[at as int]),
                    word_end(text@, at as int) == word_end(text@, end as int),
                decreases text@.len() - end,
            {
                end = end + 1;
            }
            proof {
                lemma_word_end(text@, at as int);
            }
            let ghost before = words_view(words@);
            let word = string_of(&copy_chars(text, at, end));
            words.push(word);
            assert(words_view(words@) =~= before.push(text@.subrange(at as int, end as int)));
            assert(before + (seq![text@.subrange(at as int, end as int)] + words_from(
                text@,
                end as int,
            )) =~= before.push(text@.subrange(at as int, end as int)) + words_from(
                text@,
                end as int,
            ));
            at = end;
        }
    }
    assert(words_view(words@) + Seq::<Seq<char>>::empty() =~= words_view(words@));
    words
}

/// The time at which the word at place `place` begins: each word is
/// allotted the same duration. The time stops at `u64::MAX`.
pub open spec fn word_time(place: nat) -> u64 {
    if place * WORD_DURATION_MS > u64::MAX {
        u64::MAX
    } else {
        (place * WORD_DURATION_MS) as u64
    }
}

/// `words` are the words of `text`, in order, each with its stretch of
/// time and the default confidence.
pub open spec fn is_words_of(words: Seq<WordResult>, text: Seq<char>) -> bool {
    &&& words.len() == spec_words(text).len()
    &&& forall|i: int|
        0 <= i < words.len() ==> {
            &&& (#[trigger] words[i]).word@ == spec_words(text)[i]
            &&& words[i].start_time_ms == word_time(i as nat)
            &&& words[i].end_time_ms == word_time((i + 1) as nat)
            &&& words[i].confidence_permille == DEFAULT_CONFIDENCE_PERMILLE
        }
}

fn time_of_word(place: usize) -> (time: u64)
    ensures
        time == word_time(place as nat),
{
    let exact: u128 = place as u128 * WORD_DURATION_MS as u128;
    if exact > u64::MAX as u128 {
        u64::MAX
    } else {
        exact as u64
    }
}

/// Cuts `text` into its words and allots each its stretch of time.
pub fn word_results(text: &Vec<char>) -> (words: Vec<WordResult>)
    ensures
        is_words_of(words@, text@),
{
    let plain = split_words(text);
    let mut words: Vec<WordResult> = Vec::new();
    let mut i: usize = 0;
    while i < plain.len()
        invariant
            i <= plain@.len(),
            words@.len() == i,
            words_view(plain@) == spec_words(text@),
            forall|k: int|
                0 <= k < i ==> {
                    &&& (#[trigger] words@[k]).word@ == spec_words(text@)[k]
                    &&& words@[k].start_time_ms == word_time(k as nat)
                    &&& words@[k].end_time_ms == word_time((k + 1) as nat)
                    &&& words@[k].confidence_permille == DEFAULT_CONFIDENCE_PERMILLE
                },
        decreases plain@.len() - i,
    {
        assert(words_view(plain@)[i as int] == plain@[i as int]@);
        words.push(
            WordResult {
                word: plain[i].clone(),
                start_time_ms: time_of_word(i),
                end_time_ms: time_of_word(i + 1),
                confidence_permille: DEFAULT_CONFIDENCE_PERMILLE,
            },
        );
        i = i + 1;
    }
    assert(words_view(plain@).len() == plain@.len());
    words
}

} // verus!
