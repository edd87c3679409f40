//! Normalisation of transcribed text and its comparison with the text that
//! was expected.

use crate::text::{chars_equal, chars_of, is_white_space, lowercase_of, string_of};
use vstd::prelude::*;
use vstd::string::StringExecFns;

verus! {

/// How close a transcription came to the expected text.
#[derive(Clone, Copy, Debug, PartialEq, Eq, Structural)]
pub enum ValidationType {
    /// Equal after normalisation.
    ExactMatch,
    /// Similarity above four fifths: accepted.
    FuzzyMatch,
    /// Similarity above three fifths, up to four fifths: close, not accepted.
    PhoneticMatch,
    /// Similarity of three fifths or less.
    NoMatch,
}

/// A similarity score held exactly: one less `distance` over `longest`,
/// and one where `longest` is zero.
#[derive(Clone, Copy, Debug, PartialEq, Eq, Structural)]
pub struct Similarity {
    /// Edit distance between the two normalised texts, in characters.
    pub distance: usize,
    /// Length of the longer normalised text, in characters.
    pub longest: usize,
}

/// The outcome of one comparison.
#[derive(Clone, Debug, PartialEq, Eq)]
pub struct ValidationResult {
    pub transcribed_word: String,
    pub expected_word: String,
    pub is_match: bool,
    pub similarity_score: Similarity,
    pub suggestion: Option<String>,
    pub validation_type: ValidationType,
}

/// Arabic diacritic marks: U+064B to U+065F, U+0670, U+06D6 to U+06ED.
pub open spec fn is_diacritic(c: char) -> bool {
    ||| 0x064B <= c as u32 <= 0x065F
    ||| c as u32 == 0x0670
    ||| 0x06D6 <= c as u32 <= 0x06ED
}

/// `text` without its diacritic marks.
pub open spec fn strip_diacritics(text: Seq<char>) -> Seq<char> {
    text.filter(|c: char| !is_diacritic(c))
}

/// `text` without the white space it begins with.
pub open spec fn trim_start(text: Seq<char>) -> Seq<char>
    decreases text.len(),
{
    if text.len() > 0 && is_white_space(text.first()) {
        trim_start(text.drop_first())
    } else {
        text
    }
}

/// `text` without the white space it ends with.
pub open spec fn trim_end(text: Seq<char>) -> Seq<char>
    decreases text.len(),
{
    if text.len() > 0 && is_white_space(text.last()) {
        trim_end(text.drop_last())
    } else {
        text
    }
}

/// `text` without the white space around it.
pub open spec fn spec_trim(text: Seq<char>) -> Seq<char> {
    trim_end(trim_start(text))
}

/// The normal form under which texts are compared: diacritics removed,
/// then surrounding white space removed, then lower case.
pub open spec fn spec_normalize(text: Seq<char>) -> Seq<char> {
    lowercase_of(spec_trim(strip_diacritics(text)))
}

/// The least of three numbers.
pub open spec fn min3(x: nat, y: nat, z: nat) -> nat {
    if x <= y && x <= z {
        x
    } else if y <= z {
        y
    } else {
        z
    }
}

/// Levenshtein distance: the least number of single-character insertions,
/// deletions and substitutions that turn `a` into `b`.
pub open spec fn edit_distance(a: Seq<char>, b: Seq<char>) -> nat
    decreases a.len() + b.len(),
{
    if a.len() == 0 {
        b.len()
    } else if b.len() == 0 {
        a.len()
    } else {
        let substitution: nat = if a.last() == b.last() {
            0
        } else {
            1
        };
        min3(
            edit_distance(a.drop_last(), b) + 1,
            edit_distance(a, b.drop_last()) + 1,
            edit_distance(a.drop_last(), b.drop_last()) + substitution,
        )
    }
}

/// The distance never exceeds the length of the longer text.
pub proof fn lemma_edit_distance_bound(a: Seq<char>, b: Seq<char>)
    ensures
        edit_distance(a, b) <= a.len() || edit_distance(a, b) <= b.len(),
    decreases a.len() + b.len(),
{
    if a.len() > 0 && b.len() > 0 {
        lemma_edit_distance_bound(a.drop_last(), b.drop_last());
    }
}

/// A text is at distance zero from itself.
pub proof fn lemma_edit_distance_self(a: Seq<char>)
    ensures
        edit_distance(a, a) == 0,
    decreases a.len(),
{
    if a.len() > 0 {
        lemma_edit_distance_self(a.drop_last());
    }
}

/// Only equal texts are at distance zero.
pub proof fn lemma_edit_distance_zero(a: Seq<char>, b: Seq<char>)
    requires
        edit_distance(a, b) == 0,
    ensures
        a == b,
    decreases a.len() + b.len(),
{
    if a.len() == 0 || b.len() == 0 {
        assert(a =~= b);
    } else {
        lemma_edit_distance_zero(a.drop_last(), b.drop_last());
        assert(a =~= a.drop_last().push(a.last()));
        assert(b =~= b.drop_last().push(b.last()));
    }
}

impl Similarity {
    /// The score is above four fifths: five times the distance is less
    /// than the length. Two empty texts score one.
    pub open spec fn spec_above_four_fifths(self) -> bool {
        self.longest == 0 || 5 * self.distance < self.longest
    }

    /// The score is above three fifths: five times the distance is less
    /// than twice the length. Two empty texts score one.
    pub open spec fn spec_above_three_fifths(self) -> bool {
        self.longest == 0 || 5 * self.distance < 2 * self.longest
    }

    /// The score in thousandths, rounded down: 1000 for two empty texts,
    /// zero where the distance reaches the length.
    pub open spec fn spec_permille(self) -> nat {
        if self.longest == 0 {
            1000
        } else if self.distance >= self.longest {
            0
        } else {
            (((self.longest - self.distance) * 1000) / (self.longest as int)) as nat
        }
    }

    /// The band the score falls in; `ExactMatch` is for distance zero.
    pub open spec fn spec_validation_type(self) -> ValidationType {
        if self.distance == 0 {
            ValidationType::ExactMatch
        } else if self.spec_above_four_fifths() {
            ValidationType::FuzzyMatch
        } else if self.spec_above_three_fifths() {
            ValidationType::PhoneticMatch
        } else {
            ValidationType::NoMatch
        }
    }

    /// Whether the score is above four fifths.
    pub fn above_four_fifths(&self) -> (above: bool)
        ensures
            above == self.spec_above_four_fifths(),
    {
        self.longest == 0 || 5 * (self.distance as u128) < self.longest as u128
    }

    /// Whether the score is above three fifths.
    pub fn above_three_fifths(&self) -> (above: bool)
        ensures
            above == self.spec_above_three_fifths(),
    {
        self.longest == 0 || 5 * (self.distance as u128) < 2 * (self.longest as u128)
    }

    /// The score in thousandths, rounded down.
    pub fn permille(&self) -> (score: u32)
        ensures
            score == self.spec_permille(),
            score <= 1000,
    {
        if self.longest == 0 {
            1000
        } else if self.distance >= self.longest {
            0
        } else {
            let kept: u128 = (self.longest - self.distance) as u128;
            let longest: u128 = self.longest as u128;
            let score: u128 = (kept * 1000) / longest;
            assert((kept as int * 1000) / (longest as int) <= 1000) by (nonlinear_arith)
                requires
                    0 <= kept as int <= longest as int,
                    longest as int > 0,
            ;
            score as u32
        }
    }

    /// The band the score falls in.
    pub fn validation_type(&self) -> (band: ValidationType)
        ensures
            band == self.spec_validation_type(),
    {
        if self.distance == 0 {
            ValidationType::ExactMatch
        } else if self.above_four_fifths() {
            ValidationType::FuzzyMatch
        } else if self.above_three_fifths() {
            ValidationType::PhoneticMatch
        } else {
            ValidationType::NoMatch
        }
    }
}

/// Whether `c` is an Arabic diacritic mark.
pub fn is_diacritic_mark(c: char) -> (answer: bool)
    ensures
        answer == is_diacritic(c),
{
    let code: u32 = c as u32;
    (0x064B <= code && code <= 0x065F) || code == 0x0670 || (0x06D6 <= code && code <= 0x06ED)
}

/// Removes the diacritic marks from `chars`.
pub fn remove_diacritics(chars: &Vec<char>) -> (kept: Vec<char>)
    ensures
        kept@ == strip_diacritics(chars@),
{
    let mut kept: Vec<char> = Vec::new();
    let mut i: usize = 0;
    proof {
        reveal(Seq::filter);
        assert(chars@.take(0) =~= Seq::<char>::empty());
    }
    while i < chars.len()
        invariant
            i <= chars.len(),
            kept@ == strip_diacritics(chars@.take(i as int)),
        decreases chars.len() - i,
    {
        let c: char = chars[i];
        proof {
            reveal(Seq::filter);
            assert(chars@.take(i as int + 1).drop_last() =~= chars@.take(i as int));
        }
        if !is_diacritic_mark(c) {
            kept.push(c);
        }
        i = i + 1;
    }
    assert(chars@.take(chars.len() as int) =~= chars@);
    kept
}

proof fn lemma_trim_start_skip(text: Seq<char>, start: int)
    requires
        0 <= start < text.len(),
        is_white_space(text[start]),
    ensures
        trim_start(text.skip(start)) == trim_start(text.skip(start + 1)),
{
    assert(text.skip(start).drop_first() =~= text.skip(start + 1));
}

proof fn lemma_trim_end_range(text: Seq<char>, start: int, end: int)
    requires
        0 <= start < end <= text.len(),
        is_white_space(text[end - 1]),
    ensures
        trim_end(text.subrange(start, end)) == trim_end(text.subrange(start, end - 1)),
{
    assert(text.subrange(start, end).drop_last() =~= text.subrange(start, end - 1));
}

/// Removes the white space around `chars`.
pub fn trim_chars(chars: &Vec<char>) -> (trimmed: Vec<char>)
    ensures
        trimmed@ == spec_trim(chars@),
{
    let total: usize = chars.len();
    let mut start: usize = 0;
    assert(chars@.skip(0) =~= chars@);
    while start < total && chars[start].is_whitespace()
        invariant
            start <= total,
            total == chars.len(),
            trim_start(chars@) == trim_start(chars@.skip(start as int)),
        decreases total - start,
    {
        proof {
            lemma_trim_start_skip(chars@, start as int);
        }
        start = start + 1;
    }
    assert(trim_start(chars@) == chars@.skip(start as int));
    let mut end: usize = total;
    assert(chars@.skip(start as int) =~= chars@.subrange(start as int, end as int));
    while end > start && chars[end - 1].is_whitespace()
        invariant
            start <= end <= total,
            total == chars.len(),
            spec_trim(chars@) == trim_end(chars@.subrange(start as int, end as int)),
        decreases end - start,
    {
        proof {
            lemma_trim_end_range(chars@, start as int, end as int);
        }
        end = end - 1;
    }
    assert(spec_trim(chars@) == chars@.subrange(start as int, end as int));
    let mut trimmed: Vec<char> = Vec::new();
    let mut i: usize = start;
    while i < end
        invariant
            start <= i <= end <= chars.len(),
            trimmed@ == chars@.subrange(start as int, i as int),
        decreases end - i,
    {
        trimmed.push(chars[i]);
        assert(trimmed@ =~= chars@.subrange(start as int, i as int + 1));
        i = i + 1;
    }
    trimmed
}

/// The normal form of `text`: diacritics removed, surrounding white space
/// removed, lower case.
pub fn normalize(text: &str) -> (normal: String)
    ensures
        normal@ == spec_normalize(text@),
{
    let chars = chars_of(text);
    let stripped = remove_diacritics(&chars);
    let trimmed = trim_chars(&stripped);
    let joined = string_of(&trimmed);
    joined.as_str().to_lowercase()
}

/// Computes the Levenshtein distance between `a` and `b`, in characters,
/// row by row.
pub fn levenshtein_distance(a: &Vec<char>, b: &Vec<char>) -> (distance: usize)
    ensures
        distance == edit_distance(a@, b@),
{
    let len1: usize = a.len();
    let len2: usize = b.len();
    if len2 == 0 {
        return len1;
    }
    // row[k] is the distance from a prefix of `a` to the first k + 1
    // characters of `b`.
    let mut row: Vec<usize> = Vec::new();
    let mut k: usize = 0;
    while k < len2
        invariant
            k <= len2,
            len2 == b.len(),
            row.len() == k,
            forall|m: int| 0 <= m < k ==> row[m] == edit_distance(a@.take(0), b@.take(m + 1)),
        decreases len2 - k,
    {
        row.push(k + 1);
        k = k + 1;
    }
    let mut i: usize = 0;
    while i < len1
        invariant
            i <= len1,
            len1 == a.len(),
            len2 == b.len(),
            len2 > 0,
            row.len() == len2,
            forall|m: int| 0 <= m < len2 ==> row[m] == edit_distance(a@.take(i as int), b@.take(m + 1)),
        decreases len1 - i,
    {
        let ghost shorter = a@.take(i as int);
        let ghost longer = a@.take(i as int + 1);
        assert(longer.drop_last() =~= shorter);
        assert(b@.take(0).len() == 0);
        let mut diagonal: usize = i;
        let mut left: usize = i + 1;
        let mut j: usize = 0;
        while j < len2
            invariant
                j <= len2,
                i < len1,
                len1 == a.len(),
                len2 == b.len(),
                row.len() == len2,
                shorter == a@.take(i as int),
                longer == a@.take(i as int + 1),
                longer.drop_last() == shorter,
                forall|m: int| 0 <= m < j ==> row[m] == edit_distance(longer, b@.take(m + 1)),
                forall|m: int| j <= m < len2 ==> row[m] == edit_distance(shorter, b@.take(m + 1)),
                diagonal == edit_distance(shorter, b@.take(j as int)),
                left == edit_distance(longer, b@.take(j as int)),
            decreases len2 - j,
        {
            let up: usize = row[j];
            let substitution: usize = if a[i] == b[j] {
                0
            } else {
                1
            };
            proof {
                let target = b@.take(j as int + 1);
                assert(target.drop_last() =~= b@.take(j as int));
                assert(longer.last() == a@[i as int]);
                assert(target.last() == b@[j as int]);
                lemma_edit_distance_bound(shorter, b@.take(j as int));
            }
            let least: usize = if up < left {
                up
            } else {
                left
            };
            let through: usize = diagonal + substitution;
            let best: usize = if least < through {
                least + 1
            } else {
                through
            };
            assert(best == edit_distance(longer, b@.take(j as int + 1)));
            row.set(j, best);
            diagonal = up;
            left = best;
            j = j + 1;
        }
        i = i + 1;
    }
    assert(a@.take(len1 as int) =~= a@);
    assert(b@.take(len2 as int) =~= b@);
    row[len2 - 1]
}

/// The similarity of two normalised texts: their distance and the length
/// of the longer one.
pub fn calculate_similarity(a: &Vec<char>, b: &Vec<char>) -> (score: Similarity)
    ensures
        score.distance == edit_distance(a@, b@),
        score.longest == if a@.len() >= b@.len() {
            a@.len()
        } else {
            b@.len()
        },
        score.distance <= score.longest,
{
    proof {
        lemma_edit_distance_bound(a@, b@);
    }
    let longest: usize = if a.len() >= b.len() {
        a.len()
    } else {
        b.len()
    };
    Similarity { distance: levenshtein_distance(a, b), longest }
}

/// What a comparison of `transcribed` with `expected` must report, given
/// the normal forms `a` and `b` of the two: both texts as they came, the
/// exact similarity of the normal forms, the band it falls in, a match
/// where the forms are equal or the score is above four fifths, and the
/// expected text as a suggestion where there is no match.
pub open spec fn is_verdict_of(
    result: ValidationResult,
    transcribed: Seq<char>,
    expected: Seq<char>,
    a: Seq<char>,
    b: Seq<char>,
) -> bool {
    &&& result.transcribed_word@ == transcribed
    &&& result.expected_word@ == expected
    &&& result.similarity_score.distance == edit_distance(a, b)
    &&& result.similarity_score.longest == if a.len() >= b.len() {
        a.len()
    } else {
        b.len()
    }
    &&& result.validation_type == result.similarity_score.spec_validation_type()
    &&& result.is_match == result.similarity_score.spec_above_four_fifths()
    &&& result.is_match <==> result.suggestion is None
    &&& result.suggestion is Some ==> result.suggestion->Some_0@ == expected
}

/// Compares two texts whose normal forms `a` and `b` are at hand.
pub fn compare_normalized(transcribed: &str, expected: &str, a: &Vec<char>, b: &Vec<char>) -> (result:
    ValidationResult)
    ensures
        is_verdict_of(result, transcribed@, expected@, a@, b@),
{
    let score = if chars_equal(a, b) {
        proof {
            lemma_edit_distance_self(a@);
        }
        Similarity { distance: 0, longest: a.len() }
    } else {
        calculate_similarity(a, b)
    };
    let is_match: bool = score.above_four_fifths();
    let suggestion: Option<String> = if is_match {
        None
    } else {
        Some(String::from_str(expected))
    };
    ValidationResult {
        transcribed_word: String::from_str(transcribed),
        expected_word: String::from_str(expected),
        is_match,
        similarity_score: score,
        suggestion,
        validation_type: score.validation_type(),
    }
}

/// Compares a transcription with the expected text after normalising
/// both.
pub fn compare(transcribed: &str, expected: &str) -> (result: ValidationResult)
    ensures
        is_verdict_of(
            result,
            transcribed@,
            expected@,
            spec_normalize(transcribed@),
            spec_normalize(expected@),
        ),
{
    let a = normalize(transcribed);
    let b = normalize(expected);
    let a_chars = chars_of(a.as_str());
    let b_chars = chars_of(b.as_str());
    compare_normalized(transcribed, expected, &a_chars, &b_chars)
}

/// Texts with the same normal form are an exact match with the full
/// score, two empty texts among them.
pub proof fn lemma_equal_forms_match_exactly(
    result: ValidationResult,
    transcribed: Seq<char>,
    expected: Seq<char>,
)
    requires
        spec_normalize(transcribed) == spec_normalize(expected),
        is_verdict_of(
            result,
            transcribed,
            expected,
            spec_normalize(transcribed),
            spec_normalize(expected),
        ),
    ensures
        result.validation_type == ValidationType::ExactMatch,
        result.is_match,
        result.similarity_score.distance == 0,
        result.similarity_score.spec_permille() == 1000,
        result.suggestion is None,
{
    lemma_edit_distance_self(spec_normalize(transcribed));
    let longest = result.similarity_score.longest as int;
    if longest > 0 {
        assert((longest * 1000) / longest == 1000) by (nonlinear_arith)
            requires
                longest > 0,
        ;
    }
}

/// A text compared with itself is an exact match with the full score.
pub proof fn lemma_compare_with_itself(result: ValidationResult, text: Seq<char>)
    requires
        is_verdict_of(result, text, text, spec_normalize(text), spec_normalize(text)),
    ensures
        result.validation_type == ValidationType::ExactMatch,
        result.is_match,
        result.similarity_score.spec_permille() == 1000,
{
    lemma_equal_forms_match_exactly(result, text, text);
}

/// The verdict is exact only for texts with the same normal form.
pub proof fn lemma_exact_only_for_equal_forms(
    result: ValidationResult,
    transcribed: Seq<char>,
    expected: Seq<char>,
)
    requires
        is_verdict_of(
            result,
            transcribed,
            expected,
            spec_normalize(transcribed),
            spec_normalize(expected),
        ),
        result.validation_type == ValidationType::ExactMatch,
    ensures
        spec_normalize(transcribed) == spec_normalize(expected),
{
    lemma_edit_distance_zero(spec_normalize(transcribed), spec_normalize(expected));
}

} // verus!
