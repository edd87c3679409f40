use whisper_rust_binding::text::{chars_equal, chars_of, string_of};
use whisper_rust_binding::validation::{
    calculate_similarity, compare, compare_normalized, is_diacritic_mark, levenshtein_distance,
    normalize, remove_diacritics, trim_chars, Similarity, ValidationType,
};

fn chars(text: &str) -> Vec<char> {
    text.chars().collect()
}

#[test]
fn diacritics_do_not_matter() {
    let result = compare("بسم الله", "بسم اللَّه");
    assert_eq!(result.validation_type, ValidationType::ExactMatch);
    assert!(result.is_match);
    assert_eq!(result.similarity_score.permille(), 1000);
    assert_eq!(result.similarity_score.distance, 0);
    assert_eq!(result.suggestion, None);
    assert_eq!(result.transcribed_word, "بسم الله");
    assert_eq!(result.expected_word, "بسم اللَّه");
    assert_eq!(normalize("بسم اللَّه"), "بسم الله");
}

#[test]
fn a_text_matches_itself() {
    for text in ["hello world", "بسم الله الرحمن الرحيم", "x", "  Mixed Case  "] {
        let result = compare(text, text);
        assert_eq!(result.validation_type, ValidationType::ExactMatch);
        assert!(result.is_match);
        assert_eq!(result.similarity_score.permille(), 1000);
        assert_eq!(result.suggestion, None);
    }
}

#[test]
fn two_empty_texts_match() {
    let result = compare("", "");
    assert_eq!(result.validation_type, ValidationType::ExactMatch);
    assert!(result.is_match);
    assert_eq!(result.similarity_score, Similarity { distance: 0, longest: 0 });
    assert_eq!(result.similarity_score.permille(), 1000);
    let blank = compare("   ", "\n");
    assert_eq!(blank.validation_type, ValidationType::ExactMatch);
    assert_eq!(blank.similarity_score.permille(), 1000);
}

#[test]
fn normal_form_strips_trims_and_lowers() {
    assert_eq!(normalize("  HeLLo World \n"), "hello world");
    assert_eq!(normalize("\u{064B}\u{065F}\u{0670}\u{06D6}\u{06ED}a"), "a");
    assert_eq!(normalize("\u{064A}\u{0660}\u{066F}\u{0671}\u{06D5}\u{06EE}"), "\u{064A}\u{0660}\u{066F}\u{0671}\u{06D5}\u{06EE}");
    assert_eq!(normalize(" \u{064B} x"), "x");
    assert_eq!(normalize("a  b"), "a  b");
    assert_eq!(normalize(""), "");
    assert_eq!(normalize("ÀÉ"), "àé");
}

#[test]
fn diacritic_ranges() {
    assert!(is_diacritic_mark('\u{064B}'));
    assert!(is_diacritic_mark('\u{065F}'));
    assert!(is_diacritic_mark('\u{0670}'));
    assert!(is_diacritic_mark('\u{06D6}'));
    assert!(is_diacritic_mark('\u{06ED}'));
    assert!(!is_diacritic_mark('\u{064A}'));
    assert!(!is_diacritic_mark('\u{0660}'));
    assert!(!is_diacritic_mark('\u{066F}'));
    assert!(!is_diacritic_mark('\u{0671}'));
    assert!(!is_diacritic_mark('\u{06D5}'));
    assert!(!is_diacritic_mark('\u{06EE}'));
    assert!(!is_diacritic_mark('a'));
    assert_eq!(remove_diacritics(&chars("اللَّه")), chars("الله"));
}

#[test]
fn trimming_removes_surrounding_white_space_only() {
    assert_eq!(trim_chars(&chars("  a b\t\n")), chars("a b"));
    assert_eq!(trim_chars(&chars("\u{00A0}\u{3000}x\u{2003}")), chars("x"));
    assert_eq!(trim_chars(&chars("   ")), chars(""));
    assert_eq!(trim_chars(&chars("")), chars(""));
    assert_eq!(trim_chars(&chars("ab")), chars("ab"));
}

#[test]
fn characters_round_trip() {
    assert_eq!(chars_of("بسم x"), chars("بسم x"));
    assert_eq!(string_of(&chars("بسم x")), "بسم x");
    assert!(chars_equal(&chars("abc"), &chars("abc")));
    assert!(!chars_equal(&chars("abc"), &chars("abd")));
    assert!(!chars_equal(&chars("abc"), &chars("ab")));
}

#[test]
fn edit_distance_values() {
    assert_eq!(levenshtein_distance(&chars("kitten"), &chars("sitting")), 3);
    assert_eq!(levenshtein_distance(&chars("flaw"), &chars("lawn")), 2);
    assert_eq!(levenshtein_distance(&chars(""), &chars("abc")), 3);
    assert_eq!(levenshtein_distance(&chars("abc"), &chars("")), 3);
    assert_eq!(levenshtein_distance(&chars(""), &chars("")), 0);
    assert_eq!(levenshtein_distance(&chars("abc"), &chars("abc")), 0);
    assert_eq!(levenshtein_distance(&chars("الله"), &chars("اله")), 1);
    assert_eq!(levenshtein_distance(&chars("é"), &chars("e")), 1);
    assert_eq!(
        calculate_similarity(&chars("kitten"), &chars("sitting")),
        Similarity { distance: 3, longest: 7 }
    );
}

#[test]
fn similarity_bands() {
    let fuzzy = compare("hello word", "hello world");
    assert_eq!(fuzzy.similarity_score, Similarity { distance: 1, longest: 11 });
    assert_eq!(fuzzy.similarity_score.permille(), 909);
    assert_eq!(fuzzy.validation_type, ValidationType::FuzzyMatch);
    assert!(fuzzy.is_match);
    assert_eq!(fuzzy.suggestion, None);

    let at_four_fifths = compare("abcde", "abcdx");
    assert_eq!(at_four_fifths.similarity_score.permille(), 800);
    assert_eq!(at_four_fifths.validation_type, ValidationType::PhoneticMatch);
    assert!(!at_four_fifths.is_match);
    assert_eq!(at_four_fifths.suggestion, Some("abcdx".to_string()));

    let phonetic = compare("abcd", "abxd");
    assert_eq!(phonetic.similarity_score.permille(), 750);
    assert_eq!(phonetic.validation_type, ValidationType::PhoneticMatch);
    assert!(!phonetic.is_match);
    assert_eq!(phonetic.suggestion, Some("abxd".to_string()));

    let at_three_fifths = compare("abcde", "abcxy");
    assert_eq!(at_three_fifths.similarity_score.permille(), 600);
    assert_eq!(at_three_fifths.validation_type, ValidationType::NoMatch);
    assert!(!at_three_fifths.is_match);

    let none = compare("abc", "xyz");
    assert_eq!(none.similarity_score.permille(), 0);
    assert_eq!(none.validation_type, ValidationType::NoMatch);
    assert_eq!(none.suggestion, Some("xyz".to_string()));

    let one_empty = compare("", "abc");
    assert_eq!(one_empty.similarity_score, Similarity { distance: 3, longest: 3 });
    assert_eq!(one_empty.validation_type, ValidationType::NoMatch);
}

#[test]
fn verdict_from_given_normal_forms() {
    let result = compare_normalized("Raw A", "Raw B", &chars("abcd"), &chars("abxd"));
    assert_eq!(result.transcribed_word, "Raw A");
    assert_eq!(result.expected_word, "Raw B");
    assert_eq!(result.similarity_score, Similarity { distance: 1, longest: 4 });
    assert_eq!(result.validation_type, ValidationType::PhoneticMatch);
    assert_eq!(result.suggestion, Some("Raw B".to_string()));
    let same = compare_normalized("Raw A", "Raw B", &chars("abcd"), &chars("abcd"));
    assert_eq!(same.validation_type, ValidationType::ExactMatch);
    assert_eq!(same.similarity_score, Similarity { distance: 0, longest: 4 });
}

#[test]
fn band_thresholds_are_exact() {
    assert!(Similarity { distance: 1, longest: 6 }.above_four_fifths());
    assert!(!Similarity { distance: 1, longest: 5 }.above_four_fifths());
    assert!(Similarity { distance: 1, longest: 5 }.above_three_fifths());
    assert!(Similarity { distance: 3, longest: 8 }.above_three_fifths());
    assert!(!Similarity { distance: 2, longest: 5 }.above_three_fifths());
    assert_eq!(Similarity { distance: 2, longest: 5 }.validation_type(), ValidationType::NoMatch);
    assert_eq!(Similarity { distance: 0, longest: 5 }.validation_type(), ValidationType::ExactMatch);
    assert_eq!(Similarity { distance: 1, longest: 3 }.permille(), 666);
    assert_eq!(Similarity { distance: 4, longest: 3 }.permille(), 0);
}
