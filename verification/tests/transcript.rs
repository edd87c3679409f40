use whisper_rust_binding::transcript::{
    find_from, parse_transcription_output, split_words, word_results, WordResult,
};

const MARKER: &str = "-------------------------------------------";

fn letters(text: &str) -> Vec<char> {
    text.chars().collect()
}

#[test]
fn framed_text_is_found() {
    let report = format!("loading model\n{}\n  بسم الله الرحمن الرحيم \n{}\ndone\n", MARKER, MARKER);
    assert_eq!(
        parse_transcription_output(&report),
        Some("بسم الله الرحمن الرحيم".to_string())
    );
    let two_lines = format!("{}\nfirst\nsecond\n{}", MARKER, MARKER);
    assert_eq!(parse_transcription_output(&two_lines), Some("first\nsecond".to_string()));
    let longer_rule = format!("{}-----\ntext\n{}", MARKER, MARKER);
    assert_eq!(parse_transcription_output(&longer_rule), Some("text".to_string()));
    let title_on_rule = format!("{} Transcription:\ntext\n{}", MARKER, MARKER);
    assert_eq!(parse_transcription_output(&title_on_rule), Some("text".to_string()));
}

#[test]
fn report_without_text_gives_nothing() {
    assert_eq!(parse_transcription_output(""), None);
    assert_eq!(parse_transcription_output("no markers here\n"), None);
    assert_eq!(parse_transcription_output(MARKER), None);
    assert_eq!(parse_transcription_output(&format!("{}\ntext without end", MARKER)), None);
    assert_eq!(parse_transcription_output(&format!("{}\n  \n\t\n{}", MARKER, MARKER)), None);
    assert_eq!(parse_transcription_output(&format!("{}\n{}", MARKER, MARKER)), None);
    let short_rule = "------------------------------------------\ntext\n------------------------------------------";
    assert_eq!(parse_transcription_output(short_rule), None);
}

#[test]
fn first_occurrence_from_an_offset() {
    let text = letters("abcabcab");
    assert_eq!(find_from(&text, &letters("abc"), 0), Some(0));
    assert_eq!(find_from(&text, &letters("abc"), 1), Some(3));
    assert_eq!(find_from(&text, &letters("abc"), 4), None);
    assert_eq!(find_from(&text, &letters("ab"), 4), Some(6));
    assert_eq!(find_from(&text, &letters("x"), 0), None);
    assert_eq!(find_from(&text, &letters(""), 8), Some(8));
    assert_eq!(find_from(&text, &letters(""), 9), None);
    assert_eq!(find_from(&text, &letters("abcabcabc"), 0), None);
}

#[test]
fn words_are_stretches_without_white_space() {
    assert_eq!(split_words(&letters("  بسم  الله\tالرحمن\nالرحيم ")), vec!["بسم", "الله", "الرحمن", "الرحيم"]);
    assert_eq!(split_words(&letters("one")), vec!["one"]);
    assert_eq!(split_words(&letters("")), Vec::<String>::new());
    assert_eq!(split_words(&letters(" \n ")), Vec::<String>::new());
    assert_eq!(split_words(&letters("a b")), vec!["a", "b"]);
}

#[test]
fn each_word_gets_half_a_second() {
    let words = word_results(&letters("بسم الله  الرحمن"));
    let expected: Vec<WordResult> = ["بسم", "الله", "الرحمن"]
        .iter()
        .enumerate()
        .map(|(i, word)| WordResult {
            word: word.to_string(),
            start_time_ms: i as u64 * 500,
            end_time_ms: (i as u64 + 1) * 500,
            confidence_permille: 950,
        })
        .collect();
    assert_eq!(words, expected);
    assert_eq!(word_results(&letters("  ")), vec![]);
}
