use smart_shift::classifier::{CharKind, DecisionReason, classify, classify_char, nearest_signal};
use smart_shift::context::LineContext;
use smart_shift::ime::InputMode;

fn context(line: &str, cursor: usize) -> LineContext {
    LineContext::new(line.to_string(), cursor).unwrap()
}

#[test]
fn picks_chinese_when_cursor_is_after_chinese_char() {
    let decision = classify(&context("abc中文", 4));
    assert_eq!(decision.mode, InputMode::Chinese);
}

#[test]
fn picks_english_when_cursor_is_after_english_char() {
    let decision = classify(&context("中文abc", 3));
    assert_eq!(decision.mode, InputMode::English);
}

#[test]
fn uses_neighbor_bias_for_punctuation_gap() {
    let decision = classify(&context("中文 () 中文", 3));
    assert_eq!(decision.mode, InputMode::Chinese);
}

#[test]
fn falls_back_to_english_when_no_signal_exists() {
    let decision = classify(&context("12345", 2));
    assert_eq!(decision.mode, InputMode::English);
    assert_eq!(decision.reason, DecisionReason::DefaultEnglish);
}

#[test]
fn reason_follows_the_character_under_the_caret() {
    assert_eq!(classify(&context("abc中文", 3)).reason, DecisionReason::CurrentCharChinese);
    assert_eq!(classify(&context("中文abc", 2)).reason, DecisionReason::CurrentCharEnglish);
}

#[test]
fn neighbor_english_bias_on_space_between_words() {
    let decision = classify(&context("hello world", 5));
    assert_eq!(decision.mode, InputMode::English);
    assert_eq!(decision.reason, DecisionReason::NeighborEnglishBias);
}

#[test]
fn one_sided_signal_at_end_of_line() {
    let decision = classify(&context("中文", 2));
    assert_eq!(decision.mode, InputMode::Chinese);
    assert_eq!(decision.reason, DecisionReason::NeighborChineseBias);
}

#[test]
fn conflicting_neighbors_default_to_english() {
    let decision = classify(&context("中 a", 1));
    assert_eq!(decision.mode, InputMode::English);
    assert_eq!(decision.reason, DecisionReason::DefaultEnglish);
}

#[test]
fn mirrored_line_gives_same_decision() {
    let line = "ab, 中文";
    let reversed: String = line.chars().rev().collect();
    let n = line.chars().count();
    for cursor in 0..n {
        let a = classify(&context(line, cursor));
        let b = classify(&context(&reversed, n - 1 - cursor));
        assert_eq!(a, b);
    }
}

#[test]
fn empty_line_defaults_to_english() {
    let decision = classify(&context("", 0));
    assert_eq!(decision.reason, DecisionReason::DefaultEnglish);
}

#[test]
fn char_kinds() {
    assert_eq!(classify_char(Some('中')), CharKind::Chinese);
    assert_eq!(classify_char(Some('\u{3400}')), CharKind::Chinese);
    assert_eq!(classify_char(Some('\u{20000}')), CharKind::Chinese);
    assert_eq!(classify_char(Some('Z')), CharKind::English);
    assert_eq!(classify_char(Some('é')), CharKind::Other);
    assert_eq!(classify_char(Some('。')), CharKind::Other);
    assert_eq!(classify_char(None), CharKind::Other);
}

#[test]
fn nearest_signal_skips_symbols() {
    assert_eq!(nearest_signal(&vec![' ', '(', '中', 'a']), CharKind::Chinese);
    assert_eq!(nearest_signal(&vec!['1', '2']), CharKind::Other);
}

#[test]
fn reason_labels() {
    assert_eq!(DecisionReason::DefaultEnglish.to_string(), "default_english");
    assert_eq!(DecisionReason::NeighborChineseBias.to_string(), "neighbor_chinese_bias");
    assert_eq!(InputMode::Chinese.to_string(), "chinese");
    assert_eq!(InputMode::English.to_string(), "english");
}

#[test]
fn readme_examples() {
    assert_eq!(classify(&context("hello 中文", 0)).mode, InputMode::English);
    assert_eq!(classify(&context("hello 中文", 6)).mode, InputMode::Chinese);
}
