use grumpytype::render::cursor::{get_cursor_position, locate, CursorPosition, Rect};
use grumpytype::render::text::{
    classify, get_typed_word_len, render_text, word_display_len, Category,
};
use grumpytype::state::{Counters, State};

fn make_state(all: &[&str], typed: &[&str], cur: &str) -> State {
    State {
        start_time: None,
        quit: false,
        retry: false,
        complete: false,
        all_words: all.iter().map(|s| s.to_string()).collect(),
        typed_words: typed.iter().map(|s| s.to_string()).collect(),
        current_word: cur.to_string(),
        counters: Counters { attempted_word_count: 0, correctly_typed_word_count: 0 },
    }
}

fn categories(typed: &str, expected: &str, completed: bool) -> Vec<(char, Category)> {
    classify(typed, expected, completed)
        .chars
        .iter()
        .map(|cc| (cc.ch, cc.category))
        .collect()
}

#[test]
fn classify_length_is_max_of_both_lengths() {
    assert_eq!(classify("cat", "cat", false).chars.len(), 3);
    assert_eq!(classify("ca", "cat", false).chars.len(), 3);
    assert_eq!(classify("cats", "cat", false).chars.len(), 4);
    assert_eq!(classify("", "cat", false).chars.len(), 3);
    assert_eq!(classify("cat", "", true).chars.len(), 3);
    assert_eq!(classify("", "", true).chars.len(), 0);
}

#[test]
fn classify_is_reproducible_from_its_inputs() {
    let a = classify("brown", "braun", true);
    let b = classify("brown", "braun", true);
    assert_eq!(a.chars, b.chars);
    assert_eq!(a.whole_word_error, b.whole_word_error);
}

#[test]
fn classify_marks_matches_and_mismatches() {
    assert_eq!(
        categories("cot", "cat", false),
        vec![
            ('c', Category::Correct),
            ('o', Category::Incorrect),
            ('t', Category::Correct)
        ]
    );
}

#[test]
fn classify_flags_overtyped_characters() {
    assert_eq!(
        categories("cats", "cat", false),
        vec![
            ('c', Category::Correct),
            ('a', Category::Correct),
            ('t', Category::Correct),
            ('s', Category::Incorrect)
        ]
    );
}

#[test]
fn classify_missing_tail_pending_while_typing() {
    assert_eq!(
        categories("ca", "cat", false),
        vec![
            ('c', Category::Correct),
            ('a', Category::Correct),
            ('t', Category::Pending)
        ]
    );
}

#[test]
fn classify_missing_tail_incorrect_once_committed() {
    assert_eq!(
        categories("ca", "cat", true),
        vec![
            ('c', Category::Correct),
            ('a', Category::Correct),
            ('t', Category::Incorrect)
        ]
    );
}

#[test]
fn whole_word_error_only_on_committed_mismatch() {
    assert!(!classify("cot", "cat", false).whole_word_error);
    assert!(classify("cot", "cat", true).whole_word_error);
    assert!(!classify("cat", "cat", true).whole_word_error);
    assert!(classify("ca", "cat", true).whole_word_error);
    assert!(classify("cats", "cat", true).whole_word_error);
}

#[test]
fn display_len_is_the_wider_of_the_two() {
    assert_eq!(word_display_len("ca", "cat"), 3);
    assert_eq!(word_display_len("cats", "cat"), 4);
    assert_eq!(word_display_len("", ""), 0);
    assert_eq!(get_typed_word_len("ca", "cat"), 3);
    assert_eq!(get_typed_word_len("cats", "cat"), 4);
}

#[test]
fn cursor_end_to_end_scenario() {
    let state = make_state(&["the", "quick", "brown"], &["the"], "qu");
    let r = locate(&state, 10);
    assert_eq!(r, CursorPosition { x: 6, y: 1 });
}

#[test]
fn cursor_offsets_by_the_text_area_origin() {
    let state = make_state(&["the", "quick", "brown"], &["the"], "qu");
    let area = Rect { x: 9, y: 2, width: 10, height: 5 };
    let r = get_cursor_position(&state, area);
    assert_eq!(r, CursorPosition { x: 15, y: 3 });
}

#[test]
fn cursor_with_no_committed_word_sits_on_the_seed_line() {
    let state = make_state(&["the"], &[], "th");
    let r = locate(&state, 10);
    assert_eq!(r, CursorPosition { x: 2, y: 0 });
}

#[test]
fn cursor_advances_then_wraps_as_the_word_grows() {
    let mut word = String::new();
    let mut last = locate(&make_state(&["the", "quick"], &["the"], &word), 10);
    assert_eq!(last, CursorPosition { x: 4, y: 1 });
    for ch in ['q', 'u', 'i', 'c', 'k', 'k', 'k'] {
        word.push(ch);
        let next = locate(&make_state(&["the", "quick"], &["the"], &word), 10);
        assert!(next.y >= last.y);
        if next.y == last.y {
            assert_eq!(next.x, last.x + 1);
        } else {
            assert_eq!(next.y, last.y + 1);
            assert_eq!(next.x, word.chars().count());
        }
        last = next;
    }
    assert_eq!(last, CursorPosition { x: 7, y: 2 });
}

#[test]
fn cursor_wraps_by_target_width_not_typed_width() {
    let state = make_state(&["the", "quokkas"], &["the"], "q");
    let r = locate(&state, 10);
    assert_eq!(r, CursorPosition { x: 1, y: 2 });
}

#[test]
fn committed_words_wrap_greedily() {
    let state = make_state(&["the", "quick", "brown", "fox"], &["the", "quick", "brown"], "f");
    let r = locate(&state, 10);
    assert_eq!(r, CursorPosition { x: 7, y: 2 });
}

#[test]
fn render_text_classifies_every_word() {
    let state = make_state(&["ab", "cd", "ef", "gh"], &["ab", "xd"], "e");
    let frame = render_text(&state);
    assert_eq!(frame.words.len(), 2);
    assert!(!frame.words[0].whole_word_error);
    assert!(frame.words[1].whole_word_error);
    assert_eq!(frame.words[1].chars[0].category, Category::Incorrect);
    assert_eq!(frame.words[1].chars[1].category, Category::Correct);
    assert_eq!(frame.current.chars.len(), 2);
    assert_eq!(frame.current.chars[0].category, Category::Correct);
    assert_eq!(frame.current.chars[1].category, Category::Pending);
    assert!(!frame.current.whole_word_error);
    assert_eq!(frame.upcoming, vec!["gh".to_string()]);
}
