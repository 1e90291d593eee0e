use grumpytype::clock::{get_typing_seconds, handle_timer, handle_timer_at};
use grumpytype::dictionary::Dictionary;
use grumpytype::opt::CliOptions;
use grumpytype::render::cursor::{CursorPosition, Rect};
use grumpytype::render::scroll::{drop_first_line, drop_line_if_necessary};
use grumpytype::state::{Counters, State};
use grumpytype::stats::Stats;

fn make_state(all: &[&str], typed: &[&str], cur: &str) -> State {
    State {
        start_time: None,
        quit: false,
        retry: false,
        complete: false,
        all_words: all.iter().map(|s| s.to_string()).collect(),
        typed_words: typed.iter().map(|s| s.to_string()).collect(),
        current_word: cur.to_string(),
        counters: Counters { attempted_word_count: 0, correctly_typed_word_count: 0 },
    }
}

fn area(width: u16) -> Rect {
    Rect { x: 0, y: 0, width, height: 5 }
}

#[test]
fn eviction_removes_one_line_from_both_buffers() {
    let mut state = make_state(
        &["the", "quick", "brown", "fox"],
        &["the", "quick", "brown"],
        "f",
    );
    drop_first_line(&mut state, &area(10));
    assert_eq!(state.all_words, vec!["brown".to_string(), "fox".to_string()]);
    assert_eq!(state.typed_words, vec!["brown".to_string()]);
    assert_eq!(state.current_word, "f");
}

#[test]
fn eviction_counts_match_and_suffixes_are_slices() {
    let all = ["the", "quick", "brown", "fox", "jumps"];
    let typed = ["the", "quick", "brown", "fox"];
    let mut state = make_state(&all, &typed, "j");
    let before_all = state.all_words.clone();
    let before_typed = state.typed_words.clone();
    drop_first_line(&mut state, &area(10));
    let n = before_all.len() - state.all_words.len();
    assert_eq!(before_typed.len() - state.typed_words.len(), n);
    assert!(n > 0);
    assert_eq!(state.all_words, before_all[n..].to_vec());
    assert_eq!(state.typed_words, before_typed[n..].to_vec());
}

#[test]
fn eviction_never_crosses_the_typing_index() {
    let mut state = make_state(&["a", "b"], &["a"], "");
    drop_first_line(&mut state, &area(100));
    assert_eq!(state.all_words, vec!["b".to_string()]);
    assert!(state.typed_words.is_empty());
}

#[test]
fn eviction_with_nothing_committed_is_a_no_op() {
    let mut state = make_state(&["the"], &[], "t");
    drop_first_line(&mut state, &area(10));
    assert_eq!(state.all_words, vec!["the".to_string()]);
}

#[test]
fn line_is_dropped_only_after_a_wrap_past_the_midpoint() {
    let mut state = make_state(
        &["the", "quick", "brown", "fox"],
        &["the", "quick", "brown"],
        "f",
    );
    drop_line_if_necessary(&mut state, CursorPosition { x: 2, y: 4 }, 9, 5, &area(10));
    assert_eq!(state.all_words.len(), 2);
    assert_eq!(state.typed_words.len(), 1);
}

#[test]
fn no_drop_when_the_cursor_did_not_wrap() {
    let mut state = make_state(
        &["the", "quick", "brown", "fox"],
        &["the", "quick", "brown"],
        "f",
    );
    drop_line_if_necessary(&mut state, CursorPosition { x: 9, y: 4 }, 2, 5, &area(10));
    assert_eq!(state.all_words.len(), 4);
    assert_eq!(state.typed_words.len(), 3);
}

#[test]
fn no_drop_above_the_midpoint() {
    let mut state = make_state(
        &["the", "quick", "brown", "fox"],
        &["the", "quick", "brown"],
        "f",
    );
    drop_line_if_necessary(&mut state, CursorPosition { x: 2, y: 2 }, 9, 5, &area(10));
    assert_eq!(state.all_words.len(), 4);
}

#[test]
fn stats_are_none_before_any_attempt() {
    let counters = Counters { attempted_word_count: 0, correctly_typed_word_count: 0 };
    assert!(Stats::from_counters(&counters, 15).is_none());
}

#[test]
fn stats_scenario_eight_of_ten_in_fifteen_seconds() {
    let counters = Counters { attempted_word_count: 10, correctly_typed_word_count: 8 };
    let stats = Stats::from_counters(&counters, 15).unwrap();
    assert_eq!(stats.accuracy_basis_points(), 8000);
    assert_eq!(stats.wpm_hundredths(), 3200);
    let accuracy =
        stats.correctly_typed_word_count as f64 / stats.attempted_word_count as f64;
    let wpm = stats.correctly_typed_word_count as f64 * (60.0 / stats.time_limit_sec as f64);
    assert_eq!(accuracy, 0.8);
    assert_eq!(wpm, 32.0);
}

#[test]
fn timer_fires_exactly_at_the_limit() {
    let mut state = make_state(&["cat"], &[], "");
    handle_timer_at(&mut state, Some(14), 15);
    assert!(!state.complete);
    handle_timer_at(&mut state, Some(15), 15);
    assert!(state.complete);
}

#[test]
fn timer_without_elapsed_time_changes_nothing() {
    let mut state = make_state(&["cat"], &[], "");
    handle_timer_at(&mut state, None, 15);
    assert!(!state.complete);
}

#[test]
fn timer_ignores_sessions_that_never_started() {
    let mut state = make_state(&["cat"], &[], "");
    handle_timer(&mut state, 15);
    assert!(!state.complete);
    assert!(get_typing_seconds(&state).is_none());
}

#[test]
fn timer_completes_a_long_overdue_session() {
    let mut state = make_state(&["cat"], &[], "");
    state.start_time = Some(0);
    handle_timer(&mut state, 15);
    assert!(state.complete);
}

#[test]
fn dictionary_keeps_words_within_the_length_bounds() {
    let lines = vec![
        "a".to_string(),
        "abc".to_string(),
        "abcdefgh".to_string(),
        "abcd".to_string(),
    ];
    let dictionary = Dictionary::from_words(lines, 3, 4);
    assert_eq!(dictionary.words, vec!["abc".to_string(), "abcd".to_string()]);
}

#[test]
fn single_word_dictionary_always_serves_it() {
    let dictionary = Dictionary::from_words(vec!["abc".to_string()], 1, 10);
    for _ in 0..5 {
        assert_eq!(dictionary.get_random_word(), "abc");
    }
}

#[test]
fn random_words_come_from_the_dictionary() {
    let lines = vec!["one".to_string(), "two".to_string(), "six".to_string()];
    let dictionary = Dictionary::from_words(lines.clone(), 1, 10);
    for _ in 0..20 {
        let w = dictionary.get_random_word();
        assert!(lines.contains(&w));
    }
}

#[test]
fn load_words_tops_the_buffer_up_and_keeps_the_prefix() {
    let dictionary = Dictionary::from_words(vec!["pad".to_string()], 1, 10);
    let mut state = make_state(&["the", "quick"], &["the"], "q");
    dictionary.load_words(&mut state, 5);
    assert_eq!(state.all_words.len(), 5);
    assert_eq!(state.all_words[0], "the");
    assert_eq!(state.all_words[1], "quick");
    for w in &state.all_words[2..] {
        assert_eq!(w, "pad");
    }
    dictionary.load_words(&mut state, 3);
    assert_eq!(state.all_words.len(), 5);
}

#[test]
fn default_options_match_the_documented_defaults() {
    let opt = CliOptions::default();
    assert_eq!(opt.dictionary_path, "google-10000-english-usa.txt");
    assert_eq!(opt.display_lines, 5);
    assert_eq!(opt.min_word_len, 3);
    assert_eq!(opt.max_word_len, 7);
    assert_eq!(opt.time_limit, 15);
}

#[test]
fn a_fresh_session_is_empty() {
    let state = State::default();
    assert!(state.all_words.is_empty());
    assert!(state.typed_words.is_empty());
    assert_eq!(state.current_word, "");
    assert!(state.start_time.is_none());
    assert_eq!(state.counters.attempted_word_count, 0);
    assert_eq!(state.counters.correctly_typed_word_count, 0);
    assert!(!state.quit && !state.retry && !state.complete);
}
