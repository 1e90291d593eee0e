//! The key-event state machine: how one key mutates the session.

use vstd::prelude::*;

use crate::clock::now_seconds;
use crate::state::{lemma_view_words_drop_last, lemma_view_words_push};
use crate::state::{SessionView, State};

verus! {

/// Relies on String::push: appends the given character to the end of the
/// string.
pub assume_specification[ String::push ](s: &mut String, ch: char)
    ensures
        final(s)@ == old(s)@.push(ch),
;

/// Relies on String::pop: removes the last character and returns it, or
/// returns None when the string is empty.
pub assume_specification[ String::pop ](s: &mut String) -> (c: Option<char>)
    ensures
        old(s)@.len() == 0 ==> c is None && final(s)@ == old(s)@,
        old(s)@.len() > 0 ==> c == Some(old(s)@.last()) && final(s)@ == old(s)@.drop_last(),
;

/// One key event, as the session loop receives it from the input source.
#[derive(Clone, Copy, Debug, PartialEq, Eq, Structural)]
pub enum Key {
    Backspace,
    Char(char),
    Ctrl(char),
    Other,
}

/// An ASCII letter, the only characters that extend the in-progress word.
pub open spec fn is_ascii_alpha(c: char) -> bool {
    (65 <= c as u32 && c as u32 <= 90) || (97 <= c as u32 && c as u32 <= 122)
}

/// Committing the in-progress word: both buffers stay aligned, the attempt
/// is tallied, and a hit is tallied exactly when the entry matches its
/// target.  The word index advances whether or not the word was correct.
pub open spec fn space_step(v: SessionView) -> SessionView {
    SessionView {
        typed: v.typed.push(v.cur),
        cur: Seq::empty(),
        attempted: v.attempted + 1,
        correct: v.correct + if v.cur == v.current_target() {
            1int
        } else {
            0int
        },
        ..v
    }
}

/// Backspace: erase one character of the in-progress word, or take the
/// latest committed word back for correction — but only when that word was
/// typed incorrectly; correct words are locked once committed.
pub open spec fn backspace_step(v: SessionView) -> SessionView {
    if v.cur.len() > 0 {
        SessionView { cur: v.cur.drop_last(), ..v }
    } else if v.typed.len() == 0 {
        v
    } else if v.words[v.typed.len() - 1] != v.typed[v.typed.len() - 1] {
        SessionView { typed: v.typed.drop_last(), cur: v.typed.last(), ..v }
    } else {
        v
    }
}

/// What appending one letter does: the character lands at the end of the
/// in-progress word, the clock anchor is set if it was not yet, and nothing
/// else moves.  The anchor's value is whatever the clock read.
pub open spec fn alpha_post(pre: SessionView, post: SessionView, c: char) -> bool {
    &&& post.cur == pre.cur.push(c)
    &&& post.words == pre.words
    &&& post.typed == pre.typed
    &&& post.attempted == pre.attempted
    &&& post.correct == pre.correct
    &&& post.quit == pre.quit
    &&& post.retry == pre.retry
    &&& post.complete == pre.complete
    &&& post.start_time is Some
    &&& (pre.start_time is Some ==> post.start_time == pre.start_time)
}

pub fn handle_space(state: &mut State)
    requires
        old(state)@.has_current_target(),
        old(state).counters.attempted_word_count < usize::MAX,
        old(state).counters.wf(),
    ensures
        final(state)@ == space_step(old(state)@),
        final(state).counters.wf(),
{
    state.counters.attempted_word_count = state.counters.attempted_word_count + 1;

    let typed_word = state.current_word.clone();
    let idx = state.typed_words.len();
    if typed_word == state.all_words[idx] {
        state.counters.correctly_typed_word_count = state.counters.correctly_typed_word_count + 1;
    }

    state.typed_words.push(typed_word);
    state.current_word = String::new();

    proof {
        lemma_view_words_push(old(state).typed_words@, old(state).current_word);
        assert(state@ =~= space_step(old(state)@));
    }
}

pub fn handle_alpha(state: &mut State, c: char)
    ensures
        alpha_post(old(state)@, final(state)@, c),
{
    if state.start_time.is_none() {
        state.start_time = Some(now_seconds());
    }
    state.current_word.push(c);
}

pub fn handle_backspace(state: &mut State)
    requires
        old(state)@.typed.len() <= old(state)@.words.len(),
    ensures
        final(state)@ == backspace_step(old(state)@),
{
    if !state.current_word.as_str().is_empty() {
        state.current_word.pop();
        assert(state@ =~= backspace_step(old(state)@));
    } else {
        if state.typed_words.len() == 0 {
            return ;
        }
        let num_typed_words = state.typed_words.len();
        if !(state.all_words[num_typed_words - 1] == state.typed_words[num_typed_words - 1]) {
            let previous_typed_word = state.typed_words.pop().unwrap();
            state.current_word = previous_typed_word;
            proof {
                lemma_view_words_drop_last(old(state).typed_words@);
                assert(state@ =~= backspace_step(old(state)@));
            }
        }
    }
}

pub fn handle_key(state: &mut State, k: Key)
    requires
        k == Key::Char(' ') ==> old(state)@.has_current_target() && old(
            state,
        ).counters.attempted_word_count < usize::MAX && old(state).counters.wf(),
        k == Key::Backspace ==> old(state)@.typed.len() <= old(state)@.words.len(),
    ensures
        k == Key::Ctrl('c') ==> final(state)@ == (SessionView { quit: true, ..old(state)@ }),
        k == Key::Ctrl('r') ==> final(state)@ == (SessionView { retry: true, ..old(state)@ }),
        k == Key::Backspace ==> final(state)@ == backspace_step(old(state)@),
        k matches Key::Char(c) ==> (if c == ' ' {
            final(state)@ == space_step(old(state)@)
        } else if is_ascii_alpha(c) {
            alpha_post(old(state)@, final(state)@, c)
        } else {
            final(state)@ == old(state)@
        }),
        (k matches Key::Ctrl(c) && c != 'c' && c != 'r') ==> final(state)@ == old(state)@,
        k == Key::Other ==> final(state)@ == old(state)@,
{
    match k {
        Key::Ctrl(c) => {
            if c == 'c' {
                state.quit = true;
                assert(state@ =~= (SessionView { quit: true, ..old(state)@ }));
            } else if c == 'r' {
                state.retry = true;
                assert(state@ =~= (SessionView { retry: true, ..old(state)@ }));
            }
        },
        Key::Backspace => {
            handle_backspace(state);
        },
        Key::Char(c) => {
            if c == ' ' {
                handle_space(state);
            } else if is_ascii_alphabetic_char(c) {
                handle_alpha(state, c);
            }
        },
        Key::Other => {},
    }
}

/// Whether the character is an ASCII letter.
pub fn is_ascii_alphabetic_char(c: char) -> (r: bool)
    ensures
        r == is_ascii_alpha(c),
{
    let u = c as u32;
    (65 <= u && u <= 90) || (97 <= u && u <= 122)
}

/// The undo policy, stated once over the two transitions it couples:
/// committing a word that misses its target and then pressing backspace at
/// an empty in-progress word takes the word back intact and shrinks the
/// committed buffer by one; after committing a word that matches its
/// target, the same backspace changes nothing.
pub proof fn lemma_undo_policy(v: SessionView)
    requires
        v.has_current_target(),
    ensures
        v.cur != v.current_target() ==> ({
            let undone = backspace_step(space_step(v));
            &&& undone.typed == v.typed
            &&& undone.cur == v.cur
            &&& undone.words == v.words
            &&& backspace_step(space_step(v)).typed.len() + 1 == space_step(v).typed.len()
        }),
        v.cur == v.current_target() ==> backspace_step(space_step(v)) == space_step(v),
{
    let committed = space_step(v);
    assert(committed.typed.last() == v.cur);
    assert(committed.words[committed.typed.len() - 1] == v.current_target());
    if v.cur != v.current_target() {
        assert(committed.typed.drop_last() =~= v.typed);
    }
}

} // verus!
