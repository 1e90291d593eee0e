//! The eviction policy: when the caret wraps while the active line sits
//! past the viewport's midpoint, one rendered line's worth of words leaves
//! the front of both buffers in lock-step.

use vstd::prelude::*;

use crate::render::cursor::{CursorPosition, Rect};
use crate::render::text::{display_width, word_display_len};
use crate::state::{lemma_view_words_skip, SessionView, State};

verus! {

/// The greedy scan behind `evict_count`, from word `n` on a line already
/// `line_len` wide: take each next committed word, with its separating
/// space, while the line still fits the viewport width, and never cross
/// the in-progress index.
pub open spec fn evict_scan(
    typed: Seq<Seq<char>>,
    words: Seq<Seq<char>>,
    width: int,
    n: int,
    line_len: int,
) -> int
    decreases typed.len() - n,
{
    if n >= typed.len() {
        n
    } else {
        let w = display_width(typed[n], words[n]);
        let grown = if n == 0 {
            w
        } else {
            line_len + 1 + w
        };
        if grown > width {
            n
        } else {
            evict_scan(typed, words, width, n + 1, grown)
        }
    }
}

/// How many leading words make up one rendered line for the given
/// viewport width.
pub open spec fn evict_count(typed: Seq<Seq<char>>, words: Seq<Seq<char>>, width: int) -> int {
    evict_scan(typed, words, width, 0, 0)
}

proof fn lemma_evict_scan_bounds(
    typed: Seq<Seq<char>>,
    words: Seq<Seq<char>>,
    width: int,
    n: int,
    line_len: int,
)
    requires
        0 <= n <= typed.len(),
    ensures
        n <= evict_scan(typed, words, width, n, line_len) <= typed.len(),
    decreases typed.len() - n,
{
    if n < typed.len() {
        let w = display_width(typed[n], words[n]);
        let grown = if n == 0 {
            w
        } else {
            line_len + 1 + w
        };
        if grown <= width {
            lemma_evict_scan_bounds(typed, words, width, n + 1, grown);
        }
    }
}

/// The session after one eviction of `n` words: both buffers sliced from
/// `n` on, everything else as it was.
pub open spec fn evicted_post(pre: SessionView, post: SessionView, n: int) -> bool {
    &&& post.words == pre.words.skip(n)
    &&& post.typed == pre.typed.skip(n)
    &&& post.cur == pre.cur
    &&& post.attempted == pre.attempted
    &&& post.correct == pre.correct
    &&& post.start_time == pre.start_time
    &&& post.quit == pre.quit
    &&& post.retry == pre.retry
    &&& post.complete == pre.complete
}

/// Remove the leading rendered line's words from the front of both
/// buffers, keeping their positional correspondence; the in-progress word
/// and the counters are untouched.
pub fn drop_first_line(state: &mut State, text_area_without_border: &Rect)
    requires
        old(state)@.typed.len() <= old(state)@.words.len(),
        forall|i: int|
            0 <= i < old(state)@.words.len() ==> (#[trigger] old(state)@.words[i]).len() <= 0xFFFF,
        forall|i: int|
            0 <= i < old(state)@.typed.len() ==> (#[trigger] old(state)@.typed[i]).len() <= 0xFFFF,
    ensures
        evicted_post(
            old(state)@,
            final(state)@,
            evict_count(
                old(state)@.typed,
                old(state)@.words,
                text_area_without_border.width as int,
            ),
        ),
{
    let width = text_area_without_border.width as usize;
    let num_typed = state.typed_words.len();
    let ghost gt = state@.typed;
    let ghost gw = state@.words;
    let mut n: usize = 0;
    let mut line_len: usize = 0;
    let mut done: bool = false;
    while n < num_typed && !done
        invariant
            n <= num_typed,
            num_typed as int == gt.len(),
            gt.len() <= gw.len(),
            gt == state@.typed,
            gw == state@.words,
            width <= 0xFFFF,
            width as int == text_area_without_border.width as int,
            forall|i: int| 0 <= i < gw.len() ==> (#[trigger] gw[i]).len() <= 0xFFFF,
            forall|i: int| 0 <= i < gt.len() ==> (#[trigger] gt[i]).len() <= 0xFFFF,
            line_len <= width,
            n == 0 ==> line_len == 0,
            done ==> evict_count(gt, gw, width as int) == n,
            !done ==> evict_scan(gt, gw, width as int, n as int, line_len as int) == evict_count(
                gt,
                gw,
                width as int,
            ),
        decreases num_typed - n, (if done {
            0int
        } else {
            1int
        }),
    {
        let w = word_display_len(state.typed_words[n].as_str(), state.all_words[n].as_str());
        proof {
            assert(gt[n as int] == state.typed_words@[n as int]@);
            assert(gw[n as int] == state.all_words@[n as int]@);
            assert(gt[n as int].len() <= 0xFFFF);
            assert(gw[n as int].len() <= 0xFFFF);
        }
        let grown = if n == 0 {
            w
        } else {
            line_len + 1 + w
        };
        if grown > width {
            done = true;
        } else {
            line_len = grown;
            n = n + 1;
        }
    }
    proof {
        assert(evict_count(gt, gw, width as int) == n);
    }
    let mut k: usize = 0;
    while k < n
        invariant
            k <= n,
            n as int <= old(state)@.typed.len(),
            old(state)@.typed.len() <= old(state)@.words.len(),
            state.all_words@ == old(state).all_words@.skip(k as int),
            state.typed_words@ == old(state).typed_words@.skip(k as int),
            state.current_word == old(state).current_word,
            state.counters == old(state).counters,
            state.start_time == old(state).start_time,
            state.quit == old(state).quit,
            state.retry == old(state).retry,
            state.complete == old(state).complete,
        decreases n - k,
    {
        state.all_words.remove(0);
        state.typed_words.remove(0);
        proof {
            assert(state.all_words@ =~= old(state).all_words@.skip(k + 1));
            assert(state.typed_words@ =~= old(state).typed_words@.skip(k + 1));
        }
        k = k + 1;
    }
    proof {
        lemma_view_words_skip(old(state).all_words@, n as int);
        lemma_view_words_skip(old(state).typed_words@, n as int);
        assert(state@.words =~= old(state)@.words.skip(n as int));
        assert(state@.typed =~= old(state)@.typed.skip(n as int));
    }
}

/// The trigger for eviction: the caret's column moved backwards since the
/// last frame (a wrap happened) while its line sits past the midpoint of
/// the visible lines.
pub open spec fn should_evict(
    last_cursor_x: int,
    cursor_x: int,
    cursor_y: int,
    num_text_lines_to_show: int,
    area_y: int,
) -> bool {
    last_cursor_x > cursor_x && cursor_y > num_text_lines_to_show / 2 + area_y
}

/// Evict the leading rendered line exactly when the caret wrapped past the
/// viewport's midpoint; otherwise leave the session untouched.
pub fn drop_line_if_necessary(
    state: &mut State,
    cursor_position: CursorPosition,
    last_cursor_x: usize,
    num_text_lines_to_show: usize,
    text_area_without_border: &Rect,
)
    requires
        old(state)@.typed.len() <= old(state)@.words.len(),
        forall|i: int|
            0 <= i < old(state)@.words.len() ==> (#[trigger] old(state)@.words[i]).len() <= 0xFFFF,
        forall|i: int|
            0 <= i < old(state)@.typed.len() ==> (#[trigger] old(state)@.typed[i]).len() <= 0xFFFF,
    ensures
        ({
            let evict = should_evict(
                last_cursor_x as int,
                cursor_position.x as int,
                cursor_position.y as int,
                num_text_lines_to_show as int,
                text_area_without_border.y as int,
            );
            let n = evict_count(
                old(state)@.typed,
                old(state)@.words,
                text_area_without_border.width as int,
            );
            &&& (evict ==> evicted_post(old(state)@, final(state)@, n))
            &&& (!evict ==> *final(state) == *old(state))
        }),
{
    if last_cursor_x > cursor_position.x && cursor_position.y > (num_text_lines_to_show / 2)
        + text_area_without_border.y as usize {
        drop_first_line(state, text_area_without_border);
    }
}

/// Eviction preserves positional correspondence: both buffers shrink by
/// the same count, and what remains is each old buffer sliced from that
/// count on.
pub proof fn lemma_evict_correspondence(typed: Seq<Seq<char>>, words: Seq<Seq<char>>, width: int)
    requires
        typed.len() <= words.len(),
    ensures
        ({
            let n = evict_count(typed, words, width);
            &&& 0 <= n <= typed.len()
            &&& words.skip(n).len() == words.len() - n
            &&& typed.skip(n).len() == typed.len() - n
            &&& forall|i: int| 0 <= i < words.len() - n ==> #[trigger] words.skip(n)[i] == words[i
                + n]
            &&& forall|i: int| 0 <= i < typed.len() - n ==> #[trigger] typed.skip(n)[i] == typed[i
                + n]
        }),
{
    lemma_evict_scan_bounds(typed, words, width, 0, 0);
}

} // verus!
