//! The wrap-aware caret position: where the next character will land,
//! given the viewport width and the two word buffers.

use vstd::prelude::*;
use vstd::string::StrSliceExecFns;

use crate::render::text::{display_width, word_display_len};
use crate::state::{SessionView, State};

verus! {

/// A rectangle of the terminal: the top-left corner and the inner size of
/// the text box, borders already excluded.
#[derive(Clone, Copy, Debug, PartialEq, Eq, Structural)]
pub struct Rect {
    pub x: u16,
    pub y: u16,
    pub width: u16,
    pub height: u16,
}

/// Where the caret is drawn.
#[derive(Clone, Copy, Debug, PartialEq, Eq, Structural)]
pub struct CursorPosition {
    pub x: usize,
    pub y: usize,
}

/// Greedy word wrap over the first `n` committed words (`1 <= n`): the
/// wrapped line the n-th word sits on, and that line's occupied width once
/// the word is placed.  A word that does not fit after a separating space
/// opens a new line by itself.
pub open spec fn scan_lines(
    typed: Seq<Seq<char>>,
    words: Seq<Seq<char>>,
    width: int,
    n: int,
) -> (int, int)
    decreases n,
{
    if n <= 1 {
        (0, display_width(typed[0], words[0]))
    } else {
        let prev = scan_lines(typed, words, width, n - 1);
        let w = display_width(typed[n - 1], words[n - 1]);
        if prev.1 + 1 + w > width {
            (prev.0 + 1, w)
        } else {
            (prev.0, prev.1 + 1 + w)
        }
    }
}

/// The caret position relative to the text box, mirroring how the text is
/// wrapped: with no committed word the caret sits on the seed line at the
/// in-progress word's length; otherwise the committed words are wrapped
/// greedily, a separator follows the last of them, and the in-progress
/// word either fits on that line or opens a fresh one.  The in-progress
/// word wraps by the wider of itself and its target, but the caret moves
/// by the typed length alone.
pub open spec fn cursor_spec(v: SessionView, width: int) -> (int, int) {
    if v.typed.len() == 0 {
        (v.cur.len() as int, 0)
    } else {
        let scanned = scan_lines(v.typed, v.words, width, v.typed.len() as int);
        let line_len = scanned.1 + 1;
        let next_w = display_width(v.cur, v.current_target());
        if line_len + next_w > width {
            (v.cur.len() as int, scanned.0 + 2)
        } else {
            (line_len + v.cur.len(), scanned.0 + 1)
        }
    }
}

/// Sizes under which the layout arithmetic stays inside machine integers:
/// a terminal row holds at most `u16::MAX` cells, so buffered words and
/// the viewport are bounded by that, while the in-progress word and the
/// committed count only need headroom for the final additions.
pub open spec fn layout_bounded(v: SessionView, width: int) -> bool {
    &&& 0 <= width <= 0xFFFF
    &&& forall|i: int| 0 <= i < v.words.len() ==> (#[trigger] v.words[i]).len() <= 0xFFFF
    &&& forall|i: int| 0 <= i < v.typed.len() ==> (#[trigger] v.typed[i]).len() <= 0xFFFF
    &&& v.cur.len() + 0x30002 <= usize::MAX
    &&& v.typed.len() + 0x10002 <= usize::MAX
}

/// The wrap scan stays on a line of the committed words and never fills a
/// line beyond one word more than the viewport width allows.
proof fn lemma_scan_lines_bounds(typed: Seq<Seq<char>>, words: Seq<Seq<char>>, width: int, n: int)
    requires
        1 <= n <= typed.len(),
        typed.len() <= words.len(),
        width <= 0xFFFF,
        forall|i: int| 0 <= i < words.len() ==> (#[trigger] words[i]).len() <= 0xFFFF,
        forall|i: int| 0 <= i < typed.len() ==> (#[trigger] typed[i]).len() <= 0xFFFF,
    ensures
        0 <= scan_lines(typed, words, width, n).0 <= n - 1,
        0 <= scan_lines(typed, words, width, n).1 <= 0xFFFF,
    decreases n,
{
    if n > 1 {
        lemma_scan_lines_bounds(typed, words, width, n - 1);
    }
}

/// The caret position relative to the text box, per `cursor_spec`.
pub fn locate(state: &State, viewport_width: usize) -> (r: CursorPosition)
    requires
        state@.has_current_target(),
        layout_bounded(state@, viewport_width as int),
    ensures
        r.x as int == cursor_spec(state@, viewport_width as int).0,
        r.y as int == cursor_spec(state@, viewport_width as int).1,
{
    let num_typed = state.typed_words.len();
    let cur_len = state.current_word.as_str().unicode_len();
    if num_typed == 0 {
        return CursorPosition { x: cur_len, y: 0 };
    }
    let mut current_line: usize = 0;
    let mut current_line_len: usize = word_display_len(
        state.typed_words[0].as_str(),
        state.all_words[0].as_str(),
    );
    let mut i: usize = 1;
    while i < num_typed
        invariant
            1 <= i <= num_typed,
            num_typed as int == state@.typed.len(),
            state@.has_current_target(),
            layout_bounded(state@, viewport_width as int),
            (current_line as int, current_line_len as int) == scan_lines(
                state@.typed,
                state@.words,
                viewport_width as int,
                i as int,
            ),
            current_line <= i - 1,
            current_line_len <= 0xFFFF,
        decreases num_typed - i,
    {
        let w = word_display_len(state.typed_words[i].as_str(), state.all_words[i].as_str());
        proof {
            assert(state@.typed[i as int] == state.typed_words@[i as int]@);
            assert(state@.words[i as int] == state.all_words@[i as int]@);
            assert(state@.typed[i as int].len() <= 0xFFFF);
            assert(state@.words[i as int].len() <= 0xFFFF);
        }
        if current_line_len + 1 + w > viewport_width {
            current_line_len = w;
            current_line = current_line + 1;
        } else {
            current_line_len = current_line_len + 1 + w;
        }
        i = i + 1;
    }
    let line_len = current_line_len + 1;
    let next_w = word_display_len(
        state.current_word.as_str(),
        state.all_words[num_typed].as_str(),
    );
    proof {
        assert(state@.words[num_typed as int] == state.all_words@[num_typed as int]@);
        assert(state@.words[num_typed as int].len() <= 0xFFFF);
    }
    if line_len + next_w > viewport_width {
        CursorPosition { x: cur_len, y: current_line + 2 }
    } else {
        CursorPosition { x: line_len + cur_len, y: current_line + 1 }
    }
}

/// The caret position offset by the text box's top-left corner, as the
/// renderer places the hardware cursor.
pub fn get_cursor_position(state: &State, text_area_without_border: Rect) -> (r: CursorPosition)
    requires
        state@.has_current_target(),
        layout_bounded(state@, text_area_without_border.width as int),
    ensures
        r.x as int == cursor_spec(state@, text_area_without_border.width as int).0
            + text_area_without_border.x,
        r.y as int == cursor_spec(state@, text_area_without_border.width as int).1
            + text_area_without_border.y,
{
    proof {
        if state@.typed.len() > 0 {
            lemma_scan_lines_bounds(
                state@.typed,
                state@.words,
                text_area_without_border.width as int,
                state@.typed.len() as int,
            );
        }
    }
    let rel = locate(state, text_area_without_border.width as usize);
    CursorPosition {
        x: rel.x + text_area_without_border.x as usize,
        y: rel.y + text_area_without_border.y as usize,
    }
}

/// Cursor monotonicity: for a fixed viewport width, appending a character
/// to the in-progress word never moves the caret to an earlier line.  On
/// the same line the caret advances by exactly one cell; when the longer
/// word wraps, the line advances by exactly one and the caret restarts at
/// the new word length.
pub proof fn lemma_cursor_monotonic(v: SessionView, c: char, width: int)
    requires
        v.has_current_target(),
    ensures
        ({
            let before = cursor_spec(v, width);
            let after = cursor_spec((SessionView { cur: v.cur.push(c), ..v }), width);
            &&& after.1 >= before.1
            &&& (after.1 == before.1 ==> after.0 == before.0 + 1)
            &&& (after.1 != before.1 ==> after.1 == before.1 + 1 && after.0 == v.cur.len() + 1)
        }),
{
    let v2 = SessionView { cur: v.cur.push(c), ..v };
    assert(v2.cur.len() == v.cur.len() + 1);
    if v.typed.len() > 0 {
        assert(scan_lines(v2.typed, v2.words, width, v2.typed.len() as int) == scan_lines(
            v.typed,
            v.words,
            width,
            v.typed.len() as int,
        ));
        assert(display_width(v2.cur, v2.current_target()) >= display_width(
            v.cur,
            v.current_target(),
        ));
    }
}

} // verus!
