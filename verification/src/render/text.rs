//! The per-character word diff: how one word is shown, and the whole
//! frame's text.

use vstd::prelude::*;
use vstd::string::StrSliceExecFns;

use crate::state::{view_words, State};

verus! {

/// How one display position is drawn.
#[derive(Clone, Copy, Debug, PartialEq, Eq, Structural)]
pub enum Category {
    Correct,
    Incorrect,
    Pending,
}

/// One display position of a word: its character and its category.
#[derive(Clone, Copy, Debug, PartialEq, Eq, Structural)]
pub struct ClassifiedChar {
    pub ch: char,
    pub category: Category,
}

/// A committed word reserves the wider of the typed entry and its target,
/// so the two buffers stay visually aligned even when their lengths differ.
pub open spec fn display_width(typed: Seq<char>, expected: Seq<char>) -> int {
    if typed.len() >= expected.len() {
        typed.len() as int
    } else {
        expected.len() as int
    }
}

/// Display position `i` of `typed` held against `expected`: a position
/// present in both is correct exactly when the characters match; a position
/// only in `typed` is overtyped and always incorrect; a position only in
/// `expected` is a missing tail — an error once the word is committed,
/// otherwise still pending.
pub open spec fn char_class(
    typed: Seq<char>,
    expected: Seq<char>,
    completed: bool,
    i: int,
) -> ClassifiedChar {
    if i < typed.len() && i < expected.len() {
        ClassifiedChar {
            ch: typed[i],
            category: if typed[i] == expected[i] {
                Category::Correct
            } else {
                Category::Incorrect
            },
        }
    } else if i < typed.len() {
        ClassifiedChar { ch: typed[i], category: Category::Incorrect }
    } else {
        ClassifiedChar {
            ch: expected[i],
            category: if completed {
                Category::Incorrect
            } else {
                Category::Pending
            },
        }
    }
}

/// Every display position of a word, classified.
pub open spec fn word_marks(typed: Seq<char>, expected: Seq<char>, completed: bool) -> Seq<
    ClassifiedChar,
> {
    Seq::new(display_width(typed, expected) as nat, |i: int| char_class(typed, expected, completed, i))
}

/// One word as the renderer draws it: each display position classified,
/// plus the whole-word error highlight layered on top when a committed
/// word differs from its target anywhere.
pub struct RenderedWord {
    pub chars: Vec<ClassifiedChar>,
    pub whole_word_error: bool,
}

/// Whether two strings hold the same characters.
pub fn str_chars_eq(a: &str, b: &str) -> (r: bool)
    ensures
        r == (a@ == b@),
{
    let a_len = a.unicode_len();
    let b_len = b.unicode_len();
    if a_len != b_len {
        proof {
            assert(a@ != b@) by {
                if a@ == b@ {
                    assert(a@.len() == b@.len());
                }
            }
        }
        return false;
    }
    let mut i: usize = 0;
    while i < a_len
        invariant
            i <= a_len,
            a_len as int == a@.len(),
            a_len as int == b@.len(),
            forall|j: int| 0 <= j < i ==> a@[j] == b@[j],
        decreases a_len - i,
    {
        let ac = a.get_char(i);
        let bc = b.get_char(i);
        if ac != bc {
            proof {
                assert(a@ != b@) by {
                    if a@ == b@ {
                        assert(a@[i as int] == b@[i as int]);
                    }
                }
            }
            return false;
        }
        i = i + 1;
    }
    proof {
        assert(a@ =~= b@);
    }
    true
}

/// The display width of a committed word: the wider of the typed entry and
/// its target.
pub fn word_display_len(s1: &str, s2: &str) -> (r: usize)
    ensures
        r as int == display_width(s1@, s2@),
{
    let a = s1.unicode_len();
    let b = s2.unicode_len();
    if a >= b {
        a
    } else {
        b
    }
}

/// The display width of a committed word, under the name the cursor
/// computation knows it by.
pub fn get_typed_word_len(s1: &str, s2: &str) -> (r: usize)
    ensures
        r as int == display_width(s1@, s2@),
{
    word_display_len(s1, s2)
}

/// Classify a typed word against its target, position by position, walking
/// both strings up to the length of the longer one.  The output depends on
/// the three arguments alone and has one entry per display position.
pub fn classify(typed: &str, expected: &str, completed: bool) -> (r: RenderedWord)
    ensures
        r.chars@ == word_marks(typed@, expected@, completed),
        r.chars@.len() == display_width(typed@, expected@),
        r.whole_word_error == (completed && typed@ != expected@),
{
    let typed_len = typed.unicode_len();
    let expected_len = expected.unicode_len();
    let n = if typed_len >= expected_len {
        typed_len
    } else {
        expected_len
    };
    let mut chars: Vec<ClassifiedChar> = Vec::new();
    let mut i: usize = 0;
    while i < n
        invariant
            i <= n,
            n as int == display_width(typed@, expected@),
            typed_len as int == typed@.len(),
            expected_len as int == expected@.len(),
            chars@ =~= word_marks(typed@, expected@, completed).take(i as int),
        decreases n - i,
    {
        let entry = if i < typed_len && i < expected_len {
            let t = typed.get_char(i);
            let e = expected.get_char(i);
            ClassifiedChar {
                ch: t,
                category: if t == e {
                    Category::Correct
                } else {
                    Category::Incorrect
                },
            }
        } else if i < typed_len {
            ClassifiedChar { ch: typed.get_char(i), category: Category::Incorrect }
        } else {
            let e = expected.get_char(i);
            ClassifiedChar {
                ch: e,
                category: if completed {
                    Category::Incorrect
                } else {
                    Category::Pending
                },
            }
        };
        chars.push(entry);
        i = i + 1;
        proof {
            assert(chars@ =~= word_marks(typed@, expected@, completed).take(i as int));
        }
    }
    let whole_word_error = completed && !str_chars_eq(typed, expected);
    proof {
        assert(chars@ =~= word_marks(typed@, expected@, completed));
    }
    RenderedWord { chars, whole_word_error }
}

/// The text of one frame: every committed word classified against its
/// target, the in-progress word classified against its target, and the
/// untouched tail of the target buffer.
pub struct TextFrame {
    pub words: Vec<RenderedWord>,
    pub current: RenderedWord,
    pub upcoming: Vec<String>,
}

/// Build the frame's text from the session state.  Committed words carry
/// the whole-word error highlight exactly when they differ from their
/// target; the in-progress word never does.
pub fn render_text(state: &State) -> (r: TextFrame)
    requires
        state@.has_current_target(),
    ensures
        r.words@.len() == state@.typed.len(),
        forall|i: int|
            0 <= i < r.words@.len() ==> (#[trigger] r.words@[i]).chars@ == word_marks(
                state@.typed[i],
                state@.words[i],
                true,
            ),
        forall|i: int|
            0 <= i < r.words@.len() ==> (#[trigger] r.words@[i]).whole_word_error == (
            state@.typed[i] != state@.words[i]),
        r.current.chars@ == word_marks(state@.cur, state@.current_target(), false),
        r.current.whole_word_error == false,
        view_words(r.upcoming@) == state@.words.skip(state@.typed.len() + 1 as int),
{
    let num_typed = state.typed_words.len();
    let mut words: Vec<RenderedWord> = Vec::new();
    let mut i: usize = 0;
    while i < num_typed
        invariant
            i <= num_typed,
            num_typed as int == state@.typed.len(),
            state@.typed.len() < state@.words.len(),
            words@.len() == i,
            forall|j: int|
                0 <= j < i ==> (#[trigger] words@[j]).chars@ == word_marks(
                    state@.typed[j],
                    state@.words[j],
                    true,
                ),
            forall|j: int|
                0 <= j < i ==> (#[trigger] words@[j]).whole_word_error == (state@.typed[j]
                    != state@.words[j]),
        decreases num_typed - i,
    {
        let rw = classify(state.typed_words[i].as_str(), state.all_words[i].as_str(), true);
        words.push(rw);
        i = i + 1;
    }
    let current = classify(
        state.current_word.as_str(),
        state.all_words[num_typed].as_str(),
        false,
    );
    let total = state.all_words.len();
    let mut upcoming: Vec<String> = Vec::new();
    let mut j: usize = num_typed + 1;
    while j < total
        invariant
            num_typed + 1 <= j <= total,
            total as int == state@.words.len(),
            upcoming@.len() == j - (num_typed + 1),
            forall|t: int|
                0 <= t < upcoming@.len() ==> (#[trigger] upcoming@[t])@ == state@.words[num_typed
                    + 1 + t],
        decreases total - j,
    {
        upcoming.push(state.all_words[j].clone());
        j = j + 1;
    }
    proof {
        assert(view_words(upcoming@) =~= state@.words.skip(state@.typed.len() + 1 as int));
    }
    TextFrame { words, current, upcoming }
}

} // verus!
