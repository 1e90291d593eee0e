//! The word source: a length-filtered word list and uniform random draws
//! from it.

use vstd::prelude::*;
use vstd::string::StrSliceExecFns;

use rand::Rng;

use crate::state::{lemma_view_words_push, State};

verus! {

/// The words whose character length lies within the inclusive bounds, in
/// their original order.
pub open spec fn filter_by_len(ws: Seq<Seq<char>>, min_len: int, max_len: int) -> Seq<Seq<char>>
    decreases ws.len(),
{
    if ws.len() == 0 {
        Seq::empty()
    } else {
        let rest = filter_by_len(ws.drop_last(), min_len, max_len);
        if min_len <= ws.last().len() <= max_len {
            rest.push(ws.last())
        } else {
            rest
        }
    }
}

/// Whether `w` spells a word of the dictionary buffer `d`.
pub open spec fn word_in(d: Seq<String>, w: Seq<char>) -> bool {
    exists|i: int| 0 <= i < d.len() && (#[trigger] d[i])@ == w
}

/// Relies on rand::Rng::gen_range over `0..n`, via rand::thread_rng: a
/// value below `n`.  The call panics only on an empty range, which the
/// precondition rules out; nothing more is promised of a random draw.
#[verifier::external_body]
fn random_below(n: usize) -> (r: usize)
    requires
        n > 0,
    ensures
        r < n,
{
    rand::thread_rng().gen_range(0..n)
}

/// The word source the session draws its targets from.
pub struct Dictionary {
    pub words: Vec<String>,
}

impl Dictionary {
    /// Keep exactly the lines whose character length lies within the
    /// inclusive bounds, in order.
    pub fn from_words(lines: Vec<String>, min_word_len: usize, max_word_len: usize) -> (d:
        Dictionary)
        ensures
            crate::state::view_words(d.words@) == filter_by_len(
                crate::state::view_words(lines@),
                min_word_len as int,
                max_word_len as int,
            ),
    {
        let ghost gl = crate::state::view_words(lines@);
        let mut words: Vec<String> = Vec::new();
        let n = lines.len();
        let mut i: usize = 0;
        while i < n
            invariant
                i <= n,
                n == lines@.len(),
                gl == crate::state::view_words(lines@),
                crate::state::view_words(words@) == filter_by_len(
                    gl.take(i as int),
                    min_word_len as int,
                    max_word_len as int,
                ),
            decreases n - i,
        {
            let len = lines[i].as_str().unicode_len();
            let ghost prev = words@;
            if min_word_len <= len && len <= max_word_len {
                words.push(lines[i].clone());
                proof {
                    lemma_view_words_push(prev, lines@[i as int]);
                }
            }
            proof {
                assert(gl.take(i + 1).drop_last() =~= gl.take(i as int));
                assert(gl.take(i + 1).last() == gl[i as int]);
                assert(crate::state::view_words(words@) =~= filter_by_len(
                    gl.take(i + 1),
                    min_word_len as int,
                    max_word_len as int,
                ));
            }
            i = i + 1;
        }
        proof {
            assert(gl.take(n as int) =~= gl);
        }
        Dictionary { words }
    }

    /// One random word of the dictionary.  Which one is the draw's
    /// affair; that it spells a dictionary word is not.
    pub fn get_random_word(&self) -> (w: String)
        requires
            self.words@.len() > 0,
        ensures
            word_in(self.words@, w@),
    {
        let idx = random_below(self.words.len());
        let w = self.words[idx].clone();
        proof {
            assert((self.words@[idx as int])@ == w@);
        }
        w
    }

    /// Top the target buffer up to `num_words` entries with random
    /// dictionary words.  What was buffered stays, in place; everything
    /// else in the session is untouched.
    pub fn load_words(&self, state: &mut State, num_words: usize)
        requires
            self.words@.len() > 0,
        ensures
            final(state)@.words.len() == (if old(state)@.words.len() >= num_words {
                old(state)@.words.len() as int
            } else {
                num_words as int
            }),
            final(state)@.words.take(old(state)@.words.len() as int) == old(state)@.words,
            forall|j: int|
                old(state)@.words.len() <= j < final(state)@.words.len() ==> word_in(
                    self.words@,
                    #[trigger] final(state)@.words[j],
                ),
            old(state)@.words.len() >= num_words ==> final(state)@ == old(state)@,
            final(state)@.typed == old(state)@.typed,
            final(state)@.cur == old(state)@.cur,
            final(state)@.attempted == old(state)@.attempted,
            final(state)@.correct == old(state)@.correct,
            final(state)@.start_time == old(state)@.start_time,
            final(state)@.quit == old(state)@.quit,
            final(state)@.retry == old(state)@.retry,
            final(state)@.complete == old(state)@.complete,
    {
        let ghost initial = old(state)@.words;
        while state.all_words.len() < num_words
            invariant
                self.words@.len() > 0,
                initial == old(state)@.words,
                state@.words.len() >= initial.len(),
                state@.words.take(initial.len() as int) == initial,
                initial.len() < num_words ==> state@.words.len() <= num_words,
                initial.len() >= num_words ==> *state == *old(state),
                forall|j: int|
                    initial.len() <= j < state@.words.len() ==> word_in(
                        self.words@,
                        #[trigger] state@.words[j],
                    ),
                state@.typed == old(state)@.typed,
                state@.cur == old(state)@.cur,
                state.typed_words == old(state).typed_words,
                state.current_word == old(state).current_word,
                state.counters == old(state).counters,
                state.start_time == old(state).start_time,
                state.quit == old(state).quit,
                state.retry == old(state).retry,
                state.complete == old(state).complete,
            decreases num_words - state.all_words.len(),
        {
            let w = self.get_random_word();
            let ghost prev = state.all_words@;
            state.all_words.push(w);
            proof {
                lemma_view_words_push(prev, state.all_words@.last());
                assert(state@.words.take(initial.len() as int) =~= initial);
            }
        }
    }
}

} // verus!
