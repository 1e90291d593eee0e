//! Session state: the two word buffers, the word being typed, the clock
//! anchor, the score counters and the terminal-transition flags.

use vstd::prelude::*;

verus! {

/// Running tallies of committed words.
pub struct Counters {
    pub attempted_word_count: usize,
    pub correctly_typed_word_count: usize,
}

impl Counters {
    /// A word is only counted correct when it was also counted attempted.
    pub open spec fn wf(&self) -> bool {
        self.correctly_typed_word_count <= self.attempted_word_count
    }
}

impl Default for Counters {
    fn default() -> (r: Counters)
        ensures
            r.attempted_word_count == 0,
            r.correctly_typed_word_count == 0,
    {
        Counters { attempted_word_count: 0, correctly_typed_word_count: 0 }
    }
}

/// The mathematical picture of a session that every contract speaks of:
/// words as character sequences and counters as unbounded integers.
#[verifier::ext_equal]
pub ghost struct SessionView {
    /// Target words, in order; index `typed.len()` is the word being typed.
    pub words: Seq<Seq<char>>,
    /// Committed entries, compared to `words` position by position.
    pub typed: Seq<Seq<char>>,
    /// The in-progress word.
    pub cur: Seq<char>,
    pub start_time: Option<u64>,
    pub attempted: int,
    pub correct: int,
    pub quit: bool,
    pub retry: bool,
    pub complete: bool,
}

impl SessionView {
    /// There is a target word left for the in-progress entry.
    pub open spec fn has_current_target(&self) -> bool {
        self.typed.len() < self.words.len()
    }

    /// The target word the in-progress entry is compared against.
    pub open spec fn current_target(&self) -> Seq<char> {
        self.words[self.typed.len() as int]
    }
}

/// The character sequences behind a buffer of words.
pub open spec fn view_words(v: Seq<String>) -> Seq<Seq<char>> {
    Seq::new(v.len(), |i: int| v[i]@)
}

pub proof fn lemma_view_words_push(v: Seq<String>, x: String)
    ensures
        view_words(v.push(x)) =~= view_words(v).push(x@),
{
}

pub proof fn lemma_view_words_drop_last(v: Seq<String>)
    requires
        v.len() > 0,
    ensures
        view_words(v.drop_last()) =~= view_words(v).drop_last(),
{
}

pub proof fn lemma_view_words_skip(v: Seq<String>, n: int)
    requires
        0 <= n <= v.len(),
    ensures
        view_words(v.skip(n)) =~= view_words(v).skip(n),
{
}

/// The sole mutable entity of a session, owned by the session loop.
pub struct State {
    pub start_time: Option<u64>,
    pub quit: bool,
    pub retry: bool,
    pub complete: bool,
    pub all_words: Vec<String>,
    pub typed_words: Vec<String>,
    pub current_word: String,
    pub counters: Counters,
}

impl View for State {
    type V = SessionView;

    open spec fn view(&self) -> SessionView {
        SessionView {
            words: view_words(self.all_words@),
            typed: view_words(self.typed_words@),
            cur: self.current_word@,
            start_time: self.start_time,
            attempted: self.counters.attempted_word_count as int,
            correct: self.counters.correctly_typed_word_count as int,
            quit: self.quit,
            retry: self.retry,
            complete: self.complete,
        }
    }
}

impl Default for State {
    fn default() -> (r: State)
        ensures
            r@.words.len() == 0,
            r@.typed.len() == 0,
            r@.cur.len() == 0,
            r@.start_time is None,
            r@.attempted == 0,
            r@.correct == 0,
            !r@.quit,
            !r@.retry,
            !r@.complete,
    {
        State {
            start_time: None,
            quit: false,
            retry: false,
            complete: false,
            all_words: Vec::new(),
            typed_words: Vec::new(),
            current_word: String::new(),
            counters: Counters::default(),
        }
    }
}

} // verus!
