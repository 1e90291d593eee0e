//! Startup configuration.

use vstd::prelude::*;

verus! {

/// The startup configuration: where the word list lives, how many text
/// lines the viewport shows, the length range a served word must fit,
/// and the session duration in seconds.
pub struct CliOptions {
    pub dictionary_path: String,
    pub display_lines: usize,
    pub min_word_len: usize,
    pub max_word_len: usize,
    pub time_limit: u64,
}

impl Default for CliOptions {
    fn default() -> (r: CliOptions)
        ensures
            r.dictionary_path@ == "google-10000-english-usa.txt"@,
            r.display_lines == 5,
            r.min_word_len == 3,
            r.max_word_len == 7,
            r.time_limit == 15,
    {
        CliOptions {
            dictionary_path: "google-10000-english-usa.txt".to_owned(),
            display_lines: 5,
            min_word_len: 3,
            max_word_len: 7,
            time_limit: 15,
        }
    }
}

} // verus!
