//! A substitution job: what to replace, with what, how, and in which inputs.
use vstd::prelude::*;

use crate::error::SubError;
use crate::lines::split_lines;
use crate::matcher::{effective_pattern, effective_pattern_text, pattern_compiles, Matcher};
use crate::transcode::{all_valid_utf8, rewrite_lines, Substitution};

verus! {

/// One source of text.
#[derive(Debug, Clone)]
pub enum Input {
    /// The process's standard input.
    StdIn,
    /// A file, by path.
    File(String),
}

/// The configuration of one run, fixed before any input is read.
#[derive(Debug, Clone)]
pub struct Sub {
    /// The primary pattern, whose matches are replaced.
    pub pattern: String,
    /// The replacement template; `$1` and `$name` refer to capture groups.
    pub replacement: String,
    /// Whether file inputs are rewritten in place.
    pub in_place: bool,
    /// Whether the primary pattern only matches whole words.
    pub whole_word: bool,
    /// The line filter: only lines it matches are considered.
    pub match_pattern: Option<String>,
    /// Whether both patterns ignore case.
    pub ignore_case: bool,
    /// The inputs, in the order they are processed.
    pub inputs: Vec<Input>,
}

impl Sub {
    /// The primary pattern as compiled.
    pub open spec fn primary_pattern(&self) -> Seq<char> {
        effective_pattern(self.pattern@, self.whole_word)
    }

    /// The line filter's text, if there is one.
    pub open spec fn filter_pattern(&self) -> Option<Seq<char>> {
        match self.match_pattern {
            None => None,
            Some(m) => Some(m@),
        }
    }

    /// Whether both patterns compile.
    pub open spec fn compiles(&self) -> bool {
        &&& pattern_compiles(self.primary_pattern(), self.ignore_case)
        &&& self.filter_pattern() matches Some(f) ==> pattern_compiles(f, self.ignore_case)
    }

    /// The text this job produces for a sequence of raw lines.
    pub open spec fn rewrite_all(&self, lines: Seq<Seq<u8>>) -> Seq<char> {
        rewrite_lines(
            self.primary_pattern(),
            self.ignore_case,
            self.filter_pattern(),
            self.replacement@,
            lines,
        )
    }

    /// Compiles the primary pattern (wrapped in word boundaries in whole-word
    /// mode) and the line filter, both under the job's case setting. Either
    /// failing fails the job.
    pub fn compile(&self) -> (r: Result<Substitution, SubError>)
        ensures
            r is Ok <==> self.compiles(),
            r matches Ok(s) ==> {
                &&& s.pattern() == self.primary_pattern()
                &&& s.ignore_case() == self.ignore_case
                &&& s.filter() == self.filter_pattern()
                &&& s.replacement() == self.replacement@
            },
            r matches Err(e) ==> e is RegexError,
    {
        let text = effective_pattern_text(self.pattern.as_str(), self.whole_word);
        let matcher = match Matcher::compile(text.as_str(), self.ignore_case) {
            Ok(m) => m,
            Err(e) => {
                return Err(e);
            },
        };
        let filter = match &self.match_pattern {
            None => None,
            Some(m) => match Matcher::compile(m.as_str(), self.ignore_case) {
                Ok(f) => Some(f),
                Err(e) => {
                    return Err(e);
                },
            },
        };
        Ok(Substitution::new(matcher, filter, self.replacement.clone()))
    }

    /// Runs the job over one whole input held in memory: compiles the
    /// patterns, then transcodes every line.
    pub fn replace(&self, input: &[u8]) -> (r: Result<String, SubError>)
        ensures
            !self.compiles() ==> (r matches Err(e) && e is RegexError),
            self.compiles() ==> (r is Ok <==> all_valid_utf8(split_lines(input@))),
            self.compiles() ==> (r matches Err(e) ==> e is InvalidUTF8),
            r matches Ok(s) ==> s@ == self.rewrite_all(split_lines(input@)),
    {
        match self.compile() {
            Err(e) => Err(e),
            Ok(s) => s.transcode(input),
        }
    }
}

} // verus!
