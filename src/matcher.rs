//! Compilation of a textual pattern into a matcher, and the two questions the
//! engine asks of a matcher: does a line hold a match, and what does the line
//! become once every match is replaced.
use vstd::prelude::*;

use crate::error::SubError;

verus! {

#[verifier::external_type_specification]
#[verifier::external_body]
pub struct ExRegex(regex::Regex);

/// Whether `pattern` is accepted by the regular-expression compiler, with
/// case-insensitive matching when `ignore_case` holds.
pub uninterp spec fn pattern_compiles(pattern: Seq<char>, ignore_case: bool) -> bool;

/// Whether the automaton compiled from `pattern` finds a match somewhere in
/// `text`.
pub uninterp spec fn pattern_matches(pattern: Seq<char>, ignore_case: bool, text: Seq<char>) -> bool;

/// `text` with every non-overlapping match of `pattern` replaced by the
/// template `replacement`, whose `$1`, `$name` references are expanded from
/// the match's capture groups.
pub uninterp spec fn pattern_replaced(
    pattern: Seq<char>,
    ignore_case: bool,
    text: Seq<char>,
    replacement: Seq<char>,
) -> Seq<char>;

/// The word-boundary assertion `\b`.
pub open spec fn word_boundary() -> Seq<char> {
    seq!['\\', 'b']
}

/// The pattern that is actually compiled: in whole-word mode the given one
/// wrapped in word-boundary assertions, otherwise the given one.
pub open spec fn effective_pattern(pattern: Seq<char>, whole_word: bool) -> Seq<char> {
    if whole_word {
        word_boundary() + pattern + word_boundary()
    } else {
        pattern
    }
}

/// Builds the text of the pattern to compile from the user's pattern.
pub fn effective_pattern_text(pattern: &str, whole_word: bool) -> (r: String)
    ensures
        r@ == effective_pattern(pattern@, whole_word),
{
    if whole_word {
        proof {
            reveal_strlit("\\b");
        }
        let mut text = String::from_str("\\b");
        text.append(pattern);
        text.append("\\b");
        text
    } else {
        pattern.to_owned()
    }
}

/// Relies on regex::RegexBuilder (`new`, `case_insensitive`, `build`): whether
/// a pattern compiles depends on its text and the case flag alone.
#[verifier::external_body]
fn build_regex(pattern: &str, ignore_case: bool) -> (r: Result<regex::Regex, regex::Error>)
    ensures
        r is Ok <==> pattern_compiles(pattern@, ignore_case),
{
    regex::RegexBuilder::new(pattern).case_insensitive(ignore_case).build()
}

/// A compiled pattern, together with the text and the case flag it was
/// compiled from. The fields are private and `Matcher::compile` is the only
/// way to make one, so `regex` is always the automaton of `pattern` under
/// `ignore_case`.
pub struct Matcher {
    regex: regex::Regex,
    pattern: String,
    ignore_case: bool,
}

impl Matcher {
    /// The pattern text this matcher was compiled from.
    pub closed spec fn pattern(&self) -> Seq<char> {
        self.pattern@
    }

    /// Whether this matcher ignores case.
    pub closed spec fn ignore_case(&self) -> bool {
        self.ignore_case
    }

    /// Whether this matcher finds a match in `text`.
    pub open spec fn matches(&self, text: Seq<char>) -> bool {
        pattern_matches(self.pattern(), self.ignore_case(), text)
    }

    /// What `text` becomes when every match is replaced by `replacement`; a
    /// text without a match stays as it is.
    pub open spec fn replaced(&self, text: Seq<char>, replacement: Seq<char>) -> Seq<char> {
        if self.matches(text) {
            pattern_replaced(self.pattern(), self.ignore_case(), text, replacement)
        } else {
            text
        }
    }

    /// Compiles `pattern`, case-insensitively when `ignore_case` holds.
    pub fn compile(pattern: &str, ignore_case: bool) -> (r: Result<Matcher, SubError>)
        ensures
            r is Ok <==> pattern_compiles(pattern@, ignore_case),
            r matches Ok(m) ==> m.pattern() == pattern@ && m.ignore_case() == ignore_case,
            r matches Err(e) ==> e is RegexError,
    {
        match build_regex(pattern, ignore_case) {
            Ok(regex) => Ok(Matcher { regex, pattern: pattern.to_owned(), ignore_case }),
            Err(e) => Err(SubError::RegexError(e)),
        }
    }

    /// Relies on regex::Regex::is_match: whether the automaton finds a match
    /// in `text`.
    #[verifier::external_body]
    pub(crate) fn is_match(&self, text: &str) -> (r: bool)
        ensures
            r == pattern_matches(self.pattern(), self.ignore_case(), text@),
    {
        self.regex.is_match(text)
    }

    /// Relies on regex::Regex::replace_all with a `&str` template: every
    /// non-overlapping match replaced, and a text without a match returned
    /// unchanged.
    #[verifier::external_body]
    pub(crate) fn replace_all(&self, text: &str, replacement: &str) -> (r: String)
        ensures
            pattern_matches(self.pattern(), self.ignore_case(), text@) ==> r@ == pattern_replaced(
                self.pattern(),
                self.ignore_case(),
                text@,
                replacement@,
            ),
            !pattern_matches(self.pattern(), self.ignore_case(), text@) ==> r@ == text@,
    {
        self.regex.replace_all(text, replacement).into_owned()
    }
}

} // verus!
