//! The line transcoder: decodes each line, decides by the line filter whether
//! the line is considered at all, and replaces every match of the primary
//! pattern in it. Lines keep their terminators, since they are split after
//! each line feed and never normalised.
use vstd::prelude::*;
use vstd::slice::slice_subrange;
use vstd::utf8::{decode_utf8, encode_utf8, valid_utf8};

use crate::error::SubError;
use crate::lines::{
    find_line_end,
    join_lines,
    lemma_line_end_bounds,
    lemma_lines_join_to_input,
    lines_from,
    split_lines,
};
use crate::matcher::{pattern_matches, pattern_replaced, Matcher};

verus! {

broadcast use vstd::utf8::group_utf8_lib;

/// Whether a line is considered for substitution: always without a filter,
/// and otherwise exactly when the filter matches it.
pub open spec fn selected(filter: Option<Seq<char>>, ignore_case: bool, text: Seq<char>) -> bool {
    match filter {
        None => true,
        Some(f) => pattern_matches(f, ignore_case, text),
    }
}

/// What one decoded line becomes: every match of `pattern` replaced when the
/// line is selected and holds a match, the line itself otherwise.
pub open spec fn rewrite_line(
    pattern: Seq<char>,
    ignore_case: bool,
    filter: Option<Seq<char>>,
    replacement: Seq<char>,
    text: Seq<char>,
) -> Seq<char> {
    if selected(filter, ignore_case, text) && pattern_matches(pattern, ignore_case, text) {
        pattern_replaced(pattern, ignore_case, text, replacement)
    } else {
        text
    }
}

/// The text produced for a sequence of raw lines: each decoded and rewritten,
/// in order.
pub open spec fn rewrite_lines(
    pattern: Seq<char>,
    ignore_case: bool,
    filter: Option<Seq<char>>,
    replacement: Seq<char>,
    lines: Seq<Seq<u8>>,
) -> Seq<char>
    decreases lines.len(),
{
    if lines.len() == 0 {
        seq![]
    } else {
        rewrite_lines(pattern, ignore_case, filter, replacement, lines.drop_last()) + rewrite_line(
            pattern,
            ignore_case,
            filter,
            replacement,
            decode_utf8(lines.last()),
        )
    }
}

/// Whether every line is well-formed UTF-8.
pub open spec fn all_valid_utf8(lines: Seq<Seq<u8>>) -> bool {
    forall|i: int| 0 <= i < lines.len() ==> valid_utf8(#[trigger] lines[i])
}

/// Relies on std::str::from_utf8: it accepts exactly the well-formed UTF-8
/// byte strings, and the text it returns is the one those bytes encode.
#[verifier::external_body]
fn decode_text(bytes: &[u8]) -> (r: Option<&str>)
    ensures
        r is Some <==> valid_utf8(bytes@),
        r matches Some(s) ==> encode_utf8(s@) == bytes@,
{
    std::str::from_utf8(bytes).ok()
}

/// The compiled form of a job: the primary matcher, the optional line filter
/// and the replacement template. Both matchers share one case setting.
pub struct Substitution {
    matcher: Matcher,
    filter: Option<Matcher>,
    replacement: String,
}

impl Substitution {
    #[verifier::type_invariant]
    spec fn same_case_setting(&self) -> bool {
        self.filter matches Some(f) ==> f.ignore_case() == self.matcher.ignore_case()
    }

    /// The text of the primary pattern as compiled.
    pub closed spec fn pattern(&self) -> Seq<char> {
        self.matcher.pattern()
    }

    /// Whether matching ignores case.
    pub closed spec fn ignore_case(&self) -> bool {
        self.matcher.ignore_case()
    }

    /// The text of the line filter, if there is one.
    pub closed spec fn filter(&self) -> Option<Seq<char>> {
        match self.filter {
            None => None,
            Some(f) => Some(f.pattern()),
        }
    }

    /// The replacement template.
    pub closed spec fn replacement(&self) -> Seq<char> {
        self.replacement@
    }

    /// What one decoded line becomes.
    pub open spec fn rewrite(&self, text: Seq<char>) -> Seq<char> {
        rewrite_line(self.pattern(), self.ignore_case(), self.filter(), self.replacement(), text)
    }

    /// The text produced for a sequence of raw lines.
    pub open spec fn rewrite_all(&self, lines: Seq<Seq<u8>>) -> Seq<char> {
        rewrite_lines(self.pattern(), self.ignore_case(), self.filter(), self.replacement(), lines)
    }

    /// Puts together a primary matcher, an optional filter and a template.
    pub fn new(matcher: Matcher, filter: Option<Matcher>, replacement: String) -> (r: Substitution)
        requires
            filter matches Some(f) ==> f.ignore_case() == matcher.ignore_case(),
        ensures
            r.pattern() == matcher.pattern(),
            r.ignore_case() == matcher.ignore_case(),
            r.filter() == (match filter {
                None => None,
                Some(f) => Some(f.pattern()),
            }),
            r.replacement() == replacement@,
    {
        Substitution { matcher, filter, replacement }
    }

    /// Transcodes one raw line, terminator included: decodes it, and rewrites
    /// it when the filter lets it through.
    pub fn transcode_line(&self, line: &[u8]) -> (r: Result<String, SubError>)
        ensures
            r is Ok <==> valid_utf8(line@),
            r matches Ok(s) ==> s@ == self.rewrite(decode_utf8(line@)),
            r matches Err(e) ==> e is InvalidUTF8,
    {
        proof {
            use_type_invariant(self);
        }
        match decode_text(line) {
            None => Err(SubError::InvalidUTF8),
            Some(text) => {
                let considered = match &self.filter {
                    None => true,
                    Some(f) => f.is_match(text),
                };
                if considered {
                    Ok(self.matcher.replace_all(text, self.replacement.as_str()))
                } else {
                    Ok(text.to_owned())
                }
            },
        }
    }

    /// Transcodes a whole input, line by line. The first line that is not
    /// UTF-8 fails the whole input.
    pub fn transcode(&self, input: &[u8]) -> (r: Result<String, SubError>)
        ensures
            r is Ok <==> all_valid_utf8(split_lines(input@)),
            r matches Ok(s) ==> s@ == self.rewrite_all(split_lines(input@)),
            r matches Err(e) ==> e is InvalidUTF8,
    {
        let mut out = String::new();
        let mut pos: usize = 0;
        let ghost mut done: Seq<Seq<u8>> = seq![];
        while pos < input.len()
            invariant
                pos <= input@.len(),
                done + lines_from(input@, pos as int) == split_lines(input@),
                all_valid_utf8(done),
                out@ == self.rewrite_all(done),
            decreases input@.len() - pos,
        {
            let end = find_line_end(input, pos);
            proof {
                lemma_line_end_bounds(input@, pos as int);
            }
            let line = slice_subrange(input, pos, end);
            let ghost rest = lines_from(input@, end as int);
            assert(lines_from(input@, pos as int) == seq![line@] + rest);
            assert(split_lines(input@)[done.len() as int] == line@) by {
                assert((done + (seq![line@] + rest))[done.len() as int] == line@);
            }
            match self.transcode_line(line) {
                Err(e) => {
                    return Err(e);
                },
                Ok(text) => {
                    out.append(text.as_str());
                    proof {
                        let next = done.push(line@);
                        assert(next + rest =~= done + (seq![line@] + rest));
                        assert(next.drop_last() =~= done);
                        assert(all_valid_utf8(next)) by {
                            assert forall|i: int| 0 <= i < next.len() implies valid_utf8(
                                #[trigger] next[i],
                            ) by {
                                if i < done.len() {
                                    assert(next[i] == done[i]);
                                }
                            }
                        }
                        done = next;
                    }
                    pos = end;
                },
            }
        }
        assert(done =~= split_lines(input@)) by {
            assert(lines_from(input@, pos as int) =~= Seq::<Seq<u8>>::empty());
            assert(done + Seq::<Seq<u8>>::empty() =~= done);
        }
        Ok(out)
    }
}

/// Encoding distributes over concatenation.
proof fn lemma_encode_concat(a: Seq<char>, b: Seq<char>)
    ensures
        encode_utf8(a + b) == encode_utf8(a) + encode_utf8(b),
    decreases a.len(),
{
    if a.len() == 0 {
        assert(a + b =~= b);
        assert(encode_utf8(a) + encode_utf8(b) =~= encode_utf8(b));
    } else {
        lemma_encode_concat(a.drop_first(), b);
        assert((a + b).drop_first() =~= a.drop_first() + b);
        assert((a + b)[0] == a[0]);
        assert(encode_utf8(a + b) =~= encode_utf8(a) + encode_utf8(b));
    }
}

/// Lines that are well-formed and hold no match come out as they went in.
proof fn lemma_unmatched_lines_unchanged(
    pattern: Seq<char>,
    ignore_case: bool,
    filter: Option<Seq<char>>,
    replacement: Seq<char>,
    lines: Seq<Seq<u8>>,
)
    requires
        all_valid_utf8(lines),
        forall|i: int|
            0 <= i < lines.len() ==> !pattern_matches(
                pattern,
                ignore_case,
                decode_utf8(#[trigger] lines[i]),
            ),
    ensures
        encode_utf8(rewrite_lines(pattern, ignore_case, filter, replacement, lines)) == join_lines(
            lines,
        ),
    decreases lines.len(),
{
    if lines.len() > 0 {
        let init = lines.drop_last();
        assert forall|i: int| 0 <= i < init.len() implies !pattern_matches(
            pattern,
            ignore_case,
            decode_utf8(#[trigger] init[i]),
        ) && valid_utf8(init[i]) by {
            assert(init[i] == lines[i]);
        }
        lemma_unmatched_lines_unchanged(pattern, ignore_case, filter, replacement, init);
        let last = lines.last();
        assert(valid_utf8(lines[lines.len() - 1]));
        assert(!pattern_matches(pattern, ignore_case, decode_utf8(lines[lines.len() - 1])));
        lemma_encode_concat(
            rewrite_lines(pattern, ignore_case, filter, replacement, init),
            decode_utf8(last),
        );
    }
}

/// When no line of `input` holds a match of the primary pattern, the text
/// produced is the input itself, byte for byte: line endings, `\r\n` or `\n`,
/// and the presence or absence of a final terminator are all kept.
pub proof fn lemma_unmatched_input_unchanged(
    pattern: Seq<char>,
    ignore_case: bool,
    filter: Option<Seq<char>>,
    replacement: Seq<char>,
    input: Seq<u8>,
)
    requires
        all_valid_utf8(split_lines(input)),
        forall|i: int|
            0 <= i < split_lines(input).len() ==> !pattern_matches(
                pattern,
                ignore_case,
                decode_utf8(#[trigger] split_lines(input)[i]),
            ),
    ensures
        encode_utf8(rewrite_lines(pattern, ignore_case, filter, replacement, split_lines(input)))
            == input,
{
    lemma_unmatched_lines_unchanged(pattern, ignore_case, filter, replacement, split_lines(input));
    lemma_lines_join_to_input(input);
}

/// A second pass over a line changes nothing when the first pass left no
/// match of the primary pattern in it. When the replacement itself matches
/// the pattern a second pass may rewrite the line again, as global
/// replacement does.
pub proof fn lemma_rewrite_idempotent(
    pattern: Seq<char>,
    ignore_case: bool,
    filter: Option<Seq<char>>,
    replacement: Seq<char>,
    text: Seq<char>,
)
    requires
        !pattern_matches(
            pattern,
            ignore_case,
            rewrite_line(pattern, ignore_case, filter, replacement, text),
        ),
    ensures
        rewrite_line(
            pattern,
            ignore_case,
            filter,
            replacement,
            rewrite_line(pattern, ignore_case, filter, replacement, text),
        ) == rewrite_line(pattern, ignore_case, filter, replacement, text),
{
}

/// A line the filter does not select passes through unchanged, and a selected
/// line is rewritten exactly as without a filter.
pub proof fn lemma_filter_gates(
    pattern: Seq<char>,
    ignore_case: bool,
    filter: Seq<char>,
    replacement: Seq<char>,
    text: Seq<char>,
)
    ensures
        !pattern_matches(filter, ignore_case, text) ==> rewrite_line(
            pattern,
            ignore_case,
            Some(filter),
            replacement,
            text,
        ) == text,
        pattern_matches(filter, ignore_case, text) ==> rewrite_line(
            pattern,
            ignore_case,
            Some(filter),
            replacement,
            text,
        ) == rewrite_line(pattern, ignore_case, None, replacement, text),
{
}

} // verus!
