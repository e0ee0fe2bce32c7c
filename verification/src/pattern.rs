//! Prompt patterns: a compiled regular expression kept beside its source
//! text, so that contracts can speak of the pattern as a character sequence.
//!
//! Regular-expression matching itself is done by the `regex` crate; its
//! results are named by uninterpreted functions of the pattern source and the
//! text, which is sound because `regex` matching is a pure function of both.

use vstd::prelude::*;

verus! {

#[verifier::external_type_specification]
#[verifier::external_body]
pub struct ExRegex(regex::Regex);

/// Whether `regex::Regex::new` accepts `pattern`.
pub uninterp spec fn regex_valid(pattern: Seq<char>) -> bool;

/// What `regex::Regex::is_match` returns for a pattern compiled from
/// `pattern`, run on `text`.
pub uninterp spec fn regex_is_match(pattern: Seq<char>, text: Seq<char>) -> bool;

/// What `regex::Regex::replace_all` with the empty replacement returns for a
/// pattern compiled from `pattern`, run on `text`: `text` with every
/// non-overlapping match removed.
pub uninterp spec fn regex_strip(pattern: Seq<char>, text: Seq<char>) -> Seq<char>;

/// A prompt-matching pattern: the compiled regular expression together with
/// the source it was compiled from. The fields are private so that the two
/// can never go out of step.
pub struct Prompt {
    regex: regex::Regex,
    source: String,
}

impl View for Prompt {
    type V = Seq<char>;

    closed spec fn view(&self) -> Seq<char> {
        self.source@
    }
}

impl Prompt {
    /// Relies on `regex::Regex::new`: succeeds exactly on valid patterns,
    /// and the compiled value matches as its source prescribes.
    #[verifier::external_body]
    pub(crate) fn new(pattern: &str) -> (r: Option<Prompt>)
        ensures
            r is Some <==> regex_valid(pattern@),
            r matches Some(p) ==> p@ == pattern@,
    {
        match regex::Regex::new(pattern) {
            Ok(regex) => Some(Prompt { regex, source: String::from(pattern) }),
            Err(_) => None,
        }
    }

    /// The source text this pattern was compiled from.
    pub fn source(&self) -> (r: &str)
        ensures
            r@ == self@,
    {
        self.source.as_str()
    }

    /// Relies on `regex::Regex::is_match`: the result is a function of the
    /// pattern source and the text alone.
    #[verifier::external_body]
    pub(crate) fn is_match(&self, text: &str) -> (r: bool)
        ensures
            r == regex_is_match(self@, text@),
    {
        self.regex.is_match(text)
    }

    /// Relies on `regex::Regex::replace_all` with the empty replacement:
    /// the result is a function of the pattern source and the text alone.
    #[verifier::external_body]
    pub(crate) fn strip_matches(&self, text: &str) -> (r: String)
        ensures
            r@ == regex_strip(self@, text@),
    {
        self.regex.replace_all(text, "").into_owned()
    }
}

} // verus!
