//! The two line patterns, and the boundary between this library and the
//! `regex` crate.
//!
//! Whatever the proofs of this crate know of regular expressions they know
//! from the few trusted declarations of this file: a compiled regex keeps its
//! pattern text, and what a pattern captures in a line depends on the pattern
//! and the line alone.

use regex::Regex;
use vstd::prelude::*;

verus! {

/// Makes `regex::Regex` known to the verifier, as an opaque type.
#[verifier::external_type_specification]
#[verifier::external_body]
pub struct ExRegex(regex::Regex);

/// Makes `regex::Error` known to the verifier, as an opaque type.
#[verifier::external_type_specification]
#[verifier::external_body]
pub struct ExRegexError(regex::Error);

/// The pattern text that a compiled regex holds: the text `Regex::new` was
/// given to build it, which `Regex::as_str` hands back.
pub uninterp spec fn pattern_of(re: Regex) -> Seq<char>;

/// Whether `Regex::new` accepts `pattern`: the text is a valid regular
/// expression whose compiled form stays under the crate's default size limit.
pub uninterp spec fn compiles(pattern: Seq<char>) -> bool;

/// What capture group `group` holds in the leftmost-first match of `pattern`
/// in `line`, as `Regex::captures` finds it. `None` where the pattern matches
/// nowhere in the line, where the pattern has no such group, and where the
/// group took no part in the match. Group 0 is the whole match.
pub uninterp spec fn captured(pattern: Seq<char>, line: Seq<char>, group: nat) -> Option<
    Seq<char>,
>;

/// Whether `char::is_whitespace` holds of `c`: the character has the Unicode
/// property `White_Space`.
pub uninterp spec fn white_space(c: char) -> bool;

/// `Regex::new` succeeds on exactly the patterns that compile, and the regex
/// it returns holds the pattern text it was given.
pub assume_specification[ Regex::new ](re: &str) -> (r: Result<Regex, regex::Error>)
    ensures
        r is Ok <==> compiles(re@),
        r matches Ok(compiled) ==> pattern_of(compiled) == re@,
;

/// `char::is_whitespace` is a function of the character alone.
pub assume_specification[ char::is_whitespace ](c: char) -> (b: bool)
    ensures
        b == white_space(c),
;

/// The view of a text that may be missing.
pub open spec fn text_of(found: Option<String>) -> Option<Seq<char>> {
    match found {
        Some(s) => Some(s@),
        None => None,
    }
}

/// Calls `Regex::captures` on `line`, asks the captures for group `group` with
/// `Captures::get`, and copies out the text of that group with
/// `Match::as_str`. The contract claims that the outcome is the one that the
/// regex's pattern text, the line and the group number determine. Every regex
/// of this library comes out of `Regex::new`, so that its pattern text is all
/// there is to it.
#[verifier::external_body]
fn capture(re: &Regex, line: &str, group: usize) -> (found: Option<String>)
    ensures
        text_of(found) == captured(pattern_of(*re), line@, group as nat),
{
    re.captures(line).and_then(|caps| caps.get(group)).map(|m| m.as_str().to_string())
}

/// A URL: one of four schemes, `://`, and a host that runs up to the first
/// whitespace or colon.
pub const URL_PATTERN: &'static str = r"(http|https|android|ftp)://([^\s:]+)";

/// A credential: the run of characters other than whitespace and colons that
/// ends the line.
pub const CREDENTIAL_PATTERN: &'static str = r"([^:\s]+)$";

/// The URL that a line holds: the whole match of [`URL_PATTERN`].
pub open spec fn url_match(line: Seq<char>) -> Option<Seq<char>> {
    captured(URL_PATTERN@, line, 0)
}

/// The credential that a line ends in: the first group of
/// [`CREDENTIAL_PATTERN`].
pub open spec fn credential_match(line: Seq<char>) -> Option<Seq<char>> {
    captured(CREDENTIAL_PATTERN@, line, 1)
}

/// A line is blank when it is empty or holds whitespace only.
pub open spec fn blank(line: Seq<char>) -> bool {
    forall|i: int| 0 <= i < line.len() ==> white_space(#[trigger] line[i])
}

/// Says which of the two patterns the regex crate refused to compile.
#[derive(Debug, Clone, Copy, PartialEq, Eq, Structural)]
pub enum PatternError {
    /// [`URL_PATTERN`] was refused.
    Url,
    /// [`CREDENTIAL_PATTERN`] was refused.
    Credential,
}

/// Compiles `pattern`. Where the regex crate refuses it, the error is
/// `refused`, by which the caller says which pattern this was.
pub fn compile(pattern: &str, refused: PatternError) -> (r: Result<Regex, PatternError>)
    ensures
        compiles(pattern@) ==> (r matches Ok(re) && pattern_of(re) == pattern@),
        !compiles(pattern@) ==> r == Err::<Regex, PatternError>(refused),
{
    match Regex::new(pattern) {
        Ok(re) => Ok(re),
        Err(_) => Err(refused),
    }
}

/// What one line is to the extractor.
#[derive(Debug, PartialEq, Eq)]
pub enum LineKind {
    /// The line holds a URL; the field is the URL.
    Url(String),
    /// The line holds no URL and ends in a credential; the field is the
    /// credential.
    Credential(String),
    /// Neither of the above, and the line is blank.
    Blank,
    /// Neither of the above, and the line is not blank.
    Other,
}

/// The mathematical counterpart of [`LineKind`].
pub ghost enum LineKindView {
    Url(Seq<char>),
    Credential(Seq<char>),
    Blank,
    Other,
}

impl View for LineKind {
    type V = LineKindView;

    open spec fn view(&self) -> LineKindView {
        match self {
            LineKind::Url(url) => LineKindView::Url(url@),
            LineKind::Credential(text) => LineKindView::Credential(text@),
            LineKind::Blank => LineKindView::Blank,
            LineKind::Other => LineKindView::Other,
        }
    }
}

/// The kind of a line. The URL pattern is asked first, so a line that holds a
/// URL is never read as a credential; blankness is asked last.
pub open spec fn line_kind(line: Seq<char>) -> LineKindView {
    match url_match(line) {
        Some(url) => LineKindView::Url(url),
        None => match credential_match(line) {
            Some(text) => LineKindView::Credential(text),
            None => if blank(line) {
                LineKindView::Blank
            } else {
                LineKindView::Other
            },
        },
    }
}

/// Whether `line` is empty or holds whitespace only.
pub fn is_blank(line: &str) -> (b: bool)
    ensures
        b == blank(line@),
{
    for c in it: line.chars()
        invariant
            it.seq() == line@,
            forall|i: int| 0 <= i < it.index() ==> white_space(#[trigger] line@[i]),
    {
        if !c.is_whitespace() {
            return false;
        }
    }
    true
}

/// The two patterns, compiled once and then used on every line.
pub struct Patterns {
    url: Regex,
    credential: Regex,
}

impl Patterns {
    /// The first regex was compiled from [`URL_PATTERN`], the second from
    /// [`CREDENTIAL_PATTERN`].
    #[verifier::type_invariant]
    spec fn holds_both_patterns(self) -> bool {
        &&& pattern_of(self.url) == URL_PATTERN@
        &&& pattern_of(self.credential) == CREDENTIAL_PATTERN@
    }

    /// Compiles [`URL_PATTERN`] and [`CREDENTIAL_PATTERN`], in this order, and
    /// stops at the first that the regex crate refuses.
    pub fn new() -> (r: Result<Patterns, PatternError>)
        ensures
            r is Ok <==> compiles(URL_PATTERN@) && compiles(CREDENTIAL_PATTERN@),
            r == Err::<Patterns, PatternError>(PatternError::Url) <==> !compiles(URL_PATTERN@),
            r == Err::<Patterns, PatternError>(PatternError::Credential) <==> compiles(
                URL_PATTERN@,
            ) && !compiles(CREDENTIAL_PATTERN@),
    {
        let url = match compile(URL_PATTERN, PatternError::Url) {
            Ok(re) => re,
            Err(e) => {
                return Err(e);
            },
        };
        let credential = match compile(CREDENTIAL_PATTERN, PatternError::Credential) {
            Ok(re) => re,
            Err(e) => {
                return Err(e);
            },
        };
        Ok(Patterns { url, credential })
    }

    /// The URL in `line`, if it holds one.
    pub fn find_url(&self, line: &str) -> (found: Option<String>)
        ensures
            text_of(found) == url_match(line@),
    {
        proof {
            use_type_invariant(self);
        }
        capture(&self.url, line, 0)
    }

    /// The credential that `line` ends in, if it ends in one.
    pub fn find_credential(&self, line: &str) -> (found: Option<String>)
        ensures
            text_of(found) == credential_match(line@),
    {
        proof {
            use_type_invariant(self);
        }
        capture(&self.credential, line, 1)
    }

    /// Tells what `line` is to the extractor.
    pub fn classify(&self, line: &str) -> (kind: LineKind)
        ensures
            kind@ == line_kind(line@),
    {
        match self.find_url(line) {
            Some(url) => LineKind::Url(url),
            None => match self.find_credential(line) {
                Some(text) => LineKind::Credential(text),
                None => if is_blank(line) {
                    LineKind::Blank
                } else {
                    LineKind::Other
                },
            },
        }
    }
}

} // verus!
