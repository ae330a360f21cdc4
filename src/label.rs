//! The rule that a source label must follow, checked with a compiled regex.

use vstd::prelude::*;

verus! {

#[verifier::external_type_specification]
#[verifier::external_body]
pub struct ExRegex(regex::Regex);

#[verifier::external_type_specification]
#[verifier::external_body]
pub struct ExRegexError(regex::Error);

/// The anchored pattern that a whole label must match.
pub const LABEL_PATTERN: &'static str = "^[a-zA-Z0-9_ ]+$";

/// The pattern text, as a sequence of characters.
pub open spec fn label_pattern() -> Seq<char> {
    "^[a-zA-Z0-9_ ]+$"@
}

/// A character allowed in a label: an ASCII letter or digit, `_` or a space.
pub open spec fn is_label_char(c: char) -> bool {
    ('a' <= c && c <= 'z') || ('A' <= c && c <= 'Z') || ('0' <= c && c <= '9') || c == '_'
        || c == ' '
}

/// A valid label is non-empty and made of label characters only.
pub open spec fn is_valid_label(s: Seq<char>) -> bool {
    s.len() >= 1 && forall|i: int| 0 <= i < s.len() ==> is_label_char(#[trigger] s[i])
}

/// Relies on regex::Regex::new: the label pattern is valid syntax and far below
/// the default size limit, so it compiles.
#[verifier::external_body]
fn compile_pattern(pattern: &str) -> (r: Result<regex::Regex, regex::Error>)
    ensures
        pattern@ == label_pattern() ==> r is Ok,
{
    regex::Regex::new(pattern)
}

/// Checks source labels. It holds the label pattern compiled once, and can be
/// shared by any number of concurrent readers.
pub struct LabelValidator {
    pattern: String,
    matcher: regex::Regex,
}

impl LabelValidator {
    /// The validator was compiled from the label pattern.
    pub closed spec fn well_formed(&self) -> bool {
        self.pattern@ == label_pattern()
    }

    pub fn new() -> (r: Self)
        ensures
            r.well_formed(),
    {
        proof {
            reveal_strlit("^[a-zA-Z0-9_ ]+$");
        }
        let pattern = LABEL_PATTERN.to_owned();
        let matcher = compile_pattern(pattern.as_str()).unwrap();
        LabelValidator { pattern, matcher }
    }

    /// Whether `s` is a valid label.
    pub fn is_valid(&self, s: &str) -> (r: bool)
        requires
            self.well_formed(),
        ensures
            r == is_valid_label(s@),
    {
        matches_label_pattern(self, s)
    }
}

/// Relies on regex::Regex::is_match: a regex compiled from the anchored pattern
/// `^[a-zA-Z0-9_ ]+$` matches exactly the non-empty texts made of ASCII
/// letters, digits, `_` and spaces (`$` is the end of the text only).
#[verifier::external_body]
fn matches_label_pattern(v: &LabelValidator, text: &str) -> (r: bool)
    requires
        v.well_formed(),
    ensures
        r == is_valid_label(text@),
{
    v.matcher.is_match(text)
}

} // verus!
