//! Regular expressions, as far as the page readers use them.
//!
//! Compiling and applying an expression is the work of the `regex` crate. Nothing in this
//! module is proved: each function states what the crate's call returns, over names for the
//! crate's results.

use vstd::prelude::*;

verus! {

#[verifier::external_type_specification]
#[verifier::external_body]
pub struct ExRegex(regex::Regex);

/// The pattern text that an expression was compiled from.
pub uninterp spec fn regex_source(re: regex::Regex) -> Seq<char>;

/// Whether a pattern text compiles to an expression.
pub uninterp spec fn pattern_accepted(pattern: Seq<char>) -> bool;

/// `text` with every match of `pattern`, found from left to right without overlap, replaced
/// by the expansion of `with`.
pub uninterp spec fn regex_replaced(pattern: Seq<char>, text: Seq<char>, with: Seq<char>) -> Seq<
    char,
>;

/// Compiles a pattern.
///
/// Stands for `Regex::new`, which returns an error for an invalid pattern and for one whose
/// compiled form is over the default size limit.
#[verifier::external_body]
pub(crate) fn compile_pattern(pattern: &str) -> (re: Option<regex::Regex>)
    ensures
        re is Some <==> pattern_accepted(pattern@),
        re is Some ==> regex_source(re->0) == pattern@,
{
    regex::Regex::new(pattern).ok()
}

/// Replaces every match of an expression in a text.
///
/// Stands for `Regex::replace_all`, which replaces all non-overlapping matches in the text
/// by the replacement and returns the text unchanged where nothing matches.
#[verifier::external_body]
pub(crate) fn replace_all(re: &regex::Regex, text: &str, with: &str) -> (out: String)
    ensures
        out@ == regex_replaced(regex_source(*re), text@, with@),
{
    re.replace_all(text, with).into_owned()
}

} // verus!
