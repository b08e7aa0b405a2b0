//! The regular-expression engine behind the classifier.
//!
//! Everything here is a statement about the `regex` crate that Verus takes on
//! trust. The statements are kept to what the crate documents: which pattern a
//! compiled value came from, and that searching is a function of the pattern
//! and the haystack.

use vstd::prelude::*;

verus! {

/// `regex::Regex`, a compiled pattern. Nothing of its inside is visible here.
#[verifier::external_type_specification]
#[verifier::external_body]
pub struct ExRegex(regex::Regex);

/// `regex::RegexSet`, a compiled list of patterns that are searched for
/// together. Nothing of its inside is visible here.
#[verifier::external_type_specification]
#[verifier::external_body]
pub struct ExRegexSet(regex::RegexSet);

/// `regex::Error`, the reason why a pattern was refused. Nothing of its inside
/// is visible here.
#[verifier::external_type_specification]
#[verifier::external_body]
pub struct ExRegexError(regex::Error);

/// The pattern text a compiled regex was built from, as `Regex::as_str`
/// reports it.
pub uninterp spec fn regex_pattern(re: regex::Regex) -> Seq<char>;

/// The pattern texts a compiled set was built from, in order, as
/// `RegexSet::patterns` reports them.
pub uninterp spec fn regex_set_patterns(set: regex::RegexSet) -> Seq<Seq<char>>;

/// The indices of the patterns of a set that match somewhere in `text`, in the
/// order in which `RegexSet::matches` yields them.
pub uninterp spec fn matching_patterns(patterns: Seq<Seq<char>>, text: Seq<char>) -> Seq<usize>;

/// The capture groups of the leftmost match of `pattern` in `text`, one entry
/// per group in order of opening parenthesis, each holding the matched text if
/// the group took part in the match; `None` if `pattern` does not match.
pub uninterp spec fn group_texts(pattern: Seq<char>, text: Seq<char>) -> Option<
    Seq<Option<Seq<char>>>,
>;

/// The names of the capture groups of `pattern`, one entry per group in order
/// of opening parenthesis, `None` for a group without a name.
pub uninterp spec fn group_names(pattern: Seq<char>) -> Seq<Option<Seq<char>>>;

/// Whether `Regex::new` accepts `pattern`: the text is a valid pattern and the
/// compiled regex stays within the engine's default size limit.
pub uninterp spec fn compiles(pattern: Seq<char>) -> bool;

/// Whether `RegexSet::new` accepts the list `patterns` as a whole.
pub uninterp spec fn set_compiles(patterns: Seq<Seq<char>>) -> bool;

/// The views of a list of pattern strings.
pub open spec fn texts(patterns: Seq<String>) -> Seq<Seq<char>> {
    patterns.map_values(|p: String| p@)
}

/// Calls `Regex::new`. Whether it accepts a pattern depends on the pattern
/// text alone and is named, not described. A regex that compiled reports the
/// text it was given as its pattern.
#[verifier::external_body]
pub(crate) fn compile(pattern: &str) -> (r: Result<regex::Regex, regex::Error>)
    ensures
        r is Ok <==> compiles(pattern@),
        r matches Ok(re) ==> regex_pattern(re) == pattern@,
{
    regex::Regex::new(pattern)
}

/// Calls `RegexSet::new`. Whether it accepts a list depends on the pattern
/// texts alone and is named, not described. A set that compiled reports the
/// texts it was given, in the order given.
#[verifier::external_body]
pub(crate) fn compile_set(patterns: &Vec<String>) -> (r: Result<regex::RegexSet, regex::Error>)
    ensures
        r is Ok <==> set_compiles(texts(patterns@)),
        r matches Ok(set) ==> regex_set_patterns(set) == texts(patterns@),
{
    regex::RegexSet::new(patterns)
}

/// Calls `RegexSet::is_match`, which is documented to hold exactly when at
/// least one pattern of the set matches the haystack.
#[verifier::external_body]
pub(crate) fn set_is_match(set: &regex::RegexSet, text: &str) -> (r: bool)
    ensures
        r == (matching_patterns(regex_set_patterns(*set), text@).len() > 0),
{
    set.is_match(text)
}

/// Calls `RegexSet::matches` and collects the indices it yields. Which
/// patterns match is named, not described: it depends on the patterns and the
/// haystack alone. The indices are documented to be positions in the list the
/// set was built from, and to come in ascending order. The documentation of
/// `RegexSet` also gives the way to the captures of a pattern that the set
/// reports: compile that pattern on its own and search the same haystack
/// again, which then finds a match.
#[verifier::external_body]
pub(crate) fn set_matches(set: &regex::RegexSet, text: &str) -> (r: Vec<usize>)
    ensures
        r@ == matching_patterns(regex_set_patterns(*set), text@),
        forall|i: int| 0 <= i < r@.len() ==> #[trigger] r@[i] < regex_set_patterns(*set).len(),
        forall|i: int, j: int| 0 <= i < j < r@.len() ==> #[trigger] r@[i] < #[trigger] r@[j],
        forall|i: int|
            0 <= i < r@.len() ==> group_texts(
                regex_set_patterns(*set)[#[trigger] r@[i] as int],
                text@,
            ) is Some,
{
    set.matches(text).into_iter().collect()
}

/// Calls `Regex::captures` and copies out the text of every group. The result
/// is named, not described: it depends on the pattern and the haystack alone.
#[verifier::external_body]
pub(crate) fn captures(re: &regex::Regex, text: &str) -> (r: Option<Vec<Option<String>>>)
    ensures
        r.deep_view() == group_texts(regex_pattern(*re), text@),
{
    re.captures(text).map(|c| c.iter().map(|m| m.map(|m| String::from(m.as_str()))).collect())
}

/// Calls `Regex::capture_names` and copies out every name. The result is
/// named, not described: it depends on the pattern alone.
#[verifier::external_body]
pub(crate) fn capture_names(re: &regex::Regex) -> (r: Vec<Option<String>>)
    ensures
        r.deep_view() == group_names(regex_pattern(*re)),
{
    re.capture_names().map(|n| n.map(String::from)).collect()
}

} // verus!
