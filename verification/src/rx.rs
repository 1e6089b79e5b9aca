//! Trusted boundary to the `regex` crate: declarations of its types, names
//! for what its functions return, and thin wrappers whose contracts state
//! what the crate's documentation promises.

use vstd::prelude::*;

verus! {

#[verifier::external_type_specification]
#[verifier::external_body]
pub struct ExRegex(regex::Regex);

#[verifier::external_type_specification]
#[verifier::external_body]
pub struct ExRegexSet(regex::RegexSet);

/// The generous size budget, in bytes, that every compiled program — each
/// rule's own and each facet's aggregate — must stay within.
pub const SIZE_LIMIT: usize = 167772160;

/// The pattern text a compiled regex was built from.
pub uninterp spec fn regex_source(re: regex::Regex) -> Seq<char>;

/// Whether a compiled regex was built case-insensitively.
pub uninterp spec fn regex_is_ci(re: regex::Regex) -> bool;

/// Whether `pattern` compiles on its own under the given
/// case-insensitivity and size limit.
pub uninterp spec fn regex_compiles(pattern: Seq<char>, ci: bool, limit: nat) -> bool;

/// Whether the regex `pattern`, compiled with the given case-insensitivity,
/// matches somewhere in `input`.
pub uninterp spec fn regex_match(pattern: Seq<char>, ci: bool, input: Seq<char>) -> bool;

/// The capture groups of the leftmost match of `pattern` in `input`:
/// group 0 is the whole match, and a group that did not participate in the
/// match is `None`.  Meaningful only when the pattern matches.
pub uninterp spec fn regex_groups(pattern: Seq<char>, ci: bool, input: Seq<char>) -> Seq<
    Option<Seq<char>>,
>;

/// The ordered pattern list an aggregate matcher was built from.
pub uninterp spec fn regex_set_patterns(rs: regex::RegexSet) -> Seq<Seq<char>>;

/// Whether the pattern list compiles as one aggregate matcher under the
/// given size limit.
pub uninterp spec fn regex_set_compiles(patterns: Seq<Seq<char>>, limit: nat) -> bool;

/// Relies on `regex::RegexBuilder`: `build` compiles exactly the pattern the
/// builder was given, under the configured case-insensitivity and size
/// limit, and the compiled regex keeps that pattern as its source.
#[verifier::external_body]
pub(crate) fn compile_pattern(pattern: &str, ci: bool, limit: usize) -> (r: Option<regex::Regex>)
    ensures
        r is Some <==> regex_compiles(pattern@, ci, limit as nat),
        r matches Some(re) ==> regex_source(re) == pattern@ && regex_is_ci(re) == ci,
{
    regex::RegexBuilder::new(pattern).case_insensitive(ci).size_limit(limit).build().ok()
}

/// Relies on `regex::Regex::captures`: it returns `Some` exactly when the
/// regex matches, holding the groups of the leftmost match with group 0
/// (the whole match, always present) first.
#[verifier::external_body]
pub(crate) fn capture_strings(re: &regex::Regex, input: &str) -> (r: Option<Vec<Option<String>>>)
    ensures
        r is Some <==> regex_match(regex_source(*re), regex_is_ci(*re), input@),
        r matches Some(groups) ==> groups.deep_view() == regex_groups(
            regex_source(*re),
            regex_is_ci(*re),
            input@,
        ) && groups@.len() >= 1 && groups@[0] is Some,
{
    re.captures(input).map(|caps| caps.iter().map(|m| m.map(|g| g.as_str().to_string())).collect())
}

/// Relies on `regex::RegexSetBuilder`: `build` compiles exactly the listed
/// patterns, in order, under the default (case-sensitive) settings and the
/// configured size limit.
#[verifier::external_body]
pub(crate) fn compile_pattern_set(patterns: &Vec<String>, limit: usize) -> (r: Option<
    regex::RegexSet,
>)
    ensures
        r is Some <==> regex_set_compiles(patterns.deep_view(), limit as nat),
        r matches Some(rs) ==> regex_set_patterns(rs) == patterns.deep_view(),
{
    regex::RegexSetBuilder::new(patterns.iter()).size_limit(limit).build().ok()
}

/// Relies on `regex::RegexSet::matches`: the returned set holds the index
/// of each pattern that matches the input, each pattern matching exactly as
/// it would alone under the set's default (case-sensitive) settings.
#[verifier::external_body]
pub(crate) fn set_matched_indices(rs: &regex::RegexSet, input: &str) -> (r: Vec<usize>)
    ensures
        forall|k: int|
            #![trigger r@[k]]
            0 <= k < r@.len() ==> r@[k] < regex_set_patterns(*rs).len() && regex_match(
                regex_set_patterns(*rs)[r@[k] as int],
                false,
                input@,
            ),
        forall|i: int|
            #![trigger regex_set_patterns(*rs)[i]]
            0 <= i < regex_set_patterns(*rs).len() && regex_match(
                regex_set_patterns(*rs)[i],
                false,
                input@,
            ) ==> r@.contains(i as usize),
{
    rs.matches(input).iter().collect()
}

} // verus!
