//! First-match-wins semantics over an ordered rule list, shared by the
//! three facets, together with the laws relating the sequential scan to
//! the aggregate pre-filter.

use vstd::prelude::*;
use crate::rx::regex_compiles;
use crate::rx::regex_match;

verus! {

/// What identifies one rule's compiled pattern: its normalized text and
/// its case-insensitivity flag.
pub struct RuleKey {
    pub pattern: Seq<char>,
    pub ci: bool,
}

/// Whether a rule's own compiled pattern matches the input.
pub open spec fn key_matches(k: RuleKey, input: Seq<char>) -> bool {
    regex_match(k.pattern, k.ci, input)
}

/// The index of the first rule whose own compiled pattern matches.
pub open spec fn first_match(keys: Seq<RuleKey>, input: Seq<char>) -> Option<int>
    decreases keys.len(),
{
    if keys.len() == 0 {
        None
    } else if key_matches(keys[0], input) {
        Some(0int)
    } else {
        match first_match(keys.drop_first(), input) {
            Some(i) => Some(i + 1),
            None => None,
        }
    }
}

/// The index of the first rule whose pattern matches under the aggregate
/// matcher's shared, case-sensitive settings.
pub open spec fn first_match_plain(keys: Seq<RuleKey>, input: Seq<char>) -> Option<int>
    decreases keys.len(),
{
    if keys.len() == 0 {
        None
    } else if regex_match(keys[0].pattern, false, input) {
        Some(0int)
    } else {
        match first_match_plain(keys.drop_first(), input) {
            Some(i) => Some(i + 1),
            None => None,
        }
    }
}

/// The first matching index is a matching index, and no earlier rule
/// matches; when there is none, no rule matches at all.
pub proof fn lemma_first_match_characterization(keys: Seq<RuleKey>, input: Seq<char>)
    ensures
        match first_match(keys, input) {
            Some(i) => 0 <= i < keys.len() && key_matches(keys[i], input) && forall|j: int|
                0 <= j < i ==> !key_matches(#[trigger] keys[j], input),
            None => forall|j: int| 0 <= j < keys.len() ==> !key_matches(#[trigger] keys[j], input),
        },
    decreases keys.len(),
{
    if keys.len() == 0 {
    } else if key_matches(keys[0], input) {
    } else {
        let t = keys.drop_first();
        lemma_first_match_characterization(t, input);
        assert forall|j: int| 1 <= j < keys.len() implies keys[j] == t[j - 1] by {}
        match first_match(t, input) {
            Some(i) => {
                assert forall|j: int| 0 <= j < i + 1 implies !key_matches(
                    #[trigger] keys[j],
                    input,
                ) by {
                    if j > 0 {
                        assert(keys[j] == t[j - 1]);
                    }
                }
            },
            None => {
                assert forall|j: int| 0 <= j < keys.len() implies !key_matches(
                    #[trigger] keys[j],
                    input,
                ) by {
                    if j > 0 {
                        assert(keys[j] == t[j - 1]);
                    }
                }
            },
        }
    }
}

/// The same characterization for the case-sensitive scan.
pub proof fn lemma_first_match_plain_characterization(keys: Seq<RuleKey>, input: Seq<char>)
    ensures
        match first_match_plain(keys, input) {
            Some(i) => 0 <= i < keys.len() && regex_match(keys[i].pattern, false, input)
                && forall|j: int|
                0 <= j < i ==> !regex_match((#[trigger] keys[j]).pattern, false, input),
            None => forall|j: int|
                0 <= j < keys.len() ==> !regex_match((#[trigger] keys[j]).pattern, false, input),
        },
    decreases keys.len(),
{
    if keys.len() == 0 {
    } else if regex_match(keys[0].pattern, false, input) {
    } else {
        let t = keys.drop_first();
        lemma_first_match_plain_characterization(t, input);
        assert forall|j: int| 1 <= j < keys.len() implies keys[j] == t[j - 1] by {}
        match first_match_plain(t, input) {
            Some(i) => {
                assert forall|j: int| 0 <= j < i + 1 implies !regex_match(
                    (#[trigger] keys[j]).pattern,
                    false,
                    input,
                ) by {
                    if j > 0 {
                        assert(keys[j] == t[j - 1]);
                    }
                }
            },
            None => {
                assert forall|j: int| 0 <= j < keys.len() implies !regex_match(
                    (#[trigger] keys[j]).pattern,
                    false,
                    input,
                ) by {
                    if j > 0 {
                        assert(keys[j] == t[j - 1]);
                    }
                }
            },
        }
    }
}

/// `first_match` is exactly the matching index before which no rule
/// matches.
pub proof fn lemma_first_match_is(keys: Seq<RuleKey>, input: Seq<char>, m: int)
    requires
        0 <= m < keys.len(),
        key_matches(keys[m], input),
        forall|j: int| 0 <= j < m ==> !key_matches(#[trigger] keys[j], input),
    ensures
        first_match(keys, input) == Some(m),
{
    lemma_first_match_characterization(keys, input);
    match first_match(keys, input) {
        Some(k) => {
            if k < m {
                assert(!key_matches(keys[k], input));
            }
            if k > m {
                assert(!key_matches(keys[m], input));
            }
        },
        None => {
            assert(!key_matches(keys[m], input));
        },
    }
}

/// When no rule matches, the scan reports no match.
pub proof fn lemma_first_match_none(keys: Seq<RuleKey>, input: Seq<char>)
    requires
        forall|j: int| 0 <= j < keys.len() ==> !key_matches(#[trigger] keys[j], input),
    ensures
        first_match(keys, input) is None,
{
    lemma_first_match_characterization(keys, input);
    match first_match(keys, input) {
        Some(k) => {
            assert(!key_matches(keys[k], input));
        },
        None => {},
    }
}

/// The case-sensitive counterpart of `lemma_first_match_is`.
pub proof fn lemma_first_match_plain_is(keys: Seq<RuleKey>, input: Seq<char>, m: int)
    requires
        0 <= m < keys.len(),
        regex_match(keys[m].pattern, false, input),
        forall|j: int| 0 <= j < m ==> !regex_match((#[trigger] keys[j]).pattern, false, input),
    ensures
        first_match_plain(keys, input) == Some(m),
{
    lemma_first_match_plain_characterization(keys, input);
    match first_match_plain(keys, input) {
        Some(k) => {
            if k < m {
                assert(!regex_match(keys[k].pattern, false, input));
            }
            if k > m {
                assert(!regex_match(keys[m].pattern, false, input));
            }
        },
        None => {
            assert(!regex_match(keys[m].pattern, false, input));
        },
    }
}

/// The case-sensitive counterpart of `lemma_first_match_none`.
pub proof fn lemma_first_match_plain_none(keys: Seq<RuleKey>, input: Seq<char>)
    requires
        forall|j: int| 0 <= j < keys.len() ==> !regex_match(
            (#[trigger] keys[j]).pattern,
            false,
            input,
        ),
    ensures
        first_match_plain(keys, input) is None,
{
    lemma_first_match_plain_characterization(keys, input);
    match first_match_plain(keys, input) {
        Some(k) => {
            assert(!regex_match(keys[k].pattern, false, input));
        },
        None => {},
    }
}

/// The index of the first rule whose pattern does not compile on its own.
pub open spec fn first_non_compiling(keys: Seq<RuleKey>, limit: nat) -> Option<int>
    decreases keys.len(),
{
    if keys.len() == 0 {
        None
    } else if !regex_compiles(keys[0].pattern, keys[0].ci, limit) {
        Some(0int)
    } else {
        match first_non_compiling(keys.drop_first(), limit) {
            Some(i) => Some(i + 1),
            None => None,
        }
    }
}

/// The first non-compiling index fails to compile while every earlier rule
/// compiles; when there is none, every rule compiles.
pub proof fn lemma_first_non_compiling_characterization(keys: Seq<RuleKey>, limit: nat)
    ensures
        match first_non_compiling(keys, limit) {
            Some(i) => 0 <= i < keys.len() && !regex_compiles(keys[i].pattern, keys[i].ci, limit)
                && forall|j: int|
                0 <= j < i ==> regex_compiles((#[trigger] keys[j]).pattern, keys[j].ci, limit),
            None => forall|j: int|
                0 <= j < keys.len() ==> regex_compiles(
                    (#[trigger] keys[j]).pattern,
                    keys[j].ci,
                    limit,
                ),
        },
    decreases keys.len(),
{
    if keys.len() == 0 {
    } else if !regex_compiles(keys[0].pattern, keys[0].ci, limit) {
    } else {
        let t = keys.drop_first();
        lemma_first_non_compiling_characterization(t, limit);
        assert forall|j: int| 1 <= j < keys.len() implies keys[j] == t[j - 1] by {}
        match first_non_compiling(t, limit) {
            Some(i) => {
                assert forall|j: int| 0 <= j < i + 1 implies regex_compiles(
                    (#[trigger] keys[j]).pattern,
                    keys[j].ci,
                    limit,
                ) by {
                    if j > 0 {
                        assert(keys[j] == t[j - 1]);
                    }
                }
            },
            None => {
                assert forall|j: int| 0 <= j < keys.len() implies regex_compiles(
                    (#[trigger] keys[j]).pattern,
                    keys[j].ci,
                    limit,
                ) by {
                    if j > 0 {
                        assert(keys[j] == t[j - 1]);
                    }
                }
            },
        }
    }
}

/// `first_non_compiling` is exactly the failing index before which all
/// rules compile.
pub proof fn lemma_first_non_compiling_is(keys: Seq<RuleKey>, limit: nat, m: int)
    requires
        0 <= m < keys.len(),
        !regex_compiles(keys[m].pattern, keys[m].ci, limit),
        forall|j: int| 0 <= j < m ==> regex_compiles((#[trigger] keys[j]).pattern, keys[j].ci, limit),
    ensures
        first_non_compiling(keys, limit) == Some(m),
{
    lemma_first_non_compiling_characterization(keys, limit);
    match first_non_compiling(keys, limit) {
        Some(k) => {
            if k < m {
                assert(regex_compiles(keys[k].pattern, keys[k].ci, limit));
            }
            if k > m {
                assert(regex_compiles(keys[m].pattern, keys[m].ci, limit));
            }
        },
        None => {
            assert(regex_compiles(keys[m].pattern, keys[m].ci, limit));
        },
    }
}

/// When every rule compiles, there is no failing index.
pub proof fn lemma_first_non_compiling_none(keys: Seq<RuleKey>, limit: nat)
    requires
        forall|j: int| 0 <= j < keys.len() ==> regex_compiles(
            (#[trigger] keys[j]).pattern,
            keys[j].ci,
            limit,
        ),
    ensures
        first_non_compiling(keys, limit) is None,
{
    lemma_first_non_compiling_characterization(keys, limit);
    match first_non_compiling(keys, limit) {
        Some(k) => {
            assert(regex_compiles(keys[k].pattern, keys[k].ci, limit));
        },
        None => {},
    }
}

/// Priority: when rules `i` and `j` (`i < j`) both match, the scan settles
/// on an index no later than `i`; the chosen rule is the earliest matching
/// one, so the result is never derived from rule `j`.
pub proof fn lemma_priority(keys: Seq<RuleKey>, input: Seq<char>, i: int, j: int)
    requires
        0 <= i < j < keys.len(),
        key_matches(keys[i], input),
        key_matches(keys[j], input),
    ensures
        first_match(keys, input) matches Some(k) && 0 <= k <= i && key_matches(keys[k], input)
            && forall|m: int| 0 <= m < k ==> !key_matches(#[trigger] keys[m], input),
{
    lemma_first_match_characterization(keys, input);
}

/// With no rule compiled case-insensitively, the aggregate pre-filter's
/// scan and the sequential scan pick the same rule.
pub proof fn lemma_first_match_plain_agrees(keys: Seq<RuleKey>, input: Seq<char>)
    requires
        forall|i: int| #![trigger keys[i]] 0 <= i < keys.len() ==> !keys[i].ci,
    ensures
        first_match_plain(keys, input) == first_match(keys, input),
    decreases keys.len(),
{
    if keys.len() == 0 {
    } else {
        let t = keys.drop_first();
        assert forall|i: int| #![trigger t[i]] 0 <= i < t.len() implies !t[i].ci by {
            assert(t[i] == keys[i + 1]);
        }
        lemma_first_match_plain_agrees(t, input);
        assert(!keys[0].ci);
    }
}

} // verus!
