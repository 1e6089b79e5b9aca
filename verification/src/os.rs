//! The operating-system facet: rule entries, the compiled per-rule
//! matcher, and the record extracted for the operating system named in a
//! user-agent string.

use vstd::prelude::*;
use vstd::string::StringExecFns;
use crate::fields::clone_opt_string;
use crate::fields::family_value;
use crate::fields::opt_field_value;
use crate::fields::other_family;
use crate::fields::spec_family_field;
use crate::fields::spec_opt_field;
use crate::matching::RuleKey;
use crate::matching::first_match;
use crate::matching::first_match_plain;
use crate::matching::key_matches;
use crate::matching::lemma_first_match_characterization;
use crate::matching::lemma_first_match_none;
use crate::matching::lemma_first_match_plain_agrees;
use crate::matching::lemma_first_match_plain_none;
use crate::normalize::clean_escapes;
use crate::normalize::normalize_spec;
use crate::rx::SIZE_LIMIT;
use crate::rx::capture_strings;
use crate::rx::compile_pattern;
use crate::rx::regex_compiles;
use crate::rx::regex_groups;
use crate::rx::regex_is_ci;
use crate::rx::regex_match;
use crate::rx::regex_source;

verus! {

/// One operating-system rule as authored: a pattern, its
/// case-insensitivity flag, and optional templates.  A field without a
/// template takes its conventional capture group directly: family group
/// 1, then the four version components groups 2 through 5.
pub struct OsEntry {
    pub regex: String,
    pub case_insensitive: bool,
    pub os_replacement: Option<String>,
    pub os_v1_replacement: Option<String>,
    pub os_v2_replacement: Option<String>,
    pub os_v3_replacement: Option<String>,
    pub os_v4_replacement: Option<String>,
}

/// The abstract image of an operating-system entry.
pub struct OsEntryV {
    pub regex: Seq<char>,
    pub case_insensitive: bool,
    pub os_replacement: Option<Seq<char>>,
    pub os_v1_replacement: Option<Seq<char>>,
    pub os_v2_replacement: Option<Seq<char>>,
    pub os_v3_replacement: Option<Seq<char>>,
    pub os_v4_replacement: Option<Seq<char>>,
}

impl View for OsEntry {
    type V = OsEntryV;

    open spec fn view(&self) -> OsEntryV {
        OsEntryV {
            regex: self.regex@,
            case_insensitive: self.case_insensitive,
            os_replacement: self.os_replacement.deep_view(),
            os_v1_replacement: self.os_v1_replacement.deep_view(),
            os_v2_replacement: self.os_v2_replacement.deep_view(),
            os_v3_replacement: self.os_v3_replacement.deep_view(),
            os_v4_replacement: self.os_v4_replacement.deep_view(),
        }
    }
}

/// One operating-system rule ready for matching: the normalized pattern,
/// the flag it compiles under, and the templates.  The flag reaches only
/// the rule's own compilation, never the facet's aggregate matcher.
pub struct OsRuleV {
    pub pattern: Seq<char>,
    pub ci: bool,
    pub family_template: Option<Seq<char>>,
    pub v1_template: Option<Seq<char>>,
    pub v2_template: Option<Seq<char>>,
    pub v3_template: Option<Seq<char>>,
    pub v4_template: Option<Seq<char>>,
}

/// The abstract images of a list of entries, in order.
pub open spec fn entry_views(entries: Seq<OsEntry>) -> Seq<OsEntryV> {
    Seq::new(entries.len(), |i: int| entries[i]@)
}

/// The rule a catalog entry compiles to: its pattern normalized.
pub open spec fn spec_rule_of(e: OsEntryV) -> OsRuleV {
    OsRuleV {
        pattern: normalize_spec(e.regex),
        ci: e.case_insensitive,
        family_template: e.os_replacement,
        v1_template: e.os_v1_replacement,
        v2_template: e.os_v2_replacement,
        v3_template: e.os_v3_replacement,
        v4_template: e.os_v4_replacement,
    }
}

pub open spec fn rules_of(entries: Seq<OsEntryV>) -> Seq<OsRuleV> {
    Seq::new(entries.len(), |i: int| spec_rule_of(entries[i]))
}

/// The compiled-pattern identities of an operating-system rule list.
pub open spec fn rule_keys(rules: Seq<OsRuleV>) -> Seq<RuleKey> {
    Seq::new(rules.len(), |i: int| RuleKey { pattern: rules[i].pattern, ci: rules[i].ci })
}

pub open spec fn patterns_of(rules: Seq<OsRuleV>) -> Seq<Seq<char>> {
    Seq::new(rules.len(), |i: int| rules[i].pattern)
}

/// The operating-system record extracted for an input string.
#[derive(Debug, Clone, PartialEq, Eq)]
pub struct OS {
    pub family: String,
    pub major: Option<String>,
    pub minor: Option<String>,
    pub patch: Option<String>,
    pub patch_minor: Option<String>,
}

/// The abstract image of an operating-system record.
pub struct OSV {
    pub family: Seq<char>,
    pub major: Option<Seq<char>>,
    pub minor: Option<Seq<char>>,
    pub patch: Option<Seq<char>>,
    pub patch_minor: Option<Seq<char>>,
}

impl View for OS {
    type V = OSV;

    open spec fn view(&self) -> OSV {
        OSV {
            family: self.family@,
            major: self.major.deep_view(),
            minor: self.minor.deep_view(),
            patch: self.patch.deep_view(),
            patch_minor: self.patch_minor.deep_view(),
        }
    }
}

/// The record reported when no operating-system rule matches.
pub open spec fn default_os() -> OSV {
    OSV { family: other_family(), major: None, minor: None, patch: None, patch_minor: None }
}

impl Default for OS {
    /// The sentinel record: family `"Other"`, all other fields absent.
    fn default() -> (r: OS)
        ensures
            r@ == default_os(),
    {
        OS {
            family: String::from_str("Other"),
            major: None,
            minor: None,
            patch: None,
            patch_minor: None,
        }
    }
}

/// The record extracted from one matched rule's capture groups.
pub open spec fn spec_extract(rule: OsRuleV, groups: Seq<Option<Seq<char>>>) -> OSV {
    OSV {
        family: spec_family_field(rule.family_template, groups),
        major: spec_opt_field(rule.v1_template, groups, 2),
        minor: spec_opt_field(rule.v2_template, groups, 3),
        patch: spec_opt_field(rule.v3_template, groups, 4),
        patch_minor: spec_opt_field(rule.v4_template, groups, 5),
    }
}

/// Ordered match: the record of the first rule whose pattern matches, else
/// the default record.
pub open spec fn spec_parse(rules: Seq<OsRuleV>, input: Seq<char>) -> OSV {
    match first_match(rule_keys(rules), input) {
        Some(i) => spec_extract(rules[i], regex_groups(rules[i].pattern, rules[i].ci, input)),
        None => default_os(),
    }
}

/// Set-accelerated match: the aggregate matcher — always case-sensitive —
/// picks the lowest matching index, and only that rule is run for
/// captures; it contributes a record only if it matches on its own terms.
pub open spec fn spec_parse_set(rules: Seq<OsRuleV>, input: Seq<char>) -> OSV {
    match first_match_plain(rule_keys(rules), input) {
        Some(i) => if regex_match(rules[i].pattern, rules[i].ci, input) {
            spec_extract(rules[i], regex_groups(rules[i].pattern, rules[i].ci, input))
        } else {
            default_os()
        },
        None => default_os(),
    }
}

/// Equivalence: on a catalog in which no operating-system rule asks for
/// case-insensitive matching, the two strategies agree on every input.
pub proof fn lemma_set_equivalence(rules: Seq<OsRuleV>, input: Seq<char>)
    requires
        forall|i: int| #![trigger rules[i]] 0 <= i < rules.len() ==> !rules[i].ci,
    ensures
        spec_parse_set(rules, input) == spec_parse(rules, input),
{
    let keys = rule_keys(rules);
    assert forall|i: int| #![trigger keys[i]] 0 <= i < keys.len() implies !keys[i].ci by {
        assert(!rules[i].ci);
    }
    lemma_first_match_plain_agrees(keys, input);
    lemma_first_match_characterization(keys, input);
    match first_match(keys, input) {
        Some(i) => {
            assert(keys[i].pattern == rules[i].pattern && keys[i].ci == rules[i].ci);
            assert(regex_match(rules[i].pattern, rules[i].ci, input));
        },
        None => {},
    }
}

/// Default on no match: when no rule's pattern matches — under its own
/// flag or the aggregate's settings — both strategies return the default
/// record.
pub proof fn lemma_default_on_no_match(rules: Seq<OsRuleV>, input: Seq<char>)
    requires
        forall|i: int|
            #![trigger rules[i]]
            0 <= i < rules.len() ==> !regex_match(rules[i].pattern, rules[i].ci, input)
                && !regex_match(rules[i].pattern, false, input),
    ensures
        spec_parse(rules, input) == default_os(),
        spec_parse_set(rules, input) == default_os(),
{
    let keys = rule_keys(rules);
    assert forall|j: int| 0 <= j < keys.len() implies !key_matches(#[trigger] keys[j], input) by {
        assert(keys[j].pattern == rules[j].pattern && keys[j].ci == rules[j].ci);
    }
    assert forall|j: int| 0 <= j < keys.len() implies !regex_match(
        (#[trigger] keys[j]).pattern,
        false,
        input,
    ) by {
        assert(keys[j].pattern == rules[j].pattern);
    }
    lemma_first_match_none(keys, input);
    lemma_first_match_plain_none(keys, input);
}

/// One compiled operating-system rule: the compiled regex beside the data
/// needed to extract a record from its captures.
pub struct Matcher {
    regex: regex::Regex,
    pattern: String,
    ci: bool,
    os_replacement: Option<String>,
    os_v1_replacement: Option<String>,
    os_v2_replacement: Option<String>,
    os_v3_replacement: Option<String>,
    os_v4_replacement: Option<String>,
}

impl View for Matcher {
    type V = OsRuleV;

    closed spec fn view(&self) -> OsRuleV {
        OsRuleV {
            pattern: self.pattern@,
            ci: self.ci,
            family_template: self.os_replacement.deep_view(),
            v1_template: self.os_v1_replacement.deep_view(),
            v2_template: self.os_v2_replacement.deep_view(),
            v3_template: self.os_v3_replacement.deep_view(),
            v4_template: self.os_v4_replacement.deep_view(),
        }
    }
}

impl Matcher {
    #[verifier::type_invariant]
    spec fn wf(self) -> bool {
        regex_source(self.regex) == self.pattern@ && regex_is_ci(self.regex) == self.ci
    }

    /// Compiles one catalog entry: the pattern is normalized, then
    /// compiled under the entry's flag and the shared size budget.
    pub fn new(entry: &OsEntry) -> (r: Option<Matcher>)
        ensures
            r is Some <==> regex_compiles(
                normalize_spec(entry@.regex),
                entry@.case_insensitive,
                SIZE_LIMIT as nat,
            ),
            r matches Some(m) ==> m@ == spec_rule_of(entry@),
    {
        let cleaned = clean_escapes(entry.regex.as_str());
        match compile_pattern(cleaned.as_str(), entry.case_insensitive, SIZE_LIMIT) {
            Some(re) => Some(
                Matcher {
                    regex: re,
                    pattern: cleaned,
                    ci: entry.case_insensitive,
                    os_replacement: clone_opt_string(&entry.os_replacement),
                    os_v1_replacement: clone_opt_string(&entry.os_v1_replacement),
                    os_v2_replacement: clone_opt_string(&entry.os_v2_replacement),
                    os_v3_replacement: clone_opt_string(&entry.os_v3_replacement),
                    os_v4_replacement: clone_opt_string(&entry.os_v4_replacement),
                },
            ),
            None => None,
        }
    }

    /// Runs this one rule: the extracted record when the rule's pattern
    /// matches the input, `None` otherwise.
    pub fn try_parse(&self, user_agent: &str) -> (r: Option<OS>)
        ensures
            r is Some <==> regex_match(self@.pattern, self@.ci, user_agent@),
            r matches Some(os) ==> os@ == spec_extract(
                self@,
                regex_groups(self@.pattern, self@.ci, user_agent@),
            ),
    {
        proof {
            use_type_invariant(&*self);
        }
        match capture_strings(&self.regex, user_agent) {
            Some(groups) => {
                let family = family_value(&self.os_replacement, &groups);
                let major = opt_field_value(&self.os_v1_replacement, &groups, 2);
                let minor = opt_field_value(&self.os_v2_replacement, &groups, 3);
                let patch = opt_field_value(&self.os_v3_replacement, &groups, 4);
                let patch_minor = opt_field_value(&self.os_v4_replacement, &groups, 5);
                Some(OS { family, major, minor, patch, patch_minor })
            },
            None => None,
        }
    }
}

} // verus!
