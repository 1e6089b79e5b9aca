//! The client facet: rule entries, the compiled per-rule matcher, and the
//! record extracted for the software client named in a user-agent string.

use vstd::prelude::*;
use vstd::string::StringExecFns;
use crate::fields::clone_opt_string;
use crate::fields::family_value;
use crate::fields::opt_field_value;
use crate::fields::other_family;
use crate::fields::spec_family_field;
use crate::fields::spec_opt_field;
use crate::matching::RuleKey;
use crate::matching::first_match;
use crate::matching::first_match_plain;
use crate::matching::key_matches;
use crate::matching::lemma_first_match_characterization;
use crate::matching::lemma_first_match_none;
use crate::matching::lemma_first_match_plain_agrees;
use crate::matching::lemma_first_match_plain_none;
use crate::normalize::clean_escapes;
use crate::normalize::normalize_spec;
use crate::rx::SIZE_LIMIT;
use crate::rx::capture_strings;
use crate::rx::compile_pattern;
use crate::rx::regex_compiles;
use crate::rx::regex_groups;
use crate::rx::regex_is_ci;
use crate::rx::regex_match;
use crate::rx::regex_source;

verus! {

/// One client rule as authored: a pattern and optional templates for the
/// family and up to three version components.  A field without a template
/// takes its conventional capture group directly: family group 1, major
/// group 2, minor group 3, patch group 4.
pub struct UserAgentEntry {
    pub regex: String,
    pub family_replacement: Option<String>,
    pub v1_replacement: Option<String>,
    pub v2_replacement: Option<String>,
    pub v3_replacement: Option<String>,
}

/// The abstract image of a client entry.
pub struct UserAgentEntryV {
    pub regex: Seq<char>,
    pub family_replacement: Option<Seq<char>>,
    pub v1_replacement: Option<Seq<char>>,
    pub v2_replacement: Option<Seq<char>>,
    pub v3_replacement: Option<Seq<char>>,
}

impl View for UserAgentEntry {
    type V = UserAgentEntryV;

    open spec fn view(&self) -> UserAgentEntryV {
        UserAgentEntryV {
            regex: self.regex@,
            family_replacement: self.family_replacement.deep_view(),
            v1_replacement: self.v1_replacement.deep_view(),
            v2_replacement: self.v2_replacement.deep_view(),
            v3_replacement: self.v3_replacement.deep_view(),
        }
    }
}

/// One client rule ready for matching: the normalized pattern beside the
/// templates.  Client rules always compile case-sensitively.
pub struct UserAgentRuleV {
    pub pattern: Seq<char>,
    pub family_template: Option<Seq<char>>,
    pub v1_template: Option<Seq<char>>,
    pub v2_template: Option<Seq<char>>,
    pub v3_template: Option<Seq<char>>,
}

/// The abstract images of a list of entries, in order.
pub open spec fn entry_views(entries: Seq<UserAgentEntry>) -> Seq<UserAgentEntryV> {
    Seq::new(entries.len(), |i: int| entries[i]@)
}

/// The rule a catalog entry compiles to: its pattern normalized.
pub open spec fn spec_rule_of(e: UserAgentEntryV) -> UserAgentRuleV {
    UserAgentRuleV {
        pattern: normalize_spec(e.regex),
        family_template: e.family_replacement,
        v1_template: e.v1_replacement,
        v2_template: e.v2_replacement,
        v3_template: e.v3_replacement,
    }
}

pub open spec fn rules_of(entries: Seq<UserAgentEntryV>) -> Seq<UserAgentRuleV> {
    Seq::new(entries.len(), |i: int| spec_rule_of(entries[i]))
}

/// The compiled-pattern identities of a client rule list.
pub open spec fn rule_keys(rules: Seq<UserAgentRuleV>) -> Seq<RuleKey> {
    Seq::new(rules.len(), |i: int| RuleKey { pattern: rules[i].pattern, ci: false })
}

pub open spec fn patterns_of(rules: Seq<UserAgentRuleV>) -> Seq<Seq<char>> {
    Seq::new(rules.len(), |i: int| rules[i].pattern)
}

/// The client record extracted for an input string.
#[derive(Debug, Clone, PartialEq, Eq)]
pub struct UserAgent {
    pub family: String,
    pub major: Option<String>,
    pub minor: Option<String>,
    pub patch: Option<String>,
}

/// The abstract image of a client record.
pub struct UserAgentV {
    pub family: Seq<char>,
    pub major: Option<Seq<char>>,
    pub minor: Option<Seq<char>>,
    pub patch: Option<Seq<char>>,
}

impl View for UserAgent {
    type V = UserAgentV;

    open spec fn view(&self) -> UserAgentV {
        UserAgentV {
            family: self.family@,
            major: self.major.deep_view(),
            minor: self.minor.deep_view(),
            patch: self.patch.deep_view(),
        }
    }
}

/// The record reported when no client rule matches.
pub open spec fn default_user_agent() -> UserAgentV {
    UserAgentV { family: other_family(), major: None, minor: None, patch: None }
}

impl Default for UserAgent {
    /// The sentinel record: family `"Other"`, all other fields absent.
    fn default() -> (r: UserAgent)
        ensures
            r@ == default_user_agent(),
    {
        UserAgent {
            family: String::from_str("Other"),
            major: None,
            minor: None,
            patch: None,
        }
    }
}

/// The record extracted from one matched rule's capture groups.
pub open spec fn spec_extract(rule: UserAgentRuleV, groups: Seq<Option<Seq<char>>>) -> UserAgentV {
    UserAgentV {
        family: spec_family_field(rule.family_template, groups),
        major: spec_opt_field(rule.v1_template, groups, 2),
        minor: spec_opt_field(rule.v2_template, groups, 3),
        patch: spec_opt_field(rule.v3_template, groups, 4),
    }
}

/// Ordered match: the record of the first rule whose pattern matches, else
/// the default record.
pub open spec fn spec_parse(rules: Seq<UserAgentRuleV>, input: Seq<char>) -> UserAgentV {
    match first_match(rule_keys(rules), input) {
        Some(i) => spec_extract(rules[i], regex_groups(rules[i].pattern, false, input)),
        None => default_user_agent(),
    }
}

/// Set-accelerated match: the aggregate matcher picks the lowest matching
/// index and only that rule is run for captures.
pub open spec fn spec_parse_set(rules: Seq<UserAgentRuleV>, input: Seq<char>) -> UserAgentV {
    match first_match_plain(rule_keys(rules), input) {
        Some(i) => if regex_match(rules[i].pattern, false, input) {
            spec_extract(rules[i], regex_groups(rules[i].pattern, false, input))
        } else {
            default_user_agent()
        },
        None => default_user_agent(),
    }
}

/// Equivalence: the two matching strategies agree on every client catalog
/// and every input.
pub proof fn lemma_set_equivalence(rules: Seq<UserAgentRuleV>, input: Seq<char>)
    ensures
        spec_parse_set(rules, input) == spec_parse(rules, input),
{
    let keys = rule_keys(rules);
    assert forall|i: int| #![trigger keys[i]] 0 <= i < keys.len() implies !keys[i].ci by {}
    lemma_first_match_plain_agrees(keys, input);
    lemma_first_match_characterization(keys, input);
    match first_match(keys, input) {
        Some(i) => {
            assert(keys[i].pattern == rules[i].pattern);
            assert(regex_match(rules[i].pattern, false, input));
        },
        None => {},
    }
}

/// Default on no match: when no rule's pattern matches, both strategies
/// return the default record.
pub proof fn lemma_default_on_no_match(rules: Seq<UserAgentRuleV>, input: Seq<char>)
    requires
        forall|i: int|
            #![trigger rules[i]]
            0 <= i < rules.len() ==> !regex_match(rules[i].pattern, false, input),
    ensures
        spec_parse(rules, input) == default_user_agent(),
        spec_parse_set(rules, input) == default_user_agent(),
{
    let keys = rule_keys(rules);
    assert forall|j: int| 0 <= j < keys.len() implies !key_matches(#[trigger] keys[j], input) by {
        assert(keys[j].pattern == rules[j].pattern);
    }
    lemma_first_match_none(keys, input);
    lemma_first_match_plain_none(keys, input);
}

/// One compiled client rule: the compiled regex beside the data needed to
/// extract a record from its captures.
pub struct Matcher {
    regex: regex::Regex,
    pattern: String,
    family_replacement: Option<String>,
    v1_replacement: Option<String>,
    v2_replacement: Option<String>,
    v3_replacement: Option<String>,
}

impl View for Matcher {
    type V = UserAgentRuleV;

    closed spec fn view(&self) -> UserAgentRuleV {
        UserAgentRuleV {
            pattern: self.pattern@,
            family_template: self.family_replacement.deep_view(),
            v1_template: self.v1_replacement.deep_view(),
            v2_template: self.v2_replacement.deep_view(),
            v3_template: self.v3_replacement.deep_view(),
        }
    }
}

impl Matcher {
    #[verifier::type_invariant]
    spec fn wf(self) -> bool {
        regex_source(self.regex) == self.pattern@ && regex_is_ci(self.regex) == false
    }

    /// Compiles one catalog entry: the pattern is normalized, then
    /// compiled case-sensitively under the shared size budget.
    pub fn new(entry: &UserAgentEntry) -> (r: Option<Matcher>)
        ensures
            r is Some <==> regex_compiles(normalize_spec(entry@.regex), false, SIZE_LIMIT as nat),
            r matches Some(m) ==> m@ == spec_rule_of(entry@),
    {
        let cleaned = clean_escapes(entry.regex.as_str());
        match compile_pattern(cleaned.as_str(), false, SIZE_LIMIT) {
            Some(re) => Some(
                Matcher {
                    regex: re,
                    pattern: cleaned,
                    family_replacement: clone_opt_string(&entry.family_replacement),
                    v1_replacement: clone_opt_string(&entry.v1_replacement),
                    v2_replacement: clone_opt_string(&entry.v2_replacement),
                    v3_replacement: clone_opt_string(&entry.v3_replacement),
                },
            ),
            None => None,
        }
    }

    /// Runs this one rule: the extracted record when the rule's pattern
    /// matches the input, `None` otherwise.
    pub fn try_parse(&self, user_agent: &str) -> (r: Option<UserAgent>)
        ensures
            r is Some <==> regex_match(self@.pattern, false, user_agent@),
            r matches Some(ua) ==> ua@ == spec_extract(
                self@,
                regex_groups(self@.pattern, false, user_agent@),
            ),
    {
        proof {
            use_type_invariant(&*self);
        }
        match capture_strings(&self.regex, user_agent) {
            Some(groups) => {
                let family = family_value(&self.family_replacement, &groups);
                let major = opt_field_value(&self.v1_replacement, &groups, 2);
                let minor = opt_field_value(&self.v2_replacement, &groups, 3);
                let patch = opt_field_value(&self.v3_replacement, &groups, 4);
                Some(UserAgent { family, major, minor, patch })
            },
            None => None,
        }
    }
}

} // verus!
