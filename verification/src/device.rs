//! The device facet: rule entries, the compiled per-rule matcher, and the
//! record extracted for the hardware device named in a user-agent string.

use vstd::prelude::*;
use vstd::string::StringExecFns;
use crate::fields::clone_opt_string;
use crate::fields::family_value;
use crate::fields::opt_field_value;
use crate::fields::other_family;
use crate::fields::spec_family_field;
use crate::fields::spec_opt_field;
use crate::matching::RuleKey;
use crate::matching::first_match;
use crate::matching::first_match_plain;
use crate::matching::key_matches;
use crate::matching::lemma_first_match_characterization;
use crate::matching::lemma_first_match_none;
use crate::matching::lemma_first_match_plain_agrees;
use crate::matching::lemma_first_match_plain_none;
use crate::normalize::clean_escapes;
use crate::normalize::normalize_spec;
use crate::rx::SIZE_LIMIT;
use crate::rx::capture_strings;
use crate::rx::compile_pattern;
use crate::rx::regex_compiles;
use crate::rx::regex_groups;
use crate::rx::regex_is_ci;
use crate::rx::regex_match;
use crate::rx::regex_source;

verus! {

/// One device rule as authored: a pattern, its case-insensitivity flag,
/// and optional templates.  A field without a template takes its
/// conventional capture group directly: family group 1, brand group 2,
/// model group 3.
pub struct DeviceEntry {
    pub regex: String,
    pub case_insensitive: bool,
    pub device_replacement: Option<String>,
    pub brand_replacement: Option<String>,
    pub model_replacement: Option<String>,
}

/// The abstract image of a device entry.
pub struct DeviceEntryV {
    pub regex: Seq<char>,
    pub case_insensitive: bool,
    pub device_replacement: Option<Seq<char>>,
    pub brand_replacement: Option<Seq<char>>,
    pub model_replacement: Option<Seq<char>>,
}

impl View for DeviceEntry {
    type V = DeviceEntryV;

    open spec fn view(&self) -> DeviceEntryV {
        DeviceEntryV {
            regex: self.regex@,
            case_insensitive: self.case_insensitive,
            device_replacement: self.device_replacement.deep_view(),
            brand_replacement: self.brand_replacement.deep_view(),
            model_replacement: self.model_replacement.deep_view(),
        }
    }
}

/// One device rule ready for matching: the normalized pattern, the flag it
/// compiles under, and the templates.  The flag reaches only the rule's
/// own compilation, never the facet's aggregate matcher.
pub struct DeviceRuleV {
    pub pattern: Seq<char>,
    pub ci: bool,
    pub family_template: Option<Seq<char>>,
    pub brand_template: Option<Seq<char>>,
    pub model_template: Option<Seq<char>>,
}

/// The abstract images of a list of entries, in order.
pub open spec fn entry_views(entries: Seq<DeviceEntry>) -> Seq<DeviceEntryV> {
    Seq::new(entries.len(), |i: int| entries[i]@)
}

/// The rule a catalog entry compiles to: its pattern normalized.
pub open spec fn spec_rule_of(e: DeviceEntryV) -> DeviceRuleV {
    DeviceRuleV {
        pattern: normalize_spec(e.regex),
        ci: e.case_insensitive,
        family_template: e.device_replacement,
        brand_template: e.brand_replacement,
        model_template: e.model_replacement,
    }
}

pub open spec fn rules_of(entries: Seq<DeviceEntryV>) -> Seq<DeviceRuleV> {
    Seq::new(entries.len(), |i: int| spec_rule_of(entries[i]))
}

/// The compiled-pattern identities of a device rule list.
pub open spec fn rule_keys(rules: Seq<DeviceRuleV>) -> Seq<RuleKey> {
    Seq::new(rules.len(), |i: int| RuleKey { pattern: rules[i].pattern, ci: rules[i].ci })
}

pub open spec fn patterns_of(rules: Seq<DeviceRuleV>) -> Seq<Seq<char>> {
    Seq::new(rules.len(), |i: int| rules[i].pattern)
}

/// The device record extracted for an input string.
#[derive(Debug, Clone, PartialEq, Eq)]
pub struct Device {
    pub family: String,
    pub brand: Option<String>,
    pub model: Option<String>,
}

/// The abstract image of a device record.
pub struct DeviceV {
    pub family: Seq<char>,
    pub brand: Option<Seq<char>>,
    pub model: Option<Seq<char>>,
}

impl View for Device {
    type V = DeviceV;

    open spec fn view(&self) -> DeviceV {
        DeviceV {
            family: self.family@,
            brand: self.brand.deep_view(),
            model: self.model.deep_view(),
        }
    }
}

/// The record reported when no device rule matches.
pub open spec fn default_device() -> DeviceV {
    DeviceV { family: other_family(), brand: None, model: None }
}

impl Default for Device {
    /// The sentinel record: family `"Other"`, all other fields absent.
    fn default() -> (r: Device)
        ensures
            r@ == default_device(),
    {
        Device { family: String::from_str("Other"), brand: None, model: None }
    }
}

/// The record extracted from one matched rule's capture groups.
pub open spec fn spec_extract(rule: DeviceRuleV, groups: Seq<Option<Seq<char>>>) -> DeviceV {
    DeviceV {
        family: spec_family_field(rule.family_template, groups),
        brand: spec_opt_field(rule.brand_template, groups, 2),
        model: spec_opt_field(rule.model_template, groups, 3),
    }
}

/// Ordered match: the record of the first rule whose pattern matches, else
/// the default record.
pub open spec fn spec_parse(rules: Seq<DeviceRuleV>, input: Seq<char>) -> DeviceV {
    match first_match(rule_keys(rules), input) {
        Some(i) => spec_extract(rules[i], regex_groups(rules[i].pattern, rules[i].ci, input)),
        None => default_device(),
    }
}

/// Set-accelerated match: the aggregate matcher — always case-sensitive —
/// picks the lowest matching index, and only that rule is run for
/// captures; it contributes a record only if it matches on its own terms.
pub open spec fn spec_parse_set(rules: Seq<DeviceRuleV>, input: Seq<char>) -> DeviceV {
    match first_match_plain(rule_keys(rules), input) {
        Some(i) => if regex_match(rules[i].pattern, rules[i].ci, input) {
            spec_extract(rules[i], regex_groups(rules[i].pattern, rules[i].ci, input))
        } else {
            default_device()
        },
        None => default_device(),
    }
}

/// Equivalence: on a catalog in which no device rule asks for
/// case-insensitive matching, the two strategies agree on every input.
/// A case-insensitive rule reaches only its own compilation, not the
/// aggregate matcher, so there the pre-filter may pass it over.
pub proof fn lemma_set_equivalence(rules: Seq<DeviceRuleV>, input: Seq<char>)
    requires
        forall|i: int| #![trigger rules[i]] 0 <= i < rules.len() ==> !rules[i].ci,
    ensures
        spec_parse_set(rules, input) == spec_parse(rules, input),
{
    let keys = rule_keys(rules);
    assert forall|i: int| #![trigger keys[i]] 0 <= i < keys.len() implies !keys[i].ci by {
        assert(!rules[i].ci);
    }
    lemma_first_match_plain_agrees(keys, input);
    lemma_first_match_characterization(keys, input);
    match first_match(keys, input) {
        Some(i) => {
            assert(keys[i].pattern == rules[i].pattern && keys[i].ci == rules[i].ci);
            assert(regex_match(rules[i].pattern, rules[i].ci, input));
        },
        None => {},
    }
}

/// Default on no match: when no rule's pattern matches — under its own
/// flag or the aggregate's settings — both strategies return the default
/// record.
pub proof fn lemma_default_on_no_match(rules: Seq<DeviceRuleV>, input: Seq<char>)
    requires
        forall|i: int|
            #![trigger rules[i]]
            0 <= i < rules.len() ==> !regex_match(rules[i].pattern, rules[i].ci, input)
                && !regex_match(rules[i].pattern, false, input),
    ensures
        spec_parse(rules, input) == default_device(),
        spec_parse_set(rules, input) == default_device(),
{
    let keys = rule_keys(rules);
    assert forall|j: int| 0 <= j < keys.len() implies !key_matches(#[trigger] keys[j], input) by {
        assert(keys[j].pattern == rules[j].pattern && keys[j].ci == rules[j].ci);
    }
    assert forall|j: int| 0 <= j < keys.len() implies !regex_match(
        (#[trigger] keys[j]).pattern,
        false,
        input,
    ) by {
        assert(keys[j].pattern == rules[j].pattern);
    }
    lemma_first_match_none(keys, input);
    lemma_first_match_plain_none(keys, input);
}

/// One compiled device rule: the compiled regex beside the data needed to
/// extract a record from its captures.
pub struct Matcher {
    regex: regex::Regex,
    pattern: String,
    ci: bool,
    device_replacement: Option<String>,
    brand_replacement: Option<String>,
    model_replacement: Option<String>,
}

impl View for Matcher {
    type V = DeviceRuleV;

    closed spec fn view(&self) -> DeviceRuleV {
        DeviceRuleV {
            pattern: self.pattern@,
            ci: self.ci,
            family_template: self.device_replacement.deep_view(),
            brand_template: self.brand_replacement.deep_view(),
            model_template: self.model_replacement.deep_view(),
        }
    }
}

impl Matcher {
    #[verifier::type_invariant]
    spec fn wf(self) -> bool {
        regex_source(self.regex) == self.pattern@ && regex_is_ci(self.regex) == self.ci
    }

    /// Compiles one catalog entry: the pattern is normalized, then
    /// compiled under the entry's flag and the shared size budget.
    pub fn new(entry: &DeviceEntry) -> (r: Option<Matcher>)
        ensures
            r is Some <==> regex_compiles(
                normalize_spec(entry@.regex),
                entry@.case_insensitive,
                SIZE_LIMIT as nat,
            ),
            r matches Some(m) ==> m@ == spec_rule_of(entry@),
    {
        let cleaned = clean_escapes(entry.regex.as_str());
        match compile_pattern(cleaned.as_str(), entry.case_insensitive, SIZE_LIMIT) {
            Some(re) => Some(
                Matcher {
                    regex: re,
                    pattern: cleaned,
                    ci: entry.case_insensitive,
                    device_replacement: clone_opt_string(&entry.device_replacement),
                    brand_replacement: clone_opt_string(&entry.brand_replacement),
                    model_replacement: clone_opt_string(&entry.model_replacement),
                },
            ),
            None => None,
        }
    }

    /// Runs this one rule: the extracted record when the rule's pattern
    /// matches the input, `None` otherwise.
    pub fn try_parse(&self, user_agent: &str) -> (r: Option<Device>)
        ensures
            r is Some <==> regex_match(self@.pattern, self@.ci, user_agent@),
            r matches Some(d) ==> d@ == spec_extract(
                self@,
                regex_groups(self@.pattern, self@.ci, user_agent@),
            ),
    {
        proof {
            use_type_invariant(&*self);
        }
        match capture_strings(&self.regex, user_agent) {
            Some(groups) => {
                let family = family_value(&self.device_replacement, &groups);
                let brand = opt_field_value(&self.brand_replacement, &groups, 2);
                let model = opt_field_value(&self.model_replacement, &groups, 3);
                Some(Device { family, brand, model })
            },
            None => None,
        }
    }
}

} // verus!
