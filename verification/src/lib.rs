//! A user-agent classifier: an input string is matched against an ordered
//! catalog of regular-expression rules, one catalog per facet (device,
//! operating system, client), and the capture groups of the first matching
//! rule are turned into a structured record through template substitution.
//!
//! Each facet offers two matching strategies: an ordered scan of the
//! individually compiled rules, and a set-accelerated scan that asks one
//! aggregate matcher for the lowest matching rule index first.

pub mod device;
pub mod fields;
pub mod matching;
pub mod normalize;
pub mod os;
pub mod rx;
pub mod template;
pub mod text;
pub mod user_agent;

use vstd::prelude::*;
use vstd::pervasive::arbitrary;
use crate::device::Device;
use crate::device::DeviceEntry;
use crate::matching::first_non_compiling;
use crate::matching::key_matches;
use crate::matching::lemma_first_match_is;
use crate::matching::lemma_first_match_none;
use crate::matching::lemma_first_match_plain_is;
use crate::matching::lemma_first_match_plain_none;
use crate::matching::lemma_first_non_compiling_is;
use crate::matching::lemma_first_non_compiling_none;
use crate::normalize::clean_escapes;
use crate::normalize::normalize_spec;
use crate::os::OS;
use crate::os::OsEntry;
use crate::rx::SIZE_LIMIT;
use crate::rx::compile_pattern_set;
use crate::rx::regex_compiles;
use crate::rx::regex_match;
use crate::rx::regex_set_compiles;
use crate::rx::regex_set_patterns;
use crate::rx::set_matched_indices;
use crate::user_agent::UserAgent;
use crate::user_agent::UserAgentEntry;

verus! {

/// A parsed catalog: three ordered rule lists, one per facet.  Order is
/// priority — the first rule whose pattern matches an input wins.
pub struct Catalog {
    pub device_parsers: Vec<DeviceEntry>,
    pub os_parsers: Vec<OsEntry>,
    pub user_agent_parsers: Vec<UserAgentEntry>,
}

/// The abstract image of a catalog.
pub struct CatalogV {
    pub device_parsers: Seq<device::DeviceEntryV>,
    pub os_parsers: Seq<os::OsEntryV>,
    pub user_agent_parsers: Seq<user_agent::UserAgentEntryV>,
}

impl View for Catalog {
    type V = CatalogV;

    open spec fn view(&self) -> CatalogV {
        CatalogV {
            device_parsers: device::entry_views(self.device_parsers@),
            os_parsers: os::entry_views(self.os_parsers@),
            user_agent_parsers: user_agent::entry_views(self.user_agent_parsers@),
        }
    }
}

/// Why one facet of an engine could not be built.
#[derive(Debug, Clone, Copy, PartialEq, Eq, Structural)]
pub enum FacetError {
    /// The rule at this catalog index does not compile on its own.
    Pattern { index: usize },
    /// The facet's pattern list does not compile as one aggregate matcher.
    Aggregate,
}

/// A construction error, tagged by facet.  Queries cannot fail: an engine
/// either is fully built or does not exist.
#[derive(Debug, Clone, Copy, PartialEq, Eq, Structural)]
pub enum Error {
    Device(FacetError),
    OS(FacetError),
    UserAgent(FacetError),
}

/// Whether every pattern of the catalog compiles, individually and as the
/// three facet aggregates: exactly then an engine can be built.
pub open spec fn spec_builds(c: CatalogV) -> bool {
    let dr = device::rules_of(c.device_parsers);
    let or = os::rules_of(c.os_parsers);
    let ur = user_agent::rules_of(c.user_agent_parsers);
    &&& regex_set_compiles(device::patterns_of(dr), SIZE_LIMIT as nat)
    &&& regex_set_compiles(os::patterns_of(or), SIZE_LIMIT as nat)
    &&& regex_set_compiles(user_agent::patterns_of(ur), SIZE_LIMIT as nat)
    &&& first_non_compiling(device::rule_keys(dr), SIZE_LIMIT as nat) is None
    &&& first_non_compiling(os::rule_keys(or), SIZE_LIMIT as nat) is None
    &&& first_non_compiling(user_agent::rule_keys(ur), SIZE_LIMIT as nat) is None
}

/// The error construction reports: the three aggregate matchers are built
/// first (device, operating system, client), then the individual rules in
/// the same facet order, and the first failure wins.
pub open spec fn spec_build_error(c: CatalogV) -> Error {
    let dr = device::rules_of(c.device_parsers);
    let or = os::rules_of(c.os_parsers);
    let ur = user_agent::rules_of(c.user_agent_parsers);
    if !regex_set_compiles(device::patterns_of(dr), SIZE_LIMIT as nat) {
        Error::Device(FacetError::Aggregate)
    } else if !regex_set_compiles(os::patterns_of(or), SIZE_LIMIT as nat) {
        Error::OS(FacetError::Aggregate)
    } else if !regex_set_compiles(user_agent::patterns_of(ur), SIZE_LIMIT as nat) {
        Error::UserAgent(FacetError::Aggregate)
    } else {
        match first_non_compiling(device::rule_keys(dr), SIZE_LIMIT as nat) {
            Some(i) => Error::Device(FacetError::Pattern { index: i as usize }),
            None => match first_non_compiling(os::rule_keys(or), SIZE_LIMIT as nat) {
                Some(i) => Error::OS(FacetError::Pattern { index: i as usize }),
                None => match first_non_compiling(user_agent::rule_keys(ur), SIZE_LIMIT as nat) {
                    Some(i) => Error::UserAgent(FacetError::Pattern { index: i as usize }),
                    None => arbitrary(),
                },
            },
        }
    }
}

/// The composite record: the three facet records for one input.
#[derive(Debug, Clone, PartialEq, Eq)]
pub struct Client {
    pub device: Device,
    pub os: OS,
    pub user_agent: UserAgent,
}

/// The abstract image of a composite record.
pub struct ClientV {
    pub device: device::DeviceV,
    pub os: os::OSV,
    pub user_agent: user_agent::UserAgentV,
}

impl View for Client {
    type V = ClientV;

    open spec fn view(&self) -> ClientV {
        ClientV { device: self.device@, os: self.os@, user_agent: self.user_agent@ }
    }
}

/// The abstract image of a built engine: the three compiled rule lists.
pub struct UserAgentParserV {
    pub device_rules: Seq<device::DeviceRuleV>,
    pub os_rules: Seq<os::OsRuleV>,
    pub user_agent_rules: Seq<user_agent::UserAgentRuleV>,
}

/// The engine: per facet, the individually compiled rules in catalog
/// order and one aggregate matcher compiled from the same ordered pattern
/// list.  Immutable once built; queries are pure reads.
pub struct UserAgentParser {
    device_matcher: regex::RegexSet,
    device_matchers: Vec<device::Matcher>,
    os_matcher: regex::RegexSet,
    os_matchers: Vec<os::Matcher>,
    user_agent_matcher: regex::RegexSet,
    user_agent_matchers: Vec<user_agent::Matcher>,
}

impl View for UserAgentParser {
    type V = UserAgentParserV;

    closed spec fn view(&self) -> UserAgentParserV {
        UserAgentParserV {
            device_rules: Seq::new(self.device_matchers@.len(), |i: int| self.device_matchers@[i]@),
            os_rules: Seq::new(self.os_matchers@.len(), |i: int| self.os_matchers@[i]@),
            user_agent_rules: Seq::new(
                self.user_agent_matchers@.len(),
                |i: int| self.user_agent_matchers@[i]@,
            ),
        }
    }
}

fn device_patterns_vec(entries: &Vec<DeviceEntry>) -> (r: Vec<String>)
    ensures
        r.deep_view() == device::patterns_of(device::rules_of(device::entry_views(entries@))),
{
    let mut r: Vec<String> = Vec::new();
    let mut i: usize = 0;
    while i < entries.len()
        invariant
            i <= entries@.len(),
            r@.len() == i,
            forall|j: int| #![trigger r@[j]] 0 <= j < i ==> r@[j]@ == normalize_spec(
                entries@[j]@.regex,
            ),
        decreases entries@.len() - i,
    {
        let s = clean_escapes(entries[i].regex.as_str());
        r.push(s);
        i = i + 1;
    }
    proof {
        assert(r.deep_view() =~= device::patterns_of(
            device::rules_of(device::entry_views(entries@)),
        ));
    }
    r
}

fn os_patterns_vec(entries: &Vec<OsEntry>) -> (r: Vec<String>)
    ensures
        r.deep_view() == os::patterns_of(os::rules_of(os::entry_views(entries@))),
{
    let mut r: Vec<String> = Vec::new();
    let mut i: usize = 0;
    while i < entries.len()
        invariant
            i <= entries@.len(),
            r@.len() == i,
            forall|j: int| #![trigger r@[j]] 0 <= j < i ==> r@[j]@ == normalize_spec(
                entries@[j]@.regex,
            ),
        decreases entries@.len() - i,
    {
        let s = clean_escapes(entries[i].regex.as_str());
        r.push(s);
        i = i + 1;
    }
    proof {
        assert(r.deep_view() =~= os::patterns_of(os::rules_of(os::entry_views(entries@))));
    }
    r
}

fn user_agent_patterns_vec(entries: &Vec<UserAgentEntry>) -> (r: Vec<String>)
    ensures
        r.deep_view() == user_agent::patterns_of(
            user_agent::rules_of(user_agent::entry_views(entries@)),
        ),
{
    let mut r: Vec<String> = Vec::new();
    let mut i: usize = 0;
    while i < entries.len()
        invariant
            i <= entries@.len(),
            r@.len() == i,
            forall|j: int| #![trigger r@[j]] 0 <= j < i ==> r@[j]@ == normalize_spec(
                entries@[j]@.regex,
            ),
        decreases entries@.len() - i,
    {
        let s = clean_escapes(entries[i].regex.as_str());
        r.push(s);
        i = i + 1;
    }
    proof {
        assert(r.deep_view() =~= user_agent::patterns_of(
            user_agent::rules_of(user_agent::entry_views(entries@)),
        ));
    }
    r
}

fn build_device_matchers(entries: &Vec<DeviceEntry>) -> (r: Result<Vec<device::Matcher>, usize>)
    ensures
        ({
            let rules = device::rules_of(device::entry_views(entries@));
            let keys = device::rule_keys(rules);
            &&& (r is Ok <==> first_non_compiling(keys, SIZE_LIMIT as nat) is None)
            &&& (r matches Ok(ms) ==> Seq::new(ms@.len(), |i: int| ms@[i]@) == rules)
            &&& (r matches Err(i) ==> first_non_compiling(keys, SIZE_LIMIT as nat) == Some(
                i as int,
            ))
        }),
{
    let ghost rules = device::rules_of(device::entry_views(entries@));
    let ghost keys = device::rule_keys(rules);
    let mut ms: Vec<device::Matcher> = Vec::new();
    let mut i: usize = 0;
    while i < entries.len()
        invariant
            i <= entries@.len(),
            rules == device::rules_of(device::entry_views(entries@)),
            keys == device::rule_keys(rules),
            ms@.len() == i,
            forall|j: int| #![trigger ms@[j]] 0 <= j < i ==> ms@[j]@ == rules[j],
            forall|j: int| #![trigger keys[j]] 0 <= j < i ==> regex_compiles(
                keys[j].pattern,
                keys[j].ci,
                SIZE_LIMIT as nat,
            ),
        decreases entries@.len() - i,
    {
        match device::Matcher::new(&entries[i]) {
            Some(m) => {
                ms.push(m);
            },
            None => {
                proof {
                    lemma_first_non_compiling_is(keys, SIZE_LIMIT as nat, i as int);
                }
                return Err(i);
            },
        }
        i = i + 1;
    }
    proof {
        lemma_first_non_compiling_none(keys, SIZE_LIMIT as nat);
        assert(Seq::new(ms@.len(), |i: int| ms@[i]@) =~= rules);
    }
    Ok(ms)
}

fn build_os_matchers(entries: &Vec<OsEntry>) -> (r: Result<Vec<os::Matcher>, usize>)
    ensures
        ({
            let rules = os::rules_of(os::entry_views(entries@));
            let keys = os::rule_keys(rules);
            &&& (r is Ok <==> first_non_compiling(keys, SIZE_LIMIT as nat) is None)
            &&& (r matches Ok(ms) ==> Seq::new(ms@.len(), |i: int| ms@[i]@) == rules)
            &&& (r matches Err(i) ==> first_non_compiling(keys, SIZE_LIMIT as nat) == Some(
                i as int,
            ))
        }),
{
    let ghost rules = os::rules_of(os::entry_views(entries@));
    let ghost keys = os::rule_keys(rules);
    let mut ms: Vec<os::Matcher> = Vec::new();
    let mut i: usize = 0;
    while i < entries.len()
        invariant
            i <= entries@.len(),
            rules == os::rules_of(os::entry_views(entries@)),
            keys == os::rule_keys(rules),
            ms@.len() == i,
            forall|j: int| #![trigger ms@[j]] 0 <= j < i ==> ms@[j]@ == rules[j],
            forall|j: int| #![trigger keys[j]] 0 <= j < i ==> regex_compiles(
                keys[j].pattern,
                keys[j].ci,
                SIZE_LIMIT as nat,
            ),
        decreases entries@.len() - i,
    {
        match os::Matcher::new(&entries[i]) {
            Some(m) => {
                ms.push(m);
            },
            None => {
                proof {
                    lemma_first_non_compiling_is(keys, SIZE_LIMIT as nat, i as int);
                }
                return Err(i);
            },
        }
        i = i + 1;
    }
    proof {
        lemma_first_non_compiling_none(keys, SIZE_LIMIT as nat);
        assert(Seq::new(ms@.len(), |i: int| ms@[i]@) =~= rules);
    }
    Ok(ms)
}

fn build_user_agent_matchers(entries: &Vec<UserAgentEntry>) -> (r: Result<
    Vec<user_agent::Matcher>,
    usize,
>)
    ensures
        ({
            let rules = user_agent::rules_of(user_agent::entry_views(entries@));
            let keys = user_agent::rule_keys(rules);
            &&& (r is Ok <==> first_non_compiling(keys, SIZE_LIMIT as nat) is None)
            &&& (r matches Ok(ms) ==> Seq::new(ms@.len(), |i: int| ms@[i]@) == rules)
            &&& (r matches Err(i) ==> first_non_compiling(keys, SIZE_LIMIT as nat) == Some(
                i as int,
            ))
        }),
{
    let ghost rules = user_agent::rules_of(user_agent::entry_views(entries@));
    let ghost keys = user_agent::rule_keys(rules);
    let mut ms: Vec<user_agent::Matcher> = Vec::new();
    let mut i: usize = 0;
    while i < entries.len()
        invariant
            i <= entries@.len(),
            rules == user_agent::rules_of(user_agent::entry_views(entries@)),
            keys == user_agent::rule_keys(rules),
            ms@.len() == i,
            forall|j: int| #![trigger ms@[j]] 0 <= j < i ==> ms@[j]@ == rules[j],
            forall|j: int| #![trigger keys[j]] 0 <= j < i ==> regex_compiles(
                keys[j].pattern,
                keys[j].ci,
                SIZE_LIMIT as nat,
            ),
        decreases entries@.len() - i,
    {
        match user_agent::Matcher::new(&entries[i]) {
            Some(m) => {
                ms.push(m);
            },
            None => {
                proof {
                    lemma_first_non_compiling_is(keys, SIZE_LIMIT as nat, i as int);
                }
                return Err(i);
            },
        }
        i = i + 1;
    }
    proof {
        lemma_first_non_compiling_none(keys, SIZE_LIMIT as nat);
        assert(Seq::new(ms@.len(), |i: int| ms@[i]@) =~= rules);
    }
    Ok(ms)
}

impl UserAgentParser {
    #[verifier::type_invariant]
    spec fn wf(self) -> bool {
        &&& regex_set_patterns(self.device_matcher) == device::patterns_of(self@.device_rules)
        &&& regex_set_patterns(self.os_matcher) == os::patterns_of(self@.os_rules)
        &&& regex_set_patterns(self.user_agent_matcher) == user_agent::patterns_of(
            self@.user_agent_rules,
        )
    }

    /// Builds an engine from a parsed catalog.  Every pattern is
    /// normalized, then compiled — each facet's list into one aggregate
    /// matcher and every rule individually, in catalog order.
    /// Construction is all-or-nothing: it succeeds exactly when everything
    /// compiles, and otherwise reports the first failure, with the facet
    /// and, for a single rule, its catalog index.
    pub fn try_from(catalog: Catalog) -> (r: Result<UserAgentParser, Error>)
        ensures
            r is Ok <==> spec_builds(catalog@),
            r matches Ok(p) ==> p@ == (UserAgentParserV {
                device_rules: device::rules_of(catalog@.device_parsers),
                os_rules: os::rules_of(catalog@.os_parsers),
                user_agent_rules: user_agent::rules_of(catalog@.user_agent_parsers),
            }),
            r matches Err(e) ==> e == spec_build_error(catalog@),
    {
        let device_patterns = device_patterns_vec(&catalog.device_parsers);
        let device_matcher = match compile_pattern_set(&device_patterns, SIZE_LIMIT) {
            Some(rs) => rs,
            None => {
                return Err(Error::Device(FacetError::Aggregate));
            },
        };
        let os_patterns = os_patterns_vec(&catalog.os_parsers);
        let os_matcher = match compile_pattern_set(&os_patterns, SIZE_LIMIT) {
            Some(rs) => rs,
            None => {
                return Err(Error::OS(FacetError::Aggregate));
            },
        };
        let user_agent_patterns = user_agent_patterns_vec(&catalog.user_agent_parsers);
        let user_agent_matcher = match compile_pattern_set(&user_agent_patterns, SIZE_LIMIT) {
            Some(rs) => rs,
            None => {
                return Err(Error::UserAgent(FacetError::Aggregate));
            },
        };
        let device_matchers = match build_device_matchers(&catalog.device_parsers) {
            Ok(ms) => ms,
            Err(i) => {
                return Err(Error::Device(FacetError::Pattern { index: i }));
            },
        };
        let os_matchers = match build_os_matchers(&catalog.os_parsers) {
            Ok(ms) => ms,
            Err(i) => {
                return Err(Error::OS(FacetError::Pattern { index: i }));
            },
        };
        let user_agent_matchers = match build_user_agent_matchers(&catalog.user_agent_parsers) {
            Ok(ms) => ms,
            Err(i) => {
                return Err(Error::UserAgent(FacetError::Pattern { index: i }));
            },
        };
        let p = UserAgentParser {
            device_matcher,
            device_matchers,
            os_matcher,
            os_matchers,
            user_agent_matcher,
            user_agent_matchers,
        };
        Ok(p)
    }

    /// Returns just the device record, scanning the rules in catalog
    /// order and extracting from the first whose pattern matches.
    pub fn parse_device(&self, user_agent: &str) -> (r: Device)
        ensures
            r@ == device::spec_parse(self@.device_rules, user_agent@),
    {
        proof {
            use_type_invariant(&*self);
        }
        let ghost rules = self@.device_rules;
        let ghost keys = device::rule_keys(rules);
        let n = self.device_matchers.len();
        let mut i: usize = 0;
        while i < n
            invariant
                i <= n,
                n == self.device_matchers@.len(),
                rules == self@.device_rules,
                keys == device::rule_keys(rules),
                forall|j: int| #![trigger keys[j]] 0 <= j < i ==> !key_matches(keys[j], user_agent@),
            decreases n - i,
        {
            let m = &self.device_matchers[i];
            match m.try_parse(user_agent) {
                Some(rec) => {
                    proof {
                        assert(m@ == rules[i as int]);
                        assert(key_matches(keys[i as int], user_agent@));
                        lemma_first_match_is(keys, user_agent@, i as int);
                    }
                    return rec;
                },
                None => {
                    proof {
                        assert(m@ == rules[i as int]);
                    }
                },
            }
            i = i + 1;
        }
        proof {
            lemma_first_match_none(keys, user_agent@);
        }
        Device::default()
    }

    /// Returns just the operating-system record, scanning the rules in
    /// catalog order and extracting from the first whose pattern matches.
    pub fn parse_os(&self, user_agent: &str) -> (r: OS)
        ensures
            r@ == os::spec_parse(self@.os_rules, user_agent@),
    {
        proof {
            use_type_invariant(&*self);
        }
        let ghost rules = self@.os_rules;
        let ghost keys = os::rule_keys(rules);
        let n = self.os_matchers.len();
        let mut i: usize = 0;
        while i < n
            invariant
                i <= n,
                n == self.os_matchers@.len(),
                rules == self@.os_rules,
                keys == os::rule_keys(rules),
                forall|j: int| #![trigger keys[j]] 0 <= j < i ==> !key_matches(keys[j], user_agent@),
            decreases n - i,
        {
            let m = &self.os_matchers[i];
            match m.try_parse(user_agent) {
                Some(rec) => {
                    proof {
                        assert(m@ == rules[i as int]);
                        assert(key_matches(keys[i as int], user_agent@));
                        lemma_first_match_is(keys, user_agent@, i as int);
                    }
                    return rec;
                },
                None => {
                    proof {
                        assert(m@ == rules[i as int]);
                    }
                },
            }
            i = i + 1;
        }
        proof {
            lemma_first_match_none(keys, user_agent@);
        }
        OS::default()
    }

    /// Returns just the client record, scanning the rules in catalog
    /// order and extracting from the first whose pattern matches.
    pub fn parse_user_agent(&self, user_agent: &str) -> (r: UserAgent)
        ensures
            r@ == user_agent::spec_parse(self@.user_agent_rules, user_agent@),
    {
        proof {
            use_type_invariant(&*self);
        }
        let ghost rules = self@.user_agent_rules;
        let ghost keys = user_agent::rule_keys(rules);
        let n = self.user_agent_matchers.len();
        let mut i: usize = 0;
        while i < n
            invariant
                i <= n,
                n == self.user_agent_matchers@.len(),
                rules == self@.user_agent_rules,
                keys == user_agent::rule_keys(rules),
                forall|j: int| #![trigger keys[j]] 0 <= j < i ==> !key_matches(keys[j], user_agent@),
            decreases n - i,
        {
            let m = &self.user_agent_matchers[i];
            match m.try_parse(user_agent) {
                Some(rec) => {
                    proof {
                        assert(m@ == rules[i as int]);
                        assert(key_matches(keys[i as int], user_agent@));
                        lemma_first_match_is(keys, user_agent@, i as int);
                    }
                    return rec;
                },
                None => {
                    proof {
                        assert(m@ == rules[i as int]);
                    }
                },
            }
            i = i + 1;
        }
        proof {
            lemma_first_match_none(keys, user_agent@);
        }
        UserAgent::default()
    }

    /// Returns just the device record by the set-accelerated strategy:
    /// the aggregate matcher reports the lowest matching rule index, and
    /// only that one rule is run for capture extraction.
    pub fn parse_device_set(&self, user_agent: &str) -> (r: Device)
        ensures
            r@ == device::spec_parse_set(self@.device_rules, user_agent@),
    {
        proof {
            use_type_invariant(&*self);
        }
        let ghost rules = self@.device_rules;
        let ghost keys = device::rule_keys(rules);
        let ghost pats = device::patterns_of(rules);
        let indices = set_matched_indices(&self.device_matcher, user_agent);
        let mut best: Option<usize> = None;
        let mut k: usize = 0;
        while k < indices.len()
            invariant
                k <= indices@.len(),
                best is None ==> k == 0,
                best matches Some(b) ==> (exists|t: int|
                    #![trigger indices@[t]]
                    0 <= t < indices@.len() && indices@[t] == b) && (forall|t: int|
                    #![trigger indices@[t]]
                    0 <= t < k ==> indices@[t] >= b),
            decreases indices@.len() - k,
        {
            let idx = indices[k];
            match best {
                None => {
                    best = Some(idx);
                },
                Some(b) => {
                    if idx < b {
                        best = Some(idx);
                    }
                },
            }
            k = k + 1;
        }
        match best {
            None => {
                proof {
                    assert(indices@.len() == 0);
                    assert forall|j: int| 0 <= j < keys.len() implies !regex_match(
                        (#[trigger] keys[j]).pattern,
                        false,
                        user_agent@,
                    ) by {
                        assert(pats[j] == keys[j].pattern);
                        if regex_match(pats[j], false, user_agent@) {
                            assert(indices@.contains(j as usize));
                        }
                    }
                    lemma_first_match_plain_none(keys, user_agent@);
                }
                Device::default()
            },
            Some(m) => {
                proof {
                    let t = choose|t: int|
                        0 <= t < indices@.len() && #[trigger] indices@[t] == m;
                    assert(m < pats.len() && regex_match(pats[m as int], false, user_agent@));
                    assert(keys[m as int].pattern == pats[m as int]);
                    assert forall|j: int| 0 <= j < m implies !regex_match(
                        (#[trigger] keys[j]).pattern,
                        false,
                        user_agent@,
                    ) by {
                        assert(pats[j] == keys[j].pattern);
                        if regex_match(pats[j], false, user_agent@) {
                            assert(indices@.contains(j as usize));
                            let t2 = choose|t2: int|
                                0 <= t2 < indices@.len() && #[trigger] indices@[t2] == (
                                j as usize);
                            assert(indices@[t2] >= m);
                        }
                    }
                    lemma_first_match_plain_is(keys, user_agent@, m as int);
                }
                let mt = &self.device_matchers[m];
                match mt.try_parse(user_agent) {
                    Some(rec) => {
                        proof {
                            assert(mt@ == rules[m as int]);
                        }
                        rec
                    },
                    None => {
                        proof {
                            assert(mt@ == rules[m as int]);
                        }
                        Device::default()
                    },
                }
            },
        }
    }

    /// Returns just the operating-system record by the set-accelerated strategy:
    /// the aggregate matcher reports the lowest matching rule index, and
    /// only that one rule is run for capture extraction.
    pub fn parse_os_set(&self, user_agent: &str) -> (r: OS)
        ensures
            r@ == os::spec_parse_set(self@.os_rules, user_agent@),
    {
        proof {
            use_type_invariant(&*self);
        }
        let ghost rules = self@.os_rules;
        let ghost keys = os::rule_keys(rules);
        let ghost pats = os::patterns_of(rules);
        let indices = set_matched_indices(&self.os_matcher, user_agent);
        let mut best: Option<usize> = None;
        let mut k: usize = 0;
        while k < indices.len()
            invariant
                k <= indices@.len(),
                best is None ==> k == 0,
                best matches Some(b) ==> (exists|t: int|
                    #![trigger indices@[t]]
                    0 <= t < indices@.len() && indices@[t] == b) && (forall|t: int|
                    #![trigger indices@[t]]
                    0 <= t < k ==> indices@[t] >= b),
            decreases indices@.len() - k,
        {
            let idx = indices[k];
            match best {
                None => {
                    best = Some(idx);
                },
                Some(b) => {
                    if idx < b {
                        best = Some(idx);
                    }
                },
            }
            k = k + 1;
        }
        match best {
            None => {
                proof {
                    assert(indices@.len() == 0);
                    assert forall|j: int| 0 <= j < keys.len() implies !regex_match(
                        (#[trigger] keys[j]).pattern,
                        false,
                        user_agent@,
                    ) by {
                        assert(pats[j] == keys[j].pattern);
                        if regex_match(pats[j], false, user_agent@) {
                            assert(indices@.contains(j as usize));
                        }
                    }
                    lemma_first_match_plain_none(keys, user_agent@);
                }
                OS::default()
            },
            Some(m) => {
                proof {
                    let t = choose|t: int|
                        0 <= t < indices@.len() && #[trigger] indices@[t] == m;
                    assert(m < pats.len() && regex_match(pats[m as int], false, user_agent@));
                    assert(keys[m as int].pattern == pats[m as int]);
                    assert forall|j: int| 0 <= j < m implies !regex_match(
                        (#[trigger] keys[j]).pattern,
                        false,
                        user_agent@,
                    ) by {
                        assert(pats[j] == keys[j].pattern);
                        if regex_match(pats[j], false, user_agent@) {
                            assert(indices@.contains(j as usize));
                            let t2 = choose|t2: int|
                                0 <= t2 < indices@.len() && #[trigger] indices@[t2] == (
                                j as usize);
                            assert(indices@[t2] >= m);
                        }
                    }
                    lemma_first_match_plain_is(keys, user_agent@, m as int);
                }
                let mt = &self.os_matchers[m];
                match mt.try_parse(user_agent) {
                    Some(rec) => {
                        proof {
                            assert(mt@ == rules[m as int]);
                        }
                        rec
                    },
                    None => {
                        proof {
                            assert(mt@ == rules[m as int]);
                        }
                        OS::default()
                    },
                }
            },
        }
    }

    /// Returns just the client record by the set-accelerated strategy:
    /// the aggregate matcher reports the lowest matching rule index, and
    /// only that one rule is run for capture extraction.
    pub fn parse_user_agent_set(&self, user_agent: &str) -> (r: UserAgent)
        ensures
            r@ == user_agent::spec_parse_set(self@.user_agent_rules, user_agent@),
    {
        proof {
            use_type_invariant(&*self);
        }
        let ghost rules = self@.user_agent_rules;
        let ghost keys = user_agent::rule_keys(rules);
        let ghost pats = user_agent::patterns_of(rules);
        let indices = set_matched_indices(&self.user_agent_matcher, user_agent);
        let mut best: Option<usize> = None;
        let mut k: usize = 0;
        while k < indices.len()
            invariant
                k <= indices@.len(),
                best is None ==> k == 0,
                best matches Some(b) ==> (exists|t: int|
                    #![trigger indices@[t]]
                    0 <= t < indices@.len() && indices@[t] == b) && (forall|t: int|
                    #![trigger indices@[t]]
                    0 <= t < k ==> indices@[t] >= b),
            decreases indices@.len() - k,
        {
            let idx = indices[k];
            match best {
                None => {
                    best = Some(idx);
                },
                Some(b) => {
                    if idx < b {
                        best = Some(idx);
                    }
                },
            }
            k = k + 1;
        }
        match best {
            None => {
                proof {
                    assert(indices@.len() == 0);
                    assert forall|j: int| 0 <= j < keys.len() implies !regex_match(
                        (#[trigger] keys[j]).pattern,
                        false,
                        user_agent@,
                    ) by {
                        assert(pats[j] == keys[j].pattern);
                        if regex_match(pats[j], false, user_agent@) {
                            assert(indices@.contains(j as usize));
                        }
                    }
                    lemma_first_match_plain_none(keys, user_agent@);
                }
                UserAgent::default()
            },
            Some(m) => {
                proof {
                    let t = choose|t: int|
                        0 <= t < indices@.len() && #[trigger] indices@[t] == m;
                    assert(m < pats.len() && regex_match(pats[m as int], false, user_agent@));
                    assert(keys[m as int].pattern == pats[m as int]);
                    assert forall|j: int| 0 <= j < m implies !regex_match(
                        (#[trigger] keys[j]).pattern,
                        false,
                        user_agent@,
                    ) by {
                        assert(pats[j] == keys[j].pattern);
                        if regex_match(pats[j], false, user_agent@) {
                            assert(indices@.contains(j as usize));
                            let t2 = choose|t2: int|
                                0 <= t2 < indices@.len() && #[trigger] indices@[t2] == (
                                j as usize);
                            assert(indices@[t2] >= m);
                        }
                    }
                    lemma_first_match_plain_is(keys, user_agent@, m as int);
                }
                let mt = &self.user_agent_matchers[m];
                match mt.try_parse(user_agent) {
                    Some(rec) => {
                        proof {
                            assert(mt@ == rules[m as int]);
                        }
                        rec
                    },
                    None => {
                        proof {
                            assert(mt@ == rules[m as int]);
                        }
                        UserAgent::default()
                    },
                }
            },
        }
    }

    /// Returns the full composite record: the three facets' ordered
    /// matches for one input.
    pub fn parse(&self, user_agent: &str) -> (r: Client)
        ensures
            r@ == (ClientV {
                device: device::spec_parse(self@.device_rules, user_agent@),
                os: os::spec_parse(self@.os_rules, user_agent@),
                user_agent: user_agent::spec_parse(self@.user_agent_rules, user_agent@),
            }),
    {
        let device = self.parse_device(user_agent);
        let os = self.parse_os(user_agent);
        let ua = self.parse_user_agent(user_agent);
        Client { device, os, user_agent: ua }
    }
}

} // verus!
