//! Field extraction shared by the three facets: a field's value comes from
//! its template, when the rule has one, and otherwise from the capture
//! group at the field's conventional position; empty optional fields become
//! absent, and an empty family falls back to the facet's sentinel.

use vstd::prelude::*;
use vstd::string::StringExecFns;
use crate::template::group_text;
use crate::template::spec_substitute;
use crate::template::substitute;

verus! {

/// The sentinel family reported when no rule matches or a matched rule
/// yields an empty family.
pub open spec fn other_family() -> Seq<char> {
    "Other"@
}

/// The raw text of one field: the substituted template when one is
/// present, else the capture group at the field's conventional position.
pub open spec fn spec_field(
    template: Option<Seq<char>>,
    groups: Seq<Option<Seq<char>>>,
    idx: int,
) -> Seq<char> {
    match template {
        Some(t) => spec_substitute(t, groups),
        None => group_text(groups, idx),
    }
}

/// An optional field: absent when its raw text is empty.
pub open spec fn spec_opt_field(
    template: Option<Seq<char>>,
    groups: Seq<Option<Seq<char>>>,
    idx: int,
) -> Option<Seq<char>> {
    if spec_field(template, groups, idx).len() == 0 {
        None
    } else {
        Some(spec_field(template, groups, idx))
    }
}

/// The family field: never absent, the sentinel when its raw text is empty.
pub open spec fn spec_family_field(
    template: Option<Seq<char>>,
    groups: Seq<Option<Seq<char>>>,
) -> Seq<char> {
    if spec_field(template, groups, 1).len() == 0 {
        other_family()
    } else {
        spec_field(template, groups, 1)
    }
}

fn group_string(groups: &Vec<Option<String>>, i: usize) -> (r: String)
    ensures
        r@ == group_text(groups.deep_view(), i as int),
{
    if i < groups.len() {
        match &groups[i] {
            Some(s) => s.clone(),
            None => String::new(),
        }
    } else {
        String::new()
    }
}

/// The raw value of one field of a matched rule.
pub fn field_value(template: &Option<String>, groups: &Vec<Option<String>>, idx: usize) -> (r:
    String)
    ensures
        r@ == spec_field(template.deep_view(), groups.deep_view(), idx as int),
{
    match template {
        Some(t) => substitute(t.as_str(), groups),
        None => group_string(groups, idx),
    }
}

/// `Some` of a non-empty string, `None` of an empty one.
pub fn none_if_empty(s: String) -> (r: Option<String>)
    ensures
        r.deep_view() == (if s@.len() == 0 {
            None::<Seq<char>>
        } else {
            Some(s@)
        }),
{
    if s.as_str().is_empty() {
        None
    } else {
        Some(s)
    }
}

/// The value of an optional field of a matched rule.
pub fn opt_field_value(template: &Option<String>, groups: &Vec<Option<String>>, idx: usize) -> (r:
    Option<String>)
    ensures
        r.deep_view() == spec_opt_field(template.deep_view(), groups.deep_view(), idx as int),
{
    let v = field_value(template, groups, idx);
    none_if_empty(v)
}

/// The value of the family field of a matched rule.
pub fn family_value(template: &Option<String>, groups: &Vec<Option<String>>) -> (r: String)
    ensures
        r@ == spec_family_field(template.deep_view(), groups.deep_view()),
{
    let v = field_value(template, groups, 1);
    if v.as_str().is_empty() {
        String::from_str("Other")
    } else {
        v
    }
}

/// A clone of an optional string, field by field.
pub fn clone_opt_string(s: &Option<String>) -> (r: Option<String>)
    ensures
        r == *s,
{
    match s {
        Some(x) => Some(x.clone()),
        None => None,
    }
}

} // verus!
