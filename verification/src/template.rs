//! Template substitutor: replaces the placeholders `$1`, `$2`, ... in a
//! field template by the text of the corresponding capture groups and trims
//! the result.

use vstd::prelude::*;
use crate::text::chars_of;
use crate::text::collect_string;
use crate::text::contains_char;
use crate::text::dec_chars;
use crate::text::dec_digits;
use crate::text::find_char;
use crate::text::push_all;
use crate::text::replace_all;
use crate::text::replace_all_spec;
use crate::text::trim_chars;
use crate::text::trim_spec;

verus! {

/// The text of capture group `i`: empty when the group is out of range or
/// did not participate in the match.
pub open spec fn group_text(groups: Seq<Option<Seq<char>>>, i: int) -> Seq<char> {
    if 0 <= i < groups.len() {
        match groups[i] {
            Some(t) => t,
            None => Seq::empty(),
        }
    } else {
        Seq::empty()
    }
}

/// The template after the passes for markers `$i` through `$n` have run,
/// where `n` is the number of groups (the whole-match group included):
/// each pass replaces every occurrence of its marker, lowest number first.
pub open spec fn subst_from(t: Seq<char>, groups: Seq<Option<Seq<char>>>, i: int) -> Seq<char>
    decreases groups.len() + 1 - i,
{
    if 1 <= i <= groups.len() {
        subst_from(
            replace_all_spec(t, seq!['$'] + dec_digits(i as nat), group_text(groups, i)),
            groups,
            i + 1,
        )
    } else {
        t
    }
}

/// The substituted and trimmed value of a field template: when the
/// template holds a placeholder marker and the match produced at least one
/// group, every marker is replaced by its group's text; either way the
/// result is trimmed of surrounding whitespace.
pub open spec fn spec_substitute(t: Seq<char>, groups: Seq<Option<Seq<char>>>) -> Seq<char> {
    if contains_char(t, '$') && groups.len() > 0 {
        trim_spec(subst_from(t, groups, 1))
    } else {
        trim_spec(t)
    }
}

fn group_chars(groups: &Vec<Option<String>>, i: usize) -> (r: Vec<char>)
    ensures
        r@ == group_text(groups.deep_view(), i as int),
{
    if i < groups.len() {
        match &groups[i] {
            Some(s) => chars_of(s.as_str()),
            None => Vec::new(),
        }
    } else {
        Vec::new()
    }
}

/// Applies a field template to the capture groups of one match.
pub fn substitute(template: &str, groups: &Vec<Option<String>>) -> (r: String)
    ensures
        r@ == spec_substitute(template@, groups.deep_view()),
{
    let tv = chars_of(template);
    let has_marker = find_char(&tv, '$');
    if !has_marker || groups.len() == 0 {
        let trimmed = trim_chars(&tv);
        return collect_string(&trimmed);
    }
    let ghost gv = groups.deep_view();
    let n = groups.len();
    let mut state = tv;
    let mut i: usize = 0;
    while i < n
        invariant
            i <= n,
            n == gv.len(),
            gv == groups.deep_view(),
            subst_from(template@, gv, 1) == subst_from(state@, gv, i + 1),
        decreases n - i,
    {
        let mut pat: Vec<char> = Vec::new();
        pat.push('$');
        let digits = dec_chars(i + 1);
        push_all(&mut pat, &digits);
        proof {
            assert(pat@ =~= seq!['$'] + dec_digits((i + 1) as nat));
        }
        let rep = group_chars(groups, i + 1);
        let next = replace_all(&state, &pat, &rep);
        proof {
            assert(subst_from(state@, gv, i + 1) == subst_from(next@, gv, i + 2));
        }
        state = next;
        i = i + 1;
    }
    proof {
        assert(subst_from(state@, gv, n + 1) == state@);
    }
    let trimmed = trim_chars(&state);
    collect_string(&trimmed)
}

/// A template that contains no placeholder marker substitutes to its own
/// trimmed text, whatever the captures were.
pub proof fn lemma_substitute_no_placeholder(t: Seq<char>, groups: Seq<Option<Seq<char>>>)
    requires
        !contains_char(t, '$'),
    ensures
        spec_substitute(t, groups) == trim_spec(t),
{
}

} // verus!
