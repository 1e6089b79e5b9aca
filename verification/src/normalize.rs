//! Pattern normalizer: backslash escapes that are valid in the rule
//! catalog's regex dialect but not in the target engine (escaped `!`,
//! space and `/`) are rewritten to the bare character before compilation.

use vstd::prelude::*;
use crate::text::chars_of;
use crate::text::collect_string;

verus! {

/// The characters whose backslash escape is rewritten to the bare character.
pub open spec fn is_escapable(c: char) -> bool {
    c == '!' || c == ' ' || c == '/'
}

fn is_escapable_char(c: char) -> (b: bool)
    ensures
        b == is_escapable(c),
{
    c == '!' || c == ' ' || c == '/'
}

/// The pattern with every backslash escape of an escapable character
/// replaced by the bare character, scanning left to right.
pub open spec fn normalize_spec(s: Seq<char>) -> Seq<char>
    decreases s.len(),
{
    if s.len() == 0 {
        Seq::empty()
    } else if s.len() >= 2 && s[0] == '\\' && is_escapable(s[1]) {
        seq![s[1]] + normalize_spec(s.skip(2))
    } else {
        seq![s[0]] + normalize_spec(s.skip(1))
    }
}

/// Rewrites escapes of `!`, space and `/` to the bare character, so that
/// the pattern is safe to hand to the target regex engine.
pub fn clean_escapes(pattern: &str) -> (r: String)
    ensures
        r@ == normalize_spec(pattern@),
{
    let v = chars_of(pattern);
    let n = v.len();
    let mut out: Vec<char> = Vec::new();
    let mut i: usize = 0;
    proof {
        assert(v@.skip(0) =~= v@);
        assert(out@ + normalize_spec(v@) =~= normalize_spec(v@));
    }
    while i < n
        invariant
            n == v@.len(),
            i <= n,
            normalize_spec(v@) == out@ + normalize_spec(v@.skip(i as int)),
        decreases n - i,
    {
        let ghost s = v@.skip(i as int);
        if v[i] == '\\' && i + 1 < n && is_escapable_char(v[i + 1]) {
            proof {
                assert(s.len() >= 2 && s[0] == '\\' && is_escapable(s[1]));
                assert(s.skip(2) =~= v@.skip(i + 2));
            }
            let c = v[i + 1];
            out.push(c);
            i = i + 2;
        } else {
            proof {
                assert(s.skip(1) =~= v@.skip(i + 1));
            }
            let c = v[i];
            out.push(c);
            i = i + 1;
        }
    }
    proof {
        assert(v@.skip(n as int) =~= Seq::<char>::empty());
        assert(out@ + normalize_spec(Seq::<char>::empty()) =~= out@);
    }
    collect_string(&out)
}

/// No backslash escape of an escapable character occurs in `s`: the
/// normalizer leaves such a pattern unchanged.
pub open spec fn escape_free(s: Seq<char>) -> bool {
    forall|i: int| 0 <= i && i + 1 < s.len() ==> !(#[trigger] s[i] == '\\' && is_escapable(s[i + 1]))
}

/// No doubled backslash directly precedes an escapable character.  On such
/// a pattern a single normalization pass is a fixed point; with a doubled
/// backslash a second pass would rewrite the pair the first pass uncovered.
pub open spec fn no_stacked_escape(s: Seq<char>) -> bool {
    forall|i: int|
        0 <= i && i + 2 < s.len() ==> !(#[trigger] s[i] == '\\' && s[i + 1] == '\\' && is_escapable(
            s[i + 2],
        ))
}

pub proof fn lemma_normalize_of_escape_free(s: Seq<char>)
    requires
        escape_free(s),
    ensures
        normalize_spec(s) == s,
    decreases s.len(),
{
    if s.len() == 0 {
        assert(normalize_spec(s) =~= s);
    } else {
        assert(!(s.len() >= 2 && s[0] == '\\' && is_escapable(s[1])));
        let t = s.skip(1);
        assert forall|i: int| 0 <= i && i + 1 < t.len() implies !(#[trigger] t[i] == '\\' && is_escapable(
            t[i + 1],
        )) by {
            assert(t[i] == s[i + 1]);
            assert(t[i + 1] == s[i + 2]);
        }
        lemma_normalize_of_escape_free(t);
        assert(seq![s[0]] + t =~= s);
    }
}

proof fn lemma_cons_escape_free(c: char, t: Seq<char>)
    requires
        escape_free(t),
        !(c == '\\' && t.len() > 0 && is_escapable(t[0])),
    ensures
        escape_free(seq![c] + t),
{
    let u = seq![c] + t;
    assert forall|i: int| 0 <= i && i + 1 < u.len() implies !(#[trigger] u[i] == '\\' && is_escapable(
        u[i + 1],
    )) by {
        if i == 0 {
            assert(u[0] == c);
            assert(u[1] == t[0]);
        } else {
            assert(u[i] == t[i - 1]);
            assert(u[i + 1] == t[i]);
        }
    }
}

proof fn lemma_normalize_head(t: Seq<char>)
    requires
        t.len() > 0,
    ensures
        normalize_spec(t).len() > 0,
        normalize_spec(t)[0] == (if t.len() >= 2 && t[0] == '\\' && is_escapable(t[1]) {
            t[1]
        } else {
            t[0]
        }),
{
    if t.len() >= 2 && t[0] == '\\' && is_escapable(t[1]) {
        assert(normalize_spec(t) == seq![t[1]] + normalize_spec(t.skip(2)));
    } else {
        assert(normalize_spec(t) == seq![t[0]] + normalize_spec(t.skip(1)));
    }
}

proof fn lemma_skip_no_stacked(s: Seq<char>, k: int)
    requires
        no_stacked_escape(s),
        0 <= k <= s.len(),
    ensures
        no_stacked_escape(s.skip(k)),
{
    let t = s.skip(k);
    assert forall|i: int| 0 <= i && i + 2 < t.len() implies !(#[trigger] t[i] == '\\' && t[i + 1] == '\\'
        && is_escapable(t[i + 2])) by {
        assert(t[i] == s[i + k]);
        assert(t[i + 1] == s[i + k + 1]);
        assert(t[i + 2] == s[i + k + 2]);
    }
}

proof fn lemma_normalize_escape_free(s: Seq<char>)
    requires
        no_stacked_escape(s),
    ensures
        escape_free(normalize_spec(s)),
    decreases s.len(),
{
    if s.len() == 0 {
    } else if s.len() >= 2 && s[0] == '\\' && is_escapable(s[1]) {
        lemma_skip_no_stacked(s, 2);
        lemma_normalize_escape_free(s.skip(2));
        lemma_cons_escape_free(s[1], normalize_spec(s.skip(2)));
    } else {
        let t = s.skip(1);
        lemma_skip_no_stacked(s, 1);
        lemma_normalize_escape_free(t);
        if s[0] == '\\' && t.len() > 0 {
            lemma_normalize_head(t);
            assert(t[0] == s[1]);
            if t.len() >= 2 && t[0] == '\\' && is_escapable(t[1]) {
                assert(t[1] == s[2]);
                assert(s[0] == '\\' && s[1] == '\\' && is_escapable(s[2]));
                assert(false);
            }
            assert(!is_escapable(normalize_spec(t)[0]));
        }
        lemma_cons_escape_free(s[0], normalize_spec(t));
    }
}

/// Normalizing is idempotent: on any pattern without a doubled backslash
/// directly before an escapable character, a second normalization pass
/// returns its input unchanged.
pub proof fn lemma_normalize_idempotent(s: Seq<char>)
    requires
        no_stacked_escape(s),
    ensures
        normalize_spec(normalize_spec(s)) == normalize_spec(s),
{
    lemma_normalize_escape_free(s);
    lemma_normalize_of_escape_free(normalize_spec(s));
}

} // verus!
