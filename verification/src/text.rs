//! Whitespace trimming over character sequences, and a verified `trim`.

use vstd::prelude::*;
use vstd::string::StrSliceExecFns;
use crate::chars::is_space;

verus! {

/// `s` with its leading whitespace removed.
pub open spec fn drop_leading_space(s: Seq<char>) -> Seq<char>
    decreases s.len(),
{
    if s.len() == 0 {
        s
    } else if is_space(s.first()) {
        drop_leading_space(s.drop_first())
    } else {
        s
    }
}

/// `s` with its trailing whitespace removed.
pub open spec fn drop_trailing_space(s: Seq<char>) -> Seq<char>
    decreases s.len(),
{
    if s.len() == 0 {
        s
    } else if is_space(s.last()) {
        drop_trailing_space(s.drop_last())
    } else {
        s
    }
}

/// What trimming a word yields: leading and trailing whitespace removed.
pub open spec fn trim_spec(s: Seq<char>) -> Seq<char> {
    drop_trailing_space(drop_leading_space(s))
}

proof fn lemma_drop_leading_is_skip(s: Seq<char>, i: int)
    requires
        0 <= i <= s.len(),
        forall|j: int| 0 <= j < i ==> is_space(s[j]),
        i == s.len() || !is_space(s[i]),
    ensures
        drop_leading_space(s) == s.skip(i),
    decreases i,
{
    if i == 0 {
        assert(s.skip(0) =~= s);
    } else {
        assert(is_space(s[0]));
        let t = s.drop_first();
        assert forall|j: int| 0 <= j < i - 1 implies is_space(t[j]) by {
            assert(t[j] == s[j + 1]);
        }
        assert(i - 1 == t.len() || !is_space(t[i - 1]));
        lemma_drop_leading_is_skip(t, i - 1);
        assert(t.skip(i - 1) =~= s.skip(i));
    }
}

proof fn lemma_drop_trailing_is_take(s: Seq<char>, i: int)
    requires
        0 <= i <= s.len(),
        forall|j: int| i <= j < s.len() ==> is_space(s[j]),
        i == 0 || !is_space(s[i - 1]),
    ensures
        drop_trailing_space(s) == s.take(i),
    decreases s.len() - i,
{
    if i == s.len() {
        if s.len() == 0 {
            assert(s.take(i) =~= s);
        } else {
            assert(!is_space(s.last()));
            assert(s.take(i) =~= s);
        }
    } else {
        assert(is_space(s[s.len() - 1]));
        let t = s.drop_last();
        assert forall|j: int| i <= j < t.len() implies is_space(t[j]) by {
            assert(t[j] == s[j]);
        }
        lemma_drop_trailing_is_take(t, i);
        assert(t.take(i) =~= s.take(i));
    }
}

proof fn lemma_drop_leading_first(s: Seq<char>)
    ensures
        drop_leading_space(s).len() > 0 ==> !is_space(drop_leading_space(s).first()),
    decreases s.len(),
{
    if s.len() > 0 && is_space(s.first()) {
        lemma_drop_leading_first(s.drop_first());
    }
}

proof fn lemma_drop_trailing_last(s: Seq<char>)
    ensures
        drop_trailing_space(s).len() > 0 ==> !is_space(drop_trailing_space(s).last()),
    decreases s.len(),
{
    if s.len() > 0 && is_space(s.last()) {
        lemma_drop_trailing_last(s.drop_last());
    }
}

proof fn lemma_drop_trailing_keeps_first(s: Seq<char>)
    ensures
        drop_trailing_space(s).len() > 0 ==> drop_trailing_space(s).first() == s.first(),
    decreases s.len(),
{
    if s.len() > 0 && is_space(s.last()) {
        lemma_drop_trailing_keeps_first(s.drop_last());
    }
}

/// A non-empty trimmed word begins and ends with a non-whitespace character.
pub proof fn lemma_trim_ends_not_space(s: Seq<char>)
    ensures
        trim_spec(s).len() > 0 ==> !is_space(trim_spec(s).first()) && !is_space(
            trim_spec(s).last(),
        ),
{
    let d = drop_leading_space(s);
    lemma_drop_leading_first(s);
    lemma_drop_trailing_last(d);
    lemma_drop_trailing_keeps_first(d);
}

/// Returns `s` with leading and trailing whitespace removed.
pub fn trim_str<'a>(s: &'a str) -> (r: &'a str)
    ensures
        r@ == trim_spec(s@),
{
    let n: usize = s.unicode_len();
    let mut lead: usize = 0;
    while lead < n && s.get_char(lead).is_whitespace()
        invariant
            n == s@.len(),
            lead <= n,
            forall|j: int| 0 <= j < lead ==> is_space(s@[j]),
        decreases n - lead,
    {
        lead = lead + 1;
    }
    let mut end: usize = n;
    while end > lead && s.get_char(end - 1).is_whitespace()
        invariant
            n == s@.len(),
            lead <= end <= n,
            forall|j: int| end <= j < n ==> is_space(s@[j]),
        decreases end,
    {
        end = end - 1;
    }
    let r = s.substring_char(lead, end);
    proof {
        lemma_drop_leading_is_skip(s@, lead as int);
        let t = s@.skip(lead as int);
        assert forall|j: int| end - lead <= j < t.len() implies is_space(t[j]) by {
            assert(t[j] == s@[j + lead]);
        }
        assert(end - lead == 0 || !is_space(t[end - lead - 1])) by {
            if end > lead {
                assert(t[end - lead - 1] == s@[end - 1]);
            }
        }
        lemma_drop_trailing_is_take(t, end - lead);
        assert(t.take(end - lead) =~= s@.subrange(lead as int, end as int));
    }
    r
}

} // verus!
