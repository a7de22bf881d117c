//! Per-endpoint option bundles and the query string built from them.
//!
//! Every populated optional field becomes exactly one `key=value` pair, in a
//! fixed order; absent fields contribute nothing. Values are rendered in
//! their canonical text form (`true`/`false` for booleans, decimal for
//! integers) and percent-encoded.

use vstd::prelude::*;
use vstd::string::StringExecFns;
use vstd::string::StringSliceAdditionalSpecFns;
use vstd::utf8::encode_utf8;

use crate::text::{
    append_percent_encoded, append_u32_decimal, bool_str, bool_to_str, decimal_str, percent_encode,
    push_char,
};

verus! {

/// The view of a built pair list: each key and value as a character sequence.
pub open spec fn pairs_view(pairs: Seq<(String, String)>) -> Seq<(Seq<char>, Seq<char>)> {
    pairs.map_values(|p: (String, String)| (p.0@, p.1@))
}

/// How one `key=value` pair is rendered: both sides percent-encoded over
/// their UTF-8 bytes, joined by `=`.
pub open spec fn rendered_pair(p: (Seq<char>, Seq<char>)) -> Seq<char> {
    percent_encode(encode_utf8(p.0)) + seq!['='] + percent_encode(encode_utf8(p.1))
}

/// The full query string for a pair list: empty when there are no pairs,
/// otherwise `?` followed by the rendered pairs joined by `&`.
pub open spec fn query_string(pairs: Seq<(Seq<char>, Seq<char>)>) -> Seq<char>
    decreases pairs.len(),
{
    if pairs.len() == 0 {
        Seq::empty()
    } else {
        query_string(pairs.drop_last()) + (if pairs.len() == 1 {
            seq!['?']
        } else {
            seq!['&']
        }) + rendered_pair(pairs.last())
    }
}

/// Appends the rendered query string for `pairs` to `s`.
pub fn append_query(s: &mut String, pairs: &Vec<(String, String)>)
    ensures
        final(s)@ == old(s)@ + query_string(pairs_view(pairs@)),
{
    let ghost pv = pairs_view(pairs@);
    let n = pairs.len();
    for i in 0..n
        invariant
            n == pairs@.len(),
            pv == pairs_view(pairs@),
            s@ == old(s)@ + query_string(pv.take(i as int)),
    {
        if i == 0 {
            push_char(s, '?');
        } else {
            push_char(s, '&');
        }
        append_percent_encoded(s, pairs[i].0.as_str());
        push_char(s, '=');
        append_percent_encoded(s, pairs[i].1.as_str());
        proof {
            assert(pv.take(i + 1).drop_last() =~= pv.take(i as int));
            assert(pv.take(i + 1).last() == pv[i as int]);
            assert(pv[i as int] == (pairs@[i as int].0@, pairs@[i as int].1@));
            assert(s@ =~= old(s)@ + query_string(pv.take(i + 1)));
        }
    }
    proof {
        assert(pv.take(n as int) =~= pv);
    }
}

/// Renders the query string for `pairs` into a fresh string.
pub fn render_query(pairs: &Vec<(String, String)>) -> (r: String)
    ensures
        r@ == query_string(pairs_view(pairs@)),
{
    let mut s = String::new();
    append_query(&mut s, pairs);
    s
}

/// The contribution of one optional string-valued field: nothing when unset,
/// one pair when set.
pub open spec fn opt_str_pair(key: Seq<char>, v: Option<String>) -> Seq<(Seq<char>, Seq<char>)> {
    match v {
        Option::Some(s) => seq![(key, s@)],
        Option::None => Seq::empty(),
    }
}

/// Options for the account-lifetime-totals endpoint.
#[derive(Debug, Clone)]
pub struct AllTimesSinceTodayOptions {
    /// Restricts the total to one project.
    pub project: Option<String>,
}

/// The pairs contributed by an [`AllTimesSinceTodayOptions`] bundle.
pub open spec fn all_times_pairs(o: AllTimesSinceTodayOptions) -> Seq<(Seq<char>, Seq<char>)> {
    opt_str_pair("project"@, o.project)
}

impl AllTimesSinceTodayOptions {
    /// Builds the query string for this bundle.
    pub fn into_query_string(self) -> (r: String)
        ensures
            r@ == query_string(all_times_pairs(self)),
    {
        let mut pairs: Vec<(String, String)> = Vec::new();
        match &self.project {
            Option::Some(p) => pairs.push((String::from_str("project"), p.clone())),
            Option::None => (),
        }
        proof {
            assert(pairs_view(pairs@) =~~= all_times_pairs(self));
        }
        render_query(&pairs)
    }
}

impl Default for AllTimesSinceTodayOptions {
    /// The empty bundle: no filter set.
    fn default() -> (r: Self)
        ensures
            r.project is None,
    {
        AllTimesSinceTodayOptions { project: None }
    }
}

/// Options for the commit-detail endpoint.
#[derive(Debug, Clone)]
pub struct CommitOptions {
    /// Restricts the lookup to one branch.
    pub branch: Option<String>,
}

/// The pairs contributed by a [`CommitOptions`] bundle.
pub open spec fn commit_pairs(o: CommitOptions) -> Seq<(Seq<char>, Seq<char>)> {
    opt_str_pair("branch"@, o.branch)
}

impl CommitOptions {
    /// Builds the query string for this bundle.
    pub fn into_query_string(self) -> (r: String)
        ensures
            r@ == query_string(commit_pairs(self)),
    {
        let mut pairs: Vec<(String, String)> = Vec::new();
        match &self.branch {
            Option::Some(b) => pairs.push((String::from_str("branch"), b.clone())),
            Option::None => (),
        }
        proof {
            assert(pairs_view(pairs@) =~~= commit_pairs(self));
        }
        render_query(&pairs)
    }
}

impl Default for CommitOptions {
    /// The empty bundle: no filter set.
    fn default() -> (r: Self)
        ensures
            r.branch is None,
    {
        CommitOptions { branch: None }
    }
}

/// Options for the periodic-summary endpoint.
#[derive(Debug, Clone)]
pub struct SummariesOptions {
    /// Restricts the summary to one project.
    pub project: Option<String>,
    /// Restricts the summary to these branches.
    pub branches: Option<String>,
    /// The keystroke timeout in minutes.
    pub timeout: Option<u32>,
    /// Counts only write events when `true`.
    pub writes_only: Option<bool>,
    /// The timezone for the date range.
    pub timezone: Option<String>,
    /// A named date-range token.
    pub range: Option<String>,
}

/// The contribution of the optional timeout field: its canonical decimal
/// rendering when set, nothing when unset.
pub open spec fn timeout_pair(v: Option<u32>) -> Seq<(Seq<char>, Seq<char>)> {
    match v {
        Option::Some(t) => seq![("timeout"@, decimal_str(t as nat))],
        Option::None => Seq::empty(),
    }
}

/// The contribution of the optional writes-only flag: its canonical boolean
/// rendering when set, nothing when unset.
pub open spec fn writes_only_pair(v: Option<bool>) -> Seq<(Seq<char>, Seq<char>)> {
    match v {
        Option::Some(w) => seq![("writes_only"@, bool_str(w))],
        Option::None => Seq::empty(),
    }
}

/// The pairs contributed by a [`SummariesOptions`] bundle, in rendering order.
pub open spec fn summaries_pairs(o: SummariesOptions) -> Seq<(Seq<char>, Seq<char>)> {
    opt_str_pair("project"@, o.project) + opt_str_pair("branches"@, o.branches) + timeout_pair(
        o.timeout,
    ) + writes_only_pair(o.writes_only) + opt_str_pair("timezone"@, o.timezone) + opt_str_pair(
        "range"@,
        o.range,
    )
}

/// Builds the pair list for a [`SummariesOptions`] bundle.
pub(crate) fn summaries_pairs_exec(o: &SummariesOptions) -> (r: Vec<(String, String)>)
    ensures
        pairs_view(r@) == summaries_pairs(*o),
{
    let mut pairs: Vec<(String, String)> = Vec::new();
    match &o.project {
        Option::Some(p) => pairs.push((String::from_str("project"), p.clone())),
        Option::None => (),
    }
    match &o.branches {
        Option::Some(b) => pairs.push((String::from_str("branches"), b.clone())),
        Option::None => (),
    }
    match &o.timeout {
        Option::Some(t) => {
            let mut v = String::new();
            append_u32_decimal(&mut v, *t);
            pairs.push((String::from_str("timeout"), v));
        },
        Option::None => (),
    }
    match &o.writes_only {
        Option::Some(w) => pairs.push(
            (String::from_str("writes_only"), String::from_str(bool_to_str(*w))),
        ),
        Option::None => (),
    }
    match &o.timezone {
        Option::Some(t) => pairs.push((String::from_str("timezone"), t.clone())),
        Option::None => (),
    }
    match &o.range {
        Option::Some(g) => pairs.push((String::from_str("range"), g.clone())),
        Option::None => (),
    }
    proof {
        assert(pairs_view(pairs@) =~~= summaries_pairs(*o));
    }
    pairs
}

impl SummariesOptions {
    /// Builds the query string for this bundle.
    pub fn into_query_string(self) -> (r: String)
        ensures
            r@ == query_string(summaries_pairs(self)),
    {
        let pairs = summaries_pairs_exec(&self);
        render_query(&pairs)
    }
}

impl Default for SummariesOptions {
    /// The empty bundle: no optional field set.
    fn default() -> (r: Self)
        ensures
            r.project is None,
            r.branches is None,
            r.timeout is None,
            r.writes_only is None,
            r.timezone is None,
            r.range is None,
    {
        SummariesOptions {
            project: None,
            branches: None,
            timeout: None,
            writes_only: None,
            timezone: None,
            range: None,
        }
    }
}

/// The pairs of `pairs` whose key is exactly `key`.
pub open spec fn pairs_with_key(pairs: Seq<(Seq<char>, Seq<char>)>, key: Seq<char>) -> Seq<
    (Seq<char>, Seq<char>),
> {
    pairs.filter(|p: (Seq<char>, Seq<char>)| p.0 == key)
}

proof fn lemma_filter_one(p: (Seq<char>, Seq<char>), key: Seq<char>)
    ensures
        pairs_with_key(seq![p], key) == (if p.0 == key {
            seq![p]
        } else {
            Seq::<(Seq<char>, Seq<char>)>::empty()
        }),
{
    reveal_with_fuel(Seq::<(Seq<char>, Seq<char>)>::filter, 2);
    let s = seq![p];
    assert(s.drop_last() =~= Seq::<(Seq<char>, Seq<char>)>::empty());
    assert(s.last() == p);
    if p.0 == key {
        assert(pairs_with_key(s, key) =~= seq![p]);
    } else {
        assert(pairs_with_key(s, key) =~= Seq::<(Seq<char>, Seq<char>)>::empty());
    }
}

proof fn lemma_filter_opt(k: Seq<char>, v: Option<String>, key: Seq<char>)
    ensures
        pairs_with_key(opt_str_pair(k, v), key) == (if k == key {
            opt_str_pair(k, v)
        } else {
            Seq::<(Seq<char>, Seq<char>)>::empty()
        }),
{
    reveal_with_fuel(Seq::<(Seq<char>, Seq<char>)>::filter, 2);
    match v {
        Option::Some(s) => lemma_filter_one((k, s@), key),
        Option::None => (),
    }
}

/// Law: in the pair list of an [`AllTimesSinceTodayOptions`] bundle, the
/// `project` key appears exactly once when the field is set, with the field's
/// value, and never when it is unset.
pub proof fn lemma_all_times_query_exact(o: AllTimesSinceTodayOptions)
    ensures
        pairs_with_key(all_times_pairs(o), "project"@) == opt_str_pair("project"@, o.project),
{
    lemma_filter_opt("project"@, o.project, "project"@);
}

/// Law: in the pair list of a [`CommitOptions`] bundle, the `branch` key
/// appears exactly once when the field is set, with the field's value, and
/// never when it is unset.
pub proof fn lemma_commit_query_exact(o: CommitOptions)
    ensures
        pairs_with_key(commit_pairs(o), "branch"@) == opt_str_pair("branch"@, o.branch),
{
    lemma_filter_opt("branch"@, o.branch, "branch"@);
}

proof fn lemma_filter_timeout(v: Option<u32>, key: Seq<char>)
    ensures
        pairs_with_key(timeout_pair(v), key) == (if "timeout"@ == key {
            timeout_pair(v)
        } else {
            Seq::<(Seq<char>, Seq<char>)>::empty()
        }),
{
    reveal_with_fuel(Seq::<_>::filter, 2);
    match v {
        Option::Some(t) => lemma_filter_one(("timeout"@, decimal_str(t as nat)), key),
        Option::None => (),
    }
}

proof fn lemma_filter_writes_only(v: Option<bool>, key: Seq<char>)
    ensures
        pairs_with_key(writes_only_pair(v), key) == (if "writes_only"@ == key {
            writes_only_pair(v)
        } else {
            Seq::<(Seq<char>, Seq<char>)>::empty()
        }),
{
    reveal_with_fuel(Seq::<_>::filter, 2);
    match v {
        Option::Some(w) => lemma_filter_one(("writes_only"@, bool_str(w)), key),
        Option::None => (),
    }
}

proof fn lemma_summaries_filter(o: SummariesOptions, key: Seq<char>)
    ensures
        pairs_with_key(summaries_pairs(o), key) == pairs_with_key(
            opt_str_pair("project"@, o.project),
            key,
        ) + pairs_with_key(opt_str_pair("branches"@, o.branches), key) + pairs_with_key(
            timeout_pair(o.timeout),
            key,
        ) + pairs_with_key(writes_only_pair(o.writes_only), key) + pairs_with_key(
            opt_str_pair("timezone"@, o.timezone),
            key,
        ) + pairs_with_key(opt_str_pair("range"@, o.range), key),
{
    broadcast use Seq::filter_distributes_over_add;

    let s1 = opt_str_pair("project"@, o.project);
    let s2 = opt_str_pair("branches"@, o.branches);
    let s3 = timeout_pair(o.timeout);
    let s4 = writes_only_pair(o.writes_only);
    let s5 = opt_str_pair("timezone"@, o.timezone);
    let s6 = opt_str_pair("range"@, o.range);
    assert(pairs_with_key(s1 + s2, key) == pairs_with_key(s1, key) + pairs_with_key(s2, key));
    assert(pairs_with_key(s1 + s2 + s3, key) == pairs_with_key(s1 + s2, key) + pairs_with_key(
        s3,
        key,
    ));
    assert(pairs_with_key(s1 + s2 + s3 + s4, key) == pairs_with_key(s1 + s2 + s3, key)
        + pairs_with_key(s4, key));
    assert(pairs_with_key(s1 + s2 + s3 + s4 + s5, key) == pairs_with_key(s1 + s2 + s3 + s4, key)
        + pairs_with_key(s5, key));
    assert(pairs_with_key(s1 + s2 + s3 + s4 + s5 + s6, key) == pairs_with_key(
        s1 + s2 + s3 + s4 + s5,
        key,
    ) + pairs_with_key(s6, key));
}

/// Law: in the pair list of a [`SummariesOptions`] bundle, each optional
/// field's key appears exactly once when the field is set — carrying the
/// field's canonical rendering — and never when it is unset.
pub proof fn lemma_summaries_query_exact(o: SummariesOptions)
    ensures
        pairs_with_key(summaries_pairs(o), "project"@) == opt_str_pair("project"@, o.project),
        pairs_with_key(summaries_pairs(o), "branches"@) == opt_str_pair("branches"@, o.branches),
        pairs_with_key(summaries_pairs(o), "timeout"@) == timeout_pair(o.timeout),
        pairs_with_key(summaries_pairs(o), "writes_only"@) == writes_only_pair(o.writes_only),
        pairs_with_key(summaries_pairs(o), "timezone"@) == opt_str_pair("timezone"@, o.timezone),
        pairs_with_key(summaries_pairs(o), "range"@) == opt_str_pair("range"@, o.range),
{
    lemma_summaries_one_key(o, "project"@);
    lemma_summaries_one_key(o, "branches"@);
    lemma_summaries_one_key(o, "timeout"@);
    lemma_summaries_one_key(o, "writes_only"@);
    lemma_summaries_one_key(o, "timezone"@);
    lemma_summaries_one_key(o, "range"@);
    lemma_summaries_keys_distinct();
    assert(pairs_with_key(summaries_pairs(o), "project"@) =~= opt_str_pair(
        "project"@,
        o.project,
    ));
    assert(pairs_with_key(summaries_pairs(o), "branches"@) =~= opt_str_pair(
        "branches"@,
        o.branches,
    ));
    assert(pairs_with_key(summaries_pairs(o), "timeout"@) =~= timeout_pair(o.timeout));
    assert(pairs_with_key(summaries_pairs(o), "writes_only"@) =~= writes_only_pair(
        o.writes_only,
    ));
    assert(pairs_with_key(summaries_pairs(o), "timezone"@) =~= opt_str_pair(
        "timezone"@,
        o.timezone,
    ));
    assert(pairs_with_key(summaries_pairs(o), "range"@) =~= opt_str_pair("range"@, o.range));
}

proof fn lemma_summaries_keys_distinct()
    ensures
        "project"@ != "branches"@,
        "project"@ != "timeout"@,
        "project"@ != "writes_only"@,
        "project"@ != "timezone"@,
        "project"@ != "range"@,
        "branches"@ != "timeout"@,
        "branches"@ != "writes_only"@,
        "branches"@ != "timezone"@,
        "branches"@ != "range"@,
        "timeout"@ != "writes_only"@,
        "timeout"@ != "timezone"@,
        "timeout"@ != "range"@,
        "writes_only"@ != "timezone"@,
        "writes_only"@ != "range"@,
        "timezone"@ != "range"@,
{
    reveal_strlit("project");
    reveal_strlit("branches");
    reveal_strlit("timeout");
    reveal_strlit("writes_only");
    reveal_strlit("timezone");
    reveal_strlit("range");
    assert("project"@.len() == 7);
    assert("branches"@.len() == 8);
    assert("timeout"@.len() == 7);
    assert("writes_only"@.len() == 11);
    assert("timezone"@.len() == 8);
    assert("range"@.len() == 5);
    assert("project"@[0] == 'p');
    assert("timeout"@[0] == 't');
    assert("branches"@[0] == 'b');
    assert("timezone"@[0] == 't');
}

proof fn lemma_summaries_one_key(o: SummariesOptions, key: Seq<char>)
    ensures
        pairs_with_key(summaries_pairs(o), key) == pairs_with_key(
            opt_str_pair("project"@, o.project),
            key,
        ) + pairs_with_key(opt_str_pair("branches"@, o.branches), key) + pairs_with_key(
            timeout_pair(o.timeout),
            key,
        ) + pairs_with_key(writes_only_pair(o.writes_only), key) + pairs_with_key(
            opt_str_pair("timezone"@, o.timezone),
            key,
        ) + pairs_with_key(opt_str_pair("range"@, o.range), key),
        pairs_with_key(opt_str_pair("project"@, o.project), key) == (if "project"@ == key {
            opt_str_pair("project"@, o.project)
        } else {
            Seq::<(Seq<char>, Seq<char>)>::empty()
        }),
        pairs_with_key(opt_str_pair("branches"@, o.branches), key) == (if "branches"@ == key {
            opt_str_pair("branches"@, o.branches)
        } else {
            Seq::<(Seq<char>, Seq<char>)>::empty()
        }),
        pairs_with_key(timeout_pair(o.timeout), key) == (if "timeout"@ == key {
            timeout_pair(o.timeout)
        } else {
            Seq::<(Seq<char>, Seq<char>)>::empty()
        }),
        pairs_with_key(writes_only_pair(o.writes_only), key) == (if "writes_only"@ == key {
            writes_only_pair(o.writes_only)
        } else {
            Seq::<(Seq<char>, Seq<char>)>::empty()
        }),
        pairs_with_key(opt_str_pair("timezone"@, o.timezone), key) == (if "timezone"@ == key {
            opt_str_pair("timezone"@, o.timezone)
        } else {
            Seq::<(Seq<char>, Seq<char>)>::empty()
        }),
        pairs_with_key(opt_str_pair("range"@, o.range), key) == (if "range"@ == key {
            opt_str_pair("range"@, o.range)
        } else {
            Seq::<(Seq<char>, Seq<char>)>::empty()
        }),
{
    lemma_summaries_filter(o, key);
    lemma_filter_opt("project"@, o.project, key);
    lemma_filter_opt("branches"@, o.branches, key);
    lemma_filter_timeout(o.timeout, key);
    lemma_filter_writes_only(o.writes_only, key);
    lemma_filter_opt("timezone"@, o.timezone, key);
    lemma_filter_opt("range"@, o.range, key);
}

} // verus!
