//! Key/value pair encoding of request parameters, and the query-string
//! rendering used for requests that carry their parameters in the URL.
//!
//! A parameter structure is encoded as a sequence of `(key, value)` pairs;
//! an unset optional field contributes no pair, a set one contributes
//! exactly one.

use vstd::prelude::*;
use vstd::string::*;

verus! {

/// The mathematical view of an encoded pair list: each pair as a pair of
/// character sequences.
pub open spec fn pairs_view(v: Vec<(String, String)>) -> Seq<(Seq<char>, Seq<char>)> {
    v@.map_values(|kv: (String, String)| (kv.0@, kv.1@))
}

/// The view of an optional string value.
pub open spec fn opt_view(v: Option<String>) -> Option<Seq<char>> {
    match v {
        Option::None => Option::None,
        Option::Some(s) => Option::Some(s@),
    }
}

/// The pair list contributed by one optional field: empty when the field is
/// unset, a single pair when it is set.
pub open spec fn opt_pair(key: Seq<char>, v: Option<Seq<char>>) -> Seq<(Seq<char>, Seq<char>)> {
    match v {
        Option::None => Seq::empty(),
        Option::Some(s) => seq![(key, s)],
    }
}

/// Whether some pair in the list has the given key.
pub open spec fn contains_key(ps: Seq<(Seq<char>, Seq<char>)>, k: Seq<char>) -> bool {
    exists|i: int| 0 <= i < ps.len() && ps[i].0 == k
}

/// Whether `k` begins with the prefix `pre`.
pub open spec fn starts_with(k: Seq<char>, pre: Seq<char>) -> bool {
    pre.len() <= k.len() && k.subrange(0, pre.len() as int) == pre
}

/// Whether some pair in the list has a key beginning with the given prefix.
pub open spec fn contains_key_prefixed(ps: Seq<(Seq<char>, Seq<char>)>, pre: Seq<char>) -> bool {
    exists|i: int| 0 <= i < ps.len() && starts_with(ps[i].0, pre)
}

/// A key occurs in the concatenation of two pair lists exactly when it
/// occurs in one of them.
pub proof fn lemma_contains_key_concat(
    a: Seq<(Seq<char>, Seq<char>)>,
    b: Seq<(Seq<char>, Seq<char>)>,
    k: Seq<char>,
)
    ensures
        contains_key(a + b, k) <==> (contains_key(a, k) || contains_key(b, k)),
{
    if contains_key(a, k) {
        let i = choose|i: int| 0 <= i < a.len() && a[i].0 == k;
        assert((a + b)[i].0 == k);
    }
    if contains_key(b, k) {
        let i = choose|i: int| 0 <= i < b.len() && b[i].0 == k;
        assert((a + b)[a.len() + i].0 == k);
    }
    if contains_key(a + b, k) {
        let i = choose|i: int| 0 <= i < (a + b).len() && (a + b)[i].0 == k;
        if i < a.len() {
            assert(a[i].0 == k);
        } else {
            assert(b[i - a.len()].0 == k);
        }
    }
}

/// A prefixed key occurs in the concatenation of two pair lists exactly
/// when it occurs in one of them.
pub proof fn lemma_contains_key_prefixed_concat(
    a: Seq<(Seq<char>, Seq<char>)>,
    b: Seq<(Seq<char>, Seq<char>)>,
    pre: Seq<char>,
)
    ensures
        contains_key_prefixed(a + b, pre) <==> (contains_key_prefixed(a, pre)
            || contains_key_prefixed(b, pre)),
{
    if contains_key_prefixed(a, pre) {
        let i = choose|i: int| 0 <= i < a.len() && starts_with(a[i].0, pre);
        assert(starts_with((a + b)[i].0, pre));
    }
    if contains_key_prefixed(b, pre) {
        let i = choose|i: int| 0 <= i < b.len() && starts_with(b[i].0, pre);
        assert(starts_with((a + b)[a.len() + i].0, pre));
    }
    if contains_key_prefixed(a + b, pre) {
        let i = choose|i: int| 0 <= i < (a + b).len() && starts_with((a + b)[i].0, pre);
        if i < a.len() {
            assert(starts_with(a[i].0, pre));
        } else {
            assert(starts_with(b[i - a.len()].0, pre));
        }
    }
}

/// The pair list of one optional field has the given key exactly when the
/// field is set and the key is the field's own.
pub proof fn lemma_contains_key_opt_pair(key: Seq<char>, v: Option<Seq<char>>, k: Seq<char>)
    ensures
        contains_key(opt_pair(key, v), k) <==> (v is Some && k == key),
{
    match v {
        Option::None => {},
        Option::Some(s) => {
            assert(opt_pair(key, v)[0].0 == key);
        },
    }
}

/// The pair list of one optional field has a key with the given prefix
/// exactly when the field is set and the field's key begins with it.
pub proof fn lemma_contains_key_prefixed_opt_pair(
    key: Seq<char>,
    v: Option<Seq<char>>,
    pre: Seq<char>,
)
    ensures
        contains_key_prefixed(opt_pair(key, v), pre) <==> (v is Some && starts_with(key, pre)),
{
    match v {
        Option::None => {},
        Option::Some(s) => {
            assert(opt_pair(key, v)[0].0 == key);
        },
    }
}

/// A sequence whose first characters differ does not begin with the
/// prefix.
pub proof fn lemma_first_char_differs(k: Seq<char>, pre: Seq<char>)
    requires
        pre.len() > 0,
        k.len() > 0,
        k[0] != pre[0],
    ensures
        !starts_with(k, pre),
{
    if starts_with(k, pre) {
        assert(k.subrange(0, pre.len() as int)[0] == k[0]);
    }
}

/// A list whose keys all begin with one prefix holds no key that does not
/// begin with it.
pub proof fn lemma_not_contains_if_prefixed(
    ps: Seq<(Seq<char>, Seq<char>)>,
    pre_all: Seq<char>,
    k: Seq<char>,
)
    requires
        forall|j: int| 0 <= j < ps.len() ==> starts_with(#[trigger] ps[j].0, pre_all),
        !starts_with(k, pre_all),
    ensures
        !contains_key(ps, k),
{
    if contains_key(ps, k) {
        let i = choose|i: int| 0 <= i < ps.len() && ps[i].0 == k;
        assert(starts_with(ps[i].0, pre_all));
    }
}

/// A list whose keys all begin with one prefix holds no key beginning
/// with a prefix whose first character differs.
pub proof fn lemma_not_contains_prefixed_if_prefixed(
    ps: Seq<(Seq<char>, Seq<char>)>,
    pre_all: Seq<char>,
    pre: Seq<char>,
)
    requires
        forall|j: int| 0 <= j < ps.len() ==> starts_with(#[trigger] ps[j].0, pre_all),
        pre_all.len() > 0,
        pre.len() > 0,
        pre_all[0] != pre[0],
    ensures
        !contains_key_prefixed(ps, pre),
{
    if contains_key_prefixed(ps, pre) {
        let i = choose|i: int| 0 <= i < ps.len() && starts_with(ps[i].0, pre);
        assert(ps[i].0.subrange(0, pre_all.len() as int)[0] == ps[i].0[0]);
        assert(ps[i].0.subrange(0, pre.len() as int)[0] == ps[i].0[0]);
    }
}

/// Appends the pair of an optional string field: nothing when unset, one
/// `(key, value)` pair when set.
pub fn push_opt(out: &mut Vec<(String, String)>, key: &str, v: &Option<String>)
    ensures
        pairs_view(*final(out)) == pairs_view(*old(out)) + opt_pair(key@, opt_view(*v)),
{
    match v {
        Option::None => {
            proof {
                assert(pairs_view(*out) =~= pairs_view(*old(out)) + opt_pair(
                    key@,
                    opt_view(*v),
                ));
            }
        },
        Option::Some(s) => {
            out.push((String::from_str(key), s.clone()));
            proof {
                assert(pairs_view(*out) =~= pairs_view(*old(out)) + opt_pair(
                    key@,
                    opt_view(*v),
                ));
            }
        },
    }
}

/// The query-string rendering of the pair list suffix beginning at `from`:
/// `key=value` entries joined by `&`.
pub open spec fn qs_from(ps: Seq<(Seq<char>, Seq<char>)>, from: nat) -> Seq<char>
    decreases ps.len() - from,
    when from <= ps.len()
{
    if from >= ps.len() {
        Seq::empty()
    } else if from + 1 == ps.len() {
        ps[from as int].0 + "="@ + ps[from as int].1
    } else {
        ps[from as int].0 + "="@ + ps[from as int].1 + "&"@ + qs_from(ps, from + 1)
    }
}

/// The query-string rendering of a whole pair list.
pub open spec fn qs_of(ps: Seq<(Seq<char>, Seq<char>)>) -> Seq<char> {
    qs_from(ps, 0)
}

fn qs_rec(pairs: &Vec<(String, String)>, from: usize) -> (s: String)
    requires
        from <= pairs.len(),
    ensures
        s@ == qs_from(pairs_view(*pairs), from as nat),
    decreases pairs.len() - from,
{
    if from >= pairs.len() {
        String::new()
    } else {
        let mut s = pairs[from].0.clone();
        s.append("=");
        s.append(pairs[from].1.as_str());
        if from + 1 < pairs.len() {
            s.append("&");
            let rest = qs_rec(pairs, from + 1);
            s.append(rest.as_str());
        }
        proof {
            assert(s@ =~= qs_from(pairs_view(*pairs), from as nat));
        }
        s
    }
}

/// Renders a pair list as a query string: `key=value` entries joined by
/// `&`, empty for an empty list. Keys and values are used as they stand.
pub fn query_string(pairs: &Vec<(String, String)>) -> (s: String)
    ensures
        s@ == qs_of(pairs_view(*pairs)),
{
    qs_rec(pairs, 0)
}

} // verus!
