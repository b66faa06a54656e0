use vstd::prelude::*;

use crate::text::{chars_of, has_whitespace, has_ws, starts_with_chars};
use crate::tags::{
    add_unique, defs_view, keys_distinct_nonempty, keys_of, push_unique, NativeOverlayTagDef,
    NativeOverlayTagMetadata, TagDefModel,
};

verus! {

/// What `str::to_lowercase` gives for `s`.
pub uninterp spec fn str_lowercase(s: Seq<char>) -> Seq<char>;

/// `str::to_lowercase`: the Unicode lowercase mapping of `s`. Nothing more is
/// claimed of the result than that it is this mapping of `s`'s characters.
#[verifier::external_body]
fn str_to_lowercase(s: &str) -> (r: String)
    ensures
        r@ == str_lowercase(s@),
{
    s.to_lowercase()
}

/// `a` orders no later than `b` by code points, as `str`'s ordering compares them.
pub open spec fn chars_le(a: Seq<char>, b: Seq<char>) -> bool
    decreases a.len(),
{
    if a.len() == 0 {
        true
    } else if b.len() == 0 {
        false
    } else if (a[0] as u32) < (b[0] as u32) {
        true
    } else if (a[0] as u32) > (b[0] as u32) {
        false
    } else {
        chars_le(a.drop_first(), b.drop_first())
    }
}

/// Code-point order is total.
pub proof fn lemma_chars_le_total(a: Seq<char>, b: Seq<char>)
    ensures
        chars_le(a, b) || chars_le(b, a),
    decreases a.len(),
{
    if a.len() > 0 && b.len() > 0 && (a[0] as u32) == (b[0] as u32) {
        lemma_chars_le_total(a.drop_first(), b.drop_first());
    }
}

/// Code-point order is transitive.
pub proof fn lemma_chars_le_trans(a: Seq<char>, b: Seq<char>, c: Seq<char>)
    requires
        chars_le(a, b),
        chars_le(b, c),
    ensures
        chars_le(a, c),
    decreases a.len(),
{
    if a.len() > 0 && b.len() > 0 && c.len() > 0 && (a[0] as u32) == (b[0] as u32) && (b[0] as u32)
        == (c[0] as u32) {
        lemma_chars_le_trans(a.drop_first(), b.drop_first(), c.drop_first());
    }
}

/// Compares two character sequences by code points.
fn chars_le_exec(a: &[char], b: &[char]) -> (r: bool)
    ensures
        r == chars_le(a@, b@),
{
    let mut i: usize = 0;
    assert(a@.skip(0) =~= a@);
    assert(b@.skip(0) =~= b@);
    while i < a.len() && i < b.len()
        invariant
            i <= a.len(),
            i <= b.len(),
            chars_le(a@, b@) == chars_le(a@.skip(i as int), b@.skip(i as int)),
        decreases a.len() - i,
    {
        let x = a[i];
        let y = b[i];
        assert(a@.skip(i as int)[0] == x);
        assert(b@.skip(i as int)[0] == y);
        if (x as u32) < (y as u32) {
            return true;
        }
        if (x as u32) > (y as u32) {
            return false;
        }
        assert(a@.skip(i as int).drop_first() =~= a@.skip(i + 1));
        assert(b@.skip(i as int).drop_first() =~= b@.skip(i + 1));
        i += 1;
    }
    i == a.len()
}


/// `a` comes no later than `b` in the picker's sorted order. With `by_query`
/// pinned tags come first; then the most recently applied; then the most
/// used; then by lowercased name.
pub open spec fn pick_le(by_query: bool, a: TagDefModel, b: TagDefModel) -> bool {
    if by_query && a.pinned != b.pinned {
        a.pinned
    } else if a.last_applied_at != b.last_applied_at {
        a.last_applied_at > b.last_applied_at
    } else if a.count != b.count {
        a.count > b.count
    } else {
        chars_le(str_lowercase(a.name), str_lowercase(b.name))
    }
}

/// The picker's order is total and transitive.
pub proof fn lemma_pick_le_total_preorder(by_query: bool)
    ensures
        forall|a: TagDefModel, b: TagDefModel|
            #![trigger pick_le(by_query, a, b)]
            pick_le(by_query, a, b) || pick_le(by_query, b, a),
        forall|a: TagDefModel, b: TagDefModel, c: TagDefModel|
            #![trigger pick_le(by_query, a, b), pick_le(by_query, b, c)]
            pick_le(by_query, a, b) && pick_le(by_query, b, c) ==> pick_le(by_query, a, c),
{
    assert forall|a: TagDefModel, b: TagDefModel|
        #![trigger pick_le(by_query, a, b)]
        pick_le(by_query, a, b) || pick_le(by_query, b, a) by {
        lemma_chars_le_total(str_lowercase(a.name), str_lowercase(b.name));
    }
    assert forall|a: TagDefModel, b: TagDefModel, c: TagDefModel|
        #![trigger pick_le(by_query, a, b), pick_le(by_query, b, c)]
        pick_le(by_query, a, b) && pick_le(by_query, b, c) implies pick_le(by_query, a, c) by {
        if chars_le(str_lowercase(a.name), str_lowercase(b.name)) && chars_le(
            str_lowercase(b.name),
            str_lowercase(c.name),
        ) {
            lemma_chars_le_trans(
                str_lowercase(a.name),
                str_lowercase(b.name),
                str_lowercase(c.name),
            );
        }
    }
}

/// `r` is `s` sorted by `pick_le`, equal entries kept in their order:
/// `perm` says which entry of `s` stands at each place of `r`.
pub open spec fn stable_sort_witness(
    r: Seq<TagDefModel>,
    s: Seq<TagDefModel>,
    perm: Seq<int>,
    by_query: bool,
) -> bool {
    &&& perm.len() == s.len()
    &&& r.len() == s.len()
    &&& forall|k: int| 0 <= k < perm.len() ==> 0 <= #[trigger] perm[k] < s.len()
    &&& forall|k: int| 0 <= k < perm.len() ==> #[trigger] r[k] == s[perm[k]]
    &&& forall|k: int, l: int| 0 <= k < l < perm.len() ==> #[trigger] perm[k] != #[trigger] perm[l]
    &&& forall|k: int, l: int|
        0 <= k < l < perm.len() ==> pick_le(by_query, #[trigger] r[k], #[trigger] r[l])
    &&& forall|k: int, l: int|
        0 <= k < l < perm.len() && pick_le(by_query, #[trigger] r[l], #[trigger] r[k]) ==> perm[k]
            < perm[l]
}

/// `r` is a stable sort of `s` by `pick_le`.
pub open spec fn is_stable_sort(r: Seq<TagDefModel>, s: Seq<TagDefModel>, by_query: bool) -> bool {
    exists|perm: Seq<int>| #[trigger] stable_sort_witness(r, s, perm, by_query)
}

/// `x` put into `s` just after the last entry that orders no later than it
/// (at the front when there is none).
pub open spec fn sorted_insert(s: Seq<TagDefModel>, x: TagDefModel, by_query: bool) -> Seq<TagDefModel>
    decreases s.len(),
{
    if s.len() == 0 {
        seq![x]
    } else if pick_le(by_query, s.last(), x) {
        s.push(x)
    } else {
        sorted_insert(s.drop_last(), x, by_query).push(s.last())
    }
}

/// `s` sorted by the picker's order, each entry inserted in turn.
pub open spec fn sorted_by_pick(s: Seq<TagDefModel>, by_query: bool) -> Seq<TagDefModel>
    decreases s.len(),
{
    if s.len() == 0 {
        s
    } else {
        sorted_insert(sorted_by_pick(s.drop_last(), by_query), s.last(), by_query)
    }
}

/// Inserting after position `p` when every later entry orders after `x` and
/// the entry before `p` does not.
proof fn lemma_sorted_insert_at(s: Seq<TagDefModel>, x: TagDefModel, by_query: bool, p: int)
    requires
        0 <= p <= s.len(),
        forall|m: int| p <= m < s.len() ==> !pick_le(by_query, #[trigger] s[m], x),
        p == 0 || pick_le(by_query, s[p - 1], x),
    ensures
        sorted_insert(s, x, by_query) == s.take(p).push(x) + s.skip(p),
    decreases s.len(),
{
    if s.len() == p {
        if p == 0 {
            assert(s.take(p).push(x) + s.skip(p) =~= seq![x]);
        } else {
            assert(s.take(p).push(x) + s.skip(p) =~= s.push(x));
        }
    } else {
        assert(!pick_le(by_query, s[s.len() - 1], x));
        let d = s.drop_last();
        assert forall|m: int| p <= m < d.len() implies !pick_le(by_query, #[trigger] d[m], x) by {
            assert(d[m] == s[m]);
        }
        if p > 0 {
            assert(d[p - 1] == s[p - 1]);
        }
        lemma_sorted_insert_at(d, x, by_query, p);
        assert(d.take(p).push(x) + d.skip(p) + seq![s.last()] =~= s.take(p).push(x) + s.skip(p));
        assert(sorted_insert(d, x, by_query).push(s.last()) =~= sorted_insert(d, x, by_query) + seq![s.last()]);
    }
}

/// Compares two definitions by the picker's order; `la` and `lb` are their
/// lowercased names.
fn pick_le_exec(
    by_query: bool,
    a: &NativeOverlayTagDef,
    la: &Vec<char>,
    b: &NativeOverlayTagDef,
    lb: &Vec<char>,
) -> (r: bool)
    requires
        la@ == str_lowercase(a.name@),
        lb@ == str_lowercase(b.name@),
    ensures
        r == pick_le(by_query, a@, b@),
{
    if by_query && a.pinned != b.pinned {
        a.pinned
    } else if a.last_applied_at != b.last_applied_at {
        a.last_applied_at > b.last_applied_at
    } else if a.count != b.count {
        a.count > b.count
    } else {
        chars_le_exec(la, lb)
    }
}

/// The entries of `dv` that `order` points at, in its order.
spec fn picked(order: Seq<usize>, dv: Seq<TagDefModel>) -> Seq<TagDefModel> {
    order.map_values(|k: usize| dv[k as int])
}

/// The entries of `defs` in a stable sort by the picker's order.
pub fn sort_tag_defs(defs: &Vec<NativeOverlayTagDef>, by_query: bool) -> (r: Vec<NativeOverlayTagDef>)
    ensures
        defs_view(r@) == sorted_by_pick(defs_view(defs@), by_query),
        is_stable_sort(defs_view(r@), defs_view(defs@), by_query),
{
    let ghost dv = defs_view(defs@);
    let mut lower: Vec<Vec<char>> = Vec::new();
    let mut i: usize = 0;
    while i < defs.len()
        invariant
            i <= defs.len(),
            lower.len() == i,
            forall|k: int| 0 <= k < i ==> #[trigger] lower@[k]@ == str_lowercase(defs@[k].name@),
        decreases defs.len() - i,
    {
        let l = str_to_lowercase(defs[i].name.as_str());
        lower.push(chars_of(l.as_str()));
        i += 1;
    }
    proof {
        lemma_pick_le_total_preorder(by_query);
    }
    let mut order: Vec<usize> = Vec::new();
    let mut n: usize = 0;
    while n < defs.len()
        invariant
            n <= defs.len() == lower.len(),
            dv == defs_view(defs@),
            forall|k: int| 0 <= k < defs.len() ==> #[trigger] lower@[k]@ == str_lowercase(defs@[k].name@),
            forall|a: TagDefModel, b: TagDefModel|
                #![trigger pick_le(by_query, a, b)]
                pick_le(by_query, a, b) || pick_le(by_query, b, a),
            forall|a: TagDefModel, b: TagDefModel, c: TagDefModel|
                #![trigger pick_le(by_query, a, b), pick_le(by_query, b, c)]
                pick_le(by_query, a, b) && pick_le(by_query, b, c) ==> pick_le(by_query, a, c),
            order.len() == n,
            picked(order@, dv) == sorted_by_pick(dv.take(n as int), by_query),
            forall|k: int| 0 <= k < n ==> #[trigger] order@[k] < n,
            forall|k: int, l: int| 0 <= k < l < n ==> #[trigger] order@[k] != #[trigger] order@[l],
            forall|k: int, l: int|
                0 <= k < l < n ==> pick_le(by_query, dv[#[trigger] order@[k] as int], dv[#[trigger] order@[l] as int]),
            forall|k: int, l: int|
                0 <= k < l < n && pick_le(by_query, dv[#[trigger] order@[l] as int], dv[#[trigger] order@[k] as int])
                    ==> order@[k] < order@[l],
        decreases defs.len() - n,
    {
        let mut p = n;
        while p > 0 && !pick_le_exec(by_query, &defs[order[p - 1]], &lower[order[p - 1]], &defs[n], &lower[n])
            invariant
                p <= n == order.len(),
                n < defs.len() == lower.len(),
                dv == defs_view(defs@),
                forall|k: int| 0 <= k < defs.len() ==> #[trigger] lower@[k]@ == str_lowercase(defs@[k].name@),
                forall|k: int| 0 <= k < n ==> #[trigger] order@[k] < n,
                forall|m: int| p <= m < n ==> !pick_le(by_query, dv[#[trigger] order@[m] as int], dv[n as int]),
            decreases p,
        {
            p -= 1;
        }
        let ghost old_order = order@;
        order.insert(p, n);
        assert(order@ == old_order.insert(p as int, n));
        proof {
            let pv = picked(old_order, dv);
            assert forall|m: int| p <= m < pv.len() implies !pick_le(by_query, #[trigger] pv[m], dv[n as int]) by {}
            lemma_sorted_insert_at(pv, dv[n as int], by_query, p as int);
            assert(dv.take(n + 1).drop_last() =~= dv.take(n as int));
            assert(picked(order@, dv) =~= pv.take(p as int).push(dv[n as int]) + pv.skip(p as int));
        }
        assert forall|k: int, l: int| 0 <= k < l < n + 1 implies pick_le(by_query, dv[#[trigger] order@[k] as int], dv[#[trigger] order@[l] as int]) by {
            if l < p {
            } else if l == p {
                if k < p - 1 {
                    assert(pick_le(by_query, dv[old_order[k] as int], dv[old_order[p - 1] as int]));
                }
            } else if k < p {
                assert(pick_le(by_query, dv[old_order[l - 1] as int], dv[n as int]) || pick_le(by_query, dv[n as int], dv[old_order[l - 1] as int]));
                if k == p - 1 {
                } else {
                    assert(pick_le(by_query, dv[old_order[k] as int], dv[old_order[p - 1] as int]));
                }
            } else if k == p {
                assert(pick_le(by_query, dv[old_order[l - 1] as int], dv[n as int]) || pick_le(by_query, dv[n as int], dv[old_order[l - 1] as int]));
            } else {
            }
        }
        assert forall|k: int, l: int| 0 <= k < l < n + 1 && pick_le(by_query, dv[#[trigger] order@[l] as int], dv[#[trigger] order@[k] as int]) implies order@[k] < order@[l] by {
            if l < p {
            } else if l == p {
            } else if k < p {
            } else if k == p {
            } else {
            }
        }
        assert forall|k: int, l: int| 0 <= k < l < n + 1 implies #[trigger] order@[k] != #[trigger] order@[l] by {
            if l < p {
            } else if l == p {
            } else if k < p {
            } else if k == p {
            } else {
            }
        }
        n += 1;
    }
    let mut r: Vec<NativeOverlayTagDef> = Vec::new();
    let mut j: usize = 0;
    while j < order.len()
        invariant
            j <= order.len() == defs.len(),
            dv == defs_view(defs@),
            forall|k: int| 0 <= k < order.len() ==> #[trigger] order@[k] < defs.len(),
            r.len() == j,
            forall|k: int| 0 <= k < j ==> #[trigger] defs_view(r@)[k] == dv[order@[k] as int],
        decreases order.len() - j,
    {
        let ghost before = r@;
        let d = defs[order[j]].duplicate();
        r.push(d);
        assert(defs_view(r@) =~= defs_view(before).push(dv[order@[j as int] as int]));
        j += 1;
    }
    assert(dv.take(defs.len() as int) =~= dv);
    assert(defs_view(r@) =~= picked(order@, dv));
    let ghost perm = order@.map_values(|x: usize| x as int);
    assert(stable_sort_witness(defs_view(r@), dv, perm, by_query));
    r
}

/// In the picker's order a tag applied more recently comes first: with equal
/// pinned flags (or on the recent tab, whatever they are), the later
/// applied orders strictly before the earlier applied. With a query, pinned
/// tags come strictly before the others; among tags applied at the same
/// time, the more used comes strictly first.
pub proof fn lemma_pick_le_newest_first(by_query: bool, a: TagDefModel, b: TagDefModel)
    ensures
        (!by_query || a.pinned == b.pinned) && a.last_applied_at > b.last_applied_at ==> pick_le(by_query, a, b)
            && !pick_le(by_query, b, a),
        by_query && a.pinned && !b.pinned ==> pick_le(by_query, a, b) && !pick_le(by_query, b, a),
        (!by_query || a.pinned == b.pinned) && a.last_applied_at == b.last_applied_at && a.count > b.count
            ==> pick_le(by_query, a, b) && !pick_le(by_query, b, a),
{
}

/// A list sorted for the picker shows, at every two places, the earlier no
/// less recently applied than the later (pinned tags first with a query,
/// then by the time applied), and of two applied at the same time the more
/// used first.
pub proof fn lemma_sorted_picker_newest_first(r: Seq<TagDefModel>, s: Seq<TagDefModel>, by_query: bool)
    requires
        is_stable_sort(r, s, by_query),
    ensures
        by_query ==> forall|k: int, l: int|
            0 <= k < l < r.len() && (#[trigger] r[l]).pinned ==> (#[trigger] r[k]).pinned,
        forall|k: int, l: int|
            0 <= k < l < r.len() && (!by_query || (#[trigger] r[k]).pinned == (#[trigger] r[l]).pinned)
                ==> r[k].last_applied_at >= r[l].last_applied_at,
        forall|k: int, l: int|
            0 <= k < l < r.len() && (!by_query || (#[trigger] r[k]).pinned == (#[trigger] r[l]).pinned)
                && r[k].last_applied_at == r[l].last_applied_at ==> r[k].count >= r[l].count,
{
    let perm = choose|perm: Seq<int>| #[trigger] stable_sort_witness(r, s, perm, by_query);
    assert forall|k: int, l: int| 0 <= k < l < r.len() implies pick_le(by_query, #[trigger] r[k], #[trigger] r[l]) by {
        assert(perm.len() == r.len());
    }
}

/// Whether the picker lists `d`: with a query, when its key starts with the
/// query; on the recent tab, when it was ever applied; else when it is pinned.
pub open spec fn picker_passes(d: TagDefModel, query: Seq<char>, recent: bool) -> bool {
    if query.len() > 0 {
        query.is_prefix_of(d.tag_key)
    } else if recent {
        d.last_applied_at > 0
    } else {
        d.pinned
    }
}

/// The entries of `s` that the picker lists, in order, each key once (its
/// first listed definition) and no empty key.
pub open spec fn picker_candidates(s: Seq<TagDefModel>, query: Seq<char>, recent: bool) -> Seq<
    TagDefModel,
>
    decreases s.len(),
{
    if s.len() == 0 {
        Seq::empty()
    } else {
        let p = picker_candidates(s.drop_last(), query, recent);
        if picker_passes(s.last(), query, recent) {
            add_unique(p, s.last(), Seq::empty())
        } else {
            p
        }
    }
}

/// The picker lists each key once and never an empty key; every listed tag
/// passes the tab's or the query's test; and every tag that passes it, with a
/// key, is listed under that key.
pub proof fn lemma_picker_candidates(s: Seq<TagDefModel>, query: Seq<char>, recent: bool)
    ensures
        keys_distinct_nonempty(picker_candidates(s, query, recent)),
        forall|i: int|
            0 <= i < picker_candidates(s, query, recent).len() ==> picker_passes(
                #[trigger] picker_candidates(s, query, recent)[i],
                query,
                recent,
            ),
        forall|i: int|
            0 <= i < s.len() && (#[trigger] s[i]).tag_key.len() > 0 && picker_passes(s[i], query, recent)
                ==> keys_of(picker_candidates(s, query, recent)).contains(s[i].tag_key),
    decreases s.len(),
{
    if s.len() > 0 {
        let q = picker_candidates(s.drop_last(), query, recent);
        lemma_picker_candidates(s.drop_last(), query, recent);
        let d = s.last();
        let r = picker_candidates(s, query, recent);
        if picker_passes(d, query, recent) && d.tag_key.len() > 0 && !keys_of(q).contains(d.tag_key) {
            assert(r == q.push(d));
            assert(keys_of(r) =~= keys_of(q).push(d.tag_key));
            assert forall|i: int, j: int| 0 <= i < j < r.len() implies (#[trigger] r[i]).tag_key
                != (#[trigger] r[j]).tag_key by {
                if j == r.len() - 1 {
                    assert(keys_of(q)[i] == q[i].tag_key);
                }
            }
            assert forall|i: int|
                0 <= i < s.len() && (#[trigger] s[i]).tag_key.len() > 0 && picker_passes(s[i], query, recent)
                    implies keys_of(r).contains(s[i].tag_key) by {
                if i == s.len() - 1 {
                    assert(keys_of(r)[r.len() - 1] == d.tag_key);
                } else {
                    assert(s.drop_last()[i] == s[i]);
                    let w = choose|w: int| 0 <= w < keys_of(q).len() && keys_of(q)[w] == s[i].tag_key;
                    assert(keys_of(r)[w] == s[i].tag_key);
                }
            }
        } else {
            assert(r == q);
            assert forall|i: int|
                0 <= i < s.len() && (#[trigger] s[i]).tag_key.len() > 0 && picker_passes(s[i], query, recent)
                    implies keys_of(r).contains(s[i].tag_key) by {
                if i < s.len() - 1 {
                    assert(s.drop_last()[i] == s[i]);
                }
            }
        }
    }
}

/// The picker's list for `query` on the chosen tab: the candidates sorted
/// (pinned first when there is a query), or as they come on the pinned tab.
pub open spec fn picker_choices(m: NativeOverlayTagMetadata, query: Seq<char>, recent: bool) -> Seq<
    TagDefModel,
> {
    let c = picker_candidates(defs_view(m.tag_choices@), query, recent);
    if query.len() > 0 {
        sorted_by_pick(c, true)
    } else if recent {
        sorted_by_pick(c, false)
    } else {
        c
    }
}

/// The tag choices that the picker offers for the typed key `query_key`.
pub fn native_picker_choices(
    metadata: &NativeOverlayTagMetadata,
    query_key: &String,
    recent_tab: bool,
) -> (r: Vec<NativeOverlayTagDef>)
    ensures
        defs_view(r@) == picker_choices(*metadata, query_key@, recent_tab),
        query_key@.len() > 0 ==> is_stable_sort(
            defs_view(r@),
            picker_candidates(defs_view(metadata.tag_choices@), query_key@, recent_tab),
            true,
        ),
        query_key@.len() == 0 && recent_tab ==> is_stable_sort(
            defs_view(r@),
            picker_candidates(defs_view(metadata.tag_choices@), query_key@, recent_tab),
            false,
        ),
{
    let query = chars_of(query_key.as_str());
    let has_query = query.len() > 0;
    let ghost all = defs_view(metadata.tag_choices@);
    let mut out: Vec<NativeOverlayTagDef> = Vec::new();
    let mut i: usize = 0;
    while i < metadata.tag_choices.len()
        invariant
            i <= metadata.tag_choices.len(),
            all == defs_view(metadata.tag_choices@),
            query@ == query_key@,
            has_query == (query@.len() > 0),
            defs_view(out@) == picker_candidates(all.take(i as int), query_key@, recent_tab),
        decreases metadata.tag_choices.len() - i,
    {
        let choice = &metadata.tag_choices[i];
        assert(all.take(i + 1).drop_last() =~= all.take(i as int));
        assert(all.take(i + 1).last() == choice@);
        let passes = if has_query {
            let key = chars_of(choice.tag_key.as_str());
            starts_with_chars(&key, &query)
        } else if recent_tab {
            choice.last_applied_at > 0
        } else {
            choice.pinned
        };
        if passes {
            push_unique(&mut out, choice.duplicate());
        }
        i += 1;
    }
    assert(all.take(i as int) =~= all);
    if has_query {
        sort_tag_defs(&out, true)
    } else if recent_tab {
        sort_tag_defs(&out, false)
    } else {
        out
    }
}

/// A typed tag name can be added: not empty, at most 64 characters, no whitespace.
pub open spec fn tag_input_valid(name: Seq<char>) -> bool {
    name.len() > 0 && name.len() <= 64 && !has_ws(name)
}

/// Whether the normalized tag name `name` can be added as a tag.
pub fn native_tag_input_valid(name: &str) -> (b: bool)
    ensures
        b == tag_input_valid(name@),
{
    let v = chars_of(name);
    v.len() > 0 && v.len() <= 64 && !has_whitespace(&v)
}

} // verus!
