//! The laws of the differ: applying the patch script that `diff` produces
//! for two trees turns the first tree into the second; the script is empty
//! exactly when the first tree already is the second; and a keyed child
//! keeps its identity across renders.

use vstd::prelude::*;
use crate::node::SNode;
use crate::diff::{SPatch, ApplyError};
use crate::facet::DeepValue;

verus! {

// ---------------------------------------------------------------------------
// Addressing a node inside a tree.
// ---------------------------------------------------------------------------

/// `path` leads from `t` to a node.
pub open spec fn valid_path(t: SNode, path: Seq<usize>) -> bool
    decreases path.len(),
{
    path.len() == 0 || (path[0] < t.children.len() && valid_path(t.children[path[0] as int], path.drop_first()))
}

/// The node that `path` leads to.
pub open spec fn at(t: SNode, path: Seq<usize>) -> SNode
    decreases path.len(),
{
    if path.len() == 0 {
        t
    } else {
        at(t.children[path[0] as int], path.drop_first())
    }
}

/// `t` with the node that `path` leads to replaced by `x`.
pub open spec fn set_at(t: SNode, path: Seq<usize>, x: SNode) -> SNode
    decreases path.len(),
{
    if path.len() == 0 {
        x
    } else {
        crate::diff::with_children(t, t.children.update(path[0] as int,
            set_at(t.children[path[0] as int], path.drop_first(), x)))
    }
}

/// A patch acts on the node its path leads to and on nothing else.
pub proof fn lemma_apply_at(t: SNode, path: Seq<usize>, p: SPatch)
    requires
        valid_path(t, path),
    ensures
        crate::diff::apply_at(t, path, p) == match crate::diff::apply_here(at(t, path), p) {
            Ok(x) => Ok(set_at(t, path, x)),
            Err(e) => Err::<SNode, ApplyError>(e),
        },
    decreases path.len(),
{
    if path.len() > 0 {
        lemma_apply_at(t.children[path[0] as int], path.drop_first(), p);
    }
}

/// Stepping one level further down a path.
pub proof fn lemma_path_push(t: SNode, path: Seq<usize>, i: usize, x: SNode)
    requires
        valid_path(t, path),
        i < at(t, path).children.len(),
    ensures
        valid_path(t, path.push(i)),
        at(t, path.push(i)) == at(t, path).children[i as int],
        set_at(t, path.push(i), x) == set_at(t, path,
            crate::diff::with_children(at(t, path), at(t, path).children.update(i as int, x))),
    decreases path.len(),
{
    if path.len() > 0 {
        assert(path.push(i).drop_first() =~= path.drop_first().push(i));
        assert(path.push(i)[0] == path[0]);
        lemma_path_push(t.children[path[0] as int], path.drop_first(), i, x);
    } else {
        assert(path.push(i).drop_first() =~= Seq::<usize>::empty());
        assert(path.push(i)[0] == i);
        assert(valid_path(t.children[i as int], Seq::<usize>::empty()));
        assert(at(t.children[i as int], Seq::<usize>::empty()) == t.children[i as int]);
        assert(set_at(t.children[i as int], Seq::<usize>::empty(), x) == x);
    }
}

/// Replacing a node twice keeps the last replacement; the replaced node is
/// found where it was put.
pub proof fn lemma_set_at(t: SNode, path: Seq<usize>, x: SNode, y: SNode)
    requires
        valid_path(t, path),
    ensures
        valid_path(set_at(t, path, x), path),
        at(set_at(t, path, x), path) == x,
        set_at(set_at(t, path, x), path, y) == set_at(t, path, y),
    decreases path.len(),
{
    if path.len() > 0 {
        let i = path[0] as int;
        lemma_set_at(t.children[i], path.drop_first(), x, y);
        let c = set_at(t.children[i], path.drop_first(), x);
        assert(t.children.update(i, c).update(i, set_at(c, path.drop_first(), y))
            =~= t.children.update(i, set_at(t.children[i], path.drop_first(), y)));
    }
}

/// Applying a concatenation applies the first part, then the second if the
/// first succeeded.
pub proof fn lemma_apply_concat(t: SNode, a: Seq<SPatch>, b: Seq<SPatch>)
    ensures
        crate::diff::apply_model(t, a + b) == if crate::diff::apply_model(t, a).1 is None {
            crate::diff::apply_model(crate::diff::apply_model(t, a).0, b)
        } else {
            crate::diff::apply_model(t, a)
        },
    decreases a.len(),
{
    if a.len() > 0 {
        assert((a + b).drop_first() =~= a.drop_first() + b);
        assert((a + b)[0] == a[0]);
        match crate::diff::apply_at(t, crate::diff::patch_path(a[0]), a[0]) {
            Ok(t2) => {
                lemma_apply_concat(t2, a.drop_first(), b);
            },
            Err(e) => {},
        }
    } else {
        assert(a + b =~= b);
    }
}

/// Applying a single patch.
pub proof fn lemma_apply_single(t: SNode, p: SPatch)
    ensures
        crate::diff::apply_model(t, seq![p]) == match crate::diff::apply_at(t, crate::diff::patch_path(p), p) {
            Ok(t2) => (t2, None::<ApplyError>),
            Err(e) => (t, Some(e)),
        },
{
    assert(seq![p].drop_first() =~= Seq::<SPatch>::empty());
    assert(seq![p][0] == p);
    match crate::diff::apply_at(t, crate::diff::patch_path(p), p) {
        Ok(t2) => {
            assert(crate::diff::apply_model(t2, Seq::<SPatch>::empty()) == (t2, None::<ApplyError>));
        },
        Err(e) => {},
    }
}

/// Apply patches to a node, ignoring their paths.
pub open spec fn apply_here_seq(x: SNode, ps: Seq<SPatch>) -> (SNode, Option<ApplyError>)
    decreases ps.len(),
{
    if ps.len() == 0 {
        (x, None)
    } else {
        match crate::diff::apply_here(x, ps[0]) {
            Ok(y) => apply_here_seq(y, ps.drop_first()),
            Err(e) => (x, Some(e)),
        }
    }
}

/// Patches that all address the same node act on that node alone.
pub proof fn lemma_apply_local(t: SNode, p: Seq<usize>, ps: Seq<SPatch>)
    requires
        valid_path(t, p),
        forall|i: int| 0 <= i < ps.len() ==> crate::diff::patch_path(#[trigger] ps[i]) == p,
    ensures
        crate::diff::apply_model(t, ps) == (set_at(t, p, apply_here_seq(at(t, p), ps).0), apply_here_seq(at(t, p), ps).1),
    decreases ps.len(),
{
    lemma_set_at(t, p, at(t, p), at(t, p));
    lemma_set_identity(t, p);
    if ps.len() > 0 {
        lemma_apply_at(t, p, ps[0]);
        match crate::diff::apply_here(at(t, p), ps[0]) {
            Ok(y) => {
                let t2 = set_at(t, p, y);
                lemma_set_at(t, p, y, y);
                let rest = ps.drop_first();
                assert forall|i: int| 0 <= i < rest.len() implies crate::diff::patch_path(#[trigger] rest[i]) == p by {
                    assert(rest[i] == ps[i + 1]);
                }
                lemma_apply_local(t2, p, rest);
                let z = apply_here_seq(y, rest).0;
                lemma_set_at(t, p, y, z);
            },
            Err(e) => {},
        }
    }
}

/// Replacing a node by itself changes nothing.
pub proof fn lemma_set_identity(t: SNode, p: Seq<usize>)
    requires
        valid_path(t, p),
    ensures
        set_at(t, p, at(t, p)) == t,
    decreases p.len(),
{
    if p.len() > 0 {
        let i = p[0] as int;
        lemma_set_identity(t.children[i], p.drop_first());
        assert(t.children.update(i, t.children[i]) =~= t.children);
    }
}

/// Applying a concatenation to a node.
pub proof fn lemma_here_concat(x: SNode, a: Seq<SPatch>, b: Seq<SPatch>)
    ensures
        apply_here_seq(x, a + b) == if apply_here_seq(x, a).1 is None {
            apply_here_seq(apply_here_seq(x, a).0, b)
        } else {
            apply_here_seq(x, a)
        },
    decreases a.len(),
{
    if a.len() > 0 {
        assert((a + b).drop_first() =~= a.drop_first() + b);
        assert((a + b)[0] == a[0]);
        match crate::diff::apply_here(x, a[0]) {
            Ok(y) => {
                lemma_here_concat(y, a.drop_first(), b);
            },
            Err(e) => {},
        }
    } else {
        assert(a + b =~= b);
    }
}

/// Applying a single patch to a node.
pub proof fn lemma_here_single(x: SNode, p: SPatch)
    ensures
        apply_here_seq(x, seq![p]) == match crate::diff::apply_here(x, p) {
            Ok(y) => (y, None::<ApplyError>),
            Err(e) => (x, Some(e)),
        },
{
    assert(seq![p].drop_first() =~= Seq::<SPatch>::empty());
    assert(seq![p][0] == p);
    match crate::diff::apply_here(x, p) {
        Ok(y) => {
            assert(apply_here_seq(y, Seq::<SPatch>::empty()) == (y, None::<ApplyError>));
        },
        Err(e) => {},
    }
}

// ---------------------------------------------------------------------------
// What "turns into" means.
// ---------------------------------------------------------------------------

/// A facet of the result stands for the new facet: it is that facet, or
/// `==` to it.
pub open spec fn facet_ok(r: DeepValue, n: DeepValue) -> bool {
    r == n || crate::facet::deep_eq(r, n)
}

/// `r` is `new` up to facets that are `==` to the new ones: same keys and
/// shape, and every facet the new one or `==` to it.
pub open spec fn matches(r: SNode, n: SNode) -> bool
    decreases n, 0nat,
{
    &&& r.key == n.key
    &&& facet_ok(r.kind, n.kind)
    &&& facet_ok(r.style, n.style)
    &&& facet_ok(r.events, n.events)
    &&& facet_ok(r.animations, n.animations)
    &&& facet_ok(r.transition, n.transition)
    &&& r.children.len() == n.children.len()
    &&& children_match(r.children, n.children, n.children.len() as int)
}

/// The first `k` children match pairwise.
pub open spec fn children_match(rs: Seq<SNode>, ns: Seq<SNode>, k: int) -> bool
    decreases ns, (if k < 0 { 0 } else { k }) as nat,
{
    if k <= 0 || k > ns.len() || k > rs.len() {
        k == 0
    } else {
        children_match(rs, ns, k - 1) && matches(rs[k - 1], ns[k - 1])
    }
}

/// Two lists match pairwise.
pub open spec fn list_matches(rs: Seq<SNode>, ns: Seq<SNode>) -> bool {
    rs.len() == ns.len() && forall|i: int| 0 <= i < ns.len() ==> matches(#[trigger] rs[i], ns[i])
}

/// The prefix form of pairwise matching.
pub proof fn lemma_children_match(rs: Seq<SNode>, ns: Seq<SNode>, k: int)
    requires
        0 <= k <= ns.len(),
        rs.len() == ns.len(),
    ensures
        children_match(rs, ns, k) == forall|i: int| 0 <= i < k ==> matches(#[trigger] rs[i], ns[i]),
    decreases k,
{
    if k > 0 {
        lemma_children_match(rs, ns, k - 1);
    }
}

/// Matching, with the children's matching spelled out.
pub proof fn lemma_matches(r: SNode, n: SNode)
    ensures
        matches(r, n) == {
            &&& r.key == n.key
            &&& facet_ok(r.kind, n.kind)
            &&& facet_ok(r.style, n.style)
            &&& facet_ok(r.events, n.events)
            &&& facet_ok(r.animations, n.animations)
            &&& facet_ok(r.transition, n.transition)
            &&& list_matches(r.children, n.children)
        },
{
    if r.children.len() == n.children.len() {
        lemma_children_match(r.children, n.children, n.children.len() as int);
    }
}

/// Every tree matches itself.
pub proof fn lemma_matches_refl(n: SNode)
    ensures
        matches(n, n),
    decreases n,
{
    assert forall|i: int| 0 <= i < n.children.len() implies matches(#[trigger] n.children[i], n.children[i]) by {
        lemma_matches_refl(n.children[i]);
    }
    lemma_matches(n, n);
}

// ---------------------------------------------------------------------------
// The trees the law speaks of.
// ---------------------------------------------------------------------------

/// No key occurs twice among the list's keyed nodes.
pub open spec fn keys_distinct(s: Seq<SNode>) -> bool {
    crate::diff::keys_distinct(s)
}

/// The trees the differ is meant for: no list of children is longer than a
/// `usize` index can count.
pub open spec fn tree_ok(n: SNode) -> bool
    decreases n, 0nat,
{
    &&& n.children.len() <= usize::MAX
    &&& all_tree_ok(n.children, n.children.len() as int)
}

/// The first `k` nodes of the list are trees the differ is meant for.
pub open spec fn all_tree_ok(s: Seq<SNode>, k: int) -> bool
    decreases s, (if k < 0 { 0 } else { k }) as nat,
{
    if k <= 0 || k > s.len() {
        true
    } else {
        all_tree_ok(s, k - 1) && tree_ok(s[k - 1])
    }
}

/// A tree the differ is meant for, with the children spelled out.
pub proof fn lemma_tree_ok(n: SNode)
    ensures
        tree_ok(n) == {
            &&& n.children.len() <= usize::MAX
            &&& forall|i: int| 0 <= i < n.children.len() ==> tree_ok(#[trigger] n.children[i])
        },
{
    lemma_all_tree_ok(n.children, n.children.len() as int);
}

/// The prefix form of `all_tree_ok`.
pub proof fn lemma_all_tree_ok(s: Seq<SNode>, k: int)
    requires
        0 <= k <= s.len(),
    ensures
        all_tree_ok(s, k) == forall|i: int| 0 <= i < k ==> tree_ok(#[trigger] s[i]),
    decreases k,
{
    if k > 0 {
        lemma_all_tree_ok(s, k - 1);
    }
}


// ---------------------------------------------------------------------------
// The pieces of a patch script, one at a time.
// ---------------------------------------------------------------------------

/// What `first_key` finds: the first position at or after `j` with the key.
pub proof fn lemma_first_key(s: Seq<SNode>, k: Option<Seq<char>>, j: int)
    requires
        0 <= j,
    ensures
        match crate::diff::first_key(s, k, j) {
            Some(i) => j <= i < s.len() && s[i].key == k && forall|m: int| j <= m < i ==> s[m].key != k,
            None => forall|m: int| j <= m < s.len() ==> s[m].key != k,
        },
    decreases s.len() - j,
{
    if j < s.len() && s[j].key != k {
        lemma_first_key(s, k, j + 1);
    }
}

/// The first phase drops, one by one, the children that `keeps` rejects;
/// what stays keeps its order, and every child that stays is one that
/// `keeps` accepts in the list that remains.
pub proof fn lemma_removals(x: SNode, p: Seq<usize>, cur: Seq<SNode>, new: Seq<SNode>, i: int)
    requires
        x.children == cur,
        0 <= i <= cur.len(),
        forall|a: int| i <= a < cur.len() ==> #[trigger] crate::diff::keeps(cur, new, a),
    ensures
        apply_here_seq(x, crate::diff::removals(p, cur, new, i).0)
            == (crate::diff::with_children(x, crate::diff::removals(p, cur, new, i).1), None::<ApplyError>),
        forall|m: int| 0 <= m < crate::diff::removals(p, cur, new, i).0.len()
            ==> crate::diff::patch_path(#[trigger] crate::diff::removals(p, cur, new, i).0[m]) == p,
        forall|a: int| 0 <= a < crate::diff::removals(p, cur, new, i).1.len()
            ==> #[trigger] crate::diff::keeps(crate::diff::removals(p, cur, new, i).1, new, a),
        keys_distinct(cur) ==> keys_distinct(crate::diff::removals(p, cur, new, i).1),
        (forall|a: int| 0 <= a < cur.len() ==> tree_ok(#[trigger] cur[a]))
            ==> (forall|a: int| 0 <= a < crate::diff::removals(p, cur, new, i).1.len()
                ==> tree_ok(#[trigger] crate::diff::removals(p, cur, new, i).1[a])),
    decreases i,
{
    if i == 0 {
        assert(crate::diff::with_children(x, cur) == x);
    } else if crate::diff::keeps(cur, new, i - 1) {
        lemma_removals(x, p, cur, new, i - 1);
    } else {
        let c2 = cur.remove(i - 1);
        let x2 = crate::diff::with_children(x, c2);
        assert forall|a: int| i - 1 <= a < c2.len() implies #[trigger] crate::diff::keeps(c2, new, a) by {
            assert(c2[a] == cur[a + 1]);
            assert(crate::diff::keeps(cur, new, a + 1));
            if c2[a].key is None {
                assert(c2.subrange(0, a) =~= cur.subrange(0, i - 1) + cur.subrange(i, a + 1));
                lemma_unkeyed_add(cur.subrange(0, i - 1), cur.subrange(i, a + 1));
                lemma_unkeyed_split(cur, 0, i - 1, a + 1);
            }
        }
        lemma_removals(x2, p, c2, new, i - 1);
        let r = crate::diff::removals(p, c2, new, i - 1);
        let rm = SPatch::Remove { path: p, index: (i - 1) as nat };
        lemma_here_concat(x, seq![rm], r.0);
        lemma_here_single(x, rm);
        assert(crate::diff::removals(p, cur, new, i) == (seq![rm] + r.0, r.1));
        assert forall|m: int| 0 <= m < (seq![rm] + r.0).len()
            implies crate::diff::patch_path(#[trigger] (seq![rm] + r.0)[m]) == p by {
            if m > 0 {
                assert((seq![rm] + r.0)[m] == r.0[m - 1]);
            }
        }
        if keys_distinct(cur) {
            assert forall|a: int, b: int| 0 <= a < b < c2.len() && (#[trigger] c2[a]).key is Some
                implies c2[a].key != (#[trigger] c2[b]).key by {
                let a2 = if a < i - 1 { a } else { a + 1 };
                let b2 = if b < i - 1 { b } else { b + 1 };
                assert(c2[a] == cur[a2]);
                assert(c2[b] == cur[b2]);
            }
        }
        if forall|a: int| 0 <= a < cur.len() ==> tree_ok(#[trigger] cur[a]) {
            assert forall|a: int| 0 <= a < c2.len() implies tree_ok(#[trigger] c2[a]) by {
                let a2 = if a < i - 1 { a } else { a + 1 };
                assert(c2[a] == cur[a2]);
            }
        }
    }
}

// ---------------------------------------------------------------------------
// Counting unkeyed children.
// ---------------------------------------------------------------------------

/// One for an unkeyed node, zero for a keyed one.
pub open spec fn unkeyed_one(x: SNode) -> nat {
    if x.key is None { 1 } else { 0 }
}

/// The unkeyed count of a concatenation is the sum of the counts.
pub proof fn lemma_unkeyed_add(a: Seq<SNode>, b: Seq<SNode>)
    ensures
        crate::diff::unkeyed_count(a + b) == crate::diff::unkeyed_count(a) + crate::diff::unkeyed_count(b),
    decreases b.len(),
{
    if b.len() == 0 {
        assert(a + b =~= a);
    } else {
        assert((a + b).drop_last() =~= a + b.drop_last());
        assert((a + b).last() == b.last());
        lemma_unkeyed_add(a, b.drop_last());
    }
}

/// The unkeyed count of `s[a..b]`, split at the node at `i`.
pub proof fn lemma_unkeyed_split(s: Seq<SNode>, a: int, i: int, b: int)
    requires
        0 <= a <= i < b <= s.len(),
    ensures
        crate::diff::unkeyed_count(s.subrange(a, b)) == crate::diff::unkeyed_count(s.subrange(a, i))
            + unkeyed_one(s[i]) + crate::diff::unkeyed_count(s.subrange(i + 1, b)),
{
    assert(s.subrange(a, b) =~= s.subrange(a, i) + seq![s[i]] + s.subrange(i + 1, b));
    lemma_unkeyed_add(s.subrange(a, i) + seq![s[i]], s.subrange(i + 1, b));
    lemma_unkeyed_add(s.subrange(a, i), seq![s[i]]);
    lemma_unkeyed_single(s[i]);
}

/// The unkeyed count of one node.
pub proof fn lemma_unkeyed_single(x: SNode)
    ensures
        crate::diff::unkeyed_count(seq![x]) == unkeyed_one(x),
{
    assert(seq![x].drop_last() =~= Seq::<SNode>::empty());
    assert(crate::diff::unkeyed_count(Seq::<SNode>::empty()) == 0);
}

/// A list of keyed nodes has no unkeyed node.
pub proof fn lemma_unkeyed_zero(s: Seq<SNode>)
    requires
        forall|m: int| 0 <= m < s.len() ==> (#[trigger] s[m]).key is Some,
    ensures
        crate::diff::unkeyed_count(s) == 0,
    decreases s.len(),
{
    if s.len() > 0 {
        assert(s.last() == s[s.len() - 1]);
        lemma_unkeyed_zero(s.drop_last());
    }
}

/// A list in which every unkeyed node has fewer than `n` unkeyed nodes
/// before it has at most `n` unkeyed nodes.
pub proof fn lemma_unkeyed_bound(s: Seq<SNode>, n: nat)
    requires
        forall|a: int| 0 <= a < s.len() && (#[trigger] s[a]).key is None
            ==> crate::diff::unkeyed_count(s.subrange(0, a)) < n,
    ensures
        crate::diff::unkeyed_count(s) <= n,
    decreases s.len(),
{
    if s.len() > 0 {
        let d = s.drop_last();
        assert forall|a: int| 0 <= a < d.len() && (#[trigger] d[a]).key is None
            implies crate::diff::unkeyed_count(d.subrange(0, a)) < n by {
            assert(d.subrange(0, a) =~= s.subrange(0, a));
            assert(d[a] == s[a]);
        }
        lemma_unkeyed_bound(d, n);
        if s.last().key is None {
            assert(s.subrange(0, s.len() - 1) =~= d);
            assert(s[s.len() - 1].key is None);
        }
    }
}

/// The positional differ's appended children.
pub proof fn lemma_insert_tail(x: SNode, p: Seq<usize>, new: Seq<SNode>, s: int)
    requires
        x.children.len() == s,
        0 <= s <= new.len(),
    ensures
        apply_here_seq(x, Seq::new((new.len() - s) as nat, |k: int|
            SPatch::Insert { path: p, index: (s + k) as nat, node: new[s + k] }))
            == (crate::diff::with_children(x, x.children + new.subrange(s, new.len() as int)), None::<ApplyError>),
    decreases new.len() - s,
{
    let ps = Seq::new((new.len() - s) as nat, |k: int|
        SPatch::Insert { path: p, index: (s + k) as nat, node: new[s + k] });
    if s == new.len() {
        assert(x.children + new.subrange(s, new.len() as int) =~= x.children);
        assert(crate::diff::with_children(x, x.children) == x);
    } else {
        let x2 = crate::diff::with_children(x, x.children.insert(s, new[s]));
        let rest = Seq::new((new.len() - (s + 1)) as nat, |k: int|
            SPatch::Insert { path: p, index: (s + 1 + k) as nat, node: new[s + 1 + k] });
        assert(ps =~= seq![ps[0]] + rest);
        lemma_here_concat(x, seq![ps[0]], rest);
        lemma_here_single(x, ps[0]);
        lemma_insert_tail(x2, p, new, s + 1);
        assert(x2.children + new.subrange(s + 1, new.len() as int)
            =~= x.children + new.subrange(s, new.len() as int));
    }
}

/// The positional differ's removed children, taken from the back.
pub proof fn lemma_remove_tail(x: SNode, p: Seq<usize>, m: int, s: int)
    requires
        x.children.len() == s,
        0 <= m <= s,
    ensures
        apply_here_seq(x, Seq::new((s - m) as nat, |k: int|
            SPatch::Remove { path: p, index: (s - 1 - k) as nat }))
            == (crate::diff::with_children(x, x.children.subrange(0, m)), None::<ApplyError>),
    decreases s - m,
{
    let ps = Seq::new((s - m) as nat, |k: int| SPatch::Remove { path: p, index: (s - 1 - k) as nat });
    if s == m {
        assert(x.children.subrange(0, m) =~= x.children);
        assert(crate::diff::with_children(x, x.children) == x);
    } else {
        let x2 = crate::diff::with_children(x, x.children.remove(s - 1));
        let rest = Seq::new((s - 1 - m) as nat, |k: int| SPatch::Remove { path: p, index: (s - 2 - k) as nat });
        assert(ps =~= seq![ps[0]] + rest);
        lemma_here_concat(x, seq![ps[0]], rest);
        lemma_here_single(x, ps[0]);
        lemma_remove_tail(x2, p, m, s - 1);
        assert(x2.children.subrange(0, m) =~= x.children.subrange(0, m));
    }
}

/// A facet after the in-place patches: the old one where it is `==` to the
/// new one, the new one otherwise.
pub open spec fn pick(o: DeepValue, n: DeepValue) -> DeepValue {
    if crate::facet::deep_eq(o, n) { o } else { n }
}

/// The node after its facet patches.
pub open spec fn facets_applied(old: SNode, new: SNode) -> SNode {
    SNode {
        kind: pick(old.kind, new.kind),
        style: pick(old.style, new.style),
        events: pick(old.events, new.events),
        animations: pick(old.animations, new.animations),
        transition: pick(old.transition, new.transition),
        ..old
    }
}

/// Applying one optional patch that cannot fail.
proof fn lemma_here_step(y: SNode, f: Seq<SPatch>, z: SNode)
    requires
        f.len() == 0 ==> z == y,
        f.len() == 1 ==> crate::diff::apply_here(y, f[0]) == Ok::<SNode, ApplyError>(z),
        f.len() <= 1,
    ensures
        apply_here_seq(y, f) == (z, None::<ApplyError>),
{
    if f.len() == 1 {
        assert(f =~= seq![f[0]]);
        lemma_here_single(y, f[0]);
    }
}

/// The facet patches all address the node and set exactly the facets that
/// differ.
pub proof fn lemma_facet_patches(p: Seq<usize>, old: SNode, new: SNode)
    ensures
        apply_here_seq(old, crate::diff::facet_patches(p, old, new)) == (facets_applied(old, new), None::<ApplyError>),
        forall|m: int| 0 <= m < crate::diff::facet_patches(p, old, new).len()
            ==> crate::diff::patch_path(#[trigger] crate::diff::facet_patches(p, old, new)[m]) == p
                && !(crate::diff::facet_patches(p, old, new)[m] is Replace)
                && !(crate::diff::facet_patches(p, old, new)[m] is Insert),
{
    let f1: Seq<SPatch> = if crate::facet::deep_eq(old.kind, new.kind) { seq![] } else { seq![SPatch::Props { path: p, kind: new.kind }] };
    let f2: Seq<SPatch> = if crate::facet::deep_eq(old.style, new.style) { seq![] } else { seq![SPatch::Style { path: p, style: new.style }] };
    let f3: Seq<SPatch> = if crate::facet::deep_eq(old.events, new.events) { seq![] } else { seq![SPatch::Events { path: p, events: new.events }] };
    let f4: Seq<SPatch> = if crate::facet::deep_eq(old.animations, new.animations) { seq![] } else {
        seq![SPatch::Animations { path: p, animations: new.animations }] };
    let f5: Seq<SPatch> = if crate::facet::deep_eq(old.transition, new.transition) { seq![] } else {
        seq![SPatch::Transition { path: p, transition: new.transition }] };
    let y1 = SNode { kind: pick(old.kind, new.kind), ..old };
    let y2 = SNode { style: pick(old.style, new.style), ..y1 };
    let y3 = SNode { events: pick(old.events, new.events), ..y2 };
    let y4 = SNode { animations: pick(old.animations, new.animations), ..y3 };
    let y5 = SNode { transition: pick(old.transition, new.transition), ..y4 };
    assert(y5 == facets_applied(old, new));
    lemma_here_step(old, f1, y1);
    lemma_here_step(y1, f2, y2);
    lemma_here_step(y2, f3, y3);
    lemma_here_step(y3, f4, y4);
    lemma_here_step(y4, f5, y5);
    lemma_here_concat(old, f1, f2);
    lemma_here_concat(old, f1 + f2, f3);
    lemma_here_concat(old, f1 + f2 + f3, f4);
    lemma_here_concat(old, f1 + f2 + f3 + f4, f5);
    assert(crate::diff::facet_patches(p, old, new) == f1 + f2 + f3 + f4 + f5);
    let all = f1 + f2 + f3 + f4 + f5;
    assert forall|m: int| 0 <= m < all.len() implies crate::diff::patch_path(#[trigger] all[m]) == p
        && !(all[m] is Replace) && !(all[m] is Insert) by {
        let s4 = f1 + f2 + f3 + f4;
        let s3 = f1 + f2 + f3;
        let s2 = f1 + f2;
        if m >= s4.len() {
            assert(all[m] == f5[m - s4.len()]);
        } else if m >= s3.len() {
            assert(all[m] == s4[m]);
            assert(s4[m] == f4[m - s3.len()]);
        } else if m >= s2.len() {
            assert(all[m] == s4[m]);
            assert(s4[m] == s3[m]);
            assert(s3[m] == f3[m - s2.len()]);
        } else if m >= f1.len() {
            assert(all[m] == s4[m]);
            assert(s4[m] == s3[m]);
            assert(s3[m] == s2[m]);
            assert(s2[m] == f2[m - f1.len()]);
        } else {
            assert(all[m] == s4[m]);
            assert(s4[m] == s3[m]);
            assert(s3[m] == s2[m]);
            assert(s2[m] == f1[m]);
        }
    }
}


// ---------------------------------------------------------------------------
// The state of the keyed walk.
// ---------------------------------------------------------------------------

/// Some node at or after position `a` of the list has the key.
pub open spec fn key_from(s: Seq<SNode>, k: Option<Seq<char>>, a: int) -> bool {
    exists|m: int| a <= m < s.len() && (#[trigger] s[m]).key == k
}

/// The walk's state at position `ti`: the tree's children `cc` match the
/// new list before `ti` and are the working list `cur` from `ti` on; `cur`
/// carries the new keys before `ti`; no key occurs twice in either list;
/// every key in `cur` from `ti` on occurs in the new list from `ti` on, and
/// `cur` has there no more unkeyed nodes than the new list; and every tree
/// involved is one the differ is meant for.
pub open spec fn walk_state(cc: Seq<SNode>, cur: Seq<SNode>, nc: Seq<SNode>, ti: int) -> bool {
    &&& 0 <= ti <= nc.len()
    &&& ti <= cur.len()
    &&& cc.len() == cur.len()
    &&& forall|k: int| 0 <= k < ti ==> matches(#[trigger] cc[k], nc[k])
    &&& forall|k: int| 0 <= k < ti ==> (#[trigger] cur[k]).key == nc[k].key
    &&& forall|k: int| ti <= k < cur.len() ==> cc[k] == #[trigger] cur[k]
    &&& keys_distinct(cur)
    &&& keys_distinct(nc)
    &&& nc.len() <= usize::MAX
    &&& forall|k: int| ti <= k < cur.len() && (#[trigger] cur[k]).key is Some ==> key_from(nc, cur[k].key, ti)
    &&& crate::diff::unkeyed_count(cur.subrange(ti, cur.len() as int))
        <= crate::diff::unkeyed_count(nc.subrange(ti, nc.len() as int))
    &&& forall|k: int| 0 <= k < cur.len() ==> tree_ok(#[trigger] cur[k])
    &&& forall|k: int| 0 <= k < nc.len() ==> tree_ok(#[trigger] nc[k])
}

/// The walk starts on what the first phase keeps.
proof fn lemma_walk_start(cur: Seq<SNode>, nc: Seq<SNode>)
    requires
        forall|a: int| 0 <= a < cur.len() ==> #[trigger] crate::diff::keeps(cur, nc, a),
        keys_distinct(cur),
        keys_distinct(nc),
        nc.len() <= usize::MAX,
        forall|k: int| 0 <= k < cur.len() ==> tree_ok(#[trigger] cur[k]),
        forall|k: int| 0 <= k < nc.len() ==> tree_ok(#[trigger] nc[k]),
    ensures
        walk_state(cur, cur, nc, 0),
{
    assert forall|k: int| 0 <= k < cur.len() && (#[trigger] cur[k]).key is Some implies key_from(nc, cur[k].key, 0) by {
        assert(crate::diff::keeps(cur, nc, k));
        let m = choose|m: int| 0 <= m < nc.len() && (#[trigger] nc[m]).key == cur[k].key;
        assert(nc[m].key == cur[k].key);
    }
    assert forall|a: int| 0 <= a < cur.len() && (#[trigger] cur[a]).key is None
        implies crate::diff::unkeyed_count(cur.subrange(0, a)) < crate::diff::unkeyed_count(nc) by {
        assert(crate::diff::keeps(cur, nc, a));
    }
    lemma_unkeyed_bound(cur, crate::diff::unkeyed_count(nc));
    assert(cur.subrange(0, cur.len() as int) =~= cur);
    assert(nc.subrange(0, nc.len() as int) =~= nc);
}

/// At the end of the walk the working list is as long as the new one.
proof fn lemma_walk_end(cc: Seq<SNode>, cur: Seq<SNode>, nc: Seq<SNode>)
    requires
        walk_state(cc, cur, nc, nc.len() as int),
    ensures
        list_matches(cc, nc),
{
    let n = nc.len() as int;
    if cur.len() > n {
        let w = cur[n];
        if w.key is Some {
            assert(key_from(nc, w.key, n));
            let m = choose|m: int| n <= m < nc.len() && (#[trigger] nc[m]).key == w.key;
            assert(false);
        } else {
            lemma_unkeyed_split(cur, n, n, cur.len() as int);
            assert(nc.subrange(n, n) =~= Seq::<SNode>::empty());
            assert(false);
        }
    }
}

/// After the child at `ti` is diffed in place.
proof fn lemma_walk_keep(cc: Seq<SNode>, cur: Seq<SNode>, nc: Seq<SNode>, ti: int, r: SNode)
    requires
        walk_state(cc, cur, nc, ti),
        ti < nc.len(),
        ti < cur.len(),
        cur[ti].key == nc[ti].key,
        matches(r, nc[ti]),
    ensures
        walk_state(cc.update(ti, r), cur, nc, ti + 1),
{
    let c2 = cc.update(ti, r);
    assert forall|k: int| 0 <= k < ti + 1 implies matches(#[trigger] c2[k], nc[k]) by {
        if k < ti {
            assert(c2[k] == cc[k]);
        }
    }
    assert forall|k: int| ti + 1 <= k < cur.len() && (#[trigger] cur[k]).key is Some
        implies key_from(nc, cur[k].key, ti + 1) by {
        assert(key_from(nc, cur[k].key, ti));
        let m = choose|m: int| ti <= m < nc.len() && (#[trigger] nc[m]).key == cur[k].key;
        if m == ti {
            assert(cur[ti].key == cur[k].key);
            assert(false);
        }
    }
    lemma_unkeyed_split(cur, ti, ti, cur.len() as int);
    lemma_unkeyed_split(nc, ti, ti, nc.len() as int);
    assert(cur.subrange(ti, ti) =~= Seq::<SNode>::empty());
    assert(nc.subrange(ti, ti) =~= Seq::<SNode>::empty());
}

/// After the child with the key is moved back from `j` to `ti` and diffed
/// there.
proof fn lemma_walk_move(cc: Seq<SNode>, cur: Seq<SNode>, nc: Seq<SNode>, ti: int, j: int, r: SNode)
    requires
        walk_state(cc, cur, nc, ti),
        ti < nc.len(),
        ti < j < cur.len(),
        cur[j].key == nc[ti].key,
        matches(r, nc[ti]),
    ensures
        walk_state(cc.remove(j).insert(ti, cc[j]).update(ti, r),
            cur.remove(j).insert(ti, cur[j]).update(ti, nc[ti]), nc, ti + 1),
{
    let c2 = cc.remove(j).insert(ti, cc[j]).update(ti, r);
    let cur2 = cur.remove(j).insert(ti, cur[j]).update(ti, nc[ti]);
    assert(cc[j] == cur[j]);
    assert forall|k: int| 0 <= k < cur2.len() implies #[trigger] cur2[k] == (if k < ti { cur[k] }
        else if k == ti { nc[ti] } else if k <= j { cur[k - 1] } else { cur[k] }) by {
    }
    assert forall|k: int| 0 <= k < c2.len() implies #[trigger] c2[k] == (if k < ti { cc[k] }
        else if k == ti { r } else if k <= j { cc[k - 1] } else { cc[k] }) by {
    }
    assert forall|k: int| 0 <= k < ti + 1 implies matches(#[trigger] c2[k], nc[k]) by {
        if k < ti {
            assert(c2[k] == cc[k]);
        }
    }
    assert forall|k: int| 0 <= k < ti + 1 implies (#[trigger] cur2[k]).key == nc[k].key by {
        if k < ti {
            assert(cur2[k] == cur[k]);
        }
    }
    assert forall|k: int| ti + 1 <= k < cur2.len() implies c2[k] == #[trigger] cur2[k] by {
        if k <= j {
            assert(c2[k] == cc[k - 1]);
            assert(cur2[k] == cur[k - 1]);
        } else {
            assert(c2[k] == cc[k]);
            assert(cur2[k] == cur[k]);
        }
    }
    assert forall|a: int, b: int| 0 <= a < b < cur2.len() && (#[trigger] cur2[a]).key is Some
        implies cur2[a].key != (#[trigger] cur2[b]).key by {
        let sa = if a < ti { a } else if a == ti { j } else if a <= j { a - 1 } else { a };
        let sb = if b < ti { b } else if b == ti { j } else if b <= j { b - 1 } else { b };
        assert(cur2[a].key == cur[sa].key);
        assert(cur2[b].key == cur[sb].key);
        assert(sa != sb);
        if sa < sb {
            assert(cur[sa].key != cur[sb].key);
        } else if cur[sb].key == cur[sa].key {
            assert(cur[sb].key is Some);
            assert(cur[sb].key != cur[sa].key);
        }
    }
    assert forall|k: int| ti + 1 <= k < cur2.len() && (#[trigger] cur2[k]).key is Some
        implies key_from(nc, cur2[k].key, ti + 1) by {
        let sk = if k <= j { k - 1 } else { k };
        assert(cur2[k] == cur[sk]);
        assert(key_from(nc, cur[sk].key, ti));
        let m = choose|m: int| ti <= m < nc.len() && (#[trigger] nc[m]).key == cur[sk].key;
        if m == ti {
            assert(cur[j].key == cur[sk].key);
            if sk < j {
                assert(cur[sk].key != cur[j].key);
            } else {
                assert(cur[j].key != cur[sk].key);
            }
        }
    }
    assert(cur2.subrange(ti + 1, cur2.len() as int) =~= cur.subrange(ti, j) + cur.subrange(j + 1, cur.len() as int));
    lemma_unkeyed_add(cur.subrange(ti, j), cur.subrange(j + 1, cur.len() as int));
    lemma_unkeyed_split(cur, ti, j, cur.len() as int);
    lemma_unkeyed_split(nc, ti, ti, nc.len() as int);
    assert(nc.subrange(ti, ti) =~= Seq::<SNode>::empty());
    assert forall|k: int| 0 <= k < cur2.len() implies tree_ok(#[trigger] cur2[k]) by {
        if k == ti {
            assert(tree_ok(nc[ti]));
        } else {
            let sk = if k < ti { k } else if k <= j { k - 1 } else { k };
            assert(cur2[k] == cur[sk]);
        }
    }
}

/// After the child at `ti` is moved forward to `d` (which brings the next
/// child to `ti`) and the child now at `ti` is diffed there.
proof fn lemma_walk_forward(cc: Seq<SNode>, cur: Seq<SNode>, nc: Seq<SNode>, ti: int, d: int, r: SNode)
    requires
        walk_state(cc, cur, nc, ti),
        ti < nc.len(),
        ti + 1 <= d < cur.len(),
        cur[ti + 1].key == nc[ti].key,
        matches(r, nc[ti]),
    ensures
        cc.remove(ti).insert(d, cc[ti])[ti] == cur[ti + 1],
        cur.remove(ti).insert(d, cur[ti])[ti] == cur[ti + 1],
        walk_state(cc.remove(ti).insert(d, cc[ti]).update(ti, r),
            cur.remove(ti).insert(d, cur[ti]).update(ti, nc[ti]), nc, ti + 1),
{
    let c2 = cc.remove(ti).insert(d, cc[ti]).update(ti, r);
    let cur1 = cur.remove(ti).insert(d, cur[ti]);
    let cur2 = cur1.update(ti, nc[ti]);
    assert(cc[ti] == cur[ti]);
    assert(cc[ti + 1] == cur[ti + 1]);
    assert forall|k: int| 0 <= k < cur1.len() implies #[trigger] cur1[k] == (if k < ti { cur[k] }
        else if k < d { cur[k + 1] } else if k == d { cur[ti] } else { cur[k] }) by {
    }
    assert forall|k: int| 0 <= k < cc.len() implies #[trigger] cc.remove(ti).insert(d, cc[ti])[k] == (if k < ti { cc[k] }
        else if k < d { cc[k + 1] } else if k == d { cc[ti] } else { cc[k] }) by {
    }
    assert forall|k: int| 0 <= k < cur2.len() implies #[trigger] cur2[k] == (if k < ti { cur[k] }
        else if k == ti { nc[ti] } else if k < d { cur[k + 1] } else if k == d { cur[ti] } else { cur[k] }) by {
    }
    assert forall|k: int| 0 <= k < c2.len() implies #[trigger] c2[k] == (if k < ti { cc[k] }
        else if k == ti { r } else if k < d { cc[k + 1] } else if k == d { cc[ti] } else { cc[k] }) by {
    }
    assert forall|k: int| 0 <= k < ti + 1 implies matches(#[trigger] c2[k], nc[k]) by {
        if k < ti {
            assert(c2[k] == cc[k]);
        }
    }
    assert forall|k: int| 0 <= k < ti + 1 implies (#[trigger] cur2[k]).key == nc[k].key by {
        if k < ti {
            assert(cur2[k] == cur[k]);
        }
    }
    assert forall|k: int| ti + 1 <= k < cur2.len() implies c2[k] == #[trigger] cur2[k] by {
        if k < d {
            assert(c2[k] == cc[k + 1]);
            assert(cur2[k] == cur[k + 1]);
        } else if k == d {
            assert(c2[k] == cc[ti]);
            assert(cur2[k] == cur[ti]);
        } else {
            assert(c2[k] == cc[k]);
            assert(cur2[k] == cur[k]);
        }
    }
    assert forall|a: int, b: int| 0 <= a < b < cur2.len() && (#[trigger] cur2[a]).key is Some
        implies cur2[a].key != (#[trigger] cur2[b]).key by {
        let sa = if a < ti { a } else if a == ti { ti + 1 } else if a < d { a + 1 } else if a == d { ti } else { a };
        let sb = if b < ti { b } else if b == ti { ti + 1 } else if b < d { b + 1 } else if b == d { ti } else { b };
        assert(cur2[a].key == cur[sa].key);
        assert(cur2[b].key == cur[sb].key);
        assert(sa != sb);
        if sa < sb {
            assert(cur[sa].key != cur[sb].key);
        } else if cur[sb].key == cur[sa].key {
            assert(cur[sb].key is Some);
            assert(cur[sb].key != cur[sa].key);
        }
    }
    assert forall|k: int| ti + 1 <= k < cur2.len() && (#[trigger] cur2[k]).key is Some
        implies key_from(nc, cur2[k].key, ti + 1) by {
        let sk = if k < d { k + 1 } else if k == d { ti } else { k };
        assert(cur2[k] == cur[sk]);
        assert(key_from(nc, cur[sk].key, ti));
        let m = choose|m: int| ti <= m < nc.len() && (#[trigger] nc[m]).key == cur[sk].key;
        if m == ti {
            assert(cur[ti + 1].key == cur[sk].key);
            if sk < ti + 1 {
                assert(cur[sk].key != cur[ti + 1].key);
            } else {
                assert(cur[ti + 1].key != cur[sk].key);
            }
        }
    }
    let n = cur.len() as int;
    assert(cur2.subrange(ti + 1, n) =~= cur.subrange(ti + 2, d + 1) + seq![cur[ti]] + cur.subrange(d + 1, n));
    lemma_unkeyed_add(cur.subrange(ti + 2, d + 1) + seq![cur[ti]], cur.subrange(d + 1, n));
    lemma_unkeyed_add(cur.subrange(ti + 2, d + 1), seq![cur[ti]]);
    lemma_unkeyed_single(cur[ti]);
    lemma_unkeyed_split(cur, ti, ti, n);
    lemma_unkeyed_split(cur, ti + 1, ti + 1, n);
    assert(cur.subrange(ti, ti) =~= Seq::<SNode>::empty());
    assert(cur.subrange(ti + 1, ti + 1) =~= Seq::<SNode>::empty());
    lemma_unkeyed_split(nc, ti, ti, nc.len() as int);
    assert(nc.subrange(ti, ti) =~= Seq::<SNode>::empty());
    if d + 1 < n {
        assert(cur.subrange(ti + 2, n) =~= cur.subrange(ti + 2, d + 1) + cur.subrange(d + 1, n));
    } else {
        assert(cur.subrange(ti + 2, n) =~= cur.subrange(ti + 2, d + 1));
        assert(cur.subrange(d + 1, n) =~= Seq::<SNode>::empty());
    }
    lemma_unkeyed_add(cur.subrange(ti + 2, d + 1), cur.subrange(d + 1, n));
    assert forall|k: int| 0 <= k < cur2.len() implies tree_ok(#[trigger] cur2[k]) by {
        if k == ti {
            assert(tree_ok(nc[ti]));
        } else {
            let sk = if k < ti { k } else if k < d { k + 1 } else if k == d { ti } else { k };
            assert(cur2[k] == cur[sk]);
        }
    }
}

/// After a new child is inserted at `ti`.
proof fn lemma_walk_insert(cc: Seq<SNode>, cur: Seq<SNode>, nc: Seq<SNode>, ti: int)
    requires
        walk_state(cc, cur, nc, ti),
        ti < nc.len(),
        forall|m: int| ti <= m < cur.len() ==> cur[m].key != nc[ti].key,
    ensures
        walk_state(cc.insert(ti, nc[ti]), cur.insert(ti, nc[ti]), nc, ti + 1),
{
    let c2 = cc.insert(ti, nc[ti]);
    let cur2 = cur.insert(ti, nc[ti]);
    lemma_matches_refl(nc[ti]);
    assert forall|k: int| 0 <= k < cur2.len() implies #[trigger] cur2[k] == (if k < ti { cur[k] }
        else if k == ti { nc[ti] } else { cur[k - 1] }) by {
    }
    assert forall|k: int| 0 <= k < c2.len() implies #[trigger] c2[k] == (if k < ti { cc[k] }
        else if k == ti { nc[ti] } else { cc[k - 1] }) by {
    }
    assert forall|k: int| 0 <= k < ti + 1 implies matches(#[trigger] c2[k], nc[k]) by {
        if k < ti {
            assert(c2[k] == cc[k]);
        }
    }
    assert forall|k: int| 0 <= k < ti + 1 implies (#[trigger] cur2[k]).key == nc[k].key by {
        if k < ti {
            assert(cur2[k] == cur[k]);
        }
    }
    assert forall|k: int| ti + 1 <= k < cur2.len() implies c2[k] == #[trigger] cur2[k] by {
        assert(c2[k] == cc[k - 1]);
        assert(cur2[k] == cur[k - 1]);
    }
    assert forall|a: int, b: int| 0 <= a < b < cur2.len() && (#[trigger] cur2[a]).key is Some
        implies cur2[a].key != (#[trigger] cur2[b]).key by {
        if a != ti && b != ti {
            let sa = if a < ti { a } else { a - 1 };
            let sb = if b < ti { b } else { b - 1 };
            assert(cur2[a] == cur[sa]);
            assert(cur2[b] == cur[sb]);
        } else if a == ti {
            let sb = b - 1;
            assert(cur2[b] == cur[sb]);
        } else {
            assert(cur2[a] == cur[a]);
            assert(cur[a].key == nc[a].key);
            assert(nc[a].key != nc[ti].key);
        }
    }
    assert forall|k: int| ti + 1 <= k < cur2.len() && (#[trigger] cur2[k]).key is Some
        implies key_from(nc, cur2[k].key, ti + 1) by {
        assert(cur2[k] == cur[k - 1]);
        assert(key_from(nc, cur[k - 1].key, ti));
        let m = choose|m: int| ti <= m < nc.len() && (#[trigger] nc[m]).key == cur[k - 1].key;
        if m == ti {
            assert(cur[k - 1].key != nc[ti].key);
        }
    }
    assert(cur2.subrange(ti + 1, cur2.len() as int) =~= cur.subrange(ti, cur.len() as int));
    if nc[ti].key is None {
        let rest = cur.subrange(ti, cur.len() as int);
        assert forall|m: int| 0 <= m < rest.len() implies (#[trigger] rest[m]).key is Some by {
            assert(rest[m] == cur[ti + m]);
        }
        lemma_unkeyed_zero(rest);
    }
    lemma_unkeyed_split(nc, ti, ti, nc.len() as int);
    assert(nc.subrange(ti, ti) =~= Seq::<SNode>::empty());
    assert forall|k: int| 0 <= k < cur2.len() implies tree_ok(#[trigger] cur2[k]) by {
        if k == ti {
            assert(tree_ok(nc[ti]));
        } else {
            let sk = if k < ti { k } else { k - 1 };
            assert(cur2[k] == cur[sk]);
        }
    }
}

// ---------------------------------------------------------------------------
// The differ's scripts, applied.
// ---------------------------------------------------------------------------

/// The patch script for a node, applied at the node's place in a tree,
/// succeeds and leaves there a tree `r` that matches the new node.
pub proof fn lemma_diff_node(t: SNode, p: Seq<usize>, old: SNode, new: SNode) -> (r: SNode)
    requires
        valid_path(t, p),
        at(t, p) == old,
        tree_ok(old),
        tree_ok(new),
    ensures
        crate::diff::diff_model(p, old, new) is Some,
        crate::diff::apply_model(t, crate::diff::diff_model(p, old, new).unwrap())
            == (set_at(t, p, r), None::<ApplyError>),
        matches(r, new),
    decreases new, 0nat,
{
    if !crate::diff::same_identity(old, new) {
        let rp = SPatch::Replace { path: p, node: new };
        lemma_apply_single(t, rp);
        lemma_apply_at(t, p, rp);
        lemma_matches_refl(new);
        new
    } else {
        let fp = crate::diff::facet_patches(p, old, new);
        lemma_facet_patches(p, old, new);
        lemma_apply_local(t, p, fp);
        let x1 = facets_applied(old, new);
        let t1 = set_at(t, p, x1);
        lemma_set_at(t, p, x1, x1);
        lemma_tree_ok(old);
        lemma_tree_ok(new);
        let c = lemma_diff_children(t1, p, old.children, new.children);
        let cp = crate::diff::diff_children_model(p, old.children, new.children).unwrap();
        lemma_apply_concat(t, fp, cp);
        let r = crate::diff::with_children(x1, c);
        lemma_set_at(t, p, x1, r);
        lemma_matches(r, new);
        r
    }
}

/// The patch script for two children lists, applied at the parent's place,
/// succeeds and leaves there children `c` that match the new list.
pub proof fn lemma_diff_children(t: SNode, p: Seq<usize>, oc: Seq<SNode>, nc: Seq<SNode>) -> (c: Seq<SNode>)
    requires
        valid_path(t, p),
        at(t, p).children == oc,
        nc.len() <= usize::MAX,
        forall|i: int| 0 <= i < oc.len() ==> tree_ok(#[trigger] oc[i]),
        forall|i: int| 0 <= i < nc.len() ==> tree_ok(#[trigger] nc[i]),
    ensures
        crate::diff::diff_children_model(p, oc, nc) is Some,
        crate::diff::apply_model(t, crate::diff::diff_children_model(p, oc, nc).unwrap())
            == (set_at(t, p, crate::diff::with_children(at(t, p), c)), None::<ApplyError>),
        list_matches(c, nc),
    decreases nc, nc.len() + 2,
{
    let x = at(t, p);
    if crate::diff::keyed_lists(oc, nc) {
        let rm = crate::diff::removals(p, oc, nc, oc.len() as int);
        lemma_removals(x, p, oc, nc, oc.len() as int);
        lemma_apply_local(t, p, rm.0);
        let x1 = crate::diff::with_children(x, rm.1);
        let t1 = set_at(t, p, x1);
        lemma_set_at(t, p, x1, x1);
        lemma_walk_start(rm.1, nc);
        let c = lemma_walk(t1, p, rm.1, nc, 0);
        let w = crate::diff::walk_model(p, rm.1, nc, 0).unwrap();
        lemma_apply_concat(t, rm.0, w);
        lemma_set_at(t, p, x1, crate::diff::with_children(x1, c));
        assert(crate::diff::with_children(x1, c) == crate::diff::with_children(x, c));
        c
    } else {
        let c1 = lemma_positional(t, p, oc, nc, 0);
        let pm = crate::diff::positional_model(p, oc, nc, 0).unwrap();
        let x1 = crate::diff::with_children(x, c1);
        let t1 = set_at(t, p, x1);
        lemma_set_at(t, p, x1, x1);
        let tail = crate::diff::positional_tail(p, oc, nc);
        let c = if nc.len() > oc.len() {
            assert(tail =~= Seq::new((nc.len() - oc.len()) as nat, |k: int|
                SPatch::Insert { path: p, index: (oc.len() + k) as nat, node: nc[oc.len() + k] }));
            lemma_insert_tail(x1, p, nc, oc.len() as int);
            c1 + nc.subrange(oc.len() as int, nc.len() as int)
        } else {
            assert(tail =~= Seq::new((oc.len() - nc.len()) as nat, |k: int|
                SPatch::Remove { path: p, index: (oc.len() - 1 - k) as nat }));
            lemma_remove_tail(x1, p, nc.len() as int, oc.len() as int);
            c1.subrange(0, nc.len() as int)
        };
        assert(apply_here_seq(x1, tail) == (crate::diff::with_children(x1, c), None::<ApplyError>));
        assert forall|m: int| 0 <= m < tail.len() implies crate::diff::patch_path(#[trigger] tail[m]) == p by {}
        lemma_apply_local(t1, p, tail);
        lemma_apply_concat(t, pm, tail);
        lemma_set_at(t, p, x1, crate::diff::with_children(x1, c));
        assert(crate::diff::with_children(x1, c) == crate::diff::with_children(x, c));
        assert forall|k: int| 0 <= k < nc.len() implies matches(#[trigger] c[k], nc[k]) by {
            if k >= oc.len() {
                assert(c[k] == nc[k]);
                lemma_matches_refl(nc[k]);
            } else {
                assert(c[k] == c1[k]);
            }
        }
        c
    }
}

/// The positional differ's common prefix from position `i`, applied at
/// the parent's place: each child there is replaced by one that matches
/// the new child.
pub proof fn lemma_positional(t: SNode, p: Seq<usize>, oc: Seq<SNode>, nc: Seq<SNode>, i: int) -> (c: Seq<SNode>)
    requires
        valid_path(t, p),
        0 <= i <= oc.len(),
        i <= nc.len(),
        nc.len() <= usize::MAX,
        at(t, p).children.len() == oc.len(),
        forall|k: int| 0 <= k < i ==> matches(#[trigger] at(t, p).children[k], nc[k]),
        forall|k: int| i <= k < oc.len() ==> at(t, p).children[k] == #[trigger] oc[k],
        forall|k: int| 0 <= k < oc.len() ==> tree_ok(#[trigger] oc[k]),
        forall|k: int| 0 <= k < nc.len() ==> tree_ok(#[trigger] nc[k]),
    ensures
        crate::diff::positional_model(p, oc, nc, i) is Some,
        crate::diff::apply_model(t, crate::diff::positional_model(p, oc, nc, i).unwrap())
            == (set_at(t, p, crate::diff::with_children(at(t, p), c)), None::<ApplyError>),
        c.len() == oc.len(),
        forall|k: int| 0 <= k < oc.len() && k < nc.len() ==> matches(#[trigger] c[k], nc[k]),
        forall|k: int| nc.len() <= k < oc.len() ==> c[k] == #[trigger] oc[k],
    decreases nc, nc.len() + 1 - i,
{
    let x = at(t, p);
    let cc = x.children;
    if i >= oc.len() || i >= nc.len() {
        assert(crate::diff::with_children(x, cc) == x);
        lemma_set_identity(t, p);
        cc
    } else {
        lemma_path_push(t, p, i as usize, oc[i]);
        let r = lemma_diff_node(t, p.push(i as usize), oc[i], nc[i]);
        lemma_path_push(t, p, i as usize, r);
        let x2 = crate::diff::with_children(x, cc.update(i, r));
        let t2 = set_at(t, p, x2);
        lemma_set_at(t, p, x2, x2);
        assert forall|k: int| 0 <= k < i + 1 implies matches(#[trigger] x2.children[k], nc[k]) by {
            if k < i {
                assert(x2.children[k] == cc[k]);
            }
        }
        let c = lemma_positional(t2, p, oc, nc, i + 1);
        let d = crate::diff::diff_model(p.push(i as usize), oc[i], nc[i]).unwrap();
        let rest = crate::diff::positional_model(p, oc, nc, i + 1).unwrap();
        lemma_apply_concat(t, d, rest);
        lemma_set_at(t, p, x2, crate::diff::with_children(x2, c));
        assert(crate::diff::with_children(x2, c) == crate::diff::with_children(x, c));
        c
    }
}

/// The walk from position `ti`, applied at the parent's place: the
/// children end up matching the new list.
pub proof fn lemma_walk(tr: SNode, p: Seq<usize>, cur: Seq<SNode>, nc: Seq<SNode>, ti: int) -> (c: Seq<SNode>)
    requires
        valid_path(tr, p),
        walk_state(at(tr, p).children, cur, nc, ti),
    ensures
        crate::diff::walk_model(p, cur, nc, ti) is Some,
        crate::diff::apply_model(tr, crate::diff::walk_model(p, cur, nc, ti).unwrap())
            == (set_at(tr, p, crate::diff::with_children(at(tr, p), c)), None::<ApplyError>),
        list_matches(c, nc),
    decreases nc, nc.len() + 1 - ti,
{
    let x = at(tr, p);
    let cc = x.children;
    if ti >= nc.len() {
        lemma_walk_end(cc, cur, nc);
        assert(crate::diff::with_children(x, cc) == x);
        lemma_set_identity(tr, p);
        cc
    } else {
        lemma_first_key(cur, nc[ti].key, ti);
        match crate::diff::first_key(cur, nc[ti].key, ti) {
            Some(j) => {
                if j == ti {
                    lemma_path_push(tr, p, ti as usize, cur[ti]);
                    let r = lemma_diff_node(tr, p.push(ti as usize), cur[ti], nc[ti]);
                    lemma_path_push(tr, p, ti as usize, r);
                    let x2 = crate::diff::with_children(x, cc.update(ti, r));
                    let tr2 = set_at(tr, p, x2);
                    lemma_set_at(tr, p, x2, x2);
                    lemma_walk_keep(cc, cur, nc, ti, r);
                    let c = lemma_walk(tr2, p, cur, nc, ti + 1);
                    let d = crate::diff::diff_model(p.push(ti as usize), cur[ti], nc[ti]).unwrap();
                    let w = crate::diff::walk_model(p, cur, nc, ti + 1).unwrap();
                    lemma_apply_concat(tr, d, w);
                    lemma_set_at(tr, p, x2, crate::diff::with_children(x2, c));
                    assert(crate::diff::with_children(x2, c) == crate::diff::with_children(x, c));
                    c
                } else if j == ti + 1 && crate::diff::first_key(nc, cur[ti].key, ti + 1) is Some {
                    let q = crate::diff::first_key(nc, cur[ti].key, ti + 1).unwrap();
                    lemma_first_key(nc, cur[ti].key, ti + 1);
                    let dd = crate::diff::move_dest(cur.len() as int, q);
                    let mv = SPatch::Move { path: p, from: ti as nat, index: q as nat };
                    lemma_apply_single(tr, mv);
                    lemma_apply_at(tr, p, mv);
                    let c1 = cc.remove(ti).insert(dd, cc[ti]);
                    let x1 = crate::diff::with_children(x, c1);
                    assert(crate::diff::apply_here(x, mv) == Ok::<SNode, ApplyError>(x1));
                    let tr1 = set_at(tr, p, x1);
                    lemma_set_at(tr, p, x1, x1);
                    let cur1 = cur.remove(ti).insert(dd, cur[ti]);
                    let moved = cur[ti + 1];
                    assert(cc[ti + 1] == cur[ti + 1]);
                    assert(c1[ti] == cc[ti + 1]);
                    assert(cur1[ti] == cur[ti + 1]);
                    lemma_path_push(tr1, p, ti as usize, moved);
                    let r = lemma_diff_node(tr1, p.push(ti as usize), moved, nc[ti]);
                    lemma_path_push(tr1, p, ti as usize, r);
                    let x2 = crate::diff::with_children(x1, c1.update(ti, r));
                    let tr2 = set_at(tr1, p, x2);
                    lemma_set_at(tr1, p, x2, x2);
                    lemma_set_at(tr, p, x1, x2);
                    lemma_walk_forward(cc, cur, nc, ti, dd, r);
                    let cur2 = cur1.update(ti, nc[ti]);
                    let c = lemma_walk(tr2, p, cur2, nc, ti + 1);
                    let d = crate::diff::diff_model(p.push(ti as usize), moved, nc[ti]).unwrap();
                    let w = crate::diff::walk_model(p, cur2, nc, ti + 1).unwrap();
                    lemma_apply_concat(tr, seq![mv], d + w);
                    lemma_apply_concat(tr1, d, w);
                    lemma_set_at(tr1, p, x2, crate::diff::with_children(x2, c));
                    lemma_set_at(tr, p, x1, crate::diff::with_children(x2, c));
                    assert(crate::diff::with_children(x2, c) == crate::diff::with_children(x, c));
                    c
                } else {
                    let moved = cur[j];
                    let mv = SPatch::Move { path: p, from: j as nat, index: ti as nat };
                    lemma_apply_single(tr, mv);
                    lemma_apply_at(tr, p, mv);
                    let c1 = cc.remove(j).insert(ti, cc[j]);
                    let x1 = crate::diff::with_children(x, c1);
                    assert(crate::diff::apply_here(x, mv) == Ok::<SNode, ApplyError>(x1));
                    let tr1 = set_at(tr, p, x1);
                    lemma_set_at(tr, p, x1, x1);
                    assert(c1[ti] == moved);
                    lemma_path_push(tr1, p, ti as usize, moved);
                    let r = lemma_diff_node(tr1, p.push(ti as usize), moved, nc[ti]);
                    lemma_path_push(tr1, p, ti as usize, r);
                    let x2 = crate::diff::with_children(x1, c1.update(ti, r));
                    let tr2 = set_at(tr1, p, x2);
                    lemma_set_at(tr1, p, x2, x2);
                    lemma_set_at(tr, p, x1, x2);
                    lemma_walk_move(cc, cur, nc, ti, j, r);
                    let cur2 = cur.remove(j).insert(ti, moved).update(ti, nc[ti]);
                    let c = lemma_walk(tr2, p, cur2, nc, ti + 1);
                    let d = crate::diff::diff_model(p.push(ti as usize), moved, nc[ti]).unwrap();
                    let w = crate::diff::walk_model(p, cur2, nc, ti + 1).unwrap();
                    lemma_apply_concat(tr, seq![mv], d + w);
                    lemma_apply_concat(tr1, d, w);
                    lemma_set_at(tr1, p, x2, crate::diff::with_children(x2, c));
                    lemma_set_at(tr, p, x1, crate::diff::with_children(x2, c));
                    assert(crate::diff::with_children(x2, c) == crate::diff::with_children(x, c));
                    c
                }
            },
            None => {
                let ins = SPatch::Insert { path: p, index: ti as nat, node: nc[ti] };
                lemma_apply_single(tr, ins);
                lemma_apply_at(tr, p, ins);
                let x1 = crate::diff::with_children(x, cc.insert(ti, nc[ti]));
                let tr1 = set_at(tr, p, x1);
                lemma_set_at(tr, p, x1, x1);
                lemma_walk_insert(cc, cur, nc, ti);
                let cur1 = cur.insert(ti, nc[ti]);
                let c = lemma_walk(tr1, p, cur1, nc, ti + 1);
                let w = crate::diff::walk_model(p, cur1, nc, ti + 1).unwrap();
                lemma_apply_concat(tr, seq![ins], w);
                lemma_set_at(tr, p, x1, crate::diff::with_children(x1, c));
                assert(crate::diff::with_children(x1, c) == crate::diff::with_children(x, c));
                c
            },
        }
    }
}

// ---------------------------------------------------------------------------
// The differ always has a script.
// ---------------------------------------------------------------------------

/// The differ has a patch script for every pair of trees.
pub proof fn lemma_diff_total(p: Seq<usize>, old: SNode, new: SNode)
    ensures
        crate::diff::diff_model(p, old, new) is Some,
    decreases new, 0nat,
{
    if crate::diff::same_identity(old, new) {
        lemma_children_total(p, old.children, new.children);
    }
}

/// The differ has a patch script for every pair of children lists.
proof fn lemma_children_total(p: Seq<usize>, oc: Seq<SNode>, nc: Seq<SNode>)
    ensures
        crate::diff::diff_children_model(p, oc, nc) is Some,
    decreases nc, nc.len() + 2,
{
    if crate::diff::keyed_lists(oc, nc) {
        lemma_walk_total(p, crate::diff::removals(p, oc, nc, oc.len() as int).1, nc, 0);
    } else {
        lemma_positional_total(p, oc, nc, 0);
    }
}

/// The positional differ has a script from every position.
proof fn lemma_positional_total(p: Seq<usize>, oc: Seq<SNode>, nc: Seq<SNode>, i: int)
    ensures
        crate::diff::positional_model(p, oc, nc, i) is Some,
    decreases nc, nc.len() + 1 - i,
{
    if 0 <= i < oc.len() && i < nc.len() {
        lemma_diff_total(p.push(i as usize), oc[i], nc[i]);
        lemma_positional_total(p, oc, nc, i + 1);
    }
}

/// The walk has a script from every position up to the working list's end.
proof fn lemma_walk_total(p: Seq<usize>, cur: Seq<SNode>, nc: Seq<SNode>, t: int)
    requires
        0 <= t <= cur.len(),
    ensures
        crate::diff::walk_model(p, cur, nc, t) is Some,
    decreases nc, nc.len() + 1 - t,
{
    if t < nc.len() {
        lemma_first_key(cur, nc[t].key, t);
        match crate::diff::first_key(cur, nc[t].key, t) {
            Some(j) => {
                if j == t {
                    lemma_diff_total(p.push(t as usize), cur[t], nc[t]);
                    lemma_walk_total(p, cur, nc, t + 1);
                } else if j == t + 1 && crate::diff::first_key(nc, cur[t].key, t + 1) is Some {
                    let q = crate::diff::first_key(nc, cur[t].key, t + 1).unwrap();
                    lemma_first_key(nc, cur[t].key, t + 1);
                    let c1 = cur.remove(t).insert(crate::diff::move_dest(cur.len() as int, q), cur[t]);
                    assert(c1.len() == cur.len());
                    lemma_diff_total(p.push(t as usize), c1[t], nc[t]);
                    lemma_walk_total(p, c1.update(t, nc[t]), nc, t + 1);
                } else {
                    let c1 = cur.remove(j).insert(t, cur[j]);
                    lemma_diff_total(p.push(t as usize), cur[j], nc[t]);
                    lemma_walk_total(p, c1.update(t, nc[t]), nc, t + 1);
                }
            },
            None => {
                lemma_walk_total(p, cur.insert(t, nc[t]), nc, t + 1);
            },
        }
    }
}

// ---------------------------------------------------------------------------
// The laws.
// ---------------------------------------------------------------------------

/// Applying the patch script that the differ produces for `old` and `new`
/// to `old` succeeds and turns it into `new`: same keys and shape, and
/// every facet either the new one or `==` to it (a facet that `==` leaves
/// in place, such as a float `0.0` where the new tree has `-0.0`, stays).
/// It holds for every pair of trees.
pub proof fn lemma_diff_apply_roundtrip(old: SNode, new: SNode)
    requires
        tree_ok(old),
        tree_ok(new),
    ensures
        crate::diff::diff_model(seq![], old, new) is Some,
        crate::diff::apply_model(old, crate::diff::diff_model(seq![], old, new).unwrap()).1 is None,
        matches(crate::diff::apply_model(old, crate::diff::diff_model(seq![], old, new).unwrap()).0, new),
{
    let r = lemma_diff_node(old, seq![], old, new);
    assert(set_at(old, seq![], r) == r);
}

/// Every facet of the tree is `==` to itself: no float in it is NaN.
pub open spec fn self_equal(n: SNode) -> bool
    decreases n, 0nat,
{
    &&& crate::facet::deep_eq(n.kind, n.kind)
    &&& crate::facet::deep_eq(n.style, n.style)
    &&& crate::facet::deep_eq(n.events, n.events)
    &&& crate::facet::deep_eq(n.animations, n.animations)
    &&& crate::facet::deep_eq(n.transition, n.transition)
    &&& all_self_equal(n.children, n.children.len() as int)
}

/// The first `k` nodes of the list are `==` to themselves.
pub open spec fn all_self_equal(s: Seq<SNode>, k: int) -> bool
    decreases s, (if k < 0 { 0 } else { k }) as nat,
{
    if k <= 0 || k > s.len() {
        true
    } else {
        all_self_equal(s, k - 1) && self_equal(s[k - 1])
    }
}

/// The prefix form of `all_self_equal`.
pub proof fn lemma_all_self_equal(s: Seq<SNode>, k: int)
    requires
        0 <= k <= s.len(),
    ensures
        all_self_equal(s, k) == forall|i: int| 0 <= i < k ==> self_equal(#[trigger] s[i]),
    decreases k,
{
    if k > 0 {
        lemma_all_self_equal(s, k - 1);
    }
}

/// The first phase keeps a list whose children it all accepts.
proof fn lemma_removals_none(p: Seq<usize>, cur: Seq<SNode>, new: Seq<SNode>, i: int)
    requires
        0 <= i <= cur.len(),
        forall|a: int| 0 <= a < i ==> #[trigger] crate::diff::keeps(cur, new, a),
    ensures
        crate::diff::removals(p, cur, new, i) == (Seq::<SPatch>::empty(), cur),
    decreases i,
{
    if i > 0 {
        assert(crate::diff::keeps(cur, new, i - 1));
        lemma_removals_none(p, cur, new, i - 1);
    }
}

/// `==` between two kinds keeps the kind tag.
proof fn lemma_deep_eq_tag(a: DeepValue, b: DeepValue)
    requires
        crate::facet::deep_eq(a, b),
    ensures
        crate::node::deep_tag(a) == crate::node::deep_tag(b),
{
    match a {
        DeepValue::Pair(x, _) => {
            match b {
                DeepValue::Pair(y, _) => {
                    assert(crate::facet::deep_eq(*x, *y));
                },
                _ => {},
            }
        },
        _ => {},
    }
}

/// Two lists whose nodes pairwise carry the same keys have as many
/// unkeyed nodes.
proof fn lemma_unkeyed_same_keys(s: Seq<SNode>, t: Seq<SNode>)
    requires
        s.len() == t.len(),
        forall|i: int| 0 <= i < s.len() ==> (#[trigger] s[i]).key == t[i].key,
    ensures
        crate::diff::unkeyed_count(s) == crate::diff::unkeyed_count(t),
    decreases s.len(),
{
    if s.len() > 0 {
        assert(s.last() == s[s.len() - 1]);
        assert(t.last() == t[t.len() - 1]);
        lemma_unkeyed_same_keys(s.drop_last(), t.drop_last());
    }
}

/// A node that already matches the new one, with every facet `==` to
/// itself, gets no patches.
proof fn lemma_diff_matching(p: Seq<usize>, old: SNode, new: SNode)
    requires
        matches(old, new),
        self_equal(old),
    ensures
        crate::diff::diff_model(p, old, new) == Some(Seq::<SPatch>::empty()),
    decreases new, 0nat,
{
    lemma_matches(old, new);
    lemma_all_self_equal(old.children, old.children.len() as int);
    if crate::facet::deep_eq(old.kind, new.kind) {
        lemma_deep_eq_tag(old.kind, new.kind);
    }
    assert(crate::diff::same_identity(old, new));
    assert(crate::diff::facet_patches(p, old, new) =~= Seq::<SPatch>::empty());
    lemma_children_matching(p, old.children, new.children);
}

/// Children lists that already match, with every facet of the old ones
/// `==` to itself, get no patches.
proof fn lemma_children_matching(p: Seq<usize>, oc: Seq<SNode>, nc: Seq<SNode>)
    requires
        list_matches(oc, nc),
        forall|i: int| 0 <= i < oc.len() ==> self_equal(#[trigger] oc[i]),
    ensures
        crate::diff::diff_children_model(p, oc, nc) == Some(Seq::<SPatch>::empty()),
    decreases nc, nc.len() + 2,
{
    if !crate::diff::keyed_lists(oc, nc) {
        lemma_positional_matching(p, oc, nc, 0);
        assert(crate::diff::positional_tail(p, oc, nc) =~= Seq::<SPatch>::empty());
        assert(Seq::<SPatch>::empty() + Seq::<SPatch>::empty() =~= Seq::<SPatch>::empty());
        return;
    }
    assert forall|i: int| 0 <= i < oc.len() implies (#[trigger] oc[i]).key == nc[i].key by {
        lemma_matches(oc[i], nc[i]);
    }
    lemma_unkeyed_same_keys(oc, nc);
    assert forall|a: int| 0 <= a < oc.len() implies #[trigger] crate::diff::keeps(oc, nc, a) by {
        if oc[a].key is Some {
            assert(nc[a].key == oc[a].key);
            assert(crate::diff::has_key(nc, oc[a].key));
        } else {
            lemma_unkeyed_split(oc, 0, a, oc.len() as int);
            assert(oc.subrange(0, oc.len() as int) =~= oc);
        }
    }
    lemma_removals_none(p, oc, nc, oc.len() as int);
    lemma_walk_matching(p, oc, nc, 0);
}

/// The positional differ over children that already match gives no
/// patches.
proof fn lemma_positional_matching(p: Seq<usize>, oc: Seq<SNode>, nc: Seq<SNode>, i: int)
    requires
        0 <= i <= nc.len(),
        list_matches(oc, nc),
        forall|k: int| 0 <= k < oc.len() ==> self_equal(#[trigger] oc[k]),
    ensures
        crate::diff::positional_model(p, oc, nc, i) == Some(Seq::<SPatch>::empty()),
    decreases nc, nc.len() + 1 - i,
{
    if i < nc.len() {
        lemma_diff_matching(p.push(i as usize), oc[i], nc[i]);
        lemma_positional_matching(p, oc, nc, i + 1);
        assert(Seq::<SPatch>::empty() + Seq::<SPatch>::empty() =~= Seq::<SPatch>::empty());
    }
}

/// The walk over children that already match gives no patches.
proof fn lemma_walk_matching(p: Seq<usize>, oc: Seq<SNode>, nc: Seq<SNode>, t: int)
    requires
        0 <= t <= nc.len(),
        list_matches(oc, nc),
        forall|i: int| 0 <= i < oc.len() ==> self_equal(#[trigger] oc[i]),
    ensures
        crate::diff::walk_model(p, oc, nc, t) == Some(Seq::<SPatch>::empty()),
    decreases nc, nc.len() + 1 - t,
{
    if t < nc.len() {
        lemma_matches(oc[t], nc[t]);
        assert(crate::diff::first_key(oc, nc[t].key, t) == Some(t));
        lemma_diff_matching(p.push(t as usize), oc[t], nc[t]);
        lemma_walk_matching(p, oc, nc, t + 1);
        assert(Seq::<SPatch>::empty() + Seq::<SPatch>::empty() =~= Seq::<SPatch>::empty());
    }
}

/// Diffing a tree against itself gives an empty patch script, provided
/// every facet of the tree is `==` to itself (no float in it is NaN).
pub proof fn lemma_diff_identical(t: SNode)
    requires
        self_equal(t),
    ensures
        crate::diff::diff_model(seq![], t, t) == Some(Seq::<SPatch>::empty()),
{
    lemma_matches_refl(t);
    lemma_diff_matching(seq![], t, t);
}

/// The differ gives no patches exactly when the old tree already is the
/// new one (same keys and shape, every facet `==` to the new one). It holds
/// for trees in which no two siblings share a key and every facet of the
/// old tree is `==` to itself (no float in it is NaN).
pub proof fn lemma_diff_empty_iff_matches(old: SNode, new: SNode)
    requires
        tree_ok(old),
        tree_ok(new),
        self_equal(old),
    ensures
        (crate::diff::diff_model(seq![], old, new) == Some(Seq::<SPatch>::empty())) == matches(old, new),
{
    if matches(old, new) {
        lemma_diff_matching(seq![], old, new);
    }
    lemma_diff_apply_roundtrip(old, new);
    if crate::diff::diff_model(seq![], old, new) == Some(Seq::<SPatch>::empty()) {
        assert(crate::diff::apply_model(old, Seq::<SPatch>::empty()) == (old, None::<ApplyError>));
    }
}

// ---------------------------------------------------------------------------
// Keyed children keep their identity.
// ---------------------------------------------------------------------------

/// `path` leads to `q` or to a node below it.
pub open spec fn under(path: Seq<usize>, q: Seq<usize>) -> bool {
    q.len() <= path.len() && path.subrange(0, q.len() as int) == q
}

/// A path below a child of `q` is below `q`, one level further down.
proof fn lemma_under_push(path: Seq<usize>, q: Seq<usize>, t: usize)
    requires
        under(path, q.push(t)),
    ensures
        under(path, q),
        path.len() >= q.len() + 1,
{
    assert(path.subrange(0, q.len() as int) =~= path.subrange(0, q.len() as int + 1).subrange(0, q.len() as int));
    assert(q.push(t).subrange(0, q.len() as int) =~= q);
}

/// Every patch of the script for a node lies at or below the node's path;
/// one that replaces the node itself replaces it by the new node, because
/// the two differ in key or kind tag.
pub proof fn lemma_diff_paths(q: Seq<usize>, a: SNode, b: SNode)
    ensures
        crate::diff::diff_model(q, a, b) matches Some(s) ==> forall|m: int| 0 <= m < s.len() ==> {
            &&& under(crate::diff::patch_path(#[trigger] s[m]), q)
            &&& (s[m] is Replace && crate::diff::patch_path(s[m]).len() == q.len())
                ==> s[m] == SPatch::Replace { path: q, node: b } && !crate::diff::same_identity(a, b)
        },
    decreases b, 0nat,
{
    assert(q.subrange(0, q.len() as int) =~= q);
    if crate::diff::same_identity(a, b) {
        let f = crate::diff::facet_patches(q, a, b);
        lemma_facet_patches(q, a, b);
        lemma_children_paths(q, a.children, b.children);
        if let Some(c) = crate::diff::diff_children_model(q, a.children, b.children) {
            let s = f + c;
            assert forall|m: int| 0 <= m < s.len() implies {
                &&& under(crate::diff::patch_path(#[trigger] s[m]), q)
                &&& (s[m] is Replace && crate::diff::patch_path(s[m]).len() == q.len())
                    ==> s[m] == SPatch::Replace { path: q, node: b } && !crate::diff::same_identity(a, b)
            } by {
                if m < f.len() {
                    assert(s[m] == f[m]);
                } else {
                    assert(s[m] == c[m - f.len()]);
                }
            }
        }
    }
}

/// Every patch of the script for two children lists lies at or below the
/// parent's path, and one that replaces a node lies below it.
proof fn lemma_children_paths(q: Seq<usize>, oc: Seq<SNode>, nc: Seq<SNode>)
    ensures
        crate::diff::diff_children_model(q, oc, nc) matches Some(s) ==> forall|m: int| 0 <= m < s.len() ==> {
            &&& under(crate::diff::patch_path(#[trigger] s[m]), q)
            &&& (s[m] is Replace ==> crate::diff::patch_path(s[m]).len() > q.len())
        },
    decreases nc, nc.len() + 2,
{
    assert(q.subrange(0, q.len() as int) =~= q);
    if !crate::diff::keyed_lists(oc, nc) {
        lemma_positional_paths(q, oc, nc, 0);
        let tail = crate::diff::positional_tail(q, oc, nc);
        if let Some(pm) = crate::diff::positional_model(q, oc, nc, 0) {
            let s = pm + tail;
            assert forall|m: int| 0 <= m < s.len() implies {
                &&& under(crate::diff::patch_path(#[trigger] s[m]), q)
                &&& (s[m] is Replace ==> crate::diff::patch_path(s[m]).len() > q.len())
            } by {
                if m < pm.len() {
                    assert(s[m] == pm[m]);
                } else {
                    assert(s[m] == tail[m - pm.len()]);
                }
            }
        }
        return;
    }
    let r = crate::diff::removals(q, oc, nc, oc.len() as int);
    lemma_removal_paths(q, oc, nc, oc.len() as int);
    lemma_walk_paths(q, r.1, nc, 0);
    assert(q.subrange(0, q.len() as int) =~= q);
    if let Some(w) = crate::diff::walk_model(q, r.1, nc, 0) {
        let s = r.0 + w;
        assert forall|m: int| 0 <= m < s.len() implies {
            &&& under(crate::diff::patch_path(#[trigger] s[m]), q)
            &&& (s[m] is Replace ==> crate::diff::patch_path(s[m]).len() > q.len())
        } by {
            if m < r.0.len() {
                assert(s[m] == r.0[m]);
            } else {
                assert(s[m] == w[m - r.0.len()]);
            }
        }
    }
}

/// Every patch of the positional differ's common prefix lies below the
/// parent's path.
proof fn lemma_positional_paths(q: Seq<usize>, oc: Seq<SNode>, nc: Seq<SNode>, i: int)
    ensures
        crate::diff::positional_model(q, oc, nc, i) matches Some(s) ==> forall|m: int| 0 <= m < s.len() ==> {
            &&& under(crate::diff::patch_path(#[trigger] s[m]), q)
            &&& crate::diff::patch_path(s[m]).len() > q.len()
        },
    decreases nc, nc.len() + 1 - i,
{
    if 0 <= i < oc.len() && i < nc.len() {
        lemma_diff_paths(q.push(i as usize), oc[i], nc[i]);
        lemma_positional_paths(q, oc, nc, i + 1);
        if let (Some(d), Some(w)) = (crate::diff::diff_model(q.push(i as usize), oc[i], nc[i]),
            crate::diff::positional_model(q, oc, nc, i + 1)) {
            let s = d + w;
            assert forall|m: int| 0 <= m < s.len() implies {
                &&& under(crate::diff::patch_path(#[trigger] s[m]), q)
                &&& crate::diff::patch_path(s[m]).len() > q.len()
            } by {
                if m < d.len() {
                    assert(s[m] == d[m]);
                    lemma_under_push(crate::diff::patch_path(s[m]), q, i as usize);
                } else {
                    assert(s[m] == w[m - d.len()]);
                }
            }
        }
    }
}

/// The first phase's patches remove children of the node at the path.
proof fn lemma_removal_paths(q: Seq<usize>, cur: Seq<SNode>, nc: Seq<SNode>, i: int)
    ensures
        forall|m: int| 0 <= m < crate::diff::removals(q, cur, nc, i).0.len()
            ==> (#[trigger] crate::diff::removals(q, cur, nc, i).0[m]) is Remove
                && crate::diff::patch_path(crate::diff::removals(q, cur, nc, i).0[m]) == q,
    decreases i,
{
    if 0 < i <= cur.len() {
        if crate::diff::keeps(cur, nc, i - 1) {
            lemma_removal_paths(q, cur, nc, i - 1);
        } else {
            let c2 = cur.remove(i - 1);
            lemma_removal_paths(q, c2, nc, i - 1);
            let r = crate::diff::removals(q, c2, nc, i - 1);
            let s = seq![SPatch::Remove { path: q, index: (i - 1) as nat }] + r.0;
            assert forall|m: int| 0 <= m < s.len() implies (#[trigger] s[m]) is Remove
                && crate::diff::patch_path(s[m]) == q by {
                if m > 0 {
                    assert(s[m] == r.0[m - 1]);
                }
            }
        }
    }
}

/// Every patch of the walk lies at or below the parent's path, and one
/// that replaces a node lies below it.
proof fn lemma_walk_paths(q: Seq<usize>, cur: Seq<SNode>, nc: Seq<SNode>, t: int)
    ensures
        crate::diff::walk_model(q, cur, nc, t) matches Some(s) ==> forall|m: int| 0 <= m < s.len() ==> {
            &&& under(crate::diff::patch_path(#[trigger] s[m]), q)
            &&& (s[m] is Replace ==> crate::diff::patch_path(s[m]).len() > q.len())
        },
    decreases nc, nc.len() + 1 - t,
{
    if 0 <= t < nc.len() {
        assert(q.subrange(0, q.len() as int) =~= q);
        let qt = q.push(t as usize);
        match crate::diff::first_key(cur, nc[t].key, t) {
            Some(j) => {
                let (x, c2, head): (SNode, Seq<SNode>, Seq<SPatch>) = if j == t {
                    (cur[t], cur, seq![])
                } else if j == t + 1 && crate::diff::first_key(nc, cur[t].key, t + 1) is Some {
                    let qq = crate::diff::first_key(nc, cur[t].key, t + 1).unwrap();
                    let c1 = cur.remove(t).insert(crate::diff::move_dest(cur.len() as int, qq), cur[t]);
                    (c1[t], c1.update(t, nc[t]), seq![SPatch::Move { path: q, from: t as nat, index: qq as nat }])
                } else {
                    let c1 = cur.remove(j).insert(t, cur[j]);
                    (cur[j], c1.update(t, nc[t]), seq![SPatch::Move { path: q, from: j as nat, index: t as nat }])
                };
                lemma_diff_paths(qt, x, nc[t]);
                lemma_walk_paths(q, c2, nc, t + 1);
                if let (Some(d), Some(w)) = (crate::diff::diff_model(qt, x, nc[t]), crate::diff::walk_model(q, c2, nc, t + 1)) {
                    let s = head + (d + w);
                    assert(crate::diff::walk_model(q, cur, nc, t) == Some(s)) by {
                        if j == t {
                            assert(head + (d + w) =~= d + w);
                        }
                    }
                    assert forall|m: int| 0 <= m < s.len() implies {
                        &&& under(crate::diff::patch_path(#[trigger] s[m]), q)
                        &&& (s[m] is Replace ==> crate::diff::patch_path(s[m]).len() > q.len())
                    } by {
                        if m < head.len() {
                            assert(s[m] == head[m]);
                        } else if m < head.len() + d.len() {
                            assert(s[m] == d[m - head.len()]);
                            lemma_under_push(crate::diff::patch_path(s[m]), q, t as usize);
                        } else {
                            assert(s[m] == w[m - head.len() - d.len()]);
                        }
                    }
                }
            },
            None => {
                lemma_walk_paths(q, cur.insert(t, nc[t]), nc, t + 1);
                if t <= cur.len() {
                    if let Some(w) = crate::diff::walk_model(q, cur.insert(t, nc[t]), nc, t + 1) {
                        let s = seq![SPatch::Insert { path: q, index: t as nat, node: nc[t] }] + w;
                        assert forall|m: int| 0 <= m < s.len() implies {
                            &&& under(crate::diff::patch_path(#[trigger] s[m]), q)
                            &&& (s[m] is Replace ==> crate::diff::patch_path(s[m]).len() > q.len())
                        } by {
                            if m > 0 {
                                assert(s[m] == w[m - 1]);
                            }
                        }
                    }
                }
            },
        }
    }
}

/// Whether the patch puts into the children list of the node at `p` (by
/// replacing a child or by inserting one) a keyed node that has the key and
/// kind tag of one of the old children `oc`.
pub open spec fn installs_old_identity(pt: SPatch, p: Seq<usize>, oc: Seq<SNode>) -> bool {
    match pt {
        SPatch::Replace { path, node } => path.len() == p.len() + 1 && under(path, p) && node.key is Some
            && exists|i: int| 0 <= i < oc.len() && crate::diff::same_identity(#[trigger] oc[i], node),
        SPatch::Insert { path, node, .. } => path == p && node.key is Some
            && exists|i: int| 0 <= i < oc.len() && crate::diff::same_identity(#[trigger] oc[i], node),
        _ => false,
    }
}

/// The node occurs in the list at or after position `a`.
pub open spec fn occurs_from(x: SNode, s: Seq<SNode>, a: int) -> bool {
    exists|k: int| a <= k < s.len() && s[k] == x
}

/// What the walk keeps of the old children from position `t` on: every
/// child there is an old one, and every keyed old child whose key the new
/// list has from `t` on is still there.
pub open spec fn identity_state(cur: Seq<SNode>, oc: Seq<SNode>, nc: Seq<SNode>, t: int) -> bool {
    &&& 0 <= t
    &&& forall|k: int| t <= k < cur.len() ==> occurs_from(#[trigger] cur[k], oc, 0)
    &&& forall|i: int| 0 <= i < oc.len() && (#[trigger] oc[i]).key is Some && key_from(nc, oc[i].key, t)
        ==> occurs_from(oc[i], cur, t)
    &&& keys_distinct(oc)
    &&& keys_distinct(nc)
}

/// A keyed old child whose key the new list has once more after `t` is
/// not the one paired at `t`.
proof fn lemma_not_paired(oc: Seq<SNode>, nc: Seq<SNode>, t: int, i: int)
    requires
        keys_distinct(nc),
        0 <= t < nc.len(),
        0 <= i < oc.len(),
        oc[i].key is Some,
        key_from(nc, oc[i].key, t + 1),
    ensures
        oc[i].key != nc[t].key,
{
    let m = choose|m: int| t + 1 <= m < nc.len() && (#[trigger] nc[m]).key == oc[i].key;
    if oc[i].key == nc[t].key {
        assert(nc[t].key is Some);
        assert(nc[t].key != nc[m].key);
    }
}

/// The node the walk pairs with a keyed new child is the one old child of
/// that key, so a replacement of it (a change of kind tag) gives a node
/// whose identity no old child has.
proof fn lemma_paired_identity(x: SNode, n: SNode, oc: Seq<SNode>)
    requires
        occurs_from(x, oc, 0),
        x.key == n.key,
        n.key is Some,
        !crate::diff::same_identity(x, n),
        keys_distinct(oc),
    ensures
        forall|i: int| 0 <= i < oc.len() ==> !crate::diff::same_identity(#[trigger] oc[i], n),
{
    let k = choose|k: int| 0 <= k < oc.len() && oc[k] == x;
    assert forall|i: int| 0 <= i < oc.len() implies !crate::diff::same_identity(#[trigger] oc[i], n) by {
        if crate::diff::same_identity(oc[i], n) && i != k {
            if i < k {
                assert(oc[i].key != oc[k].key);
            } else {
                assert(oc[k].key != oc[i].key);
            }
        }
    }
}

/// The patches for the node paired at `t` install no old identity at the
/// parent's level.
proof fn lemma_child_identity(p: Seq<usize>, t: int, x: SNode, n: SNode, oc: Seq<SNode>)
    requires
        0 <= t <= usize::MAX,
        occurs_from(x, oc, 0),
        x.key == n.key,
        keys_distinct(oc),
    ensures
        crate::diff::diff_model(p.push(t as usize), x, n) matches Some(d) ==> forall|m: int| 0 <= m < d.len()
            ==> !installs_old_identity(#[trigger] d[m], p, oc),
{
    let qt = p.push(t as usize);
    lemma_diff_paths(qt, x, n);
    if let Some(d) = crate::diff::diff_model(qt, x, n) {
        assert forall|m: int| 0 <= m < d.len() implies !installs_old_identity(#[trigger] d[m], p, oc) by {
            let path = crate::diff::patch_path(d[m]);
            lemma_under_push(path, p, t as usize);
            if d[m] is Replace && path.len() == p.len() + 1 {
                assert(d[m] == SPatch::Replace { path: qt, node: n });
                if n.key is Some {
                    lemma_paired_identity(x, n, oc);
                }
            }
        }
    }
}

/// The walk from `t` installs no old identity at the parent's level.
proof fn lemma_walk_identity(p: Seq<usize>, cur: Seq<SNode>, oc: Seq<SNode>, nc: Seq<SNode>, t: int)
    requires
        identity_state(cur, oc, nc, t),
        nc.len() <= usize::MAX,
    ensures
        crate::diff::walk_model(p, cur, nc, t) matches Some(s) ==> forall|m: int| 0 <= m < s.len()
            ==> !installs_old_identity(#[trigger] s[m], p, oc),
    decreases nc, nc.len() + 1 - t,
{
    if t < nc.len() {
        lemma_first_key(cur, nc[t].key, t);
        match crate::diff::first_key(cur, nc[t].key, t) {
            Some(j) => {
                let fwd = j == t + 1 && crate::diff::first_key(nc, cur[t].key, t + 1) is Some;
                let (x, c2, head): (SNode, Seq<SNode>, Seq<SPatch>) = if j == t {
                    (cur[t], cur, seq![])
                } else if fwd {
                    let qq = crate::diff::first_key(nc, cur[t].key, t + 1).unwrap();
                    let c1 = cur.remove(t).insert(crate::diff::move_dest(cur.len() as int, qq), cur[t]);
                    (c1[t], c1.update(t, nc[t]), seq![SPatch::Move { path: p, from: t as nat, index: qq as nat }])
                } else {
                    let c1 = cur.remove(j).insert(t, cur[j]);
                    (cur[j], c1.update(t, nc[t]), seq![SPatch::Move { path: p, from: j as nat, index: t as nat }])
                };
                if fwd {
                    let qq = crate::diff::first_key(nc, cur[t].key, t + 1).unwrap();
                    lemma_first_key(nc, cur[t].key, t + 1);
                    let dd = crate::diff::move_dest(cur.len() as int, qq);
                    let c1 = cur.remove(t).insert(dd, cur[t]);
                    assert forall|k: int| 0 <= k < c1.len() implies #[trigger] c1[k] == (if k < t { cur[k] }
                        else if k < dd { cur[k + 1] } else if k == dd { cur[t] } else { cur[k] }) by {
                    }
                    assert(x == cur[t + 1]);
                    lemma_identity_forward(cur, oc, nc, t, dd);
                } else if j != t {
                    lemma_identity_move(cur, oc, nc, t, j);
                } else {
                    lemma_identity_keep(cur, oc, nc, t);
                }
                assert(occurs_from(cur[j], oc, 0));
                lemma_child_identity(p, t, x, nc[t], oc);
                lemma_walk_identity(p, c2, oc, nc, t + 1);
                if let (Some(d), Some(w)) = (crate::diff::diff_model(p.push(t as usize), x, nc[t]), crate::diff::walk_model(p, c2, nc, t + 1)) {
                    let s = head + (d + w);
                    assert(crate::diff::walk_model(p, cur, nc, t) == Some(s)) by {
                        if j == t {
                            assert(head + (d + w) =~= d + w);
                        }
                    }
                    assert forall|m: int| 0 <= m < s.len() implies !installs_old_identity(#[trigger] s[m], p, oc) by {
                        if m < head.len() {
                            assert(s[m] == head[m]);
                        } else if m < head.len() + d.len() {
                            assert(s[m] == d[m - head.len()]);
                        } else {
                            assert(s[m] == w[m - head.len() - d.len()]);
                        }
                    }
                }
            },
            None => {
                if t <= cur.len() {
                    lemma_identity_insert(cur, oc, nc, t);
                    lemma_walk_identity(p, cur.insert(t, nc[t]), oc, nc, t + 1);
                    if let Some(w) = crate::diff::walk_model(p, cur.insert(t, nc[t]), nc, t + 1) {
                        let ins = SPatch::Insert { path: p, index: t as nat, node: nc[t] };
                        let s = seq![ins] + w;
                        assert(!installs_old_identity(ins, p, oc)) by {
                            if nc[t].key is Some {
                                assert forall|i: int| 0 <= i < oc.len() implies !crate::diff::same_identity(#[trigger] oc[i], nc[t]) by {
                                    if oc[i].key == nc[t].key {
                                        assert(key_from(nc, oc[i].key, t));
                                        assert(occurs_from(oc[i], cur, t));
                                        let k = choose|k: int| t <= k < cur.len() && cur[k] == oc[i];
                                        assert(cur[k].key != nc[t].key);
                                    }
                                }
                            }
                        }
                        assert forall|m: int| 0 <= m < s.len() implies !installs_old_identity(#[trigger] s[m], p, oc) by {
                            if m > 0 {
                                assert(s[m] == w[m - 1]);
                            }
                        }
                    }
                }
            },
        }
    }
}

/// The identity state after the child at `t` is diffed in place.
proof fn lemma_identity_keep(cur: Seq<SNode>, oc: Seq<SNode>, nc: Seq<SNode>, t: int)
    requires
        identity_state(cur, oc, nc, t),
        t < nc.len(),
        t < cur.len(),
        cur[t].key == nc[t].key,
    ensures
        identity_state(cur, oc, nc, t + 1),
{
    assert forall|i: int| 0 <= i < oc.len() && (#[trigger] oc[i]).key is Some && key_from(nc, oc[i].key, t + 1)
        implies occurs_from(oc[i], cur, t + 1) by {
        let m = choose|m: int| t + 1 <= m < nc.len() && (#[trigger] nc[m]).key == oc[i].key;
        assert(key_from(nc, oc[i].key, t));
        lemma_not_paired(oc, nc, t, i);
        let k = choose|k: int| t <= k < cur.len() && cur[k] == oc[i];
        assert(k != t);
        assert(cur[k] == oc[i]);
    }
}

/// The identity state after the child at `j` is moved back to `t`.
proof fn lemma_identity_move(cur: Seq<SNode>, oc: Seq<SNode>, nc: Seq<SNode>, t: int, j: int)
    requires
        identity_state(cur, oc, nc, t),
        t < nc.len(),
        t < j < cur.len(),
        cur[j].key == nc[t].key,
    ensures
        identity_state(cur.remove(j).insert(t, cur[j]).update(t, nc[t]), oc, nc, t + 1),
{
    let cur2 = cur.remove(j).insert(t, cur[j]).update(t, nc[t]);
    assert forall|k: int| 0 <= k < cur2.len() implies #[trigger] cur2[k] == (if k < t { cur[k] }
        else if k == t { nc[t] } else if k <= j { cur[k - 1] } else { cur[k] }) by {
    }
    assert forall|k: int| t + 1 <= k < cur2.len() implies occurs_from(#[trigger] cur2[k], oc, 0) by {
        let sk = if k <= j { k - 1 } else { k };
        assert(cur2[k] == cur[sk]);
    }
    assert forall|i: int| 0 <= i < oc.len() && (#[trigger] oc[i]).key is Some && key_from(nc, oc[i].key, t + 1)
        implies occurs_from(oc[i], cur2, t + 1) by {
        let m = choose|m: int| t + 1 <= m < nc.len() && (#[trigger] nc[m]).key == oc[i].key;
        assert(key_from(nc, oc[i].key, t));
        lemma_not_paired(oc, nc, t, i);
        let k = choose|k: int| t <= k < cur.len() && cur[k] == oc[i];
        assert(k != j);
        let k2 = if k < j { k + 1 } else { k };
        assert(cur2[k2] == oc[i]);
    }
}

/// The identity state after the child at `t` is moved forward to `d`.
proof fn lemma_identity_forward(cur: Seq<SNode>, oc: Seq<SNode>, nc: Seq<SNode>, t: int, d: int)
    requires
        identity_state(cur, oc, nc, t),
        t < nc.len(),
        t + 1 <= d < cur.len(),
        cur[t + 1].key == nc[t].key,
    ensures
        identity_state(cur.remove(t).insert(d, cur[t]).update(t, nc[t]), oc, nc, t + 1),
{
    let cur2 = cur.remove(t).insert(d, cur[t]).update(t, nc[t]);
    assert forall|k: int| 0 <= k < cur2.len() implies #[trigger] cur2[k] == (if k < t { cur[k] }
        else if k == t { nc[t] } else if k < d { cur[k + 1] } else if k == d { cur[t] } else { cur[k] }) by {
    }
    assert forall|k: int| t + 1 <= k < cur2.len() implies occurs_from(#[trigger] cur2[k], oc, 0) by {
        let sk = if k < d { k + 1 } else if k == d { t } else { k };
        assert(cur2[k] == cur[sk]);
    }
    assert forall|i: int| 0 <= i < oc.len() && (#[trigger] oc[i]).key is Some && key_from(nc, oc[i].key, t + 1)
        implies occurs_from(oc[i], cur2, t + 1) by {
        let m = choose|m: int| t + 1 <= m < nc.len() && (#[trigger] nc[m]).key == oc[i].key;
        assert(key_from(nc, oc[i].key, t));
        lemma_not_paired(oc, nc, t, i);
        let k = choose|k: int| t <= k < cur.len() && cur[k] == oc[i];
        assert(k != t + 1);
        let k2 = if k == t { d } else if k <= d { k - 1 } else { k };
        assert(cur2[k2] == oc[i]);
    }
}

/// The identity state after a new child is inserted at `t`.
proof fn lemma_identity_insert(cur: Seq<SNode>, oc: Seq<SNode>, nc: Seq<SNode>, t: int)
    requires
        identity_state(cur, oc, nc, t),
        t < nc.len(),
        t <= cur.len(),
    ensures
        identity_state(cur.insert(t, nc[t]), oc, nc, t + 1),
{
    let cur2 = cur.insert(t, nc[t]);
    assert forall|k: int| t + 1 <= k < cur2.len() implies occurs_from(#[trigger] cur2[k], oc, 0) by {
        assert(cur2[k] == cur[k - 1]);
    }
    assert forall|i: int| 0 <= i < oc.len() && (#[trigger] oc[i]).key is Some && key_from(nc, oc[i].key, t + 1)
        implies occurs_from(oc[i], cur2, t + 1) by {
        let m = choose|m: int| t + 1 <= m < nc.len() && (#[trigger] nc[m]).key == oc[i].key;
        assert(key_from(nc, oc[i].key, t));
        let k = choose|k: int| t <= k < cur.len() && cur[k] == oc[i];
        assert(cur2[k + 1] == oc[i]);
    }
}

/// The first phase keeps only old children, and every keyed old child
/// whose key the new list has.
proof fn lemma_removals_identity(p: Seq<usize>, cur: Seq<SNode>, oc: Seq<SNode>, nc: Seq<SNode>, i: int)
    requires
        0 <= i <= cur.len(),
        forall|k: int| 0 <= k < cur.len() ==> occurs_from(#[trigger] cur[k], oc, 0),
        forall|a: int| 0 <= a < oc.len() && (#[trigger] oc[a]).key is Some && crate::diff::has_key(nc, oc[a].key)
            ==> occurs_from(oc[a], cur, 0),
    ensures
        forall|k: int| 0 <= k < crate::diff::removals(p, cur, nc, i).1.len()
            ==> occurs_from(#[trigger] crate::diff::removals(p, cur, nc, i).1[k], oc, 0),
        forall|a: int| 0 <= a < oc.len() && (#[trigger] oc[a]).key is Some && crate::diff::has_key(nc, oc[a].key)
            ==> occurs_from(oc[a], crate::diff::removals(p, cur, nc, i).1, 0),
    decreases i,
{
    if i == 0 {
        assert(crate::diff::removals(p, cur, nc, i).1 == cur);
    } else {
        if crate::diff::keeps(cur, nc, i - 1) {
            lemma_removals_identity(p, cur, oc, nc, i - 1);
            assert(crate::diff::removals(p, cur, nc, i) == crate::diff::removals(p, cur, nc, i - 1));
        } else {
            let c2 = cur.remove(i - 1);
            assert forall|k: int| 0 <= k < c2.len() implies occurs_from(#[trigger] c2[k], oc, 0) by {
                let sk = if k < i - 1 { k } else { k + 1 };
                assert(c2[k] == cur[sk]);
            }
            assert forall|a: int| 0 <= a < oc.len() && (#[trigger] oc[a]).key is Some && crate::diff::has_key(nc, oc[a].key)
                implies occurs_from(oc[a], c2, 0) by {
                let k = choose|k: int| 0 <= k < cur.len() && cur[k] == oc[a];
                assert(k != i - 1);
                let k2 = if k < i - 1 { k } else { k - 1 };
                assert(c2[k2] == oc[a]);
            }
            lemma_removals_identity(p, c2, oc, nc, i - 1);
            assert(crate::diff::removals(p, cur, nc, i).1 == crate::diff::removals(p, c2, nc, i - 1).1);
        }
    }
}

/// A keyed child keeps its identity across renders. In the script for two
/// children lists in which no two siblings share a key, no patch puts into
/// the list, by replacing a child or by inserting one, a keyed node whose
/// key and kind tag an old child already has: that child is found again by
/// its key, wherever it stands and whatever its unkeyed siblings are, and
/// is moved and patched in place.
pub proof fn lemma_keyed_identity(p: Seq<usize>, oc: Seq<SNode>, nc: Seq<SNode>)
    requires
        keys_distinct(oc),
        keys_distinct(nc),
        nc.len() <= usize::MAX,
    ensures
        crate::diff::diff_children_model(p, oc, nc) is Some,
        forall|m: int| 0 <= m < crate::diff::diff_children_model(p, oc, nc).unwrap().len()
            ==> !installs_old_identity(#[trigger] crate::diff::diff_children_model(p, oc, nc).unwrap()[m], p, oc),
{
    lemma_children_total(p, oc, nc);
    let r = crate::diff::removals(p, oc, nc, oc.len() as int);
    assert forall|k: int| 0 <= k < oc.len() implies occurs_from(#[trigger] oc[k], oc, 0) by {}
    lemma_removals_identity(p, oc, oc, nc, oc.len() as int);
    lemma_removal_paths(p, oc, nc, oc.len() as int);
    assert forall|a: int| 0 <= a < oc.len() && (#[trigger] oc[a]).key is Some && key_from(nc, oc[a].key, 0)
        implies occurs_from(oc[a], r.1, 0) by {
        let m = choose|m: int| 0 <= m < nc.len() && (#[trigger] nc[m]).key == oc[a].key;
        assert(crate::diff::has_key(nc, oc[a].key));
    }
    lemma_walk_identity(p, r.1, oc, nc, 0);
    let w = crate::diff::walk_model(p, r.1, nc, 0).unwrap();
    let s = r.0 + w;
    assert forall|m: int| 0 <= m < s.len() implies !installs_old_identity(#[trigger] s[m], p, oc) by {
        if m < r.0.len() {
            assert(s[m] == r.0[m]);
        } else {
            assert(s[m] == w[m - r.0.len()]);
        }
    }
}

/// The same for the children of the root: where the root keeps its key and
/// kind tag, no patch of `diff` replaces a child of it by, or inserts, a
/// keyed node whose key and kind tag an old child already has.
pub proof fn lemma_keyed_identity_at_root(old: SNode, new: SNode)
    requires
        crate::diff::same_identity(old, new),
        keys_distinct(old.children),
        keys_distinct(new.children),
        new.children.len() <= usize::MAX,
    ensures
        crate::diff::diff_model(seq![], old, new) is Some,
        forall|m: int| 0 <= m < crate::diff::diff_model(seq![], old, new).unwrap().len()
            ==> !installs_old_identity(#[trigger] crate::diff::diff_model(seq![], old, new).unwrap()[m], seq![], old.children),
{
    let p = Seq::<usize>::empty();
    lemma_keyed_identity(p, old.children, new.children);
    lemma_facet_patches(p, old, new);
    let f = crate::diff::facet_patches(p, old, new);
    let c = crate::diff::diff_children_model(p, old.children, new.children).unwrap();
    let s = f + c;
    assert(crate::diff::diff_model(p, old, new) == Some(s));
    assert forall|m: int| 0 <= m < s.len() implies !installs_old_identity(#[trigger] s[m], p, old.children) by {
        if m < f.len() {
            assert(s[m] == f[m]);
        } else {
            assert(s[m] == c[m - f.len()]);
        }
    }
}

} // verus!
