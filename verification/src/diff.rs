//! Keyed tree diffing: turn an old widget tree into a new one with a list of
//! [`Patch`]es, and [`apply`] such a list to a retained tree.
//!
//! A [`Path`] addresses a node by the child indices from the root. The patch
//! script is ordered so it can be applied sequentially to the retained tree.

use vstd::prelude::*;
use crate::facet::{DeepValue, Facet};
use crate::node::{EventMap, Node, NodeKind, SNode};
use crate::style::Style;
use crate::animation::{Animation, Transition};

verus! {

/// A path from the root to a node: the child index at each level.
pub type Path = Vec<usize>;

/// A single mutation of the retained tree.
#[derive(Debug, Clone, PartialEq)]
pub enum Patch {
    /// Replace the whole subtree at `path` (kind or key changed).
    Replace { path: Path, node: Box<Node> },
    /// Replace the kind-specific props of the node at `path` (same tag).
    Props { path: Path, kind: Box<NodeKind> },
    /// Replace the style block of the node at `path`.
    Style { path: Path, style: Box<Style> },
    /// Replace the event bindings of the node at `path`.
    Events { path: Path, events: EventMap },
    /// Replace the animation list of the node at `path`.
    Animations { path: Path, animations: Vec<Animation> },
    /// Replace the transition of the node at `path`.
    Transition { path: Path, transition: Option<Transition> },
    /// Insert `node` as child `index` of the node at `path`.
    Insert { path: Path, index: usize, node: Box<Node> },
    /// Remove child `index` of the node at `path`.
    Remove { path: Path, index: usize },
    /// Move child `from` to `index` within the node at `path`.
    Move { path: Path, from: usize, index: usize },
}

/// The model of a patch.
pub enum SPatch {
    Replace { path: Seq<usize>, node: SNode },
    Props { path: Seq<usize>, kind: DeepValue },
    Style { path: Seq<usize>, style: DeepValue },
    Events { path: Seq<usize>, events: DeepValue },
    Animations { path: Seq<usize>, animations: DeepValue },
    Transition { path: Seq<usize>, transition: DeepValue },
    Insert { path: Seq<usize>, index: nat, node: SNode },
    Remove { path: Seq<usize>, index: nat },
    Move { path: Seq<usize>, from: nat, index: nat },
}

impl Patch {
    /// The model of a patch.
    #[verifier::opaque]
    pub open spec fn model(p: Patch) -> SPatch {
        match p {
            Patch::Replace { path, node } => SPatch::Replace { path: path@, node: Node::model(*node) },
            Patch::Props { path, kind } => SPatch::Props { path: path@, kind: kind.deep() },
            Patch::Style { path, style } => SPatch::Style { path: path@, style: style.deep() },
            Patch::Events { path, events } => SPatch::Events { path: path@, events: events.deep() },
            Patch::Animations { path, animations } => SPatch::Animations { path: path@, animations: animations.deep() },
            Patch::Transition { path, transition } => SPatch::Transition { path: path@, transition: transition.deep() },
            Patch::Insert { path, index, node } => SPatch::Insert { path: path@, index: index as nat, node: Node::model(*node) },
            Patch::Remove { path, index } => SPatch::Remove { path: path@, index: index as nat },
            Patch::Move { path, from, index } => SPatch::Move { path: path@, from: from as nat, index: index as nat },
        }
    }

    /// The models of a list of patches.
    pub open spec fn models(s: Seq<Patch>) -> Seq<SPatch> {
        Seq::new(s.len(), |i: int| Patch::model(s[i]))
    }
}

// ---------------------------------------------------------------------------
// The differ, as a specification.
// ---------------------------------------------------------------------------

/// Two nodes are the same widget: same key and same kind tag.
pub open spec fn same_identity(a: SNode, b: SNode) -> bool {
    a.key == b.key && crate::node::deep_tag(a.kind) == crate::node::deep_tag(b.kind)
}

/// The patches that update the facets of a node in place, in the order
/// kind, style, events, animations, transition; a facet that is `==` to
/// its new value gets none.
pub open spec fn facet_patches(p: Seq<usize>, old: SNode, new: SNode) -> Seq<SPatch> {
    (if crate::facet::deep_eq(old.kind, new.kind) { seq![] } else { seq![SPatch::Props { path: p, kind: new.kind }] })
    + (if crate::facet::deep_eq(old.style, new.style) { seq![] } else { seq![SPatch::Style { path: p, style: new.style }] })
    + (if crate::facet::deep_eq(old.events, new.events) { seq![] } else { seq![SPatch::Events { path: p, events: new.events }] })
    + (if crate::facet::deep_eq(old.animations, new.animations) { seq![] } else {
        seq![SPatch::Animations { path: p, animations: new.animations }] })
    + (if crate::facet::deep_eq(old.transition, new.transition) { seq![] } else {
        seq![SPatch::Transition { path: p, transition: new.transition }] })
}

/// Some node of the list has the key.
pub open spec fn has_key(s: Seq<SNode>, k: Option<Seq<char>>) -> bool {
    exists|i: int| 0 <= i < s.len() && (#[trigger] s[i]).key == k
}

/// The first position at or after `j` whose node has the key.
pub open spec fn first_key(s: Seq<SNode>, k: Option<Seq<char>>, j: int) -> Option<int>
    decreases s.len() - j,
{
    if j < 0 || j >= s.len() {
        None
    } else if s[j].key == k {
        Some(j)
    } else {
        first_key(s, k, j + 1)
    }
}

/// How many nodes of the list have no key.
pub open spec fn unkeyed_count(s: Seq<SNode>) -> nat
    decreases s.len(),
{
    if s.len() == 0 {
        0
    } else {
        unkeyed_count(s.drop_last()) + (if s.last().key is None { 1nat } else { 0nat })
    }
}

/// Whether the first phase keeps child `i` of `cur`: a keyed child whose
/// key occurs in the new list, or an unkeyed child with fewer unkeyed
/// children before it than the new list has.
pub open spec fn keeps(cur: Seq<SNode>, new: Seq<SNode>, i: int) -> bool {
    match cur[i].key {
        Some(_) => has_key(new, cur[i].key),
        None => unkeyed_count(cur.subrange(0, i)) < unkeyed_count(new),
    }
}

/// The differ's first phase on a children list: remove (scanning from the
/// back, below position `i`) the children that `keeps` drops. Returns the
/// patches and the remaining list.
pub open spec fn removals(p: Seq<usize>, cur: Seq<SNode>, new: Seq<SNode>, i: int) -> (Seq<SPatch>, Seq<SNode>)
    decreases i,
{
    if i <= 0 || i > cur.len() {
        (seq![], cur)
    } else if keeps(cur, new, i - 1) {
        removals(p, cur, new, i - 1)
    } else {
        let r = removals(p, cur.remove(i - 1), new, i - 1);
        (seq![SPatch::Remove { path: p, index: (i - 1) as nat }] + r.0, r.1)
    }
}

/// Concatenate two optional patch lists.
pub open spec fn join(a: Option<Seq<SPatch>>, b: Option<Seq<SPatch>>) -> Option<Seq<SPatch>> {
    match (a, b) {
        (Some(x), Some(y)) => Some(x + y),
        _ => None,
    }
}

/// The patch script that turns `old` into `new` at path `p`: a node of
/// another key or kind tag is replaced whole; otherwise its differing
/// facets are set and its children lists are reconciled. The result is
/// always `Some` (`lemma_diff_total`); `None` marks an insert past the end
/// of the working list, which the walk never reaches.
pub open spec fn diff_model(p: Seq<usize>, old: SNode, new: SNode) -> Option<Seq<SPatch>>
    decreases new, 0nat,
{
    if !same_identity(old, new) {
        Some(seq![SPatch::Replace { path: p, node: new }])
    } else {
        join(Some(facet_patches(p, old, new)), diff_children_model(p, old.children, new.children))
    }
}

/// Some node of the list has a key.
pub open spec fn has_keys(s: Seq<SNode>) -> bool {
    exists|i: int| 0 <= i < s.len() && (#[trigger] s[i]).key is Some
}

/// No key occurs twice among the list's keyed nodes.
pub open spec fn keys_distinct(s: Seq<SNode>) -> bool {
    forall|i: int, j: int| 0 <= i < j < s.len() && (#[trigger] s[i]).key is Some
        ==> s[i].key != (#[trigger] s[j]).key
}

/// Whether the differ pairs two children lists by key: some child of
/// either list has a key, and no key occurs twice in either list.
pub open spec fn keyed_lists(old: Seq<SNode>, new: Seq<SNode>) -> bool {
    (has_keys(old) || has_keys(new)) && keys_distinct(old) && keys_distinct(new)
}

/// The patches for the children lists. Where `keyed_lists` holds: drop the
/// children that `keeps` rejects, then walk the new order; a keyed child is
/// found again by its key, wherever it stands and whatever its siblings
/// are, and an unkeyed child is paired with the next unkeyed one. Otherwise
/// (no keys at all, or a key that repeats) the children are paired by
/// position.
pub open spec fn diff_children_model(p: Seq<usize>, old: Seq<SNode>, new: Seq<SNode>) -> Option<Seq<SPatch>>
    decreases new, new.len() + 2,
{
    if keyed_lists(old, new) {
        let r = removals(p, old, new, old.len() as int);
        join(Some(r.0), walk_model(p, r.1, new, 0))
    } else {
        join(positional_model(p, old, new, 0), Some(positional_tail(p, old, new)))
    }
}

/// The positional differ's common prefix, from position `i`.
pub open spec fn positional_model(p: Seq<usize>, old: Seq<SNode>, new: Seq<SNode>, i: int) -> Option<Seq<SPatch>>
    decreases new, (new.len() + 1 - i) as nat,
{
    if i < 0 || i >= old.len() || i >= new.len() {
        Some(seq![])
    } else {
        join(diff_model(p.push(i as usize), old[i], new[i]), positional_model(p, old, new, i + 1))
    }
}

/// The positional differ's tail: append the new children past the common
/// prefix, or remove the old ones past it from the back.
pub open spec fn positional_tail(p: Seq<usize>, old: Seq<SNode>, new: Seq<SNode>) -> Seq<SPatch> {
    if new.len() > old.len() {
        Seq::new((new.len() - old.len()) as nat, |k: int|
            SPatch::Insert { path: p, index: (old.len() + k) as nat, node: new[old.len() + k] })
    } else {
        Seq::new((old.len() - new.len()) as nat, |k: int|
            SPatch::Remove { path: p, index: (old.len() - 1 - k) as nat })
    }
}

/// Where a move of the child at `from` to `index` leaves it in a list of
/// `len` children.
pub open spec fn move_dest(len: int, index: int) -> int {
    if index <= len - 1 {
        index
    } else {
        len - 1
    }
}

/// The differ's second phase: walk the target order from position `t`.
/// `cur` is the working copy of the children list, which carries the new
/// children before `t`. The new child at `t` is paired with the first child
/// at or after `t` that has its key (for an unkeyed child: the next unkeyed
/// one). Found at `t`, it is diffed in place. Found just after `t`, the
/// child at `t` is out of place: it is moved forward to where the new list
/// wants it, which brings the pair to `t`. Found further on, the pair is
/// moved back to `t`. Not found, the new child is inserted at `t`.
pub open spec fn walk_model(p: Seq<usize>, cur: Seq<SNode>, new: Seq<SNode>, t: int) -> Option<Seq<SPatch>>
    decreases new, (new.len() + 1 - t) as nat,
{
    if t < 0 || t >= new.len() {
        Some(seq![])
    } else {
        match first_key(cur, new[t].key, t) {
            Some(j) => if j == t {
                join(diff_model(p.push(t as usize), cur[t], new[t]), walk_model(p, cur, new, t + 1))
            } else if j == t + 1 && first_key(new, cur[t].key, t + 1) is Some {
                let q = first_key(new, cur[t].key, t + 1).unwrap();
                let c1 = cur.remove(t).insert(move_dest(cur.len() as int, q), cur[t]);
                join(Some(seq![SPatch::Move { path: p, from: t as nat, index: q as nat }]),
                    join(diff_model(p.push(t as usize), c1[t], new[t]), walk_model(p, c1.update(t, new[t]), new, t + 1)))
            } else {
                let moved = cur[j];
                let c1 = cur.remove(j).insert(t, moved);
                join(Some(seq![SPatch::Move { path: p, from: j as nat, index: t as nat }]),
                    join(diff_model(p.push(t as usize), moved, new[t]), walk_model(p, c1.update(t, new[t]), new, t + 1)))
            },
            None => if t > cur.len() {
                None
            } else {
                join(Some(seq![SPatch::Insert { path: p, index: t as nat, node: new[t] }]),
                    walk_model(p, cur.insert(t, new[t]), new, t + 1))
            },
        }
    }
}

// ---------------------------------------------------------------------------
// Applying patches, as a specification.
// ---------------------------------------------------------------------------

/// Why a patch could not be applied.
pub enum ApplyError {
    /// A path index past the children of the node it indexes.
    PathIndex(nat),
    /// An insert past the end of the children list.
    InsertIndex,
    /// A remove of a child that does not exist.
    RemoveIndex,
    /// A move of a child that does not exist.
    MoveSource,
}

/// The message of an apply error.
pub open spec fn error_text(e: ApplyError) -> Seq<char> {
    match e {
        ApplyError::PathIndex(i) => "path index "@ + decimal(i) + " out of bounds"@,
        ApplyError::InsertIndex => "insert index out of bounds"@,
        ApplyError::RemoveIndex => "remove index out of bounds"@,
        ApplyError::MoveSource => "move source out of bounds"@,
    }
}

/// The decimal digit character of `d < 10`.
pub open spec fn digit_char(d: nat) -> char {
    if d == 0 { '0' } else if d == 1 { '1' } else if d == 2 { '2' } else if d == 3 { '3' }
    else if d == 4 { '4' } else if d == 5 { '5' } else if d == 6 { '6' } else if d == 7 { '7' }
    else if d == 8 { '8' } else { '9' }
}

/// The decimal representation of a number, without leading zeros.
pub open spec fn decimal(n: nat) -> Seq<char>
    decreases n,
{
    if n < 10 {
        seq![digit_char(n)]
    } else {
        decimal(n / 10).push(digit_char(n % 10))
    }
}

/// The path a patch addresses.
pub open spec fn patch_path(p: SPatch) -> Seq<usize> {
    match p {
        SPatch::Replace { path, .. } => path,
        SPatch::Props { path, .. } => path,
        SPatch::Style { path, .. } => path,
        SPatch::Events { path, .. } => path,
        SPatch::Animations { path, .. } => path,
        SPatch::Transition { path, .. } => path,
        SPatch::Insert { path, .. } => path,
        SPatch::Remove { path, .. } => path,
        SPatch::Move { path, .. } => path,
    }
}

/// A node with its children replaced.
pub open spec fn with_children(t: SNode, c: Seq<SNode>) -> SNode {
    SNode { children: c, ..t }
}

/// The effect of a patch on the node its path addresses.
pub open spec fn apply_here(t: SNode, p: SPatch) -> Result<SNode, ApplyError> {
    match p {
        SPatch::Replace { node, .. } => Ok(node),
        SPatch::Props { kind, .. } => Ok(SNode { kind, ..t }),
        SPatch::Style { style, .. } => Ok(SNode { style, ..t }),
        SPatch::Events { events, .. } => Ok(SNode { events, ..t }),
        SPatch::Animations { animations, .. } => Ok(SNode { animations, ..t }),
        SPatch::Transition { transition, .. } => Ok(SNode { transition, ..t }),
        SPatch::Insert { index, node, .. } => if index > t.children.len() {
            Err(ApplyError::InsertIndex)
        } else {
            Ok(with_children(t, t.children.insert(index as int, node)))
        },
        SPatch::Remove { index, .. } => if index >= t.children.len() {
            Err(ApplyError::RemoveIndex)
        } else {
            Ok(with_children(t, t.children.remove(index as int)))
        },
        SPatch::Move { from, index, .. } => if from >= t.children.len() {
            Err(ApplyError::MoveSource)
        } else {
            let rest = t.children.remove(from as int);
            let dest = if index <= rest.len() { index as int } else { rest.len() as int };
            Ok(with_children(t, rest.insert(dest, t.children[from as int])))
        },
    }
}

/// Apply a patch to the node that `path` addresses below `t`.
pub open spec fn apply_at(t: SNode, path: Seq<usize>, p: SPatch) -> Result<SNode, ApplyError>
    decreases path.len(),
{
    if path.len() == 0 {
        apply_here(t, p)
    } else if path[0] >= t.children.len() {
        Err(ApplyError::PathIndex(path[0] as nat))
    } else {
        match apply_at(t.children[path[0] as int], path.drop_first(), p) {
            Ok(c) => Ok(with_children(t, t.children.update(path[0] as int, c))),
            Err(e) => Err(e),
        }
    }
}

/// Apply a patch script in order; stop at the first patch that fails,
/// keeping the effect of those before it.
pub open spec fn apply_model(t: SNode, ps: Seq<SPatch>) -> (SNode, Option<ApplyError>)
    decreases ps.len(),
{
    if ps.len() == 0 {
        (t, None)
    } else {
        match apply_at(t, patch_path(ps[0]), ps[0]) {
            Ok(t2) => apply_model(t2, ps.drop_first()),
            Err(e) => (t, Some(e)),
        }
    }
}


// ---------------------------------------------------------------------------
// The differ.
// ---------------------------------------------------------------------------

/// The tag a kind's deep value records is the kind's position.
proof fn lemma_deep_tag(k: NodeKind)
    ensures
        crate::node::deep_tag(k.deep()) == k.variant(),
{
}

/// The patch that replaces the node at `path` by a copy of `node`.
fn replace_patch(path: &Vec<usize>, node: &Node) -> (r: Patch)
    ensures
        Patch::model(r) == (SPatch::Replace { path: path@, node: node@ }),
{
    proof {
        reveal(Patch::model);
    }
    Patch::Replace { path: copy_path(path), node: Box::new(Node::copy_node(node)) }
}

/// The patch that sets the kind of the node at `path`.
fn props_patch(path: &Vec<usize>, kind: &NodeKind) -> (r: Patch)
    ensures
        Patch::model(r) == (SPatch::Props { path: path@, kind: kind.deep() }),
{
    proof {
        reveal(Patch::model);
    }
    Patch::Props { path: copy_path(path), kind: Box::new(kind.duplicate()) }
}

/// The patch that sets the style of the node at `path`.
fn style_patch(path: &Vec<usize>, style: &Style) -> (r: Patch)
    ensures
        Patch::model(r) == (SPatch::Style { path: path@, style: style.deep() }),
{
    proof {
        reveal(Patch::model);
    }
    Patch::Style { path: copy_path(path), style: Box::new(style.duplicate()) }
}

/// The patch that sets the event bindings of the node at `path`.
fn events_patch(path: &Vec<usize>, events: &EventMap) -> (r: Patch)
    ensures
        Patch::model(r) == (SPatch::Events { path: path@, events: events.deep() }),
{
    proof {
        reveal(Patch::model);
    }
    Patch::Events { path: copy_path(path), events: events.duplicate() }
}

/// The patch that sets the animations of the node at `path`.
fn animations_patch(path: &Vec<usize>, animations: &Vec<Animation>) -> (r: Patch)
    ensures
        Patch::model(r) == (SPatch::Animations { path: path@, animations: animations.deep() }),
{
    proof {
        reveal(Patch::model);
    }
    Patch::Animations { path: copy_path(path), animations: animations.duplicate() }
}

/// The patch that sets the transition of the node at `path`.
fn transition_patch(path: &Vec<usize>, transition: &Option<Transition>) -> (r: Patch)
    ensures
        Patch::model(r) == (SPatch::Transition { path: path@, transition: transition.deep() }),
{
    proof {
        reveal(Patch::model);
    }
    Patch::Transition { path: copy_path(path), transition: transition.duplicate() }
}

/// The patch that inserts a copy of `node` as child `index` of the node at
/// `path`.
fn insert_patch(path: &Vec<usize>, index: usize, node: &Node) -> (r: Patch)
    ensures
        Patch::model(r) == (SPatch::Insert { path: path@, index: index as nat, node: node@ }),
{
    proof {
        reveal(Patch::model);
    }
    Patch::Insert { path: copy_path(path), index, node: Box::new(Node::copy_node(node)) }
}

/// The patch that removes child `index` of the node at `path`.
fn remove_patch(path: &Vec<usize>, index: usize) -> (r: Patch)
    ensures
        Patch::model(r) == (SPatch::Remove { path: path@, index: index as nat }),
{
    proof {
        reveal(Patch::model);
    }
    Patch::Remove { path: copy_path(path), index }
}

/// The patch that moves child `from` to `index` in the node at `path`.
fn move_patch(path: &Vec<usize>, from: usize, index: usize) -> (r: Patch)
    ensures
        Patch::model(r) == (SPatch::Move { path: path@, from: from as nat, index: index as nat }),
{
    proof {
        reveal(Patch::model);
    }
    Patch::Move { path: copy_path(path), from, index }
}

/// A copy of a path.
fn copy_path(path: &Vec<usize>) -> (r: Vec<usize>)
    ensures
        r@ == path@,
{
    let mut r: Vec<usize> = Vec::new();
    let mut i: usize = 0;
    while i < path.len()
        invariant
            i <= path@.len(),
            r@ == path@.subrange(0, i as int),
        decreases path@.len() - i,
    {
        r.push(path[i]);
        i += 1;
        proof {
            assert(r@ =~= path@.subrange(0, i as int));
        }
    }
    assert(path@.subrange(0, path@.len() as int) =~= path@);
    r
}

/// The path of child `i` of the node at `path`.
fn child_path(path: &Vec<usize>, i: usize) -> (r: Vec<usize>)
    ensures
        r@ == path@.push(i),
{
    let mut r = copy_path(path);
    r.push(i);
    r
}

/// Whether two optional keys are equal.
fn keys_equal(a: &Option<String>, b: &Option<String>) -> (r: bool)
    ensures
        r == (crate::node::key_model(*a) == crate::node::key_model(*b)),
{
    match (a, b) {
        (Some(x), Some(y)) => *x == *y,
        (None, None) => true,
        _ => false,
    }
}

/// Whether two nodes have the same key and kind tag.
fn node_same_identity(a: &Node, b: &Node) -> (r: bool)
    ensures
        r == same_identity(a@, b@),
{
    proof {
        lemma_deep_tag(a.kind);
        lemma_deep_tag(b.kind);
        Node::lemma_model(*a);
        Node::lemma_model(*b);
    }
    keys_equal(&a.key, &b.key) && a.kind.kind_index() == b.kind.kind_index()
}

/// How many of the first `n` nodes of the list have no key.
fn count_unkeyed(s: &Vec<Node>, n: usize) -> (r: usize)
    requires
        n <= s@.len(),
    ensures
        r == unkeyed_count(Node::models(s@).subrange(0, n as int)),
{
    proof {
        Node::lemma_models(s@);
    }
    let ghost ms = Node::models(s@);
    let mut i: usize = 0;
    let mut r: usize = 0;
    assert(ms.subrange(0, 0) =~= Seq::<SNode>::empty());
    while i < n
        invariant
            i <= n <= s@.len(),
            ms == Node::models(s@),
            ms.len() == s@.len(),
            forall|m: int| 0 <= m < s@.len() ==> (#[trigger] ms[m]).key == crate::node::key_model(s@[m].key),
            r <= i,
            r == unkeyed_count(ms.subrange(0, i as int)),
        decreases n - i,
    {
        assert(ms.subrange(0, i as int + 1).drop_last() =~= ms.subrange(0, i as int));
        assert(ms.subrange(0, i as int + 1).last() == ms[i as int]);
        if s[i].key.is_none() {
            r += 1;
        }
        i += 1;
    }
    r
}

/// Whether some node of the list has the key.
fn list_has_key(s: &Vec<Node>, key: &Option<String>) -> (b: bool)
    ensures
        b == has_key(Node::models(s@), crate::node::key_model(*key)),
{
    proof {
        Node::lemma_models(s@);
    }
    let mut i: usize = 0;
    while i < s.len()
        invariant
            i <= s@.len(),
            forall|k: int| 0 <= k < i ==> (#[trigger] Node::models(s@)[k]).key != crate::node::key_model(*key),
        decreases s@.len() - i,
    {
        proof {
            Node::lemma_models(s@);
        }
        if keys_equal(&s[i].key, key) {
            assert(Node::models(s@)[i as int].key == crate::node::key_model(*key));
            return true;
        }
        i += 1;
    }
    false
}

/// The first position at or after `from` whose node has the key.
fn key_position(s: &Vec<Node>, key: &Option<String>, from: usize) -> (r: Option<usize>)
    ensures
        match r {
            Some(j) => first_key(Node::models(s@), crate::node::key_model(*key), from as int) == Some(j as int),
            None => first_key(Node::models(s@), crate::node::key_model(*key), from as int) is None,
        },
{
    proof {
        Node::lemma_models(s@);
    }
    let ghost ms = Node::models(s@);
    let ghost k = crate::node::key_model(*key);
    let mut i: usize = from;
    if i > s.len() {
        return None;
    }
    while i < s.len()
        invariant
            from <= i <= s@.len(),
            ms == Node::models(s@),
            k == crate::node::key_model(*key),
            ms.len() == s@.len(),
            forall|m: int| 0 <= m < s@.len() ==> (#[trigger] ms[m]).key == crate::node::key_model(s@[m].key),
            first_key(ms, k, from as int) == first_key(ms, k, i as int),
        decreases s@.len() - i,
    {
        let same = keys_equal(&s[i].key, key);
        assert(ms[i as int].key == crate::node::key_model(s@[i as int].key));
        if same {
            assert(ms[i as int].key == k);
            assert(first_key(ms, k, i as int) == Some(i as int));
            return Some(i);
        }
        assert(first_key(ms, k, i as int) == first_key(ms, k, i as int + 1));
        i += 1;
    }
    None
}

/// The differ on a node at `path`.
fn diff_node(path: &Vec<usize>, old: &Node, new: &Node) -> (r: Option<Vec<Patch>>)
    ensures
        match r {
            Some(v) => diff_model(path@, old@, new@) == Some(Patch::models(v@)),
            None => diff_model(path@, old@, new@) is None,
        },
    decreases new, 3nat,
{
    proof {
        Node::lemma_model(*old);
        Node::lemma_model(*new);
    }
    let mut out: Vec<Patch> = Vec::new();
    if !node_same_identity(old, new) {
        out.push(replace_patch(path, new));
        proof {
            assert(Patch::models(out@) =~= seq![SPatch::Replace { path: path@, node: new@ }]);
        }
        return Some(out);
    }
    let ghost p = path@;
    let ghost o = old@;
    let ghost n = new@;
    let ghost f1: Seq<SPatch> = if crate::facet::deep_eq(o.kind, n.kind) { seq![] } else { seq![SPatch::Props { path: p, kind: n.kind }] };
    let ghost f2: Seq<SPatch> = if crate::facet::deep_eq(o.style, n.style) { seq![] } else { seq![SPatch::Style { path: p, style: n.style }] };
    let ghost f3: Seq<SPatch> = if crate::facet::deep_eq(o.events, n.events) { seq![] } else { seq![SPatch::Events { path: p, events: n.events }] };
    let ghost f4: Seq<SPatch> = if crate::facet::deep_eq(o.animations, n.animations) { seq![] } else {
        seq![SPatch::Animations { path: p, animations: n.animations }] };
    let ghost f5: Seq<SPatch> = if crate::facet::deep_eq(o.transition, n.transition) { seq![] } else {
        seq![SPatch::Transition { path: p, transition: n.transition }] };
    if !old.kind.equals(&new.kind) {
        out.push(props_patch(path, &new.kind));
    }
    assert(Patch::models(out@) =~= f1);
    if !old.style.equals(&new.style) {
        out.push(style_patch(path, &new.style));
    }
    assert(Patch::models(out@) =~= f1 + f2);
    if !old.events.equals(&new.events) {
        out.push(events_patch(path, &new.events));
    }
    assert(Patch::models(out@) =~= f1 + f2 + f3);
    if !old.animations.equals(&new.animations) {
        out.push(animations_patch(path, &new.animations));
    }
    assert(Patch::models(out@) =~= f1 + f2 + f3 + f4);
    if !old.transition.equals(&new.transition) {
        out.push(transition_patch(path, &new.transition));
    }
    assert(Patch::models(out@) =~= f1 + f2 + f3 + f4 + f5);
    match diff_children(path, &old.children, &new.children) {
        Some(v) => {
            let mut v = v;
            let ghost before = out@;
            let ghost added = v@;
            out.append(&mut v);
            proof {
                assert(Patch::models(out@) =~= Patch::models(before) + Patch::models(added));
            }
            Some(out)
        },
        None => None,
    }
}

/// The differ on two children lists of the node at `path`.
fn diff_children(path: &Vec<usize>, old: &Vec<Node>, new: &Vec<Node>) -> (r: Option<Vec<Patch>>)
    ensures
        match r {
            Some(v) => diff_children_model(path@, Node::models(old@), Node::models(new@)) == Some(Patch::models(v@)),
            None => diff_children_model(path@, Node::models(old@), Node::models(new@)) is None,
        },
    decreases new, 2nat,
{
    if any_keyed(old) || any_keyed(new) {
        if keys_unique(old) && keys_unique(new) {
            return diff_children_keyed(path, old, new);
        }
    }
    diff_children_positional(path, old, new)
}

fn diff_children_positional(path: &Vec<usize>, old: &Vec<Node>, new: &Vec<Node>) -> (r: Option<Vec<Patch>>)
    ensures
        match r {
            Some(v) => join(positional_model(path@, Node::models(old@), Node::models(new@), 0),
                Some(positional_tail(path@, Node::models(old@), Node::models(new@)))) == Some(Patch::models(v@)),
            None => positional_model(path@, Node::models(old@), Node::models(new@), 0) is None,
        },
    decreases new, 1nat,
{
    let ghost p = path@;
    let ghost om = Node::models(old@);
    let ghost nm = Node::models(new@);
    proof {
        Node::lemma_models(old@);
        Node::lemma_models(new@);
    }
    let common = if old.len() < new.len() { old.len() } else { new.len() };
    let mut out: Vec<Patch> = Vec::new();
    let mut i: usize = 0;
    while i < common
        invariant
            i <= common,
            common == old@.len() || common == new@.len(),
            common <= old@.len(),
            common <= new@.len(),
            p == path@,
            om == Node::models(old@),
            nm == Node::models(new@),
            om.len() == old@.len(),
            nm.len() == new@.len(),
            forall|k: int| 0 <= k < old@.len() ==> #[trigger] om[k] == Node::model(old@[k]),
            forall|k: int| 0 <= k < new@.len() ==> #[trigger] nm[k] == Node::model(new@[k]),
            join(Some(Patch::models(out@)), positional_model(p, om, nm, i as int)) == positional_model(p, om, nm, 0),
        decreases common - i,
    {
        let cp = child_path(path, i);
        proof {
            assert(decreases_to!(*new => new@[i as int]));
        }
        match diff_node(&cp, &old[i], &new[i]) {
            Some(v) => {
                let mut v = v;
                let ghost before = out@;
                let ghost added = v@;
                out.append(&mut v);
                proof {
                    assert(Patch::models(out@) =~= Patch::models(before) + Patch::models(added));
                    let rest = positional_model(p, om, nm, i + 1);
                    if rest is Some {
                        assert(Patch::models(before) + (Patch::models(added) + rest.unwrap())
                            =~= Patch::models(out@) + rest.unwrap());
                    }
                }
            },
            None => {
                return None;
            },
        }
        i += 1;
    }
    let ghost head = Patch::models(out@);
    assert(positional_model(p, om, nm, 0) == Some(head));
    if new.len() > old.len() {
        let mut k: usize = old.len();
        while k < new.len()
            invariant
                old@.len() <= k <= new@.len(),
                p == path@,
                nm == Node::models(new@),
                nm.len() == new@.len(),
                om.len() == old@.len(),
                forall|m: int| 0 <= m < new@.len() ==> #[trigger] nm[m] == Node::model(new@[m]),
                Patch::models(out@) == head + Seq::new((k - old@.len()) as nat, |m: int|
                    SPatch::Insert { path: p, index: (om.len() + m) as nat, node: nm[om.len() + m] }),
            decreases new@.len() - k,
        {
            let ghost before = Patch::models(out@);
            let ip = insert_patch(path, k, &new[k]);
            out.push(ip);
            proof {
                let f = |m: int| SPatch::Insert { path: p, index: (om.len() + m) as nat, node: nm[om.len() + m] };
                assert(Patch::models(out@) =~= before.push(Patch::model(ip)));
                assert(f((k - old@.len()) as int) == Patch::model(ip));
                assert(Seq::new((k + 1 - old@.len()) as nat, f) =~= Seq::new((k - old@.len()) as nat, f).push(f((k - old@.len()) as int)));
                assert(Patch::models(out@) =~= head + Seq::new((k + 1 - old@.len()) as nat, f));
            }
            k += 1;
        }
        proof {
            assert(Patch::models(out@) =~= head + positional_tail(p, om, nm));
        }
    } else {
        let mut k: usize = 0;
        while k < old.len() - new.len()
            invariant
                new@.len() <= old@.len(),
                k <= old@.len() - new@.len(),
                p == path@,
                om.len() == old@.len(),
                nm.len() == new@.len(),
                Patch::models(out@) == head + Seq::new(k as nat, |m: int|
                    SPatch::Remove { path: p, index: (om.len() - 1 - m) as nat }),
            decreases old@.len() - new@.len() - k,
        {
            let ghost before = Patch::models(out@);
            let rp = remove_patch(path, old.len() - 1 - k);
            out.push(rp);
            proof {
                let f = |m: int| SPatch::Remove { path: p, index: (om.len() - 1 - m) as nat };
                assert(Patch::models(out@) =~= before.push(Patch::model(rp)));
                assert(f(k as int) == Patch::model(rp));
                assert(Seq::new((k + 1) as nat, f) =~= Seq::new(k as nat, f).push(f(k as int)));
                assert(Patch::models(out@) =~= head + Seq::new((k + 1) as nat, f));
            }
            k += 1;
        }
        proof {
            assert(Patch::models(out@) =~= head + positional_tail(p, om, nm));
        }
    }
    Some(out)
}

/// Whether some node of the list has a key.
fn any_keyed(s: &Vec<Node>) -> (b: bool)
    ensures
        b == has_keys(Node::models(s@)),
{
    proof {
        Node::lemma_models(s@);
    }
    let mut i: usize = 0;
    while i < s.len()
        invariant
            i <= s@.len(),
            Node::models(s@).len() == s@.len(),
            forall|m: int| 0 <= m < s@.len() ==> (#[trigger] Node::models(s@)[m]).key == crate::node::key_model(s@[m].key),
            forall|k: int| 0 <= k < i ==> (#[trigger] Node::models(s@)[k]).key is None,
        decreases s@.len() - i,
    {
        if s[i].key.is_some() {
            assert(Node::models(s@)[i as int].key is Some);
            return true;
        }
        i += 1;
    }
    false
}

/// Whether no key occurs twice among the list's keyed nodes.
fn keys_unique(s: &Vec<Node>) -> (b: bool)
    ensures
        b == keys_distinct(Node::models(s@)),
{
    proof {
        Node::lemma_models(s@);
    }
    let ghost ms = Node::models(s@);
    let mut i: usize = 0;
    while i < s.len()
        invariant
            i <= s@.len(),
            ms == Node::models(s@),
            ms.len() == s@.len(),
            forall|m: int| 0 <= m < s@.len() ==> (#[trigger] ms[m]).key == crate::node::key_model(s@[m].key),
            forall|a: int, b: int| 0 <= a < i && a < b < ms.len() && (#[trigger] ms[a]).key is Some
                ==> ms[a].key != (#[trigger] ms[b]).key,
        decreases s@.len() - i,
    {
        if s[i].key.is_some() {
            let mut j: usize = i + 1;
            while j < s.len()
                invariant
                    i < s@.len(),
                    i + 1 <= j <= s@.len(),
                    ms == Node::models(s@),
                    ms.len() == s@.len(),
                    forall|m: int| 0 <= m < s@.len() ==> (#[trigger] ms[m]).key == crate::node::key_model(s@[m].key),
                    forall|a: int, b: int| 0 <= a < i && a < b < ms.len() && (#[trigger] ms[a]).key is Some
                        ==> ms[a].key != (#[trigger] ms[b]).key,
                    ms[i as int].key is Some,
                    forall|b: int| i < b < j ==> ms[i as int].key != (#[trigger] ms[b]).key,
                decreases s@.len() - j,
            {
                if keys_equal(&s[i].key, &s[j].key) {
                    assert(ms[i as int].key == ms[j as int].key);
                    return false;
                }
                j += 1;
            }
        }
        assert forall|a: int, b: int| 0 <= a < i + 1 && a < b < ms.len() && (#[trigger] ms[a]).key is Some
            implies ms[a].key != (#[trigger] ms[b]).key by {
            if a == i {
                assert(ms[i as int].key is Some);
            }
        }
        i += 1;
    }
    true
}

/// Children reconciliation, keyed where the children carry keys. A working
/// copy `cur` of the child list evolves in lockstep with the emitted patches, so every index a `Move`, `Insert` or
/// `Remove` references is valid when it is applied.
#[verifier::rlimit(100)]
fn diff_children_keyed(path: &Vec<usize>, old: &Vec<Node>, new: &Vec<Node>) -> (r: Option<Vec<Patch>>)
    ensures
        match r {
            Some(v) => join(Some(removals(path@, Node::models(old@), Node::models(new@), old@.len() as int).0),
                walk_model(path@, removals(path@, Node::models(old@), Node::models(new@), old@.len() as int).1,
                    Node::models(new@), 0)) == Some(Patch::models(v@)),
            None => walk_model(path@, removals(path@, Node::models(old@), Node::models(new@), old@.len() as int).1,
                Node::models(new@), 0) is None,
        },
    decreases new, 1nat,
{
    let ghost p = path@;
    let ghost om = Node::models(old@);
    let ghost nm = Node::models(new@);
    proof {
        Node::lemma_models(old@);
        Node::lemma_models(new@);
    }
    let ghost rm = removals(p, om, nm, om.len() as int);
    let mut cur = Node::copy_children(old);
    let mut out: Vec<Patch> = Vec::new();
    // 1. Remove, from the back, the old children whose key the new list
    //    lacks and the unkeyed ones past the new list's count of them.
    let new_unkeyed = count_unkeyed(new, new.len());
    assert(nm.subrange(0, nm.len() as int) =~= nm);
    let mut i: usize = cur.len();
    assert(Patch::models(out@) + rm.0 =~= rm.0);
    while i > 0
        invariant
            i <= cur@.len(),
            p == path@,
            nm == Node::models(new@),
            om == Node::models(old@),
            rm == removals(p, om, nm, om.len() as int),
            rm == (Patch::models(out@) + removals(p, Node::models(cur@), nm, i as int).0,
                removals(p, Node::models(cur@), nm, i as int).1),
            new_unkeyed == unkeyed_count(nm),
        decreases i,
    {
        i -= 1;
        proof {
            Node::lemma_models(cur@);
        }
        let keep = match &cur[i].key {
            Some(_) => list_has_key(new, &cur[i].key),
            None => count_unkeyed(&cur, i) < new_unkeyed,
        };
        assert(keep == keeps(Node::models(cur@), nm, i as int));
        if !keep {
            let ghost before = Patch::models(out@);
            let ghost cm = Node::models(cur@);
            out.push(remove_patch(path, i));
            cur.remove(i);
            proof {
                assert(Node::models(cur@) =~= cm.remove(i as int));
                let r2 = removals(p, cm.remove(i as int), nm, i as int);
                assert(Patch::models(out@) + r2.0 =~= before + (seq![SPatch::Remove { path: p, index: i as nat }] + r2.0));
            }
        }
    }
    let ghost total = join(Some(rm.0), walk_model(p, rm.1, nm, 0));
    assert(Patch::models(out@) == rm.0);
    assert(Node::models(cur@) == rm.1);
    // 2. Walk the target order, inserting, moving or recursing.
    let mut t: usize = 0;
    while t < new.len()
        invariant
            t <= new@.len(),
            p == path@,
            nm == Node::models(new@),
            nm.len() == new@.len(),
            forall|m: int| 0 <= m < new@.len() ==> #[trigger] nm[m] == Node::model(new@[m]),
            om == Node::models(old@),
            rm == removals(p, om, nm, om.len() as int),
            total == join(Some(rm.0), walk_model(p, rm.1, nm, 0)),
            join(Some(Patch::models(out@)), walk_model(p, Node::models(cur@), nm, t as int)) == total,
        decreases new@.len() - t,
    {
        proof {
            Node::lemma_models(cur@);
            Node::lemma_models(new@);
            assert(decreases_to!(*new => new@[t as int]));
        }
        let ghost cm = Node::models(cur@);
        let ghost before = Patch::models(out@);
        let found = key_position(&cur, &new[t].key, t);
        match found {
            Some(j) => {
                proof {
                    crate::roundtrip::lemma_first_key(cm, nm[t as int].key, t as int);
                }
                let ahead = if j == t + 1 { key_position(new, &cur[t].key, t + 1) } else { None };
                proof {
                    if j == t + 1 {
                        assert(cm[t as int].key == crate::node::key_model(cur@[t as int].key));
                        crate::roundtrip::lemma_first_key(nm, cm[t as int].key, t + 1);
                    }
                }
                if j == t {
                    let cp = child_path(path, t);
                    match diff_node(&cp, &cur[t], &new[t]) {
                        Some(v) => {
                            let mut v = v;
                            let ghost added = v@;
                            out.append(&mut v);
                            proof {
                                assert(Patch::models(out@) =~= before + Patch::models(added));
                                let rest = walk_model(p, cm, nm, t + 1);
                                if rest is Some {
                                    assert(before + (Patch::models(added) + rest.unwrap())
                                        =~= Patch::models(out@) + rest.unwrap());
                                }
                            }
                        },
                        None => {
                            return None;
                        },
                    }
                } else if ahead.is_some() {
                    let q = ahead.unwrap();
                    out.push(move_patch(path, t, q));
                    let moved = cur.remove(t);
                    let d = if q <= cur.len() { q } else { cur.len() };
                    cur.insert(d, moved);
                    let ghost c1 = Node::models(cur@);
                    proof {
                        assert(c1 =~= cm.remove(t as int).insert(move_dest(cm.len() as int, q as int), cm[t as int]));
                        Node::lemma_models(cur@);
                    }
                    let cp = child_path(path, t);
                    match diff_node(&cp, &cur[t], &new[t]) {
                        Some(v) => {
                            let mut v = v;
                            let ghost mid = Patch::models(out@);
                            let ghost added = v@;
                            out.append(&mut v);
                            cur.set(t, Node::copy_node(&new[t]));
                            proof {
                                assert(Node::models(cur@) =~= c1.update(t as int, nm[t as int]));
                                assert(Patch::models(out@) =~= mid + Patch::models(added));
                                let mv = SPatch::Move { path: p, from: t as nat, index: q as nat };
                                assert(mid =~= before + seq![mv]);
                                let rest = walk_model(p, c1.update(t as int, nm[t as int]), nm, t + 1);
                                if rest is Some {
                                    assert(before + (seq![mv] + (Patch::models(added) + rest.unwrap()))
                                        =~= Patch::models(out@) + rest.unwrap());
                                }
                            }
                        },
                        None => {
                            return None;
                        },
                    }
                } else {
                    out.push(move_patch(path, j, t));
                    let moved = cur.remove(j);
                    cur.insert(t, moved);
                    let ghost c1 = Node::models(cur@);
                    proof {
                        assert(c1 =~= cm.remove(j as int).insert(t as int, cm[j as int]));
                        Node::lemma_models(cur@);
                    }
                    let cp = child_path(path, t);
                    match diff_node(&cp, &cur[t], &new[t]) {
                        Some(v) => {
                            let mut v = v;
                            let ghost mid = Patch::models(out@);
                            let ghost added = v@;
                            out.append(&mut v);
                            cur.set(t, Node::copy_node(&new[t]));
                            proof {
                                assert(Node::models(cur@) =~= c1.update(t as int, nm[t as int]));
                                assert(Patch::models(out@) =~= mid + Patch::models(added));
                                let mv = SPatch::Move { path: p, from: j as nat, index: t as nat };
                                assert(mid =~= before + seq![mv]);
                                let rest = walk_model(p, c1.update(t as int, nm[t as int]), nm, t + 1);
                                if rest is Some {
                                    assert(before + (seq![mv] + (Patch::models(added) + rest.unwrap()))
                                        =~= Patch::models(out@) + rest.unwrap());
                                }
                            }
                        },
                        None => {
                            return None;
                        },
                    }
                }
            },
            None => {
                if t > cur.len() {
                    return None;
                }
                out.push(insert_patch(path, t, &new[t]));
                cur.insert(t, Node::copy_node(&new[t]));
                proof {
                    assert(Node::models(cur@) =~= cm.insert(t as int, nm[t as int]));
                    let ins = SPatch::Insert { path: p, index: t as nat, node: nm[t as int] };
                    assert(Patch::models(out@) =~= before + seq![ins]);
                    let rest = walk_model(p, cm.insert(t as int, nm[t as int]), nm, t + 1);
                    if rest is Some {
                        assert(before + (seq![ins] + rest.unwrap()) =~= Patch::models(out@) + rest.unwrap());
                    }
                }
            },
        }
        t += 1;
    }
    Some(out)
}

/// Diff two trees rooted at `old` and `new`: the patch script that turns
/// `old` into `new`.
pub fn diff(old: &Node, new: &Node) -> (r: Vec<Patch>)
    ensures
        diff_model(seq![], old@, new@) == Some(Patch::models(r@)),
{
    proof {
        crate::roundtrip::lemma_diff_total(seq![], old@, new@);
    }
    let root: Vec<usize> = Vec::new();
    assert(root@ =~= Seq::<usize>::empty());
    match diff_node(&root, old, new) {
        Some(v) => v,
        None => Vec::new(),
    }
}

// ---------------------------------------------------------------------------
// Application: mutate a retained tree by a patch script.
// ---------------------------------------------------------------------------

/// The text of a decimal digit.
fn digit_text(d: usize) -> (r: &'static str)
    requires
        d < 10,
    ensures
        r@ == seq![digit_char(d as nat)],
{
    proof {
        reveal_strlit("0");
        reveal_strlit("1");
        reveal_strlit("2");
        reveal_strlit("3");
        reveal_strlit("4");
        reveal_strlit("5");
        reveal_strlit("6");
        reveal_strlit("7");
        reveal_strlit("8");
        reveal_strlit("9");
    }
    if d == 0 { "0" } else if d == 1 { "1" } else if d == 2 { "2" } else if d == 3 { "3" }
    else if d == 4 { "4" } else if d == 5 { "5" } else if d == 6 { "6" } else if d == 7 { "7" }
    else if d == 8 { "8" } else { "9" }
}

/// Append the decimal representation of `n`.
fn push_decimal(s: &mut String, n: usize)
    ensures
        final(s)@ == old(s)@ + decimal(n as nat),
    decreases n,
{
    if n >= 10 {
        push_decimal(s, n / 10);
    }
    s.append(digit_text(n % 10));
    proof {
        if n >= 10 {
            assert(decimal(n as nat) == decimal((n / 10) as nat).push(digit_char((n % 10) as nat)));
        }
    }
}

/// The message of a path index past the children it indexes.
fn path_error(idx: usize) -> (r: String)
    ensures
        r@ == error_text(ApplyError::PathIndex(idx as nat)),
{
    proof {
        reveal_strlit("path index ");
        reveal_strlit(" out of bounds");
    }
    let mut s = String::from_str("path index ");
    push_decimal(&mut s, idx);
    s.append(" out of bounds");
    s
}

/// The message of an apply error without an index.
fn plain_error(e: u8) -> (r: String)
    requires
        e < 3,
    ensures
        e == 0 ==> r@ == error_text(ApplyError::InsertIndex),
        e == 1 ==> r@ == error_text(ApplyError::RemoveIndex),
        e == 2 ==> r@ == error_text(ApplyError::MoveSource),
{
    proof {
        reveal_strlit("insert index out of bounds");
        reveal_strlit("remove index out of bounds");
        reveal_strlit("move source out of bounds");
    }
    if e == 0 {
        String::from_str("insert index out of bounds")
    } else if e == 1 {
        String::from_str("remove index out of bounds")
    } else {
        String::from_str("move source out of bounds")
    }
}

/// Apply a patch to the node it addresses.
fn apply_here_exec(node: &mut Node, patch: &Patch) -> (r: Result<(), String>)
    ensures
        match apply_here(old(node)@, Patch::model(*patch)) {
            Ok(x) => r is Ok && final(node)@ == x,
            Err(e) => r matches Err(m) && m@ == error_text(e) && final(node)@ == old(node)@,
        },
{
    proof {
        reveal(Patch::model);
        Node::lemma_model(*node);
    }
    let ghost c0 = Node::models(node.children@);
    match patch {
        Patch::Replace { node: n, .. } => {
            *node = Node::copy_node(n);
            Ok(())
        },
        Patch::Props { kind, .. } => {
            node.kind = kind.duplicate();
            proof {
                Node::lemma_model(*node);
            }
            Ok(())
        },
        Patch::Style { style, .. } => {
            node.style = style.duplicate();
            proof {
                Node::lemma_model(*node);
            }
            Ok(())
        },
        Patch::Events { events, .. } => {
            node.events = events.duplicate();
            proof {
                Node::lemma_model(*node);
            }
            Ok(())
        },
        Patch::Animations { animations, .. } => {
            node.animations = animations.duplicate();
            proof {
                Node::lemma_model(*node);
            }
            Ok(())
        },
        Patch::Transition { transition, .. } => {
            node.transition = transition.duplicate();
            proof {
                Node::lemma_model(*node);
            }
            Ok(())
        },
        Patch::Insert { index, node: n, .. } => {
            if *index > node.children.len() {
                return Err(plain_error(0));
            }
            let copy = Node::copy_node(n);
            node.children.insert(*index, copy);
            proof {
                Node::lemma_model(*node);
                assert(Node::models(node.children@) =~= c0.insert(*index as int, copy@));
            }
            Ok(())
        },
        Patch::Remove { index, .. } => {
            if *index >= node.children.len() {
                return Err(plain_error(1));
            }
            node.children.remove(*index);
            proof {
                Node::lemma_model(*node);
                assert(Node::models(node.children@) =~= c0.remove(*index as int));
            }
            Ok(())
        },
        Patch::Move { from, index, .. } => {
            if *from >= node.children.len() {
                return Err(plain_error(2));
            }
            let moved = node.children.remove(*from);
            let dest = if *index < node.children.len() { *index } else { node.children.len() };
            node.children.insert(dest, moved);
            proof {
                Node::lemma_model(*node);
                assert(Node::models(node.children@) =~= c0.remove(*from as int).insert(dest as int, c0[*from as int]));
            }
            Ok(())
        },
    }
}

/// Apply a patch to the node that `path`, from position `d` on, leads to
/// below `node`.
fn apply_at_exec(node: &mut Node, path: &Vec<usize>, d: usize, patch: &Patch) -> (r: Result<(), String>)
    requires
        d <= path@.len(),
    ensures
        match apply_at(old(node)@, path@.skip(d as int), Patch::model(*patch)) {
            Ok(x) => r is Ok && final(node)@ == x,
            Err(e) => r matches Err(m) && m@ == error_text(e) && final(node)@ == old(node)@,
        },
    decreases path@.len() - d,
{
    if d == path.len() {
        assert(path@.skip(d as int) =~= Seq::<usize>::empty());
        return apply_here_exec(node, patch);
    }
    proof {
        Node::lemma_model(*node);
        assert(path@.skip(d as int)[0] == path@[d as int]);
        assert(path@.skip(d as int).drop_first() =~= path@.skip(d + 1));
    }
    let idx = path[d];
    if idx >= node.children.len() {
        return Err(path_error(idx));
    }
    let ghost c0 = Node::models(node.children@);
    let mut child = node.children.remove(idx);
    let r = apply_at_exec(&mut child, path, d + 1, patch);
    node.children.insert(idx, child);
    proof {
        Node::lemma_model(*node);
        assert(Node::models(node.children@) =~= c0.update(idx as int, child@));
        if r is Err {
            assert(c0.update(idx as int, child@) =~= c0);
        }
    }
    r
}

/// The path a patch addresses.
fn patch_path_of(patch: &Patch) -> (r: &Vec<usize>)
    ensures
        r@ == patch_path(Patch::model(*patch)),
{
    proof {
        reveal(Patch::model);
    }
    match patch {
        Patch::Replace { path, .. } => path,
        Patch::Props { path, .. } => path,
        Patch::Style { path, .. } => path,
        Patch::Events { path, .. } => path,
        Patch::Animations { path, .. } => path,
        Patch::Transition { path, .. } => path,
        Patch::Insert { path, .. } => path,
        Patch::Remove { path, .. } => path,
        Patch::Move { path, .. } => path,
    }
}

/// Apply one patch to the tree rooted at `root`.
fn apply_one(root: &mut Node, patch: &Patch) -> (r: Result<(), String>)
    ensures
        match apply_at(old(root)@, patch_path(Patch::model(*patch)), Patch::model(*patch)) {
            Ok(x) => r is Ok && final(root)@ == x,
            Err(e) => r matches Err(m) && m@ == error_text(e) && final(root)@ == old(root)@,
        },
{
    let path = patch_path_of(patch);
    assert(path@.skip(0) =~= path@);
    apply_at_exec(root, path, 0, patch)
}

/// Apply a patch script to `root` in place, in order. At the first patch
/// whose path or index is out of bounds, stop with its error message; the
/// patches before it stay applied.
pub fn apply(root: &mut Node, patches: &[Patch]) -> (r: Result<(), String>)
    ensures
        final(root)@ == apply_model(old(root)@, Patch::models(patches@)).0,
        match r {
            Ok(_) => apply_model(old(root)@, Patch::models(patches@)).1 is None,
            Err(m) => apply_model(old(root)@, Patch::models(patches@)).1 matches Some(e) && m@ == error_text(e),
        },
{
    let ghost ms = Patch::models(patches@);
    let ghost total = apply_model(root@, ms);
    let mut i: usize = 0;
    assert(ms.skip(0) =~= ms);
    while i < patches.len()
        invariant
            i <= patches@.len(),
            ms == Patch::models(patches@),
            ms.len() == patches@.len(),
            total == apply_model(old(root)@, ms),
            total == apply_model(root@, ms.skip(i as int)),
        decreases patches@.len() - i,
    {
        proof {
            assert(ms.skip(i as int)[0] == Patch::model(patches@[i as int]));
            assert(ms.skip(i as int).drop_first() =~= ms.skip(i + 1));
        }
        match apply_one(root, &patches[i]) {
            Ok(()) => {},
            Err(m) => {
                return Err(m);
            },
        }
        i += 1;
    }
    assert(ms.skip(i as int) =~= Seq::<SPatch>::empty());
    Ok(())
}

} // verus!
