use vstd::prelude::*;
use crate::attrs::{AttrError, NodeAttrs, interp, interpret_attrs};
use crate::tree::{DeclKind, DeclNode, DeclTree, LinkDecl};

verus! {

/// A tree-construction error, naming the offending node by its index.
pub enum BuildError {
    /// The attribute list of the node is not valid.
    Attribute(usize, AttrError),
    /// A visible group has no visible leaf, child group or link.
    EmptyGroup(usize),
    /// Two children of one group share a name.
    DuplicateName(usize, usize),
    /// Two nodes are marked `root`.
    MultipleRoots(usize, usize),
    /// A link that starts inside the tree does not reach a node of it.
    UnresolvedLocalLink(usize),
}

/// Where a link leads: a node of the tree, or something outside it, kept as an opaque command.
#[derive(PartialEq, Eq, Structural, Clone, Copy, Debug)]
pub enum Target {
    Node(usize),
    External,
}

pub open spec fn is_glob(n: DeclNode) -> bool {
    match n.kind {
        DeclKind::Link(l) => l.glob,
        _ => false,
    }
}

/// Node `i` is kept: it is visible, not skipped, and so is every group above it.
pub open spec fn included_spec(t: DeclTree, a: Seq<NodeAttrs>, i: int) -> bool
    decreases i,
{
    let n = t.nodes@[i];
    &&& n.visible
    &&& !a[i].skip
    &&& (i <= 0 || n.parent >= i || included_spec(t, a, n.parent as int))
}

pub open spec fn is_child(t: DeclTree, inc: Seq<bool>, p: int, i: int) -> bool {
    &&& 0 < i < t.nodes@.len()
    &&& t.nodes@[i].parent == p
    &&& inc[i]
}

/// Group `g` is kept but nothing under it is.
pub open spec fn is_empty_group(t: DeclTree, inc: Seq<bool>, g: int) -> bool {
    &&& 0 <= g < t.nodes@.len()
    &&& inc[g]
    &&& t.nodes@[g].kind is Group
    &&& forall|i: int| !is_child(t, inc, g, i)
}

/// Nodes `i < j` are kept children of one group under one name; glob links carry no name.
pub open spec fn is_dup_pair(t: DeclTree, inc: Seq<bool>, i: int, j: int) -> bool {
    &&& 0 < i < j < t.nodes@.len()
    &&& inc[i]
    &&& inc[j]
    &&& t.nodes@[i].parent == t.nodes@[j].parent
    &&& t.nodes@[i].name@ == t.nodes@[j].name@
    &&& !is_glob(t.nodes@[i])
    &&& !is_glob(t.nodes@[j])
}

pub open spec fn is_root_pair(inc: Seq<bool>, a: Seq<NodeAttrs>, i: int, j: int) -> bool {
    &&& 0 <= i < j < inc.len()
    &&& inc[i] && a[i].root
    &&& inc[j] && a[j].root
}

/// A kept group or leaf under `p` named `name`: a step of a link path.
pub open spec fn is_named_child(t: DeclTree, inc: Seq<bool>, p: int, name: Seq<char>, i: int) -> bool {
    &&& is_child(t, inc, p, i)
    &&& !(t.nodes@[i].kind is Link)
    &&& t.nodes@[i].name@ == name
}

pub open spec fn named_child(t: DeclTree, inc: Seq<bool>, p: int, name: Seq<char>) -> Option<int> {
    if exists|i: int| is_named_child(t, inc, p, name, i) {
        Some(choose|i: int| is_named_child(t, inc, p, name, i))
    } else {
        None
    }
}

/// Follows `path` from position `k` on, standing at node `cur`; `None` when a step inside the
/// tree finds nothing.
pub open spec fn walk(t: DeclTree, inc: Seq<bool>, cur: int, path: Seq<String>, k: int) -> Option<
    Target,
>
    decreases path.len() - k,
{
    if k >= path.len() || k < 0 {
        Some(Target::Node(cur as usize))
    } else {
        let seg = path[k]@;
        if seg == "self"@ {
            walk(t, inc, cur, path, k + 1)
        } else if seg == "super"@ {
            if cur <= 0 {
                Some(Target::External)
            } else {
                walk(t, inc, t.nodes@[cur].parent as int, path, k + 1)
            }
        } else if seg == "crate"@ {
            walk(t, inc, 0, path, k + 1)
        } else {
            match named_child(t, inc, cur, seg) {
                Some(c) => if t.nodes@[c].kind is Group || k + 1 == path.len() {
                    walk(t, inc, c, path, k + 1)
                } else {
                    None
                },
                None => if k == 0 {
                    Some(Target::External)
                } else {
                    None
                },
            }
        }
    }
}

/// The target of a link written in group `owner`; a glob must reach a group.
pub open spec fn resolve_spec(t: DeclTree, inc: Seq<bool>, owner: int, l: LinkDecl) -> Option<Target> {
    match walk(t, inc, owner, l.path@, 0) {
        Some(Target::Node(n)) => if l.glob && !(t.nodes@[n as int].kind is Group) {
            None
        } else {
            Some(Target::Node(n))
        },
        r => r,
    }
}

pub open spec fn unique_names(t: DeclTree, inc: Seq<bool>) -> bool {
    forall|i: int, j: int| !is_dup_pair(t, inc, i, j)
}

/// Interprets the attributes of every node; the first node whose list is bad decides the error.
pub fn interpret_all(t: &DeclTree, global_debug: bool) -> (r: Result<Vec<NodeAttrs>, BuildError>)
    ensures
        r matches Ok(a) ==> a@.len() == t.nodes@.len() && forall|i: int|
            0 <= i < a@.len() ==> interp(#[trigger] t.nodes@[i].attrs@, global_debug) == Ok::<
                NodeAttrs,
                AttrError,
            >(a@[i]),
        r matches Err(e) ==> e matches BuildError::Attribute(i, ae) && i < t.nodes@.len()
            && interp(t.nodes@[i as int].attrs@, global_debug) == Err::<NodeAttrs, AttrError>(ae)
            && forall|j: int| 0 <= j < i ==> #[trigger] interp(t.nodes@[j].attrs@, global_debug) is Ok,
        r is Err <==> exists|i: int|
            0 <= i < t.nodes@.len() && #[trigger] interp(t.nodes@[i].attrs@, global_debug) is Err,
{
    let mut out: Vec<NodeAttrs> = Vec::new();
    let mut i: usize = 0;
    while i < t.nodes.len()
        invariant
            0 <= i <= t.nodes@.len(),
            out@.len() == i,
            forall|j: int|
                0 <= j < i ==> interp(#[trigger] t.nodes@[j].attrs@, global_debug) == Ok::<
                    NodeAttrs,
                    AttrError,
                >(out@[j]),
        decreases t.nodes@.len() - i,
    {
        match interpret_attrs(&t.nodes[i].attrs, global_debug) {
            Ok(a) => {
                out.push(a);
            },
            Err(e) => {
                return Err(BuildError::Attribute(i, e));
            },
        }
        i = i + 1;
    }
    Ok(out)
}

/// Marks the nodes that are kept: visible, not skipped, under kept groups only.
pub fn compute_included(t: &DeclTree, a: &Vec<NodeAttrs>) -> (r: Vec<bool>)
    requires
        t.wf(),
        a@.len() == t.nodes@.len(),
    ensures
        r@.len() == t.nodes@.len(),
        forall|i: int| 0 <= i < r@.len() ==> r@[i] == included_spec(*t, a@, i),
{
    let mut r: Vec<bool> = Vec::new();
    let mut i: usize = 0;
    while i < t.nodes.len()
        invariant
            t.wf(),
            a@.len() == t.nodes@.len(),
            0 <= i <= t.nodes@.len(),
            r@.len() == i,
            forall|j: int| 0 <= j < i ==> r@[j] == included_spec(*t, a@, j),
        decreases t.nodes@.len() - i,
    {
        let n = &t.nodes[i];
        let up = if i == 0 {
            true
        } else {
            r[n.parent]
        };
        r.push(n.visible && !a[i].skip && up);
        i = i + 1;
    }
    r
}

/// The first kept group with nothing kept under it, if any.
pub fn find_empty_group(t: &DeclTree, inc: &Vec<bool>) -> (r: Option<usize>)
    requires
        t.wf(),
        inc@.len() == t.nodes@.len(),
    ensures
        r matches Some(g) ==> is_empty_group(*t, inc@, g as int) && forall|h: int|
            0 <= h < g ==> !is_empty_group(*t, inc@, h),
        r is None ==> forall|g: int| !is_empty_group(*t, inc@, g),
{
    let n = t.nodes.len();
    let mut has_child: Vec<bool> = Vec::new();
    let mut k: usize = 0;
    while k < n
        invariant
            n == t.nodes@.len(),
            0 <= k <= n,
            has_child@.len() == k,
            forall|j: int| 0 <= j < k ==> !has_child@[j],
        decreases n - k,
    {
        has_child.push(false);
        k = k + 1;
    }
    let mut i: usize = 1;
    while i < n
        invariant
            t.wf(),
            n == t.nodes@.len(),
            inc@.len() == n,
            1 <= i <= n,
            has_child@.len() == n,
            forall|p: int|
                0 <= p < n ==> (#[trigger] has_child@[p] <==> exists|c: int|
                    c < i && is_child(*t, inc@, p, c)),
        decreases n - i,
    {
        if inc[i] {
            let p = t.nodes[i].parent;
            has_child.set(p, true);
            assert forall|q: int| 0 <= q < n implies (#[trigger] has_child@[q] <==> exists|c: int|
                c < i + 1 && is_child(*t, inc@, q, c)) by {
                if q == p {
                    assert(is_child(*t, inc@, q, i as int));
                }
            }
        } else {
            assert forall|q: int| 0 <= q < n implies (#[trigger] has_child@[q] <==> exists|c: int|
                c < i + 1 && is_child(*t, inc@, q, c)) by {
                if has_child@[q] {
                    let c = choose|c: int| c < i && is_child(*t, inc@, q, c);
                    assert(c < i + 1 && is_child(*t, inc@, q, c));
                } else {
                    assert forall|c: int| c < i + 1 implies !is_child(*t, inc@, q, c) by {
                        if c == i {
                        } else {
                            assert(!(c < i && is_child(*t, inc@, q, c)));
                        }
                    }
                }
            }
        }
        i = i + 1;
    }
    let mut g: usize = 0;
    while g < n
        invariant
            t.wf(),
            n == t.nodes@.len(),
            inc@.len() == n,
            0 <= g <= n,
            has_child@.len() == n,
            forall|p: int|
                0 <= p < n ==> (#[trigger] has_child@[p] <==> exists|c: int|
                    c < n && is_child(*t, inc@, p, c)),
            forall|h: int| 0 <= h < g ==> !is_empty_group(*t, inc@, h),
        decreases n - g,
    {
        if inc[g] && matches!(t.nodes[g].kind, DeclKind::Group) && !has_child[g] {
            assert forall|c: int| !is_child(*t, inc@, g as int, c) by {
                if is_child(*t, inc@, g as int, c) {
                    assert(c < n);
                }
            }
            return Some(g);
        }
        assert(!is_empty_group(*t, inc@, g as int)) by {
            if inc@[g as int] && t.nodes@[g as int].kind is Group {
                let c = choose|c: int| c < n && is_child(*t, inc@, g as int, c);
                assert(is_child(*t, inc@, g as int, c));
            }
        }
        g = g + 1;
    }
    None
}

fn is_glob_node(n: &DeclNode) -> (r: bool)
    ensures
        r == is_glob(*n),
{
    match &n.kind {
        DeclKind::Link(l) => l.glob,
        _ => false,
    }
}

/// The first pair of kept siblings that share a name, ordered by the later one.
pub fn find_duplicate(t: &DeclTree, inc: &Vec<bool>) -> (r: Option<(usize, usize)>)
    requires
        inc@.len() == t.nodes@.len(),
    ensures
        r matches Some((i, j)) ==> is_dup_pair(*t, inc@, i as int, j as int),
        r is None ==> unique_names(*t, inc@),
{
    let n = t.nodes.len();
    let mut j: usize = 1;
    while j < n
        invariant
            n == t.nodes@.len(),
            inc@.len() == n,
            1 <= j <= n || n == 0,
            forall|a: int, b: int| b < j ==> !is_dup_pair(*t, inc@, a, b),
        decreases n - j,
    {
        let mut i: usize = 1;
        while i < j
            invariant
                n == t.nodes@.len(),
                inc@.len() == n,
                1 <= i <= j < n,
                forall|a: int, b: int| b < j ==> !is_dup_pair(*t, inc@, a, b),
                forall|a: int| a < i ==> !is_dup_pair(*t, inc@, a, j as int),
            decreases j - i,
        {
            let ni = &t.nodes[i];
            let nj = &t.nodes[j];
            if inc[i] && inc[j] && ni.parent == nj.parent && ni.name == nj.name && !is_glob_node(ni)
                && !is_glob_node(nj) {
                return Some((i, j));
            }
            i = i + 1;
        }
        j = j + 1;
    }
    None
}

/// Two kept nodes marked `root`, if there are two.
pub fn find_root_pair(inc: &Vec<bool>, a: &Vec<NodeAttrs>) -> (r: Option<(usize, usize)>)
    requires
        inc@.len() == a@.len(),
    ensures
        r matches Some((i, j)) ==> is_root_pair(inc@, a@, i as int, j as int),
        r is None ==> forall|i: int, j: int| !is_root_pair(inc@, a@, i, j),
{
    let mut first: Option<usize> = None;
    let mut j: usize = 0;
    while j < inc.len()
        invariant
            inc@.len() == a@.len(),
            0 <= j <= inc@.len(),
            first matches Some(f) ==> f < j && inc@[f as int] && a@[f as int].root,
            first is None ==> forall|k: int| 0 <= k < j ==> !(inc@[k] && a@[k].root),
            forall|x: int, y: int| y < j ==> !is_root_pair(inc@, a@, x, y),
        decreases inc@.len() - j,
    {
        if inc[j] && a[j].root {
            match first {
                Some(f) => {
                    return Some((f, j));
                },
                None => {
                    first = Some(j);
                },
            }
        }
        j = j + 1;
    }
    None
}

/// The kept group or leaf under `p` named `name`.
fn find_named_child(t: &DeclTree, inc: &Vec<bool>, p: usize, name: &String) -> (r: Option<usize>)
    requires
        inc@.len() == t.nodes@.len(),
        unique_names(*t, inc@),
    ensures
        r matches Some(c) ==> named_child(*t, inc@, p as int, name@) == Some(c as int) && c
            < t.nodes@.len(),
        r is None ==> named_child(*t, inc@, p as int, name@) is None,
{
    let mut i: usize = 1;
    while i < t.nodes.len()
        invariant
            inc@.len() == t.nodes@.len(),
            unique_names(*t, inc@),
            1 <= i,
            forall|c: int| c < i ==> !is_named_child(*t, inc@, p as int, name@, c),
        decreases t.nodes@.len() - i,
    {
        let n = &t.nodes[i];
        if inc[i] && n.parent == p && !matches!(n.kind, DeclKind::Link(_)) && n.name == *name {
            assert(is_named_child(*t, inc@, p as int, name@, i as int));
            let ghost c = choose|c: int| is_named_child(*t, inc@, p as int, name@, c);
            assert(is_named_child(*t, inc@, p as int, name@, c));
            assert(c == i) by {
                if c < i {
                } else if c > i {
                    assert(!is_glob(t.nodes@[i as int]));
                    assert(!is_glob(t.nodes@[c]));
                    assert(is_dup_pair(*t, inc@, i as int, c));
                }
            }
            return Some(i);
        }
        i = i + 1;
    }
    assert forall|c: int| !is_named_child(*t, inc@, p as int, name@, c) by {
        if c >= i {
        }
    }
    None
}

/// Resolves the link `l` written in group `owner`; `None` when it is a local path that leads
/// nowhere.
pub fn resolve_link(t: &DeclTree, inc: &Vec<bool>, owner: usize, l: &LinkDecl) -> (r: Option<Target>)
    requires
        t.wf(),
        inc@.len() == t.nodes@.len(),
        unique_names(*t, inc@),
        owner < t.nodes@.len(),
    ensures
        r == resolve_spec(*t, inc@, owner as int, *l),
        r matches Some(Target::Node(n)) ==> n < t.nodes@.len(),
{
    let self_kw = "self".to_owned();
    let super_kw = "super".to_owned();
    let crate_kw = "crate".to_owned();
    let mut cur: usize = owner;
    let mut k: usize = 0;
    while k < l.path.len()
        invariant
            t.wf(),
            inc@.len() == t.nodes@.len(),
            unique_names(*t, inc@),
            cur < t.nodes@.len(),
            0 <= k <= l.path@.len(),
            self_kw@ == "self"@,
            super_kw@ == "super"@,
            crate_kw@ == "crate"@,
            walk(*t, inc@, owner as int, l.path@, 0) == walk(*t, inc@, cur as int, l.path@, k as int),
        decreases l.path@.len() - k,
    {
        let seg = &l.path[k];
        if *seg == self_kw {
        } else if *seg == super_kw {
            if cur == 0 {
                return Some(Target::External);
            }
            cur = t.nodes[cur].parent;
        } else if *seg == crate_kw {
            cur = 0;
        } else {
            match find_named_child(t, inc, cur, seg) {
                Some(c) => {
                    if !matches!(t.nodes[c].kind, DeclKind::Group) && k + 1 != l.path.len() {
                        return None;
                    }
                    cur = c;
                },
                None => {
                    if k == 0 {
                        return Some(Target::External);
                    }
                    return None;
                },
            }
        }
        k = k + 1;
    }
    if l.glob && !matches!(t.nodes[cur].kind, DeclKind::Group) {
        return None;
    }
    Some(Target::Node(cur))
}

pub open spec fn attrs_ok(t: DeclTree, g: bool) -> bool {
    forall|i: int| 0 <= i < t.nodes@.len() ==> #[trigger] interp(t.nodes@[i].attrs@, g) is Ok
}

/// The interpreted attributes of every node (meaningful where they are valid).
pub open spec fn attrs_seq(t: DeclTree, g: bool) -> Seq<NodeAttrs> {
    Seq::new(
        t.nodes@.len(),
        |i: int|
            match interp(t.nodes@[i].attrs@, g) {
                Ok(a) => a,
                Err(_) => crate::attrs::no_attrs(),
            },
    )
}

pub open spec fn inc_seq(t: DeclTree, g: bool) -> Seq<bool> {
    Seq::new(t.nodes@.len(), |i: int| included_spec(t, attrs_seq(t, g), i))
}

pub open spec fn is_kept_link(t: DeclTree, inc: Seq<bool>, i: int) -> bool {
    0 <= i < t.nodes@.len() && inc[i] && t.nodes@[i].kind is Link
}

pub open spec fn link_target(t: DeclTree, inc: Seq<bool>, i: int) -> Option<Target> {
    resolve_spec(t, inc, t.nodes@[i].parent as int, t.nodes@[i].kind->Link_0)
}

pub open spec fn links_ok(t: DeclTree, inc: Seq<bool>) -> bool {
    forall|i: int| is_kept_link(t, inc, i) ==> (#[trigger] link_target(t, inc, i)) is Some
}

pub open spec fn targets_in_range(t: DeclTree, v: Seq<Option<Target>>) -> bool {
    forall|i: int|
        0 <= i < v.len() ==> ((#[trigger] v[i]) matches Some(Target::Node(n)) ==> n < t.nodes@.len())
}

/// The extracted namespace: the tree with its interpreted attributes, the kept nodes, and the
/// target of every kept link.
pub struct Namespace {
    pub tree: DeclTree,
    pub attrs: Vec<NodeAttrs>,
    pub included: Vec<bool>,
    pub targets: Vec<Option<Target>>,
    pub global_debug: bool,
}

impl Namespace {
    pub open spec fn wf(&self) -> bool {
        let t = self.tree;
        let inc = self.included@;
        &&& t.wf()
        &&& attrs_ok(t, self.global_debug)
        &&& self.attrs@ == attrs_seq(t, self.global_debug)
        &&& inc == inc_seq(t, self.global_debug)
        &&& forall|g: int| !is_empty_group(t, inc, g)
        &&& unique_names(t, inc)
        &&& forall|i: int, j: int| !is_root_pair(inc, self.attrs@, i, j)
        &&& links_ok(t, inc)
        &&& self.targets@.len() == t.nodes@.len()
        &&& targets_in_range(t, self.targets@)
        &&& forall|i: int|
            0 <= i < t.nodes@.len() ==> #[trigger] self.targets@[i] == if is_kept_link(t, inc, i) {
                link_target(t, inc, i)
            } else {
                None
            }
    }
}

/// Resolves every kept link; the first one that leads nowhere decides the error.
pub fn resolve_all(t: &DeclTree, inc: &Vec<bool>) -> (r: Result<Vec<Option<Target>>, usize>)
    requires
        t.wf(),
        inc@.len() == t.nodes@.len(),
        unique_names(*t, inc@),
    ensures
        r matches Ok(v) ==> v@.len() == t.nodes@.len() && links_ok(*t, inc@) && targets_in_range(
            *t,
            v@,
        ) && forall|i: int|
            0 <= i < t.nodes@.len() ==> #[trigger] v@[i] == if is_kept_link(*t, inc@, i) {
                link_target(*t, inc@, i)
            } else {
                None
            },
        r matches Err(i) ==> is_kept_link(*t, inc@, i as int) && link_target(*t, inc@, i as int)
            is None,
        r is Err <==> !links_ok(*t, inc@),
{
    let mut v: Vec<Option<Target>> = Vec::new();
    let mut i: usize = 0;
    while i < t.nodes.len()
        invariant
            t.wf(),
            inc@.len() == t.nodes@.len(),
            unique_names(*t, inc@),
            0 <= i <= t.nodes@.len(),
            v@.len() == i,
            targets_in_range(*t, v@),
            forall|j: int|
                0 <= j < i ==> #[trigger] v@[j] == if is_kept_link(*t, inc@, j) {
                    link_target(*t, inc@, j)
                } else {
                    None
                },
            forall|j: int| 0 <= j < i && is_kept_link(*t, inc@, j) ==> (#[trigger] link_target(*t, inc@, j)) is Some,
        decreases t.nodes@.len() - i,
    {
        let n = &t.nodes[i];
        match &n.kind {
            DeclKind::Link(l) => {
                if inc[i] {
                    assert(t.nodes@[n.parent as int].kind is Group);
                    match resolve_link(t, inc, n.parent, l) {
                        Some(target) => {
                            v.push(Some(target));
                        },
                        None => {
                            return Err(i);
                        },
                    }
                } else {
                    v.push(None);
                }
            },
            _ => {
                v.push(None);
            },
        }
        i = i + 1;
    }
    Ok(v)
}

/// The checks extraction makes all pass.
pub open spec fn build_ok(tree: DeclTree, g: bool) -> bool {
    &&& attrs_ok(tree, g)
    &&& forall|e: int| !is_empty_group(tree, inc_seq(tree, g), e)
    &&& unique_names(tree, inc_seq(tree, g))
    &&& forall|i: int, j: int| !is_root_pair(inc_seq(tree, g), attrs_seq(tree, g), i, j)
    &&& links_ok(tree, inc_seq(tree, g))
}

/// What each error says of the tree; the checks run in the order of the variants.
pub open spec fn error_ok(tree: DeclTree, g: bool, e: BuildError) -> bool {
    let inc = inc_seq(tree, g);
    match e {
        BuildError::Attribute(i, ae) => i < tree.nodes@.len() && interp(tree.nodes@[i as int].attrs@, g)
            == Err::<NodeAttrs, AttrError>(ae) && forall|j: int|
            0 <= j < i ==> #[trigger] interp(tree.nodes@[j].attrs@, g) is Ok,
        BuildError::EmptyGroup(x) => attrs_ok(tree, g) && is_empty_group(tree, inc, x as int),
        BuildError::DuplicateName(i, j) => attrs_ok(tree, g) && (forall|x: int|
            !is_empty_group(tree, inc, x)) && is_dup_pair(tree, inc, i as int, j as int),
        BuildError::MultipleRoots(i, j) => attrs_ok(tree, g) && (forall|x: int|
            !is_empty_group(tree, inc, x)) && unique_names(tree, inc) && is_root_pair(
            inc,
            attrs_seq(tree, g),
            i as int,
            j as int,
        ),
        BuildError::UnresolvedLocalLink(i) => attrs_ok(tree, g) && (forall|x: int|
            !is_empty_group(tree, inc, x)) && unique_names(tree, inc) && (forall|x: int, y: int|
            !is_root_pair(inc, attrs_seq(tree, g), x, y)) && is_kept_link(tree, inc, i as int)
            && link_target(tree, inc, i as int) is None,
    }
}

pub open spec fn extract_post(tree: DeclTree, g: bool, r: Result<Namespace, BuildError>) -> bool {
    &&& r is Ok <==> build_ok(tree, g)
    &&& r matches Ok(ns) ==> ns.tree == tree && ns.global_debug == g && ns.wf()
    &&& r matches Err(e) ==> error_ok(tree, g, e)
}

/// Builds the namespace of a declaration tree: interprets attributes, keeps the visible
/// unskipped nodes, and checks in turn for empty groups, duplicate names, several roots and
/// links that lead nowhere.
pub fn extract(tree: DeclTree, global_debug: bool) -> (r: Result<Namespace, BuildError>)
    requires
        tree.wf(),
    ensures
        extract_post(tree, global_debug, r),
{
    let attrs = match interpret_all(&tree, global_debug) {
        Ok(a) => a,
        Err(e) => {
            return Err(e);
        },
    };
    assert(attrs@ =~= attrs_seq(tree, global_debug));
    let included = compute_included(&tree, &attrs);
    assert(included@ =~= inc_seq(tree, global_debug));
    match find_empty_group(&tree, &included) {
        Some(g) => {
            return Err(BuildError::EmptyGroup(g));
        },
        None => {},
    }
    match find_duplicate(&tree, &included) {
        Some((i, j)) => {
            return Err(BuildError::DuplicateName(i, j));
        },
        None => {},
    }
    match find_root_pair(&included, &attrs) {
        Some((i, j)) => {
            return Err(BuildError::MultipleRoots(i, j));
        },
        None => {},
    }
    let targets = match resolve_all(&tree, &included) {
        Ok(v) => v,
        Err(i) => {
            return Err(BuildError::UnresolvedLocalLink(i));
        },
    };
    Ok(Namespace { tree, attrs, included, targets, global_debug })
}

} // verus!
