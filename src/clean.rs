use vstd::prelude::*;
use crate::tree::{DeclKind, DeclNode, DeclTree};

verus! {

/// Which host annotations a cleaning step removes.
#[derive(PartialEq, Eq, Structural, Clone, Copy, Debug)]
pub enum MarkerRule {
    /// On a group: `command`, `subcommands`, `external_subcommands`.
    Module,
    /// On a leaf operation: `command`, `default`.
    Leaf,
    /// On a link: `command`.
    Link,
    /// On a parameter: `arg`.
    Param,
    /// On a skipped item: `skip` alone.
    Skip,
}

pub open spec fn dropped(rule: MarkerRule, m: Seq<char>) -> bool {
    match rule {
        MarkerRule::Module => m == "command"@ || m == "subcommands"@ || m == "external_subcommands"@,
        MarkerRule::Leaf => m == "command"@ || m == "default"@,
        MarkerRule::Link => m == "command"@,
        MarkerRule::Param => m == "arg"@,
        MarkerRule::Skip => m == "skip"@,
    }
}

pub open spec fn retained(ms: Seq<String>, rule: MarkerRule) -> Seq<String> {
    ms.filter(|m: String| !dropped(rule, m@))
}

pub open spec fn has_marker(ms: Seq<String>, m: Seq<char>) -> bool {
    exists|j: int| 0 <= j < ms.len() && (#[trigger] ms[j])@ == m
}

pub open spec fn skip_marked(n: DeclNode) -> bool {
    has_marker(n.markers@, "skip"@)
}

/// Cleaning reaches node `i`: every group between it and the top is not marked `skip`.
pub open spec fn reached(t: DeclTree, i: int) -> bool
    decreases i,
{
    if i <= 0 {
        true
    } else if t.nodes@[i].parent >= i {
        false
    } else {
        let p = t.nodes@[i].parent as int;
        reached(t, p) && (p == 0 || !skip_marked(t.nodes@[p]))
    }
}

/// The rule applied to the annotations of node `i`, if any.
pub open spec fn node_rule(t: DeclTree, i: int) -> Option<MarkerRule> {
    let n = t.nodes@[i];
    if i == 0 {
        Some(MarkerRule::Module)
    } else if !reached(t, i) {
        None
    } else if skip_marked(n) {
        Some(MarkerRule::Skip)
    } else {
        match n.kind {
            DeclKind::Group => Some(MarkerRule::Module),
            DeclKind::Leaf => Some(MarkerRule::Leaf),
            DeclKind::Link(_) => Some(MarkerRule::Link),
        }
    }
}

pub open spec fn cleaned_node(t: DeclTree, i: int) -> Seq<String> {
    match node_rule(t, i) {
        None => t.nodes@[i].markers@,
        Some(r) => retained(t.nodes@[i].markers@, r),
    }
}

pub open spec fn params_cleaned(t: DeclTree, i: int) -> bool {
    &&& i > 0
    &&& reached(t, i)
    &&& !skip_marked(t.nodes@[i])
    &&& t.nodes@[i].kind is Leaf
}

pub open spec fn cleaned_param(t: DeclTree, i: int, j: int) -> Seq<String> {
    let ms = t.nodes@[i].params@[j].markers@;
    if params_cleaned(t, i) {
        retained(ms, MarkerRule::Param)
    } else {
        ms
    }
}

fn is_dropped(rule: MarkerRule, m: &String) -> (r: bool)
    ensures
        r == dropped(rule, m@),
{
    let command = "command".to_owned();
    match rule {
        MarkerRule::Module => *m == command || *m == "subcommands".to_owned() || *m
            == "external_subcommands".to_owned(),
        MarkerRule::Leaf => *m == command || *m == "default".to_owned(),
        MarkerRule::Link => *m == command,
        MarkerRule::Param => *m == "arg".to_owned(),
        MarkerRule::Skip => *m == "skip".to_owned(),
    }
}

/// Keeps the annotations that `rule` does not remove, in order.
pub fn retain_markers(ms: &Vec<String>, rule: MarkerRule) -> (r: Vec<String>)
    ensures
        r@ == retained(ms@, rule),
{
    let mut r: Vec<String> = Vec::new();
    let mut i: usize = 0;
    while i < ms.len()
        invariant
            0 <= i <= ms@.len(),
            r@ == retained(ms@.subrange(0, i as int), rule),
        decreases ms@.len() - i,
    {
        let ghost pred = |m: String| !dropped(rule, m@);
        assert(ms@.subrange(0, i + 1).drop_last() =~= ms@.subrange(0, i as int));
        reveal(Seq::filter);
        if !is_dropped(rule, &ms[i]) {
            r.push(ms[i].clone());
        }
        i = i + 1;
    }
    assert(ms@.subrange(0, i as int) =~= ms@);
    r
}

fn has_marker_exec(ms: &Vec<String>, m: &String) -> (r: bool)
    ensures
        r == has_marker(ms@, m@),
{
    let mut i: usize = 0;
    while i < ms.len()
        invariant
            0 <= i <= ms@.len(),
            forall|j: int| 0 <= j < i ==> (#[trigger] ms@[j])@ != m@,
        decreases ms@.len() - i,
    {
        if ms[i] == *m {
            return true;
        }
        i = i + 1;
    }
    false
}

/// Removes the group-level command annotations.
pub fn clean_module_attributes(ms: &Vec<String>) -> (r: Vec<String>)
    ensures
        r@ == retained(ms@, MarkerRule::Module),
{
    retain_markers(ms, MarkerRule::Module)
}

/// The annotations of all parameters of a node, each list with `rule` applied or left as is.
fn clean_params(node: &DeclNode, apply: bool) -> (r: Vec<Vec<String>>)
    ensures
        r@.len() == node.params@.len(),
        forall|j: int|
            0 <= j < r@.len() ==> (#[trigger] r@[j])@ == if apply {
                retained(node.params@[j].markers@, MarkerRule::Param)
            } else {
                node.params@[j].markers@
            },
{
    let mut r: Vec<Vec<String>> = Vec::new();
    let mut j: usize = 0;
    while j < node.params.len()
        invariant
            0 <= j <= node.params@.len(),
            r@.len() == j,
            forall|k: int|
                0 <= k < j ==> (#[trigger] r@[k])@ == if apply {
                    retained(node.params@[k].markers@, MarkerRule::Param)
                } else {
                    node.params@[k].markers@
                },
        decreases node.params@.len() - j,
    {
        let ms = &node.params[j].markers;
        if apply {
            r.push(retain_markers(ms, MarkerRule::Param));
        } else {
            let mut copy: Vec<String> = Vec::new();
            let mut k: usize = 0;
            while k < ms.len()
                invariant
                    0 <= k <= ms@.len(),
                    copy@ == ms@.subrange(0, k as int),
                decreases ms@.len() - k,
            {
                copy.push(ms[k].clone());
                k = k + 1;
                assert(copy@ =~= ms@.subrange(0, k as int));
            }
            assert(ms@.subrange(0, k as int) =~= ms@);
            r.push(copy);
        }
        j = j + 1;
    }
    r
}

/// The annotations of one item and of its parameters once cleaned; `reached_here` says whether
/// cleaning gets to the item at all.
pub fn clean_item_attributes(t: &DeclTree, i: usize, reached_here: bool) -> (r: (
    Vec<String>,
    Vec<Vec<String>>,
))
    requires
        t.wf(),
        0 < i < t.nodes@.len(),
        reached_here == reached(*t, i as int),
    ensures
        r.0@ == cleaned_node(*t, i as int),
        r.1@.len() == t.nodes@[i as int].params@.len(),
        forall|j: int| 0 <= j < r.1@.len() ==> (#[trigger] r.1@[j])@ == cleaned_param(*t, i as int, j),
{
    let node = &t.nodes[i];
    let skip = "skip".to_owned();
    if !reached_here {
        let same = clean_params(node, false);
        let mut copy: Vec<String> = Vec::new();
        let mut k: usize = 0;
        while k < node.markers.len()
            invariant
                0 <= k <= node.markers@.len(),
                copy@ == node.markers@.subrange(0, k as int),
            decreases node.markers@.len() - k,
        {
            copy.push(node.markers[k].clone());
            k = k + 1;
            assert(copy@ =~= node.markers@.subrange(0, k as int));
        }
        assert(node.markers@.subrange(0, k as int) =~= node.markers@);
        return (copy, same);
    }
    if has_marker_exec(&node.markers, &skip) {
        return (retain_markers(&node.markers, MarkerRule::Skip), clean_params(node, false));
    }
    match &node.kind {
        DeclKind::Group => (clean_module_attributes(&node.markers), clean_params(node, false)),
        DeclKind::Leaf => (retain_markers(&node.markers, MarkerRule::Leaf), clean_params(node, true)),
        DeclKind::Link(_) => (retain_markers(&node.markers, MarkerRule::Link), clean_params(node, false)),
    }
}

/// The host annotations of every item and parameter after cleaning.
pub struct Cleaned {
    pub nodes: Vec<Vec<String>>,
    pub params: Vec<Vec<Vec<String>>>,
}

pub open spec fn cleaned_post(t: DeclTree, c: Cleaned) -> bool {
    &&& c.nodes@.len() == t.nodes@.len()
    &&& c.params@.len() == t.nodes@.len()
    &&& forall|i: int| 0 <= i < t.nodes@.len() ==> (#[trigger] c.nodes@[i])@ == cleaned_node(t, i)
    &&& forall|i: int|
        0 <= i < t.nodes@.len() ==> (#[trigger] c.params@[i])@.len() == t.nodes@[i].params@.len()
    &&& forall|i: int, j: int|
        0 <= i < t.nodes@.len() && 0 <= j < t.nodes@[i].params@.len() ==> (#[trigger] c.params@[i]@[j])@
            == cleaned_param(t, i, j)
}

/// Removes the annotations that the compiled command tree replaces, from the top group and every
/// item that cleaning reaches; an item marked `skip` only loses that mark and shields its
/// contents.
pub fn clean_attributes_from_module(t: &DeclTree) -> (r: Cleaned)
    requires
        t.wf(),
    ensures
        cleaned_post(*t, r),
{
    let n = t.nodes.len();
    let skip = "skip".to_owned();
    let mut nodes: Vec<Vec<String>> = Vec::new();
    let mut params: Vec<Vec<Vec<String>>> = Vec::new();
    let mut reach: Vec<bool> = Vec::new();
    nodes.push(clean_module_attributes(&t.nodes[0].markers));
    params.push(clean_params(&t.nodes[0], false));
    reach.push(true);
    let mut i: usize = 1;
    while i < n
        invariant
            t.wf(),
            n == t.nodes@.len(),
            1 <= i <= n,
            skip@ == "skip"@,
            nodes@.len() == i,
            params@.len() == i,
            reach@.len() == i,
            forall|k: int| 0 <= k < i ==> reach@[k] == reached(*t, k),
            forall|k: int| 0 <= k < i ==> (#[trigger] nodes@[k])@ == cleaned_node(*t, k),
            forall|k: int| 0 <= k < i ==> (#[trigger] params@[k])@.len() == t.nodes@[k].params@.len(),
            forall|k: int, j: int|
                0 <= k < i && 0 <= j < t.nodes@[k].params@.len() ==> (#[trigger] params@[k]@[j])@
                    == cleaned_param(*t, k, j),
        decreases n - i,
    {
        let p = t.nodes[i].parent;
        assert(t.nodes@[i as int].parent < i);
        let here = reach[p] && (p == 0 || !has_marker_exec(&t.nodes[p].markers, &skip));
        assert(reached(*t, i as int) == (reached(*t, p as int) && (p == 0 || !skip_marked(
            t.nodes@[p as int],
        ))));
        assert(reach@[p as int] == reached(*t, p as int));
        assert(here == reached(*t, i as int));
        let (ms, ps) = clean_item_attributes(t, i, here);
        nodes.push(ms);
        params.push(ps);
        reach.push(here);
        i = i + 1;
    }
    Cleaned { nodes, params }
}

} // verus!
