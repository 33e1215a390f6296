use vstd::prelude::*;
use crate::compile::default_of;
use crate::extract::{Namespace, Target, is_glob, is_dup_pair};
use crate::tree::{DeclKind, Param};

verus! {

/// Where an invocation path leads.
#[derive(PartialEq, Eq, Structural, Clone, Copy, Debug)]
pub enum Route {
    /// A leaf operation, to be called.
    Leaf(usize),
    /// A group: only its help is shown.
    Group(usize),
    /// The group has a task registry and the segment at this position matched nothing.
    Task(usize, usize),
    /// A link out of the tree; the segments from this position on are the target's.
    External(usize, usize),
    /// The segment at this position matches nothing.
    NotFound(usize),
}

/// A kept, named child of `cur` called `name` (a group, a leaf or a named link).
pub open spec fn is_entry(ns: Namespace, cur: int, name: Seq<char>, c: int) -> bool {
    &&& 0 < c < ns.tree.nodes@.len()
    &&& ns.included@[c]
    &&& ns.tree.nodes@[c].parent == cur
    &&& !is_glob(ns.tree.nodes@[c])
    &&& ns.tree.nodes@[c].name@ == name
}

pub open spec fn entry_named(ns: Namespace, cur: int, name: Seq<char>) -> Option<int> {
    if exists|c: int| is_entry(ns, cur, name, c) {
        Some(choose|c: int| is_entry(ns, cur, name, c))
    } else {
        None
    }
}

/// A glob link of `cur` whose target group has an entry called `name`.
pub open spec fn is_glob_hit(ns: Namespace, cur: int, name: Seq<char>, i: int) -> bool {
    &&& 0 < i < ns.tree.nodes@.len()
    &&& ns.included@[i]
    &&& ns.tree.nodes@[i].parent == cur
    &&& is_glob(ns.tree.nodes@[i])
    &&& ns.targets@[i] matches Some(Target::Node(g)) && entry_named(ns, g as int, name) is Some
}

pub open spec fn is_first_glob_hit(ns: Namespace, cur: int, name: Seq<char>, i: int) -> bool {
    is_glob_hit(ns, cur, name, i) && forall|j: int| 0 <= j < i ==> !is_glob_hit(ns, cur, name, j)
}

/// The child a segment names: a direct entry, else an entry brought in by the first glob link
/// that has one.
pub open spec fn next_entry(ns: Namespace, cur: int, name: Seq<char>) -> Option<int> {
    match entry_named(ns, cur, name) {
        Some(c) => Some(c),
        None => if exists|i: int| is_first_glob_hit(ns, cur, name, i) {
            let i = choose|i: int| is_first_glob_hit(ns, cur, name, i);
            match ns.targets@[i] {
                Some(Target::Node(g)) => entry_named(ns, g as int, name),
                _ => None,
            }
        } else {
            None
        },
    }
}

/// The route of `path` from position `k` on, standing at node `cur`.
pub open spec fn route(ns: Namespace, cur: int, path: Seq<String>, k: int) -> Route
    decreases path.len() - k,
{
    if k < 0 || k >= path.len() {
        if ns.tree.nodes@[cur].kind is Leaf {
            Route::Leaf(cur as usize)
        } else {
            Route::Group(cur as usize)
        }
    } else if ns.tree.nodes@[cur].kind is Leaf {
        Route::NotFound(k as usize)
    } else {
        match next_entry(ns, cur, path[k]@) {
            None => if ns.attrs@[cur].tasks is Some {
                Route::Task(cur as usize, k as usize)
            } else {
                Route::NotFound(k as usize)
            },
            Some(c) => if ns.tree.nodes@[c].kind is Link {
                match ns.targets@[c] {
                    Some(Target::Node(n)) => route(ns, n as int, path, k + 1),
                    _ => Route::External(c as usize, (k + 1) as usize),
                }
            } else {
                route(ns, c, path, k + 1)
            },
        }
    }
}

/// The route of a whole invocation path, from the top group.
pub open spec fn route_top(ns: Namespace, path: Seq<String>) -> Route {
    if ns.included@[0] {
        route(ns, 0, path, 0)
    } else {
        Route::NotFound(0)
    }
}

fn find_entry(ns: &Namespace, cur: usize, name: &String) -> (r: Option<usize>)
    requires
        ns.wf(),
    ensures
        r matches Some(c) ==> entry_named(*ns, cur as int, name@) == Some(c as int) && c
            < ns.tree.nodes@.len(),
        r is None ==> entry_named(*ns, cur as int, name@) is None,
{
    let mut i: usize = 1;
    while i < ns.tree.nodes.len()
        invariant
            ns.wf(),
            1 <= i,
            forall|c: int| c < i ==> !is_entry(*ns, cur as int, name@, c),
        decreases ns.tree.nodes@.len() - i,
    {
        let n = &ns.tree.nodes[i];
        let glob = match &n.kind {
            DeclKind::Link(l) => l.glob,
            _ => false,
        };
        if ns.included[i] && n.parent == cur && !glob && n.name == *name {
            assert(is_entry(*ns, cur as int, name@, i as int));
            let ghost c = choose|c: int| is_entry(*ns, cur as int, name@, c);
            assert(is_entry(*ns, cur as int, name@, c));
            assert(c == i) by {
                if c > i {
                    assert(is_dup_pair(ns.tree, ns.included@, i as int, c));
                }
            }
            return Some(i);
        }
        i = i + 1;
    }
    None
}

/// The child a segment names, looking through glob links when no direct entry matches.
fn find_next(ns: &Namespace, cur: usize, name: &String) -> (r: Option<usize>)
    requires
        ns.wf(),
    ensures
        r matches Some(c) ==> next_entry(*ns, cur as int, name@) == Some(c as int) && c
            < ns.tree.nodes@.len(),
        r is None ==> next_entry(*ns, cur as int, name@) is None,
{
    match find_entry(ns, cur, name) {
        Some(c) => {
            return Some(c);
        },
        None => {},
    }
    let mut i: usize = 1;
    while i < ns.tree.nodes.len()
        invariant
            ns.wf(),
            1 <= i,
            entry_named(*ns, cur as int, name@) is None,
            forall|j: int| 0 <= j < i ==> !is_glob_hit(*ns, cur as int, name@, j),
        decreases ns.tree.nodes@.len() - i,
    {
        let n = &ns.tree.nodes[i];
        let glob = match &n.kind {
            DeclKind::Link(l) => l.glob,
            _ => false,
        };
        if ns.included[i] && n.parent == cur && glob {
            match ns.targets[i] {
                Some(Target::Node(g)) => {
                    match find_entry(ns, g, name) {
                        Some(c) => {
                            assert(is_first_glob_hit(*ns, cur as int, name@, i as int));
                            let ghost m = choose|m: int| is_first_glob_hit(*ns, cur as int, name@, m);
                            assert(m == i) by {
                                if m < i {
                                    assert(!is_glob_hit(*ns, cur as int, name@, m));
                                } else if m > i {
                                    assert(!is_glob_hit(*ns, cur as int, name@, i as int));
                                }
                            }
                            return Some(c);
                        },
                        None => {},
                    }
                },
                _ => {},
            }
        }
        i = i + 1;
    }
    assert(!exists|m: int| is_first_glob_hit(*ns, cur as int, name@, m)) by {
        if exists|m: int| is_first_glob_hit(*ns, cur as int, name@, m) {
            let m = choose|m: int| is_first_glob_hit(*ns, cur as int, name@, m);
            assert(m < i);
        }
    }
    None
}

/// Follows an invocation path (the matched subcommand names, outermost first) through the tree.
pub fn route_path(ns: &Namespace, path: &Vec<String>) -> (r: Route)
    requires
        ns.wf(),
    ensures
        r == route_top(*ns, path@),
        r matches Route::Leaf(l) ==> l < ns.tree.nodes@.len(),
{
    if !ns.included[0] {
        return Route::NotFound(0);
    }
    let mut cur: usize = 0;
    let mut k: usize = 0;
    while k < path.len()
        invariant
            ns.wf(),
            cur < ns.tree.nodes@.len(),
            0 <= k <= path@.len(),
            route_top(*ns, path@) == route(*ns, cur as int, path@, k as int),
        decreases path@.len() - k,
    {
        let node = &ns.tree.nodes[cur];
        if matches!(node.kind, DeclKind::Leaf) {
            return Route::NotFound(k);
        }
        match find_next(ns, cur, &path[k]) {
            None => {
                if ns.attrs[cur].tasks.is_some() {
                    return Route::Task(cur, k);
                }
                return Route::NotFound(k);
            },
            Some(c) => {
                if matches!(ns.tree.nodes[c].kind, DeclKind::Link(_)) {
                    match ns.targets[c] {
                        Some(Target::Node(n)) => {
                            cur = n;
                        },
                        _ => {
                            return Route::External(c, k + 1);
                        },
                    }
                } else {
                    cur = c;
                }
            },
        }
        k = k + 1;
    }
    if matches!(ns.tree.nodes[cur].kind, DeclKind::Leaf) {
        Route::Leaf(cur)
    } else {
        Route::Group(cur)
    }
}

/// The value an argument takes: the one given on the command line, else the parameter's default.
pub open spec fn arg_value(p: Param, given: Option<String>) -> Option<Seq<char>> {
    match given {
        Some(s) => Some(s@),
        None => default_of(p),
    }
}

pub open spec fn given_at(values: Seq<Option<String>>, j: int) -> Option<String> {
    if 0 <= j < values.len() {
        values[j]
    } else {
        None
    }
}

/// The result of dispatching one parsed invocation.
pub enum Outcome {
    /// Call the leaf operation with these argument values, in parameter order.
    Call(usize, Vec<String>),
    /// Print the help of this group; no operation is called.
    Help(usize),
    /// Hand the segment at this position, and those after it, to the group's task registry.
    Task(usize, usize),
    /// Hand the segments from this position on to the target of an external link.
    External(usize, usize),
    /// The segment at this position matches nothing.
    NotFound(usize),
    /// The parameter at this index of the leaf has neither a value nor a default.
    MissingArgument(usize, usize),
}

pub open spec fn all_given(ps: Seq<Param>, values: Seq<Option<String>>) -> bool {
    forall|j: int| 0 <= j < ps.len() ==> #[trigger] arg_value(ps[j], given_at(values, j)) is Some
}

pub open spec fn call_post(ns: Namespace, l: int, values: Seq<Option<String>>, r: Outcome) -> bool {
    let ps = ns.tree.nodes@[l].params@;
    if all_given(ps, values) {
        r matches Outcome::Call(x, args) && x == l && args@.len() == ps.len() && forall|j: int|
            0 <= j < ps.len() ==> Some((#[trigger] args@[j])@) == arg_value(ps[j], given_at(values, j))
    } else {
        r matches Outcome::MissingArgument(x, j) && x == l && j < ps.len() && arg_value(
            ps[j as int],
            given_at(values, j as int),
        ) is None && forall|i: int| 0 <= i < j ==> #[trigger] arg_value(ps[i], given_at(values, i)) is Some
    }
}

pub open spec fn dispatch_post(ns: Namespace, path: Seq<String>, values: Seq<Option<String>>, r: Outcome) -> bool {
    match route_top(ns, path) {
        Route::Leaf(l) => call_post(ns, l as int, values, r),
        Route::Group(g) => r matches Outcome::Help(x) && x == g,
        Route::Task(g, k) => r matches Outcome::Task(x, y) && x == g && y == k,
        Route::External(c, k) => r matches Outcome::External(x, y) && x == c && y == k,
        Route::NotFound(k) => r matches Outcome::NotFound(x) && x == k,
    }
}

/// Collects the arguments of leaf `l`: the given value where there is one, else the default.
pub fn collect_args(ns: &Namespace, l: usize, values: &Vec<Option<String>>) -> (r: Outcome)
    requires
        ns.wf(),
        l < ns.tree.nodes@.len(),
    ensures
        call_post(*ns, l as int, values@, r),
{
    let ps = &ns.tree.nodes[l].params;
    let mut args: Vec<String> = Vec::new();
    let mut j: usize = 0;
    while j < ps.len()
        invariant
            l < ns.tree.nodes@.len(),
            ps == ns.tree.nodes@[l as int].params,
            0 <= j <= ps@.len(),
            args@.len() == j,
            forall|i: int|
                0 <= i < j ==> Some((#[trigger] args@[i])@) == arg_value(ps@[i], given_at(values@, i)),
        decreases ps@.len() - j,
    {
        let p = &ps[j];
        let given = if j < values.len() {
            &values[j]
        } else {
            &None
        };
        match given {
            Some(s) => {
                args.push(s.clone());
            },
            None => {
                match &p.attr_default {
                    Some(d) => {
                        args.push(d.clone());
                    },
                    None => match &p.declared_default {
                        Some(d) => {
                            args.push(d.clone());
                        },
                        None => {
                            assert(!all_given(ps@, values@)) by {
                                assert(arg_value(ps@[j as int], given_at(values@, j as int)) is None);
                            }
                            assert forall|i: int| 0 <= i < j implies #[trigger] arg_value(
                                ps@[i],
                                given_at(values@, i),
                            ) is Some by {
                                assert(Some(args@[i]@) == arg_value(ps@[i], given_at(values@, i)));
                            }
                            return Outcome::MissingArgument(l, j);
                        },
                    },
                }
            },
        }
        j = j + 1;
    }
    assert forall|i: int| 0 <= i < ps@.len() implies #[trigger] arg_value(
        ps@[i],
        given_at(values@, i),
    ) is Some by {
        assert(Some(args@[i]@) == arg_value(ps@[i], given_at(values@, i)));
    }
    Outcome::Call(l, args)
}

/// Dispatches a parsed invocation: the matched subcommand names and the values given for the
/// parameters of the operation reached.
pub fn dispatch(ns: &Namespace, path: &Vec<String>, values: &Vec<Option<String>>) -> (r: Outcome)
    requires
        ns.wf(),
    ensures
        dispatch_post(*ns, path@, values@, r),
{
    match route_path(ns, path) {
        Route::Leaf(l) => collect_args(ns, l, values),
        Route::Group(g) => Outcome::Help(g),
        Route::Task(g, k) => Outcome::Task(g, k),
        Route::External(c, k) => Outcome::External(c, k),
        Route::NotFound(k) => Outcome::NotFound(k),
    }
}

} // verus!
