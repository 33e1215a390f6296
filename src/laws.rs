use vstd::prelude::*;
use crate::compile::{
    CommandKind,
    command_ok,
    default_of,
    dispatch_view,
    params_view,
    schema_post,
    schema_view,
};
use crate::dispatch::{
    Outcome,
    Route,
    all_given,
    dispatch_post,
    entry_named,
    given_at,
    next_entry,
    is_entry,
    route,
    route_top,
};
use crate::extract::{
    BuildError,
    Namespace,
    Target,
    attrs_ok,
    attrs_seq,
    inc_seq,
    is_dup_pair,
    is_empty_group,
    is_root_pair,
    links_ok,
    unique_names,
};
use crate::pipeline::tusks_post;
use crate::tree::DeclTree;

verus! {

/// Compiling one tree twice gives the same result: both runs fail or both succeed, and then the
/// parameter structures, the schema and the dispatcher agree field for field.
pub proof fn law_compilation_is_deterministic(
    tree: DeclTree,
    g: bool,
    r1: Result<crate::pipeline::Compiled, BuildError>,
    r2: Result<crate::pipeline::Compiled, BuildError>,
)
    requires
        tusks_post(tree, g, r1),
        tusks_post(tree, g, r2),
    ensures
        r1 is Ok <==> r2 is Ok,
        r1 is Ok && r2 is Ok ==> {
            &&& schema_view(r1->Ok_0.schema@) == schema_view(r2->Ok_0.schema@)
            &&& dispatch_view(r1->Ok_0.dispatcher@) == dispatch_view(r2->Ok_0.dispatcher@)
            &&& params_view(r1->Ok_0.params@) == params_view(r2->Ok_0.params@)
            &&& r1->Ok_0.exec_entry == r2->Ok_0.exec_entry
        },
{
    if r1 is Ok && r2 is Ok {
        let c1 = r1->Ok_0;
        let c2 = r2->Ok_0;
        let ns1 = c1.namespace;
        let ns2 = c2.namespace;
        assert(ns1.attrs@ == ns2.attrs@);
        assert(ns1.included@ == ns2.included@);
        assert(ns1.targets@ =~= ns2.targets@) by {
            assert forall|i: int| 0 <= i < ns1.targets@.len() implies ns1.targets@[i]
                == ns2.targets@[i] by {
                assert(ns1.targets@[i] == ns2.targets@[i]);
            }
        }
        let s1 = c1.schema@;
        let s2 = c2.schema@;
        assert forall|i: int| 0 <= i < s1.len() implies schema_view(s1)[i] == schema_view(s2)[i] by {
            if s1[i] is Some {
                assert(command_ok(ns1, i, s1[i]->Some_0));
                assert(command_ok(ns2, i, s2[i]->Some_0));
            }
        }
        assert(schema_view(s1) =~= schema_view(s2));
        let d1 = c1.dispatcher@;
        let d2 = c2.dispatcher@;
        assert forall|i: int| 0 <= i < d1.len() implies dispatch_view(d1)[i] == dispatch_view(d2)[i] by {
            if d1[i] is Some {
                assert(d2[i] is Some);
            }
        }
        assert(dispatch_view(d1) =~= dispatch_view(d2));
        let p1 = c1.params@;
        let p2 = c2.params@;
        assert forall|i: int| 0 <= i < p1.len() implies params_view(p1)[i] == params_view(p2)[i] by {
            if p1[i] is Some {
                assert(p2[i] is Some);
            }
        }
        assert(params_view(p1) =~= params_view(p2));
    }
}

/// A kept group with nothing kept under it, at any depth, makes compilation fail with
/// `EmptyGroup` once the attributes are valid.
pub proof fn law_empty_group_rejected(
    tree: DeclTree,
    g: bool,
    r: Result<crate::pipeline::Compiled, BuildError>,
    x: int,
)
    requires
        tusks_post(tree, g, r),
        attrs_ok(tree, g),
        is_empty_group(tree, inc_seq(tree, g), x),
    ensures
        r matches Err(BuildError::EmptyGroup(_)),
{
}

/// Two kept nodes marked `root` make compilation fail, with `MultipleRoots` once the earlier
/// checks pass.
pub proof fn law_two_roots_rejected(
    tree: DeclTree,
    g: bool,
    r: Result<crate::pipeline::Compiled, BuildError>,
    i: int,
    j: int,
)
    requires
        tusks_post(tree, g, r),
        is_root_pair(inc_seq(tree, g), attrs_seq(tree, g), i, j),
    ensures
        r is Err,
        attrs_ok(tree, g) && (forall|e: int| !is_empty_group(tree, inc_seq(tree, g), e))
            && unique_names(tree, inc_seq(tree, g)) ==> r matches Err(BuildError::MultipleRoots(_, _)),
{
}

/// A tree whose other checks pass and that has at most one kept node marked `root` compiles.
pub proof fn law_single_root_accepted(
    tree: DeclTree,
    g: bool,
    r: Result<crate::pipeline::Compiled, BuildError>,
)
    requires
        tusks_post(tree, g, r),
        attrs_ok(tree, g),
        forall|e: int| !is_empty_group(tree, inc_seq(tree, g), e),
        unique_names(tree, inc_seq(tree, g)),
        links_ok(tree, inc_seq(tree, g)),
        forall|i: int, j: int| !is_root_pair(inc_seq(tree, g), attrs_seq(tree, g), i, j),
    ensures
        r is Ok,
{
}

proof fn lemma_entry_unique(ns: Namespace, cur: int, name: Seq<char>, c: int)
    requires
        ns.wf(),
        is_entry(ns, cur, name, c),
    ensures
        entry_named(ns, cur, name) == Some(c),
{
    let d = choose|d: int| is_entry(ns, cur, name, d);
    assert(is_entry(ns, cur, name, d));
    if d < c {
        assert(is_dup_pair(ns.tree, ns.included@, d, c));
    } else if c < d {
        assert(is_dup_pair(ns.tree, ns.included@, c, d));
    }
}

/// A link `foo as bar` to a leaf: the invocation that ends in `bar` reaches the same leaf as the
/// one that ends in `foo`, and the schema names the link's command `bar`.
pub proof fn law_renamed_link_dispatch(
    ns: Namespace,
    s: Seq<Option<crate::compile::Command>>,
    cur: int,
    b: int,
    f: usize,
    via_bar: Seq<String>,
    via_foo: Seq<String>,
    k: int,
)
    requires
        ns.wf(),
        schema_post(ns, s),
        0 <= cur < ns.tree.nodes@.len(),
        0 <= b < ns.tree.nodes@.len(),
        f < ns.tree.nodes@.len(),
        !(ns.tree.nodes@[cur].kind is Leaf),
        is_entry(ns, cur, ns.tree.nodes@[b].name@, b),
        ns.tree.nodes@[b].kind is Link,
        ns.targets@[b] == Some(Target::Node(f)),
        ns.tree.nodes@[f as int].kind is Leaf,
        is_entry(ns, cur, ns.tree.nodes@[f as int].name@, f as int),
        0 <= k,
        via_bar.len() == k + 1,
        via_bar[k]@ == ns.tree.nodes@[b].name@,
        via_foo.len() == k + 1,
        via_foo[k]@ == ns.tree.nodes@[f as int].name@,
    ensures
        route(ns, cur, via_bar, k) == Route::Leaf(f),
        route(ns, cur, via_foo, k) == Route::Leaf(f),
        s[b] is Some && s[b]->Some_0.name == ns.tree.nodes@[b].name,
        s[b] is Some && s[b]->Some_0.kind == CommandKind::Link(Target::Node(f)),
{
    lemma_entry_unique(ns, cur, ns.tree.nodes@[b].name@, b);
    lemma_entry_unique(ns, cur, ns.tree.nodes@[f as int].name@, f as int);
    assert(route(ns, f as int, via_bar, k + 1) == Route::Leaf(f));
    assert(route(ns, f as int, via_foo, k + 1) == Route::Leaf(f));
    assert(command_ok(ns, b, s[b]->Some_0));
}

/// Where the invocation reaches a leaf, an omitted argument takes the parameter's default and a
/// given one overrides it.
pub proof fn law_default_argument(
    ns: Namespace,
    path: Seq<String>,
    values: Seq<Option<String>>,
    r: Outcome,
    l: usize,
    j: int,
)
    requires
        ns.wf(),
        dispatch_post(ns, path, values, r),
        route_top(ns, path) == Route::Leaf(l),
        all_given(ns.tree.nodes@[l as int].params@, values),
        0 <= j < ns.tree.nodes@[l as int].params@.len(),
    ensures
        r is Call,
        given_at(values, j) is None ==> Some(r->Call_1@[j]@) == default_of(
            ns.tree.nodes@[l as int].params@[j],
        ),
        given_at(values, j) matches Some(v) ==> r->Call_1@[j]@ == v@,
{
    assert(Some(r->Call_1@[j]@) == crate::dispatch::arg_value(
        ns.tree.nodes@[l as int].params@[j],
        given_at(values, j),
    ));
}

/// At a group with a task configuration, whose command accepts unknown subcommands, a segment
/// that matches no child goes to the task registry instead of failing.
pub proof fn law_unmatched_segment_goes_to_tasks(
    ns: Namespace,
    s: Seq<Option<crate::compile::Command>>,
    cur: int,
    path: Seq<String>,
    k: int,
)
    requires
        ns.wf(),
        schema_post(ns, s),
        0 <= cur < ns.tree.nodes@.len(),
        ns.included@[cur],
        !(ns.tree.nodes@[cur].kind is Leaf),
        ns.attrs@[cur].tasks is Some,
        0 <= k < path.len(),
        next_entry(ns, cur, path[k]@) is None,
    ensures
        route(ns, cur, path, k) == Route::Task(cur as usize, k as usize),
        s[cur] is Some && s[cur]->Some_0.allow_external_subcommands,
{
    assert(command_ok(ns, cur, s[cur]->Some_0));
}

} // verus!
