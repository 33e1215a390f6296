use vstd::prelude::*;
use crate::extract::{Namespace, Target, is_glob};
use crate::tree::{DeclKind, Param};

verus! {

/// One argument of a compiled command.
pub struct ArgSpec {
    pub name: String,
    pub type_hint: String,
    pub default: Option<String>,
}

pub struct ArgView {
    pub name: Seq<char>,
    pub type_hint: Seq<char>,
    pub default: Option<Seq<char>>,
}

pub open spec fn opt_view(o: Option<String>) -> Option<Seq<char>> {
    match o {
        Some(s) => Some(s@),
        None => None,
    }
}

impl View for ArgSpec {
    type V = ArgView;

    open spec fn view(&self) -> ArgView {
        ArgView { name: self.name@, type_hint: self.type_hint@, default: opt_view(self.default) }
    }
}

/// The default of a parameter: the `default` attribute wins over the declared default.
pub open spec fn default_of(p: Param) -> Option<Seq<char>> {
    match p.attr_default {
        Some(s) => Some(s@),
        None => opt_view(p.declared_default),
    }
}

pub open spec fn field_of(p: Param) -> ArgView {
    ArgView { name: p.name@, type_hint: p.type_hint@, default: default_of(p) }
}

pub open spec fn fields_spec(ps: Seq<Param>) -> Seq<ArgView> {
    ps.map_values(|p: Param| field_of(p))
}

pub open spec fn args_view(v: Seq<ArgSpec>) -> Seq<ArgView> {
    v.map_values(|a: ArgSpec| a@)
}

fn clone_opt(v: &Option<String>) -> (r: Option<String>)
    ensures
        r == *v,
{
    match v {
        None => None,
        Some(s) => Some(s.clone()),
    }
}

/// One field per parameter, in declared order, each defaulted from its attribute or declaration.
pub fn fields_of(ps: &Vec<Param>) -> (r: Vec<ArgSpec>)
    ensures
        args_view(r@) == fields_spec(ps@),
{
    let mut r: Vec<ArgSpec> = Vec::new();
    let mut j: usize = 0;
    while j < ps.len()
        invariant
            0 <= j <= ps@.len(),
            r@.len() == j,
            forall|k: int| 0 <= k < j ==> (#[trigger] r@[k])@ == field_of(ps@[k]),
        decreases ps@.len() - j,
    {
        let p = &ps[j];
        let default = match &p.attr_default {
            Some(s) => Some(s.clone()),
            None => clone_opt(&p.declared_default),
        };
        r.push(ArgSpec { name: p.name.clone(), type_hint: p.type_hint.clone(), default });
        j = j + 1;
    }
    assert(args_view(r@) =~= fields_spec(ps@));
    r
}

/// The parameter structure of a kept group or leaf operation.
pub struct ParamStruct {
    pub fields: Vec<ArgSpec>,
    /// The node whose structure this one refers back to: the parent group, absent at the top.
    pub super_ref: Option<usize>,
    pub derive_debug: bool,
}

pub open spec fn has_command(ns: Namespace, i: int) -> bool {
    0 <= i < ns.tree.nodes@.len() && ns.included@[i]
}

pub open spec fn has_params(ns: Namespace, i: int) -> bool {
    has_command(ns, i) && !(ns.tree.nodes@[i].kind is Link)
}

pub open spec fn parent_spec(ns: Namespace, i: int) -> Option<usize> {
    if i == 0 {
        None
    } else {
        Some(ns.tree.nodes@[i].parent)
    }
}

pub open spec fn param_struct_ok(ns: Namespace, i: int, s: ParamStruct) -> bool {
    &&& args_view(s.fields@) == fields_spec(ns.tree.nodes@[i].params@)
    &&& s.super_ref == parent_spec(ns, i)
    &&& s.derive_debug == ns.attrs@[i].derive_debug_for_parameters
}

pub open spec fn supplement_post(ns: Namespace, r: Seq<Option<ParamStruct>>) -> bool {
    &&& r.len() == ns.tree.nodes@.len()
    &&& forall|i: int|
        0 <= i < r.len() ==> (#[trigger] r[i] is Some <==> has_params(ns, i)) && (r[i] matches Some(
            s,
        ) ==> param_struct_ok(ns, i, s))
}

/// Gives every kept group and leaf operation its parameter structure, linked to its parent's.
pub fn supplement(ns: &Namespace) -> (r: Vec<Option<ParamStruct>>)
    requires
        ns.wf(),
    ensures
        supplement_post(*ns, r@),
{
    let n = ns.tree.nodes.len();
    let mut r: Vec<Option<ParamStruct>> = Vec::new();
    let mut i: usize = 0;
    while i < n
        invariant
            ns.wf(),
            n == ns.tree.nodes@.len(),
            0 <= i <= n,
            r@.len() == i,
            forall|j: int|
                0 <= j < i ==> (#[trigger] r@[j] is Some <==> has_params(*ns, j)) && (r@[j] matches Some(
                    s,
                ) ==> param_struct_ok(*ns, j, s)),
        decreases n - i,
    {
        let node = &ns.tree.nodes[i];
        if ns.included[i] && !matches!(node.kind, DeclKind::Link(_)) {
            let super_ref = if i == 0 {
                None
            } else {
                Some(node.parent)
            };
            r.push(
                Some(
                    ParamStruct {
                        fields: fields_of(&node.params),
                        super_ref,
                        derive_debug: ns.attrs[i].derive_debug_for_parameters,
                    },
                ),
            );
        } else {
            r.push(None);
        }
        i = i + 1;
    }
    r
}

#[derive(PartialEq, Eq, Structural, Clone, Copy, Debug)]
pub enum CommandKind {
    Group,
    Leaf,
    /// A named link, compiled as a reference to its target.
    Link(Target),
    /// A glob link, compiled as a reference whose children are flattened in.
    Glob(Target),
}

/// One command of the compiled schema.
pub struct Command {
    pub name: String,
    pub parent: Option<usize>,
    pub args: Vec<ArgSpec>,
    pub kind: CommandKind,
    pub allow_external_subcommands: bool,
    pub debug: bool,
    /// The command also gets the "parse then dispatch" entry point.
    pub entry_point: bool,
    pub help: Option<String>,
}

pub open spec fn link_kind(ns: Namespace, i: int) -> CommandKind {
    let tg = match ns.targets@[i] {
        Some(x) => x,
        None => Target::External,
    };
    if is_glob(ns.tree.nodes@[i]) {
        CommandKind::Glob(tg)
    } else {
        CommandKind::Link(tg)
    }
}

pub open spec fn kind_spec(ns: Namespace, i: int) -> CommandKind {
    match ns.tree.nodes@[i].kind {
        DeclKind::Group => CommandKind::Group,
        DeclKind::Leaf => CommandKind::Leaf,
        DeclKind::Link(_) => link_kind(ns, i),
    }
}

pub open spec fn command_args(ns: Namespace, i: int) -> Seq<ArgView> {
    if ns.tree.nodes@[i].kind is Link {
        Seq::empty()
    } else {
        fields_spec(ns.tree.nodes@[i].params@)
    }
}

pub open spec fn command_ok(ns: Namespace, i: int, c: Command) -> bool {
    &&& c.name == ns.tree.nodes@[i].name
    &&& c.parent == parent_spec(ns, i)
    &&& args_view(c.args@) == command_args(ns, i)
    &&& c.kind == kind_spec(ns, i)
    &&& c.allow_external_subcommands == ns.attrs@[i].tasks is Some
    &&& c.debug == ns.attrs@[i].debug
    &&& c.entry_point == ns.attrs@[i].root
    &&& c.help == ns.tree.nodes@[i].help
}

pub open spec fn schema_post(ns: Namespace, r: Seq<Option<Command>>) -> bool {
    &&& r.len() == ns.tree.nodes@.len()
    &&& forall|i: int|
        0 <= i < r.len() ==> (#[trigger] r[i] is Some <==> has_command(ns, i)) && (r[i] matches Some(
            c,
        ) ==> command_ok(ns, i, c))
}

fn link_kind_of(ns: &Namespace, i: usize) -> (r: CommandKind)
    requires
        ns.wf(),
        i < ns.tree.nodes@.len(),
    ensures
        r == link_kind(*ns, i as int),
{
    let tg = match ns.targets[i] {
        Some(x) => x,
        None => Target::External,
    };
    let glob = match &ns.tree.nodes[i].kind {
        DeclKind::Link(l) => l.glob,
        _ => false,
    };
    if glob {
        CommandKind::Glob(tg)
    } else {
        CommandKind::Link(tg)
    }
}

/// Compiles the schema: one command per kept node, under the command of its parent group, with
/// one argument per parameter.
pub fn compile_schema(ns: &Namespace) -> (r: Vec<Option<Command>>)
    requires
        ns.wf(),
    ensures
        schema_post(*ns, r@),
{
    let n = ns.tree.nodes.len();
    let mut r: Vec<Option<Command>> = Vec::new();
    let mut i: usize = 0;
    while i < n
        invariant
            ns.wf(),
            n == ns.tree.nodes@.len(),
            0 <= i <= n,
            r@.len() == i,
            forall|j: int|
                0 <= j < i ==> (#[trigger] r@[j] is Some <==> has_command(*ns, j)) && (r@[j] matches Some(
                    c,
                ) ==> command_ok(*ns, j, c)),
        decreases n - i,
    {
        if ns.included[i] {
            let node = &ns.tree.nodes[i];
            let a = &ns.attrs[i];
            let parent = if i == 0 {
                None
            } else {
                Some(node.parent)
            };
            let (kind, args) = match &node.kind {
                DeclKind::Group => (CommandKind::Group, fields_of(&node.params)),
                DeclKind::Leaf => (CommandKind::Leaf, fields_of(&node.params)),
                DeclKind::Link(_) => {
                    let v: Vec<ArgSpec> = Vec::new();
                    assert(args_view(v@) =~= Seq::empty());
                    (link_kind_of(ns, i), v)
                },
            };
            r.push(
                Some(
                    Command {
                        name: node.name.clone(),
                        parent,
                        args,
                        kind,
                        allow_external_subcommands: a.tasks.is_some(),
                        debug: a.debug,
                        entry_point: a.root,
                        help: clone_opt(&node.help),
                    },
                ),
            );
        } else {
            r.push(None);
        }
        i = i + 1;
    }
    r
}

/// What the dispatcher does on reaching a node.
#[derive(PartialEq, Eq, Structural, Clone, Copy, Debug)]
pub enum Action {
    /// Go on matching among the children of this group.
    Descend,
    /// Call the leaf operation with this many arguments.
    Call(usize),
    /// Go on at the target of a named link.
    Follow(Target),
    /// Go on among the children of a glob link's target.
    Expand(Target),
}

/// One node of the compiled dispatcher.
pub struct DispatchNode {
    pub name: String,
    pub parent: Option<usize>,
    pub action: Action,
    /// Unmatched trailing segments are handed to the dynamic task registry.
    pub tasks: bool,
}

pub open spec fn action_spec(ns: Namespace, i: int) -> Action {
    match kind_spec(ns, i) {
        CommandKind::Group => Action::Descend,
        CommandKind::Leaf => Action::Call(ns.tree.nodes@[i].params@.len() as usize),
        CommandKind::Link(tg) => Action::Follow(tg),
        CommandKind::Glob(tg) => Action::Expand(tg),
    }
}

pub open spec fn dispatch_node_ok(ns: Namespace, i: int, d: DispatchNode) -> bool {
    &&& d.name == ns.tree.nodes@[i].name
    &&& d.parent == parent_spec(ns, i)
    &&& d.action == action_spec(ns, i)
    &&& d.tasks == ns.attrs@[i].tasks is Some
}

pub open spec fn dispatch_post(ns: Namespace, r: Seq<Option<DispatchNode>>) -> bool {
    &&& r.len() == ns.tree.nodes@.len()
    &&& forall|i: int|
        0 <= i < r.len() ==> (#[trigger] r[i] is Some <==> has_command(ns, i)) && (r[i] matches Some(
            d,
        ) ==> dispatch_node_ok(ns, i, d))
}

/// Compiles the dispatcher over the same walk as the schema: one node per kept node.
pub fn compile_dispatch(ns: &Namespace) -> (r: Vec<Option<DispatchNode>>)
    requires
        ns.wf(),
    ensures
        dispatch_post(*ns, r@),
{
    let n = ns.tree.nodes.len();
    let mut r: Vec<Option<DispatchNode>> = Vec::new();
    let mut i: usize = 0;
    while i < n
        invariant
            ns.wf(),
            n == ns.tree.nodes@.len(),
            0 <= i <= n,
            r@.len() == i,
            forall|j: int|
                0 <= j < i ==> (#[trigger] r@[j] is Some <==> has_command(*ns, j)) && (r@[j] matches Some(
                    d,
                ) ==> dispatch_node_ok(*ns, j, d)),
        decreases n - i,
    {
        if ns.included[i] {
            let node = &ns.tree.nodes[i];
            let parent = if i == 0 {
                None
            } else {
                Some(node.parent)
            };
            let action = match &node.kind {
                DeclKind::Group => Action::Descend,
                DeclKind::Leaf => Action::Call(node.params.len()),
                DeclKind::Link(_) => match link_kind_of(ns, i) {
                    CommandKind::Glob(tg) => Action::Expand(tg),
                    CommandKind::Link(tg) => Action::Follow(tg),
                    _ => Action::Descend,
                },
            };
            r.push(
                Some(
                    DispatchNode {
                        name: node.name.clone(),
                        parent,
                        action,
                        tasks: ns.attrs[i].tasks.is_some(),
                    },
                ),
            );
        } else {
            r.push(None);
        }
        i = i + 1;
    }
    r
}

/// The schema and the dispatcher compiled from one namespace have the same nodes, with the same
/// names under the same parents, and a command is a group, a leaf or a link exactly where the
/// dispatcher descends, calls or follows there.
pub proof fn lemma_schema_dispatch_isomorphic(
    ns: Namespace,
    s: Seq<Option<Command>>,
    d: Seq<Option<DispatchNode>>,
)
    requires
        schema_post(ns, s),
        dispatch_post(ns, d),
    ensures
        s.len() == d.len(),
        forall|i: int| 0 <= i < s.len() ==> (#[trigger] s[i] is Some <==> d[i] is Some),
        forall|i: int|
            0 <= i < s.len() && #[trigger] s[i] is Some ==> {
                let c = s[i]->Some_0;
                let e = d[i]->Some_0;
                &&& c.name == e.name
                &&& c.parent == e.parent
                &&& (c.kind == CommandKind::Group <==> e.action == Action::Descend)
                &&& (c.kind == CommandKind::Leaf <==> e.action is Call)
                &&& (c.kind is Leaf ==> e.action == Action::Call(c.args@.len() as usize))
                &&& (c.kind is Link <==> e.action is Follow)
                &&& (c.allow_external_subcommands <==> e.tasks)
            },
{
    assert forall|i: int| 0 <= i < s.len() && #[trigger] s[i] is Some implies {
        let c = s[i]->Some_0;
        let e = d[i]->Some_0;
        &&& c.name == e.name
        &&& c.parent == e.parent
        &&& (c.kind == CommandKind::Group <==> e.action == Action::Descend)
        &&& (c.kind == CommandKind::Leaf <==> e.action is Call)
        &&& (c.kind is Leaf ==> e.action == Action::Call(c.args@.len() as usize))
        &&& (c.kind is Link <==> e.action is Follow)
        &&& (c.allow_external_subcommands <==> e.tasks)
    } by {
        assert(d[i] is Some);
        let c = s[i]->Some_0;
        assert(command_ok(ns, i, c));
        assert(dispatch_node_ok(ns, i, d[i]->Some_0));
        assert(args_view(c.args@).len() == c.args@.len());
    }
}

pub struct CommandView {
    pub name: Seq<char>,
    pub parent: Option<usize>,
    pub args: Seq<ArgView>,
    pub kind: CommandKind,
    pub allow_external_subcommands: bool,
    pub debug: bool,
    pub entry_point: bool,
    pub help: Option<Seq<char>>,
}

impl View for Command {
    type V = CommandView;

    open spec fn view(&self) -> CommandView {
        CommandView {
            name: self.name@,
            parent: self.parent,
            args: args_view(self.args@),
            kind: self.kind,
            allow_external_subcommands: self.allow_external_subcommands,
            debug: self.debug,
            entry_point: self.entry_point,
            help: opt_view(self.help),
        }
    }
}

pub struct DispatchView {
    pub name: Seq<char>,
    pub parent: Option<usize>,
    pub action: Action,
    pub tasks: bool,
}

impl View for DispatchNode {
    type V = DispatchView;

    open spec fn view(&self) -> DispatchView {
        DispatchView { name: self.name@, parent: self.parent, action: self.action, tasks: self.tasks }
    }
}

pub struct ParamStructView {
    pub fields: Seq<ArgView>,
    pub super_ref: Option<usize>,
    pub derive_debug: bool,
}

impl View for ParamStruct {
    type V = ParamStructView;

    open spec fn view(&self) -> ParamStructView {
        ParamStructView {
            fields: args_view(self.fields@),
            super_ref: self.super_ref,
            derive_debug: self.derive_debug,
        }
    }
}

pub open spec fn schema_view(s: Seq<Option<Command>>) -> Seq<Option<CommandView>> {
    s.map_values(
        |o: Option<Command>|
            match o {
                Some(c) => Some(c@),
                None => None,
            },
    )
}

pub open spec fn dispatch_view(d: Seq<Option<DispatchNode>>) -> Seq<Option<DispatchView>> {
    d.map_values(
        |o: Option<DispatchNode>|
            match o {
                Some(x) => Some(x@),
                None => None,
            },
    )
}

pub open spec fn params_view(p: Seq<Option<ParamStruct>>) -> Seq<Option<ParamStructView>> {
    p.map_values(
        |o: Option<ParamStruct>|
            match o {
                Some(x) => Some(x@),
                None => None,
            },
    )
}

} // verus!
