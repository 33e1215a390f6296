use tusks::attrs::{interpret_attrs, interpret_param_attrs, Attr, AttrError};
use tusks::clean::clean_attributes_from_module;
use tusks::compile::{compile_dispatch, compile_schema, supplement, Action, CommandKind};
use tusks::dispatch::{dispatch, route_path, Outcome, Route};
use tusks::extract::{extract, BuildError, Namespace, Target};
use tusks::tasks::{execute_task, find_task, show_help_for_task, TaskEntry, TaskRun};
use tusks::tree::{fan_out, path_of, DeclKind, DeclNode, DeclTree, LinkDecl, Param, UseItem};
use tusks::tusks;

fn s(x: &str) -> String {
    x.to_string()
}

fn strings(xs: &[&str]) -> Vec<String> {
    xs.iter().map(|x| s(x)).collect()
}

fn attr(key: &str, value: Option<&str>) -> Attr {
    Attr { key: s(key), value: value.map(s) }
}

fn node(name: &str, parent: usize, kind: DeclKind) -> DeclNode {
    DeclNode {
        name: s(name),
        parent,
        visible: true,
        kind,
        attrs: Vec::new(),
        params: Vec::new(),
        help: None,
        markers: Vec::new(),
    }
}

fn group(name: &str, parent: usize) -> DeclNode {
    node(name, parent, DeclKind::Group)
}

fn leaf(name: &str, parent: usize) -> DeclNode {
    node(name, parent, DeclKind::Leaf)
}

fn link(name: &str, parent: usize, path: &[&str], glob: bool) -> DeclNode {
    node(name, parent, DeclKind::Link(LinkDecl { path: strings(path), glob }))
}

fn param(name: &str, declared: Option<&str>, attr_default: Option<&str>) -> Param {
    Param {
        name: s(name),
        type_hint: s("String"),
        declared_default: declared.map(s),
        attr_default: attr_default.map(s),
        markers: Vec::new(),
    }
}

fn ns_of(nodes: Vec<DeclNode>) -> Namespace {
    match extract(DeclTree { nodes }, false) {
        Ok(ns) => ns,
        Err(_) => panic!("extraction failed"),
    }
}

fn err_of(nodes: Vec<DeclNode>) -> BuildError {
    match extract(DeclTree { nodes }, false) {
        Ok(_) => panic!("extraction succeeded"),
        Err(e) => e,
    }
}

/// top { greet(name = "world"), admin { reset }, link greet as hello }
fn sample() -> Vec<DeclNode> {
    let mut greet = leaf("greet", 0);
    greet.params.push(param("name", None, Some("world")));
    vec![
        group("cli", 0),
        greet,
        group("admin", 0),
        leaf("reset", 2),
        link("hello", 0, &["self", "greet"], false),
    ]
}

#[test]
fn bare_key_means_true() {
    let a = interpret_attrs(&vec![attr("debug", None), attr("root", None)], false).ok().unwrap();
    assert!(a.debug);
    assert!(a.root);
    assert!(!a.skip);
    assert!(a.tasks.is_none());
}

#[test]
fn explicit_false_and_global_debug() {
    let a = interpret_attrs(&vec![attr("debug", Some("false"))], false).ok().unwrap();
    assert!(!a.debug);
    let b = interpret_attrs(&vec![attr("debug", Some("false"))], true).ok().unwrap();
    assert!(b.debug);
}

#[test]
fn derive_debug_shorthand_sets_only_its_field() {
    let a = interpret_attrs(&vec![attr("derive_debug_for_parameters", None)], false).ok().unwrap();
    assert!(a.derive_debug_for_parameters);
    assert!(!a.root);
    assert!(!a.debug);
}

#[test]
fn later_entry_overrides_earlier() {
    let a = interpret_attrs(&vec![attr("skip", None), attr("skip", Some("false"))], false).ok().unwrap();
    assert!(!a.skip);
}

#[test]
fn unknown_attribute_is_named() {
    match interpret_attrs(&vec![attr("root", None), attr("colour", Some("red"))], false) {
        Err(AttrError::Unknown(k)) => assert_eq!(k, "colour"),
        _ => panic!("expected an unknown attribute"),
    }
}

#[test]
fn malformed_boolean_is_rejected() {
    match interpret_attrs(&vec![attr("debug", Some("yes"))], false) {
        Err(AttrError::Malformed(k)) => assert_eq!(k, "debug"),
        _ => panic!("expected a malformed attribute"),
    }
}

#[test]
fn tasks_config_is_kept() {
    let a = interpret_attrs(&vec![attr("tasks", Some("max_groupsize=5"))], false).ok().unwrap();
    assert_eq!(a.tasks.unwrap().setting, Some(s("max_groupsize=5")));
}

#[test]
fn attribute_error_names_the_node() {
    let mut nodes = sample();
    nodes[3].attrs.push(attr("verbose", None));
    match err_of(nodes) {
        BuildError::Attribute(3, AttrError::Unknown(k)) => assert_eq!(k, "verbose"),
        _ => panic!("expected an attribute error at node 3"),
    }
}

#[test]
fn empty_group_at_depth_is_rejected() {
    let nodes = vec![group("cli", 0), group("a", 0), group("b", 1), group("c", 2), leaf("x", 1)];
    match err_of(nodes) {
        BuildError::EmptyGroup(g) => assert_eq!(g, 3),
        _ => panic!("expected an empty group"),
    }
}

#[test]
fn group_with_only_hidden_items_is_empty() {
    let mut hidden = leaf("secret", 1);
    hidden.visible = false;
    let nodes = vec![group("cli", 0), group("a", 0), hidden];
    match err_of(nodes) {
        BuildError::EmptyGroup(g) => assert_eq!(g, 1),
        _ => panic!("expected an empty group"),
    }
}

#[test]
fn group_with_only_a_link_is_not_empty() {
    let nodes = vec![group("cli", 0), group("a", 0), link("x", 1, &["some_crate", "run"], false)];
    let ns = ns_of(nodes);
    assert_eq!(ns.targets[2], Some(Target::External));
}

#[test]
fn duplicate_names_are_rejected() {
    let nodes = vec![group("cli", 0), leaf("run", 0), leaf("stop", 0), leaf("run", 0)];
    match err_of(nodes) {
        BuildError::DuplicateName(1, 3) => {}
        _ => panic!("expected a duplicate name"),
    }
}

#[test]
fn two_roots_are_rejected() {
    let mut nodes = sample();
    nodes[0].attrs.push(attr("root", None));
    nodes[2].attrs.push(attr("root", None));
    match err_of(nodes) {
        BuildError::MultipleRoots(0, 2) => {}
        _ => panic!("expected multiple roots"),
    }
}

#[test]
fn one_root_is_accepted() {
    let mut nodes = sample();
    nodes[0].attrs.push(attr("root", None));
    let c = tusks(DeclTree { nodes }, false).ok().unwrap();
    assert!(c.exec_entry);
    assert!(c.schema[0].as_ref().unwrap().entry_point);
}

#[test]
fn unresolved_local_link_is_rejected() {
    let nodes = vec![group("cli", 0), leaf("run", 0), link("go", 0, &["self", "missing"], false)];
    match err_of(nodes) {
        BuildError::UnresolvedLocalLink(2) => {}
        _ => panic!("expected an unresolved link"),
    }
}

#[test]
fn links_resolve_through_super_and_crate() {
    let nodes = vec![
        group("cli", 0),
        leaf("run", 0),
        group("sub", 0),
        link("up", 2, &["super", "run"], false),
        link("top", 2, &["crate", "run"], false),
        link("all", 2, &["super"], true),
    ];
    let ns = ns_of(nodes);
    assert_eq!(ns.targets[3], Some(Target::Node(1)));
    assert_eq!(ns.targets[4], Some(Target::Node(1)));
    assert_eq!(ns.targets[5], Some(Target::Node(0)));
    assert_eq!(ns.targets[1], None);
}

#[test]
fn glob_of_a_leaf_is_unresolved() {
    let nodes = vec![group("cli", 0), leaf("run", 0), group("sub", 0), link("*", 2, &["super", "run"], true)];
    match err_of(nodes) {
        BuildError::UnresolvedLocalLink(3) => {}
        _ => panic!("expected an unresolved glob"),
    }
}

#[test]
fn skipped_subtree_is_left_out() {
    let mut nodes = sample();
    nodes[2].attrs.push(attr("skip", None));
    let ns = ns_of(nodes);
    assert_eq!(ns.included, vec![true, true, false, false, true]);
    let schema = compile_schema(&ns);
    assert!(schema[2].is_none());
    assert!(schema[3].is_none());
}

#[test]
fn path_of_reports_names_from_the_top() {
    let t = DeclTree { nodes: sample() };
    assert_eq!(path_of(&t, 3), strings(&["cli", "admin", "reset"]));
    assert_eq!(path_of(&t, 0), strings(&["cli"]));
}

#[test]
fn grouped_list_fans_out() {
    let items = vec![UseItem::Name(s("a")), UseItem::Rename(s("b"), s("c")), UseItem::Glob];
    let links = fan_out(&strings(&["super", "ops"]), &items);
    assert_eq!(links.len(), 3);
    assert_eq!(links[0].name, "a");
    assert_eq!(links[0].link.path, strings(&["super", "ops", "a"]));
    assert_eq!(links[1].name, "c");
    assert_eq!(links[1].link.path, strings(&["super", "ops", "b"]));
    assert!(!links[1].link.glob);
    assert_eq!(links[2].name, "*");
    assert_eq!(links[2].link.path, strings(&["super", "ops"]));
    assert!(links[2].link.glob);
}

#[test]
fn schema_and_dispatcher_have_the_same_shape() {
    let ns = ns_of(sample());
    let schema = compile_schema(&ns);
    let disp = compile_dispatch(&ns);
    assert_eq!(schema.len(), disp.len());
    for (c, d) in schema.iter().zip(disp.iter()) {
        match (c, d) {
            (Some(c), Some(d)) => {
                assert_eq!(c.name, d.name);
                assert_eq!(c.parent, d.parent);
            }
            (None, None) => {}
            _ => panic!("schema and dispatcher disagree"),
        }
    }
    assert_eq!(schema[3].as_ref().unwrap().parent, Some(2));
    assert!(matches!(disp[1].as_ref().unwrap().action, Action::Call(1)));
    assert!(matches!(disp[2].as_ref().unwrap().action, Action::Descend));
}

#[test]
fn schema_arguments_carry_defaults() {
    let mut nodes = sample();
    nodes[1].params.push(param("times", Some("1"), None));
    nodes[1].params.push(param("loud", None, None));
    let ns = ns_of(nodes);
    let schema = compile_schema(&ns);
    let args = &schema[1].as_ref().unwrap().args;
    assert_eq!(args.len(), 3);
    assert_eq!(args[0].name, "name");
    assert_eq!(args[0].default, Some(s("world")));
    assert_eq!(args[1].default, Some(s("1")));
    assert_eq!(args[2].default, None);
}

#[test]
fn attribute_default_wins_over_declared_default() {
    let mut nodes = sample();
    nodes[1].params[0] = param("name", Some("declared"), Some("attribute"));
    let ns = ns_of(nodes);
    let schema = compile_schema(&ns);
    assert_eq!(schema[1].as_ref().unwrap().args[0].default, Some(s("attribute")));
}

#[test]
fn parameter_structures_refer_to_parents() {
    let mut nodes = sample();
    nodes[0].attrs.push(attr("derive_debug_for_parameters", None));
    let ns = ns_of(nodes);
    let ps = supplement(&ns);
    assert_eq!(ps[0].as_ref().unwrap().super_ref, None);
    assert!(ps[0].as_ref().unwrap().derive_debug);
    assert_eq!(ps[3].as_ref().unwrap().super_ref, Some(2));
    assert_eq!(ps[1].as_ref().unwrap().fields[0].name, "name");
    assert!(ps[4].is_none());
}

#[test]
fn renamed_link_dispatches_to_the_original_leaf() {
    let ns = ns_of(sample());
    assert_eq!(route_path(&ns, &strings(&["hello"])), Route::Leaf(1));
    assert_eq!(route_path(&ns, &strings(&["greet"])), Route::Leaf(1));
    let schema = compile_schema(&ns);
    let cmd = schema[4].as_ref().unwrap();
    assert_eq!(cmd.name, "hello");
    assert_eq!(cmd.kind, CommandKind::Link(Target::Node(1)));
}

#[test]
fn omitted_argument_takes_its_default() {
    let ns = ns_of(sample());
    match dispatch(&ns, &strings(&["greet"]), &vec![None]) {
        Outcome::Call(l, args) => {
            assert_eq!(l, 1);
            assert_eq!(args, strings(&["world"]));
        }
        _ => panic!("expected a call"),
    }
}

#[test]
fn given_argument_overrides_the_default() {
    let ns = ns_of(sample());
    match dispatch(&ns, &strings(&["hello"]), &vec![Some(s("moon"))]) {
        Outcome::Call(l, args) => {
            assert_eq!(l, 1);
            assert_eq!(args, strings(&["moon"]));
        }
        _ => panic!("expected a call"),
    }
}

#[test]
fn argument_without_value_or_default_is_missing() {
    let mut nodes = sample();
    nodes[1].params.push(param("count", None, None));
    let ns = ns_of(nodes);
    match dispatch(&ns, &strings(&["greet"]), &vec![]) {
        Outcome::MissingArgument(1, 1) => {}
        _ => panic!("expected a missing argument"),
    }
}

#[test]
fn group_invocation_only_shows_help() {
    let ns = ns_of(sample());
    assert!(matches!(dispatch(&ns, &strings(&["admin"]), &vec![]), Outcome::Help(2)));
    assert!(matches!(dispatch(&ns, &vec![], &vec![]), Outcome::Help(0)));
}

#[test]
fn unknown_segment_without_tasks_is_not_found() {
    let ns = ns_of(sample());
    assert!(matches!(dispatch(&ns, &strings(&["admin", "nope"]), &vec![]), Outcome::NotFound(1)));
    assert!(matches!(dispatch(&ns, &strings(&["greet", "extra"]), &vec![]), Outcome::NotFound(1)));
}

#[test]
fn external_link_hands_on_the_rest() {
    let mut nodes = sample();
    nodes.push(link("ext", 0, &["other_tool", "cli"], false));
    let ns = ns_of(nodes);
    assert!(matches!(dispatch(&ns, &strings(&["ext", "x"]), &vec![]), Outcome::External(5, 1)));
}

#[test]
fn unknown_segment_goes_to_tasks_and_is_not_found() {
    let mut nodes = sample();
    nodes[0].attrs.push(attr("tasks", None));
    let ns = ns_of(nodes);
    let schema = compile_schema(&ns);
    assert!(schema[0].as_ref().unwrap().allow_external_subcommands);
    assert!(!schema[2].as_ref().unwrap().allow_external_subcommands);
    let path = strings(&["deploy", "fast"]);
    match dispatch(&ns, &path, &vec![]) {
        Outcome::Task(0, 0) => {}
        _ => panic!("expected a task"),
    }
    let tasks = vec![TaskEntry { name: s("build"), help: s("Builds it") }];
    assert!(matches!(execute_task(&tasks, &path, 0), TaskRun::NotFound));
    assert_eq!(show_help_for_task(&tasks, &s("deploy")), None);
}

#[test]
fn known_task_runs_with_the_rest() {
    let tasks = vec![
        TaskEntry { name: s("build"), help: s("Builds it") },
        TaskEntry { name: s("deploy"), help: s("Ships it") },
    ];
    match execute_task(&tasks, &strings(&["deploy", "fast", "now"]), 0) {
        TaskRun::Run(i, rest) => {
            assert_eq!(i, 1);
            assert_eq!(rest, strings(&["fast", "now"]));
        }
        TaskRun::NotFound => panic!("expected a task"),
    }
    assert_eq!(find_task(&tasks, &s("build")), Some(0));
    assert_eq!(show_help_for_task(&tasks, &s("deploy")), Some(s("Ships it")));
}

#[test]
fn compiling_twice_gives_the_same_output() {
    let a = tusks(DeclTree { nodes: sample() }, false).ok().unwrap();
    let b = tusks(DeclTree { nodes: sample() }, false).ok().unwrap();
    assert_eq!(a.schema.len(), b.schema.len());
    for (x, y) in a.schema.iter().zip(b.schema.iter()) {
        match (x, y) {
            (Some(x), Some(y)) => {
                assert_eq!(x.name, y.name);
                assert_eq!(x.parent, y.parent);
                assert_eq!(x.kind, y.kind);
                assert_eq!(x.args.len(), y.args.len());
            }
            (None, None) => {}
            _ => panic!("runs disagree"),
        }
    }
    assert_eq!(a.namespace.included, b.namespace.included);
    assert_eq!(a.namespace.targets, b.namespace.targets);
}

#[test]
fn cleaning_removes_command_annotations() {
    let mut nodes = sample();
    nodes[0].markers = strings(&["command", "doc"]);
    nodes[1].markers = strings(&["command", "default", "inline"]);
    nodes[1].params[0].markers = strings(&["arg", "allow"]);
    nodes[2].markers = strings(&["skip", "subcommands"]);
    nodes[3].markers = strings(&["command"]);
    nodes[4].markers = strings(&["command"]);
    let c = clean_attributes_from_module(&DeclTree { nodes });
    assert_eq!(c.nodes[0], strings(&["doc"]));
    assert_eq!(c.nodes[1], strings(&["inline"]));
    assert_eq!(c.params[1][0], strings(&["allow"]));
    assert_eq!(c.nodes[2], strings(&["subcommands"]));
    assert_eq!(c.nodes[3], strings(&["command"]));
    assert_eq!(c.nodes[4], Vec::<String>::new());
}

#[test]
fn glob_link_brings_in_the_children_of_its_target() {
    let nodes = vec![
        group("cli", 0),
        group("tools", 0),
        leaf("lint", 1),
        group("main", 0),
        link("*", 3, &["super", "tools"], true),
        leaf("run", 3),
    ];
    let ns = ns_of(nodes);
    assert_eq!(ns.targets[4], Some(Target::Node(1)));
    assert_eq!(route_path(&ns, &strings(&["main", "lint"])), Route::Leaf(2));
    assert_eq!(route_path(&ns, &strings(&["main", "run"])), Route::Leaf(5));
    assert_eq!(route_path(&ns, &strings(&["main", "fmt"])), Route::NotFound(1));
    let schema = compile_schema(&ns);
    assert_eq!(schema[4].as_ref().unwrap().kind, CommandKind::Glob(Target::Node(1)));
}

#[test]
fn parameter_default_attribute_is_read() {
    let d = interpret_param_attrs(&vec![attr("default", Some("1")), attr("default", Some("2"))]);
    assert_eq!(d.ok().unwrap(), Some(s("2")));
    assert_eq!(interpret_param_attrs(&vec![]).ok().unwrap(), None);
}

#[test]
fn parameter_default_needs_a_value() {
    match interpret_param_attrs(&vec![attr("default", None)]) {
        Err(AttrError::Malformed(k)) => assert_eq!(k, "default"),
        _ => panic!("expected a malformed default"),
    }
    match interpret_param_attrs(&vec![attr("short", None)]) {
        Err(AttrError::Unknown(k)) => assert_eq!(k, "short"),
        _ => panic!("expected an unknown key"),
    }
}

#[test]
fn help_text_reaches_the_schema() {
    let mut nodes = sample();
    nodes[1].help = Some(s("Greets someone"));
    let ns = ns_of(nodes);
    let schema = compile_schema(&ns);
    assert_eq!(schema[1].as_ref().unwrap().help, Some(s("Greets someone")));
    assert_eq!(schema[2].as_ref().unwrap().help, None);
}
