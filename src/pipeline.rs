use vstd::prelude::*;
use crate::clean::{Cleaned, cleaned_post, clean_attributes_from_module};
use crate::compile::{
    Command,
    DispatchNode,
    ParamStruct,
    compile_dispatch,
    compile_schema,
    dispatch_post,
    schema_post,
    supplement,
    supplement_post,
};
use crate::extract::{BuildError, Namespace, error_ok, extract, build_ok};
use crate::tree::DeclTree;

verus! {

/// Everything one compilation pass produces from a declaration tree.
pub struct Compiled {
    pub namespace: Namespace,
    pub params: Vec<Option<ParamStruct>>,
    pub schema: Vec<Option<Command>>,
    pub dispatcher: Vec<Option<DispatchNode>>,
    pub cleaned: Cleaned,
    /// The top group is marked `root`, so the expansion gets the "parse then dispatch" entry.
    pub exec_entry: bool,
}

pub open spec fn compiled_ok(tree: DeclTree, g: bool, c: Compiled) -> bool {
    let ns = c.namespace;
    &&& ns.tree == tree
    &&& ns.global_debug == g
    &&& ns.wf()
    &&& supplement_post(ns, c.params@)
    &&& schema_post(ns, c.schema@)
    &&& dispatch_post(ns, c.dispatcher@)
    &&& cleaned_post(tree, c.cleaned)
    &&& c.exec_entry == ns.attrs@[0].root
}

pub open spec fn tusks_post(tree: DeclTree, g: bool, r: Result<Compiled, BuildError>) -> bool {
    &&& r is Ok <==> build_ok(tree, g)
    &&& r matches Ok(c) ==> compiled_ok(tree, g, c)
    &&& r matches Err(e) ==> error_ok(tree, g, e)
}

/// Runs the whole pass: extraction and checks, parameter structures, the schema, the dispatcher
/// and the cleaned annotations. `global_debug` is the build-wide debug switch.
pub fn tusks(tree: DeclTree, global_debug: bool) -> (r: Result<Compiled, BuildError>)
    requires
        tree.wf(),
    ensures
        tusks_post(tree, global_debug, r),
{
    let namespace = match extract(tree, global_debug) {
        Ok(ns) => ns,
        Err(e) => {
            return Err(e);
        },
    };
    let params = supplement(&namespace);
    let schema = compile_schema(&namespace);
    let dispatcher = compile_dispatch(&namespace);
    let cleaned = clean_attributes_from_module(&namespace.tree);
    let exec_entry = namespace.attrs[0].root;
    Ok(Compiled { namespace, params, schema, dispatcher, cleaned, exec_entry })
}

} // verus!
