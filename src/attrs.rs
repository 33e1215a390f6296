use vstd::prelude::*;

verus! {

/// One `key` or `key = value` entry of an attribute list, as written.
pub struct Attr {
    pub key: String,
    pub value: Option<String>,
}

/// The structured configuration that switches on the dynamic task registry.
pub struct TasksConfig {
    pub setting: Option<String>,
}

/// The interpreted attributes of one group or leaf operation.
pub struct NodeAttrs {
    pub debug: bool,
    pub root: bool,
    pub derive_debug_for_parameters: bool,
    pub tasks: Option<TasksConfig>,
    pub skip: bool,
}

/// The closed set of attribute keys a node may carry.
#[derive(PartialEq, Eq, Structural, Clone, Copy, Debug)]
pub enum AttrKind {
    Debug,
    Root,
    DeriveDebugForParameters,
    Tasks,
    Skip,
}

pub enum AttrError {
    /// The key is not one of the recognised attribute names.
    Unknown(String),
    /// A boolean key carries a value other than `true` or `false`.
    Malformed(String),
}

pub open spec fn kind_of(k: Seq<char>) -> Option<AttrKind> {
    if k == "debug"@ {
        Some(AttrKind::Debug)
    } else if k == "root"@ {
        Some(AttrKind::Root)
    } else if k == "derive_debug_for_parameters"@ {
        Some(AttrKind::DeriveDebugForParameters)
    } else if k == "tasks"@ {
        Some(AttrKind::Tasks)
    } else if k == "skip"@ {
        Some(AttrKind::Skip)
    } else {
        None
    }
}

/// The boolean a value denotes; a bare key means `true`.
pub open spec fn bool_of(v: Option<String>) -> Option<bool> {
    match v {
        None => Some(true),
        Some(s) => if s@ == "true"@ {
            Some(true)
        } else if s@ == "false"@ {
            Some(false)
        } else {
            None
        },
    }
}

pub open spec fn no_attrs() -> NodeAttrs {
    NodeAttrs {
        debug: false,
        root: false,
        derive_debug_for_parameters: false,
        tasks: None,
        skip: false,
    }
}

/// The effect of one entry on the attributes read so far: each key sets only its own field.
pub open spec fn apply_attr(acc: NodeAttrs, a: Attr) -> Result<NodeAttrs, AttrError> {
    match kind_of(a.key@) {
        None => Err(AttrError::Unknown(a.key)),
        Some(AttrKind::Tasks) => Ok(NodeAttrs { tasks: Some(TasksConfig { setting: a.value }), ..acc }),
        Some(k) => match bool_of(a.value) {
            None => Err(AttrError::Malformed(a.key)),
            Some(b) => match k {
                AttrKind::Debug => Ok(NodeAttrs { debug: b, ..acc }),
                AttrKind::Root => Ok(NodeAttrs { root: b, ..acc }),
                AttrKind::DeriveDebugForParameters => Ok(
                    NodeAttrs { derive_debug_for_parameters: b, ..acc },
                ),
                _ => Ok(NodeAttrs { skip: b, ..acc }),
            },
        },
    }
}

/// The entries read left to right; a later entry overrides an earlier one, and the first bad
/// entry decides the error.
pub open spec fn interp_list(s: Seq<Attr>) -> Result<NodeAttrs, AttrError>
    decreases s.len(),
{
    if s.len() == 0 {
        Ok(no_attrs())
    } else {
        match interp_list(s.drop_last()) {
            Err(e) => Err(e),
            Ok(acc) => apply_attr(acc, s.last()),
        }
    }
}

/// The attributes of a node, with the debug flag also forced on by the global switch.
pub open spec fn interp(s: Seq<Attr>, global_debug: bool) -> Result<NodeAttrs, AttrError> {
    match interp_list(s) {
        Err(e) => Err(e),
        Ok(a) => Ok(NodeAttrs { debug: a.debug || global_debug, ..a }),
    }
}

proof fn lemma_error_persists(s: Seq<Attr>, i: int)
    requires
        0 <= i <= s.len(),
        interp_list(s.subrange(0, i)) is Err,
    ensures
        interp_list(s) == interp_list(s.subrange(0, i)),
    decreases s.len() - i,
{
    if i < s.len() {
        assert(s.subrange(0, i + 1).drop_last() =~= s.subrange(0, i));
        lemma_error_persists(s, i + 1);
    } else {
        assert(s.subrange(0, i) =~= s);
    }
}

pub fn classify(key: &String) -> (r: Option<AttrKind>)
    ensures
        r == kind_of(key@),
{
    let debug = "debug".to_owned();
    let root = "root".to_owned();
    let derive = "derive_debug_for_parameters".to_owned();
    let tasks = "tasks".to_owned();
    let skip = "skip".to_owned();
    if *key == debug {
        Some(AttrKind::Debug)
    } else if *key == root {
        Some(AttrKind::Root)
    } else if *key == derive {
        Some(AttrKind::DeriveDebugForParameters)
    } else if *key == tasks {
        Some(AttrKind::Tasks)
    } else if *key == skip {
        Some(AttrKind::Skip)
    } else {
        None
    }
}

pub fn parse_bool(v: &Option<String>) -> (r: Option<bool>)
    ensures
        r == bool_of(*v),
{
    match v {
        None => Some(true),
        Some(s) => {
            let t = "true".to_owned();
            let f = "false".to_owned();
            if *s == t {
                Some(true)
            } else if *s == f {
                Some(false)
            } else {
                None
            }
        },
    }
}

fn clone_opt(v: &Option<String>) -> (r: Option<String>)
    ensures
        r == *v,
{
    match v {
        None => None,
        Some(s) => Some(s.clone()),
    }
}

/// Interprets a node's attribute list; `global_debug` is the build-wide debug switch.
pub fn interpret_attrs(attrs: &Vec<Attr>, global_debug: bool) -> (r: Result<NodeAttrs, AttrError>)
    ensures
        r == interp(attrs@, global_debug),
{
    let mut acc = NodeAttrs {
        debug: false,
        root: false,
        derive_debug_for_parameters: false,
        tasks: None,
        skip: false,
    };
    let mut i: usize = 0;
    while i < attrs.len()
        invariant
            0 <= i <= attrs.len(),
            interp_list(attrs@.subrange(0, i as int)) == Ok::<NodeAttrs, AttrError>(acc),
        decreases attrs.len() - i,
    {
        let a = &attrs[i];
        assert(attrs@.subrange(0, i + 1).drop_last() =~= attrs@.subrange(0, i as int));
        assert(attrs@.subrange(0, i + 1).last() == *a);
        match classify(&a.key) {
            None => {
                proof {
                    lemma_error_persists(attrs@, i + 1);
                }
                return Err(AttrError::Unknown(a.key.clone()));
            },
            Some(AttrKind::Tasks) => {
                acc.tasks = Some(TasksConfig { setting: clone_opt(&a.value) });
            },
            Some(k) => {
                match parse_bool(&a.value) {
                    None => {
                        proof {
                            lemma_error_persists(attrs@, i + 1);
                        }
                        return Err(AttrError::Malformed(a.key.clone()));
                    },
                    Some(b) => {
                        match k {
                            AttrKind::Debug => {
                                acc.debug = b;
                            },
                            AttrKind::Root => {
                                acc.root = b;
                            },
                            AttrKind::DeriveDebugForParameters => {
                                acc.derive_debug_for_parameters = b;
                            },
                            _ => {
                                acc.skip = b;
                            },
                        }
                    },
                }
            },
        }
        i = i + 1;
    }
    assert(attrs@.subrange(0, i as int) =~= attrs@);
    acc.debug = acc.debug || global_debug;
    Ok(acc)
}

/// The effect of one entry of a parameter's attribute list: only `default = value` is known.
pub open spec fn apply_param_attr(a: Attr) -> Result<Option<String>, AttrError> {
    if a.key@ != "default"@ {
        Err(AttrError::Unknown(a.key))
    } else {
        match a.value {
            Some(v) => Ok(Some(v)),
            None => Err(AttrError::Malformed(a.key)),
        }
    }
}

/// The default a parameter's attributes give, if any; the last `default` wins and the first bad
/// entry decides the error.
pub open spec fn param_default_spec(s: Seq<Attr>) -> Result<Option<String>, AttrError>
    decreases s.len(),
{
    if s.len() == 0 {
        Ok(None)
    } else {
        match param_default_spec(s.drop_last()) {
            Err(e) => Err(e),
            Ok(_) => apply_param_attr(s.last()),
        }
    }
}

proof fn lemma_param_error_persists(s: Seq<Attr>, i: int)
    requires
        0 <= i <= s.len(),
        param_default_spec(s.subrange(0, i)) is Err,
    ensures
        param_default_spec(s) == param_default_spec(s.subrange(0, i)),
    decreases s.len() - i,
{
    if i < s.len() {
        assert(s.subrange(0, i + 1).drop_last() =~= s.subrange(0, i));
        lemma_param_error_persists(s, i + 1);
    } else {
        assert(s.subrange(0, i) =~= s);
    }
}

/// Interprets the attribute list of one parameter.
pub fn interpret_param_attrs(attrs: &Vec<Attr>) -> (r: Result<Option<String>, AttrError>)
    ensures
        r == param_default_spec(attrs@),
{
    let default_kw = "default".to_owned();
    let mut acc: Option<String> = None;
    let mut i: usize = 0;
    while i < attrs.len()
        invariant
            0 <= i <= attrs.len(),
            default_kw@ == "default"@,
            param_default_spec(attrs@.subrange(0, i as int)) == Ok::<Option<String>, AttrError>(acc),
        decreases attrs.len() - i,
    {
        let a = &attrs[i];
        assert(attrs@.subrange(0, i + 1).drop_last() =~= attrs@.subrange(0, i as int));
        assert(attrs@.subrange(0, i + 1).last() == *a);
        if a.key != default_kw {
            proof {
                lemma_param_error_persists(attrs@, i + 1);
            }
            return Err(AttrError::Unknown(a.key.clone()));
        }
        match &a.value {
            Some(v) => {
                acc = Some(v.clone());
            },
            None => {
                proof {
                    lemma_param_error_persists(attrs@, i + 1);
                }
                return Err(AttrError::Malformed(a.key.clone()));
            },
        }
        i = i + 1;
    }
    assert(attrs@.subrange(0, i as int) =~= attrs@);
    Ok(acc)
}

} // verus!
