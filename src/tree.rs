use vstd::prelude::*;
use crate::attrs::Attr;

verus! {

/// A formal parameter of a leaf operation, or a shared parameter of a group.
pub struct Param {
    pub name: String,
    pub type_hint: String,
    /// The default written on the parameter itself.
    pub declared_default: Option<String>,
    /// The default given by a `default` attribute; it wins over the declared one.
    pub attr_default: Option<String>,
    /// Host annotations on the parameter, by name.
    pub markers: Vec<String>,
}

/// A re-export: a path to a group or operation, or, when `glob`, to everything under it.
pub struct LinkDecl {
    pub path: Vec<String>,
    pub glob: bool,
}

pub enum DeclKind {
    Group,
    Leaf,
    Link(LinkDecl),
}

/// One item of the declaration tree. For a link, `name` is its local name.
pub struct DeclNode {
    pub name: String,
    pub parent: usize,
    pub visible: bool,
    pub kind: DeclKind,
    pub attrs: Vec<Attr>,
    pub params: Vec<Param>,
    /// The help text written for the item.
    pub help: Option<String>,
    /// Host annotations on the item, by name.
    pub markers: Vec<String>,
}

/// The declaration tree, stored parent-before-child: node 0 is the top group and every other
/// node names as parent an earlier group.
pub struct DeclTree {
    pub nodes: Vec<DeclNode>,
}

impl DeclTree {
    pub open spec fn wf(&self) -> bool {
        &&& self.nodes@.len() > 0
        &&& self.nodes@[0].kind is Group
        &&& forall|i: int|
            0 < i < self.nodes@.len() ==> {
                &&& #[trigger] self.nodes@[i].parent < i
                &&& self.nodes@[self.nodes@[i].parent as int].kind is Group
            }
    }
}

/// The names from the top group down to node `i`.
pub open spec fn path_spec(t: DeclTree, i: int) -> Seq<String>
    decreases i,
{
    if i <= 0 || t.nodes@[i].parent >= i {
        seq![t.nodes@[i].name]
    } else {
        path_spec(t, t.nodes@[i].parent as int).push(t.nodes@[i].name)
    }
}

/// The path of node `i`, for reporting an error at the node that defines it.
pub fn path_of(t: &DeclTree, i: usize) -> (r: Vec<String>)
    requires
        t.wf(),
        i < t.nodes@.len(),
    ensures
        r@ == path_spec(*t, i as int),
{
    let mut acc: Vec<String> = Vec::new();
    let mut cur: usize = i;
    while cur > 0
        invariant
            t.wf(),
            cur < t.nodes@.len(),
            path_spec(*t, i as int) == path_spec(*t, cur as int) + acc@,
        decreases cur,
    {
        let node = &t.nodes[cur];
        let ghost before = acc@;
        acc.insert(0, node.name.clone());
        assert(path_spec(*t, cur as int) == path_spec(*t, node.parent as int).push(node.name));
        assert(path_spec(*t, node.parent as int) + acc@ =~= path_spec(*t, cur as int) + before);
        cur = node.parent;
    }
    let ghost before = acc@;
    acc.insert(0, t.nodes[0].name.clone());
    assert(acc@ =~= path_spec(*t, 0) + before);
    acc
}

/// One item of a grouped re-export list `use prefix::{...}`.
pub enum UseItem {
    Name(String),
    Rename(String, String),
    Glob,
}

/// A link with the local name under which it appears.
pub struct NamedLink {
    pub name: String,
    pub link: LinkDecl,
}

pub open spec fn glob_name() -> Seq<char> {
    "*"@
}

/// The link one item of a grouped list stands for, given the list's common prefix.
pub open spec fn link_of(prefix: Seq<String>, item: UseItem, name: String, link: LinkDecl) -> bool {
    match item {
        UseItem::Name(n) => name == n && link.path@ == prefix.push(n) && !link.glob,
        UseItem::Rename(n, a) => name == a && link.path@ == prefix.push(n) && !link.glob,
        UseItem::Glob => name@ == glob_name() && link.path@ == prefix && link.glob,
    }
}

fn copy_strings(v: &Vec<String>) -> (r: Vec<String>)
    ensures
        r@ == v@,
{
    let mut r: Vec<String> = Vec::new();
    let mut i: usize = 0;
    while i < v.len()
        invariant
            0 <= i <= v.len(),
            r@ == v@.subrange(0, i as int),
        decreases v.len() - i,
    {
        r.push(v[i].clone());
        i = i + 1;
        assert(r@ =~= v@.subrange(0, i as int));
    }
    assert(v@.subrange(0, i as int) =~= v@);
    r
}

/// Fans a grouped re-export list out into one link per item, each over the shared prefix.
pub fn fan_out(prefix: &Vec<String>, items: &Vec<UseItem>) -> (r: Vec<NamedLink>)
    ensures
        r@.len() == items@.len(),
        forall|k: int|
            0 <= k < items@.len() ==> link_of(prefix@, #[trigger] items@[k], r@[k].name, r@[k].link),
{
    let mut r: Vec<NamedLink> = Vec::new();
    let mut k: usize = 0;
    while k < items.len()
        invariant
            0 <= k <= items@.len(),
            r@.len() == k,
            forall|j: int| 0 <= j < k ==> link_of(prefix@, #[trigger] items@[j], r@[j].name, r@[j].link),
        decreases items@.len() - k,
    {
        let mut path = copy_strings(prefix);
        let nl = match &items[k] {
            UseItem::Name(n) => {
                path.push(n.clone());
                NamedLink { name: n.clone(), link: LinkDecl { path, glob: false } }
            },
            UseItem::Rename(n, a) => {
                path.push(n.clone());
                NamedLink { name: a.clone(), link: LinkDecl { path, glob: false } }
            },
            UseItem::Glob => NamedLink { name: "*".to_owned(), link: LinkDecl { path, glob: true } },
        };
        r.push(nl);
        k = k + 1;
    }
    r
}

} // verus!
