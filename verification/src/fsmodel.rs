//! The filesystem state the sync engine is specified against: a finite map
//! from absolute path strings to nodes (regular file with text content,
//! symbolic link with its stored destination, or directory). The engine
//! owns this state exclusively for the duration of a sync.

use vstd::prelude::*;
use vstd::hash_map::StringHashMap;

verus! {

/// One filesystem node.
#[derive(Debug)]
pub enum FsNode {
    /// A regular file and its text content.
    File(String),
    /// A symbolic link and the destination string stored in it (verbatim,
    /// not canonicalised).
    Symlink(String),
    /// A directory.
    Dir,
}

/// The mathematical content of an `FsNode`.
pub enum NodeModel {
    File(Seq<char>),
    Symlink(Seq<char>),
    Dir,
}

impl View for FsNode {
    type V = NodeModel;

    open spec fn view(&self) -> NodeModel {
        match self {
            FsNode::File(c) => NodeModel::File(c@),
            FsNode::Symlink(d) => NodeModel::Symlink(d@),
            FsNode::Dir => NodeModel::Dir,
        }
    }
}

/// The filesystem state: paths to nodes.
pub type Vfs = StringHashMap<FsNode>;

/// The mathematical model of a filesystem state.
pub open spec fn vfs_model(m: Map<Seq<char>, FsNode>) -> Map<Seq<char>, NodeModel> {
    m.map_values(|n: FsNode| n@)
}

/// A path is in the model exactly when it is in the state, with the node's
/// model as its value.
pub proof fn lemma_vfs_model_key(m: Map<Seq<char>, FsNode>, k: Seq<char>)
    ensures
        vfs_model(m).contains_key(k) == m.contains_key(k),
        m.contains_key(k) ==> vfs_model(m)[k] == m[k]@,
{
}

/// Inserting a node inserts its model.
pub proof fn lemma_model_insert(m: Map<Seq<char>, FsNode>, k: Seq<char>, v: FsNode)
    ensures
        vfs_model(m.insert(k, v)) == vfs_model(m).insert(k, v@),
{
    assert(vfs_model(m.insert(k, v)) =~= vfs_model(m).insert(k, v@));
}

/// Removing a path removes it from the model.
pub proof fn lemma_model_remove(m: Map<Seq<char>, FsNode>, k: Seq<char>)
    ensures
        vfs_model(m.remove(k)) == vfs_model(m).remove(k),
{
    assert(vfs_model(m.remove(k)) =~= vfs_model(m).remove(k));
}

/// A copy of a node with the same model.
pub fn clone_node(n: &FsNode) -> (r: FsNode)
    ensures
        r@ == n@,
{
    match n {
        FsNode::File(c) => FsNode::File(c.clone()),
        FsNode::Symlink(d) => FsNode::Symlink(d.clone()),
        FsNode::Dir => FsNode::Dir,
    }
}

} // verus!
