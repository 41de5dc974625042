//! Properties of the sync engine, proved over the specification functions:
//! a pre-existing target survives at its backup path, each strategy places
//! exactly what it promises, and syncing an entry twice reproduces the same
//! artifact while the first run's artifact becomes the second run's backup.

use vstd::prelude::*;
use crate::fsmodel::NodeModel;
use crate::manifest::{EntryModel, EntryType};
use crate::paths::{spec_parent_of, spec_backup_path, lemma_parent_of_shorter,
    lemma_backup_path_ne, lemma_backup_path_longer_than_parent};
use crate::sync::{spec_mkdirs, spec_apply_entry};
use crate::template::spec_render;

verus! {

/// Every directory from the root down to `p` exists as a directory.
pub open spec fn dirs_ready(m: Map<Seq<char>, NodeModel>, p: Seq<char>) -> bool
    decreases p.len(),
    via dirs_ready_decreases
{
    p.len() == 0 || p == seq!['/'] || (m.contains_key(p) && m[p] is Dir && dirs_ready(
        m,
        spec_parent_of(p),
    ))
}

#[via_fn]
proof fn dirs_ready_decreases(m: Map<Seq<char>, NodeModel>, p: Seq<char>) {
    if p.len() > 0 && p != seq!['/'] {
        lemma_parent_of_shorter(p);
    }
}

/// Directory creation never changes or removes an existing node.
pub proof fn lemma_mkdirs_preserves(m: Map<Seq<char>, NodeModel>, p: Seq<char>)
    ensures
        forall|k: Seq<char>|
            #[trigger] m.contains_key(k) ==> spec_mkdirs(m, p).0.contains_key(k) && spec_mkdirs(
                m,
                p,
            ).0[k] == m[k],
    decreases p.len(),
{
    if p.len() == 0 || p == seq!['/'] {
        assert(spec_mkdirs(m, p).0 == m);
    } else {
        lemma_parent_of_shorter(p);
        lemma_mkdirs_preserves(m, spec_parent_of(p));
        let m1 = spec_mkdirs(m, spec_parent_of(p)).0;
        let ok = spec_mkdirs(m, spec_parent_of(p)).1;
        if !ok {
            assert(spec_mkdirs(m, p).0 == m1);
        } else if m1.contains_key(p) {
            assert(spec_mkdirs(m, p).0 == m1);
        } else {
            assert(spec_mkdirs(m, p).0 == m1.insert(p, NodeModel::Dir));
            assert forall|k: Seq<char>| #[trigger] m.contains_key(k) implies spec_mkdirs(
                m,
                p,
            ).0.contains_key(k) && spec_mkdirs(m, p).0[k] == m[k] by {
                assert(m1.contains_key(k) && m1[k] == m[k]);
                assert(k != p);
            }
        }
    }
}

/// Directory creation only adds directories, and only at paths no longer
/// than `p`.
pub proof fn lemma_mkdirs_new_keys(m: Map<Seq<char>, NodeModel>, p: Seq<char>)
    ensures
        forall|k: Seq<char>|
            !m.contains_key(k) && #[trigger] spec_mkdirs(m, p).0.contains_key(k) ==> spec_mkdirs(
                m,
                p,
            ).0[k] == NodeModel::Dir && k.len() <= p.len(),
    decreases p.len(),
{
    if p.len() == 0 || p == seq!['/'] {
    } else {
        lemma_parent_of_shorter(p);
        lemma_mkdirs_new_keys(m, spec_parent_of(p));
    }
}

/// Inserting a directory, or a node at a path longer than `p`, keeps the
/// directory chain of `p` intact.
pub proof fn lemma_dirs_ready_insert(
    m: Map<Seq<char>, NodeModel>,
    p: Seq<char>,
    k: Seq<char>,
    v: NodeModel,
)
    requires
        dirs_ready(m, p),
        v is Dir || k.len() > p.len(),
    ensures
        dirs_ready(m.insert(k, v), p),
    decreases p.len(),
{
    if p.len() == 0 || p == seq!['/'] {
    } else {
        lemma_parent_of_shorter(p);
        lemma_dirs_ready_insert(m, spec_parent_of(p), k, v);
    }
}

/// Removing a node at a path longer than `p` keeps the directory chain of
/// `p` intact.
pub proof fn lemma_dirs_ready_remove(m: Map<Seq<char>, NodeModel>, p: Seq<char>, k: Seq<char>)
    requires
        dirs_ready(m, p),
        k.len() > p.len(),
    ensures
        dirs_ready(m.remove(k), p),
    decreases p.len(),
{
    if p.len() == 0 || p == seq!['/'] {
    } else {
        lemma_parent_of_shorter(p);
        lemma_dirs_ready_remove(m, spec_parent_of(p), k);
    }
}

/// When directory creation succeeds, the whole chain stands.
pub proof fn lemma_mkdirs_makes_ready(m: Map<Seq<char>, NodeModel>, p: Seq<char>)
    requires
        spec_mkdirs(m, p).1,
    ensures
        dirs_ready(spec_mkdirs(m, p).0, p),
    decreases p.len(),
{
    if p.len() == 0 || p == seq!['/'] {
    } else {
        lemma_parent_of_shorter(p);
        let m1 = spec_mkdirs(m, spec_parent_of(p)).0;
        lemma_mkdirs_makes_ready(m, spec_parent_of(p));
        if !m1.contains_key(p) {
            lemma_dirs_ready_insert(m1, spec_parent_of(p), p, NodeModel::Dir);
        }
    }
}

/// On a standing directory chain, directory creation succeeds and changes
/// nothing.
pub proof fn lemma_mkdirs_noop(m: Map<Seq<char>, NodeModel>, p: Seq<char>)
    requires
        dirs_ready(m, p),
    ensures
        spec_mkdirs(m, p).0 == m,
        spec_mkdirs(m, p).1,
    decreases p.len(),
{
    if p.len() == 0 || p == seq!['/'] {
    } else {
        lemma_parent_of_shorter(p);
        lemma_mkdirs_noop(m, spec_parent_of(p));
    }
}

/// A sync reports exactly one outcome per entry, in entry order.
pub proof fn lemma_sync_one_outcome_per_entry(
    m: Map<Seq<char>, NodeModel>,
    es: Seq<EntryModel>,
    home: Seq<char>,
    ts: Seq<char>,
)
    ensures
        crate::sync::spec_sync(m, es, home, ts).1.len() == es.len(),
    decreases es.len(),
{
    if es.len() == 0 {
    } else {
        let m1 = spec_apply_entry(m, es[0], home, ts).0;
        lemma_sync_one_outcome_per_entry(m1, es.skip(1), home, ts);
    }
}

/// When an entry whose target pre-exists syncs successfully, the prior node
/// survives untouched at the computed backup path, and the target holds the
/// new artifact.
pub proof fn lemma_backup_preserved(
    m: Map<Seq<char>, NodeModel>,
    e: EntryModel,
    home: Seq<char>,
    ts: Seq<char>,
)
    requires
        m.contains_key(e.target),
        spec_apply_entry(m, e, home, ts).1 is None,
    ensures
        spec_apply_entry(m, e, home, ts).0.contains_key(spec_backup_path(e.target, ts)),
        spec_apply_entry(m, e, home, ts).0[spec_backup_path(e.target, ts)] == m[e.target],
        spec_apply_entry(m, e, home, ts).0.contains_key(e.target),
{
    let bp = spec_backup_path(e.target, ts);
    lemma_backup_path_ne(e.target, ts);
    let m1 = m.remove(e.target).insert(bp, m[e.target]);
    assert(m1.contains_key(bp) && m1[bp] == m[e.target]);
    lemma_mkdirs_preserves(m1, spec_parent_of(e.target));
    let m2 = spec_mkdirs(m1, spec_parent_of(e.target)).0;
    assert(m2.contains_key(bp) && m2[bp] == m[e.target]);
}

/// A successfully synced symlink entry leaves the target as a link whose
/// stored destination is exactly the entry's source, verbatim.
pub proof fn lemma_symlink_stores_source(
    m: Map<Seq<char>, NodeModel>,
    e: EntryModel,
    home: Seq<char>,
    ts: Seq<char>,
)
    requires
        e.entry_type == EntryType::Symlink,
        spec_apply_entry(m, e, home, ts).1 is None,
    ensures
        spec_apply_entry(m, e, home, ts).0.contains_key(e.target),
        spec_apply_entry(m, e, home, ts).0[e.target] == NodeModel::Symlink(e.source),
{
}

/// A successfully synced copy entry leaves the target as a file whose
/// content equals the source file's content at sync time. The source must
/// not alias the target or its backup path: moving it aside would count as
/// an external change.
pub proof fn lemma_copy_places_source_content(
    m: Map<Seq<char>, NodeModel>,
    e: EntryModel,
    home: Seq<char>,
    ts: Seq<char>,
)
    requires
        e.entry_type == EntryType::Copy,
        spec_apply_entry(m, e, home, ts).1 is None,
        e.source != e.target,
        e.source != spec_backup_path(e.target, ts),
    ensures
        m.contains_key(e.source) && m[e.source] is File,
        spec_apply_entry(m, e, home, ts).0.contains_key(e.target),
        spec_apply_entry(m, e, home, ts).0[e.target] == NodeModel::File(m[e.source]->File_0),
{
    let m1 = if m.contains_key(e.target) {
        m.remove(e.target).insert(spec_backup_path(e.target, ts), m[e.target])
    } else {
        m
    };
    lemma_mkdirs_preserves(m1, spec_parent_of(e.target));
    lemma_mkdirs_new_keys(m1, spec_parent_of(e.target));
}

/// A successfully synced template entry leaves the target as a file holding
/// the source's content with every `{{HOME}}` replaced by `home`. The
/// source must not alias the target or its backup path.
pub proof fn lemma_template_renders_source(
    m: Map<Seq<char>, NodeModel>,
    e: EntryModel,
    home: Seq<char>,
    ts: Seq<char>,
)
    requires
        e.entry_type == EntryType::Template,
        spec_apply_entry(m, e, home, ts).1 is None,
        e.source != e.target,
        e.source != spec_backup_path(e.target, ts),
    ensures
        m.contains_key(e.source) && m[e.source] is File,
        spec_apply_entry(m, e, home, ts).0.contains_key(e.target),
        spec_apply_entry(m, e, home, ts).0[e.target] == NodeModel::File(
            spec_render(m[e.source]->File_0, home),
        ),
{
    let m1 = if m.contains_key(e.target) {
        m.remove(e.target).insert(spec_backup_path(e.target, ts), m[e.target])
    } else {
        m
    };
    lemma_mkdirs_preserves(m1, spec_parent_of(e.target));
    lemma_mkdirs_new_keys(m1, spec_parent_of(e.target));
}

/// Idempotence: syncing an entry again, with no external change in between,
/// succeeds, reproduces the same artifact at the target, and turns the
/// first run's artifact into the second run's backup. The entry's source
/// must not alias its target or either run's backup path, and the target
/// must name a file below its parent (not the root or the empty string).
pub proof fn lemma_sync_idempotent(
    m: Map<Seq<char>, NodeModel>,
    e: EntryModel,
    home: Seq<char>,
    ts1: Seq<char>,
    ts2: Seq<char>,
)
    requires
        spec_apply_entry(m, e, home, ts1).1 is None,
        e.source != e.target,
        e.source != spec_backup_path(e.target, ts1),
        e.source != spec_backup_path(e.target, ts2),
        spec_parent_of(e.target).len() < e.target.len(),
    ensures
        ({
            let m1 = spec_apply_entry(m, e, home, ts1).0;
            let (m2, r2) = spec_apply_entry(m1, e, home, ts2);
            r2 is None && m1.contains_key(e.target) && m2.contains_key(e.target) && m2[e.target]
                == m1[e.target] && m2.contains_key(spec_backup_path(e.target, ts2)) && m2[
                spec_backup_path(e.target, ts2)
            ] == m1[e.target]
        }),
{
    let parent = spec_parent_of(e.target);
    let bp1 = spec_backup_path(e.target, ts1);
    let bp2 = spec_backup_path(e.target, ts2);
    lemma_backup_path_ne(e.target, ts1);
    lemma_backup_path_ne(e.target, ts2);
    lemma_backup_path_longer_than_parent(e.target, ts2);
    // First run, step by step.
    let ma = if m.contains_key(e.target) {
        m.remove(e.target).insert(bp1, m[e.target])
    } else {
        m
    };
    let mb = spec_mkdirs(ma, parent).0;
    lemma_mkdirs_preserves(ma, parent);
    lemma_mkdirs_new_keys(ma, parent);
    lemma_mkdirs_makes_ready(ma, parent);
    let m1 = spec_apply_entry(m, e, home, ts1).0;
    // For copy and template entries the source file is untouched by the
    // first run: it is neither the target, nor a backup path, nor a
    // freshly created directory.
    let art = m1[e.target];
    assert(m1 == mb.insert(e.target, art));
    // Second run: backup of the first run's artifact.
    let mc = m1.remove(e.target).insert(bp2, art);
    lemma_dirs_ready_insert(mb, parent, e.target, art);
    lemma_dirs_ready_remove(m1, parent, e.target);
    lemma_dirs_ready_insert(m1.remove(e.target), parent, bp2, art);
    lemma_mkdirs_noop(mc, parent);
    match e.entry_type {
        EntryType::Symlink => {},
        EntryType::Copy => {
            assert(mc.contains_key(e.source) && mc[e.source] == m[e.source]);
        },
        EntryType::Template => {
            assert(mc.contains_key(e.source) && mc[e.source] == m[e.source]);
        },
    }
}

} // verus!
