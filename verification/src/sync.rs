//! The sync engine. For each entry, in order: a pre-existing target is
//! renamed to its backup path, the target's parent directories are created
//! as needed, and the entry is placed by its strategy (symlink, byte copy,
//! or template render). A failing entry is reported and skipped; later
//! entries still run. The engine is specified, step by step, against the
//! filesystem state of `crate::fsmodel`; rename, link creation and file
//! writes on that state always succeed, so of the error kinds only the
//! missing-source and directory-conflict ones arise here. The model does
//! not resolve link indirection either: a copy or template entry whose
//! source is a symlink node reports the missing-source error, where the
//! real filesystem calls would follow the link. For a driver of a real
//! filesystem, where any call can fail, the same per-entry control flow
//! stands under contract as a step machine (`begin_entry`, `entry_step`):
//! the driver performs each returned action and hands back its outcome,
//! and the machine decides what follows, including the backup, link and
//! write failure kinds that the in-memory state never produces.

use vstd::prelude::*;
use vstd::pervasive::unreached;
use crate::fsmodel::{FsNode, NodeModel, Vfs, vfs_model, lemma_vfs_model_key, lemma_model_insert,
    lemma_model_remove, clone_node};
use crate::manifest::{DotfileEntry, EntryModel, EntryType, entry_models};
use crate::paths::{spec_parent_of, spec_backup_path, lemma_parent_of_shorter, parent_dir,
    backup_path};
use crate::template::{spec_render, render_template_content};

verus! {

/// What went wrong with one entry. Backup, Symlink and TemplateWrite
/// classify failures of the underlying rename, link-creation and write
/// calls; on the engine's own filesystem state those calls always succeed.
#[derive(Clone, Copy, Debug, PartialEq, Eq, Structural)]
pub enum SyncErrorKind {
    Backup,
    DirectoryCreation,
    Symlink,
    Copy,
    TemplateRead,
    TemplateWrite,
}

/// Recursive directory creation below `p`: every missing ancestor becomes a
/// directory, left to right; a non-directory node at any ancestor stops the
/// walk there (what was already created stays) and reports failure.
pub open spec fn spec_mkdirs(m: Map<Seq<char>, NodeModel>, p: Seq<char>) -> (
    Map<Seq<char>, NodeModel>,
    bool,
)
    decreases p.len(),
    via spec_mkdirs_decreases
{
    if p.len() == 0 || p == seq!['/'] {
        (m, true)
    } else {
        let (m1, ok) = spec_mkdirs(m, spec_parent_of(p));
        if !ok {
            (m1, false)
        } else if m1.contains_key(p) {
            if m1[p] is Dir {
                (m1, true)
            } else {
                (m1, false)
            }
        } else {
            (m1.insert(p, NodeModel::Dir), true)
        }
    }
}

#[via_fn]
proof fn spec_mkdirs_decreases(m: Map<Seq<char>, NodeModel>, p: Seq<char>) {
    if p.len() > 0 && p != seq!['/'] {
        lemma_parent_of_shorter(p);
    }
}

/// One entry applied to the state: backup of a pre-existing target, parent
/// directory creation, then placement; the new state and the entry's error,
/// if any.
pub open spec fn spec_apply_entry(
    m: Map<Seq<char>, NodeModel>,
    e: EntryModel,
    home: Seq<char>,
    ts: Seq<char>,
) -> (Map<Seq<char>, NodeModel>, Option<SyncErrorKind>) {
    let m1 = if m.contains_key(e.target) {
        m.remove(e.target).insert(spec_backup_path(e.target, ts), m[e.target])
    } else {
        m
    };
    let (m2, ok) = spec_mkdirs(m1, spec_parent_of(e.target));
    if !ok {
        (m2, Some(SyncErrorKind::DirectoryCreation))
    } else {
        match e.entry_type {
            EntryType::Symlink => (m2.insert(e.target, NodeModel::Symlink(e.source)), None),
            EntryType::Copy => if m2.contains_key(e.source) && m2[e.source] is File {
                (m2.insert(e.target, NodeModel::File(m2[e.source]->File_0)), None)
            } else {
                (m2, Some(SyncErrorKind::Copy))
            },
            EntryType::Template => if m2.contains_key(e.source) && m2[e.source] is File {
                (
                    m2.insert(e.target, NodeModel::File(spec_render(m2[e.source]->File_0, home))),
                    None,
                )
            } else {
                (m2, Some(SyncErrorKind::TemplateRead))
            },
        }
    }
}

/// All entries applied in order, each independently: the final state and
/// the per-entry outcomes.
pub open spec fn spec_sync(
    m: Map<Seq<char>, NodeModel>,
    es: Seq<EntryModel>,
    home: Seq<char>,
    ts: Seq<char>,
) -> (Map<Seq<char>, NodeModel>, Seq<Option<SyncErrorKind>>)
    decreases es.len(),
{
    if es.len() == 0 {
        (m, Seq::empty())
    } else {
        let (m1, r0) = spec_apply_entry(m, es[0], home, ts);
        let (m2, rest) = spec_sync(m1, es.skip(1), home, ts);
        (m2, seq![r0] + rest)
    }
}

/// Creates every missing directory from the root down to `p`, exactly as
/// `spec_mkdirs` describes; reports failure when an ancestor exists as a
/// non-directory.
pub fn ensure_dirs(fs: &mut Vfs, p: &String) -> (ok: bool)
    ensures
        vfs_model(final(fs)@) == spec_mkdirs(vfs_model(old(fs)@), p@).0,
        ok == spec_mkdirs(vfs_model(old(fs)@), p@).1,
    decreases p@.len(),
{
    let n = p.as_str().unicode_len();
    if n == 0 {
        return true;
    }
    if n == 1 && p.as_str().get_char(0) == '/' {
        proof {
            assert(p@ =~= seq!['/']);
        }
        return true;
    }
    proof {
        if p@ == seq!['/'] {
            assert(p@[0] == '/');
        }
        lemma_parent_of_shorter(p@);
    }
    let parent = parent_dir(p.as_str());
    let ok = ensure_dirs(fs, &parent);
    if !ok {
        return false;
    }
    proof {
        lemma_vfs_model_key(fs@, p@);
    }
    let placed: Option<bool> = match fs.get(p.as_str()) {
        Some(node) => match node {
            FsNode::Dir => Some(true),
            _ => Some(false),
        },
        None => None,
    };
    match placed {
        Some(is_dir) => is_dir,
        None => {
            let ghost fsa = fs@;
            fs.insert(p.clone(), FsNode::Dir);
            proof {
                lemma_model_insert(fsa, p@, FsNode::Dir);
            }
            true
        },
    }
}

/// Processes one entry: backs up a pre-existing target, ensures the parent
/// directory chain, then places by the entry's strategy; exactly
/// `spec_apply_entry` on the state's model.
pub fn process_entry(fs: &mut Vfs, entry: &DotfileEntry, home: &String, timestamp: &String) -> (r:
    Option<SyncErrorKind>)
    ensures
        vfs_model(final(fs)@) == spec_apply_entry(
            vfs_model(old(fs)@),
            entry@,
            home@,
            timestamp@,
        ).0,
        r == spec_apply_entry(vfs_model(old(fs)@), entry@, home@, timestamp@).1,
{
    let ghost m0 = vfs_model(old(fs)@);
    proof {
        lemma_vfs_model_key(old(fs)@, entry.target@);
    }
    if fs.contains_key(entry.target.as_str()) {
        let node = match fs.get(entry.target.as_str()) {
            Some(n) => clone_node(n),
            None => unreached(),
        };
        let bp = backup_path(&entry.target, timestamp);
        let ghost fsa = fs@;
        fs.remove(entry.target.as_str());
        proof {
            lemma_model_remove(fsa, entry.target@);
        }
        let ghost fsb = fs@;
        fs.insert(bp, node);
        proof {
            lemma_model_insert(fsb, spec_backup_path(entry.target@, timestamp@), node);
        }
    }
    let ghost m1 = vfs_model(fs@);
    proof {
        assert(m1 == (if m0.contains_key(entry@.target) {
            m0.remove(entry@.target).insert(
                spec_backup_path(entry@.target, timestamp@),
                m0[entry@.target],
            )
        } else {
            m0
        }));
    }
    let parent = parent_dir(entry.target.as_str());
    let ok = ensure_dirs(fs, &parent);
    if !ok {
        return Some(SyncErrorKind::DirectoryCreation);
    }
    match entry.entry_type {
        EntryType::Symlink => {
            let ghost fsc = fs@;
            let node = FsNode::Symlink(entry.source.clone());
            fs.insert(entry.target.clone(), node);
            proof {
                lemma_model_insert(fsc, entry.target@, node);
            }
            None
        },
        EntryType::Copy => {
            proof {
                lemma_vfs_model_key(fs@, entry.source@);
            }
            let content: Option<String> = match fs.get(entry.source.as_str()) {
                Some(n) => match n {
                    FsNode::File(c) => Some(c.clone()),
                    _ => None,
                },
                None => None,
            };
            match content {
                Some(c) => {
                    let ghost fsc = fs@;
                    let node = FsNode::File(c);
                    fs.insert(entry.target.clone(), node);
                    proof {
                        lemma_model_insert(fsc, entry.target@, node);
                    }
                    None
                },
                None => Some(SyncErrorKind::Copy),
            }
        },
        EntryType::Template => {
            proof {
                lemma_vfs_model_key(fs@, entry.source@);
            }
            let content: Option<String> = match fs.get(entry.source.as_str()) {
                Some(n) => match n {
                    FsNode::File(c) => Some(c.clone()),
                    _ => None,
                },
                None => None,
            };
            match content {
                Some(c) => {
                    let rendered = render_template_content(&c, home);
                    let ghost fsc = fs@;
                    let node = FsNode::File(rendered);
                    fs.insert(entry.target.clone(), node);
                    proof {
                        lemma_model_insert(fsc, entry.target@, node);
                    }
                    None
                },
                None => Some(SyncErrorKind::TemplateRead),
            }
        },
    }
}

/// Syncs all entries in order, each independently: a failing entry is
/// reported in the outcome list (aligned with `entries`) and does not stop
/// the others; exactly `spec_sync` on the state's model.
pub fn sync_dotfiles(fs: &mut Vfs, entries: &Vec<DotfileEntry>, home: &String, timestamp: &String)
    -> (r: Vec<Option<SyncErrorKind>>)
    ensures
        vfs_model(final(fs)@) == spec_sync(
            vfs_model(old(fs)@),
            entry_models(entries@),
            home@,
            timestamp@,
        ).0,
        r@ == spec_sync(vfs_model(old(fs)@), entry_models(entries@), home@, timestamp@).1,
{
    let ghost m0 = vfs_model(old(fs)@);
    let ghost full = entry_models(entries@);
    let mut out: Vec<Option<SyncErrorKind>> = Vec::new();
    let mut i: usize = 0;
    proof {
        assert(full.skip(0) =~= full);
        assert(out@ + spec_sync(m0, full, home@, timestamp@).1 =~= spec_sync(
            m0,
            full,
            home@,
            timestamp@,
        ).1);
    }
    while i < entries.len()
        invariant
            i <= entries@.len(),
            full == entry_models(entries@),
            full.len() == entries@.len(),
            spec_sync(vfs_model(fs@), full.skip(i as int), home@, timestamp@).0 == spec_sync(
                m0,
                full,
                home@,
                timestamp@,
            ).0,
            out@ + spec_sync(vfs_model(fs@), full.skip(i as int), home@, timestamp@).1 == spec_sync(
                m0,
                full,
                home@,
                timestamp@,
            ).1,
        decreases entries@.len() - i,
    {
        let ghost cur = vfs_model(fs@);
        let ghost prev_out = out@;
        proof {
            assert(full.skip(i as int)[0] == full[i as int]);
            assert(full[i as int] == entries@[i as int]@);
            assert(full.skip(i as int).skip(1) =~= full.skip(i + 1));
        }
        let e = process_entry(fs, &entries[i], home, timestamp);
        out.push(e);
        proof {
            assert(out@ =~= prev_out + seq![e]);
            let stepped = spec_apply_entry(cur, full[i as int], home@, timestamp@);
            assert(vfs_model(fs@) == stepped.0 && e == stepped.1);
            assert((prev_out + seq![e]) + spec_sync(
                vfs_model(fs@),
                full.skip(i + 1),
                home@,
                timestamp@,
            ).1 =~= prev_out + (seq![e] + spec_sync(
                vfs_model(fs@),
                full.skip(i + 1),
                home@,
                timestamp@,
            ).1));
        }
        i = i + 1;
    }
    proof {
        assert(full.skip(entries@.len() as int) =~= Seq::<EntryModel>::empty());
        assert(out@ + Seq::<Option<SyncErrorKind>>::empty() =~= out@);
    }
    out
}

/// One filesystem action a driver must perform for an entry.
#[derive(Debug)]
pub enum SyncAction {
    /// Rename the pre-existing target aside to its backup path.
    Rename { from: String, to: String },
    /// Create the directory and all missing ancestors; nothing to do when
    /// the path is empty (a bare file name syncs into the working
    /// directory).
    CreateDirs { path: String },
    /// Create a symbolic link at `at` storing `dest` verbatim.
    CreateLink { dest: String, at: String },
    /// Copy the byte content of `from` to `to`.
    CopyFile { from: String, to: String },
    /// Read the text content of the template source.
    ReadFile { path: String },
    /// Write `content` to `path`, fully overwriting it.
    WriteFile { path: String, content: String },
}

/// Where an entry's processing stands between two actions.
#[derive(Clone, Copy, Debug, PartialEq, Eq, Structural)]
pub enum EntryPhase {
    /// The backup rename is in flight.
    Backup,
    /// Parent directory creation is in flight.
    Parent,
    /// The placement action (link, copy, or template write) is in flight.
    Place,
    /// The template source read is in flight.
    Read,
}

/// What the driver reports back about the last action.
#[derive(Debug)]
pub enum StepOutcome {
    Succeeded,
    Failed,
    /// A `ReadFile` action succeeded with this content.
    ReadContent(String),
}

/// What the entry's processing does next: perform an action and report its
/// outcome from the given phase, or stop with the entry's result.
#[derive(Debug)]
pub enum EntryStep {
    Act(EntryPhase, SyncAction),
    Finish(Option<SyncErrorKind>),
}

/// Which outcomes a phase can report: only a source read yields content.
pub open spec fn spec_phase_accepts(phase: EntryPhase, outcome: StepOutcome) -> bool {
    match phase {
        EntryPhase::Read => !(outcome is Succeeded),
        _ => !(outcome is ReadContent),
    }
}

/// Starts one entry against a real filesystem: the backup rename when the
/// target exists (in any form: file, link, or directory), else parent
/// directory creation straight away.
pub fn begin_entry(entry: &DotfileEntry, target_exists: bool, timestamp: &String) -> (r: EntryStep)
    ensures
        target_exists ==> (r matches EntryStep::Act(
            EntryPhase::Backup,
            SyncAction::Rename { from, to },
        ) && from@ == entry.target@ && to@ == spec_backup_path(entry.target@, timestamp@)),
        !target_exists ==> (r matches EntryStep::Act(
            EntryPhase::Parent,
            SyncAction::CreateDirs { path },
        ) && path@ == spec_parent_of(entry.target@)),
{
    if target_exists {
        let to = backup_path(&entry.target, timestamp);
        EntryStep::Act(EntryPhase::Backup, SyncAction::Rename { from: entry.target.clone(), to })
    } else {
        EntryStep::Act(
            EntryPhase::Parent,
            SyncAction::CreateDirs { path: parent_dir(entry.target.as_str()) },
        )
    }
}

/// Advances one entry after an action's outcome. A backup failure aborts
/// the entry with the backup error and nothing further is attempted; a
/// directory failure aborts it likewise; a failed placement reports the
/// strategy's own error kind (symlink, copy, or template write); a failed
/// template read reports the read error. On success the next action
/// follows: directories after backup, then the placement of the entry's
/// strategy, a template being read first and its rendering written back.
pub fn entry_step(
    entry: &DotfileEntry,
    phase: EntryPhase,
    outcome: StepOutcome,
    home: &String,
) -> (r: EntryStep)
    requires
        spec_phase_accepts(phase, outcome),
    ensures
        phase == EntryPhase::Backup && outcome is Failed ==> r == EntryStep::Finish(
            Some(SyncErrorKind::Backup),
        ),
        phase == EntryPhase::Backup && outcome is Succeeded ==> (r matches EntryStep::Act(
            EntryPhase::Parent,
            SyncAction::CreateDirs { path },
        ) && path@ == spec_parent_of(entry.target@)),
        phase == EntryPhase::Parent && outcome is Failed ==> r == EntryStep::Finish(
            Some(SyncErrorKind::DirectoryCreation),
        ),
        phase == EntryPhase::Parent && outcome is Succeeded
            && entry.entry_type == EntryType::Symlink ==> (r matches EntryStep::Act(
            EntryPhase::Place,
            SyncAction::CreateLink { dest, at },
        ) && dest@ == entry.source@ && at@ == entry.target@),
        phase == EntryPhase::Parent && outcome is Succeeded && entry.entry_type == EntryType::Copy
            ==> (r matches EntryStep::Act(
            EntryPhase::Place,
            SyncAction::CopyFile { from, to },
        ) && from@ == entry.source@ && to@ == entry.target@),
        phase == EntryPhase::Parent && outcome is Succeeded
            && entry.entry_type == EntryType::Template ==> (r matches EntryStep::Act(
            EntryPhase::Read,
            SyncAction::ReadFile { path },
        ) && path@ == entry.source@),
        phase == EntryPhase::Place && outcome is Succeeded ==> r == EntryStep::Finish(None),
        phase == EntryPhase::Place && outcome is Failed ==> r == EntryStep::Finish(
            Some(
                match entry.entry_type {
                    EntryType::Symlink => SyncErrorKind::Symlink,
                    EntryType::Copy => SyncErrorKind::Copy,
                    EntryType::Template => SyncErrorKind::TemplateWrite,
                },
            ),
        ),
        phase == EntryPhase::Read && outcome is Failed ==> r == EntryStep::Finish(
            Some(SyncErrorKind::TemplateRead),
        ),
        phase == EntryPhase::Read ==> (outcome matches StepOutcome::ReadContent(c) ==> (
        r matches EntryStep::Act(
            EntryPhase::Place,
            SyncAction::WriteFile { path, content },
        ) && path@ == entry.target@ && content@ == spec_render(c@, home@))),
{
    match phase {
        EntryPhase::Backup => {
            match outcome {
                StepOutcome::Failed => EntryStep::Finish(Some(SyncErrorKind::Backup)),
                _ => EntryStep::Act(
                    EntryPhase::Parent,
                    SyncAction::CreateDirs { path: parent_dir(entry.target.as_str()) },
                ),
            }
        },
        EntryPhase::Parent => {
            match outcome {
                StepOutcome::Failed => EntryStep::Finish(Some(SyncErrorKind::DirectoryCreation)),
                _ => {
                    match entry.entry_type {
                        EntryType::Symlink => EntryStep::Act(
                            EntryPhase::Place,
                            SyncAction::CreateLink {
                                dest: entry.source.clone(),
                                at: entry.target.clone(),
                            },
                        ),
                        EntryType::Copy => EntryStep::Act(
                            EntryPhase::Place,
                            SyncAction::CopyFile {
                                from: entry.source.clone(),
                                to: entry.target.clone(),
                            },
                        ),
                        EntryType::Template => EntryStep::Act(
                            EntryPhase::Read,
                            SyncAction::ReadFile { path: entry.source.clone() },
                        ),
                    }
                },
            }
        },
        EntryPhase::Place => {
            match outcome {
                StepOutcome::Failed => EntryStep::Finish(
                    Some(
                        match entry.entry_type {
                            EntryType::Symlink => SyncErrorKind::Symlink,
                            EntryType::Copy => SyncErrorKind::Copy,
                            EntryType::Template => SyncErrorKind::TemplateWrite,
                        },
                    ),
                ),
                _ => EntryStep::Finish(None),
            }
        },
        EntryPhase::Read => {
            match outcome {
                StepOutcome::ReadContent(c) => EntryStep::Act(
                    EntryPhase::Place,
                    SyncAction::WriteFile {
                        path: entry.target.clone(),
                        content: render_template_content(&c, home),
                    },
                ),
                _ => EntryStep::Finish(Some(SyncErrorKind::TemplateRead)),
            }
        },
    }
}

} // verus!
