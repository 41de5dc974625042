use dotctl::fsmodel::{FsNode, Vfs};
use dotctl::manifest::{DotfileEntry, DotfilesManifest, EntryType, parse_manifest};
use dotctl::paths::backup_path;
use dotctl::sync::{
    EntryPhase, EntryStep, StepOutcome, SyncAction, SyncErrorKind, begin_entry, entry_step,
    process_entry, sync_dotfiles,
};
use dotctl::template::render_template_content;

fn entry(target: &str, source: &str, entry_type: EntryType) -> DotfileEntry {
    DotfileEntry { source: source.to_string(), target: target.to_string(), entry_type }
}

fn file(content: &str) -> FsNode {
    FsNode::File(content.to_string())
}

fn assert_is_file(fs: &Vfs, path: &str, content: &str) {
    match fs.get(path) {
        Some(FsNode::File(c)) => assert_eq!(c.as_str(), content),
        _ => panic!("expected a file at {}", path),
    }
}

fn assert_is_link(fs: &Vfs, path: &str, dest: &str) {
    match fs.get(path) {
        Some(FsNode::Symlink(d)) => assert_eq!(d.as_str(), dest),
        _ => panic!("expected a symlink at {}", path),
    }
}

const TS1: &str = "20240101000000";
const TS2: &str = "20240101000001";

#[test]
fn backup_path_replaces_extension() {
    let r = backup_path(&"/home/u/app.conf".to_string(), &TS1.to_string());
    assert_eq!(r, "/home/u/app.backup.20240101000000");
}

#[test]
fn backup_path_appends_for_dotfile() {
    let r = backup_path(&"/home/u/.vimrc".to_string(), &TS1.to_string());
    assert_eq!(r, "/home/u/.vimrc.backup.20240101000000");
}

#[test]
fn backup_path_for_bare_name() {
    let r = backup_path(&"notes".to_string(), &TS1.to_string());
    assert_eq!(r, "notes.backup.20240101000000");
}

#[test]
fn render_replaces_home_token() {
    let r = render_template_content(
        &"export HOME={{HOME}}".to_string(),
        &"/home/u".to_string(),
    );
    assert_eq!(r, "export HOME=/home/u");
}

#[test]
fn render_replaces_every_occurrence_and_keeps_the_rest() {
    let r = render_template_content(
        &"a={{HOME}} b={{HOME}} {{HOM}}".to_string(),
        &"/h".to_string(),
    );
    assert_eq!(r, "a=/h b=/h {{HOM}}");
}

#[test]
fn render_without_token_is_identity() {
    let r = render_template_content(&"plain text".to_string(), &"/h".to_string());
    assert_eq!(r, "plain text");
}

#[test]
fn symlink_entry_without_preexisting_target() {
    let mut fs = Vfs::new();
    let e = entry("/home/u/.vimrc", "files/vimrc", EntryType::Symlink);
    let r = process_entry(&mut fs, &e, &"/home/u".to_string(), &TS1.to_string());
    assert_eq!(r, None);
    assert_is_link(&fs, "/home/u/.vimrc", "files/vimrc");
    assert!(fs.get("/home/u/.vimrc.backup.20240101000000").is_none());
    // The parent directories were created.
    assert!(matches!(fs.get("/home/u"), Some(FsNode::Dir)));
    assert!(matches!(fs.get("/home"), Some(FsNode::Dir)));
}

#[test]
fn symlink_entry_backs_up_preexisting_file() {
    let mut fs = Vfs::new();
    fs.insert("/home/u/.vimrc".to_string(), file("old"));
    let e = entry("/home/u/.vimrc", "files/vimrc", EntryType::Symlink);
    let r = process_entry(&mut fs, &e, &"/home/u".to_string(), &TS1.to_string());
    assert_eq!(r, None);
    assert_is_link(&fs, "/home/u/.vimrc", "files/vimrc");
    assert_is_file(&fs, "/home/u/.vimrc.backup.20240101000000", "old");
}

#[test]
fn copy_entry_copies_content() {
    let mut fs = Vfs::new();
    fs.insert("files/gitconfig".to_string(), file("[user]\nname = u\n"));
    let e = entry("/home/u/.gitconfig", "files/gitconfig", EntryType::Copy);
    let r = process_entry(&mut fs, &e, &"/home/u".to_string(), &TS1.to_string());
    assert_eq!(r, None);
    assert_is_file(&fs, "/home/u/.gitconfig", "[user]\nname = u\n");
    // The source is untouched.
    assert_is_file(&fs, "files/gitconfig", "[user]\nname = u\n");
}

#[test]
fn template_entry_renders_content() {
    let mut fs = Vfs::new();
    fs.insert("files/profile".to_string(), file("export HOME={{HOME}}"));
    let e = entry("/home/u/.profile", "files/profile", EntryType::Template);
    let r = process_entry(&mut fs, &e, &"/home/u".to_string(), &TS1.to_string());
    assert_eq!(r, None);
    assert_is_file(&fs, "/home/u/.profile", "export HOME=/home/u");
}

#[test]
fn missing_copy_source_reports_and_skips_only_that_entry() {
    let mut fs = Vfs::new();
    fs.insert("files/b".to_string(), file("bee"));
    let entries = vec![
        entry("/home/u/a", "files/missing", EntryType::Copy),
        entry("/home/u/b", "files/b", EntryType::Copy),
    ];
    let outcomes = sync_dotfiles(
        &mut fs,
        &entries,
        &"/home/u".to_string(),
        &TS1.to_string(),
    );
    assert_eq!(outcomes, vec![Some(SyncErrorKind::Copy), None]);
    assert!(fs.get("/home/u/a").is_none());
    assert_is_file(&fs, "/home/u/b", "bee");
}

#[test]
fn missing_template_source_reports_template_read() {
    let mut fs = Vfs::new();
    let e = entry("/home/u/.profile", "files/missing", EntryType::Template);
    let r = process_entry(&mut fs, &e, &"/home/u".to_string(), &TS1.to_string());
    assert_eq!(r, Some(SyncErrorKind::TemplateRead));
    assert!(fs.get("/home/u/.profile").is_none());
}

#[test]
fn file_in_parent_chain_reports_directory_creation() {
    let mut fs = Vfs::new();
    fs.insert("/home/u".to_string(), file("a file where a directory is needed"));
    let e = entry("/home/u/cfg/app.conf", "files/app.conf", EntryType::Symlink);
    let r = process_entry(&mut fs, &e, &"/home/u".to_string(), &TS1.to_string());
    assert_eq!(r, Some(SyncErrorKind::DirectoryCreation));
    assert!(fs.get("/home/u/cfg/app.conf").is_none());
}

#[test]
fn sync_twice_reproduces_target_and_backs_up_first_artifact() {
    let mut fs = Vfs::new();
    fs.insert("files/vimrc".to_string(), file("set nocompatible"));
    let entries = vec![entry("/home/u/.vimrc", "files/vimrc", EntryType::Copy)];
    let home = "/home/u".to_string();
    let first = sync_dotfiles(&mut fs, &entries, &home, &TS1.to_string());
    assert_eq!(first, vec![None]);
    assert_is_file(&fs, "/home/u/.vimrc", "set nocompatible");
    let second = sync_dotfiles(&mut fs, &entries, &home, &TS2.to_string());
    assert_eq!(second, vec![None]);
    // Same artifact again, and the first run's artifact became the backup.
    assert_is_file(&fs, "/home/u/.vimrc", "set nocompatible");
    assert_is_file(&fs, "/home/u/.vimrc.backup.20240101000001", "set nocompatible");
}

#[test]
fn groups_sync_in_manifest_order() {
    let manifest = DotfilesManifest {
        symlink: Some(vec![("~/.vimrc".to_string(), "files/vimrc".to_string())]),
        copy: Some(vec![("~/.gitconfig".to_string(), "files/gitconfig".to_string())]),
        template: Some(vec![("~/.profile".to_string(), "files/profile".to_string())]),
        bootstrap: None,
    };
    let home = "/home/u".to_string();
    let entries = parse_manifest(&manifest, &home, &Vec::new()).unwrap();
    assert_eq!(entries.len(), 3);
    assert_eq!(entries[0].entry_type, EntryType::Symlink);
    assert_eq!(entries[0].target, "/home/u/.vimrc");
    assert_eq!(entries[0].source, "files/vimrc");
    assert_eq!(entries[1].entry_type, EntryType::Copy);
    assert_eq!(entries[1].target, "/home/u/.gitconfig");
    assert_eq!(entries[2].entry_type, EntryType::Template);
    assert_eq!(entries[2].target, "/home/u/.profile");

    let mut fs = Vfs::new();
    fs.insert("files/vimrc".to_string(), file("set nocompatible"));
    fs.insert("files/gitconfig".to_string(), file("[user]"));
    fs.insert("files/profile".to_string(), file("HOME={{HOME}}"));
    let outcomes = sync_dotfiles(&mut fs, &entries, &home, &TS1.to_string());
    assert_eq!(outcomes, vec![None, None, None]);
    assert_is_link(&fs, "/home/u/.vimrc", "files/vimrc");
    assert_is_file(&fs, "/home/u/.gitconfig", "[user]");
    assert_is_file(&fs, "/home/u/.profile", "HOME=/home/u");
}

#[test]
fn parse_fails_fast_on_unset_variable() {
    let manifest = DotfilesManifest {
        symlink: Some(vec![("$NO_SUCH_VARIABLE/x".to_string(), "files/x".to_string())]),
        copy: None,
        template: None,
        bootstrap: None,
    };
    let err = parse_manifest(&manifest, &"/home/u".to_string(), &Vec::new()).unwrap_err();
    assert_eq!(err.target, "$NO_SUCH_VARIABLE/x");
}

#[test]
fn step_machine_walks_a_symlink_entry_with_backup() {
    let e = entry("/home/u/.vimrc", "files/vimrc", EntryType::Symlink);
    let home = "/home/u".to_string();
    let step = begin_entry(&e, true, &TS1.to_string());
    let phase = match step {
        EntryStep::Act(phase, SyncAction::Rename { from, to }) => {
            assert_eq!(from, "/home/u/.vimrc");
            assert_eq!(to, "/home/u/.vimrc.backup.20240101000000");
            phase
        }
        _ => panic!("expected a backup rename first"),
    };
    let step = entry_step(&e, phase, StepOutcome::Succeeded, &home);
    let phase = match step {
        EntryStep::Act(phase, SyncAction::CreateDirs { path }) => {
            assert_eq!(path, "/home/u");
            phase
        }
        _ => panic!("expected parent directory creation"),
    };
    let step = entry_step(&e, phase, StepOutcome::Succeeded, &home);
    let phase = match step {
        EntryStep::Act(phase, SyncAction::CreateLink { dest, at }) => {
            assert_eq!(dest, "files/vimrc");
            assert_eq!(at, "/home/u/.vimrc");
            phase
        }
        _ => panic!("expected link creation"),
    };
    let step = entry_step(&e, phase, StepOutcome::Succeeded, &home);
    assert!(matches!(step, EntryStep::Finish(None)));
}

#[test]
fn step_machine_skips_backup_when_target_is_absent() {
    let e = entry("/home/u/.vimrc", "files/vimrc", EntryType::Symlink);
    let step = begin_entry(&e, false, &TS1.to_string());
    assert!(matches!(step, EntryStep::Act(_, SyncAction::CreateDirs { .. })));
}

#[test]
fn step_machine_aborts_the_entry_on_backup_failure() {
    let e = entry("/home/u/.vimrc", "files/vimrc", EntryType::Symlink);
    let home = "/home/u".to_string();
    let step = entry_step(&e, EntryPhase::Backup, StepOutcome::Failed, &home);
    assert!(matches!(step, EntryStep::Finish(Some(SyncErrorKind::Backup))));
}

#[test]
fn step_machine_reports_each_placement_failure_kind() {
    let home = "/home/u".to_string();
    let link = entry("/home/u/a", "files/a", EntryType::Symlink);
    let step = entry_step(&link, EntryPhase::Place, StepOutcome::Failed, &home);
    assert!(matches!(step, EntryStep::Finish(Some(SyncErrorKind::Symlink))));
    let copy = entry("/home/u/a", "files/a", EntryType::Copy);
    let step = entry_step(&copy, EntryPhase::Place, StepOutcome::Failed, &home);
    assert!(matches!(step, EntryStep::Finish(Some(SyncErrorKind::Copy))));
    let tpl = entry("/home/u/a", "files/a", EntryType::Template);
    let step = entry_step(&tpl, EntryPhase::Place, StepOutcome::Failed, &home);
    assert!(matches!(step, EntryStep::Finish(Some(SyncErrorKind::TemplateWrite))));
    let step = entry_step(&tpl, EntryPhase::Parent, StepOutcome::Failed, &home);
    assert!(matches!(step, EntryStep::Finish(Some(SyncErrorKind::DirectoryCreation))));
    let step = entry_step(&tpl, EntryPhase::Read, StepOutcome::Failed, &home);
    assert!(matches!(step, EntryStep::Finish(Some(SyncErrorKind::TemplateRead))));
}

#[test]
fn step_machine_renders_the_read_template_before_writing() {
    let e = entry("/home/u/.profile", "files/profile", EntryType::Template);
    let home = "/home/u".to_string();
    let step = entry_step(&e, EntryPhase::Parent, StepOutcome::Succeeded, &home);
    let phase = match step {
        EntryStep::Act(phase, SyncAction::ReadFile { path }) => {
            assert_eq!(path, "files/profile");
            phase
        }
        _ => panic!("expected the template read"),
    };
    let step = entry_step(
        &e,
        phase,
        StepOutcome::ReadContent("export HOME={{HOME}}".to_string()),
        &home,
    );
    match step {
        EntryStep::Act(phase, SyncAction::WriteFile { path, content }) => {
            assert_eq!(path, "/home/u/.profile");
            assert_eq!(content, "export HOME=/home/u");
            let step = entry_step(&e, phase, StepOutcome::Succeeded, &home);
            assert!(matches!(step, EntryStep::Finish(None)));
        }
        _ => panic!("expected the rendered write"),
    }
}
