use dotter_actions::config::{
    CopyEntry, CopyTarget, SymbolicTarget, TemplateTarget, UnixUser,
};
use dotter_actions::create::{create_copy, create_symlink};
use dotter_actions::delete::{delete_copy, delete_symlink, delete_template};
use dotter_actions::difference::{diff_nonempty, DiffLine};
use dotter_actions::error::{in_task, with_context, Cause, Context, Error};
use dotter_actions::filesystem::{
    Call, FileHash, Filesystem, Reply, SymlinkComparison, TemplateComparison, TemplateDiff,
};
use dotter_actions::script::{Fault, Script};
use dotter_actions::update::{update_copy, update_symlink};
use std::path::{Path, PathBuf};

fn changes(script: &Script) -> usize {
    script
        .calls()
        .iter()
        .filter(|call| {
            !matches!(
                call,
                Call::CompareSymlink { .. } | Call::CompareTemplate { .. } | Call::ChecksumFile { .. }
            )
        })
        .count()
}

fn copy_target() -> CopyTarget {
    CopyTarget { target: PathBuf::from("home/file"), owner: None }
}

fn hashes(source: u64, target: FileHash, done: usize) -> Script {
    let mut answers = vec![Reply::Hash(FileHash::Hash(source)), Reply::Hash(target)];
    for _ in 0..done {
        answers.push(Reply::Done);
    }
    Script::new(answers)
}

fn created(source: u64, target: FileHash) -> CopyEntry {
    let mut fs = hashes(source, target, 4);
    match create_copy(Path::new("src/file"), &copy_target(), &mut fs, true) {
        Ok(Some(entry)) => entry,
        _ => panic!("the copy is created"),
    }
}

#[test]
fn created_copy_is_up_to_date() {
    for target in [FileHash::NotPresent, FileHash::Hash(8), FileHash::Hash(9)] {
        let entry = created(8, target);
        let mut fs = hashes(8, FileHash::Hash(entry.target_checksum), 4);
        let result =
            update_copy(Path::new("src/file"), &copy_target(), &entry, &mut fs, false);
        assert!(matches!(
            result,
            Ok(Some(kept)) if kept.target == entry.target
                && kept.source_checksum == entry.source_checksum
                && kept.target_checksum == entry.target_checksum
        ));
        assert!(matches!(fs.calls()[2], Call::SetOwner { .. }));
        assert!(matches!(fs.calls()[3], Call::CopyPermissions { .. }));
        assert_eq!(fs.calls().len(), 4);
    }
}

#[test]
fn updated_copy_is_up_to_date() {
    let old = created(8, FileHash::NotPresent);
    let mut fs = hashes(10, FileHash::Hash(8), 4);
    let new = match update_copy(Path::new("src/file"), &copy_target(), &old, &mut fs, false) {
        Ok(Some(entry)) => entry,
        _ => panic!("the copy is updated"),
    };
    assert_eq!((new.source_checksum, new.target_checksum), (10, 10));
    let mut fs = hashes(10, FileHash::Hash(10), 4);
    let again = update_copy(Path::new("src/file"), &copy_target(), &new, &mut fs, true);
    assert!(matches!(again, Ok(Some(kept)) if kept.target_checksum == 10));
    assert_eq!(fs.calls().len(), 4);
}

#[test]
fn created_copy_can_be_deleted() {
    let entry = created(8, FileHash::NotPresent);
    let mut fs = Script::new(vec![Reply::Hash(FileHash::Hash(8)), Reply::Done, Reply::Done]);
    assert!(matches!(delete_copy(Path::new("src/file"), &entry, &mut fs, false), Ok(true)));
    assert!(matches!(&fs.calls()[1], Call::RemoveFile { path } if *path == entry.target));
}

#[test]
fn intact_symlink_is_left_alone_and_can_be_deleted() {
    let target = SymbolicTarget { target: PathBuf::from("home/link"), owner: None };
    for force in [false, true] {
        let mut fs = Script::new(vec![Reply::Symlink(SymlinkComparison::Identical)]);
        assert!(matches!(create_symlink(Path::new("s"), &target, &mut fs, force), Ok(true)));
        assert_eq!(changes(&fs), 0);
        let mut fs = Script::new(vec![Reply::Symlink(SymlinkComparison::Identical)]);
        assert!(matches!(update_symlink(Path::new("s"), &target, &mut fs, force), Ok(true)));
        assert_eq!(changes(&fs), 0);
        let mut fs = Script::new(vec![
            Reply::Symlink(SymlinkComparison::Identical),
            Reply::Done,
            Reply::Done,
        ]);
        let result = delete_symlink(Path::new("s"), &target.target, &mut fs, force);
        assert!(matches!(result, Ok(true)));
        assert_eq!(changes(&fs), 2);
    }
}

#[test]
fn skipping_changes_nothing() {
    let mut fs = Script::new(vec![Reply::Symlink(SymlinkComparison::TargetNotSymlink)]);
    let result = delete_symlink(Path::new("s"), Path::new("t"), &mut fs, false);
    assert!(matches!(result, Ok(false)));
    assert_eq!(changes(&fs), 0);
    let mut fs = Script::new(vec![Reply::Template(TemplateComparison::BothMissing)]);
    let result = delete_template(Path::new("s"), Path::new("c"), Path::new("t"), &mut fs, true);
    assert!(matches!(result, Ok(false)));
    assert_eq!(changes(&fs), 0);
    let mut fs = hashes(1, FileHash::Hash(2), 4);
    assert!(matches!(create_copy(Path::new("s"), &copy_target(), &mut fs, false), Ok(None)));
    assert_eq!(changes(&fs), 0);
}

#[test]
fn failed_call_is_the_last_one() {
    let mut fs = Script::new(vec![
        Reply::Symlink(SymlinkComparison::Identical),
        Reply::Failed(Fault::Scripted(3)),
        Reply::Done,
    ]);
    let result = delete_symlink(Path::new("s"), Path::new("t"), &mut fs, false);
    assert!(matches!(
        result,
        Err(Error {
            task: Some(Context::PerformSymlinkTargetDeletion),
            context: Context::RemoveSymlink,
            cause: Cause::Filesystem(Fault::Scripted(3)),
        })
    ));
    assert_eq!(fs.calls().len(), 2);
}

#[test]
fn same_replies_lead_the_same_way() {
    for _ in 0..2 {
        let mut fs = hashes(4, FileHash::NotRegularFile, 4);
        let result = create_copy(Path::new("s"), &copy_target(), &mut fs, true);
        assert!(matches!(result, Ok(Some(entry)) if entry.target_checksum == 4));
        assert_eq!(fs.calls().len(), 6);
    }
}

#[test]
fn template_text_is_put_together() {
    let mut target = TemplateTarget {
        target: PathBuf::from("t"),
        owner: None,
        prepend: Some(String::from("a")),
        append: Some(String::from("c")),
    };
    assert_eq!(target.apply_actions(String::from("b")), "abc");
    target.prepend = None;
    assert_eq!(target.apply_actions(String::from("b")), "bc");
    target.append = None;
    assert_eq!(target.apply_actions(String::new()), "");
}

#[test]
fn template_target_is_cloned() {
    let target = TemplateTarget {
        target: PathBuf::from("t"),
        owner: Some(UnixUser::Name(String::from("ann"))),
        prepend: None,
        append: Some(String::from("c")),
    };
    let copy = target.clone();
    assert_eq!(format!("{:?}", copy), format!("{:?}", target));
}

#[test]
fn difference_is_seen() {
    let both = DiffLine::Both(String::from("x"));
    assert!(!diff_nonempty(&vec![]));
    assert!(!diff_nonempty(&vec![both]));
    assert!(diff_nonempty(&vec![DiffLine::Left(String::new())]));
    assert!(diff_nonempty(&vec![DiffLine::Both(String::new()), DiffLine::Right(String::new())]));
}

#[test]
fn failures_are_given_their_context() {
    let fine: Result<u8, Error<u8>> = with_context(Ok(1), Context::SetTargetOwner);
    assert!(matches!(fine, Ok(1)));
    let failed: Result<u8, Error<u8>> = with_context(Err(2), Context::SetTargetOwner);
    assert!(matches!(
        in_task(failed, Context::PerformTemplateCache),
        Err(Error {
            task: Some(Context::PerformTemplateCache),
            context: Context::SetTargetOwner,
            cause: Cause::Filesystem(2),
        })
    ));
}

#[test]
fn script_answers_what_it_can() {
    let mut fs = Script::new(vec![Reply::Done, Reply::Enabled(true)]);
    assert!(matches!(fs.checksum_file(Path::new("p")), Err(Fault::Unscripted)));
    assert!(fs.info_enabled());
    assert!(!fs.info_enabled());
    assert!(matches!(fs.remove_file(Path::new("p")), Err(Fault::Unscripted)));
    assert_eq!(fs.calls().len(), 4);
    assert_eq!(fs.remaining(), 0);
}
