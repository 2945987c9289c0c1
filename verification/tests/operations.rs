use dotter_actions::config::{
    CopyEntry, CopyTarget, SymbolicTarget, TemplateTarget, UnixUser, Variables,
};
use dotter_actions::create::{create_copy, create_symlink, create_template};
use dotter_actions::delete::{delete_copy, delete_symlink, delete_template};
use dotter_actions::deploy::{deploy_rendered, perform_template_deploy};
use dotter_actions::difference::DiffLine;
use dotter_actions::error::{Cause, Error};
use dotter_actions::filesystem::{Call, FileHash, Reply, SymlinkComparison, TemplateComparison};
use dotter_actions::runner::{ActionRunner, RealActionRunner};
use dotter_actions::script::{Fault, Script};
use dotter_actions::update::{update_copy, update_symlink, update_template};
use handlebars::{
    to_json, Context, Handlebars, Helper, HelperResult, Output, RenderContext,
};
use std::collections::BTreeMap;
use std::path::{Path, PathBuf};
use std::sync::atomic::{AtomicUsize, Ordering};

const SYMLINK_COMPARISONS: [SymlinkComparison; 6] = [
    SymlinkComparison::Identical,
    SymlinkComparison::OnlySourceExists,
    SymlinkComparison::OnlyTargetExists,
    SymlinkComparison::TargetNotSymlink,
    SymlinkComparison::Changed,
    SymlinkComparison::BothMissing,
];

const TEMPLATE_COMPARISONS: [TemplateComparison; 6] = [
    TemplateComparison::Identical,
    TemplateComparison::OnlyCacheExists,
    TemplateComparison::OnlyTargetExists,
    TemplateComparison::TargetNotRegularFile,
    TemplateComparison::Changed,
    TemplateComparison::BothMissing,
];

fn owner_of(owner: &Option<UnixUser>) -> String {
    match owner {
        Some(UnixUser::Uid(uid)) => format!(" as {}", uid),
        Some(UnixUser::Name(name)) => format!(" as {}", name),
        None => String::new(),
    }
}

fn show(call: &Call) -> String {
    match call {
        Call::CompareSymlink { source, link } => {
            format!("compare link {} {}", source.display(), link.display())
        }
        Call::CompareTemplate { target, cache } => {
            format!("compare template {} {}", target.display(), cache.display())
        }
        Call::ChecksumFile { path } => format!("checksum {}", path.display()),
        Call::ReadToString { path } => format!("read {}", path.display()),
        Call::RemoveFile { path } => format!("remove {}", path.display()),
        Call::DeleteParents { path, no_ask } => format!("prune {} {}", path.display(), no_ask),
        Call::CreateDirAll { path, owner } => {
            format!("mkdir {}{}", path.display(), owner_of(owner))
        }
        Call::MakeSymlink { link, source, owner } => {
            format!("link {} -> {}{}", link.display(), source.display(), owner_of(owner))
        }
        Call::CopyFile { source, target, owner } => {
            format!("copy {} {}{}", source.display(), target.display(), owner_of(owner))
        }
        Call::CopyPermissions { source, target, owner } => {
            format!("chmod {} {}{}", source.display(), target.display(), owner_of(owner))
        }
        Call::SetOwner { path, owner } => format!("chown {}{}", path.display(), owner_of(owner)),
        Call::Write { path, content } => format!("write {} {}", path.display(), content),
        Call::PrintTemplateDiff { source, template, context_lines, .. } => format!(
            "show {} {} {}",
            source.display(),
            template.target.display(),
            context_lines
        ),
        Call::GenerateTemplateDiff { source, template, source_to_target, .. } => format!(
            "diff {} {} {}",
            source.display(),
            template.target.display(),
            source_to_target
        ),
        Call::InfoEnabled => String::from("info?"),
        Call::PrintDiff { context_lines, .. } => format!("print {}", context_lines),
    }
}

fn calls(script: &Script) -> Vec<String> {
    script.calls().iter().map(show).collect()
}

fn reason<T>(result: &Result<T, Error<Fault>>) -> String {
    match result {
        Ok(_) => panic!("expected a failure"),
        Err(error) => {
            let cause = match &error.cause {
                Cause::Filesystem(fault) => format!("{:?}", fault),
                Cause::Render(_) => String::from("render"),
                Cause::NoParent => String::from("no parent"),
            };
            match error.task {
                Some(task) => format!("{}: {}: {}", task.message(), error.context.message(), cause),
                None => format!("{}: {}", error.context.message(), cause),
            }
        }
    }
}

fn script(question: Vec<Reply<Fault>>, done: usize) -> Script {
    let mut answers = question;
    for _ in 0..done {
        answers.push(Reply::Done);
    }
    Script::new(answers)
}

fn source() -> &'static Path {
    Path::new("src/file")
}

fn cache() -> &'static Path {
    Path::new("cache/file")
}

fn link_target() -> SymbolicTarget {
    SymbolicTarget {
        target: PathBuf::from("home/file"),
        owner: Some(UnixUser::Name(String::from("ann"))),
    }
}

fn template_target() -> TemplateTarget {
    TemplateTarget {
        target: PathBuf::from("home/file"),
        owner: Some(UnixUser::Uid(7)),
        prepend: Some(String::from("<")),
        append: Some(String::from(">")),
    }
}

fn copy_target() -> CopyTarget {
    CopyTarget { target: PathBuf::from("home/file"), owner: None }
}

fn entry(source_checksum: u64, target_checksum: u64) -> CopyEntry {
    CopyEntry { target: PathBuf::from("home/file"), source_checksum, target_checksum }
}

fn variables() -> Variables {
    let mut map: BTreeMap<String, String> = BTreeMap::new();
    map.insert(String::from("name"), String::from("World"));
    to_json(&map)
}

const DEPLOY_CALLS: [&str; 5] = [
    "read src/file",
    "mkdir cache",
    "write cache/file <Hello World>",
    "copy cache/file home/file as 7",
    "chmod src/file home/file as 7",
];

fn template_answers(
    comparison: TemplateComparison,
    preparation: usize,
    deploy: bool,
) -> Vec<Reply<Fault>> {
    let mut answers = vec![Reply::Template(comparison)];
    for _ in 0..preparation {
        answers.push(Reply::Done);
    }
    if deploy {
        answers.push(Reply::Text(String::from("Hello {{name}}")));
        for _ in 0..4 {
            answers.push(Reply::Done);
        }
    }
    answers
}

#[test]
fn symlink_is_deleted_unless_changed() {
    for comparison in SYMLINK_COMPARISONS {
        for force in [false, true] {
            let mut fs = script(vec![Reply::Symlink(comparison)], 2);
            let result = delete_symlink(source(), Path::new("home/file"), &mut fs, force);
            let mut expected = vec!["compare link src/file home/file"];
            let forget = match comparison {
                SymlinkComparison::Identical | SymlinkComparison::OnlyTargetExists => {
                    expected.extend(["remove home/file", "prune home/file false"]);
                    true
                }
                SymlinkComparison::OnlySourceExists | SymlinkComparison::BothMissing => true,
                SymlinkComparison::Changed | SymlinkComparison::TargetNotSymlink => {
                    if force {
                        expected.extend(["remove home/file", "prune home/file false"]);
                    }
                    force
                }
            };
            assert!(matches!(result, Ok(value) if value == forget));
            assert_eq!(calls(&fs), expected);
        }
    }
}

#[test]
fn template_is_deleted_with_its_cache() {
    for comparison in TEMPLATE_COMPARISONS {
        for force in [false, true] {
            let mut fs = script(vec![Reply::Template(comparison)], 4);
            let result =
                delete_template(source(), cache(), Path::new("home/file"), &mut fs, force);
            let of_cache = ["remove cache/file", "prune cache/file true"];
            let of_target = ["remove home/file", "prune home/file false"];
            let mut expected = vec!["compare template home/file cache/file"];
            let forget = match comparison {
                TemplateComparison::Identical => {
                    expected.extend(of_cache);
                    expected.extend(of_target);
                    true
                }
                TemplateComparison::OnlyCacheExists => {
                    expected.extend(of_cache);
                    true
                }
                TemplateComparison::OnlyTargetExists | TemplateComparison::BothMissing => false,
                TemplateComparison::Changed | TemplateComparison::TargetNotRegularFile => {
                    if force {
                        expected.extend(of_cache);
                        expected.extend(of_target);
                    }
                    force
                }
            };
            assert!(matches!(result, Ok(value) if value == forget));
            assert_eq!(calls(&fs), expected);
        }
    }
}

#[test]
fn copy_is_deleted_unless_changed() {
    for (hash, force, forget, removes) in [
        (FileHash::NotPresent, false, true, false),
        (FileHash::NotPresent, true, true, false),
        (FileHash::Hash(2), false, true, true),
        (FileHash::Hash(2), true, true, true),
        (FileHash::Hash(3), false, false, false),
        (FileHash::Hash(3), true, true, true),
        (FileHash::NotRegularFile, false, false, false),
        (FileHash::NotRegularFile, true, true, true),
    ] {
        let mut fs = script(vec![Reply::Hash(hash)], 2);
        let result = delete_copy(source(), &entry(1, 2), &mut fs, force);
        let mut expected = vec!["checksum home/file"];
        if removes {
            expected.extend(["remove home/file", "prune home/file false"]);
        }
        assert!(matches!(result, Ok(value) if value == forget));
        assert_eq!(calls(&fs), expected);
    }
}

fn link_calls(comparison: SymlinkComparison, force: bool) -> (bool, Vec<&'static str>) {
    let mut expected = vec!["compare link src/file home/file"];
    let value = match comparison {
        SymlinkComparison::OnlySourceExists => {
            expected.extend(["mkdir home as ann", "link home/file -> src/file as ann"]);
            true
        }
        SymlinkComparison::Identical => true,
        SymlinkComparison::OnlyTargetExists | SymlinkComparison::BothMissing => false,
        SymlinkComparison::Changed | SymlinkComparison::TargetNotSymlink => {
            if force {
                expected.extend(["remove home/file", "link home/file -> src/file as ann"]);
            }
            force
        }
    };
    (value, expected)
}

#[test]
fn symlink_is_created_unless_something_is_in_the_way() {
    for comparison in SYMLINK_COMPARISONS {
        for force in [false, true] {
            let mut fs = script(vec![Reply::Symlink(comparison)], 2);
            let result = create_symlink(source(), &link_target(), &mut fs, force);
            let (remember, expected) = link_calls(comparison, force);
            assert!(matches!(result, Ok(value) if value == remember));
            assert_eq!(calls(&fs), expected);
        }
    }
}

#[test]
fn symlink_is_updated_as_it_is_created() {
    for comparison in SYMLINK_COMPARISONS {
        for force in [false, true] {
            let mut fs = script(vec![Reply::Symlink(comparison)], 2);
            let result = update_symlink(source(), &link_target(), &mut fs, force);
            let (kept, expected) = link_calls(comparison, force);
            assert!(matches!(result, Ok(value) if value == kept));
            assert_eq!(calls(&fs), expected);
        }
    }
}

#[test]
fn template_is_created_unless_something_is_in_the_way() {
    let handlebars = Handlebars::new();
    for comparison in TEMPLATE_COMPARISONS {
        for force in [false, true] {
            let in_the_way = matches!(
                comparison,
                TemplateComparison::TargetNotRegularFile
                    | TemplateComparison::Changed
                    | TemplateComparison::OnlyTargetExists
            );
            let preparation = if in_the_way { 2 } else { 1 };
            let mut fs = Script::new(template_answers(comparison, preparation, true));
            let result = create_template(
                source(),
                cache(),
                &template_target(),
                &mut fs,
                &handlebars,
                &variables(),
                force,
            );
            let mut expected = vec!["compare template home/file cache/file"];
            if in_the_way && force {
                expected.push("remove home/file");
            }
            if !in_the_way || force {
                expected.push("mkdir home as 7");
                expected.extend(DEPLOY_CALLS);
            }
            assert!(matches!(result, Ok(value) if value == (!in_the_way || force)));
            assert_eq!(calls(&fs), expected);
        }
    }
}

#[test]
fn template_is_updated_by_state() {
    let handlebars = Handlebars::new();
    for comparison in TEMPLATE_COMPARISONS {
        for force in [false, true] {
            if comparison == TemplateComparison::Changed && !force {
                continue;
            }
            let mut fs = Script::new(template_answers(comparison, 1, true));
            let result = update_template(
                source(),
                cache(),
                &template_target(),
                &mut fs,
                &handlebars,
                &variables(),
                force,
                3,
            );
            let mut expected = vec!["compare template home/file cache/file"];
            let kept = match comparison {
                TemplateComparison::Identical => {
                    expected.extend(["show src/file home/file 3", "chown home/file as 7"]);
                    expected.extend(DEPLOY_CALLS);
                    true
                }
                TemplateComparison::OnlyCacheExists => {
                    expected.push("mkdir home as 7");
                    expected.extend(DEPLOY_CALLS);
                    true
                }
                TemplateComparison::OnlyTargetExists | TemplateComparison::BothMissing => true,
                TemplateComparison::Changed | TemplateComparison::TargetNotRegularFile => {
                    if force {
                        expected.extend(["show src/file home/file 3", "remove home/file"]);
                        expected.extend(DEPLOY_CALLS);
                    }
                    force
                }
            };
            assert!(matches!(result, Ok(value) if value == kept));
            assert_eq!(calls(&fs), expected);
        }
    }
}

fn update_changed(answers: Vec<Reply<Fault>>) -> (Result<bool, Error<Fault>>, Vec<String>) {
    let handlebars = Handlebars::new();
    let mut all = vec![Reply::Template(TemplateComparison::Changed)];
    all.extend(answers);
    let mut fs = Script::new(all);
    let result = update_template(
        source(),
        cache(),
        &template_target(),
        &mut fs,
        &handlebars,
        &variables(),
        false,
        2,
    );
    (result, calls(&fs))
}

#[test]
fn changed_template_with_a_difference_is_shown_and_skipped() {
    let (result, made) = update_changed(vec![
        Reply::Difference(vec![
            DiffLine::Both(String::from("same")),
            DiffLine::Right(String::from("more")),
        ]),
        Reply::Enabled(true),
    ]);
    assert!(matches!(result, Ok(false)));
    assert_eq!(
        made,
        [
            "compare template home/file cache/file",
            "diff src/file home/file false",
            "info?",
            "print 2",
        ]
    );
}

#[test]
fn changed_template_with_a_difference_is_skipped_quietly() {
    let (result, made) = update_changed(vec![
        Reply::Difference(vec![DiffLine::Left(String::from("less"))]),
        Reply::Enabled(false),
    ]);
    assert!(matches!(result, Ok(false)));
    assert_eq!(
        made,
        ["compare template home/file cache/file", "diff src/file home/file false", "info?"]
    );
}

#[test]
fn changed_template_without_a_difference_is_deployed() {
    let mut answers = vec![Reply::Difference(vec![DiffLine::Both(String::from("same"))])];
    answers.push(Reply::Text(String::from("Hello {{name}}")));
    for _ in 0..4 {
        answers.push(Reply::Done);
    }
    let (result, made) = update_changed(answers);
    assert!(matches!(result, Ok(true)));
    let mut expected =
        vec!["compare template home/file cache/file", "diff src/file home/file false"];
    expected.extend(DEPLOY_CALLS);
    assert_eq!(made, expected);
}

fn update_showing(
    answers: Vec<Reply<Fault>>,
    force: bool,
    diff_context_lines: usize,
) -> (Result<bool, Error<Fault>>, Vec<String>) {
    let mut fs = Script::new(answers);
    let result = update_template(
        source(),
        cache(),
        &template_target(),
        &mut fs,
        &Handlebars::new(),
        &variables(),
        force,
        diff_context_lines,
    );
    (result, calls(&fs))
}

#[test]
fn context_lines_change_only_what_is_shown() {
    for comparison in TEMPLATE_COMPARISONS {
        for force in [false, true] {
            if comparison == TemplateComparison::Changed && !force {
                continue;
            }
            let (one, few) = update_showing(template_answers(comparison, 1, true), force, 2);
            let (other, many) = update_showing(template_answers(comparison, 1, true), force, 9);
            assert!(matches!((one, other), (Ok(a), Ok(b)) if a == b));
            assert_eq!(few.len(), many.len());
            for (a, b) in few.iter().zip(&many) {
                if a == "show src/file home/file 2" {
                    assert_eq!(b, "show src/file home/file 9");
                } else {
                    assert_eq!(a, b);
                }
            }
        }
    }
}

#[test]
fn context_lines_change_only_how_a_refusal_is_shown() {
    let answers = || {
        vec![
            Reply::Template(TemplateComparison::Changed),
            Reply::Difference(vec![DiffLine::Right(String::from("more"))]),
            Reply::Enabled(true),
        ]
    };
    let (one, few) = update_showing(answers(), false, 2);
    let (other, many) = update_showing(answers(), false, 9);
    assert!(matches!((one, other), (Ok(false), Ok(false))));
    assert_eq!(few[..3], many[..3]);
    assert_eq!(few[3..], ["print 2"]);
    assert_eq!(many[3..], ["print 9"]);
}

/// A registry with a helper that gives another text each time it is used.
fn counting_registry() -> Handlebars<'static> {
    let uses = AtomicUsize::new(0);
    let mut handlebars = Handlebars::new();
    handlebars.register_helper(
        "count",
        Box::new(
            move |_: &Helper<'_>,
                  _: &Handlebars<'_>,
                  _: &Context,
                  _: &mut RenderContext<'_, '_>,
                  out: &mut dyn Output|
                  -> HelperResult {
                out.write(&uses.fetch_add(1, Ordering::SeqCst).to_string())?;
                Ok(())
            },
        ),
    );
    handlebars
}

fn update_twice(handlebars: &Handlebars<'_>, text: &str) -> [Vec<String>; 2] {
    [2, 9].map(|diff_context_lines| {
        let mut answers =
            vec![Reply::Template(TemplateComparison::OnlyCacheExists), Reply::Done];
        answers.push(Reply::Text(String::from(text)));
        for _ in 0..4 {
            answers.push(Reply::Done);
        }
        let mut fs = Script::new(answers);
        let result = update_template(
            source(),
            cache(),
            &template_target(),
            &mut fs,
            handlebars,
            &variables(),
            false,
            diff_context_lines,
        );
        assert!(matches!(result, Ok(true)));
        calls(&fs)
    })
}

#[test]
fn helper_matters_only_to_the_templates_that_use_it() {
    let handlebars = counting_registry();
    let [one, other] = update_twice(&handlebars, "Hello {{name}}");
    assert_eq!(one, other);
    assert_eq!(one[4], "write cache/file <Hello World>");

    let [one, other] = update_twice(&handlebars, "{{count}}");
    assert_eq!(one[..4], other[..4]);
    assert_eq!(one[4], "write cache/file <0>");
    assert_eq!(other[4], "write cache/file <1>");
}

#[test]
fn registered_template_that_includes_itself_fails_to_render() {
    let mut handlebars = Handlebars::new();
    assert!(handlebars.register_template_string("again", "{{> again}}").is_ok());
    let mut fs = Script::new(vec![Reply::Text(String::from("{{> again}}"))]);
    let result =
        perform_template_deploy(source(), cache(), None, &mut fs, &handlebars, &variables());
    assert_eq!(reason(&result), "render template: render");
    assert_eq!(calls(&fs), ["read src/file"]);
}

#[test]
fn failing_difference_is_reported() {
    let (result, made) = update_changed(vec![Reply::Failed(Fault::Scripted(9))]);
    assert_eq!(reason(&result), "diff source and target: Scripted(9)");
    assert_eq!(made.len(), 2);
}

#[test]
fn copy_is_created_unless_something_is_in_the_way() {
    let copying =
        ["mkdir home", "copy src/file home/file", "chmod src/file home/file"];
    for (hash, force, created, removes, copies) in [
        (FileHash::NotPresent, false, true, false, true),
        (FileHash::NotPresent, true, true, false, true),
        (FileHash::Hash(5), false, true, false, false),
        (FileHash::Hash(5), true, true, false, false),
        (FileHash::Hash(6), false, false, false, false),
        (FileHash::Hash(6), true, true, true, true),
        (FileHash::NotRegularFile, false, false, false, false),
        (FileHash::NotRegularFile, true, true, true, true),
    ] {
        let mut fs = script(vec![Reply::Hash(FileHash::Hash(5)), Reply::Hash(hash)], 4);
        let result = create_copy(source(), &copy_target(), &mut fs, force);
        let mut expected = vec!["checksum src/file", "checksum home/file"];
        if removes {
            expected.push("remove home/file");
        }
        if copies {
            expected.extend(copying);
        }
        assert_eq!(calls(&fs), expected);
        match result {
            Ok(Some(entry)) => {
                assert!(created);
                assert_eq!(entry.target, PathBuf::from("home/file"));
                assert_eq!(entry.source_checksum, 5);
                assert_eq!(entry.target_checksum, 5);
            }
            Ok(None) => assert!(!created),
            Err(_) => panic!("no call has failed"),
        }
    }
}

#[test]
fn copy_without_source_is_skipped() {
    for hash in [FileHash::NotPresent, FileHash::NotRegularFile] {
        let mut fs = script(vec![Reply::Hash(hash)], 0);
        assert!(matches!(create_copy(source(), &copy_target(), &mut fs, true), Ok(None)));
        assert_eq!(calls(&fs), ["checksum src/file"]);
        let mut fs = script(vec![Reply::Hash(hash)], 0);
        let result = update_copy(source(), &copy_target(), &entry(1, 2), &mut fs, true);
        assert!(matches!(result, Ok(None)));
        assert_eq!(calls(&fs), ["checksum src/file"]);
    }
}

fn update_copy_with(
    source_hash: u64,
    target_hash: FileHash,
    force: bool,
) -> (Option<CopyEntry>, Vec<String>) {
    let mut fs =
        script(vec![Reply::Hash(FileHash::Hash(source_hash)), Reply::Hash(target_hash)], 4);
    match update_copy(source(), &copy_target(), &entry(1, 2), &mut fs, force) {
        Ok(entry) => (entry, calls(&fs)),
        Err(_) => panic!("no call has failed"),
    }
}

#[test]
fn copy_is_updated_by_checksums() {
    let asked = ["checksum src/file", "checksum home/file"];
    let copying =
        ["mkdir home", "copy src/file home/file", "chmod src/file home/file"];
    for force in [false, true] {
        let (kept, made) = update_copy_with(1, FileHash::Hash(2), force);
        let kept = kept.unwrap();
        assert_eq!((kept.source_checksum, kept.target_checksum), (1, 2));
        assert_eq!(made[2..], ["chown home/file", "chmod src/file home/file"]);

        let (stale, made) = update_copy_with(4, FileHash::Hash(2), force);
        let stale = stale.unwrap();
        assert_eq!((stale.source_checksum, stale.target_checksum), (4, 4));
        assert_eq!(made[..2], asked);
        assert_eq!(made[2], "remove home/file");
        assert_eq!(made[3..], copying);

        for source_hash in [1, 4] {
            let (missing, made) = update_copy_with(source_hash, FileHash::NotPresent, force);
            let missing = missing.unwrap();
            assert_eq!(missing.source_checksum, source_hash);
            assert_eq!(missing.target_checksum, source_hash);
            assert_eq!(made[2..], copying);

            for target_hash in [FileHash::Hash(3), FileHash::NotRegularFile] {
                let (changed, made) = update_copy_with(source_hash, target_hash, force);
                if force {
                    let changed = changed.unwrap();
                    assert_eq!(changed.target, PathBuf::from("home/file"));
                    assert_eq!(changed.source_checksum, source_hash);
                    assert_eq!(changed.target_checksum, source_hash);
                    assert_eq!(made[2], "remove home/file");
                    assert_eq!(made[3..], copying);
                } else {
                    assert!(changed.is_none());
                    assert_eq!(made, asked);
                }
            }
        }
    }
}

#[test]
fn update_copy_follows_the_entry() {
    let elsewhere =
        CopyEntry { target: PathBuf::from("old/file"), source_checksum: 1, target_checksum: 2 };
    let mut fs =
        script(vec![Reply::Hash(FileHash::Hash(1)), Reply::Hash(FileHash::Hash(2))], 2);
    let target = CopyTarget { target: PathBuf::from("old/file"), owner: Some(UnixUser::Uid(1)) };
    let result = update_copy(source(), &target, &elsewhere, &mut fs, false);
    assert!(matches!(result, Ok(Some(kept)) if kept.target == PathBuf::from("old/file")));
    assert_eq!(
        calls(&fs),
        [
            "checksum src/file",
            "checksum old/file",
            "chown old/file as 1",
            "chmod src/file old/file as 1",
        ]
    );
}

#[test]
fn template_is_rendered_into_the_cache_alone() {
    let handlebars = Handlebars::new();
    let mut fs = script(vec![Reply::Text(String::from("Hi {{name}}!"))], 2);
    let result =
        perform_template_deploy(source(), cache(), None, &mut fs, &handlebars, &variables());
    assert!(result.is_ok());
    assert_eq!(calls(&fs), ["read src/file", "mkdir cache", "write cache/file Hi World!"]);
}

#[test]
fn failed_rendering_changes_nothing() {
    let handlebars = Handlebars::new();
    let mut fs = script(vec![Reply::Text(String::from("{{#if name}}"))], 4);
    let target = template_target();
    let result = perform_template_deploy(
        source(),
        cache(),
        Some(&target),
        &mut fs,
        &handlebars,
        &variables(),
    );
    assert_eq!(reason(&result), "render template: render");
    assert_eq!(calls(&fs), ["read src/file"]);
}

#[test]
fn rendered_text_is_deployed() {
    let target = template_target();
    let mut fs = script(vec![], 4);
    let result =
        deploy_rendered(source(), cache(), Some(&target), Ok(String::from("text")), &mut fs);
    assert!(result.is_ok());
    assert_eq!(
        calls(&fs),
        [
            "mkdir cache",
            "write cache/file text",
            "copy cache/file home/file as 7",
            "chmod src/file home/file as 7",
        ]
    );

    let failure = Handlebars::new().render_template("{{", &variables());
    assert!(failure.is_err());
    let mut fs = script(vec![], 4);
    let result = deploy_rendered(source(), cache(), None, failure, &mut fs);
    assert_eq!(reason(&result), "render template: render");
    assert!(calls(&fs).is_empty());
}

/// Has each call fail in turn, and returns what is reported.
fn failures(
    answers: fn() -> Vec<Reply<Fault>>,
    operation: fn(&mut Script) -> Result<(), Error<Fault>>,
) -> Vec<String> {
    let mut reasons = Vec::new();
    for k in 0..answers().len() {
        let mut all = answers();
        all.truncate(k);
        all.push(Reply::Failed(Fault::Scripted(k as u32)));
        let mut fs = Script::new(all);
        let result = operation(&mut fs);
        assert_eq!(fs.remaining(), 0);
        let text = reason(&result);
        let end = format!(": Scripted({})", k);
        assert!(text.ends_with(&end));
        reasons.push(String::from(&text[..text.len() - end.len()]));
    }
    let mut fs = Script::new(answers());
    assert!(operation(&mut fs).is_ok());
    assert_eq!(fs.remaining(), 0);
    reasons
}

fn link_answers(comparison: SymlinkComparison) -> Vec<Reply<Fault>> {
    vec![Reply::Symlink(comparison), Reply::Done, Reply::Done]
}

#[test]
fn failures_of_deleting_a_symlink() {
    let reasons = failures(
        || link_answers(SymlinkComparison::Changed),
        |fs| delete_symlink(source(), Path::new("home/file"), fs, true).map(|_| ()),
    );
    assert_eq!(
        reasons,
        [
            "detect symlink's current state",
            "perform symlink target deletion: remove symlink",
            "perform symlink target deletion: delete parents of symlink",
        ]
    );
}

#[test]
fn failures_of_deleting_a_template() {
    let reasons = failures(
        || {
            vec![
                Reply::Template(TemplateComparison::Identical),
                Reply::Done,
                Reply::Done,
                Reply::Done,
                Reply::Done,
            ]
        },
        |fs| delete_template(source(), cache(), Path::new("home/file"), fs, false).map(|_| ()),
    );
    assert_eq!(
        reasons,
        [
            "detect templated file's current state",
            "perform cache deletion: delete template cache",
            "perform cache deletion: delete parent directory in cache",
            "perform template target deletion: delete target file",
            "perform template target deletion: delete parent directory in target location",
        ]
    );
}

#[test]
fn failures_of_deleting_a_copy() {
    let reasons = failures(
        || vec![Reply::Hash(FileHash::Hash(2)), Reply::Done, Reply::Done],
        |fs| delete_copy(source(), &entry(1, 2), fs, false).map(|_| ()),
    );
    assert_eq!(
        reasons,
        ["checksum copy target", "remove copy target", "delete parents of copy target"]
    );
}

#[test]
fn failures_of_creating_a_symlink() {
    let reasons = failures(
        || link_answers(SymlinkComparison::OnlySourceExists),
        |fs| create_symlink(source(), &link_target(), fs, false).map(|_| ()),
    );
    assert_eq!(
        reasons,
        [
            "detect symlink's current state",
            "create parent for target file",
            "create target symlink",
        ]
    );
    let reasons = failures(
        || link_answers(SymlinkComparison::TargetNotSymlink),
        |fs| update_symlink(source(), &link_target(), fs, true).map(|_| ()),
    );
    assert_eq!(
        reasons,
        [
            "detect symlink's current state",
            "remove symlink target while forcing",
            "create target symlink",
        ]
    );
}

#[test]
fn failures_of_creating_a_template() {
    let reasons = failures(
        || template_answers(TemplateComparison::OnlyTargetExists, 2, true),
        |fs| {
            create_template(
                source(),
                cache(),
                &template_target(),
                fs,
                &Handlebars::new(),
                &variables(),
                true,
            )
            .map(|_| ())
        },
    );
    assert_eq!(
        reasons,
        [
            "detect templated file's current state",
            "remove existing file while forcing",
            "create parent for target file",
            "perform template cache: read template source file",
            "perform template cache: create parent for cache file",
            "perform template cache: write rendered template to cache",
            "perform template cache: copy template from cache to target",
            "perform template cache: copy permissions from source to target",
        ]
    );
}

fn update_template_with(fs: &mut Script, force: bool) -> Result<(), Error<Fault>> {
    update_template(
        source(),
        cache(),
        &template_target(),
        fs,
        &Handlebars::new(),
        &variables(),
        force,
        3,
    )
    .map(|_| ())
}

#[test]
fn failures_of_updating_a_template() {
    let reasons = failures(
        || template_answers(TemplateComparison::Identical, 1, true),
        |fs| update_template_with(fs, false),
    );
    assert_eq!(reasons[1], "set target file owner");
    let reasons = failures(
        || template_answers(TemplateComparison::Changed, 1, true),
        |fs| update_template_with(fs, true),
    );
    assert_eq!(reasons[1], "remove target while forcing");
    assert_eq!(reasons[2], "perform template cache: read template source file");
}

#[test]
fn failures_of_creating_a_copy() {
    let reasons = failures(
        || {
            vec![
                Reply::Hash(FileHash::Hash(5)),
                Reply::Hash(FileHash::NotRegularFile),
                Reply::Done,
                Reply::Done,
                Reply::Done,
                Reply::Done,
            ]
        },
        |fs| create_copy(source(), &copy_target(), fs, true).map(|_| ()),
    );
    assert_eq!(
        reasons,
        [
            "checksum source",
            "checksum target",
            "remove existing target",
            "create parent for target file",
            "copy source to target",
            "copy permissions from source to target",
        ]
    );
}

#[test]
fn failures_of_updating_a_copy() {
    let stale = failures(
        || {
            vec![
                Reply::Hash(FileHash::Hash(4)),
                Reply::Hash(FileHash::Hash(2)),
                Reply::Done,
                Reply::Done,
                Reply::Done,
                Reply::Done,
            ]
        },
        |fs| update_copy(source(), &copy_target(), &entry(1, 2), fs, false).map(|_| ()),
    );
    assert_eq!(
        stale,
        [
            "checksum source",
            "checksum target",
            "remove stale copy target",
            "create parent for target file",
            "copy source to target",
            "copy permissions from source to target",
        ]
    );
    let changed = failures(
        || {
            vec![
                Reply::Hash(FileHash::Hash(1)),
                Reply::Hash(FileHash::Hash(3)),
                Reply::Done,
                Reply::Done,
                Reply::Done,
                Reply::Done,
            ]
        },
        |fs| update_copy(source(), &copy_target(), &entry(1, 2), fs, true).map(|_| ()),
    );
    assert_eq!(changed[2], "remove externally modified target");
    let kept = failures(
        || {
            vec![
                Reply::Hash(FileHash::Hash(1)),
                Reply::Hash(FileHash::Hash(2)),
                Reply::Done,
                Reply::Done,
            ]
        },
        |fs| update_copy(source(), &copy_target(), &entry(1, 2), fs, false).map(|_| ()),
    );
    assert_eq!(kept[2], "set target file owner");
    assert_eq!(kept[3], "copy permissions from source to target");
}

#[test]
fn missing_parents_are_reported() {
    let root = SymbolicTarget { target: PathBuf::from("/"), owner: None };
    let mut fs = script(vec![Reply::Symlink(SymlinkComparison::OnlySourceExists)], 2);
    let result = create_symlink(source(), &root, &mut fs, false);
    assert_eq!(reason(&result), "get parent of target file: no parent");
    assert_eq!(calls(&fs), ["compare link src/file /"]);

    let empty = CopyTarget { target: PathBuf::new(), owner: None };
    let mut fs =
        script(vec![Reply::Hash(FileHash::Hash(1)), Reply::Hash(FileHash::Hash(2))], 4);
    let result = create_copy(source(), &empty, &mut fs, true);
    assert_eq!(reason(&result), "get parent of target file: no parent");
    assert_eq!(calls(&fs), ["checksum src/file", "checksum ", "remove "]);

    let mut fs = script(vec![], 2);
    let result =
        deploy_rendered(source(), Path::new("/"), None, Ok(String::from("text")), &mut fs);
    assert_eq!(reason(&result), "get parent of cache file: no parent");
    assert!(calls(&fs).is_empty());
}

#[test]
fn runner_carries_out_each_operation() {
    let handlebars = Handlebars::new();
    let variables = variables();
    let mut answers = vec![
        Reply::Symlink(SymlinkComparison::BothMissing),
        Reply::Template(TemplateComparison::BothMissing),
        Reply::Hash(FileHash::NotPresent),
        Reply::Symlink(SymlinkComparison::Identical),
        Reply::Symlink(SymlinkComparison::OnlyTargetExists),
        Reply::Hash(FileHash::NotPresent),
        Reply::Hash(FileHash::NotRegularFile),
        Reply::Template(TemplateComparison::OnlyTargetExists),
    ];
    answers.extend(template_answers(TemplateComparison::BothMissing, 1, true));
    let mut fs = Script::new(answers);
    {
        let mut runner = RealActionRunner::new(&mut fs, &handlebars, &variables, true, 3);
        let home = Path::new("home/file");
        assert!(matches!(runner.delete_symlink(source(), home), Ok(true)));
        assert!(matches!(runner.delete_template(source(), cache(), home), Ok(false)));
        assert!(matches!(runner.delete_copy(source(), &entry(1, 2)), Ok(true)));
        assert!(matches!(runner.create_symlink(source(), &link_target()), Ok(true)));
        assert!(matches!(runner.update_symlink(source(), &link_target()), Ok(false)));
        assert!(matches!(runner.create_copy(source(), &copy_target()), Ok(None)));
        assert!(matches!(runner.update_copy(source(), &copy_target(), &entry(1, 2)), Ok(None)));
        assert!(matches!(runner.update_template(source(), cache(), &template_target()), Ok(true)));
        assert!(matches!(runner.create_template(source(), cache(), &template_target()), Ok(true)));
    }
    assert_eq!(fs.remaining(), 0);
    assert_eq!(
        calls(&fs)[..10],
        [
            "compare link src/file home/file",
            "compare template home/file cache/file",
            "checksum home/file",
            "compare link src/file home/file",
            "compare link src/file home/file",
            "checksum src/file",
            "checksum src/file",
            "compare template home/file cache/file",
            "compare template home/file cache/file",
            "mkdir home as 7",
        ]
    );
}

#[test]
fn runner_passes_its_settings_on() {
    let handlebars = Handlebars::new();
    let variables = variables();
    let mut fs = Script::new(vec![
        Reply::Template(TemplateComparison::TargetNotRegularFile),
        Reply::Done,
        Reply::Text(String::from("{{name}}")),
        Reply::Done,
        Reply::Done,
        Reply::Done,
        Reply::Done,
    ]);
    let mut runner = RealActionRunner::new(&mut fs, &handlebars, &variables, true, 11);
    let result = runner.update_template(source(), cache(), &template_target());
    assert!(matches!(result, Ok(true)));
    assert_eq!(calls(&fs)[1], "show src/file home/file 11");
    assert_eq!(calls(&fs)[5], "write cache/file <World>");
}
