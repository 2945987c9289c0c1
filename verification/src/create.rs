//! Deploying what was not deployed before.
use crate::config::{CopyEntry, CopyTarget, SymbolicTarget, TemplateTarget, UnixUser, Variables};
use crate::deploy::{deploy_template, deployed_after, lemma_deployed_after};
use crate::error::{parent_with_context, with_context, Context, Error};
use crate::filesystem::{
    Call, Event, FileHash, Filesystem, Reply, SymlinkComparison, TemplateComparison,
};
use crate::outside::owned;
use crate::plan::{
    all_done, create_target_parent, gave_up, lemma_since, since, step, stopped, Plan, Step,
};
use handlebars::Handlebars;
use std::path::{Path, PathBuf};
use vstd::prelude::*;

verus! {

/// Making the symbolic link that `target` asks for.
pub open spec fn make_symlink(source: PathBuf, target: SymbolicTarget) -> Step {
    step(
        Call::MakeSymlink { link: target.target, source, owner: target.owner },
        Context::CreateTargetSymlink,
    )
}

/// Removing what is in the way of a symbolic link.
pub open spec fn clear_symlink(target: SymbolicTarget) -> Step {
    step(Call::RemoveFile { path: target.target }, Context::RemoveSymlinkTargetWhileForcing)
}

/// What creating a symbolic link takes. The value says whether to remember the link.
pub open spec fn symlink_creation(
    comparison: SymlinkComparison,
    source: PathBuf,
    target: SymbolicTarget,
    force: bool,
) -> Plan<bool> {
    match comparison {
        SymlinkComparison::OnlySourceExists => Plan {
            steps: seq![
                create_target_parent(target.target, target.owner),
                make_symlink(source, target),
            ],
            value: true,
        },
        SymlinkComparison::Identical => Plan::nothing(true),
        SymlinkComparison::OnlyTargetExists | SymlinkComparison::BothMissing => Plan::nothing(
            false,
        ),
        SymlinkComparison::Changed | SymlinkComparison::TargetNotSymlink => if force {
            Plan { steps: seq![clear_symlink(target), make_symlink(source, target)], value: true }
        } else {
            Plan::nothing(false)
        },
    }
}

/// `run` and `result` are those of creating a symbolic link.
pub open spec fn symlink_created<E>(
    source: PathBuf,
    target: SymbolicTarget,
    force: bool,
    run: Seq<Event<E>>,
    result: Result<bool, Error<E>>,
) -> bool {
    &&& run.len() > 0
    &&& run[0].call == Call::CompareSymlink { source, link: target.target }
    &&& match run[0].reply {
        Reply::Symlink(comparison) => symlink_creation(
            comparison,
            source,
            target,
            force,
        ).carried_out(run.skip(1), result),
        Reply::Failed(error) => gave_up(run, Context::DetectSymlinkState, error, result),
        _ => false,
    }
}

/// What has to be done before a template is deployed for the first time; `None` if
/// it is not to be deployed.
pub open spec fn template_creation(
    comparison: TemplateComparison,
    target: TemplateTarget,
    force: bool,
) -> Option<Seq<Step>> {
    let parent = create_target_parent(target.target, target.owner);
    match comparison {
        TemplateComparison::BothMissing
        | TemplateComparison::OnlyCacheExists
        | TemplateComparison::Identical => Some(seq![parent]),
        TemplateComparison::TargetNotRegularFile
        | TemplateComparison::Changed
        | TemplateComparison::OnlyTargetExists => if force {
            Some(
                seq![
                    step(
                        Call::RemoveFile { path: target.target },
                        Context::RemoveExistingFileWhileForcing,
                    ),
                    parent,
                ],
            )
        } else {
            None
        },
    }
}

/// `run` and `result` are those of creating a template.
pub open spec fn template_created<E>(
    source: PathBuf,
    cache: PathBuf,
    target: TemplateTarget,
    handlebars: Handlebars<'_>,
    variables: Variables,
    force: bool,
    run: Seq<Event<E>>,
    result: Result<bool, Error<E>>,
) -> bool {
    &&& run.len() > 0
    &&& run[0].call == Call::CompareTemplate { target: target.target, cache }
    &&& match run[0].reply {
        Reply::Template(comparison) => match template_creation(comparison, target, force) {
            Some(preparation) => deployed_after(
                preparation,
                source,
                cache,
                target,
                handlebars,
                variables,
                run.skip(1),
                result,
            ),
            None => run.len() == 1 && result == Ok::<bool, Error<E>>(false),
        },
        Reply::Failed(error) => gave_up(run, Context::DetectTemplateState, error, result),
        _ => false,
    }
}

/// Copying the source to `target`, with its permissions.
pub open spec fn copy_steps(
    source: PathBuf,
    target: PathBuf,
    owner: Option<UnixUser>,
) -> Seq<Step> {
    seq![
        create_target_parent(target, owner),
        step(Call::CopyFile { source, target, owner }, Context::CopySourceToTarget),
        step(Call::CopyPermissions { source, target, owner }, Context::CopyPermissions),
    ]
}

/// The entry of a copy whose source and target both have the checksum `hash`.
pub open spec fn fresh_entry(target: PathBuf, hash: u64) -> CopyEntry {
    CopyEntry { target, source_checksum: hash, target_checksum: hash }
}

/// What creating a copy takes, when the source has the checksum `source_hash` and
/// the target now `target_hash`. The value is what to remember, if anything.
pub open spec fn copy_creation(
    source_hash: u64,
    target_hash: FileHash,
    source: PathBuf,
    target: CopyTarget,
    force: bool,
) -> Plan<Option<CopyEntry>> {
    let copying = copy_steps(source, target.target, target.owner);
    let entry = Some(fresh_entry(target.target, source_hash));
    if target_hash is NotPresent {
        Plan { steps: copying, value: entry }
    } else if target_hash == FileHash::Hash(source_hash) {
        Plan::nothing(entry)
    } else if force {
        Plan {
            steps: seq![
                step(Call::RemoveFile { path: target.target }, Context::RemoveExistingTarget),
            ] + copying,
            value: entry,
        }
    } else {
        Plan::nothing(None)
    }
}

/// `run` and `result` are those of creating a copy. Without a source file there is
/// nothing to do.
pub open spec fn copy_created<E>(
    source: PathBuf,
    target: CopyTarget,
    force: bool,
    run: Seq<Event<E>>,
    result: Result<Option<CopyEntry>, Error<E>>,
) -> bool {
    &&& run.len() > 0
    &&& run[0].call == Call::ChecksumFile { path: source }
    &&& match run[0].reply {
        Reply::Hash(FileHash::Hash(source_hash)) => {
            let rest = run.skip(1);
            &&& rest.len() > 0
            &&& rest[0].call == Call::ChecksumFile { path: target.target }
            &&& match rest[0].reply {
                Reply::Hash(target_hash) => copy_creation(
                    source_hash,
                    target_hash,
                    source,
                    target,
                    force,
                ).carried_out(rest.skip(1), result),
                Reply::Failed(error) => gave_up(rest, Context::ChecksumTarget, error, result),
                _ => false,
            }
        },
        Reply::Hash(_) => run.len() == 1 && result == Ok::<Option<CopyEntry>, Error<E>>(None),
        Reply::Failed(error) => gave_up(run, Context::ChecksumSource, error, result),
        _ => false,
    }
}

/// Makes `target` a symbolic link to `source`. Returns whether it should be
/// remembered.
pub fn create_symlink<F: Filesystem>(
    source: &Path,
    target: &SymbolicTarget,
    fs: &mut F,
    force: bool,
) -> (result: Result<bool, Error<F::Error>>)
    ensures
        old(fs).history().is_prefix_of(final(fs).history()),
        symlink_created(
            owned(source),
            *target,
            force,
            since(old(fs).history(), final(fs).history()),
            result,
        ),
{
    proof {
        reveal_with_fuel(all_done, 3);
        reveal_with_fuel(stopped, 3);
    }
    let link = target.target.as_path();
    let comparison = with_context(fs.compare_symlink(source, link), Context::DetectSymlinkState)?;
    match comparison {
        SymlinkComparison::OnlySourceExists => {
            let parent = parent_with_context(link, Context::GetParentOfTarget)?;
            with_context(fs.create_dir_all(parent, &target.owner), Context::CreateParentForTarget)?;
            with_context(
                fs.make_symlink(link, source, &target.owner),
                Context::CreateTargetSymlink,
            )?;
            Ok(true)
        },
        SymlinkComparison::Identical => Ok(true),
        SymlinkComparison::OnlyTargetExists | SymlinkComparison::BothMissing => Ok(false),
        SymlinkComparison::Changed | SymlinkComparison::TargetNotSymlink => {
            if force {
                with_context(fs.remove_file(link), Context::RemoveSymlinkTargetWhileForcing)?;
                with_context(
                    fs.make_symlink(link, source, &target.owner),
                    Context::CreateTargetSymlink,
                )?;
                Ok(true)
            } else {
                Ok(false)
            }
        },
    }
}

/// Renders the template `source` and deploys it to `target`. Returns whether it
/// should be remembered.
///
/// The call does not come back if rendering does not: if an inline partial includes
/// itself, if partials include each other, or if a helper panics. A registered template
/// that includes itself by its own name is reported as a failure to render.
pub fn create_template<F: Filesystem>(
    source: &Path,
    cache: &Path,
    target: &TemplateTarget,
    fs: &mut F,
    handlebars: &Handlebars<'_>,
    variables: &Variables,
    force: bool,
) -> (result: Result<bool, Error<F::Error>>)
    ensures
        old(fs).history().is_prefix_of(final(fs).history()),
        template_created(
            owned(source),
            owned(cache),
            *target,
            *handlebars,
            *variables,
            force,
            since(old(fs).history(), final(fs).history()),
            result,
        ),
{
    proof {
        reveal_with_fuel(all_done, 3);
        reveal_with_fuel(stopped, 3);
    }
    let ghost before = fs.history();
    let path = target.target.as_path();
    let comparison = with_context(fs.compare_template(path, cache), Context::DetectTemplateState)?;
    let ghost asked = fs.history();
    match comparison {
        TemplateComparison::BothMissing
        | TemplateComparison::OnlyCacheExists
        | TemplateComparison::Identical => {},
        TemplateComparison::TargetNotRegularFile
        | TemplateComparison::Changed
        | TemplateComparison::OnlyTargetExists => {
            if !force {
                return Ok(false);
            }
            with_context(fs.remove_file(path), Context::RemoveExistingFileWhileForcing)?;
        },
    }
    let parent = parent_with_context(path, Context::GetParentOfTarget)?;
    with_context(fs.create_dir_all(parent, &target.owner), Context::CreateParentForTarget)?;
    let ghost prepared = fs.history();
    let result = deploy_template(source, cache, target, fs, handlebars, variables);
    proof {
        lemma_since(asked, prepared, fs.history());
        lemma_since(before, asked, fs.history());
        let preparation = template_creation(comparison, *target, force)->Some_0;
        lemma_deployed_after(
            preparation,
            owned(source),
            owned(cache),
            *target,
            *handlebars,
            *variables,
            since(asked, prepared),
            since(prepared, fs.history()),
            result,
        );
    }
    result
}

/// Copies `source` to `target`. Returns the entry to remember, or `None` if the
/// copy was skipped.
pub fn create_copy<F: Filesystem>(
    source: &Path,
    target: &CopyTarget,
    fs: &mut F,
    force: bool,
) -> (result: Result<Option<CopyEntry>, Error<F::Error>>)
    ensures
        old(fs).history().is_prefix_of(final(fs).history()),
        copy_created(
            owned(source),
            *target,
            force,
            since(old(fs).history(), final(fs).history()),
            result,
        ),
{
    proof {
        reveal_with_fuel(all_done, 5);
        reveal_with_fuel(stopped, 5);
    }
    let path = target.target.as_path();
    let source_hash = match with_context(fs.checksum_file(source), Context::ChecksumSource)? {
        FileHash::Hash(h) => h,
        _ => {
            return Ok(None);
        },
    };
    let target_hash = with_context(fs.checksum_file(path), Context::ChecksumTarget)?;
    match target_hash {
        FileHash::NotPresent => {
            let parent = parent_with_context(path, Context::GetParentOfTarget)?;
            with_context(fs.create_dir_all(parent, &target.owner), Context::CreateParentForTarget)?;
            with_context(fs.copy_file(source, path, &target.owner), Context::CopySourceToTarget)?;
            with_context(
                fs.copy_permissions(source, path, &target.owner),
                Context::CopyPermissions,
            )?;
            Ok(
                Some(
                    CopyEntry {
                        target: target.target.clone(),
                        source_checksum: source_hash,
                        target_checksum: source_hash,
                    },
                ),
            )
        },
        FileHash::Hash(h) if h == source_hash => Ok(
            Some(
                CopyEntry {
                    target: target.target.clone(),
                    source_checksum: source_hash,
                    target_checksum: h,
                },
            ),
        ),
        FileHash::Hash(_) | FileHash::NotRegularFile => {
            if force {
                with_context(fs.remove_file(path), Context::RemoveExistingTarget)?;
                let parent = parent_with_context(path, Context::GetParentOfTarget)?;
                with_context(
                    fs.create_dir_all(parent, &target.owner),
                    Context::CreateParentForTarget,
                )?;
                with_context(
                    fs.copy_file(source, path, &target.owner),
                    Context::CopySourceToTarget,
                )?;
                with_context(
                    fs.copy_permissions(source, path, &target.owner),
                    Context::CopyPermissions,
                )?;
                Ok(
                    Some(
                        CopyEntry {
                            target: target.target.clone(),
                            source_checksum: source_hash,
                            target_checksum: source_hash,
                        },
                    ),
                )
            } else {
                Ok(None)
            }
        },
    }
}

} // verus!
