//! Deleting what was deployed.
use crate::config::CopyEntry;
use crate::error::{in_task, with_context, Context, Error};
use crate::filesystem::{
    Call, Event, FileHash, Filesystem, Reply, SymlinkComparison, TemplateComparison,
};
use crate::outside::owned;
use crate::plan::{
    all_done, carried_out, gave_up, lemma_done_in_longer_run, lemma_in_turn, lemma_since,
    lemma_within, since, step, steps_within, stopped, Plan, Step,
};
use std::path::{Path, PathBuf};
use vstd::prelude::*;

verus! {

/// Removing a symbolic link and the directories that this leaves empty.
pub open spec fn symlink_removal(target: PathBuf) -> Seq<Step> {
    seq![
        step(Call::RemoveFile { path: target }, Context::RemoveSymlink),
        step(Call::DeleteParents { path: target, no_ask: false }, Context::DeleteParentsOfSymlink),
    ]
}

/// Removing a rendered template from the cache, without asking the user about
/// the directories that this leaves empty.
pub open spec fn cache_removal(cache: PathBuf) -> Seq<Step> {
    seq![
        step(Call::RemoveFile { path: cache }, Context::DeleteTemplateCache),
        step(Call::DeleteParents { path: cache, no_ask: true }, Context::DeleteParentInCache),
    ]
}

/// Removing a deployed template and the directories that this leaves empty.
pub open spec fn template_removal(target: PathBuf) -> Seq<Step> {
    seq![
        step(Call::RemoveFile { path: target }, Context::DeleteTargetFile),
        step(
            Call::DeleteParents { path: target, no_ask: false },
            Context::DeleteParentInTargetLocation,
        ),
    ]
}

/// Removing a template from the cache, then from its target.
pub open spec fn full_template_removal(cache: PathBuf, target: PathBuf) -> Seq<Step> {
    steps_within(cache_removal(cache), Context::PerformCacheDeletion) + steps_within(
        template_removal(target),
        Context::PerformTemplateTargetDeletion,
    )
}

/// Removing a deployed copy and the directories that this leaves empty.
pub open spec fn copy_removal(target: PathBuf) -> Seq<Step> {
    seq![
        step(Call::RemoveFile { path: target }, Context::RemoveCopyTarget),
        step(
            Call::DeleteParents { path: target, no_ask: false },
            Context::DeleteParentsOfCopyTarget,
        ),
    ]
}

/// What deleting a symbolic link takes. The value says whether to forget the link.
pub open spec fn symlink_deletion(
    comparison: SymlinkComparison,
    target: PathBuf,
    force: bool,
) -> Plan<bool> {
    let removal = Plan {
        steps: steps_within(symlink_removal(target), Context::PerformSymlinkTargetDeletion),
        value: true,
    };
    match comparison {
        SymlinkComparison::Identical | SymlinkComparison::OnlyTargetExists => removal,
        SymlinkComparison::OnlySourceExists | SymlinkComparison::BothMissing => Plan::nothing(true),
        SymlinkComparison::Changed | SymlinkComparison::TargetNotSymlink => if force {
            removal
        } else {
            Plan::nothing(false)
        },
    }
}

/// `run` and `result` are those of deleting a symbolic link.
pub open spec fn symlink_deleted<E>(
    source: PathBuf,
    target: PathBuf,
    force: bool,
    run: Seq<Event<E>>,
    result: Result<bool, Error<E>>,
) -> bool {
    &&& run.len() > 0
    &&& run[0].call == Call::CompareSymlink { source, link: target }
    &&& match run[0].reply {
        Reply::Symlink(comparison) => symlink_deletion(comparison, target, force).carried_out(
            run.skip(1),
            result,
        ),
        Reply::Failed(error) => gave_up(run, Context::DetectSymlinkState, error, result),
        _ => false,
    }
}

/// What deleting a template takes. The value says whether to forget the template.
pub open spec fn template_deletion(
    comparison: TemplateComparison,
    cache: PathBuf,
    target: PathBuf,
    force: bool,
) -> Plan<bool> {
    let removal = Plan { steps: full_template_removal(cache, target), value: true };
    match comparison {
        TemplateComparison::Identical => removal,
        TemplateComparison::OnlyCacheExists => Plan {
            steps: steps_within(cache_removal(cache), Context::PerformCacheDeletion),
            value: true,
        },
        TemplateComparison::OnlyTargetExists | TemplateComparison::BothMissing => Plan::nothing(
            false,
        ),
        TemplateComparison::Changed | TemplateComparison::TargetNotRegularFile => if force {
            removal
        } else {
            Plan::nothing(false)
        },
    }
}

/// `run` and `result` are those of deleting a template.
pub open spec fn template_deleted<E>(
    cache: PathBuf,
    target: PathBuf,
    force: bool,
    run: Seq<Event<E>>,
    result: Result<bool, Error<E>>,
) -> bool {
    &&& run.len() > 0
    &&& run[0].call == Call::CompareTemplate { target, cache }
    &&& match run[0].reply {
        Reply::Template(comparison) => template_deletion(
            comparison,
            cache,
            target,
            force,
        ).carried_out(run.skip(1), result),
        Reply::Failed(error) => gave_up(run, Context::DetectTemplateState, error, result),
        _ => false,
    }
}

/// What deleting a copy takes, when the target now has the checksum `hash`. The
/// value says whether to forget the copy.
pub open spec fn copy_deletion(hash: FileHash, cached: CopyEntry, force: bool) -> Plan<bool> {
    if hash is NotPresent {
        Plan::nothing(true)
    } else if hash == FileHash::Hash(cached.target_checksum) || force {
        Plan { steps: copy_removal(cached.target), value: true }
    } else {
        Plan::nothing(false)
    }
}

/// `run` and `result` are those of deleting a copy.
pub open spec fn copy_deleted<E>(
    cached: CopyEntry,
    force: bool,
    run: Seq<Event<E>>,
    result: Result<bool, Error<E>>,
) -> bool {
    &&& run.len() > 0
    &&& run[0].call == Call::ChecksumFile { path: cached.target }
    &&& match run[0].reply {
        Reply::Hash(hash) => copy_deletion(hash, cached, force).carried_out(run.skip(1), result),
        Reply::Failed(error) => gave_up(run, Context::ChecksumCopyTarget, error, result),
        _ => false,
    }
}

/// Removes the symbolic link at `target`.
fn perform_symlink_target_deletion<F: Filesystem>(fs: &mut F, target: &Path) -> (result: Result<
    (),
    Error<F::Error>,
>)
    ensures
        old(fs).history().is_prefix_of(final(fs).history()),
        carried_out(
            symlink_removal(owned(target)),
            (),
            since(old(fs).history(), final(fs).history()),
            result,
        ),
{
    proof {
        reveal_with_fuel(all_done, 3);
        reveal_with_fuel(stopped, 3);
    }
    with_context(fs.remove_file(target), Context::RemoveSymlink)?;
    with_context(fs.delete_parents(target, false), Context::DeleteParentsOfSymlink)?;
    Ok(())
}

/// Removes the rendered template at `cache`.
fn perform_cache_deletion<F: Filesystem>(fs: &mut F, cache: &Path) -> (result: Result<
    (),
    Error<F::Error>,
>)
    ensures
        old(fs).history().is_prefix_of(final(fs).history()),
        carried_out(
            cache_removal(owned(cache)),
            (),
            since(old(fs).history(), final(fs).history()),
            result,
        ),
{
    proof {
        reveal_with_fuel(all_done, 3);
        reveal_with_fuel(stopped, 3);
    }
    with_context(fs.remove_file(cache), Context::DeleteTemplateCache)?;
    with_context(fs.delete_parents(cache, true), Context::DeleteParentInCache)?;
    Ok(())
}

/// Removes the deployed template at `target`.
fn perform_template_target_deletion<F: Filesystem>(fs: &mut F, target: &Path) -> (result: Result<
    (),
    Error<F::Error>,
>)
    ensures
        old(fs).history().is_prefix_of(final(fs).history()),
        carried_out(
            template_removal(owned(target)),
            (),
            since(old(fs).history(), final(fs).history()),
            result,
        ),
{
    proof {
        reveal_with_fuel(all_done, 3);
        reveal_with_fuel(stopped, 3);
    }
    with_context(fs.remove_file(target), Context::DeleteTargetFile)?;
    with_context(fs.delete_parents(target, false), Context::DeleteParentInTargetLocation)?;
    Ok(())
}

/// Deletes the symbolic link at `target`. Returns whether it should be forgotten.
pub fn delete_symlink<F: Filesystem>(
    source: &Path,
    target: &Path,
    fs: &mut F,
    force: bool,
) -> (result: Result<bool, Error<F::Error>>)
    ensures
        old(fs).history().is_prefix_of(final(fs).history()),
        symlink_deleted(
            owned(source),
            owned(target),
            force,
            since(old(fs).history(), final(fs).history()),
            result,
        ),
{
    proof {
        reveal_with_fuel(all_done, 3);
        reveal_with_fuel(stopped, 3);
    }
    let ghost before = fs.history();
    let comparison = with_context(fs.compare_symlink(source, target), Context::DetectSymlinkState)?;
    let ghost asked = fs.history();
    match comparison {
        SymlinkComparison::Identical | SymlinkComparison::OnlyTargetExists => {
            let removed = perform_symlink_target_deletion(fs, target);
            proof {
                let run = since(asked, fs.history());
                lemma_since(before, asked, fs.history());
                lemma_within(
                    symlink_removal(owned(target)),
                    Context::PerformSymlinkTargetDeletion,
                    run,
                );
            }
            in_task(removed, Context::PerformSymlinkTargetDeletion)?;
            Ok(true)
        },
        SymlinkComparison::OnlySourceExists | SymlinkComparison::BothMissing => Ok(true),
        SymlinkComparison::Changed | SymlinkComparison::TargetNotSymlink => {
            if force {
                let removed = perform_symlink_target_deletion(fs, target);
                proof {
                    let run = since(asked, fs.history());
                    lemma_since(before, asked, fs.history());
                    lemma_within(
                        symlink_removal(owned(target)),
                        Context::PerformSymlinkTargetDeletion,
                        run,
                    );
                }
                in_task(removed, Context::PerformSymlinkTargetDeletion)?;
                Ok(true)
            } else {
                Ok(false)
            }
        },
    }
}

/// Removes a template from the cache and from its target.
fn perform_template_deletion<F: Filesystem>(fs: &mut F, cache: &Path, target: &Path) -> (result:
    Result<(), Error<F::Error>>)
    ensures
        old(fs).history().is_prefix_of(final(fs).history()),
        carried_out(
            full_template_removal(owned(cache), owned(target)),
            (),
            since(old(fs).history(), final(fs).history()),
            result,
        ),
{
    let ghost before = fs.history();
    let ghost of_cache = cache_removal(owned(cache));
    let ghost of_target = template_removal(owned(target));
    let ghost first = steps_within(of_cache, Context::PerformCacheDeletion);
    let ghost second = steps_within(of_target, Context::PerformTemplateTargetDeletion);
    let uncached = perform_cache_deletion(fs, cache);
    let ghost between = fs.history();
    proof {
        lemma_within(of_cache, Context::PerformCacheDeletion, since(before, between));
        lemma_in_turn(first, second, since(before, between));
    }
    in_task(uncached, Context::PerformCacheDeletion)?;
    let removed = perform_template_target_deletion(fs, target);
    proof {
        lemma_since(before, between, fs.history());
        lemma_within(
            of_target,
            Context::PerformTemplateTargetDeletion,
            since(between, fs.history()),
        );
        lemma_in_turn(first, second, since(before, fs.history()));
        lemma_done_in_longer_run(first, since(before, between), since(between, fs.history()));
    }
    in_task(removed, Context::PerformTemplateTargetDeletion)?;
    Ok(())
}

/// Deletes the template deployed at `target` and its rendered copy at `cache`.
/// Returns whether it should be forgotten.
pub fn delete_template<F: Filesystem>(
    _source: &Path,
    cache: &Path,
    target: &Path,
    fs: &mut F,
    force: bool,
) -> (result: Result<bool, Error<F::Error>>)
    ensures
        old(fs).history().is_prefix_of(final(fs).history()),
        template_deleted(
            owned(cache),
            owned(target),
            force,
            since(old(fs).history(), final(fs).history()),
            result,
        ),
{
    let ghost before = fs.history();
    let comparison = with_context(
        fs.compare_template(target, cache),
        Context::DetectTemplateState,
    )?;
    let ghost asked = fs.history();
    match comparison {
        TemplateComparison::Identical => {
            let deleted = perform_template_deletion(fs, cache, target);
            proof {
                lemma_since(before, asked, fs.history());
            }
            deleted?;
            Ok(true)
        },
        TemplateComparison::OnlyCacheExists => {
            let uncached = perform_cache_deletion(fs, cache);
            proof {
                lemma_since(before, asked, fs.history());
                lemma_within(
                    cache_removal(owned(cache)),
                    Context::PerformCacheDeletion,
                    since(asked, fs.history()),
                );
            }
            in_task(uncached, Context::PerformCacheDeletion)?;
            Ok(true)
        },
        TemplateComparison::OnlyTargetExists | TemplateComparison::BothMissing => Ok(false),
        TemplateComparison::Changed | TemplateComparison::TargetNotRegularFile => {
            if force {
                let deleted = perform_template_deletion(fs, cache, target);
                proof {
                    lemma_since(before, asked, fs.history());
                }
                deleted?;
                Ok(true)
            } else {
                Ok(false)
            }
        },
    }
}

/// Deletes the copy that `cached` tells of. Returns whether it should be forgotten.
pub fn delete_copy<F: Filesystem>(
    _source: &Path,
    cached: &CopyEntry,
    fs: &mut F,
    force: bool,
) -> (result: Result<bool, Error<F::Error>>)
    ensures
        old(fs).history().is_prefix_of(final(fs).history()),
        copy_deleted(*cached, force, since(old(fs).history(), final(fs).history()), result),
{
    proof {
        reveal_with_fuel(all_done, 3);
        reveal_with_fuel(stopped, 3);
    }
    let target = cached.target.as_path();
    let target_hash = with_context(fs.checksum_file(target), Context::ChecksumCopyTarget)?;
    match target_hash {
        FileHash::NotPresent => Ok(true),
        FileHash::Hash(h) if h == cached.target_checksum => {
            with_context(fs.remove_file(target), Context::RemoveCopyTarget)?;
            with_context(fs.delete_parents(target, false), Context::DeleteParentsOfCopyTarget)?;
            Ok(true)
        },
        FileHash::Hash(_) | FileHash::NotRegularFile => {
            if force {
                with_context(fs.remove_file(target), Context::RemoveCopyTarget)?;
                with_context(fs.delete_parents(target, false), Context::DeleteParentsOfCopyTarget)?;
                Ok(true)
            } else {
                Ok(false)
            }
        },
    }
}

} // verus!
