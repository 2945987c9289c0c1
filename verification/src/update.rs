//! Bringing what was deployed before up to date.
use crate::config::{CopyEntry, CopyTarget, SymbolicTarget, TemplateTarget, Variables};
use crate::create::{clear_symlink, copy_steps, fresh_entry, make_symlink};
use crate::deploy::{deploy_template, deployed_after, lemma_deployed_after};
use crate::difference::{diff_nonempty, differs, DiffLine};
use crate::error::{parent_with_context, with_context, Context, Error};
use crate::filesystem::{
    Call, Event, FileHash, Filesystem, Reply, SymlinkComparison, TemplateComparison, TemplateDiff,
};
use crate::outside::owned;
use crate::plan::{
    all_done, carried_out, create_target_parent, gave_up, lemma_in_turn, lemma_since, since, step,
    stopped, Plan, Step,
};
use handlebars::Handlebars;
use std::path::{Path, PathBuf};
use vstd::prelude::*;

verus! {

/// What updating a symbolic link takes. The value says whether it was not skipped.
pub open spec fn symlink_refresh(
    comparison: SymlinkComparison,
    source: PathBuf,
    target: SymbolicTarget,
    force: bool,
) -> Plan<bool> {
    match comparison {
        SymlinkComparison::Identical => Plan::nothing(true),
        SymlinkComparison::OnlyTargetExists | SymlinkComparison::BothMissing => Plan::nothing(
            false,
        ),
        SymlinkComparison::Changed | SymlinkComparison::TargetNotSymlink => if force {
            Plan { steps: seq![clear_symlink(target), make_symlink(source, target)], value: true }
        } else {
            Plan::nothing(false)
        },
        SymlinkComparison::OnlySourceExists => Plan {
            steps: seq![
                create_target_parent(target.target, target.owner),
                make_symlink(source, target),
            ],
            value: true,
        },
    }
}

/// `run` and `result` are those of updating a symbolic link.
pub open spec fn symlink_updated<E>(
    source: PathBuf,
    target: SymbolicTarget,
    force: bool,
    run: Seq<Event<E>>,
    result: Result<bool, Error<E>>,
) -> bool {
    &&& run.len() > 0
    &&& run[0].call == Call::CompareSymlink { source, link: target.target }
    &&& match run[0].reply {
        Reply::Symlink(comparison) => symlink_refresh(
            comparison,
            source,
            target,
            force,
        ).carried_out(run.skip(1), result),
        Reply::Failed(error) => gave_up(run, Context::DetectSymlinkState, error, result),
        _ => false,
    }
}

/// Showing what updating a template is about to change.
pub open spec fn show_template_diff(
    source: PathBuf,
    target: TemplateTarget,
    handlebars: Handlebars<'_>,
    variables: Variables,
    diff_context_lines: usize,
) -> Step {
    Step::Show {
        call: Call::PrintTemplateDiff {
            source,
            template: target,
            handlebars: Ghost(handlebars),
            variables: Ghost(variables),
            context_lines: diff_context_lines,
        },
    }
}

/// What the comparison of a template with its cache leads to.
pub enum TemplateRefresh {
    /// To be deployed, after these steps.
    Deploy { preparation: Seq<Step> },
    /// To be deployed only if the target does not differ from what is rendered.
    DeployUnlessDifferent,
    /// Not to be touched; the value says whether this does not count as skipping.
    Leave { value: bool },
}

/// What updating a template takes.
pub open spec fn template_refresh(
    comparison: TemplateComparison,
    source: PathBuf,
    target: TemplateTarget,
    handlebars: Handlebars<'_>,
    variables: Variables,
    force: bool,
    diff_context_lines: usize,
) -> TemplateRefresh {
    let show = show_template_diff(source, target, handlebars, variables, diff_context_lines);
    match comparison {
        TemplateComparison::Identical => TemplateRefresh::Deploy {
            preparation: seq![
                show,
                step(
                    Call::SetOwner { path: target.target, owner: target.owner },
                    Context::SetTargetOwner,
                ),
            ],
        },
        TemplateComparison::OnlyCacheExists => TemplateRefresh::Deploy {
            preparation: seq![create_target_parent(target.target, target.owner)],
        },
        TemplateComparison::OnlyTargetExists
        | TemplateComparison::BothMissing => TemplateRefresh::Leave { value: true },
        TemplateComparison::Changed | TemplateComparison::TargetNotRegularFile => if force {
            TemplateRefresh::Deploy {
                preparation: seq![
                    show,
                    step(
                        Call::RemoveFile { path: target.target },
                        Context::RemoveTargetWhileForcing,
                    ),
                ],
            }
        } else if comparison is Changed {
            TemplateRefresh::DeployUnlessDifferent
        } else {
            TemplateRefresh::Leave { value: false }
        },
    }
}

/// `run` is that of refusing to overwrite a target that differs: the difference is
/// shown if the user wants to see it.
pub open spec fn change_refused<E>(
    diff: Seq<DiffLine>,
    diff_context_lines: usize,
    run: Seq<Event<E>>,
) -> bool {
    &&& run.len() > 0
    &&& run[0].call is InfoEnabled
    &&& run[0].reply matches Reply::Enabled(enabled)
    &&& if enabled {
        &&& run.len() == 2
        &&& run[1].call == Call::PrintDiff {
            diff: Ghost(diff),
            context_lines: diff_context_lines,
        }
        &&& run[1].reply is Done
    } else {
        run.len() == 1
    }
}

/// `run` and `result` are those of deploying a template unless its target differs
/// from what is rendered.
pub open spec fn deployed_unless_different<E>(
    source: PathBuf,
    cache: PathBuf,
    target: TemplateTarget,
    handlebars: Handlebars<'_>,
    variables: Variables,
    diff_context_lines: usize,
    run: Seq<Event<E>>,
    result: Result<bool, Error<E>>,
) -> bool {
    &&& run.len() > 0
    &&& run[0].call == Call::GenerateTemplateDiff {
        source,
        template: target,
        handlebars: Ghost(handlebars),
        variables: Ghost(variables),
        source_to_target: false,
    }
    &&& match run[0].reply {
        Reply::Difference(diff) => if differs(diff@) {
            &&& change_refused(diff@, diff_context_lines, run.skip(1))
            &&& result == Ok::<bool, Error<E>>(false)
        } else {
            deployed_after(
                Seq::empty(),
                source,
                cache,
                target,
                handlebars,
                variables,
                run.skip(1),
                result,
            )
        },
        Reply::Failed(error) => gave_up(run, Context::DiffSourceAndTarget, error, result),
        _ => false,
    }
}

/// `run` and `result` are those of updating a template.
pub open spec fn template_updated<E>(
    source: PathBuf,
    cache: PathBuf,
    target: TemplateTarget,
    handlebars: Handlebars<'_>,
    variables: Variables,
    force: bool,
    diff_context_lines: usize,
    run: Seq<Event<E>>,
    result: Result<bool, Error<E>>,
) -> bool {
    &&& run.len() > 0
    &&& run[0].call == Call::CompareTemplate { target: target.target, cache }
    &&& match run[0].reply {
        Reply::Template(comparison) => match template_refresh(
            comparison,
            source,
            target,
            handlebars,
            variables,
            force,
            diff_context_lines,
        ) {
            TemplateRefresh::Deploy { preparation } => deployed_after(
                preparation,
                source,
                cache,
                target,
                handlebars,
                variables,
                run.skip(1),
                result,
            ),
            TemplateRefresh::DeployUnlessDifferent => deployed_unless_different(
                source,
                cache,
                target,
                handlebars,
                variables,
                diff_context_lines,
                run.skip(1),
                result,
            ),
            TemplateRefresh::Leave { value } => run.len() == 1 && result == Ok::<bool, Error<E>>(
                value,
            ),
        },
        Reply::Failed(error) => gave_up(run, Context::DetectTemplateState, error, result),
        _ => false,
    }
}

/// What updating a copy takes, when the source has the checksum `source_hash` and
/// the target now `target_hash`. The value is what to remember, if the copy was not
/// skipped.
pub open spec fn copy_refresh(
    source_hash: u64,
    target_hash: FileHash,
    source: PathBuf,
    target: CopyTarget,
    cached: CopyEntry,
    force: bool,
) -> Plan<Option<CopyEntry>> {
    let copying = copy_steps(source, cached.target, target.owner);
    let entry = Some(fresh_entry(cached.target, source_hash));
    if target_hash == FileHash::Hash(cached.target_checksum) {
        if source_hash == cached.source_checksum {
            Plan {
                steps: seq![
                    step(
                        Call::SetOwner { path: cached.target, owner: target.owner },
                        Context::SetTargetOwner,
                    ),
                    step(
                        Call::CopyPermissions {
                            source,
                            target: cached.target,
                            owner: target.owner,
                        },
                        Context::CopyPermissions,
                    ),
                ],
                value: Some(cached),
            }
        } else {
            Plan {
                steps: seq![
                    step(Call::RemoveFile { path: cached.target }, Context::RemoveStaleCopyTarget),
                ] + copying,
                value: entry,
            }
        }
    } else if target_hash is NotPresent {
        Plan { steps: copying, value: entry }
    } else if force {
        Plan {
            steps: seq![
                step(
                    Call::RemoveFile { path: cached.target },
                    Context::RemoveExternallyModifiedTarget,
                ),
            ] + copying,
            value: entry,
        }
    } else {
        Plan::nothing(None)
    }
}

/// `run` and `result` are those of updating a copy. Without a source file there is
/// nothing to do.
pub open spec fn copy_updated<E>(
    source: PathBuf,
    target: CopyTarget,
    cached: CopyEntry,
    force: bool,
    run: Seq<Event<E>>,
    result: Result<Option<CopyEntry>, Error<E>>,
) -> bool {
    &&& run.len() > 0
    &&& run[0].call == Call::ChecksumFile { path: source }
    &&& match run[0].reply {
        Reply::Hash(FileHash::Hash(source_hash)) => {
            let rest = run.skip(1);
            &&& rest.len() > 0
            &&& rest[0].call == Call::ChecksumFile { path: cached.target }
            &&& match rest[0].reply {
                Reply::Hash(target_hash) => copy_refresh(
                    source_hash,
                    target_hash,
                    source,
                    target,
                    cached,
                    force,
                ).carried_out(rest.skip(1), result),
                Reply::Failed(error) => gave_up(rest, Context::ChecksumTarget, error, result),
                _ => false,
            }
        },
        Reply::Hash(_) => run.len() == 1 && result == Ok::<Option<CopyEntry>, Error<E>>(None),
        Reply::Failed(error) => gave_up(run, Context::ChecksumSource, error, result),
        _ => false,
    }
}

/// Brings the symbolic link at `target` up to date. Returns whether it was not
/// skipped.
pub fn update_symlink<F: Filesystem>(
    source: &Path,
    target: &SymbolicTarget,
    fs: &mut F,
    force: bool,
) -> (result: Result<bool, Error<F::Error>>)
    ensures
        old(fs).history().is_prefix_of(final(fs).history()),
        symlink_updated(
            owned(source),
            *target,
            force,
            since(old(fs).history(), final(fs).history()),
            result,
        ),
{
    proof {
        reveal_with_fuel(all_done, 3);
        reveal_with_fuel(stopped, 3);
    }
    let link = target.target.as_path();
    let comparison = with_context(fs.compare_symlink(source, link), Context::DetectSymlinkState)?;
    match comparison {
        SymlinkComparison::Identical => Ok(true),
        SymlinkComparison::OnlyTargetExists | SymlinkComparison::BothMissing => Ok(false),
        SymlinkComparison::Changed | SymlinkComparison::TargetNotSymlink => {
            if force {
                with_context(fs.remove_file(link), Context::RemoveSymlinkTargetWhileForcing)?;
                with_context(
                    fs.make_symlink(link, source, &target.owner),
                    Context::CreateTargetSymlink,
                )?;
                Ok(true)
            } else {
                Ok(false)
            }
        },
        SymlinkComparison::OnlySourceExists => {
            let parent = parent_with_context(link, Context::GetParentOfTarget)?;
            with_context(fs.create_dir_all(parent, &target.owner), Context::CreateParentForTarget)?;
            with_context(
                fs.make_symlink(link, source, &target.owner),
                Context::CreateTargetSymlink,
            )?;
            Ok(true)
        },
    }
}

/// Deploys a changed template if its target is what would be deployed anyway, and
/// shows the difference otherwise.
fn update_changed_template<F: TemplateDiff>(
    source: &Path,
    cache: &Path,
    target: &TemplateTarget,
    fs: &mut F,
    handlebars: &Handlebars<'_>,
    variables: &Variables,
    diff_context_lines: usize,
) -> (result: Result<bool, Error<F::Error>>)
    ensures
        old(fs).history().is_prefix_of(final(fs).history()),
        deployed_unless_different(
            owned(source),
            owned(cache),
            *target,
            *handlebars,
            *variables,
            diff_context_lines,
            since(old(fs).history(), final(fs).history()),
            result,
        ),
{
    let ghost before = fs.history();
    let diff = with_context(
        fs.generate_template_diff(source, target, handlebars, variables, false),
        Context::DiffSourceAndTarget,
    )?;
    let ghost asked = fs.history();
    if diff_nonempty(&diff) {
        if fs.info_enabled() {
            fs.print_diff(&diff, diff_context_lines);
        }
        Ok(false)
    } else {
        let result = deploy_template(source, cache, target, fs, handlebars, variables);
        proof {
            lemma_since(before, asked, fs.history());
        }
        result
    }
}

/// Renders the template `source` again and brings its target up to date. Returns
/// whether it was not skipped.
///
/// The call does not come back if rendering does not: if an inline partial includes
/// itself, if partials include each other, or if a helper panics. A registered template
/// that includes itself by its own name is reported as a failure to render.
pub fn update_template<F: TemplateDiff>(
    source: &Path,
    cache: &Path,
    target: &TemplateTarget,
    fs: &mut F,
    handlebars: &Handlebars<'_>,
    variables: &Variables,
    force: bool,
    diff_context_lines: usize,
) -> (result: Result<bool, Error<F::Error>>)
    ensures
        old(fs).history().is_prefix_of(final(fs).history()),
        template_updated(
            owned(source),
            owned(cache),
            *target,
            *handlebars,
            *variables,
            force,
            diff_context_lines,
            since(old(fs).history(), final(fs).history()),
            result,
        ),
{
    proof {
        reveal_with_fuel(all_done, 3);
        reveal_with_fuel(stopped, 3);
    }
    let ghost before = fs.history();
    let path = target.target.as_path();
    let comparison = with_context(fs.compare_template(path, cache), Context::DetectTemplateState)?;
    let ghost asked = fs.history();
    match comparison {
        TemplateComparison::Identical => {
            fs.print_template_diff(source, target, handlebars, variables, diff_context_lines);
            with_context(fs.set_owner(path, &target.owner), Context::SetTargetOwner)?;
        },
        TemplateComparison::OnlyCacheExists => {
            let parent = parent_with_context(path, Context::GetParentOfTarget)?;
            with_context(fs.create_dir_all(parent, &target.owner), Context::CreateParentForTarget)?;
        },
        TemplateComparison::OnlyTargetExists | TemplateComparison::BothMissing => {
            return Ok(true);
        },
        TemplateComparison::Changed | TemplateComparison::TargetNotRegularFile => {
            if !force {
                return match comparison {
                    TemplateComparison::Changed => {
                        let result = update_changed_template(
                            source,
                            cache,
                            target,
                            fs,
                            handlebars,
                            variables,
                            diff_context_lines,
                        );
                        proof {
                            lemma_since(before, asked, fs.history());
                        }
                        result
                    },
                    _ => Ok(false),
                };
            }
            fs.print_template_diff(source, target, handlebars, variables, diff_context_lines);
            with_context(fs.remove_file(path), Context::RemoveTargetWhileForcing)?;
        },
    }
    let ghost prepared = fs.history();
    let result = deploy_template(source, cache, target, fs, handlebars, variables);
    proof {
        lemma_since(asked, prepared, fs.history());
        lemma_since(before, asked, fs.history());
        let refresh = template_refresh(
            comparison,
            owned(source),
            *target,
            *handlebars,
            *variables,
            force,
            diff_context_lines,
        );
        lemma_deployed_after(
            refresh->preparation,
            owned(source),
            owned(cache),
            *target,
            *handlebars,
            *variables,
            since(asked, prepared),
            since(prepared, fs.history()),
            result,
        );
    }
    result
}

/// Copies `source` to `cached.target`, creating the directories above it as needed.
/// Returns the entry of the new copy, both checksums `source_hash`.
fn perform_copy_update<F: Filesystem>(
    source: &Path,
    cached: &CopyEntry,
    target: &CopyTarget,
    fs: &mut F,
    source_hash: u64,
) -> (result: Result<Option<CopyEntry>, Error<F::Error>>)
    ensures
        old(fs).history().is_prefix_of(final(fs).history()),
        carried_out(
            copy_steps(owned(source), cached.target, target.owner),
            Some(fresh_entry(cached.target, source_hash)),
            since(old(fs).history(), final(fs).history()),
            result,
        ),
{
    proof {
        reveal_with_fuel(all_done, 4);
        reveal_with_fuel(stopped, 4);
    }
    let path = cached.target.as_path();
    let parent = parent_with_context(path, Context::GetParentOfTarget)?;
    with_context(fs.create_dir_all(parent, &target.owner), Context::CreateParentForTarget)?;
    with_context(fs.copy_file(source, path, &target.owner), Context::CopySourceToTarget)?;
    with_context(fs.copy_permissions(source, path, &target.owner), Context::CopyPermissions)?;
    Ok(
        Some(
            CopyEntry {
                target: cached.target.clone(),
                source_checksum: source_hash,
                target_checksum: source_hash,
            },
        ),
    )
}

/// Brings the copy that `cached` tells of up to date. `cached` is an entry made for
/// `target`: the two name the same path, and that of `cached` is the one used. Returns
/// the entry to remember, or `None` if the copy was skipped.
pub fn update_copy<F: Filesystem>(
    source: &Path,
    target: &CopyTarget,
    cached: &CopyEntry,
    fs: &mut F,
    force: bool,
) -> (result: Result<Option<CopyEntry>, Error<F::Error>>)
    ensures
        old(fs).history().is_prefix_of(final(fs).history()),
        copy_updated(
            owned(source),
            *target,
            *cached,
            force,
            since(old(fs).history(), final(fs).history()),
            result,
        ),
{
    proof {
        reveal_with_fuel(all_done, 3);
        reveal_with_fuel(stopped, 3);
    }
    let ghost before = fs.history();
    let path = cached.target.as_path();
    let source_hash = match with_context(fs.checksum_file(source), Context::ChecksumSource)? {
        FileHash::Hash(h) => h,
        _ => {
            return Ok(None);
        },
    };
    let target_hash = with_context(fs.checksum_file(path), Context::ChecksumTarget)?;
    let ghost asked = fs.history();
    let source_changed = source_hash != cached.source_checksum;
    let target_changed = match target_hash {
        FileHash::Hash(h) => h != cached.target_checksum,
        _ => true,
    };
    if !target_changed {
        if !source_changed {
            with_context(fs.set_owner(path, &target.owner), Context::SetTargetOwner)?;
            with_context(
                fs.copy_permissions(source, path, &target.owner),
                Context::CopyPermissions,
            )?;
            return Ok(
                Some(
                    CopyEntry {
                        target: cached.target.clone(),
                        source_checksum: source_hash,
                        target_checksum: cached.target_checksum,
                    },
                ),
            );
        }
        with_context(fs.remove_file(path), Context::RemoveStaleCopyTarget)?;
    } else {
        match target_hash {
            FileHash::NotPresent => {},
            _ => {
                if !force {
                    return Ok(None);
                }
                with_context(fs.remove_file(path), Context::RemoveExternallyModifiedTarget)?;
            },
        }
    }
    let ghost cleared = fs.history();
    let result = perform_copy_update(source, cached, target, fs, source_hash);
    proof {
        lemma_since(asked, cleared, fs.history());
        lemma_since(before, asked, fs.history());
        let plan = copy_refresh(source_hash, target_hash, owned(source), *target, *cached, force);
        let copying = copy_steps(owned(source), cached.target, target.owner);
        lemma_in_turn(plan.steps.take(1), copying, since(asked, fs.history()));
        assert(since(before, fs.history()).skip(1).skip(1) =~= since(asked, fs.history()));
        if target_hash !is NotPresent {
            assert(plan.steps =~= plan.steps.take(1) + copying);
        }
    }
    result
}

} // verus!
