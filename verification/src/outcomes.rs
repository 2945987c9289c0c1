//! What each operation is for: which calls it makes in which state, one by one, and
//! what its result then tells. All of it is said of the calls and replies themselves.
use crate::config::{
    text_or_empty, CopyEntry, CopyTarget, SymbolicTarget, TemplateTarget, UnixUser, Variables,
};
use crate::create::{
    copy_created, copy_creation, copy_steps, symlink_created, symlink_creation, template_created,
    template_creation,
};
use crate::delete::{
    copy_deleted, copy_deletion, symlink_deleted, symlink_deletion, template_deleted,
    template_deletion,
};
use crate::deploy::{
    deployed_after, rendered_deployed, rendered_deployment, template_deployed, template_text,
};
use crate::determined::lemma_deployed_after_first_step;
use crate::difference::{differs, DiffLine};
use crate::error::{Cause, Context, Error};
use crate::filesystem::{Call, Event, FileHash, Reply, SymlinkComparison};
use crate::outside::{may_render, parent_of};
use crate::plan::{all_done, call_of, carried_out, create_target_parent, Step};
use crate::update::{
    copy_refresh, copy_updated, symlink_refresh, symlink_updated, template_refresh,
    template_updated, TemplateRefresh,
};
use handlebars::{Handlebars, RenderError};
use std::path::PathBuf;
use vstd::prelude::*;

verus! {

/// What a result reports, if it is a failure.
pub open spec fn failure_of<T, E>(result: Result<T, Error<E>>) -> Option<Error<E>> {
    match result {
        Ok(_) => None,
        Err(error) => Some(error),
    }
}

/// What the failure of a call is reported as: the larger task, if any, and the call's
/// own context.
pub struct Report {
    pub task: Option<Context>,
    pub context: Context,
}

/// A report without a larger task.
pub open spec fn plain(context: Context) -> Report {
    Report { task: None, context }
}

/// A report as part of a larger task.
pub open spec fn within_task(task: Context, context: Context) -> Report {
    Report { task: Some(task), context }
}

/// From the place `at` on, `run` makes `calls` in this order and no other call: all of
/// them with success, or up to the first that fails. That one is then reported.
pub open spec fn makes<E>(
    run: Seq<Event<E>>,
    at: int,
    calls: Seq<Call>,
    reports: Seq<Report>,
    failure: Option<Error<E>>,
) -> bool {
    &&& 0 <= at <= run.len() <= at + calls.len()
    &&& forall|i: int| at <= i < run.len() ==> (#[trigger] run[i]).call == calls[i - at]
    &&& match failure {
        None => {
            &&& run.len() == at + calls.len()
            &&& forall|i: int| at <= i < run.len() ==> (#[trigger] run[i]).reply is Done
        },
        Some(error) => {
            let report = reports[run.len() - 1 - at];
            &&& at < run.len()
            &&& forall|i: int| at <= i < run.len() - 1 ==> (#[trigger] run[i]).reply is Done
            &&& error.task == report.task
            &&& error.context == report.context
            &&& error.cause matches Cause::Filesystem(cause)
            &&& run.last().reply == Reply::<E>::Failed(cause)
        },
    }
}

/// From the place `at` on, `run` makes `calls` as far as they succeed. What would come
/// after them needs a directory that a path does not have, so there is a failure in
/// any case: that of a call, or that of the missing directory.
pub open spec fn makes_in_vain<E>(
    run: Seq<Event<E>>,
    at: int,
    calls: Seq<Call>,
    reports: Seq<Report>,
    missing: Report,
    failure: Option<Error<E>>,
) -> bool {
    failure matches Some(error) && if error.cause is NoParent {
        &&& makes(run, at, calls, reports, None)
        &&& error.task == missing.task
        &&& error.context == missing.context
    } else {
        makes(run, at, calls, reports, failure)
    }
}

/// The call at the place `at` of `run` failed: it is the last one, and what `result`
/// reports.
pub open spec fn fails_at<T, E>(
    run: Seq<Event<E>>,
    at: int,
    context: Context,
    cause: E,
    result: Result<T, Error<E>>,
) -> bool {
    &&& run.len() == at + 1
    &&& result == Err::<T, Error<E>>(
        Error { task: None, context, cause: Cause::Filesystem(cause) },
    )
}

/// The steps that are calls, with what their failures are reported as.
spec fn performs(steps: Seq<Step>, calls: Seq<Call>, reports: Seq<Report>) -> bool {
    &&& calls.len() == reports.len() <= steps.len()
    &&& forall|i: int|
        0 <= i < calls.len() ==> #[trigger] steps[i] == (Step::Perform {
            call: calls[i],
            task: reports[i].task,
            context: reports[i].context,
        })
}

/// A plan that is all calls.
proof fn lemma_makes<T, E>(
    steps: Seq<Step>,
    value: T,
    run: Seq<Event<E>>,
    at: int,
    result: Result<T, Error<E>>,
    calls: Seq<Call>,
    reports: Seq<Report>,
)
    requires
        0 <= at <= run.len(),
        carried_out(steps, value, run.skip(at), result),
        performs(steps, calls, reports),
        steps.len() == calls.len(),
    ensures
        makes(run, at, calls, reports, failure_of(result)),
        result matches Ok(returned) ==> returned == value,
    decreases steps.len(),
{
    let rest = run.skip(at);
    if steps.len() > 0 {
        assert(steps[0] == (Step::Perform {
            call: calls[0],
            task: reports[0].task,
            context: reports[0].context,
        }));
        assert(rest[0] == run[at]);
        if rest[0].reply is Done {
            assert(rest.skip(1) =~= run.skip(at + 1));
            assert forall|i: int| 0 <= i < calls.skip(1).len() implies #[trigger] steps.skip(1)[i]
                == (Step::Perform {
                call: calls.skip(1)[i],
                task: reports.skip(1)[i].task,
                context: reports.skip(1)[i].context,
            }) by {
                assert(steps.skip(1)[i] == steps[i + 1]);
            }
            lemma_makes(
                steps.skip(1),
                value,
                run,
                at + 1,
                result,
                calls.skip(1),
                reports.skip(1),
            );
            assert forall|i: int| at <= i < run.len() implies (#[trigger] run[i]).call == calls[i
                - at] by {
                if i > at {
                    assert(calls.skip(1)[i - at - 1] == calls[i - at]);
                }
            }
        } else {
            assert(run.last() == run[at]);
        }
    }
}

/// A plan that is all calls up to a directory that is missing.
proof fn lemma_makes_in_vain<T, E>(
    steps: Seq<Step>,
    value: T,
    run: Seq<Event<E>>,
    at: int,
    result: Result<T, Error<E>>,
    calls: Seq<Call>,
    reports: Seq<Report>,
    missing: Report,
)
    requires
        0 <= at <= run.len(),
        carried_out(steps, value, run.skip(at), result),
        performs(steps, calls, reports),
        steps.len() > calls.len(),
        steps[calls.len() as int] == (Step::NoParent {
            task: missing.task,
            context: missing.context,
        }),
    ensures
        makes_in_vain(run, at, calls, reports, missing, failure_of(result)),
    decreases steps.len(),
{
    let rest = run.skip(at);
    if calls.len() > 0 {
        assert(steps[0] == (Step::Perform {
            call: calls[0],
            task: reports[0].task,
            context: reports[0].context,
        }));
        assert(rest[0] == run[at]);
        if rest[0].reply is Done {
            assert(rest.skip(1) =~= run.skip(at + 1));
            assert forall|i: int| 0 <= i < calls.skip(1).len() implies #[trigger] steps.skip(1)[i]
                == (Step::Perform {
                call: calls.skip(1)[i],
                task: reports.skip(1)[i].task,
                context: reports.skip(1)[i].context,
            }) by {
                assert(steps.skip(1)[i] == steps[i + 1]);
            }
            lemma_makes_in_vain(
                steps.skip(1),
                value,
                run,
                at + 1,
                result,
                calls.skip(1),
                reports.skip(1),
                missing,
            );
            assert forall|i: int| at <= i < run.len() implies (#[trigger] run[i]).call == calls[i
                - at] by {
                if i > at {
                    assert(calls.skip(1)[i - at - 1] == calls[i - at]);
                }
            }
        } else {
            assert(run.last() == run[at]);
        }
    }
}

/// A symbolic link is there, but leads elsewhere, or something else is in its place.
pub open spec fn link_in_the_way(comparison: SymlinkComparison) -> bool {
    comparison is Changed || comparison is TargetNotSymlink
}

/// Making a symbolic link, when `comparison` has been found: what is made, and what is
/// returned, of all owners and paths.
///
/// - It is skipped, with `false` and no further call, only if the source is missing or
///   something is in the way and not forced.
/// - A link that is right is left alone.
/// - Where nothing is, the directory above the link is made and then the link, and
///   nothing else; without a directory above it, nothing is.
/// - Forced, what is in the way is removed and the link is made.
pub open spec fn link_made<E>(
    comparison: SymlinkComparison,
    source: PathBuf,
    target: SymbolicTarget,
    force: bool,
    run: Seq<Event<E>>,
    result: Result<bool, Error<E>>,
) -> bool {
    let linking = Call::MakeSymlink { link: target.target, source, owner: target.owner };
    let skipped = comparison is OnlyTargetExists || comparison is BothMissing || (link_in_the_way(
        comparison,
    ) && !force);
    &&& result matches Ok(kept) ==> kept == !skipped
    &&& skipped || comparison is Identical ==> result is Ok && run.len() == 1
    &&& comparison is OnlySourceExists ==> match parent_of(target.target) {
        Some(directory) => makes(
            run,
            1,
            seq![Call::CreateDirAll { path: directory, owner: target.owner }, linking],
            seq![plain(Context::CreateParentForTarget), plain(Context::CreateTargetSymlink)],
            failure_of(result),
        ),
        None => makes_in_vain(
            run,
            1,
            seq![],
            seq![],
            plain(Context::GetParentOfTarget),
            failure_of(result),
        ),
    }
    &&& link_in_the_way(comparison) && force ==> makes(
        run,
        1,
        seq![Call::RemoveFile { path: target.target }, linking],
        seq![
            plain(Context::RemoveSymlinkTargetWhileForcing),
            plain(Context::CreateTargetSymlink),
        ],
        failure_of(result),
    )
}

/// The course of creating or updating a symbolic link. See [`law_created_symlink`].
pub open spec fn symlink_course<E>(
    source: PathBuf,
    target: SymbolicTarget,
    force: bool,
    run: Seq<Event<E>>,
    result: Result<bool, Error<E>>,
) -> bool {
    &&& run.len() > 0
    &&& run[0].call == (Call::CompareSymlink { source, link: target.target })
    &&& match run[0].reply {
        Reply::Symlink(comparison) => link_made(
            comparison,
            source,
            target,
            force,
            run,
            result,
        ),
        Reply::Failed(cause) => fails_at(run, 0, Context::DetectSymlinkState, cause, result),
        _ => false,
    }
}

/// Creating a symbolic link makes it, with its directory and nothing more, whenever its
/// source exists and nothing is in the way, and whenever it is forced to.
pub proof fn law_created_symlink<E>(
    source: PathBuf,
    target: SymbolicTarget,
    force: bool,
    run: Seq<Event<E>>,
    result: Result<bool, Error<E>>,
)
    requires
        symlink_created(source, target, force, run, result),
    ensures
        symlink_course(source, target, force, run, result),
{
    if let Reply::Symlink(comparison) = run[0].reply {
        let plan = symlink_creation(comparison, source, target, force);
        lemma_link_made(comparison, source, target, force, plan.steps, plan.value, run, result);
    }
}

/// Updating a symbolic link does the same: one that is missing is made again.
pub proof fn law_updated_symlink<E>(
    source: PathBuf,
    target: SymbolicTarget,
    force: bool,
    run: Seq<Event<E>>,
    result: Result<bool, Error<E>>,
)
    requires
        symlink_updated(source, target, force, run, result),
    ensures
        symlink_course(source, target, force, run, result),
{
    if let Reply::Symlink(comparison) = run[0].reply {
        let plan = symlink_refresh(comparison, source, target, force);
        lemma_link_made(comparison, source, target, force, plan.steps, plan.value, run, result);
    }
}

/// The plan of creating or updating a symbolic link.
proof fn lemma_link_made<E>(
    comparison: SymlinkComparison,
    source: PathBuf,
    target: SymbolicTarget,
    force: bool,
    steps: Seq<Step>,
    value: bool,
    run: Seq<Event<E>>,
    result: Result<bool, Error<E>>,
)
    requires
        run.len() > 0,
        symlink_creation(comparison, source, target, force).steps == steps
            || symlink_refresh(comparison, source, target, force).steps == steps,
        symlink_creation(comparison, source, target, force).value == value || symlink_refresh(
            comparison,
            source,
            target,
            force,
        ).value == value,
        carried_out(steps, value, run.skip(1), result),
    ensures
        link_made(comparison, source, target, force, run, result),
{
    let linking = Call::MakeSymlink { link: target.target, source, owner: target.owner };
    if comparison is OnlySourceExists {
        if let Some(directory) = parent_of(target.target) {
            lemma_makes(
                steps,
                value,
                run,
                1,
                result,
                seq![Call::CreateDirAll { path: directory, owner: target.owner }, linking],
                seq![plain(Context::CreateParentForTarget), plain(Context::CreateTargetSymlink)],
            );
        } else {
            lemma_makes_in_vain(
                steps,
                value,
                run,
                1,
                result,
                seq![],
                seq![],
                plain(Context::GetParentOfTarget),
            );
        }
    } else if link_in_the_way(comparison) && force {
        lemma_makes(
            steps,
            value,
            run,
            1,
            result,
            seq![Call::RemoveFile { path: target.target }, linking],
            seq![
                plain(Context::RemoveSymlinkTargetWhileForcing),
                plain(Context::CreateTargetSymlink),
            ],
        );
    } else {
        lemma_makes(steps, value, run, 1, result, seq![], seq![]);
    }
}

/// The course of deleting a symbolic link. See [`law_deleted_symlink`].
pub open spec fn symlink_deletion_course<E>(
    source: PathBuf,
    target: PathBuf,
    force: bool,
    run: Seq<Event<E>>,
    result: Result<bool, Error<E>>,
) -> bool {
    &&& run.len() > 0
    &&& run[0].call == (Call::CompareSymlink { source, link: target })
    &&& match run[0].reply {
        Reply::Symlink(comparison) => {
            let gone = comparison is OnlySourceExists || comparison is BothMissing;
            let skipped = link_in_the_way(comparison) && !force;
            let task = Context::PerformSymlinkTargetDeletion;
            &&& result matches Ok(forget) ==> forget == !skipped
            &&& gone || skipped ==> result is Ok && run.len() == 1
            &&& !gone && !skipped ==> makes(
                run,
                1,
                seq![
                    Call::RemoveFile { path: target },
                    Call::DeleteParents { path: target, no_ask: false },
                ],
                seq![
                    within_task(task, Context::RemoveSymlink),
                    within_task(task, Context::DeleteParentsOfSymlink),
                ],
                failure_of(result),
            )
        },
        Reply::Failed(cause) => fails_at(run, 0, Context::DetectSymlinkState, cause, result),
        _ => false,
    }
}

/// Deleting a symbolic link removes it and the directories that this leaves empty
/// whenever it leads to its source or to nothing, and whenever it is forced to. It is
/// kept in mind, with no further call, only if something else is in its place and
/// nothing is forced; a link that is gone is forgotten.
pub proof fn law_deleted_symlink<E>(
    source: PathBuf,
    target: PathBuf,
    force: bool,
    run: Seq<Event<E>>,
    result: Result<bool, Error<E>>,
)
    requires
        symlink_deleted(source, target, force, run, result),
    ensures
        symlink_deletion_course(source, target, force, run, result),
{
    if let Reply::Symlink(comparison) = run[0].reply {
        let plan = symlink_deletion(comparison, target, force);
        let task = Context::PerformSymlinkTargetDeletion;
        if plan.steps.len() == 0 {
            lemma_makes(plan.steps, plan.value, run, 1, result, seq![], seq![]);
        } else {
            lemma_makes(
                plan.steps,
                plan.value,
                run,
                1,
                result,
                seq![
                    Call::RemoveFile { path: target },
                    Call::DeleteParents { path: target, no_ask: false },
                ],
                seq![
                    within_task(task, Context::RemoveSymlink),
                    within_task(task, Context::DeleteParentsOfSymlink),
                ],
            );
        }
    }
}

/// The course of deleting a template. See [`law_deleted_template`].
pub open spec fn template_deletion_course<E>(
    cache: PathBuf,
    target: PathBuf,
    force: bool,
    run: Seq<Event<E>>,
    result: Result<bool, Error<E>>,
) -> bool {
    &&& run.len() > 0
    &&& run[0].call == (Call::CompareTemplate { target, cache })
    &&& match run[0].reply {
        Reply::Template(comparison) => {
            let skipped = comparison is OnlyTargetExists || comparison is BothMissing || ((
            comparison is Changed || comparison is TargetNotRegularFile) && !force);
            let of_cache = Context::PerformCacheDeletion;
            let of_target = Context::PerformTemplateTargetDeletion;
            &&& result matches Ok(forget) ==> forget == !skipped
            &&& skipped ==> result is Ok && run.len() == 1
            &&& comparison is OnlyCacheExists ==> makes(
                run,
                1,
                seq![
                    Call::RemoveFile { path: cache },
                    Call::DeleteParents { path: cache, no_ask: true },
                ],
                seq![
                    within_task(of_cache, Context::DeleteTemplateCache),
                    within_task(of_cache, Context::DeleteParentInCache),
                ],
                failure_of(result),
            )
            &&& !skipped && !(comparison is OnlyCacheExists) ==> makes(
                run,
                1,
                seq![
                    Call::RemoveFile { path: cache },
                    Call::DeleteParents { path: cache, no_ask: true },
                    Call::RemoveFile { path: target },
                    Call::DeleteParents { path: target, no_ask: false },
                ],
                seq![
                    within_task(of_cache, Context::DeleteTemplateCache),
                    within_task(of_cache, Context::DeleteParentInCache),
                    within_task(of_target, Context::DeleteTargetFile),
                    within_task(of_target, Context::DeleteParentInTargetLocation),
                ],
                failure_of(result),
            )
        },
        Reply::Failed(cause) => fails_at(run, 0, Context::DetectTemplateState, cause, result),
        _ => false,
    }
}

/// Deleting a template removes the cached file and then the target, each with the
/// directories that this leaves empty, whenever the target is as it was deployed and
/// whenever it is forced to; where only the cached file is left, it removes that. It
/// is kept in mind, with no further call, only if there is no cached file, or if the
/// target is not as it was deployed and nothing is forced.
pub proof fn law_deleted_template<E>(
    cache: PathBuf,
    target: PathBuf,
    force: bool,
    run: Seq<Event<E>>,
    result: Result<bool, Error<E>>,
)
    requires
        template_deleted(cache, target, force, run, result),
    ensures
        template_deletion_course(cache, target, force, run, result),
{
    if let Reply::Template(comparison) = run[0].reply {
        let plan = template_deletion(comparison, cache, target, force);
        let of_cache = Context::PerformCacheDeletion;
        let of_target = Context::PerformTemplateTargetDeletion;
        if plan.steps.len() == 0 {
            lemma_makes(plan.steps, plan.value, run, 1, result, seq![], seq![]);
        } else if plan.steps.len() == 2 {
            lemma_makes(
                plan.steps,
                plan.value,
                run,
                1,
                result,
                seq![
                    Call::RemoveFile { path: cache },
                    Call::DeleteParents { path: cache, no_ask: true },
                ],
                seq![
                    within_task(of_cache, Context::DeleteTemplateCache),
                    within_task(of_cache, Context::DeleteParentInCache),
                ],
            );
        } else {
            lemma_makes(
                plan.steps,
                plan.value,
                run,
                1,
                result,
                seq![
                    Call::RemoveFile { path: cache },
                    Call::DeleteParents { path: cache, no_ask: true },
                    Call::RemoveFile { path: target },
                    Call::DeleteParents { path: target, no_ask: false },
                ],
                seq![
                    within_task(of_cache, Context::DeleteTemplateCache),
                    within_task(of_cache, Context::DeleteParentInCache),
                    within_task(of_target, Context::DeleteTargetFile),
                    within_task(of_target, Context::DeleteParentInTargetLocation),
                ],
            );
        }
    }
}

/// The course of deleting a copy. See [`law_deleted_copy`].
pub open spec fn copy_deletion_course<E>(
    cached: CopyEntry,
    force: bool,
    run: Seq<Event<E>>,
    result: Result<bool, Error<E>>,
) -> bool {
    &&& run.len() > 0
    &&& run[0].call == (Call::ChecksumFile { path: cached.target })
    &&& match run[0].reply {
        Reply::Hash(found) => {
            let gone = found is NotPresent;
            let skipped = !gone && found != FileHash::Hash(cached.target_checksum) && !force;
            &&& result matches Ok(forget) ==> forget == !skipped
            &&& gone || skipped ==> result is Ok && run.len() == 1
            &&& !gone && !skipped ==> makes(
                run,
                1,
                seq![
                    Call::RemoveFile { path: cached.target },
                    Call::DeleteParents { path: cached.target, no_ask: false },
                ],
                seq![
                    plain(Context::RemoveCopyTarget),
                    plain(Context::DeleteParentsOfCopyTarget),
                ],
                failure_of(result),
            )
        },
        Reply::Failed(cause) => fails_at(run, 0, Context::ChecksumCopyTarget, cause, result),
        _ => false,
    }
}

/// Deleting a copy removes it and the directories that this leaves empty whenever it
/// has the checksum that its entry tells, and whenever it is there and forced to. It
/// is kept in mind, with no further call, only if it is there, not as its entry tells,
/// and nothing is forced; a copy that is gone is forgotten.
pub proof fn law_deleted_copy<E>(
    cached: CopyEntry,
    force: bool,
    run: Seq<Event<E>>,
    result: Result<bool, Error<E>>,
)
    requires
        copy_deleted(cached, force, run, result),
    ensures
        copy_deletion_course(cached, force, run, result),
{
    if let Reply::Hash(found) = run[0].reply {
        let plan = copy_deletion(found, cached, force);
        if plan.steps.len() == 0 {
            lemma_makes(plan.steps, plan.value, run, 1, result, seq![], seq![]);
        } else {
            lemma_makes(
                plan.steps,
                plan.value,
                run,
                1,
                result,
                seq![
                    Call::RemoveFile { path: cached.target },
                    Call::DeleteParents { path: cached.target, no_ask: false },
                ],
                seq![
                    plain(Context::RemoveCopyTarget),
                    plain(Context::DeleteParentsOfCopyTarget),
                ],
            );
        }
    }
}

/// From the place `at` on, `run` makes the calls `before`, creates the directory that
/// `path` is in, copies `source` to `path` and gives it the permissions of `source`.
pub open spec fn copies<E>(
    run: Seq<Event<E>>,
    at: int,
    before: Seq<Call>,
    reports: Seq<Report>,
    source: PathBuf,
    path: PathBuf,
    owner: Option<UnixUser>,
    failure: Option<Error<E>>,
) -> bool {
    match parent_of(path) {
        Some(directory) => makes(
            run,
            at,
            before + seq![
                Call::CreateDirAll { path: directory, owner },
                Call::CopyFile { source, target: path, owner },
                Call::CopyPermissions { source, target: path, owner },
            ],
            reports + seq![
                plain(Context::CreateParentForTarget),
                plain(Context::CopySourceToTarget),
                plain(Context::CopyPermissions),
            ],
            failure,
        ),
        None => makes_in_vain(
            run,
            at,
            before,
            reports,
            plain(Context::GetParentOfTarget),
            failure,
        ),
    }
}

/// A plan that ends with copying a file.
proof fn lemma_copies<T, E>(
    steps: Seq<Step>,
    value: T,
    run: Seq<Event<E>>,
    at: int,
    result: Result<T, Error<E>>,
    before: Seq<Call>,
    reports: Seq<Report>,
    source: PathBuf,
    path: PathBuf,
    owner: Option<UnixUser>,
)
    requires
        0 <= at <= run.len(),
        carried_out(steps, value, run.skip(at), result),
        performs(steps, before, reports),
        steps.len() == before.len() + 3,
        forall|i: int|
            before.len() <= i < steps.len() ==> #[trigger] steps[i] == copy_steps(
                source,
                path,
                owner,
            )[i - before.len()],
    ensures
        copies(run, at, before, reports, source, path, owner, failure_of(result)),
        result matches Ok(returned) ==> returned == value,
{
    let n = before.len() as int;
    if let Some(directory) = parent_of(path) {
        let calls = before + seq![
            Call::CreateDirAll { path: directory, owner },
            Call::CopyFile { source, target: path, owner },
            Call::CopyPermissions { source, target: path, owner },
        ];
        let all_reports = reports + seq![
            plain(Context::CreateParentForTarget),
            plain(Context::CopySourceToTarget),
            plain(Context::CopyPermissions),
        ];
        assert forall|i: int| 0 <= i < calls.len() implies #[trigger] steps[i] == (Step::Perform {
            call: calls[i],
            task: all_reports[i].task,
            context: all_reports[i].context,
        }) by {
            if i >= n {
                assert(steps[i] == copy_steps(source, path, owner)[i - n]);
                assert(i == n || i == n + 1 || i == n + 2);
            }
        }
        lemma_makes(steps, value, run, at, result, calls, all_reports);
    } else {
        assert(steps[n] == copy_steps(source, path, owner)[0]);
        lemma_makes_in_vain(
            steps,
            value,
            run,
            at,
            result,
            before,
            reports,
            plain(Context::GetParentOfTarget),
        );
    }
}

/// The course of creating a copy. See [`law_created_copy`].
pub open spec fn copy_creation_course<E>(
    source: PathBuf,
    target: CopyTarget,
    force: bool,
    run: Seq<Event<E>>,
    result: Result<Option<CopyEntry>, Error<E>>,
) -> bool {
    &&& run.len() > 0
    &&& run[0].call == (Call::ChecksumFile { path: source })
    &&& match run[0].reply {
        Reply::Hash(FileHash::Hash(hash)) => {
            &&& run.len() > 1
            &&& run[1].call == (Call::ChecksumFile { path: target.target })
            &&& match run[1].reply {
                Reply::Hash(found) => {
                    let other = !(found is NotPresent) && found != FileHash::Hash(hash);
                    &&& result matches Ok(None) ==> other && !force
                    &&& result matches Ok(Some(entry)) ==> {
                        &&& !other || force
                        &&& entry.target == target.target
                        &&& entry.source_checksum == hash
                        &&& entry.target_checksum == hash
                    }
                    &&& found == FileHash::Hash(hash) || (other && !force) ==> result is Ok
                        && run.len() == 2
                    &&& found is NotPresent ==> copies(
                        run,
                        2,
                        seq![],
                        seq![],
                        source,
                        target.target,
                        target.owner,
                        failure_of(result),
                    )
                    &&& other && force ==> copies(
                        run,
                        2,
                        seq![Call::RemoveFile { path: target.target }],
                        seq![plain(Context::RemoveExistingTarget)],
                        source,
                        target.target,
                        target.owner,
                        failure_of(result),
                    )
                },
                Reply::Failed(cause) => fails_at(
                    run,
                    1,
                    Context::ChecksumTarget,
                    cause,
                    result,
                ),
                _ => false,
            }
        },
        Reply::Hash(_) => run.len() == 1 && result == Ok::<Option<CopyEntry>, Error<E>>(None),
        Reply::Failed(cause) => fails_at(run, 0, Context::ChecksumSource, cause, result),
        _ => false,
    }
}

/// Creating a copy makes it, with its directory and the permissions of its source,
/// whenever the source has a checksum and nothing is there, whoever it is to belong to,
/// and whenever it is forced to; then what is in the way is removed first. A file that
/// already has the checksum is left alone. In all these cases the entry is returned:
/// the path, and the checksum of the source for both. `None` comes, with no further
/// call, only if the source has no checksum, or another file is in the way and nothing
/// is forced.
pub proof fn law_created_copy<E>(
    source: PathBuf,
    target: CopyTarget,
    force: bool,
    run: Seq<Event<E>>,
    result: Result<Option<CopyEntry>, Error<E>>,
)
    requires
        copy_created(source, target, force, run, result),
    ensures
        copy_creation_course(source, target, force, run, result),
{
    if let Reply::Hash(FileHash::Hash(hash)) = run[0].reply {
        let rest = run.skip(1);
        assert(rest[0] == run[1]);
        assert(rest.skip(1) =~= run.skip(2));
        if let Reply::Hash(found) = rest[0].reply {
            let plan = copy_creation(hash, found, source, target, force);
            let (path, owner) = (target.target, target.owner);
            if plan.steps.len() == 0 {
                lemma_makes(plan.steps, plan.value, run, 2, result, seq![], seq![]);
            } else if found is NotPresent {
                lemma_copies(
                    plan.steps,
                    plan.value,
                    run,
                    2,
                    result,
                    seq![],
                    seq![],
                    source,
                    path,
                    owner,
                );
            } else {
                lemma_copies(
                    plan.steps,
                    plan.value,
                    run,
                    2,
                    result,
                    seq![Call::RemoveFile { path }],
                    seq![plain(Context::RemoveExistingTarget)],
                    source,
                    path,
                    owner,
                );
            }
        }
    }
}

/// The course of updating a copy. See [`law_updated_copy`].
pub open spec fn copy_update_course<E>(
    source: PathBuf,
    target: CopyTarget,
    cached: CopyEntry,
    force: bool,
    run: Seq<Event<E>>,
    result: Result<Option<CopyEntry>, Error<E>>,
) -> bool {
    &&& run.len() > 0
    &&& run[0].call == (Call::ChecksumFile { path: source })
    &&& match run[0].reply {
        Reply::Hash(FileHash::Hash(hash)) => {
            &&& run.len() > 1
            &&& run[1].call == (Call::ChecksumFile { path: cached.target })
            &&& match run[1].reply {
                Reply::Hash(found) => {
                    let as_told = found == FileHash::Hash(cached.target_checksum);
                    let current = as_told && hash == cached.source_checksum;
                    let other = !as_told && !(found is NotPresent);
                    &&& result matches Ok(None) ==> other && !force
                    &&& result matches Ok(Some(entry)) ==> {
                        &&& !other || force
                        &&& entry.target == cached.target
                        &&& entry.source_checksum == hash
                        &&& if current {
                            found == FileHash::Hash(entry.target_checksum)
                        } else {
                            entry.target_checksum == hash
                        }
                    }
                    &&& other && !force ==> result is Ok && run.len() == 2
                    &&& found is NotPresent ==> copies(
                        run,
                        2,
                        seq![],
                        seq![],
                        source,
                        cached.target,
                        target.owner,
                        failure_of(result),
                    )
                    &&& current ==> makes(
                        run,
                        2,
                        seq![
                            Call::SetOwner { path: cached.target, owner: target.owner },
                            Call::CopyPermissions {
                                source,
                                target: cached.target,
                                owner: target.owner,
                            },
                        ],
                        seq![
                            plain(Context::SetTargetOwner),
                            plain(Context::CopyPermissions),
                        ],
                        failure_of(result),
                    )
                    &&& as_told && !current ==> copies(
                        run,
                        2,
                        seq![Call::RemoveFile { path: cached.target }],
                        seq![plain(Context::RemoveStaleCopyTarget)],
                        source,
                        cached.target,
                        target.owner,
                        failure_of(result),
                    )
                    &&& other && force ==> copies(
                        run,
                        2,
                        seq![Call::RemoveFile { path: cached.target }],
                        seq![plain(Context::RemoveExternallyModifiedTarget)],
                        source,
                        cached.target,
                        target.owner,
                        failure_of(result),
                    )
                },
                Reply::Failed(cause) => fails_at(
                    run,
                    1,
                    Context::ChecksumTarget,
                    cause,
                    result,
                ),
                _ => false,
            }
        },
        Reply::Hash(_) => run.len() == 1 && result == Ok::<Option<CopyEntry>, Error<E>>(None),
        Reply::Failed(cause) => fails_at(run, 0, Context::ChecksumSource, cause, result),
        _ => false,
    }
}

/// Updating a copy, when the source has a checksum:
///
/// - A copy that is missing is made again, whatever its entry tells.
/// - One that is as its entry tells is given its owner and permissions if the source
///   has not changed, and otherwise removed and made again.
/// - One that is neither is removed and made again if forced, and otherwise skipped.
///
/// `None` comes, with no further call, only of skipping, or of a source without a
/// checksum. In all other cases the entry is returned: the path, the checksum of the
/// source, and the same one for a copy that was made, or the one found for a copy that
/// was not.
pub proof fn law_updated_copy<E>(
    source: PathBuf,
    target: CopyTarget,
    cached: CopyEntry,
    force: bool,
    run: Seq<Event<E>>,
    result: Result<Option<CopyEntry>, Error<E>>,
)
    requires
        copy_updated(source, target, cached, force, run, result),
    ensures
        copy_update_course(source, target, cached, force, run, result),
{
    if let Reply::Hash(FileHash::Hash(hash)) = run[0].reply {
        let rest = run.skip(1);
        assert(rest[0] == run[1]);
        assert(rest.skip(1) =~= run.skip(2));
        if let Reply::Hash(found) = rest[0].reply {
            let plan = copy_refresh(hash, found, source, target, cached, force);
            let (path, owner) = (cached.target, target.owner);
            if plan.steps.len() == 0 {
                lemma_makes(plan.steps, plan.value, run, 2, result, seq![], seq![]);
            } else if plan.steps.len() == 2 {
                lemma_makes(
                    plan.steps,
                    plan.value,
                    run,
                    2,
                    result,
                    seq![
                        Call::SetOwner { path, owner },
                        Call::CopyPermissions { source, target: path, owner },
                    ],
                    seq![plain(Context::SetTargetOwner), plain(Context::CopyPermissions)],
                );
            } else if found is NotPresent {
                lemma_copies(
                    plan.steps,
                    plan.value,
                    run,
                    2,
                    result,
                    seq![],
                    seq![],
                    source,
                    path,
                    owner,
                );
            } else {
                let why = if found == FileHash::Hash(cached.target_checksum) {
                    Context::RemoveStaleCopyTarget
                } else {
                    Context::RemoveExternallyModifiedTarget
                };
                lemma_copies(
                    plan.steps,
                    plan.value,
                    run,
                    2,
                    result,
                    seq![Call::RemoveFile { path }],
                    seq![plain(why)],
                    source,
                    path,
                    owner,
                );
            }
        }
    }
}

/// `text` is `contents` with what `target` puts around it: it begins with `prepend`,
/// ends with `append`, and has the contents and nothing else between them. Without a
/// target it is the contents.
pub open spec fn surrounded(
    target: Option<&TemplateTarget>,
    contents: Seq<char>,
    text: Seq<char>,
) -> bool {
    match target {
        Some(target) => {
            let front = match target.prepend {
                Some(prepend) => prepend@.len() as int,
                None => 0,
            };
            let back = match target.append {
                Some(append) => append@.len() as int,
                None => 0,
            };
            &&& text.len() == front + contents.len() + back
            &&& text.subrange(front, front + contents.len()) == contents
            &&& target.prepend matches Some(prepend) ==> text.subrange(0, front) == prepend@
            &&& target.append matches Some(append) ==> text.subrange(
                front + contents.len(),
                text.len() as int,
            ) == append@
        },
        None => text == contents,
    }
}

/// The text of a template holds the contents of its source whole, whatever is put
/// around them; with nothing put around them it is the contents. What is put in front
/// of them or behind them does not depend on them.
pub proof fn law_text_of_a_template(
    target: TemplateTarget,
    contents: Seq<char>,
    others: Seq<char>,
)
    ensures
        surrounded(Some(&target), contents, target.template_text(contents)),
        surrounded(Some(&target), contents, template_text(Some(&target), contents)),
        surrounded(None, contents, template_text(None, contents)),
        target.prepend is None && target.append is None ==> target.template_text(contents)
            == contents,
        target.template_text(contents) == target.template_text(others) ==> contents == others,
{
    let text = target.template_text(contents);
    let front = text_or_empty(target.prepend).len() as int;
    assert(text.subrange(front, front + contents.len()) =~= contents);
    assert(text.subrange(0, front) =~= text_or_empty(target.prepend));
    assert(text.subrange(front + contents.len(), text.len() as int) =~= text_or_empty(
        target.append,
    ));
    if target.prepend is None && target.append is None {
        assert(text =~= contents);
    }
    let text_of_others = target.template_text(others);
    assert(text_of_others.subrange(front, front + others.len()) =~= others);
}

/// From the place `at` on, `run` brings what rendering came back with to its place.
///
/// - What could not be rendered is reported, and nothing is called.
/// - What was rendered is written to the cache, whose directory is created first and
///   given to nobody in particular.
/// - If there is a target, the cached file is then copied there, and the target is
///   given the permissions of the source.
pub open spec fn brings<E>(
    source: PathBuf,
    cache: PathBuf,
    target: Option<&TemplateTarget>,
    outcome: Result<String, RenderError>,
    run: Seq<Event<E>>,
    at: int,
    task: Option<Context>,
    failure: Option<Error<E>>,
) -> bool {
    match outcome {
        Ok(rendered) => match parent_of(cache) {
            Some(directory) => {
                let cached = seq![
                    Call::CreateDirAll { path: directory, owner: None },
                    Call::Write { path: cache, content: rendered },
                ];
                let cached_reports = seq![
                    Report { task, context: Context::CreateParentForCache },
                    Report { task, context: Context::WriteRenderedToCache },
                ];
                match target {
                    Some(target) => makes(
                        run,
                        at,
                        cached + seq![
                            Call::CopyFile {
                                source: cache,
                                target: target.target,
                                owner: target.owner,
                            },
                            Call::CopyPermissions {
                                source,
                                target: target.target,
                                owner: target.owner,
                            },
                        ],
                        cached_reports + seq![
                            Report { task, context: Context::CopyFromCacheToTarget },
                            Report { task, context: Context::CopyPermissions },
                        ],
                        failure,
                    ),
                    None => makes(run, at, cached, cached_reports, failure),
                }
            },
            None => makes_in_vain(
                run,
                at,
                seq![],
                seq![],
                Report { task, context: Context::GetParentOfCache },
                failure,
            ),
        },
        Err(cause) => run.len() == at && failure == Some(
            Error { task, context: Context::RenderTemplate, cause: Cause::<E>::Render(cause) },
        ),
    }
}

/// `outcome` is one of rendering the text made of `contents`.
pub open spec fn rendering_of(
    target: Option<&TemplateTarget>,
    handlebars: Handlebars<'_>,
    variables: Variables,
    contents: Seq<char>,
    outcome: Result<String, RenderError>,
) -> bool {
    exists|text: Seq<char>|
        surrounded(target, contents, text) && #[trigger] may_render(
            handlebars,
            text,
            variables,
            outcome,
        )
}

/// From the place `at` on, `run` reads the source of a template, and brings what its
/// text is rendered to where it belongs.
pub open spec fn deploys<E>(
    source: PathBuf,
    cache: PathBuf,
    target: Option<&TemplateTarget>,
    handlebars: Handlebars<'_>,
    variables: Variables,
    run: Seq<Event<E>>,
    at: int,
    task: Option<Context>,
    failure: Option<Error<E>>,
) -> bool {
    &&& 0 <= at < run.len()
    &&& run[at].call == Call::ReadToString { path: source }
    &&& match run[at].reply {
        Reply::Text(contents) => exists|outcome: Result<String, RenderError>| #[trigger]
            rendering_of(target, handlebars, variables, contents@, outcome) && brings(
                source,
                cache,
                target,
                outcome,
                run,
                at + 1,
                task,
                failure,
            ),
        Reply::Failed(cause) => run.len() == at + 1 && failure == Some(
            Error {
                task,
                context: Context::ReadTemplateSource,
                cause: Cause::Filesystem(cause),
            },
        ),
        _ => false,
    }
}

/// What a failure becomes as part of a larger task, if there is one.
spec fn failure_in<E>(task: Option<Context>, result: Result<(), Error<E>>) -> Option<Error<E>> {
    match result {
        Ok(_) => None,
        Err(error) => Some(Error { task, ..error }),
    }
}

/// Bringing what was rendered to its place.
proof fn lemma_brings<E>(
    source: PathBuf,
    cache: PathBuf,
    target: Option<&TemplateTarget>,
    outcome: Result<String, RenderError>,
    run: Seq<Event<E>>,
    at: int,
    task: Option<Context>,
    result: Result<(), Error<E>>,
)
    requires
        0 <= at <= run.len(),
        rendered_deployed(source, cache, target, outcome, run.skip(at), result),
    ensures
        brings(source, cache, target, outcome, run, at, task, failure_in(task, result)),
{
    if let Ok(rendered) = outcome {
        let steps = rendered_deployment(source, cache, target, rendered);
        if let Some(directory) = parent_of(cache) {
            let cached = seq![
                Call::CreateDirAll { path: directory, owner: None },
                Call::Write { path: cache, content: rendered },
            ];
            let reports = seq![
                plain(Context::CreateParentForCache),
                plain(Context::WriteRenderedToCache),
            ];
            if let Some(target) = target {
                let copied = seq![
                    Call::CopyFile { source: cache, target: target.target, owner: target.owner },
                    Call::CopyPermissions { source, target: target.target, owner: target.owner },
                ];
                let more = seq![
                    plain(Context::CopyFromCacheToTarget),
                    plain(Context::CopyPermissions),
                ];
                lemma_makes(steps, (), run, at, result, cached + copied, reports + more);
            } else {
                lemma_makes(steps, (), run, at, result, cached, reports);
            }
        } else {
            lemma_makes_in_vain(
                steps,
                (),
                run,
                at,
                result,
                seq![],
                seq![],
                plain(Context::GetParentOfCache),
            );
        }
    }
}

/// Bringing the outcome of rendering to its place writes what was rendered, and only
/// that, to the cache and from there to the target.
pub proof fn law_deployed_rendering<E>(
    source: PathBuf,
    cache: PathBuf,
    target: Option<&TemplateTarget>,
    outcome: Result<String, RenderError>,
    run: Seq<Event<E>>,
    result: Result<(), Error<E>>,
)
    requires
        rendered_deployed(source, cache, target, outcome, run, result),
    ensures
        brings(source, cache, target, outcome, run, 0, None, failure_of(result)),
{
    assert(run.skip(0) =~= run);
    lemma_brings(source, cache, target, outcome, run, 0, None, result);
    if let Ok(rendered) = outcome {
        lemma_no_task(rendered_deployment(source, cache, target, rendered), run, result);
    }
}

/// A plan of plain steps fails without a larger task.
proof fn lemma_no_task<E>(steps: Seq<Step>, run: Seq<Event<E>>, result: Result<(), Error<E>>)
    requires
        carried_out(steps, (), run, result),
        forall|i: int|
            0 <= i < steps.len() ==> match #[trigger] steps[i] {
                Step::Perform { task, .. } => task is None,
                Step::NoParent { task, .. } => task is None,
                Step::Show { .. } => true,
            },
    ensures
        result matches Err(error) ==> error.task is None,
    decreases steps.len(),
{
    if steps.len() > 0 && run.len() > 0 && run[0].reply is Done {
        assert forall|i: int| 0 <= i < steps.skip(1).len() implies match #[trigger] steps.skip(
            1,
        )[i] {
            Step::Perform { task, .. } => task is None,
            Step::NoParent { task, .. } => task is None,
            Step::Show { .. } => true,
        } by {
            assert(steps.skip(1)[i] == steps[i + 1]);
        }
        lemma_no_task(steps.skip(1), run.skip(1), result);
    } else if steps.len() > 0 {
        let first = steps[0];
    }
}

/// Deploying a template.
proof fn lemma_deploys<E>(
    source: PathBuf,
    cache: PathBuf,
    target: Option<&TemplateTarget>,
    handlebars: Handlebars<'_>,
    variables: Variables,
    run: Seq<Event<E>>,
    at: int,
    task: Option<Context>,
    result: Result<(), Error<E>>,
)
    requires
        0 <= at <= run.len(),
        template_deployed(source, cache, target, handlebars, variables, run.skip(at), result),
    ensures
        deploys(
            source,
            cache,
            target,
            handlebars,
            variables,
            run,
            at,
            task,
            failure_in(task, result),
        ),
{
    let rest = run.skip(at);
    assert(rest[0] == run[at]);
    if let Reply::Text(contents) = rest[0].reply {
        let text = template_text(target, contents@);
        let outcome = choose|outcome: Result<String, RenderError>| #[trigger]
            may_render(handlebars, text, variables, outcome) && rendered_deployed(
                source,
                cache,
                target,
                outcome,
                rest.skip(1),
                result,
            );
        if let Some(target) = target {
            law_text_of_a_template(*target, contents@, contents@);
        }
        assert(surrounded(target, contents@, text));
        assert(rendering_of(target, handlebars, variables, contents@, outcome));
        assert(rest.skip(1) =~= run.skip(at + 1));
        lemma_brings(source, cache, target, outcome, run, at + 1, task, result);
    }
}

/// Deploying a template reads its source, renders the whole of its contents with what
/// is put around them, and brings what that comes to into the cache and to the target.
pub proof fn law_deployed_template<E>(
    source: PathBuf,
    cache: PathBuf,
    target: Option<&TemplateTarget>,
    handlebars: Handlebars<'_>,
    variables: Variables,
    run: Seq<Event<E>>,
    result: Result<(), Error<E>>,
)
    requires
        template_deployed(source, cache, target, handlebars, variables, run, result),
    ensures
        deploys(
            source,
            cache,
            target,
            handlebars,
            variables,
            run,
            0,
            None,
            failure_of(result),
        ),
{
    assert(run.skip(0) =~= run);
    lemma_deploys(source, cache, target, handlebars, variables, run, 0, None, result);
    if let Reply::Text(contents) = run[0].reply {
        let text = template_text(target, contents@);
        let outcome = choose|outcome: Result<String, RenderError>| #[trigger]
            may_render(handlebars, text, variables, outcome) && rendered_deployed(
                source,
                cache,
                target,
                outcome,
                run.skip(1),
                result,
            );
        if let Ok(rendered) = outcome {
            let steps = rendered_deployment(source, cache, target, rendered);
            lemma_no_task(steps, run.skip(1), result);
        }
    }
    assert(failure_in(None, result) == failure_of(result));
}

/// From the place `at` on, `run` makes the calls `before`, all of which succeed, and
/// then deploys a template; or it makes them up to the first that fails.
pub open spec fn deploys_after<E>(
    before: Seq<Call>,
    reports: Seq<Report>,
    source: PathBuf,
    cache: PathBuf,
    target: TemplateTarget,
    handlebars: Handlebars<'_>,
    variables: Variables,
    run: Seq<Event<E>>,
    at: int,
    failure: Option<Error<E>>,
) -> bool {
    let then = at + before.len();
    ||| failure is Some && makes(run, at, before, reports, failure)
    ||| {
        &&& forall|i: int|
            at <= i < then ==> (#[trigger] run[i]).call == before[i - at] && run[i].reply is Done
        &&& deploys(
            source,
            cache,
            Some(&target),
            handlebars,
            variables,
            run,
            then,
            Some(Context::PerformTemplateCache),
            failure,
        )
    }
}

/// The same, with the directory that the target is in created last before deploying.
pub open spec fn deploys_into_directory<E>(
    before: Seq<Call>,
    reports: Seq<Report>,
    source: PathBuf,
    cache: PathBuf,
    target: TemplateTarget,
    handlebars: Handlebars<'_>,
    variables: Variables,
    run: Seq<Event<E>>,
    at: int,
    failure: Option<Error<E>>,
) -> bool {
    match parent_of(target.target) {
        Some(directory) => deploys_after(
            before.push(Call::CreateDirAll { path: directory, owner: target.owner }),
            reports.push(plain(Context::CreateParentForTarget)),
            source,
            cache,
            target,
            handlebars,
            variables,
            run,
            at,
            failure,
        ),
        None => makes_in_vain(
            run,
            at,
            before,
            reports,
            plain(Context::GetParentOfTarget),
            failure,
        ),
    }
}

/// Steps that were all done, one by one.
proof fn lemma_done_one_by_one<E>(steps: Seq<Step>, run: Seq<Event<E>>, at: int)
    requires
        0 <= at <= run.len(),
        all_done(steps, run.skip(at)),
    ensures
        at + steps.len() <= run.len(),
        forall|i: int|
            at <= i < at + steps.len() ==> call_of(steps[i - at]) == Some((#[trigger] run[i]).call)
                && run[i].reply is Done,
    decreases steps.len(),
{
    let rest = run.skip(at);
    if steps.len() > 0 {
        assert(rest[0] == run[at]);
        assert(rest.skip(1) =~= run.skip(at + 1));
        lemma_done_one_by_one(steps.skip(1), run, at + 1);
        assert forall|i: int| at <= i < at + steps.len() implies call_of(steps[i - at]) == Some(
            (#[trigger] run[i]).call,
        ) && run[i].reply is Done by {
            if i > at {
                assert(steps.skip(1)[i - at - 1] == steps[i - at]);
            }
        }
    }
}

/// A deployment after a preparation.
proof fn lemma_deploys_after<E>(
    preparation: Seq<Step>,
    before: Seq<Call>,
    reports: Seq<Report>,
    source: PathBuf,
    cache: PathBuf,
    target: TemplateTarget,
    handlebars: Handlebars<'_>,
    variables: Variables,
    run: Seq<Event<E>>,
    at: int,
    result: Result<bool, Error<E>>,
)
    requires
        0 <= at <= run.len(),
        deployed_after(
            preparation,
            source,
            cache,
            target,
            handlebars,
            variables,
            run.skip(at),
            result,
        ),
        performs(preparation, before, reports),
        preparation.len() == before.len(),
    ensures
        deploys_after(
            before,
            reports,
            source,
            cache,
            target,
            handlebars,
            variables,
            run,
            at,
            failure_of(result),
        ),
        result matches Ok(value) ==> value,
{
    let task = Some(Context::PerformTemplateCache);
    if all_done(preparation, run.skip(at)) {
        lemma_done_one_by_one(preparation, run, at);
        let then = at + before.len();
        assert(run.skip(at).skip(before.len() as int) =~= run.skip(then));
        let deployed = match result {
            Ok(_) => Ok(()),
            Err(error) => Err(Error { task: None, ..error }),
        };
        lemma_deploys(
            source,
            cache,
            Some(&target),
            handlebars,
            variables,
            run,
            then,
            task,
            deployed,
        );
        assert(failure_in(task, deployed) == failure_of(result));
        assert forall|i: int| at <= i < then implies (#[trigger] run[i]).call == before[i - at]
            && run[i].reply is Done by {
            assert(preparation[i - at] == (Step::Perform {
                call: before[i - at],
                task: reports[i - at].task,
                context: reports[i - at].context,
            }));
        }
    } else {
        lemma_makes(preparation, true, run, at, result, before, reports);
    }
}

/// A deployment after a preparation that ends with the directory of the target.
proof fn lemma_deploys_into_directory<E>(
    preparation: Seq<Step>,
    before: Seq<Call>,
    reports: Seq<Report>,
    source: PathBuf,
    cache: PathBuf,
    target: TemplateTarget,
    handlebars: Handlebars<'_>,
    variables: Variables,
    run: Seq<Event<E>>,
    at: int,
    result: Result<bool, Error<E>>,
)
    requires
        0 <= at <= run.len(),
        deployed_after(
            preparation,
            source,
            cache,
            target,
            handlebars,
            variables,
            run.skip(at),
            result,
        ),
        performs(preparation, before, reports),
        preparation.len() == before.len() + 1,
        preparation.last() == create_target_parent(target.target, target.owner),
    ensures
        deploys_into_directory(
            before,
            reports,
            source,
            cache,
            target,
            handlebars,
            variables,
            run,
            at,
            failure_of(result),
        ),
        result matches Ok(value) ==> value,
{
    let n = before.len() as int;
    if let Some(directory) = parent_of(target.target) {
        let calls = before.push(Call::CreateDirAll { path: directory, owner: target.owner });
        let all_reports = reports.push(plain(Context::CreateParentForTarget));
        assert forall|i: int| 0 <= i < calls.len() implies #[trigger] preparation[i] == (
        Step::Perform {
            call: calls[i],
            task: all_reports[i].task,
            context: all_reports[i].context,
        }) by {}
        lemma_deploys_after(
            preparation,
            calls,
            all_reports,
            source,
            cache,
            target,
            handlebars,
            variables,
            run,
            at,
            result,
        );
    } else {
        if all_done(preparation, run.skip(at)) {
            lemma_done_one_by_one(preparation, run, at);
            assert(call_of(preparation[n]) == Some(run[at + n].call));
        }
        lemma_makes_in_vain(
            preparation,
            true,
            run,
            at,
            result,
            before,
            reports,
            plain(Context::GetParentOfTarget),
        );
    }
}

/// The course of creating a template. See [`law_created_template`].
pub open spec fn template_creation_course<E>(
    source: PathBuf,
    cache: PathBuf,
    target: TemplateTarget,
    handlebars: Handlebars<'_>,
    variables: Variables,
    force: bool,
    run: Seq<Event<E>>,
    result: Result<bool, Error<E>>,
) -> bool {
    &&& run.len() > 0
    &&& run[0].call == (Call::CompareTemplate { target: target.target, cache })
    &&& match run[0].reply {
        Reply::Template(comparison) => {
            let in_the_way = comparison is OnlyTargetExists || comparison is Changed
                || comparison is TargetNotRegularFile;
            &&& result matches Ok(remember) ==> remember == (!in_the_way || force)
            &&& in_the_way && !force ==> result is Ok && run.len() == 1
            &&& !in_the_way ==> deploys_into_directory(
                seq![],
                seq![],
                source,
                cache,
                target,
                handlebars,
                variables,
                run,
                1,
                failure_of(result),
            )
            &&& in_the_way && force ==> deploys_into_directory(
                seq![Call::RemoveFile { path: target.target }],
                seq![plain(Context::RemoveExistingFileWhileForcing)],
                source,
                cache,
                target,
                handlebars,
                variables,
                run,
                1,
                failure_of(result),
            )
        },
        Reply::Failed(cause) => fails_at(run, 0, Context::DetectTemplateState, cause, result),
        _ => false,
    }
}

/// Creating a template deploys it into the directory of its target whenever there is
/// no target, or one that is already what was cached, whoever it is to belong to and
/// whatever is put around it, and whenever it is forced to; then what is in the way is
/// removed first. It is not to be remembered, with no further call, only if another
/// file is in the way and nothing is forced.
pub proof fn law_created_template<E>(
    source: PathBuf,
    cache: PathBuf,
    target: TemplateTarget,
    handlebars: Handlebars<'_>,
    variables: Variables,
    force: bool,
    run: Seq<Event<E>>,
    result: Result<bool, Error<E>>,
)
    requires
        template_created(source, cache, target, handlebars, variables, force, run, result),
    ensures
        template_creation_course(source, cache, target, handlebars, variables, force, run, result),
{
    if let Reply::Template(comparison) = run[0].reply {
        if let Some(preparation) = template_creation(comparison, target, force) {
            if preparation.len() == 1 {
                lemma_deploys_into_directory(
                    preparation,
                    seq![],
                    seq![],
                    source,
                    cache,
                    target,
                    handlebars,
                    variables,
                    run,
                    1,
                    result,
                );
            } else {
                lemma_deploys_into_directory(
                    preparation,
                    seq![Call::RemoveFile { path: target.target }],
                    seq![plain(Context::RemoveExistingFileWhileForcing)],
                    source,
                    cache,
                    target,
                    handlebars,
                    variables,
                    run,
                    1,
                    result,
                );
            }
        }
    }
}

/// The course of updating a template. See [`law_updated_template`].
pub open spec fn template_update_course<E>(
    source: PathBuf,
    cache: PathBuf,
    target: TemplateTarget,
    handlebars: Handlebars<'_>,
    variables: Variables,
    force: bool,
    diff_context_lines: usize,
    run: Seq<Event<E>>,
    result: Result<bool, Error<E>>,
) -> bool {
    &&& run.len() > 0
    &&& run[0].call == (Call::CompareTemplate { target: target.target, cache })
    &&& match run[0].reply {
        Reply::Template(comparison) => {
            let shows = Event {
                call: Call::PrintTemplateDiff {
                    source,
                    template: target,
                    handlebars: Ghost(handlebars),
                    variables: Ghost(variables),
                    context_lines: diff_context_lines,
                },
                reply: Reply::<E>::Done,
            };
            let in_the_way = comparison is Changed || comparison is TargetNotRegularFile;
            let uncached = comparison is OnlyTargetExists || comparison is BothMissing;
            &&& result == Ok::<bool, Error<E>>(false) ==> !force && in_the_way && (
            comparison is Changed ==> (run[1].reply matches Reply::Difference(diff)
                && !unchanged(diff@)))
            &&& comparison is Identical ==> {
                &&& run.len() > 1
                &&& run[1] == shows
                &&& deploys_after(
                    seq![Call::SetOwner { path: target.target, owner: target.owner }],
                    seq![plain(Context::SetTargetOwner)],
                    source,
                    cache,
                    target,
                    handlebars,
                    variables,
                    run,
                    2,
                    failure_of(result),
                )
            }
            &&& comparison is OnlyCacheExists ==> deploys_into_directory(
                seq![],
                seq![],
                source,
                cache,
                target,
                handlebars,
                variables,
                run,
                1,
                failure_of(result),
            )
            &&& uncached ==> run.len() == 1 && result == Ok::<bool, Error<E>>(true)
            &&& in_the_way && force ==> {
                &&& run.len() > 1
                &&& run[1] == shows
                &&& deploys_after(
                    seq![Call::RemoveFile { path: target.target }],
                    seq![plain(Context::RemoveTargetWhileForcing)],
                    source,
                    cache,
                    target,
                    handlebars,
                    variables,
                    run,
                    2,
                    failure_of(result),
                )
            }
            &&& comparison is TargetNotRegularFile && !force ==> run.len() == 1 && result
                == Ok::<bool, Error<E>>(false)
            &&& comparison is Changed && !force ==> {
                &&& run.len() > 1
                &&& run[1].call == (Call::GenerateTemplateDiff {
                    source,
                    template: target,
                    handlebars: Ghost(handlebars),
                    variables: Ghost(variables),
                    source_to_target: false,
                })
                &&& match run[1].reply {
                    Reply::Difference(diff) => if unchanged(diff@) {
                        deploys_after(
                            seq![],
                            seq![],
                            source,
                            cache,
                            target,
                            handlebars,
                            variables,
                            run,
                            2,
                            failure_of(result),
                        )
                    } else {
                        &&& result == Ok::<bool, Error<E>>(false)
                        &&& run.len() > 2
                        &&& run[2].call == Call::InfoEnabled
                        &&& run[2].reply matches Reply::Enabled(wanted)
                        &&& run.len() == if wanted { 4int } else { 3 }
                        &&& wanted ==> run[3] == (Event {
                            call: Call::PrintDiff {
                                diff: Ghost(diff@),
                                context_lines: diff_context_lines,
                            },
                            reply: Reply::<E>::Done,
                        })
                    },
                    Reply::Failed(cause) => fails_at(
                        run,
                        1,
                        Context::DiffSourceAndTarget,
                        cause,
                        result,
                    ),
                    _ => false,
                }
            }
        },
        Reply::Failed(cause) => fails_at(run, 0, Context::DetectTemplateState, cause, result),
        _ => false,
    }
}

/// Updating a template:
///
/// - One whose target is as it was deployed is deployed again, forced or not, whoever it
///   is to belong to and whatever is put around it, after what this changes has been
///   shown and the target has been given its owner.
/// - One whose target is missing is deployed again into the directory of the target.
/// - Without a cached file nothing is done, which does not count as skipping.
/// - Where the target has been changed or is no regular file, it is removed and the
///   template deployed again if forced, after what this changes has been shown.
/// - Unforced, a changed target is compared with what is rendered: one that does not
///   differ in any line is deployed again, and one that does is left, after the
///   difference has been shown to those who want to see it. One that is no regular file
///   is left.
///
/// `false` comes of these two last cases only.
pub proof fn law_updated_template<E>(
    source: PathBuf,
    cache: PathBuf,
    target: TemplateTarget,
    handlebars: Handlebars<'_>,
    variables: Variables,
    force: bool,
    diff_context_lines: usize,
    run: Seq<Event<E>>,
    result: Result<bool, Error<E>>,
)
    requires
        template_updated(
            source,
            cache,
            target,
            handlebars,
            variables,
            force,
            diff_context_lines,
            run,
            result,
        ),
    ensures
        template_update_course(
            source,
            cache,
            target,
            handlebars,
            variables,
            force,
            diff_context_lines,
            run,
            result,
        ),
{
    if let Reply::Template(comparison) = run[0].reply {
        let rest = run.skip(1);
        let refresh = template_refresh(
            comparison,
            source,
            target,
            handlebars,
            variables,
            force,
            diff_context_lines,
        );
        if let TemplateRefresh::Deploy { preparation } = refresh {
            if comparison is OnlyCacheExists {
                lemma_deploys_into_directory(
                    preparation,
                    seq![],
                    seq![],
                    source,
                    cache,
                    target,
                    handlebars,
                    variables,
                    run,
                    1,
                    result,
                );
            } else {
                assert(preparation[0] is Show);
                assert(rest.len() > 0 && rest[0].reply is Done);
                assert(rest[0] == run[1]);
                lemma_deployed_after_first_step(
                    preparation,
                    source,
                    cache,
                    target,
                    handlebars,
                    variables,
                    rest,
                    result,
                );
                assert(rest.skip(1) =~= run.skip(2));
                let (call, context) = if comparison is Identical {
                    (
                        Call::SetOwner { path: target.target, owner: target.owner },
                        Context::SetTargetOwner,
                    )
                } else {
                    (Call::RemoveFile { path: target.target }, Context::RemoveTargetWhileForcing)
                };
                lemma_deploys_after(
                    preparation.skip(1),
                    seq![call],
                    seq![plain(context)],
                    source,
                    cache,
                    target,
                    handlebars,
                    variables,
                    run,
                    2,
                    result,
                );
            }
        } else if let TemplateRefresh::DeployUnlessDifferent = refresh {
            assert(rest[0] == run[1]);
            assert(rest.skip(1) =~= run.skip(2));
            if let Reply::Difference(diff) = rest[0].reply {
                law_difference(diff@, Seq::empty());
                if differs(diff@) {
                    let last = run.skip(2);
                    assert(last[0] == run[2]);
                    if last.len() > 1 {
                        assert(last[1] == run[3]);
                    }
                } else {
                    lemma_deploys_after(
                        Seq::empty(),
                        seq![],
                        seq![],
                        source,
                        cache,
                        target,
                        handlebars,
                        variables,
                        run,
                        2,
                        result,
                    );
                }
            }
        }
    }
}

/// Every line of the difference is one of both texts.
pub open spec fn unchanged(diff: Seq<DiffLine>) -> bool {
    forall|i: int| 0 <= i < diff.len() ==> #[trigger] diff[i] is Both
}

/// A difference shows a change if some line of it is not one of both texts, be it one
/// of the old or one of the new; a difference in two parts does if one of them does.
pub proof fn law_difference(diff: Seq<DiffLine>, more: Seq<DiffLine>)
    ensures
        differs(diff) == !unchanged(diff),
        differs(diff + more) == (differs(diff) || differs(more)),
{
    let whole = diff + more;
    if differs(diff) {
        let i = choose|i: int| 0 <= i < diff.len() && !(#[trigger] diff[i] is Both);
        assert(whole[i] == diff[i]);
    }
    if differs(more) {
        let i = choose|i: int| 0 <= i < more.len() && !(#[trigger] more[i] is Both);
        assert(whole[i + diff.len()] == more[i]);
    }
    if differs(whole) {
        let i = choose|i: int| 0 <= i < whole.len() && !(#[trigger] whole[i] is Both);
        if i < diff.len() {
            assert(diff[i] == whole[i]);
        } else {
            assert(more[i - diff.len()] == whole[i]);
        }
    }
}

} // verus!
