//! What holds of the operations as a whole.
use crate::config::{CopyEntry, CopyTarget, SymbolicTarget, TemplateTarget, Variables};
use crate::create::{
    copy_created, copy_creation, symlink_created, symlink_creation, template_created,
    template_creation,
};
use crate::delete::{
    copy_deleted, copy_deletion, symlink_deleted, symlink_deletion, template_deleted,
    template_deletion,
};
use crate::deploy::{
    deployed_after, rendered_deployed, rendered_deployment, template_deployed, template_text,
};
use crate::difference::differs;
use crate::error::{Cause, Error};
use crate::filesystem::{Call, Event, FileHash, Reply, SymlinkComparison, TemplateComparison};
use crate::outside::{may_render, parent_of};
use crate::plan::{
    all_done, call_of, carried_out, lemma_done_takes_a_call_each, stopped, Plan, Step,
};
use crate::update::{
    copy_refresh, copy_updated, symlink_refresh, symlink_updated, template_refresh,
    template_updated, TemplateRefresh,
};
use handlebars::{Handlebars, RenderError};
use std::path::PathBuf;
use vstd::prelude::*;

verus! {

/// The path that a call is given to change something at or above, if it changes
/// anything.
pub open spec fn changed_path(call: Call) -> Option<PathBuf> {
    match call {
        Call::RemoveFile { path } => Some(path),
        Call::DeleteParents { path, .. } => Some(path),
        Call::CreateDirAll { path, .. } => Some(path),
        Call::MakeSymlink { link, .. } => Some(link),
        Call::CopyFile { target, .. } => Some(target),
        Call::CopyPermissions { target, .. } => Some(target),
        Call::SetOwner { path, .. } => Some(path),
        Call::Write { path, .. } => Some(path),
        _ => None,
    }
}

/// Nothing was changed in the course of `run`.
pub open spec fn untouched<E>(run: Seq<Event<E>>) -> bool {
    forall|i: int| 0 <= i < run.len() ==> changed_path((#[trigger] run[i]).call) is None
}

/// `path` is `file` or the directory that `file` is in.
pub open spec fn belongs(path: PathBuf, file: PathBuf) -> bool {
    path == file || parent_of(file) == Some(path)
}

/// Every change that was asked for in the course of `run` was asked for at `file` or
/// the directory it is in.
pub open spec fn confined<E>(run: Seq<Event<E>>, file: PathBuf) -> bool {
    forall|i: int|
        0 <= i < run.len() ==> (changed_path((#[trigger] run[i]).call) matches Some(path)
            ==> belongs(path, file))
}

/// Every change that was asked for in the course of `run` was asked for at one of two
/// files or the directories they are in.
pub open spec fn confined_to_two<E>(run: Seq<Event<E>>, one: PathBuf, other: PathBuf) -> bool {
    forall|i: int|
        0 <= i < run.len() ==> (changed_path((#[trigger] run[i]).call) matches Some(path)
            ==> belongs(path, one) || belongs(path, other))
}

/// A failed call is the last one made, and it is what `result` reports; no other
/// call has failed.
pub open spec fn orderly<T, E>(run: Seq<Event<E>>, result: Result<T, Error<E>>) -> bool {
    &&& forall|i: int| 0 <= i < run.len() - 1 ==> !((#[trigger] run[i]).reply is Failed)
    &&& match result {
        Err(Error { cause: Cause::Filesystem(error), .. }) => run.len() > 0 && run.last().reply
            == Reply::Failed(error),
        _ => run.len() == 0 || !(run.last().reply is Failed),
    }
}

/// A failure that no call of the file system accounts for is that of `file` not
/// having a parent directory.
pub open spec fn accounted_for<T, E>(result: Result<T, Error<E>>, file: PathBuf) -> bool {
    result matches Err(error) ==> match error.cause {
        Cause::Filesystem(_) => true,
        Cause::NoParent => parent_of(file) is None,
        Cause::Render(_) => false,
    }
}

/// `call` was made in the course of `run`, with success.
pub open spec fn succeeded<E>(run: Seq<Event<E>>, call: Call) -> bool {
    exists|i: int| 0 <= i < run.len() && (#[trigger] run[i]).call == call && run[i].reply is Done
}

/// Each call of a run that carries out a plan is that of the step in its place.
proof fn lemma_carried_out<T, E>(
    steps: Seq<Step>,
    value: T,
    run: Seq<Event<E>>,
    result: Result<T, Error<E>>,
)
    requires
        carried_out(steps, value, run, result),
    ensures
        orderly(run, result),
        run.len() <= steps.len(),
        forall|i: int|
            0 <= i < run.len() ==> call_of(steps[i]) == Some((#[trigger] run[i]).call),
        forall|i: int| 0 <= i < run.len() - 1 ==> (#[trigger] run[i]).reply is Done,
        result is Ok ==> run.len() == steps.len(),
        result is Ok ==> (forall|i: int| 0 <= i < run.len() ==> (#[trigger] run[i]).reply is Done),
        result matches Err(error) ==> (match error.cause {
            Cause::Filesystem(_) => true,
            Cause::NoParent => run.len() < steps.len() && steps[run.len() as int] is NoParent,
            Cause::Render(_) => false,
        }),
    decreases steps.len(),
{
    if steps.len() > 0 && run.len() > 0 && run[0].reply is Done {
        let rest = run.skip(1);
        lemma_carried_out(steps.skip(1), value, rest, result);
        assert forall|i: int| 0 <= i < run.len() implies call_of(steps[i]) == Some(
            (#[trigger] run[i]).call,
        ) by {
            if i > 0 {
                assert(rest[i - 1] == run[i]);
            }
        }
        assert forall|i: int| 0 <= i < run.len() - 1 implies (#[trigger] run[i]).reply is Done by {
            if i > 0 {
                assert(rest[i - 1] == run[i]);
            }
        }
        if result is Ok {
            assert forall|i: int| 0 <= i < run.len() implies (#[trigger] run[i]).reply is Done by {
                if i > 0 {
                    assert(rest[i - 1] == run[i]);
                }
            }
        }
        if rest.len() > 0 {
            assert(rest.last() == run.last());
        }
    }
}

/// A run after a question.
proof fn lemma_orderly_after<T, E>(run: Seq<Event<E>>, result: Result<T, Error<E>>)
    requires
        run.len() > 0,
        !(run[0].reply is Failed),
        orderly(run.skip(1), result),
    ensures
        orderly(run, result),
{
    let rest = run.skip(1);
    assert forall|i: int| 0 <= i < run.len() - 1 implies !((#[trigger] run[i]).reply is Failed) by {
        if i > 0 {
            assert(rest[i - 1] == run[i]);
        }
    }
    if rest.len() > 0 {
        assert(rest.last() == run.last());
    }
}

/// A plan that is carried out after a question, all of whose steps are confined to
/// two files.
proof fn lemma_plan_after_question<T, E>(
    plan: Plan<T>,
    run: Seq<Event<E>>,
    result: Result<T, Error<E>>,
    one: PathBuf,
    other: PathBuf,
)
    requires
        run.len() > 0,
        changed_path(run[0].call) is None,
        !(run[0].reply is Failed),
        plan.carried_out(run.skip(1), result),
        forall|i: int|
            0 <= i < plan.steps.len() ==> (call_of(#[trigger] plan.steps[i]) matches Some(call)
                ==> changed_path(call) matches Some(path) && (belongs(path, one) || belongs(
                path,
                other,
            ))),
        forall|i: int|
            0 <= i < plan.steps.len() && #[trigger] plan.steps[i] is NoParent ==> parent_of(
                one,
            ) is None,
    ensures
        orderly(run, result),
        confined_to_two(run, one, other),
        accounted_for(result, one),
        result matches Ok(value) ==> value == plan.value && run.len() == plan.steps.len() + 1,
        result is Ok ==> forall|i: int|
            0 <= i < plan.steps.len() ==> (call_of(#[trigger] plan.steps[i]) matches Some(call)
                && succeeded(run, call)),
        result is Ok && plan.steps.len() == 0 ==> untouched(run),
{
    let rest = run.skip(1);
    lemma_carried_out(plan.steps, plan.value, rest, result);
    lemma_orderly_after(run, result);
    assert forall|i: int| 0 <= i < run.len() implies (changed_path((#[trigger] run[i]).call)
        matches Some(path) ==> belongs(path, one) || belongs(path, other)) by {
        if i > 0 {
            assert(rest[i - 1] == run[i]);
            assert(call_of(plan.steps[i - 1]) == Some(rest[i - 1].call));
        }
    }
    if result is Ok {
        assert forall|i: int| 0 <= i < plan.steps.len() implies (call_of(
            #[trigger] plan.steps[i],
        ) matches Some(call) && succeeded(run, call)) by {
            assert(rest[i] == run[i + 1]);
            assert(call_of(plan.steps[i]) == Some(rest[i].call));
        }
    }
}

/// What holds of a run holds of it with a question put first.
proof fn lemma_question_first<T, E>(
    run: Seq<Event<E>>,
    result: Result<T, Error<E>>,
    one: PathBuf,
    other: PathBuf,
)
    requires
        run.len() > 0,
        changed_path(run[0].call) is None,
        !(run[0].reply is Failed),
        orderly(run.skip(1), result),
        confined_to_two(run.skip(1), one, other),
    ensures
        orderly(run, result),
        confined_to_two(run, one, other),
        untouched(run.skip(1)) ==> untouched(run),
        forall|call: Call| #[trigger] succeeded(run.skip(1), call) ==> succeeded(run, call),
{
    let rest = run.skip(1);
    lemma_orderly_after(run, result);
    assert forall|i: int| 0 <= i < run.len() implies (changed_path((#[trigger] run[i]).call)
        matches Some(path) ==> belongs(path, one) || belongs(path, other)) by {
        if i > 0 {
            assert(rest[i - 1] == run[i]);
        }
    }
    if untouched(rest) {
        assert forall|i: int| 0 <= i < run.len() implies changed_path(
            (#[trigger] run[i]).call,
        ) is None by {
            if i > 0 {
                assert(rest[i - 1] == run[i]);
            }
        }
    }
    assert forall|call: Call| #[trigger] succeeded(rest, call) implies succeeded(run, call) by {
        let i = choose|i: int|
            0 <= i < rest.len() && (#[trigger] rest[i]).call == call && rest[i].reply is Done;
        assert(run[i + 1] == rest[i]);
    }
}

/// Deleting a symbolic link: a failed call ends it and is reported; nothing but
/// the link and its directories is changed; if it is skipped, nothing is; and it is
/// to be forgotten only if it was not there or has been removed. Unless forced, what
/// is reported as leading elsewhere, or as no link, is not touched.
pub proof fn law_symlink_deletion<E>(
    source: PathBuf,
    target: PathBuf,
    force: bool,
    run: Seq<Event<E>>,
    result: Result<bool, Error<E>>,
)
    requires
        symlink_deleted(source, target, force, run, result),
    ensures
        orderly(run, result),
        accounted_for(result, target),
        confined(run, target),
        result matches Ok(forget) && !forget ==> untouched(run),
        result matches Ok(forget) && forget ==> {
            ||| run[0].reply == Reply::<E>::Symlink(SymlinkComparison::OnlySourceExists)
            ||| run[0].reply == Reply::<E>::Symlink(SymlinkComparison::BothMissing)
            ||| succeeded(run, Call::RemoveFile { path: target })
        },
        !force && (run[0].reply matches Reply::Symlink(comparison) && (comparison is Changed
            || comparison is TargetNotSymlink)) ==> untouched(run),
{
    if let Reply::Symlink(comparison) = run[0].reply {
        let plan = symlink_deletion(comparison, target, force);
        lemma_plan_after_question(plan, run, result, target, target);
        if plan.steps.len() > 0 {
            assert(call_of(plan.steps[0]) == Some(Call::RemoveFile { path: target }));
        }
    }
}

/// Deleting a template: a failed call ends it and is reported; nothing but the
/// target, the cached file and their directories is changed; if it is skipped,
/// nothing is; and it is to be forgotten only if the cached file has been removed
/// and the target was not there or has been removed. Unless forced, a target that
/// is reported as changed, or as no regular file, is not touched.
pub proof fn law_template_deletion<E>(
    cache: PathBuf,
    target: PathBuf,
    force: bool,
    run: Seq<Event<E>>,
    result: Result<bool, Error<E>>,
)
    requires
        template_deleted(cache, target, force, run, result),
    ensures
        orderly(run, result),
        accounted_for(result, target),
        confined_to_two(run, target, cache),
        result matches Ok(forget) && !forget ==> untouched(run),
        result matches Ok(forget) && forget ==> {
            &&& succeeded(run, Call::RemoveFile { path: cache })
            &&& {
                ||| run[0].reply == Reply::<E>::Template(TemplateComparison::OnlyCacheExists)
                ||| succeeded(run, Call::RemoveFile { path: target })
            }
        },
        !force && (run[0].reply matches Reply::Template(comparison) && (comparison is Changed
            || comparison is TargetNotRegularFile)) ==> untouched(run),
{
    if let Reply::Template(comparison) = run[0].reply {
        let plan = template_deletion(comparison, cache, target, force);
        lemma_plan_after_question(plan, run, result, target, cache);
        if plan.steps.len() > 0 {
            assert(call_of(plan.steps[0]) == Some(Call::RemoveFile { path: cache }));
        }
        if plan.steps.len() > 2 {
            assert(call_of(plan.steps[2]) == Some(Call::RemoveFile { path: target }));
        }
    }
}

/// Deleting a copy: a failed call ends it and is reported; nothing but the copy and
/// its directories is changed; if it is skipped, nothing is; and it is to be
/// forgotten only if it was not there or has been removed. Unless forced, a copy
/// that is not as it was left is not removed.
pub proof fn law_copy_deletion<E>(
    cached: CopyEntry,
    force: bool,
    run: Seq<Event<E>>,
    result: Result<bool, Error<E>>,
)
    requires
        copy_deleted(cached, force, run, result),
    ensures
        orderly(run, result),
        accounted_for(result, cached.target),
        confined(run, cached.target),
        result matches Ok(forget) && !forget ==> untouched(run),
        result matches Ok(forget) && forget ==> {
            ||| run[0].reply == Reply::<E>::Hash(FileHash::NotPresent)
            ||| succeeded(run, Call::RemoveFile { path: cached.target })
        },
        !force && run[0].reply != Reply::<E>::Hash(FileHash::Hash(cached.target_checksum))
            ==> untouched(run),
{
    if let Reply::Hash(hash) = run[0].reply {
        let plan = copy_deletion(hash, cached, force);
        lemma_plan_after_question(plan, run, result, cached.target, cached.target);
        if plan.steps.len() > 0 {
            assert(call_of(plan.steps[0]) == Some(Call::RemoveFile { path: cached.target }));
        }
    }
}

/// Creating a symbolic link: a failed call ends it and is reported; nothing but the
/// link and its directory is changed; if it is skipped, nothing is; and it is to be
/// remembered only if it was there already or has been made. Unless forced, what is in
/// its place is not touched.
pub proof fn law_symlink_creation<E>(
    source: PathBuf,
    target: SymbolicTarget,
    force: bool,
    run: Seq<Event<E>>,
    result: Result<bool, Error<E>>,
)
    requires
        symlink_created(source, target, force, run, result),
    ensures
        orderly(run, result),
        accounted_for(result, target.target),
        confined(run, target.target),
        result matches Ok(remember) && !remember ==> untouched(run),
        result matches Ok(remember) && remember ==> {
            ||| run[0].reply == Reply::<E>::Symlink(SymlinkComparison::Identical)
            ||| succeeded(
                run,
                Call::MakeSymlink { link: target.target, source, owner: target.owner },
            )
        },
        !force && (run[0].reply matches Reply::Symlink(comparison) && (comparison is Changed
            || comparison is TargetNotSymlink)) ==> untouched(run),
{
    if let Reply::Symlink(comparison) = run[0].reply {
        let plan = symlink_creation(comparison, source, target, force);
        lemma_plan_after_question(plan, run, result, target.target, target.target);
        if plan.steps.len() > 0 {
            assert(call_of(plan.steps[1]) == Some(
                Call::MakeSymlink { link: target.target, source, owner: target.owner },
            ));
        }
    }
}

/// Updating a symbolic link comes to the same as creating it: the two take the same
/// steps with the same outcome.
pub proof fn law_symlink_update_is_creation<E>(
    source: PathBuf,
    target: SymbolicTarget,
    force: bool,
    run: Seq<Event<E>>,
    result: Result<bool, Error<E>>,
)
    ensures
        symlink_updated(source, target, force, run, result) == symlink_created(
            source,
            target,
            force,
            run,
            result,
        ),
{
    assert forall|comparison: SymlinkComparison|
        symlink_refresh(comparison, source, target, force) == symlink_creation(
            comparison,
            source,
            target,
            force,
        ) by {}
}

/// A symbolic link that points at its source is left alone when it is created or
/// updated, and removed when it is deleted, forced or not.
pub proof fn law_intact_symlink<E>(
    source: PathBuf,
    target: SymbolicTarget,
    force: bool,
    run: Seq<Event<E>>,
    result: Result<bool, Error<E>>,
)
    requires
        run.len() > 0,
        run[0].reply == Reply::<E>::Symlink(SymlinkComparison::Identical),
    ensures
        symlink_created(source, target, force, run, result) || symlink_updated(
            source,
            target,
            force,
            run,
            result,
        ) ==> run.len() == 1 && result == Ok::<bool, Error<E>>(true),
        symlink_deleted(source, target.target, force, run, result) && result is Ok ==> result
            == Ok::<bool, Error<E>>(true) && succeeded(
            run,
            Call::RemoveFile { path: target.target },
        ),
{
    if symlink_deleted(source, target.target, force, run, result) {
        let plan = symlink_deletion(SymlinkComparison::Identical, target.target, force);
        law_symlink_deletion(source, target.target, force, run, result);
        lemma_plan_after_question(plan, run, result, target.target, target.target);
    }
}

/// A template whose target is as it was deployed is removed from the cache and from
/// its target when it is deleted, forced or not.
pub proof fn law_intact_template_can_be_deleted<E>(
    cache: PathBuf,
    target: PathBuf,
    force: bool,
    run: Seq<Event<E>>,
    result: Result<bool, Error<E>>,
)
    requires
        template_deleted(cache, target, force, run, result),
        run[0].reply == Reply::<E>::Template(TemplateComparison::Identical),
    ensures
        result matches Ok(forget) ==> forget && succeeded(run, Call::RemoveFile { path: cache })
            && succeeded(run, Call::RemoveFile { path: target }),
        result is Err ==> run.last().reply is Failed,
{
    law_template_deletion(cache, target, force, run, result);
    let plan = template_deletion(TemplateComparison::Identical, cache, target, force);
    lemma_plan_after_question(plan, run, result, target, cache);
    lemma_carried_out(plan.steps, plan.value, run.skip(1), result);
}

/// Creating a copy: a failed call ends it and is reported; nothing but the copy and
/// its directory is changed; if it is skipped, nothing is. The entry tells where the
/// copy is and that both files have the checksum of the source; the copy had that
/// checksum already or has been made from the source. Unless forced, another file
/// that is in the way is not touched.
pub proof fn law_copy_creation<E>(
    source: PathBuf,
    target: CopyTarget,
    force: bool,
    run: Seq<Event<E>>,
    result: Result<Option<CopyEntry>, Error<E>>,
)
    requires
        copy_created(source, target, force, run, result),
    ensures
        orderly(run, result),
        accounted_for(result, target.target),
        confined(run, target.target),
        result matches Ok(None) ==> untouched(run),
        result matches Ok(Some(entry)) ==> {
            &&& entry.target == target.target
            &&& entry.source_checksum == entry.target_checksum
            &&& run[0].reply == Reply::<E>::Hash(FileHash::Hash(entry.source_checksum))
            &&& {
                ||| run[1].reply == Reply::<E>::Hash(FileHash::Hash(entry.target_checksum))
                ||| succeeded(
                    run,
                    Call::CopyFile { source, target: target.target, owner: target.owner },
                )
            }
        },
        !force && run.len() > 1 && run[1].reply != Reply::<E>::Hash(FileHash::NotPresent)
            ==> untouched(run),
{
    if let Reply::Hash(FileHash::Hash(source_hash)) = run[0].reply {
        let rest = run.skip(1);
        if let Reply::Hash(target_hash) = rest[0].reply {
            let plan = copy_creation(source_hash, target_hash, source, target, force);
            lemma_plan_after_question(plan, rest, result, target.target, target.target);
            lemma_question_first(run, result, target.target, target.target);
            let copying = Call::CopyFile { source, target: target.target, owner: target.owner };
            if result is Ok && plan.steps.len() == 3 {
                assert(call_of(plan.steps[1]) == Some(copying));
                assert(succeeded(rest, copying));
            } else if result is Ok && plan.steps.len() > 0 {
                assert(call_of(plan.steps[2]) == Some(copying));
                assert(succeeded(rest, copying));
            }
        }
    }
}

/// Updating a copy: a failed call ends it and is reported; nothing but the copy and
/// its directory is changed; if it is skipped, nothing is. The entry tells where the
/// copy is and the checksum of the source; the copy has that checksum too, having
/// just been made from the source, or it has the one it was found with and nothing
/// but its owner and permissions was set. Unless forced, a copy that is there but not
/// as it was left is not touched.
pub proof fn law_copy_update<E>(
    source: PathBuf,
    target: CopyTarget,
    cached: CopyEntry,
    force: bool,
    run: Seq<Event<E>>,
    result: Result<Option<CopyEntry>, Error<E>>,
)
    requires
        copy_updated(source, target, cached, force, run, result),
    ensures
        orderly(run, result),
        accounted_for(result, cached.target),
        confined(run, cached.target),
        result matches Ok(None) ==> untouched(run),
        result matches Ok(Some(entry)) ==> {
            &&& entry.target == cached.target
            &&& run[0].reply == Reply::<E>::Hash(FileHash::Hash(entry.source_checksum))
            &&& {
                ||| run[1].reply == Reply::<E>::Hash(FileHash::Hash(entry.target_checksum))
                    && entry == cached
                ||| entry.target_checksum == entry.source_checksum && succeeded(
                    run,
                    Call::CopyFile { source, target: cached.target, owner: target.owner },
                )
            }
        },
        !force && run.len() > 1 && run[1].reply != Reply::<E>::Hash(FileHash::NotPresent)
            && run[1].reply != Reply::<E>::Hash(FileHash::Hash(cached.target_checksum))
            ==> untouched(run),
{
    if let Reply::Hash(FileHash::Hash(source_hash)) = run[0].reply {
        let rest = run.skip(1);
        if let Reply::Hash(target_hash) = rest[0].reply {
            let plan = copy_refresh(source_hash, target_hash, source, target, cached, force);
            lemma_plan_after_question(plan, rest, result, cached.target, cached.target);
            lemma_question_first(run, result, cached.target, cached.target);
            let copying = Call::CopyFile { source, target: cached.target, owner: target.owner };
            if result is Ok && plan.steps.len() == 3 {
                assert(call_of(plan.steps[1]) == Some(copying));
                assert(succeeded(rest, copying));
            } else if result is Ok && plan.steps.len() == 4 {
                assert(call_of(plan.steps[2]) == Some(copying));
                assert(succeeded(rest, copying));
            }
        }
    }
}

/// A copy that was just created and has not changed since is up to date: updating
/// it, forced or not, sets its owner and permissions and nothing else, and its entry
/// stays the same.
pub proof fn law_created_copy_is_up_to_date<E>(
    source: PathBuf,
    target: CopyTarget,
    created_by_force: bool,
    creation: Seq<Event<E>>,
    entry: CopyEntry,
    force: bool,
    update: Seq<Event<E>>,
    result: Result<Option<CopyEntry>, Error<E>>,
)
    requires
        copy_created(source, target, created_by_force, creation, Ok(Some(entry))),
        copy_updated(source, target, entry, force, update, result),
        update.len() > 1,
        update[0].reply == Reply::<E>::Hash(FileHash::Hash(entry.source_checksum)),
        update[1].reply == Reply::<E>::Hash(FileHash::Hash(entry.target_checksum)),
    ensures
        result matches Ok(updated) ==> updated == Some(entry) && update.len() == 4,
        update.len() <= 4,
        update.len() > 2 ==> update[2].call == (Call::SetOwner {
            path: target.target,
            owner: target.owner,
        }),
        update.len() > 3 ==> update[3].call == (Call::CopyPermissions {
            source,
            target: target.target,
            owner: target.owner,
        }),
{
    law_copy_creation(source, target, created_by_force, creation, Ok(Some(entry)));
    lemma_up_to_date(source, target, entry, force, update, result);
}

/// A copy that was just updated and has not changed since is up to date in the same
/// way: updating it once more changes nothing about its entry.
pub proof fn law_updated_copy_is_up_to_date<E>(
    source: PathBuf,
    target: CopyTarget,
    cached: CopyEntry,
    updated_by_force: bool,
    first: Seq<Event<E>>,
    entry: CopyEntry,
    force: bool,
    second: Seq<Event<E>>,
    result: Result<Option<CopyEntry>, Error<E>>,
)
    requires
        copy_updated(source, target, cached, updated_by_force, first, Ok(Some(entry))),
        copy_updated(source, target, entry, force, second, result),
        second.len() > 1,
        second[0].reply == Reply::<E>::Hash(FileHash::Hash(entry.source_checksum)),
        second[1].reply == Reply::<E>::Hash(FileHash::Hash(entry.target_checksum)),
    ensures
        result matches Ok(updated) ==> updated == Some(entry) && second.len() == 4,
        second.len() <= 4,
        second.len() > 2 ==> second[2].call == (Call::SetOwner {
            path: cached.target,
            owner: target.owner,
        }),
        second.len() > 3 ==> second[3].call == (Call::CopyPermissions {
            source,
            target: cached.target,
            owner: target.owner,
        }),
{
    law_copy_update(source, target, cached, updated_by_force, first, Ok(Some(entry)));
    lemma_up_to_date(source, target, entry, force, second, result);
}

/// Updating a copy when neither file has changed.
proof fn lemma_up_to_date<E>(
    source: PathBuf,
    target: CopyTarget,
    cached: CopyEntry,
    force: bool,
    run: Seq<Event<E>>,
    result: Result<Option<CopyEntry>, Error<E>>,
)
    requires
        copy_updated(source, target, cached, force, run, result),
        run.len() > 1,
        run[0].reply == Reply::<E>::Hash(FileHash::Hash(cached.source_checksum)),
        run[1].reply == Reply::<E>::Hash(FileHash::Hash(cached.target_checksum)),
    ensures
        result matches Ok(updated) ==> updated == Some(cached) && run.len() == 4,
        run.len() <= 4,
        run.len() > 2 ==> run[2].call == (Call::SetOwner {
            path: cached.target,
            owner: target.owner,
        }),
        run.len() > 3 ==> run[3].call == (Call::CopyPermissions {
            source,
            target: cached.target,
            owner: target.owner,
        }),
{
    let rest = run.skip(1);
    let steps = rest.skip(1);
    let plan = copy_refresh(
        cached.source_checksum,
        FileHash::Hash(cached.target_checksum),
        source,
        target,
        cached,
        force,
    );
    assert(rest[0] == run[1]);
    lemma_carried_out(plan.steps, plan.value, steps, result);
    if run.len() > 2 {
        assert(steps[0] == run[2]);
    }
    if run.len() > 3 {
        assert(steps[1] == run[3]);
    }
}

/// A copy that is as its entry tells is removed without being forced to: deleting it
/// succeeds, or one of the two calls that it takes has failed.
pub proof fn law_unchanged_copy_can_be_deleted<E>(
    cached: CopyEntry,
    run: Seq<Event<E>>,
    result: Result<bool, Error<E>>,
)
    requires
        copy_deleted(cached, false, run, result),
        run[0].reply == Reply::<E>::Hash(FileHash::Hash(cached.target_checksum)),
    ensures
        result matches Ok(forget) ==> forget && succeeded(
            run,
            Call::RemoveFile { path: cached.target },
        ) && succeeded(run, Call::DeleteParents { path: cached.target, no_ask: false }),
        result is Err ==> run.last().reply is Failed,
{
    law_copy_deletion(cached, false, run, result);
    let plan = copy_deletion(FileHash::Hash(cached.target_checksum), cached, false);
    lemma_plan_after_question(plan, run, result, cached.target, cached.target);
    assert(call_of(plan.steps[1]) == Some(
        Call::DeleteParents { path: cached.target, no_ask: false },
    ));
    lemma_carried_out(plan.steps, plan.value, run.skip(1), result);
}

/// Rendering some template text came back with the failure `cause`.
pub open spec fn rendering_failed(
    handlebars: Handlebars<'_>,
    variables: Variables,
    cause: RenderError,
) -> bool {
    exists|template: Seq<char>| #[trigger]
        may_render(handlebars, template, variables, Err(cause))
}

/// A failure of deploying a template that no call of the file system accounts for is
/// that of a missing parent directory or that of rendering.
pub open spec fn template_accounted_for<T, E>(
    handlebars: Handlebars<'_>,
    variables: Variables,
    target: PathBuf,
    cache: PathBuf,
    result: Result<T, Error<E>>,
) -> bool {
    result matches Err(error) ==> match error.cause {
        Cause::Filesystem(_) => true,
        Cause::NoParent => parent_of(target) is None || parent_of(cache) is None,
        Cause::Render(cause) => rendering_failed(handlebars, variables, cause),
    }
}

/// At its place `read`, `run` reads `contents` from `source`; `rendered` is what the
/// text of the template was rendered to; it is then written to `cache`, and the
/// cached file is copied to the target.
pub open spec fn rendered_and_copied_at<E>(
    source: PathBuf,
    cache: PathBuf,
    target: TemplateTarget,
    handlebars: Handlebars<'_>,
    variables: Variables,
    run: Seq<Event<E>>,
    read: int,
    contents: String,
    rendered: String,
) -> bool {
    &&& 0 <= read < run.len() - 4
    &&& run[read] == (Event {
        call: Call::ReadToString { path: source },
        reply: Reply::<E>::Text(contents),
    })
    &&& may_render(handlebars, target.template_text(contents@), variables, Ok(rendered))
    &&& run[read + 2] == (Event {
        call: Call::Write { path: cache, content: rendered },
        reply: Reply::<E>::Done,
    })
    &&& run[read + 3] == (Event {
        call: Call::CopyFile { source: cache, target: target.target, owner: target.owner },
        reply: Reply::<E>::Done,
    })
}

/// What was copied to the target in the course of `run` is the cached file, and that
/// is what the template was rendered to.
pub open spec fn rendered_and_copied<E>(
    source: PathBuf,
    cache: PathBuf,
    target: TemplateTarget,
    handlebars: Handlebars<'_>,
    variables: Variables,
    run: Seq<Event<E>>,
) -> bool {
    exists|read: int, contents: String, rendered: String| #[trigger]
        rendered_and_copied_at(
            source,
            cache,
            target,
            handlebars,
            variables,
            run,
            read,
            contents,
            rendered,
        )
}

/// Deploying a template: a failed call ends it and is reported; nothing but the
/// cached file, its directory and the target is changed; nothing at all is changed
/// if rendering fails; and on success the target was copied from the cached file,
/// which is what the template was rendered to.
pub proof fn law_template_deployment<E>(
    source: PathBuf,
    cache: PathBuf,
    target: TemplateTarget,
    handlebars: Handlebars<'_>,
    variables: Variables,
    run: Seq<Event<E>>,
    result: Result<(), Error<E>>,
)
    requires
        template_deployed(source, cache, Some(&target), handlebars, variables, run, result),
    ensures
        orderly(run, result),
        template_accounted_for(handlebars, variables, target.target, cache, result),
        confined_to_two(run, target.target, cache),
        result matches Err(error) && error.cause is Render ==> untouched(run),
        result is Ok ==> rendered_and_copied(source, cache, target, handlebars, variables, run),
{
    if let Reply::Text(contents) = run[0].reply {
        let text = template_text(Some(&target), contents@);
        let rest = run.skip(1);
        let outcome = choose|outcome: Result<String, RenderError>| #[trigger]
            may_render(handlebars, text, variables, outcome) && rendered_deployed(
                source,
                cache,
                Some(&target),
                outcome,
                rest,
                result,
            );
        if let Err(cause) = outcome {
            assert(may_render(handlebars, text, variables, Err(cause)));
            assert(rendering_failed(handlebars, variables, cause));
        }
        if let Ok(rendered) = outcome {
            let steps = rendered_deployment(source, cache, Some(&target), rendered);
            let plan = Plan { steps, value: () };
            lemma_carried_out(steps, (), rest, result);
            lemma_plan_after_question(plan, run, result, cache, target.target);
            if result is Ok {
                assert(rest[1] == run[2]);
                assert(rest[2] == run[3]);
                assert(call_of(steps[1]) == Some(rest[1].call));
                assert(call_of(steps[2]) == Some(rest[2].call));
                assert(rendered_and_copied_at(
                    source,
                    cache,
                    target,
                    handlebars,
                    variables,
                    run,
                    0,
                    contents,
                    rendered,
                ));
            }
        }
    }
}

/// A deployment after a preparation that is confined to the target.
proof fn lemma_prepared_deployment<E>(
    preparation: Seq<Step>,
    source: PathBuf,
    cache: PathBuf,
    target: TemplateTarget,
    handlebars: Handlebars<'_>,
    variables: Variables,
    run: Seq<Event<E>>,
    result: Result<bool, Error<E>>,
)
    requires
        deployed_after(preparation, source, cache, target, handlebars, variables, run, result),
        forall|i: int|
            0 <= i < preparation.len() ==> (call_of(#[trigger] preparation[i]) matches Some(call)
                ==> (changed_path(call) matches Some(path) ==> belongs(path, target.target))),
        forall|i: int|
            0 <= i < preparation.len() && #[trigger] preparation[i] is NoParent ==> parent_of(
                target.target,
            ) is None,
    ensures
        orderly(run, result),
        template_accounted_for(handlebars, variables, target.target, cache, result),
        confined_to_two(run, target.target, cache),
        result matches Ok(value) ==> value && rendered_and_copied(
            source,
            cache,
            target,
            handlebars,
            variables,
            run,
        ),
    decreases preparation.len(),
{
    if preparation.len() == 0 {
        assert(run.skip(0) =~= run);
        let deployed = match result {
            Ok(_) => Ok(()),
            Err(error) => Err(Error { task: None, ..error }),
        };
        law_template_deployment(source, cache, target, handlebars, variables, run, deployed);
    } else if run.len() > 0 && run[0].reply is Done {
        let rest = run.skip(1);
        let later = preparation.skip(1);
        if all_done(later, rest) {
            lemma_done_takes_a_call_each(later, rest);
            assert(rest.skip(later.len() as int) =~= run.skip(preparation.len() as int));
        }
        assert(all_done(preparation, run) ==> all_done(later, rest));
        lemma_prepared_deployment(
            later,
            source,
            cache,
            target,
            handlebars,
            variables,
            rest,
            result,
        );
        lemma_orderly_after(run, result);
        assert forall|i: int| 0 <= i < run.len() implies (changed_path((#[trigger] run[i]).call)
            matches Some(path) ==> belongs(path, target.target) || belongs(path, cache)) by {
            if i > 0 {
                assert(rest[i - 1] == run[i]);
            } else {
                assert(call_of(preparation[0]) == Some(run[0].call));
            }
        }
        if result is Ok {
            let (read, contents, rendered) = choose|
                read: int,
                contents: String,
                rendered: String,
            | #[trigger]
                rendered_and_copied_at(
                    source,
                    cache,
                    target,
                    handlebars,
                    variables,
                    rest,
                    read,
                    contents,
                    rendered,
                );
            assert(rendered_and_copied_at(
                source,
                cache,
                target,
                handlebars,
                variables,
                run,
                read + 1,
                contents,
                rendered,
            ));
        }
    } else {
        assert(!all_done(preparation, run));
        assert(stopped(preparation, run, result->Err_0));
        if run.len() > 0 {
            assert(call_of(preparation[0]) == Some(run[0].call));
        }
    }
}

/// Creating a template: a failed call ends it and is reported; nothing but the
/// target, the cached file and their directories is changed; if it is skipped,
/// nothing is; and it is to be remembered only if it was rendered into the cache and
/// copied from there. Unless forced, a file that is in the way is not touched.
pub proof fn law_template_creation<E>(
    source: PathBuf,
    cache: PathBuf,
    target: TemplateTarget,
    handlebars: Handlebars<'_>,
    variables: Variables,
    force: bool,
    run: Seq<Event<E>>,
    result: Result<bool, Error<E>>,
)
    requires
        template_created(source, cache, target, handlebars, variables, force, run, result),
    ensures
        orderly(run, result),
        template_accounted_for(handlebars, variables, target.target, cache, result),
        confined_to_two(run, target.target, cache),
        result matches Ok(remember) && !remember ==> untouched(run),
        result matches Ok(remember) && remember ==> rendered_and_copied(
            source,
            cache,
            target,
            handlebars,
            variables,
            run,
        ),
        !force && (run[0].reply matches Reply::Template(comparison) && (
        comparison is OnlyTargetExists || comparison is Changed
            || comparison is TargetNotRegularFile)) ==> untouched(run),
{
    if let Reply::Template(comparison) = run[0].reply {
        if let Some(preparation) = template_creation(comparison, target, force) {
            lemma_prepared_deployment(
                preparation,
                source,
                cache,
                target,
                handlebars,
                variables,
                run.skip(1),
                result,
            );
            lemma_question_first(run, result, target.target, cache);
            if result is Ok {
                lemma_rendered_and_copied_later(
                    source,
                    cache,
                    target,
                    handlebars,
                    variables,
                    run,
                );
            }
        }
    }
}

/// A file that was rendered and copied in the later part of a run.
proof fn lemma_rendered_and_copied_later<E>(
    source: PathBuf,
    cache: PathBuf,
    target: TemplateTarget,
    handlebars: Handlebars<'_>,
    variables: Variables,
    run: Seq<Event<E>>,
)
    requires
        run.len() > 0,
        rendered_and_copied(source, cache, target, handlebars, variables, run.skip(1)),
    ensures
        rendered_and_copied(source, cache, target, handlebars, variables, run),
{
    let (read, contents, rendered) = choose|read: int, contents: String, rendered: String|
     #[trigger]
        rendered_and_copied_at(
            source,
            cache,
            target,
            handlebars,
            variables,
            run.skip(1),
            read,
            contents,
            rendered,
        );
    assert(rendered_and_copied_at(
        source,
        cache,
        target,
        handlebars,
        variables,
        run,
        read + 1,
        contents,
        rendered,
    ));
}

/// Updating a template: a failed call ends it and is reported; nothing but the
/// target, the cached file and their directories is changed; if it is skipped,
/// nothing is; and otherwise it was rendered into the cache and copied from there,
/// or the cached file was missing and nothing was changed. Unless forced, a target
/// that is no regular file, or differs from what is rendered, is not touched.
pub proof fn law_template_update<E>(
    source: PathBuf,
    cache: PathBuf,
    target: TemplateTarget,
    handlebars: Handlebars<'_>,
    variables: Variables,
    force: bool,
    diff_context_lines: usize,
    run: Seq<Event<E>>,
    result: Result<bool, Error<E>>,
)
    requires
        template_updated(
            source,
            cache,
            target,
            handlebars,
            variables,
            force,
            diff_context_lines,
            run,
            result,
        ),
    ensures
        orderly(run, result),
        template_accounted_for(handlebars, variables, target.target, cache, result),
        confined_to_two(run, target.target, cache),
        result matches Ok(kept) && !kept ==> untouched(run),
        result matches Ok(kept) && kept ==> {
            ||| rendered_and_copied(source, cache, target, handlebars, variables, run)
            ||| untouched(run) && (run[0].reply matches Reply::Template(comparison) && (
            comparison is OnlyTargetExists || comparison is BothMissing))
        },
        !force && (run[0].reply matches Reply::Template(
            comparison,
        ) && comparison is TargetNotRegularFile) ==> untouched(run),
        !force && run.len() > 1 && (run[0].reply matches Reply::Template(comparison)
            && comparison is Changed) && (run[1].reply matches Reply::Difference(diff) ==> differs(
            diff@,
        )) ==> untouched(run),
{
    if let Reply::Template(comparison) = run[0].reply {
        let refresh = template_refresh(
            comparison,
            source,
            target,
            handlebars,
            variables,
            force,
            diff_context_lines,
        );
        let rest = run.skip(1);
        if let TemplateRefresh::Deploy { preparation } = refresh {
            lemma_prepared_deployment(
                preparation,
                source,
                cache,
                target,
                handlebars,
                variables,
                rest,
                result,
            );
            lemma_question_first(run, result, target.target, cache);
            if result is Ok {
                lemma_rendered_and_copied_later(
                    source,
                    cache,
                    target,
                    handlebars,
                    variables,
                    run,
                );
            }
        } else if let TemplateRefresh::DeployUnlessDifferent = refresh {
            let last = rest.skip(1);
            assert(rest[0] == run[1]);
            if let Reply::Difference(diff) = rest[0].reply {
                if differs(diff@) {
                    assert(last[0] == run[2]);
                    if last.len() > 1 {
                        assert(last[1] == run[3]);
                    }
                } else {
                    lemma_prepared_deployment(
                        Seq::empty(),
                        source,
                        cache,
                        target,
                        handlebars,
                        variables,
                        last,
                        result,
                    );
                    lemma_question_first(rest, result, target.target, cache);
                    lemma_question_first(run, result, target.target, cache);
                    if result is Ok {
                        lemma_rendered_and_copied_later(
                            source,
                            cache,
                            target,
                            handlebars,
                            variables,
                            rest,
                        );
                        lemma_rendered_and_copied_later(
                            source,
                            cache,
                            target,
                            handlebars,
                            variables,
                            run,
                        );
                    }
                }
            }
        }
    }
}

/// Force decides nothing but what to do about what would be skipped: a link that is
/// dealt with unforced is dealt with in the same way when forced. Forced, a link is
/// always deleted, and created or updated whenever its source exists.
pub proof fn law_force_on_symlinks(
    comparison: SymlinkComparison,
    source: PathBuf,
    target: SymbolicTarget,
)
    ensures
        symlink_deletion(comparison, target.target, false).value ==> symlink_deletion(
            comparison,
            target.target,
            true,
        ) == symlink_deletion(comparison, target.target, false),
        symlink_creation(comparison, source, target, false).value ==> symlink_creation(
            comparison,
            source,
            target,
            true,
        ) == symlink_creation(comparison, source, target, false),
        symlink_refresh(comparison, source, target, false).value ==> symlink_refresh(
            comparison,
            source,
            target,
            true,
        ) == symlink_refresh(comparison, source, target, false),
        symlink_deletion(comparison, target.target, true).value,
        symlink_creation(comparison, source, target, true).value == !(
        comparison is OnlyTargetExists || comparison is BothMissing),
        symlink_refresh(comparison, source, target, true).value == !(comparison is OnlyTargetExists
            || comparison is BothMissing),
{
}

/// Force decides nothing but what to do about what would be skipped: a template that
/// is dealt with unforced is dealt with in the same way when forced, except that a
/// changed one is then not compared with what is rendered. Forced, a template is
/// always created and never skipped when updated, and deleted whenever its cached
/// file exists.
pub proof fn law_force_on_templates(
    comparison: TemplateComparison,
    source: PathBuf,
    cache: PathBuf,
    target: TemplateTarget,
    handlebars: Handlebars<'_>,
    variables: Variables,
    diff_context_lines: usize,
)
    ensures
        template_deletion(comparison, cache, target.target, false).value ==> template_deletion(
            comparison,
            cache,
            target.target,
            true,
        ) == template_deletion(comparison, cache, target.target, false),
        template_deletion(comparison, cache, target.target, true).value == !(
        comparison is OnlyTargetExists || comparison is BothMissing),
        template_creation(comparison, target, false) is Some ==> template_creation(
            comparison,
            target,
            true,
        ) == template_creation(comparison, target, false),
        template_creation(comparison, target, true) is Some,
        ({
            let unforced = template_refresh(
                comparison,
                source,
                target,
                handlebars,
                variables,
                false,
                diff_context_lines,
            );
            let forced = template_refresh(
                comparison,
                source,
                target,
                handlebars,
                variables,
                true,
                diff_context_lines,
            );
            &&& unforced is Deploy || unforced == TemplateRefresh::Leave { value: true } ==> forced
                == unforced
            &&& forced is Deploy || forced == TemplateRefresh::Leave { value: true }
        }),
{
}

/// Force decides nothing but what to do about what would be skipped: a copy that is
/// dealt with unforced is dealt with in the same way when forced. Forced, a copy is
/// always deleted, created and updated, as long as its source has a checksum.
pub proof fn law_force_on_copies(
    source_hash: u64,
    target_hash: FileHash,
    source: PathBuf,
    target: CopyTarget,
    cached: CopyEntry,
)
    ensures
        copy_deletion(target_hash, cached, false).value ==> copy_deletion(target_hash, cached, true)
            == copy_deletion(target_hash, cached, false),
        copy_deletion(target_hash, cached, true).value,
        copy_creation(source_hash, target_hash, source, target, false).value is Some
            ==> copy_creation(source_hash, target_hash, source, target, true) == copy_creation(
            source_hash,
            target_hash,
            source,
            target,
            false,
        ),
        copy_creation(source_hash, target_hash, source, target, true).value is Some,
        copy_refresh(source_hash, target_hash, source, target, cached, false).value is Some
            ==> copy_refresh(source_hash, target_hash, source, target, cached, true)
            == copy_refresh(source_hash, target_hash, source, target, cached, false),
        copy_refresh(source_hash, target_hash, source, target, cached, true).value is Some,
{
}

} // verus!
