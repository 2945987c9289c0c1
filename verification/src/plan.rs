//! Plans: lists of steps that are carried out one after the other, up to the
//! first that fails.
use crate::config::UnixUser;
use crate::error::{Cause, Context, Error};
use crate::filesystem::{Call, Event, Reply};
use crate::outside::parent_of;
use std::path::PathBuf;
use vstd::prelude::*;

verus! {

/// A step of a plan.
pub enum Step {
    /// A call of the file system, and what its failure is reported as.
    Perform { call: Call, task: Option<Context>, context: Context },
    /// A call that only shows something and cannot fail.
    Show { call: Call },
    /// A path has no parent directory: the operation ends here.
    NoParent { task: Option<Context>, context: Context },
}

/// The call that a step makes, if it makes one.
pub open spec fn call_of(step: Step) -> Option<Call> {
    match step {
        Step::Perform { call, .. } => Some(call),
        Step::Show { call } => Some(call),
        Step::NoParent { .. } => None,
    }
}

/// The step that makes `call`.
pub open spec fn step(call: Call, context: Context) -> Step {
    Step::Perform { call, task: None, context }
}

/// The step that creates the directory that a deployed file is in.
pub open spec fn create_target_parent(target: PathBuf, owner: Option<UnixUser>) -> Step {
    create_parent(target, owner, Context::GetParentOfTarget, Context::CreateParentForTarget)
}

/// The step that creates the directory that `path` is in.
pub open spec fn create_parent(
    path: PathBuf,
    owner: Option<UnixUser>,
    lookup: Context,
    creation: Context,
) -> Step {
    match parent_of(path) {
        Some(dir) => step(Call::CreateDirAll { path: dir, owner }, creation),
        None => Step::NoParent { task: None, context: lookup },
    }
}

/// `steps` as parts of the larger task `task`.
pub open spec fn steps_within(steps: Seq<Step>, task: Context) -> Seq<Step> {
    steps.map_values(
        |step: Step|
            match step {
                Step::Perform { call, context, .. } => Step::Perform {
                    call,
                    task: Some(task),
                    context,
                },
                Step::Show { call } => Step::Show { call },
                Step::NoParent { context, .. } => Step::NoParent { task: Some(task), context },
            },
    )
}

/// All of `steps` were performed, in order and with success, at the start of `run`.
pub open spec fn all_done<E>(steps: Seq<Step>, run: Seq<Event<E>>) -> bool
    decreases steps.len(),
{
    steps.len() > 0 ==> {
        &&& run.len() > 0
        &&& call_of(steps[0]) == Some(run[0].call)
        &&& run[0].reply is Done
        &&& all_done(steps.skip(1), run.skip(1))
    }
}

/// `run` is what was performed of `steps` until one of them failed; nothing was
/// performed after that one, and `error` reports its failure.
pub open spec fn stopped<E>(steps: Seq<Step>, run: Seq<Event<E>>, error: Error<E>) -> bool
    decreases steps.len(),
{
    &&& steps.len() > 0
    &&& match steps[0] {
        Step::NoParent { task, context } => {
            &&& run.len() == 0
            &&& error == Error { task, context, cause: Cause::<E>::NoParent }
        },
        Step::Show { call } => {
            &&& run.len() > 0
            &&& run[0].call == call
            &&& run[0].reply is Done
            &&& stopped(steps.skip(1), run.skip(1), error)
        },
        Step::Perform { call, task, context } => {
            &&& run.len() > 0
            &&& run[0].call == call
            &&& match run[0].reply {
                Reply::Failed(cause) => {
                    &&& run.len() == 1
                    &&& error == Error { task, context, cause: Cause::Filesystem(cause) }
                },
                Reply::Done => stopped(steps.skip(1), run.skip(1), error),
                _ => false,
            }
        },
    }
}

/// `run` and `result` come of carrying out `steps` and then returning `value`:
/// either every step succeeded and nothing else was done, or the first step that
/// failed ended it.
pub open spec fn carried_out<T, E>(
    steps: Seq<Step>,
    value: T,
    run: Seq<Event<E>>,
    result: Result<T, Error<E>>,
) -> bool {
    match result {
        Ok(returned) => all_done(steps, run) && run.len() == steps.len() && returned == value,
        Err(error) => stopped(steps, run, error),
    }
}

/// What an operation has decided on: the steps to carry out, and what it returns
/// when all of them have succeeded.
pub struct Plan<T> {
    pub steps: Seq<Step>,
    pub value: T,
}

impl<T> Plan<T> {
    /// The plan that does nothing but return `value`.
    pub open spec fn nothing(value: T) -> Plan<T> {
        Plan { steps: Seq::empty(), value }
    }

    /// `run` and `result` come of carrying out the plan.
    pub open spec fn carried_out<E>(self, run: Seq<Event<E>>, result: Result<T, Error<E>>) -> bool {
        carried_out(self.steps, self.value, run, result)
    }
}

/// `run` consists of one call, which failed, and `result` reports just that.
pub open spec fn gave_up<T, E>(
    run: Seq<Event<E>>,
    context: Context,
    error: E,
    result: Result<T, Error<E>>,
) -> bool {
    &&& run.len() == 1
    &&& result == Err::<T, Error<E>>(Error::of(context, Cause::Filesystem(error)))
}

/// What was added to a history between two moments.
pub open spec fn since<E>(before: Seq<Event<E>>, after: Seq<Event<E>>) -> Seq<Event<E>> {
    after.skip(before.len() as int)
}

/// Histories only grow, and what was added in two stretches was added in all.
pub proof fn lemma_since<E>(before: Seq<Event<E>>, between: Seq<Event<E>>, after: Seq<Event<E>>)
    requires
        before.is_prefix_of(between),
        between.is_prefix_of(after),
    ensures
        before.is_prefix_of(after),
        since(before, after).skip(between.len() - before.len()) == since(between, after),
        since(before, after) == since(before, between) + since(between, after),
{
    assert(since(before, after).skip(between.len() - before.len()) =~= since(between, after));
    assert(since(before, after) =~= since(before, between) + since(between, after));
}

/// Being part of a larger task changes nothing but what a failure is reported as.
pub proof fn lemma_within<E>(steps: Seq<Step>, task: Context, run: Seq<Event<E>>)
    ensures
        all_done(steps_within(steps, task), run) == all_done(steps, run),
        forall|error: Error<E>| #[trigger]
            stopped(steps, run, error) ==> stopped(
                steps_within(steps, task),
                run,
                Error { task: Some(task), ..error },
            ),
    decreases steps.len(),
{
    if steps.len() > 0 {
        let rest = steps.skip(1);
        assert(steps_within(steps, task).skip(1) =~= steps_within(rest, task));
        if run.len() > 0 {
            lemma_within(rest, task, run.skip(1));
        }
        assert forall|error: Error<E>| #[trigger] stopped(steps, run, error) implies stopped(
            steps_within(steps, task),
            run,
            Error { task: Some(task), ..error },
        ) by {
            if run.len() > 0 && run[0].reply is Done {
                assert(stopped(rest, run.skip(1), error));
            }
        }
    }
}

/// One list of steps after another: the second is begun when the first has
/// succeeded, and not begun when it has failed.
pub proof fn lemma_in_turn<E>(first: Seq<Step>, second: Seq<Step>, run: Seq<Event<E>>)
    ensures
        all_done(first + second, run) == (all_done(first, run) && all_done(
            second,
            run.skip(first.len() as int),
        )),
        forall|error: Error<E>| #[trigger]
            stopped(first + second, run, error) == (stopped(first, run, error) || (all_done(
                first,
                run,
            ) && stopped(second, run.skip(first.len() as int), error))),
    decreases first.len(),
{
    if first.len() == 0 {
        assert(first + second =~= second);
        assert(run.skip(0) =~= run);
        assert forall|error: Error<E>| #[trigger] stopped(first + second, run, error) == (stopped(
            first,
            run,
            error,
        ) || (all_done(first, run) && stopped(
            second,
            run.skip(first.len() as int),
            error,
        ))) by {}
    } else {
        let rest = first.skip(1);
        assert((first + second).skip(1) =~= rest + second);
        if run.len() > 0 {
            let later = run.skip(1);
            lemma_in_turn(rest, second, later);
            if run.len() >= first.len() {
                assert(later.skip(rest.len() as int) =~= run.skip(first.len() as int));
            } else if all_done(rest, later) {
                lemma_done_takes_a_call_each(rest, later);
            }
            assert forall|error: Error<E>| #[trigger] stopped(first + second, run, error) == (
            stopped(first, run, error) || (all_done(first, run) && stopped(
                second,
                run.skip(first.len() as int),
                error,
            ))) by {
                assert(stopped(rest + second, later, error) == (stopped(rest, later, error) || (
                all_done(rest, later) && stopped(second, later.skip(rest.len() as int), error))));
            }
        }
    }
}

/// What was done stays done, whatever comes after it.
pub proof fn lemma_done_in_longer_run<E>(
    steps: Seq<Step>,
    run: Seq<Event<E>>,
    later: Seq<Event<E>>,
)
    requires
        all_done(steps, run),
    ensures
        all_done(steps, run + later),
    decreases steps.len(),
{
    if steps.len() > 0 {
        assert((run + later).skip(1) =~= run.skip(1) + later);
        lemma_done_in_longer_run(steps.skip(1), run.skip(1), later);
    }
}

/// Every step that was performed shows in the run.
pub proof fn lemma_done_takes_a_call_each<E>(steps: Seq<Step>, run: Seq<Event<E>>)
    requires
        all_done(steps, run),
    ensures
        run.len() >= steps.len(),
    decreases steps.len(),
{
    if steps.len() > 0 {
        lemma_done_takes_a_call_each(steps.skip(1), run.skip(1));
    }
}

} // verus!
