//! What the parts that the operations are made of come to: reports of failures, replies,
//! stretches of a history, and answers from a list.
use crate::difference::Diff;
use crate::error::{in_task, parent_with_context, with_context, Cause, Context, Error};
use crate::filesystem::{
    difference_reply, done, hash_reply, symlink_reply, template_reply, text_reply, Event, FileHash,
    Reply, SymlinkComparison, TemplateComparison,
};
use crate::outside::{owned, parent_of};
use crate::plan::since;
use crate::script::{
    as_difference, as_done, as_hash, as_symlink, as_template, as_text, later_answers, next_answer,
    Fault,
};
use std::path::Path;
use vstd::prelude::*;

verus! {

/// Giving a failure its context keeps its cause; a success stays what it is.
pub proof fn law_with_context<T, E>(
    result: Result<T, E>,
    context: Context,
    reported: Result<T, Error<E>>,
)
    requires
        call_ensures(with_context::<T, E>, (result, context), reported),
    ensures
        result matches Ok(value) ==> reported == Ok::<T, Error<E>>(value),
        result matches Err(cause) ==> (reported matches Err(error) && error.task is None
            && error.context == context && error.cause == Cause::Filesystem(cause)),
{
}

/// Taking a failure as part of a larger task changes nothing else about it; a success
/// stays what it is.
pub proof fn law_in_task<T, E>(
    result: Result<T, Error<E>>,
    task: Context,
    reported: Result<T, Error<E>>,
)
    requires
        call_ensures(in_task::<T, E>, (result, task), reported),
    ensures
        result matches Ok(value) ==> reported == Ok::<T, Error<E>>(value),
        result matches Err(failed) ==> (reported matches Err(error) && error.task == Some(task)
            && error.context == failed.context && error.cause == failed.cause),
{
}

/// The directory of a path is what it is reported to be, and nothing else is reported
/// missing.
pub proof fn law_parent_with_context<E>(
    path: &Path,
    context: Context,
    reported: Result<&Path, Error<E>>,
)
    requires
        call_ensures(parent_with_context::<E>, (path, context), reported),
    ensures
        parent_of(owned(path)) matches Some(directory) ==> (reported matches Ok(found) && owned(
            found,
        ) == directory),
        parent_of(owned(path)) is None ==> (reported matches Err(error) && error.task is None
            && error.context == context && error.cause is NoParent),
{
}

/// What is recorded of a call is what it returned.
pub proof fn law_replies<E>(
    unit: Result<(), E>,
    link: Result<SymlinkComparison, E>,
    template: Result<TemplateComparison, E>,
    hash: Result<FileHash, E>,
    text: Result<String, E>,
    difference: Result<Diff, E>,
)
    ensures
        unit is Ok ==> done(unit) == Reply::<E>::Done,
        unit matches Err(error) ==> done(unit) == Reply::Failed(error),
        link matches Ok(value) ==> symlink_reply(link) == Reply::<E>::Symlink(value),
        link matches Err(error) ==> symlink_reply(link) == Reply::Failed(error),
        template matches Ok(value) ==> template_reply(template) == Reply::<E>::Template(value),
        template matches Err(error) ==> template_reply(template) == Reply::Failed(error),
        hash matches Ok(value) ==> hash_reply(hash) == Reply::<E>::Hash(value),
        hash matches Err(error) ==> hash_reply(hash) == Reply::Failed(error),
        text matches Ok(value) ==> text_reply(text) == Reply::<E>::Text(value),
        text matches Err(error) ==> text_reply(text) == Reply::Failed(error),
        difference matches Ok(value) ==> difference_reply(difference) == Reply::<E>::Difference(
            value,
        ),
        difference matches Err(error) ==> difference_reply(difference) == Reply::Failed(error),
{
}

/// What was added to a history makes it what it is now.
pub proof fn law_since<E>(before: Seq<Event<E>>, added: Seq<Event<E>>, after: Seq<Event<E>>)
    ensures
        before.is_prefix_of(after) ==> before + since(before, after) == after,
        since(before, before + added) == added,
{
    if before.is_prefix_of(after) {
        assert(before + since(before, after) =~= after);
    }
    assert(since(before, before + added) =~= added);
}

/// Answers are given in the order of the list, each once.
pub proof fn law_answers_come_in_order(first: Reply<Fault>, rest: Seq<Reply<Fault>>)
    ensures
        next_answer(seq![first] + rest) == Some(first),
        later_answers(seq![first] + rest) == rest,
        next_answer(Seq::empty()) is None,
        later_answers(Seq::empty()) == Seq::<Reply<Fault>>::empty(),
{
    assert(later_answers(seq![first] + rest) =~= rest);
}

/// An answer that fits the call is recorded as it was written down; one that does not,
/// and one that is missing, is a failure.
pub proof fn law_answers_are_given(answer: Reply<Fault>)
    ensures
        done(as_done(Some(answer))) == if answer is Done || answer is Failed {
            answer
        } else {
            Reply::Failed(Fault::Unscripted)
        },
        symlink_reply(as_symlink(Some(answer))) == if answer is Symlink || answer is Failed {
            answer
        } else {
            Reply::Failed(Fault::Unscripted)
        },
        template_reply(as_template(Some(answer))) == if answer is Template || answer is Failed {
            answer
        } else {
            Reply::Failed(Fault::Unscripted)
        },
        hash_reply(as_hash(Some(answer))) == if answer is Hash || answer is Failed {
            answer
        } else {
            Reply::Failed(Fault::Unscripted)
        },
        text_reply(as_text(Some(answer))) == if answer is Text || answer is Failed {
            answer
        } else {
            Reply::Failed(Fault::Unscripted)
        },
        difference_reply(as_difference(Some(answer))) == if answer is Difference
            || answer is Failed {
            answer
        } else {
            Reply::Failed(Fault::Unscripted)
        },
        as_done(None) is Err && as_symlink(None) is Err && as_template(None) is Err && as_hash(
            None,
        ) is Err && as_text(None) is Err && as_difference(None) is Err,
{
}

} // verus!
