//! How an operation goes is determined by what the file system comes back with.
use crate::config::{CopyEntry, CopyTarget, SymbolicTarget, TemplateTarget, Variables};
use crate::create::{
    copy_created, copy_creation, symlink_created, symlink_creation, template_created,
    template_creation,
};
use crate::delete::{
    copy_deleted, copy_deletion, symlink_deleted, symlink_deletion, template_deleted,
    template_deletion,
};
use crate::deploy::{
    deployed_after, rendered_deployed, rendered_deployment, template_deployed, template_text,
};
use crate::difference::differs;
use crate::error::Error;
use crate::filesystem::{Call, Event, FileHash, Reply};
use crate::outside::may_render;
use crate::plan::{
    all_done, call_of, carried_out, lemma_done_takes_a_call_each, stopped, Step,
};
use crate::update::{
    copy_refresh, copy_updated, symlink_refresh, symlink_updated, template_refresh,
    template_updated, TemplateRefresh,
};
use handlebars::{Handlebars, RenderError};
use std::path::PathBuf;
use vstd::prelude::*;

verus! {

/// The calls of two runs came back with the same, as far as both went.
pub open spec fn same_replies<E>(one: Seq<Event<E>>, other: Seq<Event<E>>) -> bool {
    forall|i: int|
        0 <= i < one.len() && i < other.len() ==> (#[trigger] one[i]).reply == (#[trigger]
        other[i]).reply
}

/// A plan that meets with the same replies takes the same course.
proof fn lemma_carried_out_alike<T, E>(
    steps: Seq<Step>,
    value: T,
    one: Seq<Event<E>>,
    first: Result<T, Error<E>>,
    other: Seq<Event<E>>,
    second: Result<T, Error<E>>,
)
    requires
        carried_out(steps, value, one, first),
        carried_out(steps, value, other, second),
        same_replies(one, other),
    ensures
        one == other,
        first == second,
    decreases steps.len(),
{
    if one.len() > 0 && other.len() > 0 {
        assert(one[0].reply == other[0].reply);
        assert(one[0].call == other[0].call);
        if one[0].reply is Done {
            lemma_same_replies_later(one, other);
            lemma_carried_out_alike(
                steps.skip(1),
                value,
                one.skip(1),
                first,
                other.skip(1),
                second,
            );
            lemma_same_run(one, other);
        } else {
            assert(one =~= other);
        }
    } else {
        assert(one =~= other);
    }
}

/// Runs that meet with the same replies still do after their first call.
proof fn lemma_same_replies_later<E>(one: Seq<Event<E>>, other: Seq<Event<E>>)
    requires
        same_replies(one, other),
        one.len() > 0,
        other.len() > 0,
    ensures
        same_replies(one.skip(1), other.skip(1)),
{
    let later_one = one.skip(1);
    let later_other = other.skip(1);
    assert forall|i: int| 0 <= i < later_one.len() && i < later_other.len() implies (#[trigger]
    later_one[i]).reply == (#[trigger] later_other[i]).reply by {
        assert(later_one[i] == one[i + 1]);
        assert(later_other[i] == other[i + 1]);
    }
}

/// Runs with the same first call and the same calls after it.
proof fn lemma_same_run<E>(one: Seq<Event<E>>, other: Seq<Event<E>>)
    requires
        one.len() > 0,
        other.len() > 0,
        one[0] == other[0],
        one.skip(1) == other.skip(1),
    ensures
        one == other,
{
    assert(one =~= seq![one[0]] + one.skip(1));
    assert(other =~= seq![other[0]] + other.skip(1));
}

/// How deleting a symbolic link goes is determined by what the calls come back with.
pub proof fn law_symlink_deletion_is_determined<E>(
    source: PathBuf,
    target: PathBuf,
    force: bool,
    one: Seq<Event<E>>,
    first: Result<bool, Error<E>>,
    other: Seq<Event<E>>,
    second: Result<bool, Error<E>>,
)
    requires
        symlink_deleted(source, target, force, one, first),
        symlink_deleted(source, target, force, other, second),
        same_replies(one, other),
    ensures
        one == other,
        first == second,
{
    assert(one[0].reply == other[0].reply);
    if let Reply::Symlink(comparison) = one[0].reply {
        let plan = symlink_deletion(comparison, target, force);
        lemma_same_replies_later(one, other);
        lemma_carried_out_alike(
            plan.steps,
            plan.value,
            one.skip(1),
            first,
            other.skip(1),
            second,
        );
        lemma_same_run(one, other);
    } else {
        assert(one =~= other);
    }
}

/// How deleting a template goes is determined by what the calls come back with.
pub proof fn law_template_deletion_is_determined<E>(
    cache: PathBuf,
    target: PathBuf,
    force: bool,
    one: Seq<Event<E>>,
    first: Result<bool, Error<E>>,
    other: Seq<Event<E>>,
    second: Result<bool, Error<E>>,
)
    requires
        template_deleted(cache, target, force, one, first),
        template_deleted(cache, target, force, other, second),
        same_replies(one, other),
    ensures
        one == other,
        first == second,
{
    assert(one[0].reply == other[0].reply);
    if let Reply::Template(comparison) = one[0].reply {
        let plan = template_deletion(comparison, cache, target, force);
        lemma_same_replies_later(one, other);
        lemma_carried_out_alike(
            plan.steps,
            plan.value,
            one.skip(1),
            first,
            other.skip(1),
            second,
        );
        lemma_same_run(one, other);
    } else {
        assert(one =~= other);
    }
}

/// How deleting a copy goes is determined by what the calls come back with.
pub proof fn law_copy_deletion_is_determined<E>(
    cached: CopyEntry,
    force: bool,
    one: Seq<Event<E>>,
    first: Result<bool, Error<E>>,
    other: Seq<Event<E>>,
    second: Result<bool, Error<E>>,
)
    requires
        copy_deleted(cached, force, one, first),
        copy_deleted(cached, force, other, second),
        same_replies(one, other),
    ensures
        one == other,
        first == second,
{
    assert(one[0].reply == other[0].reply);
    if let Reply::Hash(hash) = one[0].reply {
        let plan = copy_deletion(hash, cached, force);
        lemma_same_replies_later(one, other);
        lemma_carried_out_alike(
            plan.steps,
            plan.value,
            one.skip(1),
            first,
            other.skip(1),
            second,
        );
        lemma_same_run(one, other);
    } else {
        assert(one =~= other);
    }
}

/// How creating a symbolic link goes is determined by what the calls come back with.
pub proof fn law_symlink_creation_is_determined<E>(
    source: PathBuf,
    target: SymbolicTarget,
    force: bool,
    one: Seq<Event<E>>,
    first: Result<bool, Error<E>>,
    other: Seq<Event<E>>,
    second: Result<bool, Error<E>>,
)
    requires
        symlink_created(source, target, force, one, first),
        symlink_created(source, target, force, other, second),
        same_replies(one, other),
    ensures
        one == other,
        first == second,
{
    assert(one[0].reply == other[0].reply);
    if let Reply::Symlink(comparison) = one[0].reply {
        let plan = symlink_creation(comparison, source, target, force);
        lemma_same_replies_later(one, other);
        lemma_carried_out_alike(
            plan.steps,
            plan.value,
            one.skip(1),
            first,
            other.skip(1),
            second,
        );
        lemma_same_run(one, other);
    } else {
        assert(one =~= other);
    }
}

/// How updating a symbolic link goes is determined by what the calls come back with.
pub proof fn law_symlink_update_is_determined<E>(
    source: PathBuf,
    target: SymbolicTarget,
    force: bool,
    one: Seq<Event<E>>,
    first: Result<bool, Error<E>>,
    other: Seq<Event<E>>,
    second: Result<bool, Error<E>>,
)
    requires
        symlink_updated(source, target, force, one, first),
        symlink_updated(source, target, force, other, second),
        same_replies(one, other),
    ensures
        one == other,
        first == second,
{
    assert(one[0].reply == other[0].reply);
    if let Reply::Symlink(comparison) = one[0].reply {
        let plan = symlink_refresh(comparison, source, target, force);
        lemma_same_replies_later(one, other);
        lemma_carried_out_alike(
            plan.steps,
            plan.value,
            one.skip(1),
            first,
            other.skip(1),
            second,
        );
        lemma_same_run(one, other);
    } else {
        assert(one =~= other);
    }
}

/// How creating a copy goes is determined by what the calls come back with.
pub proof fn law_copy_creation_is_determined<E>(
    source: PathBuf,
    target: CopyTarget,
    force: bool,
    one: Seq<Event<E>>,
    first: Result<Option<CopyEntry>, Error<E>>,
    other: Seq<Event<E>>,
    second: Result<Option<CopyEntry>, Error<E>>,
)
    requires
        copy_created(source, target, force, one, first),
        copy_created(source, target, force, other, second),
        same_replies(one, other),
    ensures
        one == other,
        first == second,
{
    assert(one[0].reply == other[0].reply);
    if let Reply::Hash(FileHash::Hash(source_hash)) = one[0].reply {
        let one_later = one.skip(1);
        let other_later = other.skip(1);
        lemma_same_replies_later(one, other);
        assert(one_later[0].reply == other_later[0].reply);
        if let Reply::Hash(target_hash) = one_later[0].reply {
            let plan = copy_creation(source_hash, target_hash, source, target, force);
            lemma_same_replies_later(one_later, other_later);
            lemma_carried_out_alike(
                plan.steps,
                plan.value,
                one_later.skip(1),
                first,
                other_later.skip(1),
                second,
            );
            lemma_same_run(one_later, other_later);
        } else {
            assert(one_later =~= other_later);
        }
        lemma_same_run(one, other);
    } else {
        assert(one =~= other);
    }
}

/// How updating a copy goes is determined by what the calls come back with.
pub proof fn law_copy_update_is_determined<E>(
    source: PathBuf,
    target: CopyTarget,
    cached: CopyEntry,
    force: bool,
    one: Seq<Event<E>>,
    first: Result<Option<CopyEntry>, Error<E>>,
    other: Seq<Event<E>>,
    second: Result<Option<CopyEntry>, Error<E>>,
)
    requires
        copy_updated(source, target, cached, force, one, first),
        copy_updated(source, target, cached, force, other, second),
        same_replies(one, other),
    ensures
        one == other,
        first == second,
{
    assert(one[0].reply == other[0].reply);
    if let Reply::Hash(FileHash::Hash(source_hash)) = one[0].reply {
        let one_later = one.skip(1);
        let other_later = other.skip(1);
        lemma_same_replies_later(one, other);
        assert(one_later[0].reply == other_later[0].reply);
        if let Reply::Hash(target_hash) = one_later[0].reply {
            let plan = copy_refresh(
                source_hash,
                target_hash,
                source,
                target,
                cached,
                force,
            );
            lemma_same_replies_later(one_later, other_later);
            lemma_carried_out_alike(
                plan.steps,
                plan.value,
                one_later.skip(1),
                first,
                other_later.skip(1),
                second,
            );
            lemma_same_run(one_later, other_later);
        } else {
            assert(one_later =~= other_later);
        }
        lemma_same_run(one, other);
    } else {
        assert(one =~= other);
    }
}

/// How deploying a rendered template goes is determined by what rendering and the
/// calls come back with.
pub proof fn law_rendered_deployment_is_determined<E>(
    source: PathBuf,
    cache: PathBuf,
    target: Option<&TemplateTarget>,
    outcome: Result<String, RenderError>,
    one: Seq<Event<E>>,
    first: Result<(), Error<E>>,
    other: Seq<Event<E>>,
    second: Result<(), Error<E>>,
)
    requires
        rendered_deployed(source, cache, target, outcome, one, first),
        rendered_deployed(source, cache, target, outcome, other, second),
        same_replies(one, other),
    ensures
        one == other,
        first == second,
{
    if let Ok(rendered) = outcome {
        lemma_carried_out_alike(
            rendered_deployment(source, cache, target, rendered),
            (),
            one,
            first,
            other,
            second,
        );
    } else {
        assert(one =~= other);
    }
}

/// Rendering `text` with this registry and these variables has one outcome: no helper
/// that it uses brings in anything else.
pub open spec fn renders_alike(
    handlebars: Handlebars<'_>,
    text: Seq<char>,
    variables: Variables,
) -> bool {
    forall|one: Result<String, RenderError>, other: Result<String, RenderError>|
        #[trigger] may_render(handlebars, text, variables, one) && #[trigger] may_render(
            handlebars,
            text,
            variables,
            other,
        ) ==> one == other
}

/// Every text that was read in `run` renders alike each time, in the form that
/// `target` gives it. Nothing is asked of any other text.
pub open spec fn texts_read_render_alike<E>(
    handlebars: Handlebars<'_>,
    target: TemplateTarget,
    variables: Variables,
    run: Seq<Event<E>>,
) -> bool {
    forall|i: int|
        0 <= i < run.len() ==> match (#[trigger] run[i]).reply {
            Reply::Text(contents) => renders_alike(
                handlebars,
                target.template_text(contents@),
                variables,
            ),
            _ => true,
        }
}

/// What was read after the first call of a run was read in the run.
proof fn lemma_texts_read_later<E>(
    handlebars: Handlebars<'_>,
    target: TemplateTarget,
    variables: Variables,
    run: Seq<Event<E>>,
)
    requires
        texts_read_render_alike(handlebars, target, variables, run),
        run.len() > 0,
    ensures
        texts_read_render_alike(handlebars, target, variables, run.skip(1)),
{
    let later = run.skip(1);
    assert forall|i: int| 0 <= i < later.len() implies match (#[trigger] later[i]).reply {
        Reply::Text(contents) => renders_alike(
            handlebars,
            target.template_text(contents@),
            variables,
        ),
        _ => true,
    } by {
        assert(later[i] == run[i + 1]);
    }
}

/// A deployment that meets with the same replies takes the same course.
proof fn lemma_deployed_alike<E>(
    preparation: Seq<Step>,
    source: PathBuf,
    cache: PathBuf,
    target: TemplateTarget,
    handlebars: Handlebars<'_>,
    variables: Variables,
    one: Seq<Event<E>>,
    first: Result<bool, Error<E>>,
    other: Seq<Event<E>>,
    second: Result<bool, Error<E>>,
)
    requires
        texts_read_render_alike(handlebars, target, variables, one),
        deployed_after(preparation, source, cache, target, handlebars, variables, one, first),
        deployed_after(preparation, source, cache, target, handlebars, variables, other, second),
        same_replies(one, other),
    ensures
        one == other,
        first == second,
    decreases preparation.len(),
{
    if preparation.len() == 0 {
        assert(one.skip(0) =~= one);
        assert(other.skip(0) =~= other);
        let one_result = match first {
            Ok(_) => Ok(()),
            Err(error) => Err(Error { task: None, ..error }),
        };
        let other_result = match second {
            Ok(_) => Ok(()),
            Err(error) => Err(Error { task: None, ..error }),
        };
        assert(one[0].reply == other[0].reply);
        if let Reply::Text(contents) = one[0].reply {
            let text = template_text(Some(&target), contents@);
            let one_outcome = choose|outcome: Result<String, RenderError>| #[trigger]
                may_render(handlebars, text, variables, outcome) && rendered_deployed(
                    source,
                    cache,
                    Some(&target),
                    outcome,
                    one.skip(1),
                    one_result,
                );
            let other_outcome = choose|outcome: Result<String, RenderError>| #[trigger]
                may_render(handlebars, text, variables, outcome) && rendered_deployed(
                    source,
                    cache,
                    Some(&target),
                    outcome,
                    other.skip(1),
                    other_result,
                );
            assert(one_outcome == other_outcome);
            lemma_same_replies_later(one, other);
            law_rendered_deployment_is_determined(
                source,
                cache,
                Some(&target),
                one_outcome,
                one.skip(1),
                one_result,
                other.skip(1),
                other_result,
            );
            lemma_same_run(one, other);
        } else {
            assert(one =~= other);
        }
    } else if one.len() > 0 && other.len() > 0 && one[0].reply is Done {
        assert(one[0].reply == other[0].reply);
        lemma_same_replies_later(one, other);
        lemma_texts_read_later(handlebars, target, variables, one);
        lemma_deployed_after_first_step(
            preparation,
            source,
            cache,
            target,
            handlebars,
            variables,
            one,
            first,
        );
        lemma_deployed_after_first_step(
            preparation,
            source,
            cache,
            target,
            handlebars,
            variables,
            other,
            second,
        );
        lemma_deployed_alike(
            preparation.skip(1),
            source,
            cache,
            target,
            handlebars,
            variables,
            one.skip(1),
            first,
            other.skip(1),
            second,
        );
        lemma_same_run(one, other);
    } else {
        if one.len() > 0 && other.len() > 0 {
            assert(one[0].reply == other[0].reply);
        }
        assert(one =~= other);
    }
}

/// What is left to do when the first step of a preparation has been performed.
pub(crate) proof fn lemma_deployed_after_first_step<E>(
    preparation: Seq<Step>,
    source: PathBuf,
    cache: PathBuf,
    target: TemplateTarget,
    handlebars: Handlebars<'_>,
    variables: Variables,
    run: Seq<Event<E>>,
    result: Result<bool, Error<E>>,
)
    requires
        deployed_after(preparation, source, cache, target, handlebars, variables, run, result),
        preparation.len() > 0,
        run.len() > 0,
        run[0].reply is Done,
    ensures
        deployed_after(
            preparation.skip(1),
            source,
            cache,
            target,
            handlebars,
            variables,
            run.skip(1),
            result,
        ),
        call_of(preparation[0]) == Some(run[0].call),
{
    let later = preparation.skip(1);
    let rest = run.skip(1);
    if all_done(later, rest) {
        lemma_done_takes_a_call_each(later, rest);
        assert(rest.skip(later.len() as int) =~= run.skip(preparation.len() as int));
    }
}

/// How creating a template goes is determined by what the calls come back with, as
/// long as the text that is read renders alike each time.
pub proof fn law_template_creation_is_determined<E>(
    source: PathBuf,
    cache: PathBuf,
    target: TemplateTarget,
    handlebars: Handlebars<'_>,
    variables: Variables,
    force: bool,
    one: Seq<Event<E>>,
    first: Result<bool, Error<E>>,
    other: Seq<Event<E>>,
    second: Result<bool, Error<E>>,
)
    requires
        texts_read_render_alike(handlebars, target, variables, one),
        template_created(source, cache, target, handlebars, variables, force, one, first),
        template_created(source, cache, target, handlebars, variables, force, other, second),
        same_replies(one, other),
    ensures
        one == other,
        first == second,
{
    assert(one[0].reply == other[0].reply);
    if let Reply::Template(comparison) = one[0].reply {
        let one_later = one.skip(1);
        let other_later = other.skip(1);
        lemma_same_replies_later(one, other);
        lemma_texts_read_later(handlebars, target, variables, one);
        if let Some(preparation) = template_creation(comparison, target, force) {
            lemma_deployed_alike(
                preparation,
                source,
                cache,
                target,
                handlebars,
                variables,
                one_later,
                first,
                other_later,
                second,
            );
        } else {
            assert(one_later =~= other_later);
        }
        lemma_same_run(one, other);
    } else {
        assert(one =~= other);
    }
}

/// How updating a template goes is determined by what the calls come back with, as
/// long as the text that is read renders alike each time.
pub proof fn law_template_update_is_determined<E>(
    source: PathBuf,
    cache: PathBuf,
    target: TemplateTarget,
    handlebars: Handlebars<'_>,
    variables: Variables,
    force: bool,
    diff_context_lines: usize,
    one: Seq<Event<E>>,
    first: Result<bool, Error<E>>,
    other: Seq<Event<E>>,
    second: Result<bool, Error<E>>,
)
    requires
        texts_read_render_alike(handlebars, target, variables, one),
        template_updated(
            source,
            cache,
            target,
            handlebars,
            variables,
            force,
            diff_context_lines,
            one,
            first,
        ),
        template_updated(
            source,
            cache,
            target,
            handlebars,
            variables,
            force,
            diff_context_lines,
            other,
            second,
        ),
        same_replies(one, other),
    ensures
        one == other,
        first == second,
{
    assert(one[0].reply == other[0].reply);
    if let Reply::Template(comparison) = one[0].reply {
        let one_later = one.skip(1);
        let other_later = other.skip(1);
        lemma_same_replies_later(one, other);
        lemma_texts_read_later(handlebars, target, variables, one);
        let refresh = template_refresh(
            comparison,
            source,
            target,
            handlebars,
            variables,
            force,
            diff_context_lines,
        );
        if let TemplateRefresh::Deploy { preparation } = refresh {
            lemma_deployed_alike(
                preparation,
                source,
                cache,
                target,
                handlebars,
                variables,
                one_later,
                first,
                other_later,
                second,
            );
        } else if let TemplateRefresh::DeployUnlessDifferent = refresh {
            assert(one_later[0].reply == other_later[0].reply);
            let one_last = one_later.skip(1);
            let other_last = other_later.skip(1);
            lemma_same_replies_later(one_later, other_later);
            lemma_texts_read_later(handlebars, target, variables, one_later);
            if let Reply::Difference(diff) = one_later[0].reply {
                if differs(diff@) {
                    assert(one_last[0].reply == other_last[0].reply);
                    assert(one_last =~= other_last);
                } else {
                    lemma_deployed_alike(
                        Seq::empty(),
                        source,
                        cache,
                        target,
                        handlebars,
                        variables,
                        one_last,
                        first,
                        other_last,
                        second,
                    );
                }
                lemma_same_run(one_later, other_later);
            } else {
                assert(one_later =~= other_later);
            }
        } else {
            assert(one_later =~= other_later);
        }
        lemma_same_run(one, other);
    } else {
        assert(one =~= other);
    }
}

/// A call as it is made when differences are shown with `lines` unchanged lines
/// around each change. Only the two calls that show a difference depend on that.
pub open spec fn shown_with(call: Call, lines: usize) -> Call {
    match call {
        Call::PrintTemplateDiff { source, template, handlebars, variables, .. } =>
            Call::PrintTemplateDiff {
                source,
                template,
                handlebars,
                variables,
                context_lines: lines,
            },
        Call::PrintDiff { diff, .. } => Call::PrintDiff { diff, context_lines: lines },
        other => other,
    }
}

/// `run` with its differences shown with `lines` unchanged lines around each change.
pub open spec fn run_shown_with<E>(run: Seq<Event<E>>, lines: usize) -> Seq<Event<E>> {
    run.map_values(|event: Event<E>| Event { call: shown_with(event.call, lines), ..event })
}

/// `steps` with their differences shown with `lines` unchanged lines around each
/// change.
spec fn steps_shown_with(steps: Seq<Step>, lines: usize) -> Seq<Step> {
    steps.map_values(
        |step: Step|
            match step {
                Step::Perform { call, task, context } => Step::Perform {
                    call: shown_with(call, lines),
                    task,
                    context,
                },
                Step::Show { call } => Step::Show { call: shown_with(call, lines) },
                Step::NoParent { task, context } => Step::NoParent { task, context },
            },
    )
}

/// Steps that failed did not all succeed.
proof fn lemma_stopped_is_not_done<E>(steps: Seq<Step>, run: Seq<Event<E>>, error: Error<E>)
    requires
        stopped(steps, run, error),
    ensures
        !all_done(steps, run),
    decreases steps.len(),
{
    if all_done(steps, run) {
        lemma_stopped_is_not_done(steps.skip(1), run.skip(1), error);
    }
}

/// How differences are shown does not matter to how steps are carried out.
proof fn lemma_steps_shown_with<E>(steps: Seq<Step>, run: Seq<Event<E>>, lines: usize)
    ensures
        all_done(steps, run) ==> all_done(
            steps_shown_with(steps, lines),
            run_shown_with(run, lines),
        ),
        forall|error: Error<E>| #[trigger]
            stopped(steps, run, error) ==> stopped(
                steps_shown_with(steps, lines),
                run_shown_with(run, lines),
                error,
            ),
    decreases steps.len(),
{
    if steps.len() > 0 && run.len() > 0 {
        let rest = steps.skip(1);
        let later = run.skip(1);
        assert(steps_shown_with(steps, lines).skip(1) =~= steps_shown_with(rest, lines));
        assert(run_shown_with(run, lines).skip(1) =~= run_shown_with(later, lines));
        lemma_steps_shown_with(rest, later, lines);
        assert forall|error: Error<E>| #[trigger] stopped(steps, run, error) implies stopped(
            steps_shown_with(steps, lines),
            run_shown_with(run, lines),
            error,
        ) by {
            if run[0].reply is Done {
                assert(stopped(rest, later, error));
            }
        }
    }
}

/// How differences are shown does not matter to how a template is deployed.
proof fn lemma_deployment_shown_with<E>(
    preparation: Seq<Step>,
    source: PathBuf,
    cache: PathBuf,
    target: TemplateTarget,
    handlebars: Handlebars<'_>,
    variables: Variables,
    run: Seq<Event<E>>,
    result: Result<bool, Error<E>>,
    lines: usize,
)
    requires
        deployed_after(preparation, source, cache, target, handlebars, variables, run, result),
    ensures
        deployed_after(
            steps_shown_with(preparation, lines),
            source,
            cache,
            target,
            handlebars,
            variables,
            run_shown_with(run, lines),
            result,
        ),
{
    let shown = run_shown_with(run, lines);
    lemma_steps_shown_with(preparation, run, lines);
    if all_done(preparation, run) {
        lemma_done_takes_a_call_each(preparation, run);
        let rest = run.skip(preparation.len() as int);
        let shown_rest = shown.skip(preparation.len() as int);
        assert(shown_rest =~= run_shown_with(rest, lines));
        let deployed = match result {
            Ok(_) => Ok(()),
            Err(error) => Err(Error { task: None, ..error }),
        };
        if let Reply::Text(contents) = rest[0].reply {
            let text = template_text(Some(&target), contents@);
            let outcome = choose|outcome: Result<String, RenderError>| #[trigger]
                may_render(handlebars, text, variables, outcome) && rendered_deployed(
                    source,
                    cache,
                    Some(&target),
                    outcome,
                    rest.skip(1),
                    deployed,
                );
            assert(shown_rest.skip(1) =~= run_shown_with(rest.skip(1), lines));
            if let Ok(rendered) = outcome {
                let steps = rendered_deployment(source, cache, Some(&target), rendered);
                lemma_steps_shown_with(steps, rest.skip(1), lines);
                assert(steps_shown_with(steps, lines) =~= steps);
            }
            assert(shown_rest[0].reply == rest[0].reply);
            assert(may_render(handlebars, text, variables, outcome) && rendered_deployed(
                source,
                cache,
                Some(&target),
                outcome,
                shown_rest.skip(1),
                deployed,
            ));
        }
        assert(template_deployed(
            source,
            cache,
            Some(&target),
            handlebars,
            variables,
            shown_rest,
            deployed,
        ));
    } else {
        lemma_stopped_is_not_done(steps_shown_with(preparation, lines), shown, result->Err_0);
    }
}

/// The number of context lines matters to what is shown and to nothing else: any
/// course that updating a template can take with one number, it can take with
/// another, with the same calls, replies and result but for the number handed to the
/// calls that show a difference.
pub proof fn law_context_lines_only_matter_to_what_is_shown<E>(
    source: PathBuf,
    cache: PathBuf,
    target: TemplateTarget,
    handlebars: Handlebars<'_>,
    variables: Variables,
    force: bool,
    diff_context_lines: usize,
    other_lines: usize,
    run: Seq<Event<E>>,
    result: Result<bool, Error<E>>,
)
    requires
        template_updated(
            source,
            cache,
            target,
            handlebars,
            variables,
            force,
            diff_context_lines,
            run,
            result,
        ),
    ensures
        template_updated(
            source,
            cache,
            target,
            handlebars,
            variables,
            force,
            other_lines,
            run_shown_with(run, other_lines),
            result,
        ),
{
    let shown = run_shown_with(run, other_lines);
    if let Reply::Template(comparison) = run[0].reply {
        let rest = run.skip(1);
        let shown_rest = shown.skip(1);
        assert(shown_rest =~= run_shown_with(rest, other_lines));
        let refresh = template_refresh(
            comparison,
            source,
            target,
            handlebars,
            variables,
            force,
            diff_context_lines,
        );
        let other_refresh = template_refresh(
            comparison,
            source,
            target,
            handlebars,
            variables,
            force,
            other_lines,
        );
        if let TemplateRefresh::Deploy { preparation } = refresh {
            lemma_deployment_shown_with(
                preparation,
                source,
                cache,
                target,
                handlebars,
                variables,
                rest,
                result,
                other_lines,
            );
            assert(steps_shown_with(preparation, other_lines) =~= other_refresh->preparation);
        } else if let TemplateRefresh::DeployUnlessDifferent = refresh {
            let last = rest.skip(1);
            let shown_last = shown_rest.skip(1);
            assert(shown_last =~= run_shown_with(last, other_lines));
            if let Reply::Difference(diff) = rest[0].reply {
                if !differs(diff@) {
                    lemma_deployment_shown_with(
                        Seq::empty(),
                        source,
                        cache,
                        target,
                        handlebars,
                        variables,
                        last,
                        result,
                        other_lines,
                    );
                    assert(steps_shown_with(Seq::empty(), other_lines) =~= Seq::empty());
                }
            }
        }
    }
}

/// Two updates of a template that differ in the number of context lines alone, and
/// meet with the same replies, return the same and make the same calls but for the
/// number handed to the calls that show a difference, as long as the text that is read
/// renders alike each time.
pub proof fn law_template_update_is_determined_but_for_context_lines<E>(
    source: PathBuf,
    cache: PathBuf,
    target: TemplateTarget,
    handlebars: Handlebars<'_>,
    variables: Variables,
    force: bool,
    one_lines: usize,
    other_lines: usize,
    one: Seq<Event<E>>,
    first: Result<bool, Error<E>>,
    other: Seq<Event<E>>,
    second: Result<bool, Error<E>>,
)
    requires
        texts_read_render_alike(handlebars, target, variables, one),
        template_updated(
            source,
            cache,
            target,
            handlebars,
            variables,
            force,
            one_lines,
            one,
            first,
        ),
        template_updated(
            source,
            cache,
            target,
            handlebars,
            variables,
            force,
            other_lines,
            other,
            second,
        ),
        same_replies(one, other),
    ensures
        first == second,
        one.len() == other.len(),
        forall|i: int|
            #![trigger one[i]]
            #![trigger other[i]]
            0 <= i < one.len() ==> one[i].reply == other[i].reply && other[i].call == shown_with(
                one[i].call,
                other_lines,
            ),
        forall|i: int|
            #![trigger one[i]]
            #![trigger other[i]]
            0 <= i < one.len() && !(one[i].call is PrintTemplateDiff) && !(one[i].call is PrintDiff)
                ==> one[i] == other[i],
{
    let shown = run_shown_with(one, other_lines);
    law_context_lines_only_matter_to_what_is_shown(
        source,
        cache,
        target,
        handlebars,
        variables,
        force,
        one_lines,
        other_lines,
        one,
        first,
    );
    assert forall|i: int| 0 <= i < shown.len() && i < other.len() implies (#[trigger]
    shown[i]).reply == (#[trigger] other[i]).reply by {
        assert(one[i].reply == other[i].reply);
    }
    assert forall|i: int| 0 <= i < shown.len() implies match (#[trigger] shown[i]).reply {
        Reply::Text(contents) => renders_alike(
            handlebars,
            target.template_text(contents@),
            variables,
        ),
        _ => true,
    } by {
        assert(shown[i].reply == one[i].reply);
    }
    law_template_update_is_determined(
        source,
        cache,
        target,
        handlebars,
        variables,
        force,
        other_lines,
        shown,
        first,
        other,
        second,
    );
    assert forall|i: int| 0 <= i < one.len() implies #[trigger] other[i] == (Event {
        call: shown_with(one[i].call, other_lines),
        ..one[i]
    }) by {
        assert(other[i] == shown[i]);
    }
}

} // verus!
