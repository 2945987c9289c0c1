//! Rendering a template into the cache and bringing it to its target.
use crate::config::{TemplateTarget, Variables};
use crate::error::{in_task, parent_with_context, with_context, Cause, Context, Error};
use crate::filesystem::{Call, Event, Filesystem, Reply};
use crate::outside::{may_render, owned, render_template};
use crate::plan::{
    all_done, carried_out, create_parent, gave_up, lemma_done_in_longer_run, lemma_since, since,
    step, stopped, Step,
};
use handlebars::{Handlebars, RenderError};
use std::path::{Path, PathBuf};
use vstd::prelude::*;

verus! {

/// The template text made of the contents of a source file: what `target` makes
/// of them, or the contents themselves when only the cache is to be filled.
pub open spec fn template_text(target: Option<&TemplateTarget>, contents: Seq<char>) -> Seq<char> {
    match target {
        Some(target) => target.template_text(contents),
        None => contents,
    }
}

/// Writing `rendered` to the cache and, if there is a target, copying it there
/// with the permissions of its source.
pub open spec fn rendered_deployment(
    source: PathBuf,
    cache: PathBuf,
    target: Option<&TemplateTarget>,
    rendered: String,
) -> Seq<Step> {
    seq![
        create_parent(cache, None, Context::GetParentOfCache, Context::CreateParentForCache),
        step(Call::Write { path: cache, content: rendered }, Context::WriteRenderedToCache),
    ] + match target {
        Some(target) => seq![
            step(
                Call::CopyFile { source: cache, target: target.target, owner: target.owner },
                Context::CopyFromCacheToTarget,
            ),
            step(
                Call::CopyPermissions { source, target: target.target, owner: target.owner },
                Context::CopyPermissions,
            ),
        ],
        None => seq![],
    }
}

/// `run` and `result` are those of deploying what rendering came back with:
/// nothing is touched when rendering failed.
pub open spec fn rendered_deployed<E>(
    source: PathBuf,
    cache: PathBuf,
    target: Option<&TemplateTarget>,
    outcome: Result<String, RenderError>,
    run: Seq<Event<E>>,
    result: Result<(), Error<E>>,
) -> bool {
    match outcome {
        Ok(rendered) => carried_out(
            rendered_deployment(source, cache, target, rendered),
            (),
            run,
            result,
        ),
        Err(error) => {
            &&& run.len() == 0
            &&& result == Err::<(), Error<E>>(
                Error::of(Context::RenderTemplate, Cause::Render(error)),
            )
        },
    }
}

/// `run` and `result` are those of deploying a template: its source is read, the
/// template text is rendered, and what came of that is deployed.
pub open spec fn template_deployed<E>(
    source: PathBuf,
    cache: PathBuf,
    target: Option<&TemplateTarget>,
    handlebars: Handlebars<'_>,
    variables: Variables,
    run: Seq<Event<E>>,
    result: Result<(), Error<E>>,
) -> bool {
    &&& run.len() > 0
    &&& run[0].call == Call::ReadToString { path: source }
    &&& match run[0].reply {
        Reply::Text(contents) => exists|outcome: Result<String, RenderError>| #[trigger]
            may_render(handlebars, template_text(target, contents@), variables, outcome)
                && rendered_deployed(source, cache, target, outcome, run.skip(1), result),
        Reply::Failed(error) => gave_up(run, Context::ReadTemplateSource, error, result),
        _ => false,
    }
}

/// `run` and `result` are those of a preparation and the deployment of a template
/// after it. The value says that the template was deployed.
pub open spec fn deployed_after<E>(
    preparation: Seq<Step>,
    source: PathBuf,
    cache: PathBuf,
    target: TemplateTarget,
    handlebars: Handlebars<'_>,
    variables: Variables,
    run: Seq<Event<E>>,
    result: Result<bool, Error<E>>,
) -> bool {
    if all_done(preparation, run) {
        let rest = run.skip(preparation.len() as int);
        match result {
            Ok(value) => value && template_deployed(
                source,
                cache,
                Some(&target),
                handlebars,
                variables,
                rest,
                Ok(()),
            ),
            Err(error) => {
                &&& error.task == Some(Context::PerformTemplateCache)
                &&& template_deployed(
                    source,
                    cache,
                    Some(&target),
                    handlebars,
                    variables,
                    rest,
                    Err(Error { task: None, ..error }),
                )
            },
        }
    } else {
        result matches Err(error) && stopped(preparation, run, error)
    }
}

/// Deploys what rendering the template came back with.
pub fn deploy_rendered<F: Filesystem>(
    source: &Path,
    cache: &Path,
    target: Option<&TemplateTarget>,
    outcome: Result<String, RenderError>,
    fs: &mut F,
) -> (result: Result<(), Error<F::Error>>)
    ensures
        old(fs).history().is_prefix_of(final(fs).history()),
        rendered_deployed(
            owned(source),
            owned(cache),
            target,
            outcome,
            since(old(fs).history(), final(fs).history()),
            result,
        ),
        result matches Err(error) ==> error.task is None,
{
    proof {
        reveal_with_fuel(all_done, 5);
        reveal_with_fuel(stopped, 5);
    }
    let rendered = match outcome {
        Ok(rendered) => rendered,
        Err(error) => {
            return Err(
                Error { task: None, context: Context::RenderTemplate, cause: Cause::Render(error) },
            );
        },
    };
    let parent = parent_with_context(cache, Context::GetParentOfCache)?;
    with_context(fs.create_dir_all(parent, &None), Context::CreateParentForCache)?;
    with_context(fs.write(cache, rendered), Context::WriteRenderedToCache)?;
    if let Some(target) = target {
        with_context(
            fs.copy_file(cache, target.target.as_path(), &target.owner),
            Context::CopyFromCacheToTarget,
        )?;
        with_context(
            fs.copy_permissions(source, target.target.as_path(), &target.owner),
            Context::CopyPermissions,
        )?;
    }
    Ok(())
}

/// Renders the template `source` into `cache` and, if there is a target, copies it
/// there.
///
/// The call does not come back if rendering does not: if an inline partial includes
/// itself, if partials include each other, or if a helper panics. A registered template
/// that includes itself by its own name is reported as a failure to render.
pub fn perform_template_deploy<F: Filesystem>(
    source: &Path,
    cache: &Path,
    target: Option<&TemplateTarget>,
    fs: &mut F,
    handlebars: &Handlebars<'_>,
    variables: &Variables,
) -> (result: Result<(), Error<F::Error>>)
    ensures
        old(fs).history().is_prefix_of(final(fs).history()),
        template_deployed(
            owned(source),
            owned(cache),
            target,
            *handlebars,
            *variables,
            since(old(fs).history(), final(fs).history()),
            result,
        ),
        result matches Err(error) ==> error.task is None,
{
    let ghost before = fs.history();
    let contents = with_context(fs.read_to_string(source), Context::ReadTemplateSource)?;
    let ghost asked = fs.history();
    let text = match target {
        Some(target) => target.apply_actions(contents),
        None => contents,
    };
    let outcome = render_template(handlebars, text.as_str(), variables);
    let result = deploy_rendered(source, cache, target, outcome, fs);
    proof {
        lemma_since(before, asked, fs.history());
        let run = since(before, fs.history());
        assert(run[0] == asked.last());
        let text = template_text(target, run[0].reply->Text_0@);
        assert(may_render(*handlebars, text, *variables, outcome) && rendered_deployed(
            owned(source),
            owned(cache),
            target,
            outcome,
            run.skip(1),
            result,
        ));
    }
    result
}

/// Deploys a template as the task that creating and updating it come down to.
pub(crate) fn deploy_template<F: Filesystem>(
    source: &Path,
    cache: &Path,
    target: &TemplateTarget,
    fs: &mut F,
    handlebars: &Handlebars<'_>,
    variables: &Variables,
) -> (result: Result<bool, Error<F::Error>>)
    ensures
        old(fs).history().is_prefix_of(final(fs).history()),
        deployed_after(
            Seq::empty(),
            owned(source),
            owned(cache),
            *target,
            *handlebars,
            *variables,
            since(old(fs).history(), final(fs).history()),
            result,
        ),
{
    let ghost before = fs.history();
    let deployed = perform_template_deploy(source, cache, Some(target), fs, handlebars, variables);
    proof {
        let run = since(before, fs.history());
        assert(run.skip(0) =~= run);
    }
    in_task(deployed, Context::PerformTemplateCache)?;
    Ok(true)
}

/// A deployment after what was done to prepare it.
pub proof fn lemma_deployed_after<E>(
    preparation: Seq<Step>,
    source: PathBuf,
    cache: PathBuf,
    target: TemplateTarget,
    handlebars: Handlebars<'_>,
    variables: Variables,
    prepared: Seq<Event<E>>,
    run: Seq<Event<E>>,
    result: Result<bool, Error<E>>,
)
    requires
        all_done(preparation, prepared),
        prepared.len() == preparation.len(),
        deployed_after(Seq::empty(), source, cache, target, handlebars, variables, run, result),
    ensures
        deployed_after(
            preparation,
            source,
            cache,
            target,
            handlebars,
            variables,
            prepared + run,
            result,
        ),
{
    lemma_done_in_longer_run(preparation, prepared, run);
    assert((prepared + run).skip(preparation.len() as int) =~= run);
    assert(run.skip(0) =~= run);
}

} // verus!
