//! What the runner comes to: each operation on its file system, with its settings.
use crate::config::{CopyEntry, CopyTarget, SymbolicTarget, TemplateTarget, Variables};
use crate::error::Error;
use crate::filesystem::TemplateDiff;
use crate::outcomes::{
    copy_creation_course, copy_deletion_course, copy_update_course, law_created_copy,
    law_created_symlink, law_created_template, law_deleted_copy, law_deleted_symlink,
    law_deleted_template, law_updated_copy, law_updated_symlink, law_updated_template,
    symlink_course, symlink_deletion_course, template_creation_course, template_deletion_course,
    template_update_course,
};
use crate::outside::owned;
use crate::runner::{ActionRunner, RealActionRunner};
use handlebars::Handlebars;
use std::path::Path;
use vstd::prelude::*;

verus! {

/// A runner has the file system and the settings that it was made with, and what it does
/// to the file system is done to that one.
pub proof fn law_new_runner<'a, F: TemplateDiff>(
    fs: &'a mut F,
    handlebars: &'a Handlebars<'a>,
    variables: &'a Variables,
    force: bool,
    diff_context_lines: usize,
    runner: RealActionRunner<'a, F>,
)
    requires
        call_ensures(
            RealActionRunner::<'a, F>::new,
            (fs, handlebars, variables, force, diff_context_lines),
            runner,
        ),
    ensures
        *old(runner.fs) == *old(fs),
        *final(runner.fs) == *final(fs),
        *runner.handlebars == *handlebars,
        *runner.variables == *variables,
        runner.force == force,
        runner.diff_context_lines == diff_context_lines,
{
}

/// The runner deletes a symbolic link as its settings say, and keeps them.
pub proof fn law_runner_delete_symlink<'a, F: TemplateDiff>(
    runner: &mut RealActionRunner<'a, F>,
    source: &Path,
    target: &Path,
    result: Result<bool, Error<F::Error>>,
)
    requires
        call_ensures(
            <RealActionRunner<'a, F> as ActionRunner>::delete_symlink,
            (runner, source, target),
            result,
        ),
    ensures
        old(runner).fs.history().is_prefix_of(final(runner).fs.history()),
        symlink_deletion_course(
            owned(source),
            owned(target),
            old(runner).force,
            final(runner).fs.history().skip(old(runner).fs.history().len() as int),
            result,
        ),
        *final(final(runner).fs) == *final(old(runner).fs),
        *final(runner).handlebars == *old(runner).handlebars,
        *final(runner).variables == *old(runner).variables,
        final(runner).force == old(runner).force,
        final(runner).diff_context_lines == old(runner).diff_context_lines,
{
    law_deleted_symlink(
        owned(source),
        owned(target),
        old(runner).force,
        final(runner).fs.history().skip(old(runner).fs.history().len() as int),
        result,
    );
}

/// The runner deletes a template as its settings say, and keeps them.
pub proof fn law_runner_delete_template<'a, F: TemplateDiff>(
    runner: &mut RealActionRunner<'a, F>,
    source: &Path,
    cache: &Path,
    target: &Path,
    result: Result<bool, Error<F::Error>>,
)
    requires
        call_ensures(
            <RealActionRunner<'a, F> as ActionRunner>::delete_template,
            (runner, source, cache, target),
            result,
        ),
    ensures
        old(runner).fs.history().is_prefix_of(final(runner).fs.history()),
        template_deletion_course(
            owned(cache),
            owned(target),
            old(runner).force,
            final(runner).fs.history().skip(old(runner).fs.history().len() as int),
            result,
        ),
        *final(final(runner).fs) == *final(old(runner).fs),
        *final(runner).handlebars == *old(runner).handlebars,
        *final(runner).variables == *old(runner).variables,
        final(runner).force == old(runner).force,
        final(runner).diff_context_lines == old(runner).diff_context_lines,
{
    law_deleted_template(
        owned(cache),
        owned(target),
        old(runner).force,
        final(runner).fs.history().skip(old(runner).fs.history().len() as int),
        result,
    );
}

/// The runner creates a symbolic link as its settings say, and keeps them.
pub proof fn law_runner_create_symlink<'a, F: TemplateDiff>(
    runner: &mut RealActionRunner<'a, F>,
    source: &Path,
    target: &SymbolicTarget,
    result: Result<bool, Error<F::Error>>,
)
    requires
        call_ensures(
            <RealActionRunner<'a, F> as ActionRunner>::create_symlink,
            (runner, source, target),
            result,
        ),
    ensures
        old(runner).fs.history().is_prefix_of(final(runner).fs.history()),
        symlink_course(
            owned(source),
            *target,
            old(runner).force,
            final(runner).fs.history().skip(old(runner).fs.history().len() as int),
            result,
        ),
        *final(final(runner).fs) == *final(old(runner).fs),
        *final(runner).handlebars == *old(runner).handlebars,
        *final(runner).variables == *old(runner).variables,
        final(runner).force == old(runner).force,
        final(runner).diff_context_lines == old(runner).diff_context_lines,
{
    law_created_symlink(
        owned(source),
        *target,
        old(runner).force,
        final(runner).fs.history().skip(old(runner).fs.history().len() as int),
        result,
    );
}

/// The runner creates a template as its settings say, and keeps them.
pub proof fn law_runner_create_template<'a, F: TemplateDiff>(
    runner: &mut RealActionRunner<'a, F>,
    source: &Path,
    cache: &Path,
    target: &TemplateTarget,
    result: Result<bool, Error<F::Error>>,
)
    requires
        call_ensures(
            <RealActionRunner<'a, F> as ActionRunner>::create_template,
            (runner, source, cache, target),
            result,
        ),
    ensures
        old(runner).fs.history().is_prefix_of(final(runner).fs.history()),
        template_creation_course(
            owned(source),
            owned(cache),
            *target,
            *old(runner).handlebars,
            *old(runner).variables,
            old(runner).force,
            final(runner).fs.history().skip(old(runner).fs.history().len() as int),
            result,
        ),
        *final(final(runner).fs) == *final(old(runner).fs),
        *final(runner).handlebars == *old(runner).handlebars,
        *final(runner).variables == *old(runner).variables,
        final(runner).force == old(runner).force,
        final(runner).diff_context_lines == old(runner).diff_context_lines,
{
    law_created_template(
        owned(source),
        owned(cache),
        *target,
        *old(runner).handlebars,
        *old(runner).variables,
        old(runner).force,
        final(runner).fs.history().skip(old(runner).fs.history().len() as int),
        result,
    );
}

/// The runner updates a symbolic link as its settings say, and keeps them.
pub proof fn law_runner_update_symlink<'a, F: TemplateDiff>(
    runner: &mut RealActionRunner<'a, F>,
    source: &Path,
    target: &SymbolicTarget,
    result: Result<bool, Error<F::Error>>,
)
    requires
        call_ensures(
            <RealActionRunner<'a, F> as ActionRunner>::update_symlink,
            (runner, source, target),
            result,
        ),
    ensures
        old(runner).fs.history().is_prefix_of(final(runner).fs.history()),
        symlink_course(
            owned(source),
            *target,
            old(runner).force,
            final(runner).fs.history().skip(old(runner).fs.history().len() as int),
            result,
        ),
        *final(final(runner).fs) == *final(old(runner).fs),
        *final(runner).handlebars == *old(runner).handlebars,
        *final(runner).variables == *old(runner).variables,
        final(runner).force == old(runner).force,
        final(runner).diff_context_lines == old(runner).diff_context_lines,
{
    law_updated_symlink(
        owned(source),
        *target,
        old(runner).force,
        final(runner).fs.history().skip(old(runner).fs.history().len() as int),
        result,
    );
}

/// The runner updates a template as its settings say, and keeps them.
pub proof fn law_runner_update_template<'a, F: TemplateDiff>(
    runner: &mut RealActionRunner<'a, F>,
    source: &Path,
    cache: &Path,
    target: &TemplateTarget,
    result: Result<bool, Error<F::Error>>,
)
    requires
        call_ensures(
            <RealActionRunner<'a, F> as ActionRunner>::update_template,
            (runner, source, cache, target),
            result,
        ),
    ensures
        old(runner).fs.history().is_prefix_of(final(runner).fs.history()),
        template_update_course(
            owned(source),
            owned(cache),
            *target,
            *old(runner).handlebars,
            *old(runner).variables,
            old(runner).force,
            old(runner).diff_context_lines,
            final(runner).fs.history().skip(old(runner).fs.history().len() as int),
            result,
        ),
        *final(final(runner).fs) == *final(old(runner).fs),
        *final(runner).handlebars == *old(runner).handlebars,
        *final(runner).variables == *old(runner).variables,
        final(runner).force == old(runner).force,
        final(runner).diff_context_lines == old(runner).diff_context_lines,
{
    law_updated_template(
        owned(source),
        owned(cache),
        *target,
        *old(runner).handlebars,
        *old(runner).variables,
        old(runner).force,
        old(runner).diff_context_lines,
        final(runner).fs.history().skip(old(runner).fs.history().len() as int),
        result,
    );
}

/// The runner deletes a copy as its settings say, and keeps them.
pub proof fn law_runner_delete_copy<'a, F: TemplateDiff>(
    runner: &mut RealActionRunner<'a, F>,
    source: &Path,
    cached: &CopyEntry,
    result: Result<bool, Error<F::Error>>,
)
    requires
        call_ensures(
            <RealActionRunner<'a, F> as ActionRunner>::delete_copy,
            (runner, source, cached),
            result,
        ),
    ensures
        old(runner).fs.history().is_prefix_of(final(runner).fs.history()),
        copy_deletion_course(
            *cached,
            old(runner).force,
            final(runner).fs.history().skip(old(runner).fs.history().len() as int),
            result,
        ),
        *final(final(runner).fs) == *final(old(runner).fs),
        *final(runner).handlebars == *old(runner).handlebars,
        *final(runner).variables == *old(runner).variables,
        final(runner).force == old(runner).force,
        final(runner).diff_context_lines == old(runner).diff_context_lines,
{
    law_deleted_copy(
        *cached,
        old(runner).force,
        final(runner).fs.history().skip(old(runner).fs.history().len() as int),
        result,
    );
}

/// The runner creates a copy as its settings say, and keeps them.
pub proof fn law_runner_create_copy<'a, F: TemplateDiff>(
    runner: &mut RealActionRunner<'a, F>,
    source: &Path,
    target: &CopyTarget,
    result: Result<Option<CopyEntry>, Error<F::Error>>,
)
    requires
        call_ensures(
            <RealActionRunner<'a, F> as ActionRunner>::create_copy,
            (runner, source, target),
            result,
        ),
    ensures
        old(runner).fs.history().is_prefix_of(final(runner).fs.history()),
        copy_creation_course(
            owned(source),
            *target,
            old(runner).force,
            final(runner).fs.history().skip(old(runner).fs.history().len() as int),
            result,
        ),
        *final(final(runner).fs) == *final(old(runner).fs),
        *final(runner).handlebars == *old(runner).handlebars,
        *final(runner).variables == *old(runner).variables,
        final(runner).force == old(runner).force,
        final(runner).diff_context_lines == old(runner).diff_context_lines,
{
    law_created_copy(
        owned(source),
        *target,
        old(runner).force,
        final(runner).fs.history().skip(old(runner).fs.history().len() as int),
        result,
    );
}

/// The runner updates a copy as its settings say, and keeps them.
pub proof fn law_runner_update_copy<'a, F: TemplateDiff>(
    runner: &mut RealActionRunner<'a, F>,
    source: &Path,
    target: &CopyTarget,
    cached: &CopyEntry,
    result: Result<Option<CopyEntry>, Error<F::Error>>,
)
    requires
        call_ensures(
            <RealActionRunner<'a, F> as ActionRunner>::update_copy,
            (runner, source, target, cached),
            result,
        ),
    ensures
        old(runner).fs.history().is_prefix_of(final(runner).fs.history()),
        copy_update_course(
            owned(source),
            *target,
            *cached,
            old(runner).force,
            final(runner).fs.history().skip(old(runner).fs.history().len() as int),
            result,
        ),
        *final(final(runner).fs) == *final(old(runner).fs),
        *final(runner).handlebars == *old(runner).handlebars,
        *final(runner).variables == *old(runner).variables,
        final(runner).force == old(runner).force,
        final(runner).diff_context_lines == old(runner).diff_context_lines,
{
    law_updated_copy(
        owned(source),
        *target,
        *cached,
        old(runner).force,
        final(runner).fs.history().skip(old(runner).fs.history().len() as int),
        result,
    );
}

} // verus!
