//! The operations gathered behind one interface.
use crate::config::{CopyEntry, CopyTarget, SymbolicTarget, TemplateTarget, Variables};
use crate::create::{
    copy_created, create_copy, create_symlink, create_template, symlink_created, template_created,
};
use crate::delete::{
    copy_deleted, delete_copy, delete_symlink, delete_template, symlink_deleted, template_deleted,
};
use crate::error::Error;
use crate::filesystem::TemplateDiff;
use crate::outside::owned;
use crate::plan::since;
use crate::update::{
    copy_updated, symlink_updated, template_updated, update_copy, update_symlink, update_template,
};
use handlebars::Handlebars;
use std::path::Path;
use vstd::prelude::*;

verus! {

/// The operations on deployed files, to be carried out one at a time.
pub trait ActionRunner {
    /// What a failed call of the file system reports.
    type Failure;

    /// Deletes a symbolic link. Returns whether it should be forgotten.
    fn delete_symlink(
        &mut self,
        source: &Path,
        target: &Path,
    ) -> Result<bool, Error<Self::Failure>>;

    /// Deletes a template. Returns whether it should be forgotten.
    fn delete_template(
        &mut self,
        source: &Path,
        cache: &Path,
        target: &Path,
    ) -> Result<bool, Error<Self::Failure>>;

    /// Creates a symbolic link. Returns whether it should be remembered.
    fn create_symlink(
        &mut self,
        source: &Path,
        target: &SymbolicTarget,
    ) -> Result<bool, Error<Self::Failure>>;

    /// Creates a template. Returns whether it should be remembered.
    ///
    /// A runner that renders templates does not come back if rendering does not: if an
    /// inline partial includes itself, if partials include each other, or if a helper
    /// panics.
    fn create_template(
        &mut self,
        source: &Path,
        cache: &Path,
        target: &TemplateTarget,
    ) -> Result<bool, Error<Self::Failure>>;

    /// Updates a symbolic link. Returns whether it was not skipped.
    fn update_symlink(
        &mut self,
        source: &Path,
        target: &SymbolicTarget,
    ) -> Result<bool, Error<Self::Failure>>;

    /// Updates a template. Returns whether it was not skipped.
    ///
    /// A runner that renders templates does not come back if rendering does not: if an
    /// inline partial includes itself, if partials include each other, or if a helper
    /// panics.
    fn update_template(
        &mut self,
        source: &Path,
        cache: &Path,
        target: &TemplateTarget,
    ) -> Result<bool, Error<Self::Failure>>;

    /// Deletes a copy. Returns whether it should be forgotten.
    fn delete_copy(
        &mut self,
        source: &Path,
        cached: &CopyEntry,
    ) -> Result<bool, Error<Self::Failure>>;

    /// Creates a copy. Returns what to remember of it, if it was not skipped.
    fn create_copy(
        &mut self,
        source: &Path,
        target: &CopyTarget,
    ) -> Result<Option<CopyEntry>, Error<Self::Failure>>;

    /// Updates a copy. Returns what to remember of it, if it was not skipped.
    fn update_copy(
        &mut self,
        source: &Path,
        target: &CopyTarget,
        cached: &CopyEntry,
    ) -> Result<Option<CopyEntry>, Error<Self::Failure>>;
}

/// The operations carried out on a file system.
pub struct RealActionRunner<'a, F: TemplateDiff> {
    pub fs: &'a mut F,
    pub handlebars: &'a Handlebars<'a>,
    pub variables: &'a Variables,
    pub force: bool,
    pub diff_context_lines: usize,
}

impl<'a, F: TemplateDiff> RealActionRunner<'a, F> {
    /// A runner on `fs`. With `force` set, what it reports as changed is
    /// overwritten and removed.
    pub fn new(
        fs: &'a mut F,
        handlebars: &'a Handlebars<'_>,
        variables: &'a Variables,
        force: bool,
        diff_context_lines: usize,
    ) -> (runner: RealActionRunner<'a, F>)
        ensures
            *runner.fs == *old(fs),
            *final(runner.fs) == *final(fs),
            *runner.handlebars == *handlebars,
            *runner.variables == *variables,
            runner.force == force,
            runner.diff_context_lines == diff_context_lines,
    {
        RealActionRunner { fs, handlebars, variables, force, diff_context_lines }
    }

    /// The settings of `self` are those of `other`.
    pub open spec fn same_settings(self, other: Self) -> bool {
        &&& *self.handlebars == *other.handlebars
        &&& *self.variables == *other.variables
        &&& self.force == other.force
        &&& self.diff_context_lines == other.diff_context_lines
    }
}

impl<'a, F: TemplateDiff> ActionRunner for RealActionRunner<'a, F> {
    type Failure = F::Error;

    fn delete_symlink(
        &mut self,
        source: &Path,
        target: &Path,
    ) -> (result: Result<bool, Error<F::Error>>)
        ensures
            final(self).same_settings(*old(self)),
            *final(final(self).fs) == *final(old(self).fs),
            old(self).fs.history().is_prefix_of(final(self).fs.history()),
            symlink_deleted(
                owned(source),
                owned(target),
                old(self).force,
                since(old(self).fs.history(), final(self).fs.history()),
                result,
            ),
    {
        delete_symlink(source, target, self.fs, self.force)
    }

    fn delete_template(
        &mut self,
        source: &Path,
        cache: &Path,
        target: &Path,
    ) -> (result: Result<bool, Error<F::Error>>)
        ensures
            final(self).same_settings(*old(self)),
            *final(final(self).fs) == *final(old(self).fs),
            old(self).fs.history().is_prefix_of(final(self).fs.history()),
            template_deleted(
                owned(cache),
                owned(target),
                old(self).force,
                since(old(self).fs.history(), final(self).fs.history()),
                result,
            ),
    {
        delete_template(source, cache, target, self.fs, self.force)
    }

    fn create_symlink(
        &mut self,
        source: &Path,
        target: &SymbolicTarget,
    ) -> (result: Result<bool, Error<F::Error>>)
        ensures
            final(self).same_settings(*old(self)),
            *final(final(self).fs) == *final(old(self).fs),
            old(self).fs.history().is_prefix_of(final(self).fs.history()),
            symlink_created(
                owned(source),
                *target,
                old(self).force,
                since(old(self).fs.history(), final(self).fs.history()),
                result,
            ),
    {
        create_symlink(source, target, self.fs, self.force)
    }

    fn create_template(
        &mut self,
        source: &Path,
        cache: &Path,
        target: &TemplateTarget,
    ) -> (result: Result<bool, Error<F::Error>>)
        ensures
            final(self).same_settings(*old(self)),
            *final(final(self).fs) == *final(old(self).fs),
            old(self).fs.history().is_prefix_of(final(self).fs.history()),
            template_created(
                owned(source),
                owned(cache),
                *target,
                *old(self).handlebars,
                *old(self).variables,
                old(self).force,
                since(old(self).fs.history(), final(self).fs.history()),
                result,
            ),
    {
        create_template(
            source,
            cache,
            target,
            self.fs,
            self.handlebars,
            self.variables,
            self.force,
        )
    }

    fn update_symlink(
        &mut self,
        source: &Path,
        target: &SymbolicTarget,
    ) -> (result: Result<bool, Error<F::Error>>)
        ensures
            final(self).same_settings(*old(self)),
            *final(final(self).fs) == *final(old(self).fs),
            old(self).fs.history().is_prefix_of(final(self).fs.history()),
            symlink_updated(
                owned(source),
                *target,
                old(self).force,
                since(old(self).fs.history(), final(self).fs.history()),
                result,
            ),
    {
        update_symlink(source, target, self.fs, self.force)
    }

    fn update_template(
        &mut self,
        source: &Path,
        cache: &Path,
        target: &TemplateTarget,
    ) -> (result: Result<bool, Error<F::Error>>)
        ensures
            final(self).same_settings(*old(self)),
            *final(final(self).fs) == *final(old(self).fs),
            old(self).fs.history().is_prefix_of(final(self).fs.history()),
            template_updated(
                owned(source),
                owned(cache),
                *target,
                *old(self).handlebars,
                *old(self).variables,
                old(self).force,
                old(self).diff_context_lines,
                since(old(self).fs.history(), final(self).fs.history()),
                result,
            ),
    {
        update_template(
            source,
            cache,
            target,
            self.fs,
            self.handlebars,
            self.variables,
            self.force,
            self.diff_context_lines,
        )
    }

    fn delete_copy(
        &mut self,
        source: &Path,
        cached: &CopyEntry,
    ) -> (result: Result<bool, Error<F::Error>>)
        ensures
            final(self).same_settings(*old(self)),
            *final(final(self).fs) == *final(old(self).fs),
            old(self).fs.history().is_prefix_of(final(self).fs.history()),
            copy_deleted(
                *cached,
                old(self).force,
                since(old(self).fs.history(), final(self).fs.history()),
                result,
            ),
    {
        delete_copy(source, cached, self.fs, self.force)
    }

    fn create_copy(
        &mut self,
        source: &Path,
        target: &CopyTarget,
    ) -> (result: Result<Option<CopyEntry>, Error<F::Error>>)
        ensures
            final(self).same_settings(*old(self)),
            *final(final(self).fs) == *final(old(self).fs),
            old(self).fs.history().is_prefix_of(final(self).fs.history()),
            copy_created(
                owned(source),
                *target,
                old(self).force,
                since(old(self).fs.history(), final(self).fs.history()),
                result,
            ),
    {
        create_copy(source, target, self.fs, self.force)
    }

    fn update_copy(
        &mut self,
        source: &Path,
        target: &CopyTarget,
        cached: &CopyEntry,
    ) -> (result: Result<Option<CopyEntry>, Error<F::Error>>)
        ensures
            final(self).same_settings(*old(self)),
            *final(final(self).fs) == *final(old(self).fs),
            old(self).fs.history().is_prefix_of(final(self).fs.history()),
            copy_updated(
                owned(source),
                *target,
                *cached,
                old(self).force,
                since(old(self).fs.history(), final(self).fs.history()),
                result,
            ),
    {
        update_copy(source, target, cached, self.fs, self.force)
    }
}

} // verus!
