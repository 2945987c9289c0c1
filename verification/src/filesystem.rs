//! The file system that the operations work on, and the record of what was
//! asked of it.
use crate::config::{TemplateTarget, UnixUser, Variables};
use crate::difference::{Diff, DiffLine};
use crate::outside::owned;
use handlebars::Handlebars;
use std::path::{Path, PathBuf};
use vstd::prelude::*;

verus! {

/// How a symbolic link compares with the source it should point at.
#[derive(Clone, Copy, Debug, PartialEq, Eq, Structural)]
pub enum SymlinkComparison {
    Identical,
    OnlySourceExists,
    OnlyTargetExists,
    TargetNotSymlink,
    Changed,
    BothMissing,
}

/// How a deployed template compares with its rendered copy in the cache.
#[derive(Clone, Copy, Debug, PartialEq, Eq, Structural)]
pub enum TemplateComparison {
    Identical,
    OnlyCacheExists,
    OnlyTargetExists,
    TargetNotRegularFile,
    Changed,
    BothMissing,
}

/// The checksum of a file, or why it has none.
#[derive(Clone, Copy, Debug, PartialEq, Eq, Structural)]
pub enum FileHash {
    Hash(u64),
    NotPresent,
    NotRegularFile,
}

/// A call, with everything that was handed to it. What is wrapped in `Ghost` is kept
/// for reasoning only.
pub enum Call {
    CompareSymlink { source: PathBuf, link: PathBuf },
    CompareTemplate { target: PathBuf, cache: PathBuf },
    ChecksumFile { path: PathBuf },
    ReadToString { path: PathBuf },
    RemoveFile { path: PathBuf },
    DeleteParents { path: PathBuf, no_ask: bool },
    CreateDirAll { path: PathBuf, owner: Option<UnixUser> },
    MakeSymlink { link: PathBuf, source: PathBuf, owner: Option<UnixUser> },
    CopyFile { source: PathBuf, target: PathBuf, owner: Option<UnixUser> },
    CopyPermissions { source: PathBuf, target: PathBuf, owner: Option<UnixUser> },
    SetOwner { path: PathBuf, owner: Option<UnixUser> },
    Write { path: PathBuf, content: String },
    PrintTemplateDiff {
        source: PathBuf,
        template: TemplateTarget,
        handlebars: Ghost<Handlebars<'static>>,
        variables: Ghost<Variables>,
        context_lines: usize,
    },
    GenerateTemplateDiff {
        source: PathBuf,
        template: TemplateTarget,
        handlebars: Ghost<Handlebars<'static>>,
        variables: Ghost<Variables>,
        source_to_target: bool,
    },
    InfoEnabled,
    PrintDiff { diff: Ghost<Seq<DiffLine>>, context_lines: usize },
}

/// What a call came back with.
pub enum Reply<E> {
    Symlink(SymlinkComparison),
    Template(TemplateComparison),
    Hash(FileHash),
    Text(String),
    Difference(Diff),
    Enabled(bool),
    Done,
    Failed(E),
}

/// A call and what it came back with.
pub struct Event<E> {
    pub call: Call,
    pub reply: Reply<E>,
}

/// The reply of a call that returns nothing but success or failure.
pub open spec fn done<E>(result: Result<(), E>) -> Reply<E> {
    match result {
        Ok(_) => Reply::Done,
        Err(error) => Reply::Failed(error),
    }
}

/// The reply of a call that compares a symbolic link.
pub open spec fn symlink_reply<E>(result: Result<SymlinkComparison, E>) -> Reply<E> {
    match result {
        Ok(comparison) => Reply::Symlink(comparison),
        Err(error) => Reply::Failed(error),
    }
}

/// The reply of a call that compares a template.
pub open spec fn template_reply<E>(result: Result<TemplateComparison, E>) -> Reply<E> {
    match result {
        Ok(comparison) => Reply::Template(comparison),
        Err(error) => Reply::Failed(error),
    }
}

/// The reply of a call that takes a checksum.
pub open spec fn hash_reply<E>(result: Result<FileHash, E>) -> Reply<E> {
    match result {
        Ok(hash) => Reply::Hash(hash),
        Err(error) => Reply::Failed(error),
    }
}

/// The reply of a call that reads a file.
pub open spec fn text_reply<E>(result: Result<String, E>) -> Reply<E> {
    match result {
        Ok(text) => Reply::Text(text),
        Err(error) => Reply::Failed(error),
    }
}

/// The reply of a call that makes a difference.
pub open spec fn difference_reply<E>(result: Result<Diff, E>) -> Reply<E> {
    match result {
        Ok(diff) => Reply::Difference(diff),
        Err(error) => Reply::Failed(error),
    }
}

/// A file system, to be provided by the user of the library. Each method may
/// succeed or fail as the file system pleases.
///
/// `history` is the record of all calls so far, each with what it was given and
/// what it returned; every method adds itself to it and does nothing else to it.
pub trait Filesystem {
    /// What a failed call reports.
    type Error;

    /// The calls made so far, the oldest first. A verified implementation says what
    /// it keeps them in; one in ordinary Rust has nothing to write here.
    open spec fn history(&self) -> Seq<Event<Self::Error>> {
        arbitrary()
    }

    /// Compares the symbolic link at `link` with one that points at `source`.
    fn compare_symlink(&mut self, source: &Path, link: &Path) -> (result: Result<
        SymlinkComparison,
        Self::Error,
    >)
        ensures
            final(self).history() == old(self).history().push(
                Event {
                    call: Call::CompareSymlink { source: owned(source), link: owned(link) },
                    reply: symlink_reply(result),
                },
            ),
    ;

    /// Compares the deployed template at `target` with the rendered one at `cache`.
    fn compare_template(&mut self, target: &Path, cache: &Path) -> (result: Result<
        TemplateComparison,
        Self::Error,
    >)
        ensures
            final(self).history() == old(self).history().push(
                Event {
                    call: Call::CompareTemplate { target: owned(target), cache: owned(cache) },
                    reply: template_reply(result),
                },
            ),
    ;

    /// The checksum of the file at `path`.
    fn checksum_file(&mut self, path: &Path) -> (result: Result<FileHash, Self::Error>)
        ensures
            final(self).history() == old(self).history().push(
                Event {
                    call: Call::ChecksumFile { path: owned(path) },
                    reply: hash_reply(result),
                },
            ),
    ;

    /// The contents of the file at `path`.
    fn read_to_string(&mut self, path: &Path) -> (result: Result<String, Self::Error>)
        ensures
            final(self).history() == old(self).history().push(
                Event {
                    call: Call::ReadToString { path: owned(path) },
                    reply: text_reply(result),
                },
            ),
    ;

    /// Removes the file or link at `path`.
    fn remove_file(&mut self, path: &Path) -> (result: Result<(), Self::Error>)
        ensures
            final(self).history() == old(self).history().push(
                Event { call: Call::RemoveFile { path: owned(path) }, reply: done(result) },
            ),
    ;

    /// Deletes the directories above `path` that are empty, without asking the
    /// user first if `no_ask` is set.
    fn delete_parents(&mut self, path: &Path, no_ask: bool) -> (result: Result<(), Self::Error>)
        ensures
            final(self).history() == old(self).history().push(
                Event {
                    call: Call::DeleteParents { path: owned(path), no_ask },
                    reply: done(result),
                },
            ),
    ;

    /// Creates the directory `path` and those above it that are missing.
    fn create_dir_all(&mut self, path: &Path, owner: &Option<UnixUser>) -> (result: Result<
        (),
        Self::Error,
    >)
        ensures
            final(self).history() == old(self).history().push(
                Event {
                    call: Call::CreateDirAll { path: owned(path), owner: *owner },
                    reply: done(result),
                },
            ),
    ;

    /// Makes a symbolic link at `link` that points at `source`.
    fn make_symlink(&mut self, link: &Path, source: &Path, owner: &Option<UnixUser>) -> (result:
        Result<(), Self::Error>)
        ensures
            final(self).history() == old(self).history().push(
                Event {
                    call: Call::MakeSymlink {
                        link: owned(link),
                        source: owned(source),
                        owner: *owner,
                    },
                    reply: done(result),
                },
            ),
    ;

    /// Copies the contents of `source` to `target`.
    fn copy_file(&mut self, source: &Path, target: &Path, owner: &Option<UnixUser>) -> (result:
        Result<(), Self::Error>)
        ensures
            final(self).history() == old(self).history().push(
                Event {
                    call: Call::CopyFile {
                        source: owned(source),
                        target: owned(target),
                        owner: *owner,
                    },
                    reply: done(result),
                },
            ),
    ;

    /// Gives `target` the permissions of `source`.
    fn copy_permissions(&mut self, source: &Path, target: &Path, owner: &Option<UnixUser>) -> (
    result: Result<(), Self::Error>)
        ensures
            final(self).history() == old(self).history().push(
                Event {
                    call: Call::CopyPermissions {
                        source: owned(source),
                        target: owned(target),
                        owner: *owner,
                    },
                    reply: done(result),
                },
            ),
    ;

    /// Gives the file at `path` to `owner`.
    fn set_owner(&mut self, path: &Path, owner: &Option<UnixUser>) -> (result: Result<
        (),
        Self::Error,
    >)
        ensures
            final(self).history() == old(self).history().push(
                Event {
                    call: Call::SetOwner { path: owned(path), owner: *owner },
                    reply: done(result),
                },
            ),
    ;

    /// Makes `content` the contents of the file at `path`.
    fn write(&mut self, path: &Path, content: String) -> (result: Result<(), Self::Error>)
        ensures
            final(self).history() == old(self).history().push(
                Event { call: Call::Write { path: owned(path), content }, reply: done(result) },
            ),
    ;
}

/// A file system that can also show the user what a template would change. These
/// calls take their place in the same history.
pub trait TemplateDiff: Filesystem {
    /// Shows how rendering `source` would change the target.
    fn print_template_diff(
        &mut self,
        source: &Path,
        target: &TemplateTarget,
        handlebars: &Handlebars<'_>,
        variables: &Variables,
        context_lines: usize,
    )
        ensures
            final(self).history() == old(self).history().push(
                Event {
                    call: Call::PrintTemplateDiff {
                        source: owned(source),
                        template: *target,
                        handlebars: Ghost(*handlebars),
                        variables: Ghost(*variables),
                        context_lines,
                    },
                    reply: Reply::Done,
                },
            ),
    ;

    /// The difference between the rendered `source` and the present target;
    /// `source_to_target` gives its direction.
    fn generate_template_diff(
        &mut self,
        source: &Path,
        target: &TemplateTarget,
        handlebars: &Handlebars<'_>,
        variables: &Variables,
        source_to_target: bool,
    ) -> (result: Result<Diff, Self::Error>)
        ensures
            final(self).history() == old(self).history().push(
                Event {
                    call: Call::GenerateTemplateDiff {
                        source: owned(source),
                        template: *target,
                        handlebars: Ghost(*handlebars),
                        variables: Ghost(*variables),
                        source_to_target,
                    },
                    reply: difference_reply(result),
                },
            ),
    ;

    /// Whether the user wants to be told about refused changes.
    fn info_enabled(&mut self) -> (enabled: bool)
        ensures
            final(self).history() == old(self).history().push(
                Event { call: Call::InfoEnabled, reply: Reply::Enabled(enabled) },
            ),
    ;

    /// Shows a difference, with `context_lines` unchanged lines around each change.
    fn print_diff(&mut self, diff: &Diff, context_lines: usize)
        ensures
            final(self).history() == old(self).history().push(
                Event {
                    call: Call::PrintDiff { diff: Ghost(diff@), context_lines },
                    reply: Reply::Done,
                },
            ),
    ;
}

} // verus!
