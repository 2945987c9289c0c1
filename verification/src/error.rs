//! What is reported when an operation cannot be carried through.
use crate::outside::{owned, parent_of};
use handlebars::RenderError;
use std::path::Path;
use vstd::prelude::*;

verus! {

/// What was being done when an operation failed.
#[derive(Clone, Copy, Debug, PartialEq, Eq, Structural)]
pub enum Context {
    DetectSymlinkState,
    PerformSymlinkTargetDeletion,
    RemoveSymlink,
    DeleteParentsOfSymlink,
    DetectTemplateState,
    PerformCacheDeletion,
    PerformTemplateTargetDeletion,
    ChecksumCopyTarget,
    RemoveCopyTarget,
    DeleteParentsOfCopyTarget,
    DeleteTemplateCache,
    DeleteParentInCache,
    DeleteTargetFile,
    DeleteParentInTargetLocation,
    GetParentOfTarget,
    CreateParentForTarget,
    CreateTargetSymlink,
    RemoveSymlinkTargetWhileForcing,
    PerformTemplateCache,
    RemoveExistingFileWhileForcing,
    ChecksumSource,
    ChecksumTarget,
    CopySourceToTarget,
    CopyPermissions,
    RemoveExistingTarget,
    SetTargetOwner,
    RemoveTargetWhileForcing,
    DiffSourceAndTarget,
    RemoveStaleCopyTarget,
    RemoveExternallyModifiedTarget,
    ReadTemplateSource,
    RenderTemplate,
    GetParentOfCache,
    CreateParentForCache,
    WriteRenderedToCache,
    CopyFromCacheToTarget,
}

impl Context {
    /// The words in which the context is shown.
    pub open spec fn words(self) -> Seq<char> {
        match self {
            Context::DetectSymlinkState => "detect symlink's current state"@,
            Context::PerformSymlinkTargetDeletion => "perform symlink target deletion"@,
            Context::RemoveSymlink => "remove symlink"@,
            Context::DeleteParentsOfSymlink => "delete parents of symlink"@,
            Context::DetectTemplateState => "detect templated file's current state"@,
            Context::PerformCacheDeletion => "perform cache deletion"@,
            Context::PerformTemplateTargetDeletion => "perform template target deletion"@,
            Context::ChecksumCopyTarget => "checksum copy target"@,
            Context::RemoveCopyTarget => "remove copy target"@,
            Context::DeleteParentsOfCopyTarget => "delete parents of copy target"@,
            Context::DeleteTemplateCache => "delete template cache"@,
            Context::DeleteParentInCache => "delete parent directory in cache"@,
            Context::DeleteTargetFile => "delete target file"@,
            Context::DeleteParentInTargetLocation => "delete parent directory in target location"@,
            Context::GetParentOfTarget => "get parent of target file"@,
            Context::CreateParentForTarget => "create parent for target file"@,
            Context::CreateTargetSymlink => "create target symlink"@,
            Context::RemoveSymlinkTargetWhileForcing => "remove symlink target while forcing"@,
            Context::PerformTemplateCache => "perform template cache"@,
            Context::RemoveExistingFileWhileForcing => "remove existing file while forcing"@,
            Context::ChecksumSource => "checksum source"@,
            Context::ChecksumTarget => "checksum target"@,
            Context::CopySourceToTarget => "copy source to target"@,
            Context::CopyPermissions => "copy permissions from source to target"@,
            Context::RemoveExistingTarget => "remove existing target"@,
            Context::SetTargetOwner => "set target file owner"@,
            Context::RemoveTargetWhileForcing => "remove target while forcing"@,
            Context::DiffSourceAndTarget => "diff source and target"@,
            Context::RemoveStaleCopyTarget => "remove stale copy target"@,
            Context::RemoveExternallyModifiedTarget => "remove externally modified target"@,
            Context::ReadTemplateSource => "read template source file"@,
            Context::RenderTemplate => "render template"@,
            Context::GetParentOfCache => "get parent of cache file"@,
            Context::CreateParentForCache => "create parent for cache file"@,
            Context::WriteRenderedToCache => "write rendered template to cache"@,
            Context::CopyFromCacheToTarget => "copy template from cache to target"@,
        }
    }

    /// The context as it is shown.
    pub fn message(&self) -> (text: &'static str)
        ensures
            text@ == self.words(),
    {
        match self {
            Context::DetectSymlinkState => "detect symlink's current state",
            Context::PerformSymlinkTargetDeletion => "perform symlink target deletion",
            Context::RemoveSymlink => "remove symlink",
            Context::DeleteParentsOfSymlink => "delete parents of symlink",
            Context::DetectTemplateState => "detect templated file's current state",
            Context::PerformCacheDeletion => "perform cache deletion",
            Context::PerformTemplateTargetDeletion => "perform template target deletion",
            Context::ChecksumCopyTarget => "checksum copy target",
            Context::RemoveCopyTarget => "remove copy target",
            Context::DeleteParentsOfCopyTarget => "delete parents of copy target",
            Context::DeleteTemplateCache => "delete template cache",
            Context::DeleteParentInCache => "delete parent directory in cache",
            Context::DeleteTargetFile => "delete target file",
            Context::DeleteParentInTargetLocation => "delete parent directory in target location",
            Context::GetParentOfTarget => "get parent of target file",
            Context::CreateParentForTarget => "create parent for target file",
            Context::CreateTargetSymlink => "create target symlink",
            Context::RemoveSymlinkTargetWhileForcing => "remove symlink target while forcing",
            Context::PerformTemplateCache => "perform template cache",
            Context::RemoveExistingFileWhileForcing => "remove existing file while forcing",
            Context::ChecksumSource => "checksum source",
            Context::ChecksumTarget => "checksum target",
            Context::CopySourceToTarget => "copy source to target",
            Context::CopyPermissions => "copy permissions from source to target",
            Context::RemoveExistingTarget => "remove existing target",
            Context::SetTargetOwner => "set target file owner",
            Context::RemoveTargetWhileForcing => "remove target while forcing",
            Context::DiffSourceAndTarget => "diff source and target",
            Context::RemoveStaleCopyTarget => "remove stale copy target",
            Context::RemoveExternallyModifiedTarget => "remove externally modified target",
            Context::ReadTemplateSource => "read template source file",
            Context::RenderTemplate => "render template",
            Context::GetParentOfCache => "get parent of cache file",
            Context::CreateParentForCache => "create parent for cache file",
            Context::WriteRenderedToCache => "write rendered template to cache",
            Context::CopyFromCacheToTarget => "copy template from cache to target",
        }
    }
}

/// Why an operation failed. `E` is the error of the file system in use.
#[derive(Debug)]
pub enum Cause<E> {
    /// A call of the file system failed.
    Filesystem(E),
    /// The template could not be rendered.
    Render(RenderError),
    /// A path that has to have a parent directory has none.
    NoParent,
}

/// A failed operation: what was being done, as part of which larger task if
/// any, and why it failed.
#[derive(Debug)]
pub struct Error<E> {
    pub task: Option<Context>,
    pub context: Context,
    pub cause: Cause<E>,
}

impl<E> Error<E> {
    /// A failure with its context.
    pub open spec fn of(context: Context, cause: Cause<E>) -> Error<E> {
        Error { task: None, context, cause }
    }
}

/// `result`, its failure taken as one of the larger task `task`.
pub open spec fn within<T, E>(result: Result<T, Error<E>>, task: Context) -> Result<T, Error<E>> {
    match result {
        Ok(value) => Ok(value),
        Err(error) => Err(Error { task: Some(task), ..error }),
    }
}

/// Gives the failure of a call its context.
pub fn with_context<T, E>(result: Result<T, E>, context: Context) -> (r: Result<T, Error<E>>)
    ensures
        r == match result {
            Ok(value) => Ok(value),
            Err(error) => Err(Error::of(context, Cause::Filesystem(error))),
        },
{
    match result {
        Ok(value) => Ok(value),
        Err(error) => Err(Error { task: None, context, cause: Cause::Filesystem(error) }),
    }
}

/// The directory that `path` is in, or a failure with its context if it has none.
pub fn parent_with_context<E>(path: &Path, context: Context) -> (r: Result<&Path, Error<E>>)
    ensures
        match r {
            Ok(dir) => parent_of(owned(path)) == Some(owned(dir)),
            Err(error) => parent_of(owned(path)) is None && error == Error::of(
                context,
                Cause::<E>::NoParent,
            ),
        },
{
    match path.parent() {
        Some(dir) => Ok(dir),
        None => Err(Error { task: None, context, cause: Cause::NoParent }),
    }
}

/// Says that a failure came of the larger task `task`.
pub fn in_task<T, E>(result: Result<T, Error<E>>, task: Context) -> (r: Result<T, Error<E>>)
    ensures
        r == within(result, task),
{
    match result {
        Ok(value) => Ok(value),
        Err(error) => Err(
            Error { task: Some(task), context: error.context, cause: error.cause },
        ),
    }
}

} // verus!
