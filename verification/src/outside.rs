//! The types and functions of `std` and of `handlebars` that the library relies
//! on, and what is taken for granted about them.
use handlebars::{Handlebars, JsonValue, RenderError};
use std::path::{Path, PathBuf};
use vstd::prelude::*;

verus! {

/// `std::path::Path`, carried around unopened.
#[verifier::external_type_specification]
#[verifier::external_body]
pub struct ExPath(Path);

/// `std::path::PathBuf`, carried around unopened.
#[verifier::external_type_specification]
#[verifier::external_body]
pub struct ExPathBuf(PathBuf);

/// `handlebars::Handlebars`, the registry of templates and helpers.
#[verifier::external_type_specification]
#[verifier::external_body]
pub struct ExHandlebars<'reg>(Handlebars<'reg>);

/// `handlebars::JsonValue`, the form in which `handlebars` takes its data.
#[verifier::external_type_specification]
#[verifier::external_body]
pub struct ExJsonValue(JsonValue);

/// `handlebars::RenderError`.
#[verifier::external_type_specification]
#[verifier::external_body]
pub struct ExRenderError(RenderError);

/// The owned form of a borrowed path: what `Path::to_path_buf` returns.
pub uninterp spec fn owned(path: &Path) -> PathBuf;

/// The path without its final component, if it has both: what `Path::parent`
/// returns, in owned form. Paths are those of the platform compiled for.
pub uninterp spec fn parent_of(path: PathBuf) -> Option<PathBuf>;

/// `Path::to_path_buf` makes the owned form of a path.
pub assume_specification[ Path::to_path_buf ](path: &Path) -> (buf: PathBuf)
    ensures
        buf == owned(path),
;

/// `PathBuf::as_path` borrows the whole path: the owned form of what it returns
/// is the path it was called on.
pub assume_specification[ PathBuf::as_path ](buf: &PathBuf) -> (path: &Path)
    ensures
        owned(path) == *buf,
;

/// `PathBuf::clone` returns the same path.
pub assume_specification[ <PathBuf as Clone>::clone ](buf: &PathBuf) -> (copy: PathBuf)
    ensures
        copy == *buf,
;

/// `Path::parent` depends on the path alone; [`parent_of`] names its result.
pub assume_specification[ Path::parent ](path: &Path) -> (parent: Option<&Path>)
    ensures
        match parent {
            Some(dir) => parent_of(owned(path)) == Some(owned(dir)),
            None => parent_of(owned(path)) is None,
        },
;

/// Whether `outcome` is what a call of `Handlebars::render_template` on this
/// registry, template and data came back with. A registry may hold helpers that
/// run programs or read files, so two calls may come back with different
/// outcomes.
pub uninterp spec fn may_render(
    registry: Handlebars<'_>,
    template: Seq<char>,
    data: JsonValue,
    outcome: Result<String, RenderError>,
) -> bool;

/// `Handlebars::render_template`: renders `template` with `data`. The outcome is
/// one that such a call can have; which one is left to the registered helpers.
/// Nothing is said of whether the call comes back: it does not if an inline partial
/// includes itself, if partials include each other, or if a helper panics. A registered
/// template that includes itself by its own name comes back as an error.
#[verifier::external_body]
pub(crate) fn render_template(
    registry: &Handlebars<'_>,
    template: &str,
    data: &JsonValue,
) -> (outcome: Result<String, RenderError>)
    ensures
        may_render(*registry, template@, *data, outcome),
{
    registry.render_template(template, data)
}

} // verus!
