//! What each call of a file system leaves in its history: one event more, with what was
//! handed to the call and what it returned.
use crate::config::{TemplateTarget, UnixUser, Variables};
use crate::difference::Diff;
use crate::filesystem::{
    Call, Event, FileHash, Filesystem, Reply, SymlinkComparison, TemplateComparison, TemplateDiff,
};
use crate::outside::owned;
use crate::script::{Fault, Script};
use handlebars::Handlebars;
use std::path::Path;
use vstd::prelude::*;

verus! {

/// `after` is `before` and the event of `call`, whose failure, if any, is `failure`, and
/// whose success is `success`.
pub open spec fn recorded<E>(
    before: Seq<Event<E>>,
    after: Seq<Event<E>>,
    call: Call,
    success: Reply<E>,
    failure: Option<E>,
) -> bool {
    &&& after.len() == before.len() + 1
    &&& before.is_prefix_of(after)
    &&& after.last().call == call
    &&& match failure {
        Some(error) => after.last().reply == Reply::Failed(error),
        None => after.last().reply == success,
    }
}

/// What a failed call reports.
pub open spec fn report_of<T, E>(result: Result<T, E>) -> Option<E> {
    match result {
        Ok(_) => None,
        Err(error) => Some(error),
    }
}

/// `compare_symlink` is recorded.
pub proof fn law_compare_symlink_is_recorded<F: Filesystem>(
    fs: &mut F,
    source: &Path,
    link: &Path,
    result: Result<SymlinkComparison, F::Error>,
)
    requires
        call_ensures(
            <F as Filesystem>::compare_symlink,
            (fs, source, link),
            result,
        ),
    ensures
        recorded(
            old(fs).history(),
            final(fs).history(),
            Call::CompareSymlink { source: owned(source), link: owned(link) },
            Reply::<F::Error>::Symlink(result->Ok_0),
            report_of(result),
        ),
{
}

/// `compare_template` is recorded.
pub proof fn law_compare_template_is_recorded<F: Filesystem>(
    fs: &mut F,
    target: &Path,
    cache: &Path,
    result: Result<TemplateComparison, F::Error>,
)
    requires
        call_ensures(
            <F as Filesystem>::compare_template,
            (fs, target, cache),
            result,
        ),
    ensures
        recorded(
            old(fs).history(),
            final(fs).history(),
            Call::CompareTemplate { target: owned(target), cache: owned(cache) },
            Reply::<F::Error>::Template(result->Ok_0),
            report_of(result),
        ),
{
}

/// `checksum_file` is recorded.
pub proof fn law_checksum_file_is_recorded<F: Filesystem>(
    fs: &mut F,
    path: &Path,
    result: Result<FileHash, F::Error>,
)
    requires
        call_ensures(
            <F as Filesystem>::checksum_file,
            (fs, path),
            result,
        ),
    ensures
        recorded(
            old(fs).history(),
            final(fs).history(),
            Call::ChecksumFile { path: owned(path) },
            Reply::<F::Error>::Hash(result->Ok_0),
            report_of(result),
        ),
{
}

/// `read_to_string` is recorded.
pub proof fn law_read_to_string_is_recorded<F: Filesystem>(
    fs: &mut F,
    path: &Path,
    result: Result<String, F::Error>,
)
    requires
        call_ensures(
            <F as Filesystem>::read_to_string,
            (fs, path),
            result,
        ),
    ensures
        recorded(
            old(fs).history(),
            final(fs).history(),
            Call::ReadToString { path: owned(path) },
            Reply::<F::Error>::Text(result->Ok_0),
            report_of(result),
        ),
{
}

/// `remove_file` is recorded.
pub proof fn law_remove_file_is_recorded<F: Filesystem>(
    fs: &mut F,
    path: &Path,
    result: Result<(), F::Error>,
)
    requires
        call_ensures(
            <F as Filesystem>::remove_file,
            (fs, path),
            result,
        ),
    ensures
        recorded(
            old(fs).history(),
            final(fs).history(),
            Call::RemoveFile { path: owned(path) },
            Reply::<F::Error>::Done,
            report_of(result),
        ),
{
}

/// `delete_parents` is recorded.
pub proof fn law_delete_parents_is_recorded<F: Filesystem>(
    fs: &mut F,
    path: &Path,
    no_ask: bool,
    result: Result<(), F::Error>,
)
    requires
        call_ensures(
            <F as Filesystem>::delete_parents,
            (fs, path, no_ask),
            result,
        ),
    ensures
        recorded(
            old(fs).history(),
            final(fs).history(),
            Call::DeleteParents { path: owned(path), no_ask },
            Reply::<F::Error>::Done,
            report_of(result),
        ),
{
}

/// `create_dir_all` is recorded.
pub proof fn law_create_dir_all_is_recorded<F: Filesystem>(
    fs: &mut F,
    path: &Path,
    owner: &Option<UnixUser>,
    result: Result<(), F::Error>,
)
    requires
        call_ensures(
            <F as Filesystem>::create_dir_all,
            (fs, path, owner),
            result,
        ),
    ensures
        recorded(
            old(fs).history(),
            final(fs).history(),
            Call::CreateDirAll { path: owned(path), owner: *owner },
            Reply::<F::Error>::Done,
            report_of(result),
        ),
{
}

/// `make_symlink` is recorded.
pub proof fn law_make_symlink_is_recorded<F: Filesystem>(
    fs: &mut F,
    link: &Path,
    source: &Path,
    owner: &Option<UnixUser>,
    result: Result<(), F::Error>,
)
    requires
        call_ensures(
            <F as Filesystem>::make_symlink,
            (fs, link, source, owner),
            result,
        ),
    ensures
        recorded(
            old(fs).history(),
            final(fs).history(),
            Call::MakeSymlink { link: owned(link), source: owned(source), owner: *owner },
            Reply::<F::Error>::Done,
            report_of(result),
        ),
{
}

/// `copy_file` is recorded.
pub proof fn law_copy_file_is_recorded<F: Filesystem>(
    fs: &mut F,
    source: &Path,
    target: &Path,
    owner: &Option<UnixUser>,
    result: Result<(), F::Error>,
)
    requires
        call_ensures(
            <F as Filesystem>::copy_file,
            (fs, source, target, owner),
            result,
        ),
    ensures
        recorded(
            old(fs).history(),
            final(fs).history(),
            Call::CopyFile { source: owned(source), target: owned(target), owner: *owner },
            Reply::<F::Error>::Done,
            report_of(result),
        ),
{
}

/// `copy_permissions` is recorded.
pub proof fn law_copy_permissions_is_recorded<F: Filesystem>(
    fs: &mut F,
    source: &Path,
    target: &Path,
    owner: &Option<UnixUser>,
    result: Result<(), F::Error>,
)
    requires
        call_ensures(
            <F as Filesystem>::copy_permissions,
            (fs, source, target, owner),
            result,
        ),
    ensures
        recorded(
            old(fs).history(),
            final(fs).history(),
            Call::CopyPermissions { source: owned(source), target: owned(target), owner: *owner },
            Reply::<F::Error>::Done,
            report_of(result),
        ),
{
}

/// `set_owner` is recorded.
pub proof fn law_set_owner_is_recorded<F: Filesystem>(
    fs: &mut F,
    path: &Path,
    owner: &Option<UnixUser>,
    result: Result<(), F::Error>,
)
    requires
        call_ensures(
            <F as Filesystem>::set_owner,
            (fs, path, owner),
            result,
        ),
    ensures
        recorded(
            old(fs).history(),
            final(fs).history(),
            Call::SetOwner { path: owned(path), owner: *owner },
            Reply::<F::Error>::Done,
            report_of(result),
        ),
{
}

/// `write` is recorded.
pub proof fn law_write_is_recorded<F: Filesystem>(
    fs: &mut F,
    path: &Path,
    content: String,
    result: Result<(), F::Error>,
)
    requires
        call_ensures(
            <F as Filesystem>::write,
            (fs, path, content),
            result,
        ),
    ensures
        recorded(
            old(fs).history(),
            final(fs).history(),
            Call::Write { path: owned(path), content },
            Reply::<F::Error>::Done,
            report_of(result),
        ),
{
}

/// `print_template_diff` is recorded.
pub proof fn law_print_template_diff_is_recorded<F: TemplateDiff>(
    fs: &mut F,
    source: &Path,
    target: &TemplateTarget,
    handlebars: &Handlebars<'_>,
    variables: &Variables,
    context_lines: usize,
    unit: (),
)
    requires
        call_ensures(
            <F as TemplateDiff>::print_template_diff,
            (fs, source, target, handlebars, variables, context_lines),
            unit,
        ),
    ensures
        recorded(
            old(fs).history(),
            final(fs).history(),
            Call::PrintTemplateDiff {
                source: owned(source),
                template: *target,
                handlebars: Ghost(*handlebars),
                variables: Ghost(*variables),
                context_lines,
            },
            Reply::<F::Error>::Done,
            None,
        ),
{
}

/// `generate_template_diff` is recorded.
pub proof fn law_generate_template_diff_is_recorded<F: TemplateDiff>(
    fs: &mut F,
    source: &Path,
    target: &TemplateTarget,
    handlebars: &Handlebars<'_>,
    variables: &Variables,
    source_to_target: bool,
    result: Result<Diff, F::Error>,
)
    requires
        call_ensures(
            <F as TemplateDiff>::generate_template_diff,
            (fs, source, target, handlebars, variables, source_to_target),
            result,
        ),
    ensures
        recorded(
            old(fs).history(),
            final(fs).history(),
            Call::GenerateTemplateDiff {
                source: owned(source),
                template: *target,
                handlebars: Ghost(*handlebars),
                variables: Ghost(*variables),
                source_to_target,
            },
            Reply::<F::Error>::Difference(result->Ok_0),
            report_of(result),
        ),
{
}

/// `info_enabled` is recorded.
pub proof fn law_info_enabled_is_recorded<F: TemplateDiff>(
    fs: &mut F,
    enabled: bool,
)
    requires
        call_ensures(
            <F as TemplateDiff>::info_enabled,
            (fs,),
            enabled,
        ),
    ensures
        recorded(
            old(fs).history(),
            final(fs).history(),
            Call::InfoEnabled,
            Reply::<F::Error>::Enabled(enabled),
            None,
        ),
{
}

/// `print_diff` is recorded.
pub proof fn law_print_diff_is_recorded<F: TemplateDiff>(
    fs: &mut F,
    diff: &Diff,
    context_lines: usize,
    unit: (),
)
    requires
        call_ensures(
            <F as TemplateDiff>::print_diff,
            (fs, diff, context_lines),
            unit,
        ),
    ensures
        recorded(
            old(fs).history(),
            final(fs).history(),
            Call::PrintDiff { diff: Ghost(diff@), context_lines },
            Reply::<F::Error>::Done,
            None,
        ),
{
}

/// A script begins with no call made and all its answers left, and lists the calls of its
/// history one by one.
pub proof fn law_script(
    answers: Vec<Reply<Fault>>,
    script: Script,
    later: &Script,
    calls: &Vec<Call>,
    count: usize,
)
    requires
        call_ensures(Script::new, (answers,), script),
        call_ensures(Script::calls, (later,), calls),
        call_ensures(Script::remaining, (later,), count),
    ensures
        script.history().len() == 0,
        script.answers() == answers@,
        calls@.len() == later.history().len(),
        forall|i: int|
            0 <= i < calls@.len() ==> #[trigger] calls@[i] == later.history()[i].call,
        count == later.answers().len(),
{
}

} // verus!
