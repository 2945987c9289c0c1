//! A file system that answers from a list, for rehearsing operations without
//! touching any file.
use crate::config::{copy_owner, TemplateTarget, UnixUser, Variables};
use crate::difference::Diff;
use crate::filesystem::{
    difference_reply, done, hash_reply, symlink_reply, template_reply, text_reply, Call, Event,
    FileHash, Filesystem, Reply, SymlinkComparison, TemplateComparison, TemplateDiff,
};
use crate::outside::owned;
use handlebars::Handlebars;
use std::path::Path;
use vstd::prelude::*;

verus! {

/// Why a scripted call failed.
#[derive(Clone, Copy, Debug, PartialEq, Eq, Structural)]
pub enum Fault {
    /// The script says that the call fails.
    Scripted(u32),
    /// The script has no answer, or not one of this kind.
    Unscripted,
}

/// A file system that gives the answers it was made with, one for each call that can
/// fail and for each question, and keeps a list of the calls.
pub struct Script {
    answers: Vec<Reply<Fault>>,
    calls: Vec<Call>,
    replies: Ghost<Seq<Reply<Fault>>>,
}

/// The answer to the next call.
pub open spec fn next_answer(answers: Seq<Reply<Fault>>) -> Option<Reply<Fault>> {
    if answers.len() > 0 {
        Some(answers[0])
    } else {
        None
    }
}

/// The answers that are left after the next call.
pub open spec fn later_answers(answers: Seq<Reply<Fault>>) -> Seq<Reply<Fault>> {
    if answers.len() > 0 {
        answers.remove(0)
    } else {
        answers
    }
}

/// An answer as the result of a call that returns nothing.
pub open spec fn as_done(answer: Option<Reply<Fault>>) -> Result<(), Fault> {
    match answer {
        Some(Reply::Done) => Ok(()),
        Some(Reply::Failed(fault)) => Err(fault),
        _ => Err(Fault::Unscripted),
    }
}

/// An answer as a result of type `SymlinkComparison`.
pub open spec fn as_symlink(answer: Option<Reply<Fault>>) -> Result<SymlinkComparison, Fault> {
    match answer {
        Some(Reply::Symlink(value)) => Ok(value),
        Some(Reply::Failed(fault)) => Err(fault),
        _ => Err(Fault::Unscripted),
    }
}

/// An answer as a result of type `TemplateComparison`.
pub open spec fn as_template(answer: Option<Reply<Fault>>) -> Result<TemplateComparison, Fault> {
    match answer {
        Some(Reply::Template(value)) => Ok(value),
        Some(Reply::Failed(fault)) => Err(fault),
        _ => Err(Fault::Unscripted),
    }
}

/// An answer as a result of type `FileHash`.
pub open spec fn as_hash(answer: Option<Reply<Fault>>) -> Result<FileHash, Fault> {
    match answer {
        Some(Reply::Hash(value)) => Ok(value),
        Some(Reply::Failed(fault)) => Err(fault),
        _ => Err(Fault::Unscripted),
    }
}

/// An answer as a result of type `String`.
pub open spec fn as_text(answer: Option<Reply<Fault>>) -> Result<String, Fault> {
    match answer {
        Some(Reply::Text(value)) => Ok(value),
        Some(Reply::Failed(fault)) => Err(fault),
        _ => Err(Fault::Unscripted),
    }
}

/// An answer as a result of type `Diff`.
pub open spec fn as_difference(answer: Option<Reply<Fault>>) -> Result<Diff, Fault> {
    match answer {
        Some(Reply::Difference(value)) => Ok(value),
        Some(Reply::Failed(fault)) => Err(fault),
        _ => Err(Fault::Unscripted),
    }
}

impl Script {
    /// The answers that are left.
    pub closed spec fn answers(&self) -> Seq<Reply<Fault>> {
        self.answers@
    }

    /// A file system that is going to give `answers`.
    pub fn new(answers: Vec<Reply<Fault>>) -> (script: Script)
        ensures
            script.answers() == answers@,
            script.history().len() == 0,
    {
        Script { answers, calls: Vec::new(), replies: Ghost(Seq::empty()) }
    }

    /// The calls made so far, the oldest first.
    pub fn calls(&self) -> (calls: &Vec<Call>)
        ensures
            calls@ == self.history().map_values(|event: Event<Fault>| event.call),
    {
        &self.calls
    }

    /// How many answers are left.
    pub fn remaining(&self) -> (count: usize)
        ensures
            count == self.answers().len(),
    {
        self.answers.len()
    }

    /// Takes the next answer off the list.
    fn take_answer(&mut self) -> (answer: Option<Reply<Fault>>)
        ensures
            answer == next_answer(old(self).answers()),
            final(self).answers() == later_answers(old(self).answers()),
            final(self).history() == old(self).history(),
    {
        if self.answers.len() > 0 {
            Some(self.answers.remove(0))
        } else {
            None
        }
    }

    /// Takes the next answer as the result of a call that returns nothing.
    fn take_done(&mut self) -> (result: Result<(), Fault>)
        ensures
            result == as_done(next_answer(old(self).answers())),
            final(self).answers() == later_answers(old(self).answers()),
            final(self).history() == old(self).history(),
    {
        match self.take_answer() {
            Some(Reply::Done) => Ok(()),
            Some(Reply::Failed(fault)) => Err(fault),
            _ => Err(Fault::Unscripted),
        }
    }

    /// Adds a call to the list and to the history.
    fn record(&mut self, call: Call, Ghost(reply): Ghost<Reply<Fault>>)
        ensures
            final(self).answers() == old(self).answers(),
            final(self).history() == old(self).history().push(Event { call, reply }),
    {
        let ghost before = self.history().map_values(|event: Event<Fault>| event.reply);
        self.calls.push(call);
        self.replies = Ghost(before.push(reply));
        assert(self.history() =~= old(self).history().push(Event { call, reply }));
    }
}

impl Filesystem for Script {
    type Error = Fault;

    closed spec fn history(&self) -> Seq<Event<Fault>> {
        Seq::new(
            self.calls@.len(),
            |i: int| Event { call: self.calls@[i], reply: self.replies@[i] },
        )
    }

    fn compare_symlink(
        &mut self,
        source: &Path,
        link: &Path,
    ) -> (result: Result<SymlinkComparison, Fault>)
        ensures
            result == as_symlink(next_answer(old(self).answers())),
            final(self).answers() == later_answers(old(self).answers()),
    {
        let result = match self.take_answer() {
            Some(Reply::Symlink(value)) => Ok(value),
            Some(Reply::Failed(fault)) => Err(fault),
            _ => Err(Fault::Unscripted),
        };
        self.record(
            Call::CompareSymlink { source: source.to_path_buf(), link: link.to_path_buf() },
            Ghost(symlink_reply(result)),
        );
        result
    }

    fn compare_template(
        &mut self,
        target: &Path,
        cache: &Path,
    ) -> (result: Result<TemplateComparison, Fault>)
        ensures
            result == as_template(next_answer(old(self).answers())),
            final(self).answers() == later_answers(old(self).answers()),
    {
        let result = match self.take_answer() {
            Some(Reply::Template(value)) => Ok(value),
            Some(Reply::Failed(fault)) => Err(fault),
            _ => Err(Fault::Unscripted),
        };
        self.record(
            Call::CompareTemplate { target: target.to_path_buf(), cache: cache.to_path_buf() },
            Ghost(template_reply(result)),
        );
        result
    }

    fn checksum_file(&mut self, path: &Path) -> (result: Result<FileHash, Fault>)
        ensures
            result == as_hash(next_answer(old(self).answers())),
            final(self).answers() == later_answers(old(self).answers()),
    {
        let result = match self.take_answer() {
            Some(Reply::Hash(value)) => Ok(value),
            Some(Reply::Failed(fault)) => Err(fault),
            _ => Err(Fault::Unscripted),
        };
        self.record(Call::ChecksumFile { path: path.to_path_buf() }, Ghost(hash_reply(result)));
        result
    }

    fn read_to_string(&mut self, path: &Path) -> (result: Result<String, Fault>)
        ensures
            result == as_text(next_answer(old(self).answers())),
            final(self).answers() == later_answers(old(self).answers()),
    {
        let result = match self.take_answer() {
            Some(Reply::Text(value)) => Ok(value),
            Some(Reply::Failed(fault)) => Err(fault),
            _ => Err(Fault::Unscripted),
        };
        self.record(Call::ReadToString { path: path.to_path_buf() }, Ghost(text_reply(result)));
        result
    }

    fn remove_file(&mut self, path: &Path) -> (result: Result<(), Fault>)
        ensures
            result == as_done(next_answer(old(self).answers())),
            final(self).answers() == later_answers(old(self).answers()),
    {
        let result = self.take_done();
        self.record(Call::RemoveFile { path: path.to_path_buf() }, Ghost(done(result)));
        result
    }

    fn delete_parents(&mut self, path: &Path, no_ask: bool) -> (result: Result<(), Fault>)
        ensures
            result == as_done(next_answer(old(self).answers())),
            final(self).answers() == later_answers(old(self).answers()),
    {
        let result = self.take_done();
        self.record(Call::DeleteParents { path: path.to_path_buf(), no_ask }, Ghost(done(result)));
        result
    }

    fn create_dir_all(
        &mut self,
        path: &Path,
        owner: &Option<UnixUser>,
    ) -> (result: Result<(), Fault>)
        ensures
            result == as_done(next_answer(old(self).answers())),
            final(self).answers() == later_answers(old(self).answers()),
    {
        let result = self.take_done();
        self.record(
            Call::CreateDirAll { path: path.to_path_buf(), owner: copy_owner(owner) },
            Ghost(done(result)),
        );
        result
    }

    fn make_symlink(
        &mut self,
        link: &Path,
        source: &Path,
        owner: &Option<UnixUser>,
    ) -> (result: Result<(), Fault>)
        ensures
            result == as_done(next_answer(old(self).answers())),
            final(self).answers() == later_answers(old(self).answers()),
    {
        let result = self.take_done();
        self.record(
            Call::MakeSymlink {
                link: link.to_path_buf(),
                source: source.to_path_buf(),
                owner: copy_owner(owner),
            },
            Ghost(done(result)),
        );
        result
    }

    fn copy_file(
        &mut self,
        source: &Path,
        target: &Path,
        owner: &Option<UnixUser>,
    ) -> (result: Result<(), Fault>)
        ensures
            result == as_done(next_answer(old(self).answers())),
            final(self).answers() == later_answers(old(self).answers()),
    {
        let result = self.take_done();
        self.record(
            Call::CopyFile {
                source: source.to_path_buf(),
                target: target.to_path_buf(),
                owner: copy_owner(owner),
            },
            Ghost(done(result)),
        );
        result
    }

    fn copy_permissions(
        &mut self,
        source: &Path,
        target: &Path,
        owner: &Option<UnixUser>,
    ) -> (result: Result<(), Fault>)
        ensures
            result == as_done(next_answer(old(self).answers())),
            final(self).answers() == later_answers(old(self).answers()),
    {
        let result = self.take_done();
        self.record(
            Call::CopyPermissions {
                source: source.to_path_buf(),
                target: target.to_path_buf(),
                owner: copy_owner(owner),
            },
            Ghost(done(result)),
        );
        result
    }

    fn set_owner(&mut self, path: &Path, owner: &Option<UnixUser>) -> (result: Result<(), Fault>)
        ensures
            result == as_done(next_answer(old(self).answers())),
            final(self).answers() == later_answers(old(self).answers()),
    {
        let result = self.take_done();
        self.record(
            Call::SetOwner { path: path.to_path_buf(), owner: copy_owner(owner) },
            Ghost(done(result)),
        );
        result
    }

    fn write(&mut self, path: &Path, content: String) -> (result: Result<(), Fault>)
        ensures
            result == as_done(next_answer(old(self).answers())),
            final(self).answers() == later_answers(old(self).answers()),
    {
        let result = self.take_done();
        self.record(Call::Write { path: path.to_path_buf(), content }, Ghost(done(result)));
        result
    }
}

impl TemplateDiff for Script {
    fn print_template_diff(
        &mut self,
        source: &Path,
        target: &TemplateTarget,
        handlebars: &Handlebars<'_>,
        variables: &Variables,
        context_lines: usize,
    )
        ensures
            final(self).answers() == old(self).answers(),
    {
        self.record(
            Call::PrintTemplateDiff {
                source: source.to_path_buf(),
                template: target.clone(),
                handlebars: Ghost(*handlebars),
                variables: Ghost(*variables),
                context_lines,
            },
            Ghost(Reply::Done),
        );
    }

    fn generate_template_diff(
        &mut self,
        source: &Path,
        target: &TemplateTarget,
        handlebars: &Handlebars<'_>,
        variables: &Variables,
        source_to_target: bool,
    ) -> (result: Result<Diff, Fault>)
        ensures
            result == as_difference(next_answer(old(self).answers())),
            final(self).answers() == later_answers(old(self).answers()),
    {
        let result = match self.take_answer() {
            Some(Reply::Difference(value)) => Ok(value),
            Some(Reply::Failed(fault)) => Err(fault),
            _ => Err(Fault::Unscripted),
        };
        self.record(
            Call::GenerateTemplateDiff {
                source: source.to_path_buf(),
                template: target.clone(),
                handlebars: Ghost(*handlebars),
                variables: Ghost(*variables),
                source_to_target,
            },
            Ghost(difference_reply(result)),
        );
        result
    }

    fn info_enabled(&mut self) -> (enabled: bool)
        ensures
            enabled == (next_answer(old(self).answers()) == Some(Reply::<Fault>::Enabled(true))),
            final(self).answers() == later_answers(old(self).answers()),
    {
        let enabled = match self.take_answer() {
            Some(Reply::Enabled(enabled)) => enabled,
            _ => false,
        };
        self.record(Call::InfoEnabled, Ghost(Reply::Enabled(enabled)));
        enabled
    }

    fn print_diff(&mut self, diff: &Diff, context_lines: usize)
        ensures
            final(self).answers() == old(self).answers(),
    {
        self.record(Call::PrintDiff { diff: Ghost(diff@), context_lines }, Ghost(Reply::Done));
    }
}

} // verus!
