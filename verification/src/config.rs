//! What is deployed, and where.
use handlebars::JsonValue;
use std::path::PathBuf;
use vstd::prelude::*;

verus! {

/// The variables that templates are rendered with.
pub type Variables = JsonValue;

/// The user that a deployed file is to belong to.
#[derive(Debug)]
pub enum UnixUser {
    Uid(u32),
    Name(String),
}

impl Clone for UnixUser {
    fn clone(&self) -> (copy: Self)
        ensures
            copy == *self,
    {
        match self {
            UnixUser::Uid(uid) => UnixUser::Uid(*uid),
            UnixUser::Name(name) => UnixUser::Name(name.clone()),
        }
    }
}

/// A copy of the owner that a file is to have, if one is given.
pub(crate) fn copy_owner(owner: &Option<UnixUser>) -> (copy: Option<UnixUser>)
    ensures
        copy == *owner,
{
    match owner {
        Some(user) => Some(user.clone()),
        None => None,
    }
}

/// Where a symbolic link to a source file is placed.
#[derive(Debug)]
pub struct SymbolicTarget {
    pub target: PathBuf,
    pub owner: Option<UnixUser>,
}

/// Where a rendered template is placed, and what is put around its source before
/// it is rendered.
#[derive(Debug)]
pub struct TemplateTarget {
    pub target: PathBuf,
    pub owner: Option<UnixUser>,
    pub prepend: Option<String>,
    pub append: Option<String>,
}

impl Clone for TemplateTarget {
    fn clone(&self) -> (copy: Self)
        ensures
            copy == *self,
    {
        TemplateTarget {
            target: self.target.clone(),
            owner: copy_owner(&self.owner),
            prepend: match &self.prepend {
                Some(text) => Some(text.clone()),
                None => None,
            },
            append: match &self.append {
                Some(text) => Some(text.clone()),
                None => None,
            },
        }
    }
}

/// Where a source file is copied to.
#[derive(Debug)]
pub struct CopyTarget {
    pub target: PathBuf,
    pub owner: Option<UnixUser>,
}

/// What is remembered of a deployed copy: where it is, and the checksums of
/// source and target when they were last brought together.
#[derive(Debug)]
pub struct CopyEntry {
    pub target: PathBuf,
    pub source_checksum: u64,
    pub target_checksum: u64,
}

/// An optional text, `""` where there is none.
pub open spec fn text_or_empty(text: Option<String>) -> Seq<char> {
    match text {
        Some(text) => text@,
        None => Seq::empty(),
    }
}

impl TemplateTarget {
    /// The template text made of the contents of a source file.
    pub open spec fn template_text(self, contents: Seq<char>) -> Seq<char> {
        text_or_empty(self.prepend) + contents + text_or_empty(self.append)
    }

    /// Puts `prepend` in front of the contents and `append` behind them.
    pub fn apply_actions(&self, contents: String) -> (text: String)
        ensures
            text@ == self.template_text(contents@),
    {
        let ghost given = contents@;
        let mut text = match &self.prepend {
            Some(prepend) => prepend.clone(),
            None => String::new(),
        };
        text.append(contents.as_str());
        if let Some(append) = &self.append {
            text.append(append.as_str());
        }
        assert(text@ =~= self.template_text(given));
        text
    }
}

} // verus!
