//! Differences between a rendered template and the file it was deployed to.
use vstd::prelude::*;

verus! {

/// A line of a difference.
#[derive(Debug)]
pub enum DiffLine {
    /// A line of the old text that the new one lacks.
    Left(String),
    /// A line of both texts.
    Both(String),
    /// A line of the new text that the old one lacks.
    Right(String),
}

/// A difference, line by line.
pub type Diff = Vec<DiffLine>;

/// Whether the two texts differ: some line is not in both.
pub open spec fn differs(diff: Seq<DiffLine>) -> bool {
    exists|i: int| 0 <= i < diff.len() && !(#[trigger] diff[i] is Both)
}

/// Whether the difference shows any change.
pub fn diff_nonempty(diff: &Diff) -> (changed: bool)
    ensures
        changed == differs(diff@),
{
    let mut i: usize = 0;
    while i < diff.len()
        invariant
            i <= diff.len(),
            forall|j: int| 0 <= j < i ==> #[trigger] diff@[j] is Both,
        decreases diff.len() - i,
    {
        match &diff[i] {
            DiffLine::Both(_) => {},
            _ => {
                return true;
            },
        }
        i += 1;
    }
    false
}

} // verus!
