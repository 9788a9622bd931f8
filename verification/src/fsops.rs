//! The one decision the filesystem convenience layer makes on its own: which
//! removal operation a kind tag selects. The filesystem calls themselves are
//! plain operating-system pass-throughs and live with the host application.

use vstd::prelude::*;
use crate::value::is_token;

verus! {

/// Which removal operation to perform.
#[derive(Clone, Copy, Debug, PartialEq, Eq, Structural)]
pub enum RemoveKind {
    /// Remove a single file.
    File,
    /// Remove a single, empty directory.
    Dir,
    /// Remove a directory and everything under it.
    Recursive,
}

/// The removal operation a kind tag spells; `None` for an unrecognized tag,
/// on which nothing is removed.
pub open spec fn remove_kind_of(s: Seq<char>) -> Option<RemoveKind> {
    if s == "f"@ || s == "file"@ {
        Some(RemoveKind::File)
    } else if s == "d"@ || s == "dir"@ {
        Some(RemoveKind::Dir)
    } else if s == "r"@ {
        Some(RemoveKind::Recursive)
    } else {
        None
    }
}

/// Resolves a removal kind tag.
pub fn resolve_remove_kind(s: &str) -> (r: Option<RemoveKind>)
    ensures
        r == remove_kind_of(s@),
{
    if is_token(s, "f") || is_token(s, "file") {
        Some(RemoveKind::File)
    } else if is_token(s, "d") || is_token(s, "dir") {
        Some(RemoveKind::Dir)
    } else if is_token(s, "r") {
        Some(RemoveKind::Recursive)
    } else {
        None
    }
}

} // verus!
