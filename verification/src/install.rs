//! Installing the program: whether its directory is already on the PATH and,
//! when not, which shell start-up file gets the line that puts it there.
use vstd::prelude::*;

use crate::text::{concat3, contains, str_contains};

verus! {

/// `.local/bin`, the directory the program is installed into under the home
/// directory.
pub open spec fn local_bin() -> Seq<char> {
    ".local/bin"@
}

/// The shell line that puts `~/.local/bin` on the PATH.
pub open spec fn export_line_text() -> Seq<char> {
    "export PATH=\"$HOME/.local/bin:$PATH\""@
}

/// The shell line that puts `~/.local/bin` on the PATH.
pub fn export_line() -> (s: &'static str)
    ensures
        s@ == export_line_text(),
{
    "export PATH=\"$HOME/.local/bin:$PATH\""
}

/// What is appended to a shell start-up file: a blank line, a comment naming
/// the program, and the export line.
pub fn rc_addition() -> (s: String)
    ensures
        s@ == "\n# SoureiGate\n"@ + export_line_text() + "\n"@,
{
    concat3("\n# SoureiGate\n", export_line(), "\n")
}

/// What the installer does about the PATH.
#[derive(PartialEq, Eq, Structural, Clone, Copy, Debug)]
pub enum PathPlan {
    /// The PATH already holds the directory.
    AlreadyOnPath,
    /// Append the export line to the start-up file at this position.
    AppendTo(usize),
    /// No start-up file can take it: the user is told to add it by hand.
    Manual,
}

/// The start-up file exists (`Some` of its text) and does not mention the
/// directory yet.
pub open spec fn needs_line(rc: Option<String>) -> bool {
    rc matches Some(text) && !contains(text@, local_bin())
}

/// The plan for a PATH `path` and the shell start-up files `rcs`, in the
/// order they are tried (`None` for one that does not exist): nothing when
/// the PATH mentions the directory, else the first file that exists and does
/// not mention it, else a manual step.
pub fn path_plan(path: &str, rcs: &Vec<Option<String>>) -> (p: PathPlan)
    ensures
        contains(path@, local_bin()) ==> p == PathPlan::AlreadyOnPath,
        !contains(path@, local_bin()) ==> match p {
            PathPlan::AppendTo(i) => i < rcs@.len() && needs_line(rcs@[i as int]) && forall|j: int|
                0 <= j < i ==> !needs_line(#[trigger] rcs@[j]),
            PathPlan::Manual => forall|j: int| 0 <= j < rcs@.len() ==> !needs_line(#[trigger] rcs@[j]),
            PathPlan::AlreadyOnPath => false,
        },
{
    if str_contains(path, ".local/bin") {
        return PathPlan::AlreadyOnPath;
    }
    let mut i: usize = 0;
    while i < rcs.len()
        invariant
            i <= rcs@.len(),
            !contains(path@, local_bin()),
            forall|j: int| 0 <= j < i ==> !needs_line(#[trigger] rcs@[j]),
        decreases rcs@.len() - i,
    {
        match &rcs[i] {
            Some(text) => {
                if !str_contains(text.as_str(), ".local/bin") {
                    return PathPlan::AppendTo(i);
                }
            },
            None => {},
        }
        i = i + 1;
    }
    PathPlan::Manual
}

} // verus!
