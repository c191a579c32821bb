//! The three invocations of `git` the wizard makes, and what the staged
//! listing means.
use vstd::prelude::*;
use crate::shell::Shell;

verus! {

/// The view of each argument of `s`.
pub open spec fn args_of(s: Shell) -> Seq<Seq<char>> {
    s.args@.map_values(|a: String| a@)
}

/// Lists the names of the staged files.
pub fn staged_files_command() -> (r: Shell)
    ensures
        r.program@ == "git"@,
        args_of(r) == seq!["diff"@, "--cached"@, "--no-ext-diff"@, "--name-only"@],
{
    let r = Shell::new("git").arg("diff").arg("--cached").arg("--no-ext-diff").arg("--name-only");
    assert(args_of(r) =~= seq!["diff"@, "--cached"@, "--no-ext-diff"@, "--name-only"@]);
    r
}

/// Prints the name of the current branch.
pub fn branch_command() -> (r: Shell)
    ensures
        r.program@ == "git"@,
        args_of(r) == seq!["branch"@, "--show-current"@],
{
    let r = Shell::new("git").arg("branch").arg("--show-current");
    assert(args_of(r) =~= seq!["branch"@, "--show-current"@]);
    r
}

/// Records the staged changes with `msg` as the message, exactly.
pub fn commit_command(msg: &str) -> (r: Shell)
    ensures
        r.program@ == "git"@,
        args_of(r) == seq!["commit"@, "-m"@, msg@],
{
    let r = Shell::new("git").arg("commit").arg("-m").arg(msg);
    assert(args_of(r) =~= seq!["commit"@, "-m"@, msg@]);
    r
}

/// Nothing is staged when the staged listing has no line.
pub fn is_clean(staged: &Vec<String>) -> (r: bool)
    ensures
        r == (staged@.len() == 0),
{
    staged.len() == 0
}

} // verus!
