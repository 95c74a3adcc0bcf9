//! The version-control client: how it is called, and what follows from
//! what it reports.

use vstd::prelude::*;
use crate::error::Error;

verus! {

/// A call of the client: the program, its arguments and the directory in
/// which it runs, if not the current one.
#[derive(Debug, PartialEq, Eq)]
pub struct Invocation {
    pub program: String,
    pub args: Vec<String>,
    pub dir: Option<String>,
}

/// A call of the client as contracts see it.
pub struct InvocationView {
    pub program: Seq<char>,
    pub args: Seq<Seq<char>>,
    pub dir: Option<Seq<char>>,
}

impl View for Invocation {
    type V = InvocationView;

    open spec fn view(&self) -> InvocationView {
        InvocationView {
            program: self.program@,
            args: self.args.deep_view(),
            dir: self.dir.deep_view(),
        }
    }
}

/// What is to be done after the remote side has been looked at.
#[derive(Clone, Copy, Debug, PartialEq, Eq, Structural)]
pub enum PullStep {
    /// The theme is up to date: nothing.
    Nothing,
    /// Move the branch forward to what was fetched.
    FastForward,
    /// The histories have parted: give up.
    Refuse,
}

/// The branch that is fetched where the remote side names no default.
pub open spec fn fallback_branch() -> Seq<char> {
    "refs/heads/master"@
}

/// The call that fetches `url` into `path`: `git clone <url> <path>`.
pub fn clone(url: &str, path: &str) -> (r: Invocation)
    ensures
        r@ == (InvocationView { program: "git"@, args: seq!["clone"@, url@, path@], dir: None }),
{
    let mut args: Vec<String> = Vec::new();
    args.push("clone".to_owned());
    args.push(url.to_owned());
    args.push(path.to_owned());
    assert(args.deep_view() =~= seq!["clone"@, url@, path@]);
    Invocation { program: "git".to_owned(), args, dir: None }
}

/// The call that brings the theme at `path` up to date: `git pull -r`,
/// run in `path`.
pub fn pull(path: &str) -> (r: Invocation)
    ensures
        r@ == (InvocationView {
            program: "git"@,
            args: seq!["pull"@, "-r"@],
            dir: Some(path@),
        }),
{
    let mut args: Vec<String> = Vec::new();
    args.push("pull".to_owned());
    args.push("-r".to_owned());
    assert(args.deep_view() =~= seq!["pull"@, "-r"@]);
    Invocation { program: "git".to_owned(), args, dir: Some(path.to_owned()) }
}

/// What a call of the client comes to: success only if it ran and
/// reported success, `Vcs` if it could not be run or reported a failure.
pub fn outcome(succeeded: Option<bool>) -> (r: Result<(), Error>)
    ensures
        r is Ok <==> succeeded == Some(true),
        r matches Err(e) ==> e == Error::Vcs,
{
    match succeeded {
        Some(true) => Ok(()),
        _ => Err(Error::Vcs),
    }
}

/// The branch to fetch: the default branch of the remote side, or
/// `refs/heads/master` where it names none that can be read.
pub fn fetch_branch(default_branch: Option<&str>) -> (r: String)
    ensures
        r@ == (match default_branch {
            Some(branch) => branch@,
            None => fallback_branch(),
        }),
{
    match default_branch {
        Some(branch) => branch.to_owned(),
        None => "refs/heads/master".to_owned(),
    }
}

/// What follows from comparing the theme with what was fetched: nothing
/// if it is up to date, a move forward if that is possible, else refusal.
pub fn pull_step(up_to_date: bool, fast_forward: bool) -> (r: PullStep)
    ensures
        up_to_date ==> r == PullStep::Nothing,
        !up_to_date && fast_forward ==> r == PullStep::FastForward,
        !up_to_date && !fast_forward ==> r == PullStep::Refuse,
{
    if up_to_date {
        PullStep::Nothing
    } else if fast_forward {
        PullStep::FastForward
    } else {
        PullStep::Refuse
    }
}

} // verus!
