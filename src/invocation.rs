//! What each operation of the gateway invokes: the program to run and the
//! argument list to hand it.
use vstd::prelude::*;

verus! {

/// The version-control operations the gateway offers. Each one runs `git` in a
/// working directory chosen by the caller.
pub enum GitOperation {
    /// `git status --porcelain`: the state of the working tree in a stable,
    /// script-friendly format.
    Status,
    /// `git add -A`: stage every change, including new and removed files.
    StageAll,
    /// `git commit -m <message>`; the message is passed on as it is, so an
    /// empty one is left for `git` to reject.
    Commit { message: String },
    /// `git push`.
    Push,
}

/// The name of the version-control executable, resolved on the search path.
pub open spec fn git_program_spec() -> Seq<char> {
    "git"@
}

/// The name of the operating system's launcher.
pub open spec fn launcher_program_spec() -> Seq<char> {
    "open"@
}

/// The program every version-control operation runs.
pub fn git_program() -> (r: String)
    ensures
        r@ == git_program_spec(),
{
    String::from_str("git")
}

/// The program both launcher operations run.
pub fn launcher_program() -> (r: String)
    ensures
        r@ == launcher_program_spec(),
{
    String::from_str("open")
}

impl GitOperation {
    /// The arguments handed to `git` for this operation.
    pub open spec fn spec_args(&self) -> Seq<Seq<char>> {
        match self {
            GitOperation::Status => seq!["status"@, "--porcelain"@],
            GitOperation::StageAll => seq!["add"@, "-A"@],
            GitOperation::Commit { message } => seq!["commit"@, "-m"@, message@],
            GitOperation::Push => seq!["push"@],
        }
    }

    /// Builds the argument list for this operation.
    pub fn args(&self) -> (r: Vec<String>)
        ensures
            r.deep_view() == self.spec_args(),
    {
        let mut r: Vec<String> = Vec::new();
        match self {
            GitOperation::Status => {
                r.push(String::from_str("status"));
                r.push(String::from_str("--porcelain"));
            },
            GitOperation::StageAll => {
                r.push(String::from_str("add"));
                r.push(String::from_str("-A"));
            },
            GitOperation::Commit { message } => {
                r.push(String::from_str("commit"));
                r.push(String::from_str("-m"));
                r.push(message.clone());
            },
            GitOperation::Push => {
                r.push(String::from_str("push"));
            },
        }
        assert(r.deep_view() =~= self.spec_args());
        r
    }
}

/// The two launcher operations. Each hands a path to the operating system's
/// `open` launcher and does not wait for the launched program.
pub enum Launcher {
    /// Open a terminal window at the path: `open -a Terminal <path>`.
    Terminal,
    /// Show the path in the file browser: `open <path>`.
    FileBrowser,
}

impl Launcher {
    /// The arguments handed to the launcher for `path`.
    pub open spec fn spec_args(&self, path: Seq<char>) -> Seq<Seq<char>> {
        match self {
            Launcher::Terminal => seq!["-a"@, "Terminal"@, path],
            Launcher::FileBrowser => seq![path],
        }
    }

    /// Builds the argument list for opening `path`.
    pub fn args(&self, path: &str) -> (r: Vec<String>)
        ensures
            r.deep_view() == self.spec_args(path@),
    {
        let mut r: Vec<String> = Vec::new();
        match self {
            Launcher::Terminal => {
                r.push(String::from_str("-a"));
                r.push(String::from_str("Terminal"));
                r.push(String::from_str(path));
            },
            Launcher::FileBrowser => {
                r.push(String::from_str(path));
            },
        }
        assert(r.deep_view() =~= self.spec_args(path@));
        r
    }
}

} // verus!
