//! The checkout of the served application.
//!
//! Git itself is run by the caller. This module decides which command comes
//! next and what its outcome means: an existing checkout is updated and kept
//! even where the update fails; without a checkout the repository is cloned,
//! and only a failed clone is an error.

use vstd::prelude::*;
use vstd::string::StringExecFns;
use crate::text::{lines_of, push_line, same_str};

verus! {

// ---------------------------------------------------------------------------
// Is git there?
// ---------------------------------------------------------------------------

/// The systems for which an installation hint is known.
#[derive(Clone, Copy, Debug, PartialEq, Eq, Structural)]
pub enum Platform {
    MacOs,
    Windows,
    Linux,
    Other,
}

/// The platform that an operating system's name stands for.
pub open spec fn platform_named(os: Seq<char>) -> Platform {
    if os == "macos"@ {
        Platform::MacOs
    } else if os == "windows"@ {
        Platform::Windows
    } else if os == "linux"@ {
        Platform::Linux
    } else {
        Platform::Other
    }
}

/// The lines that tell how to install git on a platform.
pub open spec fn install_hint(platform: Platform) -> Seq<Seq<char>> {
    match platform {
        Platform::MacOs => seq![
            "Install git on macOS:"@,
            "  xcode-select --install"@,
            "or using Homebrew:"@,
            "  brew install git"@,
        ],
        Platform::Windows => seq![
            "Install Git for Windows from:"@,
            "  https://git-scm.com/download/win"@,
            "or via winget:"@,
            "  winget install --id Git.Git -e"@,
        ],
        Platform::Linux => seq![
            "Install git on Linux:"@,
            "  Debian/Ubuntu: sudo apt-get install git"@,
            "  Fedora:        sudo dnf install git"@,
            "  Arch Linux:    sudo pacman -S git"@,
        ],
        Platform::Other => seq!["Please install git from https://git-scm.com/downloads"@],
    }
}

/// What is shown where git cannot be run on the system named `os`.
pub open spec fn missing_git_lines(os: Seq<char>) -> Seq<Seq<char>> {
    seq!["`git` was not found or is not working."@] + install_hint(platform_named(os))
}

/// The platform that an operating system's name stands for.
pub fn platform_of(os: &str) -> (platform: Platform)
    ensures
        platform == platform_named(os@),
{
    if same_str(os, "macos") {
        Platform::MacOs
    } else if same_str(os, "windows") {
        Platform::Windows
    } else if same_str(os, "linux") {
        Platform::Linux
    } else {
        Platform::Other
    }
}

/// Whether git can be run, given how `git --version` went: `None` where it
/// could not be started, else whether it exited with success. Where git is
/// missing the result holds what to show: that git was not found, and how
/// to install it on the system named `os`.
pub fn ensure_git_available(version_probe: Option<bool>, os: &str) -> (r: Result<(), Vec<String>>)
    ensures
        r is Ok <==> version_probe == Some(true),
        r matches Err(lines) ==> lines_of(lines@) == missing_git_lines(os@),
{
    match version_probe {
        Some(true) => {
            return Ok(());
        },
        _ => {},
    }
    let mut lines: Vec<String> = Vec::new();
    assert(lines_of(lines@) =~= Seq::<Seq<char>>::empty());
    push_line(&mut lines, "`git` was not found or is not working.");
    match platform_of(os) {
        Platform::MacOs => {
            push_line(&mut lines, "Install git on macOS:");
            push_line(&mut lines, "  xcode-select --install");
            push_line(&mut lines, "or using Homebrew:");
            push_line(&mut lines, "  brew install git");
        },
        Platform::Windows => {
            push_line(&mut lines, "Install Git for Windows from:");
            push_line(&mut lines, "  https://git-scm.com/download/win");
            push_line(&mut lines, "or via winget:");
            push_line(&mut lines, "  winget install --id Git.Git -e");
        },
        Platform::Linux => {
            push_line(&mut lines, "Install git on Linux:");
            push_line(&mut lines, "  Debian/Ubuntu: sudo apt-get install git");
            push_line(&mut lines, "  Fedora:        sudo dnf install git");
            push_line(&mut lines, "  Arch Linux:    sudo pacman -S git");
        },
        Platform::Other => {
            push_line(&mut lines, "Please install git from https://git-scm.com/downloads");
        },
    }
    assert(lines_of(lines@) =~= missing_git_lines(os@));
    Err(lines)
}

// ---------------------------------------------------------------------------
// Clone or update
// ---------------------------------------------------------------------------

/// One thing for the caller to do.
#[derive(Clone, Copy, Debug, PartialEq, Eq, Structural)]
pub enum RepoAction {
    /// `git -C <web> fetch --depth 1 origin`
    Fetch,
    /// `git -C <web> reset --hard origin/HEAD`
    Reset,
    /// Remove the web directory and all in it.
    RemoveWebDir,
    /// `git clone --depth 1 <url> <web>`
    Clone,
}

/// How an action went.
#[derive(Clone, Copy, Debug, PartialEq, Eq, Structural)]
pub enum Ran {
    /// It could not be carried out at all.
    NotRun,
    /// It was carried out and ended with or without success.
    Exited { success: bool },
}

/// Why the checkout could not be had.
#[derive(Clone, Copy, Debug, PartialEq, Eq, Structural)]
pub enum RepoError {
    FetchNotRun,
    ResetNotRun,
    RemoveFailed,
    CloneNotRun,
    CloneFailed,
}

/// Why an existing checkout was left as it was.
#[derive(Clone, Copy, Debug, PartialEq, Eq, Structural)]
pub enum RepoNotice {
    FetchFailed,
    ResetFailed,
}

/// Where the work stands.
#[derive(Clone, Copy, Debug, PartialEq, Eq, Structural)]
pub enum RepoStep {
    /// Carry out this action and report how it went.
    Run(RepoAction),
    /// The checkout is in place; possibly an older one, as the notice says.
    Done(Option<RepoNotice>),
    /// There is no checkout.
    Failed(RepoError),
}

/// The first action: with a checkout in place (the web directory and `.git`
/// in it), an update; with a web directory that is no checkout, its removal;
/// else a clone.
pub open spec fn repo_first_action(web_dir_exists: bool, git_dir_exists: bool) -> RepoAction {
    if web_dir_exists && git_dir_exists {
        RepoAction::Fetch
    } else if web_dir_exists {
        RepoAction::RemoveWebDir
    } else {
        RepoAction::Clone
    }
}

/// What follows an action that went as `ran` says.
pub open spec fn repo_next(action: RepoAction, ran: Ran) -> RepoStep {
    match action {
        RepoAction::Fetch => match ran {
            Ran::NotRun => RepoStep::Failed(RepoError::FetchNotRun),
            Ran::Exited { success: false } => RepoStep::Done(Some(RepoNotice::FetchFailed)),
            Ran::Exited { success: true } => RepoStep::Run(RepoAction::Reset),
        },
        RepoAction::Reset => match ran {
            Ran::NotRun => RepoStep::Failed(RepoError::ResetNotRun),
            Ran::Exited { success: false } => RepoStep::Done(Some(RepoNotice::ResetFailed)),
            Ran::Exited { success: true } => RepoStep::Done(None),
        },
        RepoAction::RemoveWebDir => match ran {
            Ran::Exited { success: true } => RepoStep::Run(RepoAction::Clone),
            _ => RepoStep::Failed(RepoError::RemoveFailed),
        },
        RepoAction::Clone => match ran {
            Ran::NotRun => RepoStep::Failed(RepoError::CloneNotRun),
            Ran::Exited { success: false } => RepoStep::Failed(RepoError::CloneFailed),
            Ran::Exited { success: true } => RepoStep::Done(None),
        },
    }
}

/// Begins the work, given what is on disk.
pub fn ensure_repo(web_dir_exists: bool, git_dir_exists: bool) -> (step: RepoStep)
    ensures
        step == RepoStep::Run(repo_first_action(web_dir_exists, git_dir_exists)),
{
    if web_dir_exists && git_dir_exists {
        RepoStep::Run(RepoAction::Fetch)
    } else if web_dir_exists {
        RepoStep::Run(RepoAction::RemoveWebDir)
    } else {
        RepoStep::Run(RepoAction::Clone)
    }
}

/// Goes on after `action` went as `ran` says.
pub fn repo_after(action: RepoAction, ran: Ran) -> (step: RepoStep)
    ensures
        step == repo_next(action, ran),
{
    match action {
        RepoAction::Fetch => match ran {
            Ran::NotRun => RepoStep::Failed(RepoError::FetchNotRun),
            Ran::Exited { success } => if success {
                RepoStep::Run(RepoAction::Reset)
            } else {
                RepoStep::Done(Some(RepoNotice::FetchFailed))
            },
        },
        RepoAction::Reset => match ran {
            Ran::NotRun => RepoStep::Failed(RepoError::ResetNotRun),
            Ran::Exited { success } => if success {
                RepoStep::Done(None)
            } else {
                RepoStep::Done(Some(RepoNotice::ResetFailed))
            },
        },
        RepoAction::RemoveWebDir => match ran {
            Ran::NotRun => RepoStep::Failed(RepoError::RemoveFailed),
            Ran::Exited { success } => if success {
                RepoStep::Run(RepoAction::Clone)
            } else {
                RepoStep::Failed(RepoError::RemoveFailed)
            },
        },
        RepoAction::Clone => match ran {
            Ran::NotRun => RepoStep::Failed(RepoError::CloneNotRun),
            Ran::Exited { success } => if success {
                RepoStep::Done(None)
            } else {
                RepoStep::Failed(RepoError::CloneFailed)
            },
        },
    }
}

/// The arguments of the git command of an action, for the web directory
/// `web_dir` and the repository at `url`. Removing the directory is no git
/// command and has none.
pub open spec fn git_arguments_of(action: RepoAction, web_dir: Seq<char>, url: Seq<char>) -> Seq<
    Seq<char>,
> {
    match action {
        RepoAction::Fetch => seq!["-C"@, web_dir, "fetch"@, "--depth"@, "1"@, "origin"@],
        RepoAction::Reset => seq!["-C"@, web_dir, "reset"@, "--hard"@, "origin/HEAD"@],
        RepoAction::RemoveWebDir => Seq::<Seq<char>>::empty(),
        RepoAction::Clone => seq!["clone"@, "--depth"@, "1"@, url, web_dir],
    }
}

/// The arguments to run git with for an action.
pub fn git_arguments(action: RepoAction, web_dir: &str, url: &str) -> (args: Vec<String>)
    ensures
        lines_of(args@) == git_arguments_of(action, web_dir@, url@),
{
    let mut args: Vec<String> = Vec::new();
    assert(lines_of(args@) =~= Seq::<Seq<char>>::empty());
    match action {
        RepoAction::Fetch => {
            push_line(&mut args, "-C");
            push_line(&mut args, web_dir);
            push_line(&mut args, "fetch");
            push_line(&mut args, "--depth");
            push_line(&mut args, "1");
            push_line(&mut args, "origin");
        },
        RepoAction::Reset => {
            push_line(&mut args, "-C");
            push_line(&mut args, web_dir);
            push_line(&mut args, "reset");
            push_line(&mut args, "--hard");
            push_line(&mut args, "origin/HEAD");
        },
        RepoAction::RemoveWebDir => {},
        RepoAction::Clone => {
            push_line(&mut args, "clone");
            push_line(&mut args, "--depth");
            push_line(&mut args, "1");
            push_line(&mut args, url);
            push_line(&mut args, web_dir);
        },
    }
    assert(lines_of(args@) =~= git_arguments_of(action, web_dir@, url@));
    args
}

impl RepoError {
    /// The text of the diagnostic. `detail` is what the system said: the
    /// exit status of a failed clone, or why the directory could not be
    /// removed.
    pub open spec fn message(self, detail: Seq<char>) -> Seq<char> {
        match self {
            RepoError::FetchNotRun => "failed to execute git fetch"@,
            RepoError::ResetNotRun => "failed to execute git reset"@,
            RepoError::RemoveFailed => detail,
            RepoError::CloneNotRun => "failed to execute git clone"@,
            RepoError::CloneFailed => "git clone failed with status "@ + detail,
        }
    }

    /// The diagnostic for this error.
    pub fn describe(&self, detail: &str) -> (text: String)
        ensures
            text@ == self.message(detail@),
    {
        match self {
            RepoError::FetchNotRun => String::from_str("failed to execute git fetch"),
            RepoError::ResetNotRun => String::from_str("failed to execute git reset"),
            RepoError::RemoveFailed => String::from_str(detail),
            RepoError::CloneNotRun => String::from_str("failed to execute git clone"),
            RepoError::CloneFailed => {
                let mut text = String::from_str("git clone failed with status ");
                text.append(detail);
                text
            },
        }
    }
}

impl RepoNotice {
    /// The text of the notice.
    pub open spec fn message(self) -> Seq<char> {
        match self {
            RepoNotice::FetchFailed => "git fetch failed, keeping existing checkout"@,
            RepoNotice::ResetFailed => "git reset failed, keeping existing checkout"@,
        }
    }

    /// The notice to show.
    pub fn describe(&self) -> (text: String)
        ensures
            text@ == self.message(),
    {
        match self {
            RepoNotice::FetchFailed => String::from_str(
                "git fetch failed, keeping existing checkout",
            ),
            RepoNotice::ResetFailed => String::from_str(
                "git reset failed, keeping existing checkout",
            ),
        }
    }
}

/// The work is over after two actions at most, whatever their outcomes.
pub proof fn lemma_repo_ends(web_dir_exists: bool, git_dir_exists: bool, first: Ran, second: Ran)
    ensures
        repo_next(repo_first_action(web_dir_exists, git_dir_exists), first) matches RepoStep::Run(
            then,
        ) ==> !(repo_next(then, second) is Run),
{
}

/// A checkout that is in place is never removed, and an update of it that
/// ran never ends in an error: the older checkout is kept and served.
pub proof fn lemma_checkout_is_kept(first: Ran, second: Ran)
    ensures
        repo_first_action(true, true) == RepoAction::Fetch,
        repo_next(RepoAction::Fetch, first) != RepoStep::Run(RepoAction::RemoveWebDir),
        repo_next(RepoAction::Fetch, first) != RepoStep::Run(RepoAction::Clone),
        repo_next(RepoAction::Reset, second) != RepoStep::Run(RepoAction::RemoveWebDir),
        repo_next(RepoAction::Reset, second) != RepoStep::Run(RepoAction::Clone),
        first is Exited ==> !(repo_next(RepoAction::Fetch, first) is Failed),
        second is Exited ==> !(repo_next(RepoAction::Reset, second) is Failed),
{
}

} // verus!
