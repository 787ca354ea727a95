use tbl::handlers::{setup_after, setup_handler, SetupNext, SetupStage};
use tbl::pages::{clone_failed_page, git_required_page};
use tbl::reply::{Content, Reply};
use tbl::repo::{
    ensure_git_available, ensure_repo, git_arguments, platform_of, repo_after, Platform, Ran,
    RepoAction, RepoError, RepoNotice, RepoStep,
};

#[test]
fn setup_needs_a_git_url() {
    for field in ["", "   ", "\t\n"] {
        let (url, next) = setup_handler(field);
        assert_eq!(url, None);
        assert_eq!(
            next,
            SetupNext::Finish(Reply::with_body(
                400,
                Content::Html,
                "<h1>Missing git URL</h1>".to_string()
            ))
        );
    }
}

#[test]
fn setup_trims_the_git_url() {
    let (url, next) = setup_handler("  https://example.org/ui.git \n");
    assert_eq!(url, Some("https://example.org/ui.git".to_string()));
    assert_eq!(next, SetupNext::Continue(SetupStage::CheckGit));
}

#[test]
fn setup_runs_its_stages_in_order() {
    assert_eq!(setup_after(SetupStage::CheckGit, None), SetupNext::Continue(SetupStage::SyncRepo));
    assert_eq!(setup_after(SetupStage::SyncRepo, None), SetupNext::Continue(SetupStage::SaveConfig));
    assert_eq!(setup_after(SetupStage::SaveConfig, None), SetupNext::Finish(Reply::redirect(303, "/")));
}

#[test]
fn setup_goes_on_when_the_configuration_cannot_be_stored() {
    assert_eq!(
        setup_after(SetupStage::SaveConfig, Some("disk full")),
        SetupNext::Finish(Reply::redirect(303, "/"))
    );
}

#[test]
fn setup_shows_why_git_is_missing() {
    let next = setup_after(SetupStage::CheckGit, Some("git not available on PATH"));
    let page = "<!doctype html><html><body>\n            <h1>Git is required</h1>\n            <pre>git not available on PATH</pre>\n            <p>Please install git and try again.</p>\n            </body></html>";
    assert_eq!(git_required_page("git not available on PATH"), page);
    assert_eq!(next, SetupNext::Finish(Reply::with_body(500, Content::Html, page.to_string())));
}

#[test]
fn setup_shows_why_the_clone_failed() {
    let next = setup_after(SetupStage::SyncRepo, Some("git clone failed with status exit status: 128"));
    let page = "<!doctype html><html><body>\n            <h1>Failed to clone repository</h1>\n            <pre>git clone failed with status exit status: 128</pre>\n            <p><a href=\"/\">Back</a></p>\n            </body></html>";
    assert_eq!(clone_failed_page("git clone failed with status exit status: 128"), page);
    assert_eq!(next, SetupNext::Finish(Reply::with_body(500, Content::Html, page.to_string())));
}

#[test]
fn git_is_available_only_when_its_version_check_succeeds() {
    assert_eq!(ensure_git_available(Some(true), "linux"), Ok(()));
    assert!(ensure_git_available(Some(false), "linux").is_err());
    assert!(ensure_git_available(None, "linux").is_err());
}

#[test]
fn missing_git_comes_with_a_hint_for_the_platform() {
    assert_eq!(
        ensure_git_available(None, "macos"),
        Err(vec![
            "`git` was not found or is not working.".to_string(),
            "Install git on macOS:".to_string(),
            "  xcode-select --install".to_string(),
            "or using Homebrew:".to_string(),
            "  brew install git".to_string(),
        ])
    );
    assert_eq!(
        ensure_git_available(Some(false), "windows"),
        Err(vec![
            "`git` was not found or is not working.".to_string(),
            "Install Git for Windows from:".to_string(),
            "  https://git-scm.com/download/win".to_string(),
            "or via winget:".to_string(),
            "  winget install --id Git.Git -e".to_string(),
        ])
    );
    assert_eq!(
        ensure_git_available(None, "linux"),
        Err(vec![
            "`git` was not found or is not working.".to_string(),
            "Install git on Linux:".to_string(),
            "  Debian/Ubuntu: sudo apt-get install git".to_string(),
            "  Fedora:        sudo dnf install git".to_string(),
            "  Arch Linux:    sudo pacman -S git".to_string(),
        ])
    );
    assert_eq!(
        ensure_git_available(None, "freebsd"),
        Err(vec![
            "`git` was not found or is not working.".to_string(),
            "Please install git from https://git-scm.com/downloads".to_string(),
        ])
    );
}

#[test]
fn platforms_are_told_by_exact_name() {
    assert_eq!(platform_of("macos"), Platform::MacOs);
    assert_eq!(platform_of("windows"), Platform::Windows);
    assert_eq!(platform_of("linux"), Platform::Linux);
    assert_eq!(platform_of("Linux"), Platform::Other);
    assert_eq!(platform_of(""), Platform::Other);
}

#[test]
fn existing_checkout_is_updated() {
    assert_eq!(ensure_repo(true, true), RepoStep::Run(RepoAction::Fetch));
    assert_eq!(
        repo_after(RepoAction::Fetch, Ran::Exited { success: true }),
        RepoStep::Run(RepoAction::Reset)
    );
    assert_eq!(repo_after(RepoAction::Reset, Ran::Exited { success: true }), RepoStep::Done(None));
}

#[test]
fn failed_update_keeps_the_existing_checkout() {
    assert_eq!(
        repo_after(RepoAction::Fetch, Ran::Exited { success: false }),
        RepoStep::Done(Some(RepoNotice::FetchFailed))
    );
    assert_eq!(
        repo_after(RepoAction::Reset, Ran::Exited { success: false }),
        RepoStep::Done(Some(RepoNotice::ResetFailed))
    );
    assert_eq!(RepoNotice::FetchFailed.describe(), "git fetch failed, keeping existing checkout");
    assert_eq!(RepoNotice::ResetFailed.describe(), "git reset failed, keeping existing checkout");
}

#[test]
fn git_that_cannot_be_started_is_an_error() {
    assert_eq!(repo_after(RepoAction::Fetch, Ran::NotRun), RepoStep::Failed(RepoError::FetchNotRun));
    assert_eq!(repo_after(RepoAction::Reset, Ran::NotRun), RepoStep::Failed(RepoError::ResetNotRun));
    assert_eq!(repo_after(RepoAction::Clone, Ran::NotRun), RepoStep::Failed(RepoError::CloneNotRun));
    assert_eq!(RepoError::FetchNotRun.describe(""), "failed to execute git fetch");
    assert_eq!(RepoError::ResetNotRun.describe(""), "failed to execute git reset");
    assert_eq!(RepoError::CloneNotRun.describe(""), "failed to execute git clone");
}

#[test]
fn missing_checkout_is_cloned() {
    assert_eq!(ensure_repo(false, false), RepoStep::Run(RepoAction::Clone));
    assert_eq!(ensure_repo(false, true), RepoStep::Run(RepoAction::Clone));
    assert_eq!(repo_after(RepoAction::Clone, Ran::Exited { success: true }), RepoStep::Done(None));
    assert_eq!(
        repo_after(RepoAction::Clone, Ran::Exited { success: false }),
        RepoStep::Failed(RepoError::CloneFailed)
    );
    assert_eq!(
        RepoError::CloneFailed.describe("exit status: 128"),
        "git clone failed with status exit status: 128"
    );
}

#[test]
fn directory_that_is_no_checkout_is_removed_before_the_clone() {
    assert_eq!(ensure_repo(true, false), RepoStep::Run(RepoAction::RemoveWebDir));
    assert_eq!(
        repo_after(RepoAction::RemoveWebDir, Ran::Exited { success: true }),
        RepoStep::Run(RepoAction::Clone)
    );
    assert_eq!(
        repo_after(RepoAction::RemoveWebDir, Ran::Exited { success: false }),
        RepoStep::Failed(RepoError::RemoveFailed)
    );
    assert_eq!(
        repo_after(RepoAction::RemoveWebDir, Ran::NotRun),
        RepoStep::Failed(RepoError::RemoveFailed)
    );
    assert_eq!(RepoError::RemoveFailed.describe("Permission denied"), "Permission denied");
}

#[test]
fn git_commands_are_shallow() {
    assert_eq!(
        git_arguments(RepoAction::Fetch, "/cfg/web", "https://example.org/ui.git"),
        vec!["-C", "/cfg/web", "fetch", "--depth", "1", "origin"]
    );
    assert_eq!(
        git_arguments(RepoAction::Reset, "/cfg/web", "https://example.org/ui.git"),
        vec!["-C", "/cfg/web", "reset", "--hard", "origin/HEAD"]
    );
    assert_eq!(
        git_arguments(RepoAction::Clone, "/cfg/web", "https://example.org/ui.git"),
        vec!["clone", "--depth", "1", "https://example.org/ui.git", "/cfg/web"]
    );
    assert!(git_arguments(RepoAction::RemoveWebDir, "/cfg/web", "u").is_empty());
}
