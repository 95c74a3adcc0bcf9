use foxtheme::error::Error;
use foxtheme::git::{clone, fetch_branch, outcome, pull, pull_step, Invocation, PullStep};
use foxtheme::link::{copy_step, destination, CopyStep};

#[test]
fn clone_calls_the_client_with_url_and_path() {
    assert_eq!(
        clone("https://github.com/o/n", "/cache/o/n"),
        Invocation {
            program: "git".to_string(),
            args: vec!["clone".to_string(), "https://github.com/o/n".to_string(), "/cache/o/n".to_string()],
            dir: None,
        }
    );
}

#[test]
fn pull_calls_the_client_inside_the_theme() {
    assert_eq!(
        pull("/cache/o/n"),
        Invocation {
            program: "git".to_string(),
            args: vec!["pull".to_string(), "-r".to_string()],
            dir: Some("/cache/o/n".to_string()),
        }
    );
}

#[test]
fn outcome_is_success_only_for_a_reported_success() {
    assert_eq!(outcome(Some(true)), Ok(()));
    assert_eq!(outcome(Some(false)), Err(Error::Vcs));
    assert_eq!(outcome(None), Err(Error::Vcs));
}

#[test]
fn fetch_branch_falls_back_to_master() {
    assert_eq!(fetch_branch(Some("refs/heads/main")), "refs/heads/main");
    assert_eq!(fetch_branch(None), "refs/heads/master");
}

#[test]
fn pull_step_follows_the_analysis() {
    assert_eq!(pull_step(true, false), PullStep::Nothing);
    assert_eq!(pull_step(true, true), PullStep::Nothing);
    assert_eq!(pull_step(false, true), PullStep::FastForward);
    assert_eq!(pull_step(false, false), PullStep::Refuse);
}

#[test]
fn copy_leaves_present_files_alone() {
    assert_eq!(copy_step(true, false, false), CopyStep::MakeDir);
    assert_eq!(copy_step(true, false, true), CopyStep::MakeDir);
    assert_eq!(copy_step(false, true, false), CopyStep::CopyFile);
    assert_eq!(copy_step(false, true, true), CopyStep::Skip);
    assert_eq!(copy_step(false, false, false), CopyStep::Skip);
}

#[test]
fn copy_destination_mirrors_the_theme() {
    assert_eq!(
        destination("/cache/o/n", "/p/chrome", "/cache/o/n/css/a.css"),
        Some("/p/chrome/css/a.css".to_string())
    );
    assert_eq!(destination("/cache/o/n", "/p/chrome", "/cache/o/n"), Some("/p/chrome/".to_string()));
    assert_eq!(destination("/cache/o/n", "/p/chrome", "/cache/o/m/a"), None);
}

#[test]
fn errors_have_their_text() {
    assert_eq!(Error::EmptyResult.message(), "No found any profile");
    assert_eq!(Error::InvalidArgs.message(), "nothing");
    for e in [
        Error::ConfigNotFound,
        Error::RegistryUnreadable,
        Error::Vcs,
        Error::Filesystem,
        Error::InvalidRepo,
        Error::Unexpected,
    ] {
        assert!(!e.message().is_empty());
    }
}
