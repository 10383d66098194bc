use quack::answer::Visibility;
use quack::workflow::{
    exit_code, Action, CommandOutcome, Config, Event, Outcome, Platform, Prompt, ProvisionError,
    Session, Stage, WindowsInstaller,
};

fn config(platform: Platform, windows_installer: WindowsInstaller) -> Config {
    Config { platform, windows_installer }
}

fn mac() -> Session {
    Session::new(config(Platform::MacOs, WindowsInstaller::Winget))
}

fn ran(success: bool, stdout: &str, stderr: &str) -> Event {
    Event::Ran(CommandOutcome { success, stdout: stdout.to_string(), stderr: stderr.to_string() })
}

fn answer(s: &str) -> Event {
    Event::Answer(s.to_string())
}

fn command(s: &Session) -> (String, Vec<String>, bool) {
    match s.action() {
        Action::Run(inv) => (inv.program, inv.args, inv.interactive),
        other => panic!("expected a command, got {:?}", other),
    }
}

fn outcome(s: &Session) -> Outcome {
    match s.action() {
        Action::Finish(o) => o,
        other => panic!("expected the end, got {:?}", other),
    }
}

/// Tool present, already authenticated: the session waits for the name.
fn at_name_question() -> Session {
    let mut s = mac();
    s.step(ran(true, "gh version 2", ""));
    s.step(Event::Cleared);
    s.step(ran(true, "Logged in", ""));
    s
}

fn at_link_question() -> Session {
    let mut s = at_name_question();
    s.step(answer("my-proj\n"));
    s.step(answer(""));
    s.step(ran(true, "https://github.com/me/my-proj", ""));
    s
}

#[test]
fn new_session_probes_the_tool() {
    let s = mac();
    assert!(!s.is_finished());
    assert_eq!(command(&s), ("gh".to_string(), vec!["--version".to_string()], false));
}

#[test]
fn present_tool_goes_to_authentication() {
    let mut s = mac();
    s.step(ran(false, "", "whatever"));
    match s.action() {
        Action::ClearCredential(v) => assert_eq!(v, "GITHUB_TOKEN"),
        other => panic!("unexpected {:?}", other),
    }
    s.step(Event::Cleared);
    assert_eq!(command(&s).1, vec!["auth", "status"]);
}

#[test]
fn authenticated_goes_to_name_without_login() {
    let s = at_name_question();
    assert!(matches!(s.action(), Action::Ask(Prompt::RepoName { retry: false })));
}

#[test]
fn login_then_input() {
    let mut s = mac();
    s.step(ran(true, "", ""));
    s.step(Event::Cleared);
    s.step(ran(false, "", "not logged in"));
    let (p, a, interactive) = command(&s);
    assert_eq!(p, "gh");
    assert_eq!(a, vec!["auth", "login", "-p", "https", "-w"]);
    assert!(interactive);
    s.step(ran(true, "", ""));
    assert_eq!(command(&s).1, vec!["config", "set", "-h", "github.com", "git_protocol", "https"]);
    s.step(ran(true, "", ""));
    assert!(!s.is_finished());
    assert!(matches!(s.action(), Action::Ask(Prompt::RepoName { retry: false })));
}

#[test]
fn failed_login_is_fatal() {
    let mut s = mac();
    s.step(ran(true, "", ""));
    s.step(Event::Cleared);
    s.step(ran(false, "", ""));
    s.step(ran(false, "", ""));
    let o = outcome(&s);
    assert!(matches!(o, Outcome::Failed(ProvisionError::AuthFailed)));
    assert_eq!(exit_code(&o), 1);
}

#[test]
fn invalid_name_asks_again() {
    let mut s = at_name_question();
    s.step(answer("bad name!"));
    assert!(matches!(s.action(), Action::Ask(Prompt::RepoName { retry: true })));
    s.step(answer(""));
    assert!(matches!(s.action(), Action::Ask(Prompt::RepoName { retry: true })));
    s.step(answer("  good.name  "));
    match &s.stage {
        Stage::AskVisibility { name, retry } => {
            assert_eq!(name, "good.name");
            assert!(!retry);
        }
        other => panic!("unexpected {:?}", other),
    }
}

#[test]
fn default_visibility_creates_public_repo() {
    let mut s = at_name_question();
    s.step(answer("my-proj"));
    s.step(answer(""));
    match &s.stage {
        Stage::Create { name, visibility } => {
            assert_eq!(name, "my-proj");
            assert_eq!(*visibility, Visibility::Public);
        }
        other => panic!("unexpected {:?}", other),
    }
    assert_eq!(
        command(&s),
        (
            "gh".to_string(),
            vec!["repo", "create", "my-proj", "--public", "--confirm"].into_iter().map(String::from).collect(),
            false
        )
    );
}

#[test]
fn unknown_visibility_asks_again_then_private() {
    let mut s = at_name_question();
    s.step(answer("p"));
    s.step(answer("later"));
    assert!(matches!(s.action(), Action::Ask(Prompt::Visibility { retry: true })));
    s.step(answer(" N "));
    assert_eq!(command(&s).1, vec!["repo", "create", "p", "--private", "--confirm"]);
}

#[test]
fn creation_without_url_fails() {
    let mut s = at_name_question();
    s.step(answer("my-proj"));
    s.step(answer("y"));
    s.step(ran(true, "Created repository me/my-proj", ""));
    assert!(s.is_finished());
    let o = outcome(&s);
    assert!(matches!(o, Outcome::Failed(ProvisionError::UrlNotFound)));
    assert_eq!(exit_code(&o), 1);
    s.step(ran(true, "", ""));
    s.step(answer(""));
    assert!(matches!(outcome(&s), Outcome::Failed(ProvisionError::UrlNotFound)));
}

#[test]
fn creation_failure_reports_stderr() {
    let mut s = at_name_question();
    s.step(answer("my-proj"));
    s.step(answer("y"));
    s.step(ran(false, "", "already exists"));
    match outcome(&s) {
        Outcome::Failed(ProvisionError::CreateFailed(e)) => assert_eq!(e, "already exists"),
        other => panic!("unexpected {:?}", other),
    }
}

#[test]
fn declined_link_is_skipped() {
    let mut s = at_link_question();
    assert!(matches!(s.action(), Action::Ask(Prompt::LinkConsent)));
    s.step(answer("n"));
    let o = outcome(&s);
    assert!(matches!(o, Outcome::LinkSkipped));
    assert_eq!(exit_code(&o), 0);
}

#[test]
fn link_adds_origin_when_absent() {
    let mut s = at_link_question();
    s.step(answer(""));
    assert_eq!(command(&s).1, vec!["init"]);
    s.step(ran(true, "Initialized", ""));
    assert_eq!(command(&s).1, vec!["remote"]);
    s.step(ran(true, "upstream", ""));
    assert_eq!(command(&s).1, vec!["remote", "add", "origin", "https://github.com/me/my-proj"]);
    s.step(ran(true, "", ""));
    let o = outcome(&s);
    assert!(matches!(o, Outcome::Linked));
    assert_eq!(exit_code(&o), 0);
}

#[test]
fn link_replaces_existing_origin() {
    let mut s = at_link_question();
    s.step(answer("yes"));
    s.step(ran(true, "", ""));
    s.step(ran(true, "origin", ""));
    assert_eq!(command(&s).1, vec!["remote", "set-url", "origin", "https://github.com/me/my-proj"]);
}

#[test]
fn remote_failure_is_fatal() {
    let mut s = at_link_question();
    s.step(answer(""));
    s.step(ran(true, "", ""));
    s.step(ran(false, "", "not a repository"));
    match outcome(&s) {
        Outcome::Failed(ProvisionError::LinkFailed(e)) => assert_eq!(e, "not a repository"),
        other => panic!("unexpected {:?}", other),
    }
}

#[test]
fn unexpected_event_changes_nothing() {
    let mut s = mac();
    s.step(answer("y"));
    assert_eq!(command(&s).1, vec!["--version"]);
}

#[test]
fn declined_install_is_fatal() {
    let mut s = mac();
    s.step(Event::LaunchFailed);
    assert!(matches!(s.action(), Action::Ask(Prompt::InstallConsent)));
    s.step(answer("n"));
    assert!(matches!(outcome(&s), Outcome::Failed(ProvisionError::InstallDeclined)));
}

#[test]
fn mac_installs_with_brew_then_reprobes() {
    let mut s = mac();
    s.step(Event::LaunchFailed);
    s.step(answer("Yes"));
    assert_eq!(command(&s), ("brew".to_string(), vec!["install".to_string(), "gh".to_string()], true));
    s.step(ran(false, "", ""));
    assert_eq!(command(&s).1, vec!["--version"]);
    s.step(ran(true, "", ""));
    assert!(matches!(s.action(), Action::ClearCredential(_)));
}

#[test]
fn still_missing_after_install_is_pending() {
    let mut s = mac();
    s.step(Event::LaunchFailed);
    s.step(answer("y"));
    s.step(ran(true, "", ""));
    s.step(Event::LaunchFailed);
    let o = outcome(&s);
    assert!(matches!(o, Outcome::ManualActionPending(None)));
    assert_eq!(exit_code(&o), 0);
}

#[test]
fn unsupported_platform() {
    let mut s = Session::new(config(Platform::Other, WindowsInstaller::Winget));
    s.step(Event::LaunchFailed);
    s.step(answer("y"));
    assert!(matches!(outcome(&s), Outcome::Failed(ProvisionError::UnsupportedPlatform)));
}

#[test]
fn winget_up_to_date_counts_as_installed() {
    let mut s = Session::new(config(Platform::Windows, WindowsInstaller::Winget));
    s.step(Event::LaunchFailed);
    s.step(answer("y"));
    assert_eq!(command(&s), ("winget".to_string(), vec!["install".to_string(), "--id".to_string(), "GitHub.cli".to_string()], false));
    s.step(ran(false, "", "Found GitHub CLI. No newer package versions are available from the configured sources."));
    assert_eq!(command(&s).1, vec!["--version"]);
}

#[test]
fn winget_failure_is_fatal() {
    let mut s = Session::new(config(Platform::Windows, WindowsInstaller::Winget));
    s.step(Event::LaunchFailed);
    s.step(answer("y"));
    s.step(ran(false, "", "error"));
    assert!(matches!(outcome(&s), Outcome::Failed(ProvisionError::InstallFailed)));
}

#[test]
fn chocolatey_installs_elevated() {
    let mut s = Session::new(config(Platform::Windows, WindowsInstaller::ChocolateyOrDownload));
    s.step(Event::LaunchFailed);
    s.step(answer("y"));
    assert_eq!(command(&s).0, "choco");
    s.step(ran(true, "1.0", ""));
    let (p, a, interactive) = command(&s);
    assert_eq!(p, "powershell");
    assert_eq!(a[4], "'install', 'gh', '-y'");
    assert!(interactive);
    s.step(ran(false, "", ""));
    assert!(matches!(outcome(&s), Outcome::Failed(ProvisionError::InstallFailed)));
}

#[test]
fn without_chocolatey_the_installer_is_downloaded() {
    let mut s = Session::new(config(Platform::Windows, WindowsInstaller::ChocolateyOrDownload));
    s.step(Event::LaunchFailed);
    s.step(answer("y"));
    s.step(Event::LaunchFailed);
    match s.action() {
        Action::LocateInstaller(f) => assert_eq!(f, "gh_installer.msi"),
        other => panic!("unexpected {:?}", other),
    }
    s.step(Event::InstallerPath(Some("C:\\Downloads\\gh_installer.msi".to_string())));
    let (p, a, _) = command(&s);
    assert_eq!(p, "powershell");
    assert_eq!(a[5], "C:\\Downloads\\gh_installer.msi");
    s.step(ran(true, "", ""));
    let o = outcome(&s);
    match &o {
        Outcome::ManualActionPending(Some(path)) => assert_eq!(path, "C:\\Downloads\\gh_installer.msi"),
        other => panic!("unexpected {:?}", other),
    }
    assert_eq!(exit_code(&o), 0);
}

#[test]
fn unknown_downloads_folder_is_fatal() {
    let mut s = Session::new(config(Platform::Windows, WindowsInstaller::ChocolateyOrDownload));
    s.step(Event::LaunchFailed);
    s.step(answer("y"));
    s.step(Event::LaunchFailed);
    s.step(Event::InstallerPath(None));
    assert!(matches!(outcome(&s), Outcome::Failed(ProvisionError::DownloadsFolderUnknown)));
}

#[test]
fn unstartable_command_is_fatal() {
    let mut s = at_name_question();
    s.step(answer("p"));
    s.step(answer(""));
    s.step(Event::LaunchFailed);
    assert!(matches!(outcome(&s), Outcome::Failed(ProvisionError::CommandNotStarted)));
}
