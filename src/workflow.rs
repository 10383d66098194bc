//! The provisioning workflow as a state machine. A session holds the stage it
//! has reached; each stage has one pending action (a command to run, a question
//! to ask, ...), and the event that the action produced moves the session on.
//! The caller performs the actions; every decision is taken here.
use vstd::prelude::*;
use crate::answer::{flag_of, install_consent, is_no, is_yes, link_consent, parse_visibility, visibility_of, Visibility};
use crate::name::{is_valid_name, is_valid_repo_name};
use crate::remote::{extract_url, has_origin, has_url_line, is_first_url_line, lists_origin};
use crate::text::{contains_text, has_substring, lines_of, trim_of, trim_text};

verus! {

/// The operating system the workflow runs on.
#[derive(Clone, Copy, Debug, PartialEq, Eq, Structural)]
pub enum Platform {
    MacOs,
    Windows,
    Other,
}

/// How the hosting tool is installed on Windows.
#[derive(Clone, Copy, Debug, PartialEq, Eq, Structural)]
pub enum WindowsInstaller {
    /// The winget package manager.
    Winget,
    /// Chocolatey with elevated rights where it is present, else a downloaded
    /// installer that the operator runs by hand.
    ChocolateyOrDownload,
}

/// What stays fixed for one run.
#[derive(Clone, Copy, Debug, PartialEq, Eq, Structural)]
pub struct Config {
    pub platform: Platform,
    pub windows_installer: WindowsInstaller,
}

/// What an external command that did start produced.
#[derive(Debug)]
pub struct CommandOutcome {
    /// It exited with success.
    pub success: bool,
    /// Its trimmed standard output.
    pub stdout: String,
    /// Its trimmed standard error.
    pub stderr: String,
}

/// What the caller reports after performing the pending action.
#[derive(Debug)]
pub enum Event {
    /// The command ran to its end.
    Ran(CommandOutcome),
    /// The command could not be started.
    LaunchFailed,
    /// The operator's line, as typed.
    Answer(String),
    /// The credential variable is no longer set.
    Cleared,
    /// Where the installer may be saved, if the downloads folder is known.
    InstallerPath(Option<String>),
}

/// A question for the operator.
#[derive(Clone, Copy, Debug, PartialEq, Eq, Structural)]
pub enum Prompt {
    InstallConsent,
    /// `retry`: the previous answer was refused.
    RepoName { retry: bool },
    Visibility { retry: bool },
    LinkConsent,
}

/// An external command: the program, its arguments, and whether it runs
/// attached to the console (its exit status alone is reported then).
#[derive(Debug)]
pub struct Invocation {
    pub program: String,
    pub args: Vec<String>,
    pub interactive: bool,
}

/// Why a run fails.
#[derive(Debug)]
pub enum ProvisionError {
    /// The operator would not install the hosting tool.
    InstallDeclined,
    /// No installer is known for this operating system.
    UnsupportedPlatform,
    /// The installer could not be started or reported failure.
    InstallFailed,
    /// The downloads folder could not be determined.
    DownloadsFolderUnknown,
    /// The interactive login failed.
    AuthFailed,
    /// A required command could not be started.
    CommandNotStarted,
    /// Repository creation failed; its standard error.
    CreateFailed(String),
    /// Creation succeeded but printed no remote URL.
    UrlNotFound,
    /// Version-control initialisation or remote binding failed; its standard error.
    LinkFailed(String),
}

/// How a run ends.
#[derive(Debug)]
pub enum Outcome {
    /// The repository was created and bound as `origin`.
    Linked,
    /// The repository was created; the operator chose not to link it.
    LinkSkipped,
    /// The operator must finish installing the tool and run again; the saved
    /// installer, if one was downloaded.
    ManualActionPending(Option<String>),
    Failed(ProvisionError),
}

/// Something for the caller to do.
#[derive(Debug)]
pub enum Action {
    Run(Invocation),
    Ask(Prompt),
    /// Remove this variable from the process environment.
    ClearCredential(String),
    /// Report where a file of this name would go in the downloads folder.
    LocateInstaller(String),
    /// Stop with this outcome.
    Finish(Outcome),
}

/// The point a session has reached; each variant holds what was collected so far.
#[derive(Debug)]
pub enum Stage {
    ProbeTool,
    AskInstall,
    InstallBrew,
    InstallWinget,
    ProbeChocolatey,
    InstallChocolatey,
    LocateInstaller,
    DownloadInstaller(String),
    ReprobeTool,
    ClearCredential,
    ProbeAuth,
    Login,
    SetProtocol,
    AskName { retry: bool },
    AskVisibility { name: String, retry: bool },
    Create { name: String, visibility: Visibility },
    AskLink(String),
    InitRepo(String),
    ListRemotes(String),
    BindRemote { url: String, replace: bool },
    Finished(Outcome),
}

/// One run of the workflow.
pub struct Session {
    pub config: Config,
    pub stage: Stage,
}

/// `a` runs `program` with `args`.
pub open spec fn runs(a: Action, program: Seq<char>, args: Seq<Seq<char>>, interactive: bool) -> bool {
    match a {
        Action::Run(inv) => inv.program@ == program && inv.args@.map_values(|s: String| s@) == args
            && inv.interactive == interactive,
        _ => false,
    }
}

/// The installer download address.
pub open spec fn installer_url() -> Seq<char> {
    "https://github.com/cli/cli/releases/download/v2.0.0/gh_2.0.0_windows_amd64.msi"@
}

/// The action pending at each stage.
pub open spec fn pending(stage: Stage, a: Action) -> bool {
    match stage {
        Stage::ProbeTool | Stage::ReprobeTool => runs(a, "gh"@, seq!["--version"@], false),
        Stage::AskInstall => a == Action::Ask(Prompt::InstallConsent),
        Stage::InstallBrew => runs(a, "brew"@, seq!["install"@, "gh"@], true),
        Stage::InstallWinget => runs(a, "winget"@, seq!["install"@, "--id"@, "GitHub.cli"@], false),
        Stage::ProbeChocolatey => runs(a, "choco"@, seq!["--version"@], false),
        Stage::InstallChocolatey => runs(
            a,
            "powershell"@,
            seq![
                "-Command"@,
                "Start-Process"@,
                "choco"@,
                "-ArgumentList"@,
                "'install', 'gh', '-y'"@,
                "-Verb"@,
                "RunAs"@,
            ],
            true,
        ),
        Stage::LocateInstaller => match a {
            Action::LocateInstaller(f) => f@ == "gh_installer.msi"@,
            _ => false,
        },
        Stage::DownloadInstaller(path) => runs(
            a,
            "powershell"@,
            seq![
                "-Command"@,
                "Invoke-WebRequest"@,
                "-Uri"@,
                installer_url(),
                "-OutFile"@,
                path@,
            ],
            true,
        ),
        Stage::ClearCredential => match a {
            Action::ClearCredential(v) => v@ == "GITHUB_TOKEN"@,
            _ => false,
        },
        Stage::ProbeAuth => runs(a, "gh"@, seq!["auth"@, "status"@], false),
        Stage::Login => runs(a, "gh"@, seq!["auth"@, "login"@, "-p"@, "https"@, "-w"@], true),
        Stage::SetProtocol => runs(
            a,
            "gh"@,
            seq!["config"@, "set"@, "-h"@, "github.com"@, "git_protocol"@, "https"@],
            true,
        ),
        Stage::AskName { retry } => a == Action::Ask(Prompt::RepoName { retry }),
        Stage::AskVisibility { name, retry } => a == Action::Ask(Prompt::Visibility { retry }),
        Stage::Create { name, visibility } => runs(
            a,
            "gh"@,
            seq!["repo"@, "create"@, name@, flag_of(visibility), "--confirm"@],
            false,
        ),
        Stage::AskLink(url) => a == Action::Ask(Prompt::LinkConsent),
        Stage::InitRepo(url) => runs(a, "git"@, seq!["init"@], false),
        Stage::ListRemotes(url) => runs(a, "git"@, seq!["remote"@], false),
        Stage::BindRemote { url, replace } => runs(
            a,
            "git"@,
            seq!["remote"@, if replace { "set-url"@ } else { "add"@ }, "origin"@, url@],
            false,
        ),
        Stage::Finished(o) => a == Action::Finish(o),
    }
}

/// A run that stops with `e`.
pub open spec fn failed(e: ProvisionError) -> Stage {
    Stage::Finished(Outcome::Failed(e))
}

/// Where consent to install leads on each platform.
pub open spec fn install_stage(config: Config) -> Stage {
    match config.platform {
        Platform::MacOs => Stage::InstallBrew,
        Platform::Windows => match config.windows_installer {
            WindowsInstaller::Winget => Stage::InstallWinget,
            WindowsInstaller::ChocolateyOrDownload => Stage::ProbeChocolatey,
        },
        Platform::Other => failed(ProvisionError::UnsupportedPlatform),
    }
}

/// What winget prints when the tool is already at its newest version.
pub open spec fn up_to_date_notice() -> Seq<char> {
    "No newer package versions are available"@
}

/// The stage after repository creation printed `out` with success: the link
/// question for the first URL-bearing line, trimmed, or a parse failure.
pub open spec fn after_creation(out: Seq<char>, new: Stage) -> bool {
    if has_url_line(lines_of(out)) {
        match new {
            Stage::AskLink(u) => exists|i: int|
                is_first_url_line(lines_of(out), i) && u@ == trim_of(#[trigger] lines_of(out)[i]),
            _ => false,
        }
    } else {
        new == failed(ProvisionError::UrlNotFound)
    }
}

/// The stage that `event` leads to from `stage`. An event of another kind than
/// the pending action produces leaves the stage as it is.
pub open spec fn next(config: Config, stage: Stage, event: Event, new: Stage) -> bool {
    match (stage, event) {
        (Stage::ProbeTool, Event::Ran(_)) => new == Stage::ClearCredential,
        (Stage::ProbeTool, Event::LaunchFailed) => new == Stage::AskInstall,
        (Stage::AskInstall, Event::Answer(l)) => new == if is_yes(trim_of(l@)) {
            install_stage(config)
        } else {
            failed(ProvisionError::InstallDeclined)
        },
        (Stage::InstallBrew, Event::Ran(_)) => new == Stage::ReprobeTool,
        (Stage::InstallWinget, Event::Ran(o)) => new == if o.success || has_substring(
            o.stderr@,
            up_to_date_notice(),
        ) {
            Stage::ReprobeTool
        } else {
            failed(ProvisionError::InstallFailed)
        },
        (Stage::ProbeChocolatey, Event::Ran(_)) => new == Stage::InstallChocolatey,
        (Stage::ProbeChocolatey, Event::LaunchFailed) => new == Stage::LocateInstaller,
        (Stage::InstallChocolatey, Event::Ran(o)) => new == if o.success {
            Stage::ReprobeTool
        } else {
            failed(ProvisionError::InstallFailed)
        },
        (Stage::InstallBrew, Event::LaunchFailed)
        | (Stage::InstallWinget, Event::LaunchFailed)
        | (Stage::InstallChocolatey, Event::LaunchFailed)
        | (Stage::DownloadInstaller(_), Event::LaunchFailed) => new == failed(
            ProvisionError::InstallFailed,
        ),
        (Stage::LocateInstaller, Event::InstallerPath(p)) => new == match p {
            Some(path) => Stage::DownloadInstaller(path),
            None => failed(ProvisionError::DownloadsFolderUnknown),
        },
        (Stage::DownloadInstaller(path), Event::Ran(_)) => new == Stage::Finished(
            Outcome::ManualActionPending(Some(path)),
        ),
        (Stage::ReprobeTool, Event::Ran(_)) => new == Stage::ClearCredential,
        (Stage::ReprobeTool, Event::LaunchFailed) => new == Stage::Finished(
            Outcome::ManualActionPending(None),
        ),
        (Stage::ClearCredential, Event::Cleared) => new == Stage::ProbeAuth,
        (Stage::ProbeAuth, Event::Ran(o)) => new == if o.success {
            Stage::AskName { retry: false }
        } else {
            Stage::Login
        },
        (Stage::Login, Event::Ran(o)) => new == if o.success {
            Stage::SetProtocol
        } else {
            failed(ProvisionError::AuthFailed)
        },
        (Stage::SetProtocol, Event::Ran(_)) => new == Stage::AskName { retry: false },
        (Stage::ProbeAuth, Event::LaunchFailed)
        | (Stage::Login, Event::LaunchFailed)
        | (Stage::SetProtocol, Event::LaunchFailed)
        | (Stage::Create { .. }, Event::LaunchFailed)
        | (Stage::InitRepo(_), Event::LaunchFailed)
        | (Stage::ListRemotes(_), Event::LaunchFailed)
        | (Stage::BindRemote { .. }, Event::LaunchFailed) => new == failed(
            ProvisionError::CommandNotStarted,
        ),
        (Stage::AskName { .. }, Event::Answer(l)) => if is_valid_name(trim_of(l@)) {
            match new {
                Stage::AskVisibility { name, retry } => name@ == trim_of(l@) && !retry,
                _ => false,
            }
        } else {
            new == Stage::AskName { retry: true }
        },
        (Stage::AskVisibility { name, .. }, Event::Answer(l)) => new == match visibility_of(
            trim_of(l@),
        ) {
            Some(v) => Stage::Create { name, visibility: v },
            None => Stage::AskVisibility { name, retry: true },
        },
        (Stage::Create { .. }, Event::Ran(o)) => if o.success {
            after_creation(o.stdout@, new)
        } else {
            new == failed(ProvisionError::CreateFailed(o.stderr))
        },
        (Stage::AskLink(url), Event::Answer(l)) => new == if trim_of(l@).len() == 0 || is_yes(
            trim_of(l@),
        ) {
            Stage::InitRepo(url)
        } else {
            Stage::Finished(Outcome::LinkSkipped)
        },
        (Stage::InitRepo(url), Event::Ran(o)) => new == if o.success {
            Stage::ListRemotes(url)
        } else {
            failed(ProvisionError::LinkFailed(o.stderr))
        },
        (Stage::ListRemotes(url), Event::Ran(o)) => new == if o.success {
            Stage::BindRemote { url, replace: lists_origin(o.stdout@) }
        } else {
            failed(ProvisionError::LinkFailed(o.stderr))
        },
        (Stage::BindRemote { .. }, Event::Ran(o)) => new == if o.success {
            Stage::Finished(Outcome::Linked)
        } else {
            failed(ProvisionError::LinkFailed(o.stderr))
        },
        _ => new == stage,
    }
}

/// The process exit code for an outcome: 1 for a failure, 0 otherwise.
pub open spec fn exit_code_of(o: Outcome) -> i32 {
    match o {
        Outcome::Failed(_) => 1,
        _ => 0,
    }
}

fn copy_path(p: &Option<String>) -> (r: Option<String>)
    ensures
        r == *p,
{
    match p {
        Some(s) => Some(s.clone()),
        None => None,
    }
}

fn copy_error(e: &ProvisionError) -> (r: ProvisionError)
    ensures
        r == *e,
{
    match e {
        ProvisionError::InstallDeclined => ProvisionError::InstallDeclined,
        ProvisionError::UnsupportedPlatform => ProvisionError::UnsupportedPlatform,
        ProvisionError::InstallFailed => ProvisionError::InstallFailed,
        ProvisionError::DownloadsFolderUnknown => ProvisionError::DownloadsFolderUnknown,
        ProvisionError::AuthFailed => ProvisionError::AuthFailed,
        ProvisionError::CommandNotStarted => ProvisionError::CommandNotStarted,
        ProvisionError::CreateFailed(s) => ProvisionError::CreateFailed(s.clone()),
        ProvisionError::UrlNotFound => ProvisionError::UrlNotFound,
        ProvisionError::LinkFailed(s) => ProvisionError::LinkFailed(s.clone()),
    }
}

fn copy_outcome(o: &Outcome) -> (r: Outcome)
    ensures
        r == *o,
{
    match o {
        Outcome::Linked => Outcome::Linked,
        Outcome::LinkSkipped => Outcome::LinkSkipped,
        Outcome::ManualActionPending(p) => Outcome::ManualActionPending(copy_path(p)),
        Outcome::Failed(e) => Outcome::Failed(copy_error(e)),
    }
}

fn run(program: &str, args: Vec<&str>, interactive: bool) -> (r: Action)
    ensures
        runs(r, program@, args@.map_values(|s: &str| s@), interactive),
{
    let mut out: Vec<String> = Vec::new();
    let mut i: usize = 0;
    while i < args.len()
        invariant
            i <= args.len(),
            out@.len() == i,
            forall|k: int| 0 <= k < i ==> (#[trigger] out@[k])@ == args@[k]@,
        decreases args.len() - i,
    {
        out.push(String::from_str(args[i]));
        i += 1;
    }
    assert(out@.map_values(|s: String| s@) =~= args@.map_values(|s: &str| s@));
    Action::Run(Invocation { program: String::from_str(program), args: out, interactive })
}

fn finish(e: ProvisionError) -> (r: Option<Stage>)
    ensures
        r == Some(failed(e)),
{
    Some(Stage::Finished(Outcome::Failed(e)))
}

/// What repository creation yields from the outcome of its command: on
/// success the first URL-bearing line of the output, trimmed, or `UrlNotFound`
/// where no line carries one; on failure `CreateFailed` with the command's
/// standard error.
pub fn create_github_repo(o: &CommandOutcome) -> (r: Result<String, ProvisionError>)
    ensures
        !o.success ==> r == Err::<String, ProvisionError>(ProvisionError::CreateFailed(o.stderr)),
        o.success && !has_url_line(lines_of(o.stdout@)) ==> r == Err::<String, ProvisionError>(
            ProvisionError::UrlNotFound,
        ),
        o.success && has_url_line(lines_of(o.stdout@)) ==> match r {
            Ok(u) => exists|i: int|
                is_first_url_line(lines_of(o.stdout@), i) && u@ == trim_of(
                    #[trigger] lines_of(o.stdout@)[i],
                ),
            Err(_) => false,
        },
{
    if o.success {
        match extract_url(o.stdout.as_str()) {
            Some(u) => Ok(u),
            None => Err(ProvisionError::UrlNotFound),
        }
    } else {
        Err(ProvisionError::CreateFailed(o.stderr.clone()))
    }
}

fn bind_remote(url: &str, replace: bool) -> (r: Action)
    ensures
        runs(r, "git"@, seq!["remote"@, if replace { "set-url"@ } else { "add"@ }, "origin"@, url@], false),
{
    let verb = if replace {
        "set-url"
    } else {
        "add"
    };
    let args = vec!["remote", verb, "origin", url];
    assert(args@.map_values(|s: &str| s@) =~= seq!["remote"@, verb@, "origin"@, url@]);
    run("git", args, false)
}

/// The command that binds `origin` to `url`, given what `git remote` listed:
/// a URL replacement where `origin` is listed, an addition otherwise.
pub fn handle_git_remote(url: &str, listing: &str) -> (r: Action)
    ensures
        runs(
            r,
            "git"@,
            seq!["remote"@, if lists_origin(listing@) { "set-url"@ } else { "add"@ }, "origin"@, url@],
            false,
        ),
{
    bind_remote(url, has_origin(listing))
}

fn advance(config: Config, stage: &Stage, event: Event) -> (r: Option<Stage>)
    ensures
        match r {
            Some(s) => next(config, *stage, event, s),
            None => next(config, *stage, event, *stage),
        },
{
    match stage {
        Stage::ProbeTool | Stage::ReprobeTool => match event {
            Event::Ran(_) => Some(Stage::ClearCredential),
            Event::LaunchFailed => match stage {
                Stage::ProbeTool => Some(Stage::AskInstall),
                _ => Some(Stage::Finished(Outcome::ManualActionPending(None))),
            },
            _ => None,
        },
        Stage::AskInstall => match event {
            Event::Answer(l) => {
                let t = trim_text(l.as_str());
                if install_consent(t.as_str()) {
                    match config.platform {
                        Platform::MacOs => Some(Stage::InstallBrew),
                        Platform::Windows => match config.windows_installer {
                            WindowsInstaller::Winget => Some(Stage::InstallWinget),
                            WindowsInstaller::ChocolateyOrDownload => Some(Stage::ProbeChocolatey),
                        },
                        Platform::Other => finish(ProvisionError::UnsupportedPlatform),
                    }
                } else {
                    finish(ProvisionError::InstallDeclined)
                }
            },
            _ => None,
        },
        Stage::InstallBrew => match event {
            Event::Ran(_) => Some(Stage::ReprobeTool),
            Event::LaunchFailed => finish(ProvisionError::InstallFailed),
            _ => None,
        },
        Stage::InstallWinget => match event {
            Event::Ran(o) => {
                if o.success || contains_text(
                    o.stderr.as_str(),
                    "No newer package versions are available",
                ) {
                    Some(Stage::ReprobeTool)
                } else {
                    finish(ProvisionError::InstallFailed)
                }
            },
            Event::LaunchFailed => finish(ProvisionError::InstallFailed),
            _ => None,
        },
        Stage::ProbeChocolatey => match event {
            Event::Ran(_) => Some(Stage::InstallChocolatey),
            Event::LaunchFailed => Some(Stage::LocateInstaller),
            _ => None,
        },
        Stage::InstallChocolatey => match event {
            Event::Ran(o) => if o.success {
                Some(Stage::ReprobeTool)
            } else {
                finish(ProvisionError::InstallFailed)
            },
            Event::LaunchFailed => finish(ProvisionError::InstallFailed),
            _ => None,
        },
        Stage::LocateInstaller => match event {
            Event::InstallerPath(Some(path)) => Some(Stage::DownloadInstaller(path)),
            Event::InstallerPath(None) => finish(ProvisionError::DownloadsFolderUnknown),
            _ => None,
        },
        Stage::DownloadInstaller(path) => match event {
            Event::Ran(_) => Some(Stage::Finished(Outcome::ManualActionPending(Some(path.clone())))),
            Event::LaunchFailed => finish(ProvisionError::InstallFailed),
            _ => None,
        },
        Stage::ClearCredential => match event {
            Event::Cleared => Some(Stage::ProbeAuth),
            _ => None,
        },
        Stage::ProbeAuth => match event {
            Event::Ran(o) => if o.success {
                Some(Stage::AskName { retry: false })
            } else {
                Some(Stage::Login)
            },
            Event::LaunchFailed => finish(ProvisionError::CommandNotStarted),
            _ => None,
        },
        Stage::Login => match event {
            Event::Ran(o) => if o.success {
                Some(Stage::SetProtocol)
            } else {
                finish(ProvisionError::AuthFailed)
            },
            Event::LaunchFailed => finish(ProvisionError::CommandNotStarted),
            _ => None,
        },
        Stage::SetProtocol => match event {
            Event::Ran(_) => Some(Stage::AskName { retry: false }),
            Event::LaunchFailed => finish(ProvisionError::CommandNotStarted),
            _ => None,
        },
        Stage::AskName { .. } => match event {
            Event::Answer(l) => {
                let t = trim_text(l.as_str());
                if is_valid_repo_name(t.as_str()) {
                    Some(Stage::AskVisibility { name: t, retry: false })
                } else {
                    Some(Stage::AskName { retry: true })
                }
            },
            _ => None,
        },
        Stage::AskVisibility { name, .. } => match event {
            Event::Answer(l) => {
                let t = trim_text(l.as_str());
                match parse_visibility(t.as_str()) {
                    Some(v) => Some(Stage::Create { name: name.clone(), visibility: v }),
                    None => Some(Stage::AskVisibility { name: name.clone(), retry: true }),
                }
            },
            _ => None,
        },
        Stage::Create { .. } => match event {
            Event::Ran(o) => match create_github_repo(&o) {
                Ok(u) => Some(Stage::AskLink(u)),
                Err(e) => finish(e),
            },
            Event::LaunchFailed => finish(ProvisionError::CommandNotStarted),
            _ => None,
        },
        Stage::AskLink(url) => match event {
            Event::Answer(l) => {
                let t = trim_text(l.as_str());
                if link_consent(t.as_str()) {
                    Some(Stage::InitRepo(url.clone()))
                } else {
                    Some(Stage::Finished(Outcome::LinkSkipped))
                }
            },
            _ => None,
        },
        Stage::InitRepo(url) => match event {
            Event::Ran(o) => if o.success {
                Some(Stage::ListRemotes(url.clone()))
            } else {
                finish(ProvisionError::LinkFailed(o.stderr))
            },
            Event::LaunchFailed => finish(ProvisionError::CommandNotStarted),
            _ => None,
        },
        Stage::ListRemotes(url) => match event {
            Event::Ran(o) => if o.success {
                let replace = has_origin(o.stdout.as_str());
                Some(Stage::BindRemote { url: url.clone(), replace })
            } else {
                finish(ProvisionError::LinkFailed(o.stderr))
            },
            Event::LaunchFailed => finish(ProvisionError::CommandNotStarted),
            _ => None,
        },
        Stage::BindRemote { .. } => match event {
            Event::Ran(o) => if o.success {
                Some(Stage::Finished(Outcome::Linked))
            } else {
                finish(ProvisionError::LinkFailed(o.stderr))
            },
            Event::LaunchFailed => finish(ProvisionError::CommandNotStarted),
            _ => None,
        },
        Stage::Finished(_) => None,
    }
}

/// A refused name is asked for again: the session stays at the name question,
/// now marked as a retry, and nothing else happens.
pub proof fn refused_name_asks_again(config: Config, retry: bool, line: String, new: Stage)
    requires
        next(config, Stage::AskName { retry }, Event::Answer(line), new),
        !is_valid_name(trim_of(line@)),
    ensures
        new == (Stage::AskName { retry: true }),
        forall|a: Action| pending(new, a) <==> a == Action::Ask(Prompt::RepoName { retry: true }),
{
}

/// An empty or affirmative answer to the visibility question creates a public
/// repository, a negative one a private repository; any other answer asks again.
pub proof fn visibility_answer_leads(
    config: Config,
    name: String,
    retry: bool,
    line: String,
    new: Stage,
)
    requires
        next(config, Stage::AskVisibility { name, retry }, Event::Answer(line), new),
    ensures
        (trim_of(line@).len() == 0 || is_yes(trim_of(line@))) ==> new == (Stage::Create {
            name,
            visibility: Visibility::Public,
        }),
        is_no(trim_of(line@)) ==> new == (Stage::Create { name, visibility: Visibility::Private }),
        visibility_of(trim_of(line@)).is_none() ==> new == (Stage::AskVisibility {
            name,
            retry: true,
        }),
{
    crate::answer::visibility_answers(trim_of(line@));
}

/// When the tool is already present no installer runs: the next stage only
/// clears the credential variable, which is no external command.
pub proof fn present_tool_skips_install(config: Config, o: CommandOutcome, new: Stage)
    requires
        next(config, Stage::ProbeTool, Event::Ran(o), new),
    ensures
        new == Stage::ClearCredential,
        forall|a: Action| pending(new, a) ==> !(a is Run),
{
}

/// When the operator is already authenticated no login runs: the next stage
/// asks for the repository name, which is no external command.
pub proof fn authenticated_skips_login(config: Config, o: CommandOutcome, new: Stage)
    requires
        next(config, Stage::ProbeAuth, Event::Ran(o), new),
        o.success,
    ensures
        new == (Stage::AskName { retry: false }),
        forall|a: Action| pending(new, a) ==> !(a is Run),
{
}

/// The URL taken from creation output is the first line that carries one,
/// trimmed, whatever later lines hold; with no such line the run fails.
pub proof fn creation_takes_first_url(
    config: Config,
    name: String,
    visibility: Visibility,
    o: CommandOutcome,
    new: Stage,
)
    requires
        next(config, Stage::Create { name, visibility }, Event::Ran(o), new),
        o.success,
    ensures
        has_url_line(lines_of(o.stdout@)) ==> match new {
            Stage::AskLink(u) => exists|i: int|
                is_first_url_line(lines_of(o.stdout@), i) && u@ == trim_of(
                    #[trigger] lines_of(o.stdout@)[i],
                ),
            _ => false,
        },
        !has_url_line(lines_of(o.stdout@)) ==> new == failed(ProvisionError::UrlNotFound),
{
}

/// With `origin` among the listed remotes its URL is replaced; without it a
/// remote `origin` is added. No other remote is ever created.
pub proof fn origin_replaced_or_added(config: Config, url: String, o: CommandOutcome, new: Stage)
    requires
        next(config, Stage::ListRemotes(url), Event::Ran(o), new),
        o.success,
    ensures
        lists_origin(o.stdout@) ==> forall|a: Action|
            pending(new, a) ==> runs(a, "git"@, seq!["remote"@, "set-url"@, "origin"@, url@], false),
        !lists_origin(o.stdout@) ==> forall|a: Action|
            pending(new, a) ==> runs(a, "git"@, seq!["remote"@, "add"@, "origin"@, url@], false),
{
}

/// A finished run stays finished: no event leads anywhere from it.
pub proof fn finished_is_final(config: Config, o: Outcome, event: Event, new: Stage)
    requires
        next(config, Stage::Finished(o), event, new),
    ensures
        new == Stage::Finished(o),
{
}

/// Declining to link ends the run as a success with the link skipped, before
/// any version-control command.
pub proof fn declined_link_skips(config: Config, url: String, line: String, new: Stage)
    requires
        next(config, Stage::AskLink(url), Event::Answer(line), new),
        !(trim_of(line@).len() == 0 || is_yes(trim_of(line@))),
    ensures
        new == Stage::Finished(Outcome::LinkSkipped),
        exit_code_of(Outcome::LinkSkipped) == 0,
{
}

impl Session {
    /// A fresh run: nothing is known yet, the tool's presence is probed first.
    pub fn new(config: Config) -> (s: Session)
        ensures
            s.config == config,
            s.stage == Stage::ProbeTool,
    {
        Session { config, stage: Stage::ProbeTool }
    }

    /// The action pending at the current stage.
    pub fn action(&self) -> (a: Action)
        ensures
            pending(self.stage, a),
    {
        match &self.stage {
            Stage::ProbeTool | Stage::ReprobeTool => {
                let args = vec!["--version"];
                assert(args@.map_values(|s: &str| s@) =~= seq!["--version"@]);
                run("gh", args, false)
            },
            Stage::AskInstall => Action::Ask(Prompt::InstallConsent),
            Stage::InstallBrew => {
                let args = vec!["install", "gh"];
                assert(args@.map_values(|s: &str| s@) =~= seq!["install"@, "gh"@]);
                run("brew", args, true)
            },
            Stage::InstallWinget => {
                let args = vec!["install", "--id", "GitHub.cli"];
                assert(args@.map_values(|s: &str| s@) =~= seq!["install"@, "--id"@, "GitHub.cli"@]);
                run("winget", args, false)
            },
            Stage::ProbeChocolatey => {
                let args = vec!["--version"];
                assert(args@.map_values(|s: &str| s@) =~= seq!["--version"@]);
                run("choco", args, false)
            },
            Stage::InstallChocolatey => {
                let args = vec!["-Command", "Start-Process", "choco", "-ArgumentList", "'install', 'gh', '-y'", "-Verb", "RunAs"];
                assert(args@.map_values(|s: &str| s@) =~= seq!["-Command"@, "Start-Process"@, "choco"@, "-ArgumentList"@, "'install', 'gh', '-y'"@, "-Verb"@, "RunAs"@]);
                run("powershell", args, true)
            },
            Stage::LocateInstaller => Action::LocateInstaller(String::from_str("gh_installer.msi")),
            Stage::DownloadInstaller(path) => {
                let args = vec!["-Command", "Invoke-WebRequest", "-Uri", "https://github.com/cli/cli/releases/download/v2.0.0/gh_2.0.0_windows_amd64.msi", "-OutFile", path.as_str()];
                assert(args@.map_values(|s: &str| s@) =~= seq!["-Command"@, "Invoke-WebRequest"@, "-Uri"@, "https://github.com/cli/cli/releases/download/v2.0.0/gh_2.0.0_windows_amd64.msi"@, "-OutFile"@, path@]);
                run("powershell", args, true)
            },
            Stage::ClearCredential => Action::ClearCredential(String::from_str("GITHUB_TOKEN")),
            Stage::ProbeAuth => {
                let args = vec!["auth", "status"];
                assert(args@.map_values(|s: &str| s@) =~= seq!["auth"@, "status"@]);
                run("gh", args, false)
            },
            Stage::Login => {
                let args = vec!["auth", "login", "-p", "https", "-w"];
                assert(args@.map_values(|s: &str| s@) =~= seq!["auth"@, "login"@, "-p"@, "https"@, "-w"@]);
                run("gh", args, true)
            },
            Stage::SetProtocol => {
                let args = vec!["config", "set", "-h", "github.com", "git_protocol", "https"];
                assert(args@.map_values(|s: &str| s@) =~= seq!["config"@, "set"@, "-h"@, "github.com"@, "git_protocol"@, "https"@]);
                run("gh", args, true)
            },
            Stage::AskName { retry } => Action::Ask(Prompt::RepoName { retry: *retry }),
            Stage::AskVisibility { retry, .. } => Action::Ask(Prompt::Visibility { retry: *retry }),
            Stage::Create { name, visibility } => {
                let flag = visibility.flag();
                {
                let args = vec!["repo", "create", name.as_str(), flag.as_str(), "--confirm"];
                assert(args@.map_values(|s: &str| s@) =~= seq!["repo"@, "create"@, name@, flag@, "--confirm"@]);
                run("gh", args, false)
            }
            },
            Stage::AskLink(_) => Action::Ask(Prompt::LinkConsent),
            Stage::InitRepo(_) => {
                let args = vec!["init"];
                assert(args@.map_values(|s: &str| s@) =~= seq!["init"@]);
                run("git", args, false)
            },
            Stage::ListRemotes(_) => {
                let args = vec!["remote"];
                assert(args@.map_values(|s: &str| s@) =~= seq!["remote"@]);
                run("git", args, false)
            },
            Stage::BindRemote { url, replace } => bind_remote(url.as_str(), *replace),
            Stage::Finished(o) => Action::Finish(copy_outcome(o)),
        }
    }

    /// Moves the session on by the event that the pending action produced.
    pub fn step(&mut self, event: Event)
        ensures
            final(self).config == old(self).config,
            next(old(self).config, old(self).stage, event, final(self).stage),
    {
        match advance(self.config, &self.stage, event) {
            Some(s) => {
                self.stage = s;
            },
            None => {},
        }
    }

    /// Whether the run has ended.
    pub fn is_finished(&self) -> (r: bool)
        ensures
            r == (self.stage is Finished),
    {
        match self.stage {
            Stage::Finished(_) => true,
            _ => false,
        }
    }
}

/// The process exit code for how a run ended.
pub fn exit_code(o: &Outcome) -> (r: i32)
    ensures
        r == exit_code_of(*o),
{
    match o {
        Outcome::Failed(_) => 1,
        _ => 0,
    }
}

} // verus!
