//! The self-update check: how the program was installed, and the decisions
//! between looking up the latest release and running the update.

use vstd::prelude::*;
use crate::text::{contains, leading_run, occurs_in, strip_leading, texts};

verus! {

/// How the running program was installed.
#[derive(Debug, Clone, Copy, PartialEq, Eq, Structural)]
pub enum InstallMethod {
    Brew,
    Cargo,
    Unknown,
}

/// The install method that the path of the running executable points to;
/// `None` stands for a path that could not be had.
pub open spec fn detected(exe_path: Option<Seq<char>>) -> InstallMethod {
    match exe_path {
        Some(path) => if occurs_in(path, "/homebrew/"@) || occurs_in(path, "/linuxbrew/"@) {
            InstallMethod::Brew
        } else if occurs_in(path, "/.cargo/"@) {
            InstallMethod::Cargo
        } else {
            InstallMethod::Unknown
        },
        None => InstallMethod::Unknown,
    }
}

/// A program to run, with its arguments and one variable of its environment.
#[derive(Debug, PartialEq, Eq)]
pub struct UpdateCommand {
    pub program: String,
    pub args: Vec<String>,
    /// The name and the value of a variable to set for the program.
    pub env: Option<(String, String)>,
}

impl InstallMethod {
    /// Tells the install method from the path of the running executable.
    pub fn detect(exe_path: Option<&str>) -> (method: Self)
        ensures
            method == detected(
                match exe_path {
                    Some(path) => Some(path@),
                    None => None,
                },
            ),
    {
        match exe_path {
            Some(path) => {
                if contains(path, "/homebrew/") || contains(path, "/linuxbrew/") {
                    InstallMethod::Brew
                } else if contains(path, "/.cargo/") {
                    InstallMethod::Cargo
                } else {
                    InstallMethod::Unknown
                }
            },
            None => InstallMethod::Unknown,
        }
    }

    /// The command that updates a program installed in this way; there is
    /// none for an unknown install method.
    pub fn update_command(self) -> (command: Option<UpdateCommand>)
        ensures
            match self {
                InstallMethod::Brew => command matches Some(c) && c.program@ == "brew"@ && texts(
                    c.args@,
                ) == seq!["upgrade"@, "devver-cli"@] && (c.env matches Some(var) && var.0@
                    == "HOMEBREW_NO_AUTO_UPDATE"@ && var.1@ == "1"@),
                InstallMethod::Cargo => command matches Some(c) && c.program@ == "cargo"@ && texts(
                    c.args@,
                ) == seq!["install"@, "devver-cli"@, "--force"@, "--quiet"@] && c.env is None,
                InstallMethod::Unknown => command is None,
            },
    {
        match self {
            InstallMethod::Brew => {
                let mut args: Vec<String> = Vec::new();
                args.push("upgrade".to_string());
                args.push("devver-cli".to_string());
                proof {
                    assert(texts(args@) =~= seq!["upgrade"@, "devver-cli"@]);
                }
                Some(
                    UpdateCommand {
                        program: "brew".to_string(),
                        args,
                        env: Some(("HOMEBREW_NO_AUTO_UPDATE".to_string(), "1".to_string())),
                    },
                )
            },
            InstallMethod::Cargo => {
                let mut args: Vec<String> = Vec::new();
                args.push("install".to_string());
                args.push("devver-cli".to_string());
                args.push("--force".to_string());
                args.push("--quiet".to_string());
                proof {
                    assert(texts(args@) =~= seq![
                        "install"@,
                        "devver-cli"@,
                        "--force"@,
                        "--quiet"@,
                    ]);
                }
                Some(UpdateCommand { program: "cargo".to_string(), args, env: None })
            },
            InstallMethod::Unknown => None,
        }
    }
}

/// The outcome of an update check, as a line for display.
#[derive(Debug, PartialEq, Eq)]
pub struct UpdateResult {
    pub message: String,
}

/// The version that a release tag names: the tag without the `v`s at its start.
pub open spec fn version_of(tag: Seq<char>) -> Seq<char> {
    tag.skip(leading_run(tag, 'v') as int)
}

/// The message for a program whose install method is unknown.
pub open spec fn skipped_text() -> Seq<char> {
    "Skipping auto-update (unknown install method)"@
}

/// The message for a latest release that could not be looked up.
pub open spec fn unchecked_text() -> Seq<char> {
    "Could not check for updates"@
}

/// The message for a program that is the latest release already.
pub open spec fn latest_text(current: Seq<char>) -> Seq<char> {
    "v"@ + current + " (latest)"@
}

/// The message for an update that ran.
pub open spec fn updated_text(latest: Seq<char>) -> Seq<char> {
    "Updated to v"@ + latest + " (will apply on next launch)"@
}

/// The message for an update that could not be run.
pub open spec fn failed_text(latest: Seq<char>) -> Seq<char> {
    "Update to v"@ + latest + " failed"@
}

/// Where an update check stands.
#[derive(Debug, PartialEq, Eq)]
pub enum UpdateCheck {
    /// The install method of the program, whose version is `current`, is not
    /// known yet.
    Detecting { current: String },
    /// The latest release is being looked up.
    Fetching { current: String, method: InstallMethod },
    /// The update to the version `latest` is running.
    Updating { latest: String },
    /// The check has given its result.
    Done,
}

/// What the outside world reports to an update check.
#[derive(Debug, PartialEq, Eq)]
pub enum UpdateEvent {
    /// The install method was detected.
    Detected(InstallMethod),
    /// The latest release was looked up: its tag, or `None` after a failure.
    Fetched(Option<String>),
    /// The update command was run; `true` if it could be started and ended.
    Updated(bool),
}

/// What an update check asks of the outside world next.
#[derive(Debug, PartialEq, Eq)]
pub enum UpdateAction {
    /// Look up the tag of the latest release and report it.
    Fetch,
    /// Run the update command of the install method and report how it went.
    Run(InstallMethod),
    /// Show the result; the check is over.
    Finish(UpdateResult),
    /// Nothing: the event did not fit the state, which is unchanged.
    Ignore,
}

/// The mathematical model of `UpdateCheck`.
pub enum CheckModel {
    Detecting { current: Seq<char> },
    Fetching { current: Seq<char>, method: InstallMethod },
    Updating { latest: Seq<char> },
    Done,
}

/// The mathematical model of `UpdateEvent`.
pub enum EventModel {
    Detected(InstallMethod),
    Fetched(Option<Seq<char>>),
    Updated(bool),
}

/// The mathematical model of `UpdateAction`.
pub enum ActionModel {
    Fetch,
    Run(InstallMethod),
    Finish(Seq<char>),
    Ignore,
}

impl View for UpdateCheck {
    type V = CheckModel;

    open spec fn view(&self) -> CheckModel {
        match *self {
            UpdateCheck::Detecting { current } => CheckModel::Detecting { current: current@ },
            UpdateCheck::Fetching { current, method } => CheckModel::Fetching {
                current: current@,
                method,
            },
            UpdateCheck::Updating { latest } => CheckModel::Updating { latest: latest@ },
            UpdateCheck::Done => CheckModel::Done,
        }
    }
}

impl View for UpdateEvent {
    type V = EventModel;

    open spec fn view(&self) -> EventModel {
        match *self {
            UpdateEvent::Detected(method) => EventModel::Detected(method),
            UpdateEvent::Fetched(tag) => EventModel::Fetched(
                match tag {
                    Some(t) => Some(t@),
                    None => None,
                },
            ),
            UpdateEvent::Updated(ok) => EventModel::Updated(ok),
        }
    }
}

impl View for UpdateAction {
    type V = ActionModel;

    open spec fn view(&self) -> ActionModel {
        match *self {
            UpdateAction::Fetch => ActionModel::Fetch,
            UpdateAction::Run(method) => ActionModel::Run(method),
            UpdateAction::Finish(result) => ActionModel::Finish(result.message@),
            UpdateAction::Ignore => ActionModel::Ignore,
        }
    }
}

/// The state that follows `state` on `event`, and what the check asks for.
///
/// A program installed in an unknown way is not updated. Otherwise the
/// latest release is looked up; if that fails, or if the program is that
/// release already, the check ends, else the update is run and the check
/// ends with how it went. An event that does not fit the state is ignored.
pub open spec fn stepped(state: CheckModel, event: EventModel) -> (CheckModel, ActionModel) {
    match (state, event) {
        (CheckModel::Detecting { current }, EventModel::Detected(method)) => match method {
            InstallMethod::Unknown => (CheckModel::Done, ActionModel::Finish(skipped_text())),
            _ => (CheckModel::Fetching { current, method }, ActionModel::Fetch),
        },
        (CheckModel::Fetching { current, method }, EventModel::Fetched(tag)) => match tag {
            None => (CheckModel::Done, ActionModel::Finish(unchecked_text())),
            Some(t) => if version_of(t) == current {
                (CheckModel::Done, ActionModel::Finish(latest_text(current)))
            } else {
                (CheckModel::Updating { latest: version_of(t) }, ActionModel::Run(method))
            },
        },
        (CheckModel::Updating { latest }, EventModel::Updated(ok)) => if ok {
            (CheckModel::Done, ActionModel::Finish(updated_text(latest)))
        } else {
            (CheckModel::Done, ActionModel::Finish(failed_text(latest)))
        },
        _ => (state, ActionModel::Ignore),
    }
}

fn finish(message: String) -> (next: (UpdateCheck, UpdateAction))
    ensures
        next.0@ == CheckModel::Done,
        next.1@ == ActionModel::Finish(message@),
{
    (UpdateCheck::Done, UpdateAction::Finish(UpdateResult { message }))
}

fn framed(before: &str, middle: &str, after: &str) -> (out: String)
    ensures
        out@ == before@ + middle@ + after@,
{
    let mut out = before.to_string();
    out.append(middle);
    out.append(after);
    out
}

impl UpdateCheck {
    /// A check for a program whose own version is `current`.
    pub fn new(current: &str) -> (check: Self)
        ensures
            check@ == (CheckModel::Detecting { current: current@ }),
    {
        UpdateCheck::Detecting { current: current.to_string() }
    }
}

/// Takes an update check one step on: from its state and what the outside
/// world reports, to its next state and what it asks for next.
pub fn check_and_update(state: UpdateCheck, event: UpdateEvent) -> (next: (
    UpdateCheck,
    UpdateAction,
))
    ensures
        (next.0@, next.1@) == stepped(state@, event@),
{
    match state {
        UpdateCheck::Detecting { current } => match event {
            UpdateEvent::Detected(method) => match method {
                InstallMethod::Unknown => finish(
                    "Skipping auto-update (unknown install method)".to_string(),
                ),
                _ => (UpdateCheck::Fetching { current, method }, UpdateAction::Fetch),
            },
            _ => (UpdateCheck::Detecting { current }, UpdateAction::Ignore),
        },
        UpdateCheck::Fetching { current, method } => match event {
            UpdateEvent::Fetched(tag) => match tag {
                None => finish("Could not check for updates".to_string()),
                Some(t) => {
                    let latest = strip_leading(t.as_str(), 'v');
                    if latest == current {
                        finish(framed("v", current.as_str(), " (latest)"))
                    } else {
                        (UpdateCheck::Updating { latest }, UpdateAction::Run(method))
                    }
                },
            },
            _ => (UpdateCheck::Fetching { current, method }, UpdateAction::Ignore),
        },
        UpdateCheck::Updating { latest } => match event {
            UpdateEvent::Updated(ok) => {
                if ok {
                    finish(framed("Updated to v", latest.as_str(), " (will apply on next launch)"))
                } else {
                    finish(framed("Update to v", latest.as_str(), " failed"))
                }
            },
            _ => (UpdateCheck::Updating { latest }, UpdateAction::Ignore),
        },
        UpdateCheck::Done => (UpdateCheck::Done, UpdateAction::Ignore),
    }
}

/// A check that is over stays over, and a check ends within three steps
/// however the outside world answers what it asks for.
pub proof fn lemma_check_ends(
    current: Seq<char>,
    method: InstallMethod,
    tag: Option<Seq<char>>,
    ok: bool,
    event: EventModel,
)
    ensures
        stepped(CheckModel::Done, event) == (CheckModel::Done, ActionModel::Ignore),
        ({
            let first = stepped(CheckModel::Detecting { current }, EventModel::Detected(method));
            let second = stepped(first.0, EventModel::Fetched(tag));
            let third = stepped(second.0, EventModel::Updated(ok));
            &&& first.1 is Finish || first.1 is Fetch
            &&& first.1 is Fetch ==> second.1 is Finish || second.1 is Run
            &&& first.1 is Fetch && second.1 is Run ==> third.1 is Finish
            &&& first.1 is Finish <==> first.0 is Done
            &&& second.1 is Finish ==> second.0 is Done
            &&& third.1 is Finish ==> third.0 is Done
        }),
{
}

} // verus!
