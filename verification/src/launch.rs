//! The launch dispatcher. Starting an application takes up to two requests
//! to the host: whether a path exists, and the start of a process. The
//! dispatcher decides; the caller performs each request and hands the answer
//! back, until a step says that the run is done.

use crate::outcome::{
    outcome_view, LaunchError, LaunchErrorView, Outcome, OutcomeView, Report, ReportView,
};
use crate::platform::Platform;
use crate::registry::{Registry, CHATWORK};
use crate::text::same_text;
use vstd::prelude::*;

verus! {

/// What the caller has to do next.
#[derive(Debug, PartialEq, Eq)]
pub enum Step {
    /// Find out whether `path` exists on disk, then call [`path_checked`].
    CheckPath { app: String, path: String },
    /// Start `program` without arguments and without waiting for it, then
    /// call [`spawn_finished`].
    Spawn { app: String, program: String },
    /// Start the URL opener `program` with `args` without waiting for it,
    /// then call [`url_opened`].
    OpenUrl { program: String, args: Vec<String> },
    /// Nothing is left to do but to show how the run ended.
    Done(Outcome),
}

/// [`Step`] over character sequences.
pub enum StepView {
    CheckPath { app: Seq<char>, path: Seq<char> },
    Spawn { app: Seq<char>, program: Seq<char> },
    OpenUrl { program: Seq<char>, args: Seq<Seq<char>> },
    Done(OutcomeView),
}

impl View for Step {
    type V = StepView;

    open spec fn view(&self) -> StepView {
        match self {
            Step::CheckPath { app, path } => StepView::CheckPath { app: app@, path: path@ },
            Step::Spawn { app, program } => StepView::Spawn { app: app@, program: program@ },
            Step::OpenUrl { program, args } => StepView::OpenUrl {
                program: program@,
                args: args.deep_view(),
            },
            Step::Done(outcome) => StepView::Done(outcome_view(*outcome)),
        }
    }
}

/// The request that opens `url` in the default browser of `platform`: the
/// command shell's `start` on Windows, `open` on macOS, `xdg-open` on Linux.
pub open spec fn url_opener(platform: Platform, url: Seq<char>) -> StepView {
    match platform {
        Platform::Windows => StepView::OpenUrl {
            program: "cmd"@,
            args: seq!["/C"@, "start"@, url],
        },
        Platform::MacOs => StepView::OpenUrl { program: "open"@, args: seq![url] },
        Platform::Linux => StepView::OpenUrl { program: "xdg-open"@, args: seq![url] },
    }
}

/// The first step of running `app`.
///
/// Chatwork is a web page: whatever is registered for it is handed to the URL
/// opener, with no look at the disk. Any other key must be registered. Its
/// target is spawned at once where targets are command names, and after a
/// check of the path elsewhere.
pub open spec fn launch_step(
    platform: Platform,
    apps: Map<Seq<char>, Seq<char>>,
    app: Seq<char>,
) -> StepView {
    if app == CHATWORK@ {
        url_opener(platform, apps[CHATWORK@])
    } else if !apps.contains_key(app) {
        StepView::Done(Err(LaunchErrorView::UnknownApplication { app }))
    } else if platform.checks_paths() {
        StepView::CheckPath { app, path: apps[app] }
    } else {
        StepView::Spawn { app, program: apps[app] }
    }
}

/// The step after the host has said whether `path` exists.
pub open spec fn path_checked_step(app: Seq<char>, path: Seq<char>, exists: bool) -> StepView {
    if exists {
        StepView::Spawn { app, program: path }
    } else {
        StepView::Done(Err(LaunchErrorView::TargetNotFound { path }))
    }
}

/// The step after the host has tried to start the application: `started`
/// holds the identifier of the new process, or nothing if none was created.
pub open spec fn spawn_finished_step(app: Seq<char>, started: Option<u32>) -> StepView {
    match started {
        Some(pid) => StepView::Done(Ok(ReportView::Launched { app, pid })),
        None => StepView::Done(
            Err(LaunchErrorView::SpawnFailure { diagnostic: "Failed to launch application"@ }),
        ),
    }
}

/// The step after the host has tried to start the URL opener.
pub open spec fn url_opened_step(started: bool) -> StepView {
    if started {
        StepView::Done(Ok(ReportView::OpenedChatwork))
    } else {
        StepView::Done(
            Err(LaunchErrorView::SpawnFailure { diagnostic: "Failed to open Chatwork"@ }),
        )
    }
}

/// Builds the request that opens `url` on `platform`.
fn open_url(platform: Platform, url: &str) -> (step: Step)
    ensures
        step@ == url_opener(platform, url@),
{
    let mut args: Vec<String> = Vec::new();
    let program = match platform {
        Platform::Windows => {
            args.push("/C".to_owned());
            args.push("start".to_owned());
            "cmd"
        },
        Platform::MacOs => "open",
        Platform::Linux => "xdg-open",
    };
    args.push(url.to_owned());
    let step = Step::OpenUrl { program: program.to_owned(), args };
    assert(step@->OpenUrl_args =~= url_opener(platform, url@)->OpenUrl_args);
    step
}

/// Decides how `app_name` is started on `platform` from the registry `apps`.
///
/// The Chatwork URL is taken from the registry, so a request for Chatwork
/// needs a registry that holds it.
pub fn launch_application(platform: Platform, apps: &Registry, app_name: &str) -> (step: Step)
    requires
        app_name@ == CHATWORK@ ==> apps@.contains_key(CHATWORK@),
    ensures
        step@ == launch_step(platform, apps@, app_name@),
{
    if same_text(app_name, CHATWORK) {
        let url = apps.get(CHATWORK).unwrap();
        open_url(platform, url)
    } else {
        match apps.get(app_name) {
            None => Step::Done(Err(LaunchError::UnknownApplication { app: app_name.to_owned() })),
            Some(target) => {
                if platform.must_check_path() {
                    Step::CheckPath { app: app_name.to_owned(), path: target.to_owned() }
                } else {
                    Step::Spawn { app: app_name.to_owned(), program: target.to_owned() }
                }
            },
        }
    }
}

/// Continues after [`Step::CheckPath`]: a path that exists is spawned, one
/// that does not ends the run.
pub fn path_checked(app: String, path: String, exists: bool) -> (step: Step)
    ensures
        step@ == path_checked_step(app@, path@, exists),
{
    if exists {
        Step::Spawn { app, program: path }
    } else {
        Step::Done(Err(LaunchError::TargetNotFound { path }))
    }
}

/// Continues after [`Step::Spawn`]: reports the new process, or the failure
/// to create one.
pub fn spawn_finished(app: String, started: Option<u32>) -> (step: Step)
    ensures
        step@ == spawn_finished_step(app@, started),
{
    match started {
        Some(pid) => Step::Done(Ok(Report::Launched { app, pid })),
        None => Step::Done(
            Err(LaunchError::SpawnFailure { diagnostic: "Failed to launch application".to_owned() }),
        ),
    }
}

/// Continues after [`Step::OpenUrl`].
pub fn url_opened(started: bool) -> (step: Step)
    ensures
        step@ == url_opened_step(started),
{
    if started {
        Step::Done(Ok(Report::OpenedChatwork))
    } else {
        Step::Done(
            Err(LaunchError::SpawnFailure { diagnostic: "Failed to open Chatwork".to_owned() }),
        )
    }
}

} // verus!
