//! What a whole run does on a host: a model of the host's answers, the run
//! that follows from them, and theorems about every run.

use crate::cli::first_step;
use crate::launch::{
    launch_step, path_checked_step, spawn_finished_step, url_opened_step, url_opener, StepView,
};
use crate::outcome::{is_fatal, outcome_lines, LaunchErrorView, OutcomeView, ReportView};
use crate::platform::Platform;
use crate::registry::CHATWORK;
use crate::text::{
    path_not_found_line, unknown_application_line, unknown_command_line, usage_lines,
};
use vstd::prelude::*;

verus! {

/// How a host answers the dispatcher's requests.
pub struct Host {
    /// Whether a path exists on disk.
    pub path_exists: spec_fn(Seq<char>) -> bool,
    /// The identifier of the process started for a program, or nothing if
    /// the host could not start it.
    pub spawn: spec_fn(Seq<char>) -> Option<u32>,
    /// Whether the host could start the URL opener with these arguments.
    pub open_url: spec_fn(Seq<char>, Seq<Seq<char>>) -> bool,
}

/// Whether `step` asks the host to start a process: an application or the
/// URL opener.
pub open spec fn is_launch(step: StepView) -> bool {
    step is Spawn || step is OpenUrl
}

/// The step that follows `step` once `host` has answered it. A finished run
/// stays as it is.
pub open spec fn next_step(step: StepView, host: Host) -> StepView {
    match step {
        StepView::CheckPath { app, path } => path_checked_step(app, path, (host.path_exists)(path)),
        StepView::Spawn { app, program } => spawn_finished_step(app, (host.spawn)(program)),
        StepView::OpenUrl { program, args } => url_opened_step((host.open_url)(program, args)),
        StepView::Done(_) => step,
    }
}

/// An upper bound on the requests still to come, `step` included.
pub open spec fn requests_left(step: StepView) -> nat {
    match step {
        StepView::CheckPath { .. } => 2,
        StepView::Spawn { .. } => 1,
        StepView::OpenUrl { .. } => 1,
        StepView::Done(_) => 0,
    }
}

/// How the run that starts with `step` ends on `host`.
pub open spec fn outcome_on(step: StepView, host: Host) -> OutcomeView
    decreases requests_left(step),
{
    match step {
        StepView::Done(outcome) => outcome,
        _ => outcome_on(next_step(step, host), host),
    }
}

/// How many processes the run that starts with `step` asks `host` to start.
pub open spec fn launch_attempts(step: StepView, host: Host) -> nat
    decreases requests_left(step),
{
    if step is Done {
        0
    } else {
        (if is_launch(step) { 1nat } else { 0nat }) + launch_attempts(next_step(step, host), host)
    }
}

/// How many times the run that starts with `step` asks `host` whether a
/// path exists.
pub open spec fn path_checks(step: StepView, host: Host) -> nat
    decreases requests_left(step),
{
    if step is Done {
        0
    } else {
        (if step is CheckPath { 1nat } else { 0nat }) + path_checks(next_step(step, host), host)
    }
}

/// Whether the target registered for `app` can be started on `host`:
/// Chatwork always, any target where paths are not checked, and elsewhere a
/// target whose path exists.
pub open spec fn startable(
    platform: Platform,
    apps: Map<Seq<char>, Seq<char>>,
    app: Seq<char>,
    host: Host,
) -> bool {
    app == CHATWORK@ || !platform.checks_paths() || (host.path_exists)(apps[app])
}

/// No run asks the host to start more than one process, whatever the
/// arguments, the registry and the host's answers are.
pub proof fn theorem_at_most_one_launch(
    platform: Platform,
    apps: Map<Seq<char>, Seq<char>>,
    keys: Seq<Seq<char>>,
    args: Seq<Seq<char>>,
    host: Host,
)
    ensures
        launch_attempts(first_step(platform, apps, keys, args), host) <= 1,
        forall|app: Seq<char>| #[trigger] launch_attempts(launch_step(platform, apps, app), host) <= 1,
{
    reveal_with_fuel(launch_attempts, 3);
}

/// Running a registered key whose target can be started asks the host to
/// start exactly one process.
pub proof fn theorem_registered_key_launches_once(
    platform: Platform,
    apps: Map<Seq<char>, Seq<char>>,
    app: Seq<char>,
    host: Host,
)
    requires
        apps.contains_key(app),
        startable(platform, apps, app, host),
    ensures
        launch_attempts(launch_step(platform, apps, app), host) == 1,
{
    reveal_with_fuel(launch_attempts, 3);
}

/// Running Chatwork goes to the URL opener with whatever the registry holds
/// for it, and never asks whether a path exists.
pub proof fn theorem_chatwork_opens_url(
    platform: Platform,
    apps: Map<Seq<char>, Seq<char>>,
    host: Host,
)
    ensures
        launch_step(platform, apps, CHATWORK@) == url_opener(platform, apps[CHATWORK@]),
        launch_step(platform, apps, CHATWORK@) is OpenUrl,
        path_checks(launch_step(platform, apps, CHATWORK@), host) == 0,
        launch_attempts(launch_step(platform, apps, CHATWORK@), host) == 1,
{
    reveal_with_fuel(path_checks, 3);
    reveal_with_fuel(launch_attempts, 3);
}

/// Running a key that is neither registered nor Chatwork ends at once in an
/// unknown-application error, and nothing is started.
pub proof fn theorem_unknown_application(
    platform: Platform,
    apps: Map<Seq<char>, Seq<char>>,
    app: Seq<char>,
    host: Host,
)
    requires
        !apps.contains_key(app),
        app != CHATWORK@,
    ensures
        launch_step(platform, apps, app) == StepView::Done(
            Err(LaunchErrorView::UnknownApplication { app }),
        ),
        outcome_lines(outcome_on(launch_step(platform, apps, app), host)) == seq![
            unknown_application_line(app),
        ],
        launch_attempts(launch_step(platform, apps, app), host) == 0,
        path_checks(launch_step(platform, apps, app), host) == 0,
{
}

/// Where paths are checked, running a registered key whose path does not
/// exist ends in a target-not-found error, and nothing is started.
pub proof fn theorem_missing_target(
    platform: Platform,
    apps: Map<Seq<char>, Seq<char>>,
    app: Seq<char>,
    host: Host,
)
    requires
        platform.checks_paths(),
        apps.contains_key(app),
        app != CHATWORK@,
        !(host.path_exists)(apps[app]),
    ensures
        outcome_on(launch_step(platform, apps, app), host) == Err::<ReportView, LaunchErrorView>(
            LaunchErrorView::TargetNotFound { path: apps[app] },
        ),
        outcome_lines(outcome_on(launch_step(platform, apps, app), host)) == seq![
            path_not_found_line(apps[app]),
        ],
        launch_attempts(launch_step(platform, apps, app), host) == 0,
{
    reveal_with_fuel(outcome_on, 3);
    reveal_with_fuel(launch_attempts, 3);
}

/// Where paths are not checked, running a registered key never asks whether
/// a path exists: its target is spawned at once.
pub proof fn theorem_unchecked_platform_spawns_at_once(
    platform: Platform,
    apps: Map<Seq<char>, Seq<char>>,
    app: Seq<char>,
    host: Host,
)
    requires
        !platform.checks_paths(),
        apps.contains_key(app),
        app != CHATWORK@,
    ensures
        launch_step(platform, apps, app) == (StepView::Spawn { app, program: apps[app] }),
        path_checks(launch_step(platform, apps, app), host) == 0,
{
    reveal_with_fuel(path_checks, 3);
}

/// Without a command, or with a first argument that names none, the program
/// shows the usage text, exits normally and starts nothing.
pub proof fn theorem_usage_without_command(
    platform: Platform,
    apps: Map<Seq<char>, Seq<char>>,
    keys: Seq<Seq<char>>,
    args: Seq<Seq<char>>,
    host: Host,
)
    requires
        args.len() < 2 || (args[1] != "list"@ && args[1] != "run"@),
    ensures
        first_step(platform, apps, keys, args) is Done,
        args.len() < 2 ==> outcome_on(first_step(platform, apps, keys, args), host) == Ok::<
            ReportView,
            LaunchErrorView,
        >(ReportView::Usage),
        args.len() < 2 ==> outcome_lines(outcome_on(first_step(platform, apps, keys, args), host))
            == usage_lines(),
        args.len() >= 2 ==> outcome_lines(outcome_on(first_step(platform, apps, keys, args), host))
            == seq![unknown_command_line(args[1])] + usage_lines(),
        outcome_on(first_step(platform, apps, keys, args), host) matches Err(error) ==> !is_fatal(
            error,
        ),
        launch_attempts(first_step(platform, apps, keys, args), host) == 0,
{
}

} // verus!
