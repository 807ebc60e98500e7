//! The command line: which command the arguments name, and the first step
//! of carrying it out.

use crate::launch::{launch_application, launch_step, Step, StepView};
use crate::outcome::{LaunchError, LaunchErrorView, Report, ReportView};
use crate::platform::Platform;
use crate::registry::{Registry, CHATWORK};
use crate::text::same_text;
use vstd::prelude::*;

verus! {

/// A command the program carries out.
#[derive(Debug, PartialEq, Eq)]
pub enum Command {
    /// Show the usage text.
    Usage,
    /// List the registered applications.
    List,
    /// Run the application registered under `app`.
    Run { app: String },
}

/// [`Command`] over character sequences.
pub enum CommandView {
    Usage,
    List,
    Run { app: Seq<char> },
}

impl View for Command {
    type V = CommandView;

    open spec fn view(&self) -> CommandView {
        match self {
            Command::Usage => CommandView::Usage,
            Command::List => CommandView::List,
            Command::Run { app } => CommandView::Run { app: app@ },
        }
    }
}

/// The view of a parsed command line.
pub open spec fn parsed_view(parsed: Result<Command, LaunchError>) -> Result<
    CommandView,
    LaunchErrorView,
> {
    match parsed {
        Ok(command) => Ok(command@),
        Err(error) => Err(error@),
    }
}

/// The command that `args` name. The first element is the program's own
/// name, the second names the command, the third the application to run;
/// anything after that is ignored. Without a second element the command is
/// to show the usage text.
pub open spec fn command_of(args: Seq<Seq<char>>) -> Result<CommandView, LaunchErrorView> {
    if args.len() < 2 {
        Ok(CommandView::Usage)
    } else if args[1] == "list"@ {
        Ok(CommandView::List)
    } else if args[1] == "run"@ {
        if args.len() < 3 {
            Err(LaunchErrorView::MissingArgument)
        } else {
            Ok(CommandView::Run { app: args[2] })
        }
    } else {
        Err(LaunchErrorView::UnknownCommand { command: args[1] })
    }
}

/// The first step of the program run with `args`, given the registry as a
/// map and its keys in table order.
pub open spec fn first_step(
    platform: Platform,
    apps: Map<Seq<char>, Seq<char>>,
    keys: Seq<Seq<char>>,
    args: Seq<Seq<char>>,
) -> StepView {
    match command_of(args) {
        Ok(CommandView::Usage) => StepView::Done(Ok(ReportView::Usage)),
        Ok(CommandView::List) => StepView::Done(Ok(ReportView::Listed { keys })),
        Ok(CommandView::Run { app }) => launch_step(platform, apps, app),
        Err(error) => StepView::Done(Err(error)),
    }
}

/// Reads the command from the program's arguments.
pub fn parse_command(args: &Vec<String>) -> (parsed: Result<Command, LaunchError>)
    ensures
        parsed_view(parsed) == command_of(args.deep_view()),
{
    if args.len() < 2 {
        return Ok(Command::Usage);
    }
    let command = args[1].as_str();
    if same_text(command, "list") {
        Ok(Command::List)
    } else if same_text(command, "run") {
        if args.len() < 3 {
            Err(LaunchError::MissingArgument)
        } else {
            Ok(Command::Run { app: args[2].clone() })
        }
    } else {
        Err(LaunchError::UnknownCommand { command: args[1].clone() })
    }
}

/// Lists the registered applications: every key of the registry once, in
/// table order, and nothing else.
pub fn list(apps: &Registry) -> (report: Report)
    ensures
        report@ == (ReportView::Listed { keys: apps.key_seq() }),
        report@->keys.no_duplicates(),
        report@->keys.to_set() == apps@.dom(),
{
    Report::Listed { keys: apps.keys() }
}

/// Starts the program: reads the command from `args` and takes its first
/// step.
///
/// The Chatwork URL is taken from the registry, so a request to run Chatwork
/// needs a registry that holds it.
pub fn dispatch(platform: Platform, apps: &Registry, args: &Vec<String>) -> (step: Step)
    requires
        command_of(args.deep_view()) == Ok::<CommandView, LaunchErrorView>(
            CommandView::Run { app: CHATWORK@ },
        ) ==> apps@.contains_key(CHATWORK@),
    ensures
        step@ == first_step(platform, apps@, apps.key_seq(), args.deep_view()),
{
    match parse_command(args) {
        Ok(Command::Usage) => Step::Done(Ok(Report::Usage)),
        Ok(Command::List) => Step::Done(Ok(list(apps))),
        Ok(Command::Run { app }) => launch_application(platform, apps, app.as_str()),
        Err(error) => Step::Done(Err(error)),
    }
}

} // verus!
