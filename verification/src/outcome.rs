//! How an invocation ends: what it reports on success, the errors it can end
//! in, and the lines printed for each.

use crate::text::{
    launched_line, launched_message, listed_line, path_not_found_line, prefixed, push_usage,
    unknown_application_line, unknown_command_line, usage_lines,
};
use vstd::prelude::*;

verus! {

/// What an invocation that went well reports.
#[derive(Debug, PartialEq, Eq)]
pub enum Report {
    /// No command was given: the usage text is shown.
    Usage,
    /// The registered keys, in table order.
    Listed { keys: Vec<String> },
    /// The application was started as process `pid`.
    Launched { app: String, pid: u32 },
    /// The URL opener was started for the Chatwork page.
    OpenedChatwork,
}

/// The errors an invocation can end in.
#[derive(Debug, PartialEq, Eq)]
pub enum LaunchError {
    /// The first argument names no command.
    UnknownCommand { command: String },
    /// The run command was given without an application name.
    MissingArgument,
    /// The requested key is not registered.
    UnknownApplication { app: String },
    /// The registered path does not exist on disk.
    TargetNotFound { path: String },
    /// The host could not start the process.
    SpawnFailure { diagnostic: String },
}

/// How an invocation ended.
pub type Outcome = Result<Report, LaunchError>;

/// [`Report`] over character sequences.
pub enum ReportView {
    Usage,
    Listed { keys: Seq<Seq<char>> },
    Launched { app: Seq<char>, pid: u32 },
    OpenedChatwork,
}

/// [`LaunchError`] over character sequences.
pub enum LaunchErrorView {
    UnknownCommand { command: Seq<char> },
    MissingArgument,
    UnknownApplication { app: Seq<char> },
    TargetNotFound { path: Seq<char> },
    SpawnFailure { diagnostic: Seq<char> },
}

/// [`Outcome`] over character sequences.
pub type OutcomeView = Result<ReportView, LaunchErrorView>;

impl View for Report {
    type V = ReportView;

    open spec fn view(&self) -> ReportView {
        match self {
            Report::Usage => ReportView::Usage,
            Report::Listed { keys } => ReportView::Listed { keys: keys.deep_view() },
            Report::Launched { app, pid } => ReportView::Launched { app: app@, pid: *pid },
            Report::OpenedChatwork => ReportView::OpenedChatwork,
        }
    }
}

impl View for LaunchError {
    type V = LaunchErrorView;

    open spec fn view(&self) -> LaunchErrorView {
        match self {
            LaunchError::UnknownCommand { command } => LaunchErrorView::UnknownCommand {
                command: command@,
            },
            LaunchError::MissingArgument => LaunchErrorView::MissingArgument,
            LaunchError::UnknownApplication { app } => LaunchErrorView::UnknownApplication {
                app: app@,
            },
            LaunchError::TargetNotFound { path } => LaunchErrorView::TargetNotFound { path: path@ },
            LaunchError::SpawnFailure { diagnostic } => LaunchErrorView::SpawnFailure {
                diagnostic: diagnostic@,
            },
        }
    }
}

/// The view of an outcome: the view of its report or of its error.
pub open spec fn outcome_view(outcome: Outcome) -> OutcomeView {
    match outcome {
        Ok(report) => Ok(report@),
        Err(error) => Err(error@),
    }
}

/// The lines printed for a report.
pub open spec fn report_lines(report: ReportView) -> Seq<Seq<char>> {
    match report {
        ReportView::Usage => usage_lines(),
        ReportView::Listed { keys } => seq!["Available applications:"@] + keys.map_values(
            |key: Seq<char>| listed_line(key),
        ),
        ReportView::Launched { app, pid } => seq![launched_line(app, pid)],
        ReportView::OpenedChatwork => seq!["Opened Chatwork in default browser"@],
    }
}

/// The lines printed for an error. An unknown command is followed by the
/// usage text; a spawn failure shows the diagnostic it carries.
pub open spec fn error_lines(error: LaunchErrorView) -> Seq<Seq<char>> {
    match error {
        LaunchErrorView::UnknownCommand { command } => seq![unknown_command_line(command)]
            + usage_lines(),
        LaunchErrorView::MissingArgument => seq!["Please specify an application to run"@],
        LaunchErrorView::UnknownApplication { app } => seq![unknown_application_line(app)],
        LaunchErrorView::TargetNotFound { path } => seq![path_not_found_line(path)],
        LaunchErrorView::SpawnFailure { diagnostic } => seq![diagnostic],
    }
}

/// The lines printed for an outcome.
pub open spec fn outcome_lines(outcome: OutcomeView) -> Seq<Seq<char>> {
    match outcome {
        Ok(report) => report_lines(report),
        Err(error) => error_lines(error),
    }
}

/// Whether an error ends the program abnormally. Only a spawn failure does;
/// every other error is reported and the program exits normally.
pub open spec fn is_fatal(error: LaunchErrorView) -> bool {
    error is SpawnFailure
}

impl Report {
    /// The lines to print for this report.
    pub fn lines(&self) -> (lines: Vec<String>)
        ensures
            lines.deep_view() == report_lines(self@),
    {
        let mut lines: Vec<String> = Vec::new();
        match self {
            Report::Usage => {
                push_usage(&mut lines);
                assert(lines.deep_view() =~= usage_lines());
            },
            Report::Listed { keys } => {
                lines.push("Available applications:".to_owned());
                let mut i: usize = 0;
                while i < keys.len()
                    invariant
                        i <= keys@.len(),
                        lines@.len() == i + 1,
                        lines@[0]@ == "Available applications:"@,
                        forall|j: int| 0 <= j < i ==> lines@[j + 1]@ == listed_line(keys@[j]@),
                    decreases keys@.len() - i,
                {
                    lines.push(prefixed("- ", keys[i].as_str()));
                    i += 1;
                }
                assert(lines.deep_view() =~= report_lines(self@));
            },
            Report::Launched { app, pid } => {
                lines.push(launched_message(app.as_str(), *pid));
                assert(lines.deep_view() =~= report_lines(self@));
            },
            Report::OpenedChatwork => {
                lines.push("Opened Chatwork in default browser".to_owned());
                assert(lines.deep_view() =~= report_lines(self@));
            },
        }
        lines
    }
}

impl LaunchError {
    /// The lines to print for this error.
    pub fn lines(&self) -> (lines: Vec<String>)
        ensures
            lines.deep_view() == error_lines(self@),
    {
        let mut lines: Vec<String> = Vec::new();
        match self {
            LaunchError::UnknownCommand { command } => {
                lines.push(prefixed("Unknown command: ", command.as_str()));
                push_usage(&mut lines);
            },
            LaunchError::MissingArgument => {
                lines.push("Please specify an application to run".to_owned());
            },
            LaunchError::UnknownApplication { app } => {
                lines.push(prefixed("Unknown application: ", app.as_str()));
            },
            LaunchError::TargetNotFound { path } => {
                lines.push(prefixed("Application path not found: ", path.as_str()));
            },
            LaunchError::SpawnFailure { diagnostic } => {
                lines.push(diagnostic.clone());
            },
        }
        assert(lines.deep_view() =~= error_lines(self@));
        lines
    }

    /// Whether this error ends the program abnormally.
    pub fn is_fatal(&self) -> (fatal: bool)
        ensures
            fatal == is_fatal(self@),
    {
        match self {
            LaunchError::SpawnFailure { .. } => true,
            _ => false,
        }
    }
}

} // verus!
