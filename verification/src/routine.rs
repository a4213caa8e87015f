//! The apply routine: modify the connection, bring it down, bring it up.
//!
//! The routine runs nothing itself. It names the command whose outcome it
//! awaits, and [`Routine::advance`] says what follows from that outcome.

use vstd::prelude::*;
use vstd::string::*;
use crate::command::{
    down_command, string_from_utf8_lossy, up_command, utf8_lossy, CommandOutcome, CommandOutcomeView,
    Invocation, InvocationView,
};
use crate::error::{DnsError, DnsErrorView};

verus! {

/// The command whose outcome a routine awaits.
#[derive(Debug, Clone, Copy, PartialEq, Eq)]
pub enum Stage {
    /// The command that modifies the connection.
    Modify,
    /// The command that brings the connection down.
    Down,
    /// The command that brings the connection up.
    Up,
}

/// An apply routine in progress.
#[derive(Debug, PartialEq, Eq)]
pub struct Routine {
    stage: Stage,
    pending: Invocation,
    connection: String,
}

/// A [`Routine`] as sequences.
pub struct RoutineView {
    pub stage: Stage,
    pub pending: InvocationView,
    pub connection: Seq<char>,
}

/// What an outcome does to a routine.
#[derive(Debug, PartialEq, Eq)]
pub enum Progress {
    /// The routine goes on, and awaits the outcome of another command.
    Next(Routine),
    /// The routine is over.
    Done(Result<(), DnsError>),
}

/// A [`Progress`] as sequences.
pub enum ProgressView {
    Next(RoutineView),
    Done(Result<(), DnsErrorView>),
}

impl View for Routine {
    type V = RoutineView;

    closed spec fn view(&self) -> RoutineView {
        RoutineView {
            stage: self.stage,
            pending: self.pending@,
            connection: self.connection@,
        }
    }
}

impl View for Progress {
    type V = ProgressView;

    open spec fn view(&self) -> ProgressView {
        match self {
            Progress::Next(routine) => ProgressView::Next(routine@),
            Progress::Done(Ok(_)) => ProgressView::Done(Ok(())),
            Progress::Done(Err(e)) => ProgressView::Done(Err(e@)),
        }
    }
}

impl CommandOutcomeView {
    /// What the outcome means for the command that modifies the connection:
    /// it has to run and to exit with success.
    pub open spec fn modify_result(self) -> Result<(), DnsErrorView> {
        match self {
            CommandOutcomeView::NotStarted { reason } => Err(DnsErrorView::Io { detail: reason }),
            CommandOutcomeView::Exited { success, stdout, stderr } => if success {
                Ok(())
            } else {
                Err(DnsErrorView::CommandFailed { diagnostic: utf8_lossy(stderr) })
            },
        }
    }

    /// What the outcome means for the command that brings the connection up:
    /// it has to run and to exit with success.
    pub open spec fn up_result(self) -> Result<(), DnsErrorView> {
        match self {
            CommandOutcomeView::NotStarted { reason } => Err(DnsErrorView::Io { detail: reason }),
            CommandOutcomeView::Exited { success, stdout, stderr } => if success {
                Ok(())
            } else {
                Err(DnsErrorView::RestartFailed { diagnostic: utf8_lossy(stderr) })
            },
        }
    }
}

impl RoutineView {
    /// The routine that runs `command` and then restarts `connection`.
    pub open spec fn apply(command: InvocationView, connection: Seq<char>) -> RoutineView {
        RoutineView { stage: Stage::Modify, pending: command, connection }
    }

    /// The routine that restarts `connection`.
    pub open spec fn restart(connection: Seq<char>) -> RoutineView {
        RoutineView { stage: Stage::Down, pending: down_command(connection), connection }
    }

    /// What follows from the outcome of the pending command. A failure to
    /// modify ends the routine. Whatever comes of bringing the connection
    /// down, bringing it up is next. The routine succeeds when that does.
    pub open spec fn advance(self, outcome: CommandOutcomeView) -> ProgressView {
        match self.stage {
            Stage::Modify => match outcome.modify_result() {
                Ok(_) => ProgressView::Next(RoutineView::restart(self.connection)),
                Err(e) => ProgressView::Done(Err(e)),
            },
            Stage::Down => ProgressView::Next(
                RoutineView {
                    stage: Stage::Up,
                    pending: up_command(self.connection),
                    connection: self.connection,
                },
            ),
            Stage::Up => ProgressView::Done(outcome.up_result()),
        }
    }
}

impl CommandOutcome {
    /// What the outcome means for the command that modifies the connection.
    pub fn modify_result(&self) -> (result: Result<(), DnsError>)
        ensures
            match self@.modify_result() {
                Ok(_) => result is Ok,
                Err(e) => result matches Err(x) && x@ == e,
            },
    {
        match self {
            CommandOutcome::NotStarted { reason } => Err(DnsError::Io { detail: reason.clone() }),
            CommandOutcome::Exited { success, stdout: _, stderr } => if *success {
                Ok(())
            } else {
                Err(DnsError::CommandFailed { diagnostic: string_from_utf8_lossy(stderr) })
            },
        }
    }

    /// What the outcome means for the command that brings the connection up.
    pub fn up_result(&self) -> (result: Result<(), DnsError>)
        ensures
            match self@.up_result() {
                Ok(_) => result is Ok,
                Err(e) => result matches Err(x) && x@ == e,
            },
    {
        match self {
            CommandOutcome::NotStarted { reason } => Err(DnsError::Io { detail: reason.clone() }),
            CommandOutcome::Exited { success, stdout: _, stderr } => if *success {
                Ok(())
            } else {
                Err(DnsError::RestartFailed { diagnostic: string_from_utf8_lossy(stderr) })
            },
        }
    }
}

impl Routine {
    /// The routine that runs `command` and then restarts `connection`.
    pub fn apply(command: Invocation, connection: &str) -> (routine: Routine)
        ensures
            routine@ == RoutineView::apply(command@, connection@),
    {
        Routine { stage: Stage::Modify, pending: command, connection: connection.to_owned() }
    }

    /// The routine that restarts `connection`.
    pub fn restart(connection: &str) -> (routine: Routine)
        ensures
            routine@ == RoutineView::restart(connection@),
    {
        Routine {
            stage: Stage::Down,
            pending: Invocation::down(connection),
            connection: connection.to_owned(),
        }
    }

    /// Which command's outcome the routine awaits.
    pub fn stage(&self) -> (stage: Stage)
        ensures
            stage == self@.stage,
    {
        self.stage
    }

    /// The command whose outcome the routine awaits.
    pub fn pending(&self) -> (command: &Invocation)
        ensures
            command@ == self@.pending,
    {
        &self.pending
    }

    /// The connection that the routine restarts.
    pub fn connection(&self) -> (name: &str)
        ensures
            name@ == self@.connection,
    {
        self.connection.as_str()
    }

    /// What follows from the outcome of the pending command.
    pub fn advance(self, outcome: &CommandOutcome) -> (progress: Progress)
        ensures
            progress@ == self@.advance(outcome@),
    {
        match self.stage {
            Stage::Modify => match outcome.modify_result() {
                Ok(_) => Progress::Next(Routine::restart(self.connection.as_str())),
                Err(e) => Progress::Done(Err(e)),
            },
            Stage::Down => Progress::Next(
                Routine {
                    stage: Stage::Up,
                    pending: Invocation::up(self.connection.as_str()),
                    connection: self.connection,
                },
            ),
            Stage::Up => Progress::Done(outcome.up_result()),
        }
    }
}

} // verus!
