//! What passes between the session and the driver that runs it: lines to
//! print, requests to carry out, and the events that answer them.

use vstd::prelude::*;
use crate::command::{CommandOutcome, CommandOutcomeView, Invocation, InvocationView};

verus! {

/// A line for the driver to print.
#[derive(Debug, PartialEq, Eq)]
pub enum Output {
    /// A line for standard output.
    Info(String),
    /// A line for the error stream.
    Error(String),
}

/// An [`Output`] as a character sequence.
pub enum OutputView {
    Info(Seq<char>),
    Error(Seq<char>),
}

impl View for Output {
    type V = OutputView;

    open spec fn view(&self) -> OutputView {
        match self {
            Output::Info(line) => OutputView::Info(line@),
            Output::Error(line) => OutputView::Error(line@),
        }
    }
}

impl DeepView for Output {
    type V = OutputView;

    open spec fn deep_view(&self) -> OutputView {
        self@
    }
}

/// What the driver is to do next. Each request but `Exit` is answered by one
/// [`Event`].
#[derive(Debug, PartialEq, Eq)]
pub enum Request {
    /// Let the user pick one of `items`, with `default` marked at first;
    /// answered by `Selected` or `Unreadable`.
    Select { prompt: String, items: Vec<String>, default: usize },
    /// Let the user type a text; answered by `Entered` or `Unreadable`.
    Input { prompt: String },
    /// Run the command to its end and capture both of its streams; answered
    /// by `Completed`.
    Run(Invocation),
    /// Run the command to its end on the terminal, whatever comes of it;
    /// answered by `Streamed`.
    Stream(Invocation),
    /// End the process with `status`.
    Exit { status: i32 },
}

/// A [`Request`] as sequences.
pub enum RequestView {
    Select { prompt: Seq<char>, items: Seq<Seq<char>>, default: usize },
    Input { prompt: Seq<char> },
    Run(InvocationView),
    Stream(InvocationView),
    Exit { status: i32 },
}

impl View for Request {
    type V = RequestView;

    open spec fn view(&self) -> RequestView {
        match self {
            Request::Select { prompt, items, default } => RequestView::Select {
                prompt: prompt@,
                items: items.deep_view(),
                default: *default,
            },
            Request::Input { prompt } => RequestView::Input { prompt: prompt@ },
            Request::Run(command) => RequestView::Run(command@),
            Request::Stream(command) => RequestView::Stream(command@),
            Request::Exit { status } => RequestView::Exit { status: *status },
        }
    }
}

/// The driver's answer to a request.
#[derive(Debug, PartialEq, Eq)]
pub enum Event {
    /// The user picked the item at this index.
    Selected(usize),
    /// The user typed this text.
    Entered(String),
    /// The prompt could not be read; `reason` is the system's report.
    Unreadable { reason: String },
    /// The command of a `Run` request came to this.
    Completed(CommandOutcome),
    /// The command of a `Stream` request is over.
    Streamed,
}

/// An [`Event`] as sequences.
pub enum EventView {
    Selected(usize),
    Entered(Seq<char>),
    Unreadable { reason: Seq<char> },
    Completed(CommandOutcomeView),
    Streamed,
}

impl View for Event {
    type V = EventView;

    open spec fn view(&self) -> EventView {
        match self {
            Event::Selected(index) => EventView::Selected(*index),
            Event::Entered(text) => EventView::Entered(text@),
            Event::Unreadable { reason } => EventView::Unreadable { reason: reason@ },
            Event::Completed(outcome) => EventView::Completed(outcome@),
            Event::Streamed => EventView::Streamed,
        }
    }
}

/// Each of `lines` as a line for standard output.
pub open spec fn info_lines(lines: Seq<Seq<char>>) -> Seq<OutputView> {
    Seq::new(lines.len(), |i: int| OutputView::Info(lines[i]))
}

} // verus!
