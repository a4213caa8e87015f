//! The session: the menu loop as a state machine.
//!
//! A session runs nothing and prints nothing. Its driver prints the lines that
//! a step hands out, carries out the request of the phase that the session is
//! in, and steps the session with the event that answers the request.

use vstd::prelude::*;
use vstd::string::*;
use crate::changer::{
    automatic_announcement, current_dns_report, custom_announcement, DnsChanger, DnsChangerView,
};
use crate::command::{resolver_command, show_command, Invocation};
use crate::driver::{Event, EventView, Output, OutputView, Request, RequestView};
use crate::error::{DnsError, DnsErrorView};
use crate::routine::{Progress, ProgressView, Routine, RoutineView};

verus! {

/// Where in the menu loop a session stands: which request it awaits the
/// answer of.
#[derive(Debug, PartialEq, Eq)]
pub enum Phase {
    /// The main menu is shown.
    Menu,
    /// The menu of the providers is shown.
    Providers,
    /// The user is asked for the first address.
    Primary,
    /// The user is asked for the second address.
    Secondary { primary: String },
    /// An apply routine is under way; `success` is announced when it is done.
    Applying { routine: Routine, success: String },
    /// The command that shows the connection's settings is run.
    Showing,
    /// The resolver reports on the terminal.
    Resolver,
    /// The user chose to leave.
    Exited,
}

/// A [`Phase`] as sequences.
pub enum PhaseView {
    Menu,
    Providers,
    Primary,
    Secondary { primary: Seq<char> },
    Applying { routine: RoutineView, success: Seq<char> },
    Showing,
    Resolver,
    Exited,
}

impl View for Phase {
    type V = PhaseView;

    open spec fn view(&self) -> PhaseView {
        match self {
            Phase::Menu => PhaseView::Menu,
            Phase::Providers => PhaseView::Providers,
            Phase::Primary => PhaseView::Primary,
            Phase::Secondary { primary } => PhaseView::Secondary { primary: primary@ },
            Phase::Applying { routine, success } => PhaseView::Applying {
                routine: routine@,
                success: success@,
            },
            Phase::Showing => PhaseView::Showing,
            Phase::Resolver => PhaseView::Resolver,
            Phase::Exited => PhaseView::Exited,
        }
    }
}

/// A changer and the phase of its menu loop.
#[derive(Debug, PartialEq, Eq)]
pub struct Session {
    changer: DnsChanger,
    phase: Phase,
}

/// A [`Session`] as sequences.
pub struct SessionView {
    pub changer: DnsChangerView,
    pub phase: PhaseView,
}

impl View for Session {
    type V = SessionView;

    closed spec fn view(&self) -> SessionView {
        SessionView { changer: self.changer@, phase: self.phase@ }
    }
}

/// The status with which the process ends when the user leaves. Note that it
/// is 1, which by convention tells of a failure, and not 0.
pub const EXIT_STATUS: i32 = 1;

/// The line that reports a failure on the error stream.
pub open spec fn error_line(e: DnsErrorView) -> OutputView {
    OutputView::Error("Error: "@ + e.message())
}

impl SessionView {
    /// The session of `changer` as it starts, and the lines printed first.
    pub open spec fn start(changer: DnsChangerView) -> (SessionView, Seq<OutputView>) {
        (SessionView { changer, phase: PhaseView::Menu }, changer.banner())
    }

    /// The request that the session awaits the answer of.
    pub open spec fn request(self) -> RequestView {
        match self.phase {
            PhaseView::Menu => self.changer.show_menu(),
            PhaseView::Providers => self.changer.provider_menu(),
            PhaseView::Primary => RequestView::Input { prompt: "Enter primary DNS"@ },
            PhaseView::Secondary { primary } => RequestView::Input {
                prompt: "Enter secondary DNS"@,
            },
            PhaseView::Applying { routine, success } => RequestView::Run(routine.pending),
            PhaseView::Showing => RequestView::Run(show_command(self.changer.current_connection)),
            PhaseView::Resolver => RequestView::Stream(resolver_command()),
            PhaseView::Exited => RequestView::Exit { status: EXIT_STATUS },
        }
    }

    /// The session moves to `phase` and prints nothing.
    pub open spec fn enter(self, phase: PhaseView) -> (SessionView, Seq<OutputView>) {
        (SessionView { changer: self.changer, phase }, Seq::<OutputView>::empty())
    }

    /// A turn of the menu loop ends with `printed`: an empty line follows,
    /// then the banner, and the main menu is shown again.
    pub open spec fn again(self, printed: Seq<OutputView>) -> (SessionView, Seq<OutputView>) {
        (
            SessionView { changer: self.changer, phase: PhaseView::Menu },
            printed.push(OutputView::Info(Seq::<char>::empty())) + self.changer.banner(),
        )
    }

    /// A turn of the menu loop ends with the failure `e`, which is reported.
    pub open spec fn fail(self, e: DnsErrorView) -> (SessionView, Seq<OutputView>) {
        self.again(seq![error_line(e)])
    }

    /// The session after `event`, and the lines that the driver prints before
    /// it carries out the request of the new phase. An event that does not
    /// answer the request of the phase changes nothing.
    pub open spec fn step(self, event: EventView) -> (SessionView, Seq<OutputView>) {
        match self.phase {
            PhaseView::Menu => match event {
                EventView::Selected(choice) => if choice == 0 {
                    self.enter(PhaseView::Providers)
                } else if choice == 1 {
                    self.enter(PhaseView::Primary)
                } else if choice == 2 {
                    self.enter(
                        PhaseView::Applying {
                            routine: self.changer.set_automatic_dns(),
                            success: automatic_announcement(),
                        },
                    )
                } else if choice == 3 {
                    self.enter(PhaseView::Showing)
                } else if choice == 4 {
                    (
                        SessionView { changer: self.changer, phase: PhaseView::Exited },
                        seq![OutputView::Info("Goodbye!"@)],
                    )
                } else {
                    self.again(Seq::<OutputView>::empty())
                },
                EventView::Unreadable { reason } => self.fail(DnsErrorView::Io { detail: reason }),
                _ => self.enter(self.phase),
            },
            PhaseView::Providers => match event {
                EventView::Selected(choice) => if choice < self.changer.providers.len() {
                    self.enter(
                        PhaseView::Applying {
                            routine: self.changer.select_provider(choice as int),
                            success: self.changer.providers[choice as int].announcement(),
                        },
                    )
                } else {
                    self.enter(self.phase)
                },
                EventView::Unreadable { reason } => self.fail(DnsErrorView::Io { detail: reason }),
                _ => self.enter(self.phase),
            },
            PhaseView::Primary => match event {
                EventView::Entered(text) => self.enter(PhaseView::Secondary { primary: text }),
                EventView::Unreadable { reason } => self.fail(DnsErrorView::Io { detail: reason }),
                _ => self.enter(self.phase),
            },
            PhaseView::Secondary { primary } => match event {
                EventView::Entered(text) => self.enter(
                    PhaseView::Applying {
                        routine: self.changer.set_dns(primary, text),
                        success: custom_announcement(primary, text),
                    },
                ),
                EventView::Unreadable { reason } => self.fail(DnsErrorView::Io { detail: reason }),
                _ => self.enter(self.phase),
            },
            PhaseView::Applying { routine, success } => match event {
                EventView::Completed(outcome) => match routine.advance(outcome) {
                    ProgressView::Next(next) => self.enter(
                        PhaseView::Applying { routine: next, success },
                    ),
                    ProgressView::Done(Ok(_)) => self.again(seq![OutputView::Info(success)]),
                    ProgressView::Done(Err(e)) => self.fail(e),
                },
                _ => self.enter(self.phase),
            },
            PhaseView::Showing => match event {
                EventView::Completed(outcome) => match current_dns_report(outcome) {
                    Ok(lines) => (
                        SessionView { changer: self.changer, phase: PhaseView::Resolver },
                        lines,
                    ),
                    Err(e) => self.fail(e),
                },
                _ => self.enter(self.phase),
            },
            PhaseView::Resolver => match event {
                EventView::Streamed => self.again(Seq::<OutputView>::empty()),
                _ => self.enter(self.phase),
            },
            PhaseView::Exited => self.enter(self.phase),
        }
    }
}

impl Session {
    /// The session of `changer` as it starts, and the lines to print first.
    pub fn start(changer: DnsChanger) -> (started: (Session, Vec<Output>))
        ensures
            (started.0@, started.1.deep_view()) == SessionView::start(changer@),
    {
        let banner = changer.banner();
        (Session { changer, phase: Phase::Menu }, banner)
    }

    /// The changer of the session.
    pub fn changer(&self) -> (changer: &DnsChanger)
        ensures
            changer@ == self@.changer,
    {
        &self.changer
    }

    /// The phase of the session.
    pub fn phase(&self) -> (phase: &Phase)
        ensures
            phase@ == self@.phase,
    {
        &self.phase
    }

    /// The request that the session awaits the answer of.
    pub fn request(&self) -> (request: Request)
        ensures
            request@ == self@.request(),
    {
        match &self.phase {
            Phase::Menu => self.changer.show_menu(),
            Phase::Providers => self.changer.provider_menu(),
            Phase::Primary => Request::Input { prompt: "Enter primary DNS".to_owned() },
            Phase::Secondary { primary: _ } => Request::Input {
                prompt: "Enter secondary DNS".to_owned(),
            },
            Phase::Applying { routine, success: _ } => Request::Run(routine.pending().clone()),
            Phase::Showing => Request::Run(Invocation::show(self.changer.current_connection())),
            Phase::Resolver => Request::Stream(Invocation::resolver()),
            Phase::Exited => Request::Exit { status: EXIT_STATUS },
        }
    }

    /// The session in `phase`, with nothing to print.
    fn enter(changer: DnsChanger, phase: Phase) -> (entered: (Session, Vec<Output>))
        ensures
            entered.0@ == (SessionView { changer: changer@, phase: phase@ }),
            entered.1.deep_view() == Seq::<OutputView>::empty(),
    {
        let printed: Vec<Output> = Vec::new();
        (Session { changer, phase }, printed)
    }

    /// The session at the main menu again, after `printed`, an empty line and
    /// the banner.
    fn again(changer: DnsChanger, printed: Vec<Output>) -> (entered: (Session, Vec<Output>))
        ensures
            entered.0@ == (SessionView { changer: changer@, phase: PhaseView::Menu }),
            entered.1.deep_view() == printed.deep_view().push(
                OutputView::Info(Seq::<char>::empty()),
            ) + changer@.banner(),
    {
        let mut all = printed;
        let mut banner = changer.banner();
        all.push(Output::Info(String::new()));
        all.append(&mut banner);
        (Session { changer, phase: Phase::Menu }, all)
    }

    /// The session at the main menu again, after the report of `e`.
    fn fail(changer: DnsChanger, e: DnsError) -> (entered: (Session, Vec<Output>))
        ensures
            entered.0@ == (SessionView { changer: changer@, phase: PhaseView::Menu }),
            entered.1.deep_view() == seq![error_line(e@)].push(
                OutputView::Info(Seq::<char>::empty()),
            ) + changer@.banner(),
    {
        let mut line = "Error: ".to_owned();
        line.append(e.message().as_str());
        let mut printed: Vec<Output> = Vec::new();
        printed.push(Output::Error(line));
        Session::again(changer, printed)
    }

    /// The session after `event`, and the lines that the driver prints before
    /// it carries out the request of the new phase.
    pub fn step(self, event: Event) -> (stepped: (Session, Vec<Output>))
        ensures
            (stepped.0@, stepped.1.deep_view()) == self@.step(event@),
    {
        let changer = self.changer;
        match self.phase {
            Phase::Menu => match event {
                Event::Selected(choice) => if choice == 0 {
                    Session::enter(changer, Phase::Providers)
                } else if choice == 1 {
                    Session::enter(changer, Phase::Primary)
                } else if choice == 2 {
                    let routine = changer.set_automatic_dns();
                    let success = DnsChanger::automatic_announcement();
                    Session::enter(changer, Phase::Applying { routine, success })
                } else if choice == 3 {
                    Session::enter(changer, Phase::Showing)
                } else if choice == 4 {
                    let mut printed: Vec<Output> = Vec::new();
                    printed.push(Output::Info("Goodbye!".to_owned()));
                    (Session { changer, phase: Phase::Exited }, printed)
                } else {
                    let printed: Vec<Output> = Vec::new();
                    Session::again(changer, printed)
                },
                Event::Unreadable { reason } => Session::fail(
                    changer,
                    DnsError::Io { detail: reason },
                ),
                _ => Session::enter(changer, Phase::Menu),
            },
            Phase::Providers => match event {
                Event::Selected(choice) => {
                    let offered = changer.providers();
                    if choice < offered.len() {
                        let routine = changer.select_provider(choice);
                        let success = offered[choice].announcement();
                        Session::enter(changer, Phase::Applying { routine, success })
                    } else {
                        Session::enter(changer, Phase::Providers)
                    }
                },
                Event::Unreadable { reason } => Session::fail(
                    changer,
                    DnsError::Io { detail: reason },
                ),
                _ => Session::enter(changer, Phase::Providers),
            },
            Phase::Primary => match event {
                Event::Entered(text) => Session::enter(changer, Phase::Secondary { primary: text }),
                Event::Unreadable { reason } => Session::fail(
                    changer,
                    DnsError::Io { detail: reason },
                ),
                _ => Session::enter(changer, Phase::Primary),
            },
            Phase::Secondary { primary } => match event {
                Event::Entered(text) => {
                    let routine = changer.set_custom_dns(primary.as_str(), text.as_str());
                    let success = DnsChanger::custom_announcement(
                        primary.as_str(),
                        text.as_str(),
                    );
                    Session::enter(changer, Phase::Applying { routine, success })
                },
                Event::Unreadable { reason } => Session::fail(
                    changer,
                    DnsError::Io { detail: reason },
                ),
                _ => Session::enter(changer, Phase::Secondary { primary }),
            },
            Phase::Applying { routine, success } => match event {
                Event::Completed(outcome) => match routine.advance(&outcome) {
                    Progress::Next(next) => Session::enter(
                        changer,
                        Phase::Applying { routine: next, success },
                    ),
                    Progress::Done(Ok(_)) => {
                        let mut printed: Vec<Output> = Vec::new();
                        printed.push(Output::Info(success));
                        Session::again(changer, printed)
                    },
                    Progress::Done(Err(e)) => Session::fail(changer, e),
                },
                _ => Session::enter(changer, Phase::Applying { routine, success }),
            },
            Phase::Showing => match event {
                Event::Completed(outcome) => match DnsChanger::show_current_dns(outcome) {
                    Ok(lines) => (Session { changer, phase: Phase::Resolver }, lines),
                    Err(e) => Session::fail(changer, e),
                },
                _ => Session::enter(changer, Phase::Showing),
            },
            Phase::Resolver => match event {
                Event::Streamed => {
                    let printed: Vec<Output> = Vec::new();
                    Session::again(changer, printed)
                },
                _ => Session::enter(changer, Phase::Resolver),
            },
            Phase::Exited => Session::enter(changer, Phase::Exited),
        }
    }
}

} // verus!
