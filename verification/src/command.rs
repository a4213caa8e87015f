//! Commands for the driver to run, what came of them, and the decoding of
//! their output.

use vstd::prelude::*;
use vstd::string::*;
use vstd::utf8::*;
use crate::error::{DnsError, DnsErrorView};

verus! {

/// A program and its arguments.
#[derive(Debug, PartialEq, Eq)]
pub struct Invocation {
    pub program: String,
    pub args: Vec<String>,
}

/// An [`Invocation`] as character sequences.
pub struct InvocationView {
    pub program: Seq<char>,
    pub args: Seq<Seq<char>>,
}

impl View for Invocation {
    type V = InvocationView;

    open spec fn view(&self) -> InvocationView {
        InvocationView { program: self.program@, args: self.args.deep_view() }
    }
}

/// What came of running a command to its end with both streams captured.
#[derive(Debug, PartialEq, Eq)]
pub enum CommandOutcome {
    /// The process could not be started or waited for; `reason` is the
    /// system's report.
    NotStarted { reason: String },
    /// The process ran and exited; `success` says whether with status zero.
    Exited { success: bool, stdout: Vec<u8>, stderr: Vec<u8> },
}

/// A [`CommandOutcome`] as sequences.
pub enum CommandOutcomeView {
    NotStarted { reason: Seq<char> },
    Exited { success: bool, stdout: Seq<u8>, stderr: Seq<u8> },
}

impl View for CommandOutcome {
    type V = CommandOutcomeView;

    open spec fn view(&self) -> CommandOutcomeView {
        match self {
            CommandOutcome::NotStarted { reason } => CommandOutcomeView::NotStarted {
                reason: reason@,
            },
            CommandOutcome::Exited { success, stdout, stderr } => CommandOutcomeView::Exited {
                success: *success,
                stdout: stdout@,
                stderr: stderr@,
            },
        }
    }
}

/// The text that lossy decoding makes of `bytes`: the decoded text where
/// `bytes` is UTF-8, and otherwise a text in which replacement characters
/// stand for what is not.
pub uninterp spec fn utf8_lossy(bytes: Seq<u8>) -> Seq<char>;

/// The decoder's report on why `bytes` is not UTF-8.
pub uninterp spec fn utf8_error_text(bytes: Seq<u8>) -> Seq<char>;

/// The text that `bytes` encodes, or the decoder's report.
pub open spec fn decoded(bytes: Seq<u8>) -> Result<Seq<char>, DnsErrorView> {
    if valid_utf8(bytes) {
        Ok(decode_utf8(bytes))
    } else {
        Err(DnsErrorView::InvalidText { detail: utf8_error_text(bytes) })
    }
}

/// Calls `String::from_utf8`, and turns its error into the error's own text.
/// Not proved: that the call succeeds exactly on UTF-8, that the string then
/// holds the decoded characters, and that the text of the error depends on the
/// bytes alone.
#[verifier::external_body]
fn string_from_utf8(bytes: Vec<u8>) -> (text: Result<String, String>)
    ensures
        text is Ok <==> valid_utf8(bytes@),
        text matches Ok(s) ==> s@ == decode_utf8(bytes@),
        text matches Err(detail) ==> detail@ == utf8_error_text(bytes@),
{
    match String::from_utf8(bytes) {
        Ok(s) => Ok(s),
        Err(e) => Err(e.to_string()),
    }
}

/// Calls `String::from_utf8_lossy`. Not proved: that the text depends on the
/// bytes alone, and that it is the decoded text where the bytes are UTF-8.
#[verifier::external_body]
pub(crate) fn string_from_utf8_lossy(bytes: &Vec<u8>) -> (text: String)
    ensures
        text@ == utf8_lossy(bytes@),
        valid_utf8(bytes@) ==> text@ == decode_utf8(bytes@),
{
    String::from_utf8_lossy(bytes).into_owned()
}

/// Decodes the output of a command, which must be UTF-8.
pub fn decode(bytes: Vec<u8>) -> (text: Result<String, DnsError>)
    ensures
        match decoded(bytes@) {
            Ok(chars) => text matches Ok(s) && s@ == chars,
            Err(e) => text matches Err(x) && x@ == e,
        },
{
    match string_from_utf8(bytes) {
        Ok(s) => Ok(s),
        Err(detail) => Err(DnsError::InvalidText { detail }),
    }
}

/// `nmcli` with `args`, run with elevated privileges.
pub open spec fn elevated(args: Seq<Seq<char>>) -> InvocationView {
    InvocationView { program: "sudo"@, args: seq!["nmcli"@] + args }
}

/// The command that brings `connection` down.
pub open spec fn down_command(connection: Seq<char>) -> InvocationView {
    elevated(seq!["connection"@, "down"@, connection])
}

/// The command that brings `connection` up.
pub open spec fn up_command(connection: Seq<char>) -> InvocationView {
    elevated(seq!["connection"@, "up"@, connection])
}

/// The command that lists the active connections, one `NAME:DEVICE` a line.
pub open spec fn listing_command() -> InvocationView {
    InvocationView {
        program: "nmcli"@,
        args: seq!["-t"@, "-f"@, "NAME,DEVICE"@, "connection"@, "show"@, "--active"@],
    }
}

/// The command that prints the settings of `connection`.
pub open spec fn show_command(connection: Seq<char>) -> InvocationView {
    InvocationView { program: "nmcli"@, args: seq!["connection"@, "show"@, connection] }
}

/// The command that prints the state of the system's resolver.
pub open spec fn resolver_command() -> InvocationView {
    InvocationView { program: "resolvectl"@, args: seq!["status"@] }
}

impl Invocation {
    /// The command `program` with `args`.
    pub fn new(program: &str, args: Vec<String>) -> (invocation: Invocation)
        ensures
            invocation@ == (InvocationView { program: program@, args: args.deep_view() }),
    {
        Invocation { program: program.to_owned(), args }
    }

    /// `nmcli` with `args`, run with elevated privileges.
    pub fn elevated(args: Vec<String>) -> (invocation: Invocation)
        ensures
            invocation@ == elevated(args.deep_view()),
    {
        let mut rest: Vec<String> = args;
        let mut all: Vec<String> = Vec::new();
        all.push("nmcli".to_owned());
        all.append(&mut rest);
        proof {
            assert(all.deep_view() =~= seq!["nmcli"@] + args.deep_view());
        }
        Invocation::new("sudo", all)
    }

    /// The command that brings `connection` down.
    pub fn down(connection: &str) -> (invocation: Invocation)
        ensures
            invocation@ == down_command(connection@),
    {
        let mut args: Vec<String> = Vec::new();
        args.push("connection".to_owned());
        args.push("down".to_owned());
        args.push(connection.to_owned());
        proof {
            assert(args.deep_view() =~= seq!["connection"@, "down"@, connection@]);
        }
        Invocation::elevated(args)
    }

    /// The command that brings `connection` up.
    pub fn up(connection: &str) -> (invocation: Invocation)
        ensures
            invocation@ == up_command(connection@),
    {
        let mut args: Vec<String> = Vec::new();
        args.push("connection".to_owned());
        args.push("up".to_owned());
        args.push(connection.to_owned());
        proof {
            assert(args.deep_view() =~= seq!["connection"@, "up"@, connection@]);
        }
        Invocation::elevated(args)
    }

    /// The command that lists the active connections.
    pub fn listing() -> (invocation: Invocation)
        ensures
            invocation@ == listing_command(),
    {
        let mut args: Vec<String> = Vec::new();
        args.push("-t".to_owned());
        args.push("-f".to_owned());
        args.push("NAME,DEVICE".to_owned());
        args.push("connection".to_owned());
        args.push("show".to_owned());
        args.push("--active".to_owned());
        proof {
            assert(args.deep_view() =~= listing_command().args);
        }
        Invocation::new("nmcli", args)
    }

    /// The command that prints the settings of `connection`.
    pub fn show(connection: &str) -> (invocation: Invocation)
        ensures
            invocation@ == show_command(connection@),
    {
        let mut args: Vec<String> = Vec::new();
        args.push("connection".to_owned());
        args.push("show".to_owned());
        args.push(connection.to_owned());
        proof {
            assert(args.deep_view() =~= seq!["connection"@, "show"@, connection@]);
        }
        Invocation::new("nmcli", args)
    }

    /// The command that prints the state of the system's resolver.
    pub fn resolver() -> (invocation: Invocation)
        ensures
            invocation@ == resolver_command(),
    {
        let mut args: Vec<String> = Vec::new();
        args.push("status".to_owned());
        proof {
            assert(args.deep_view() =~= seq!["status"@]);
        }
        Invocation::new("resolvectl", args)
    }
}

impl Clone for CommandOutcome {
    fn clone(&self) -> (copy: CommandOutcome)
        ensures
            copy@ == self@,
    {
        match self {
            CommandOutcome::NotStarted { reason } => CommandOutcome::NotStarted {
                reason: reason.clone(),
            },
            CommandOutcome::Exited { success, stdout, stderr } => {
                CommandOutcome::Exited {
                    success: *success,
                    stdout: stdout.clone(),
                    stderr: stderr.clone(),
                }
            },
        }
    }
}

impl Clone for Invocation {
    fn clone(&self) -> (copy: Invocation)
        ensures
            copy@ == self@,
    {
        let mut args: Vec<String> = Vec::new();
        let mut i: usize = 0;
        while i < self.args.len()
            invariant
                i <= self.args.len(),
                args.deep_view() == self.args.deep_view().take(i as int),
            decreases self.args.len() - i,
        {
            let ghost before = args.deep_view();
            args.push(self.args[i].clone());
            proof {
                assert(self.args.deep_view().take(i as int + 1) =~= before.push(
                    self.args[i as int]@,
                ));
            }
            i += 1;
        }
        proof {
            assert(self.args.deep_view().take(self.args.len() as int) =~= self.args.deep_view());
        }
        Invocation { program: self.program.clone(), args }
    }
}

} // verus!
