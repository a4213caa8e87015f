//! What can go wrong, and the one-line message of each failure.

use vstd::prelude::*;
use vstd::string::*;

verus! {

/// A failure of discovery, of a prompt, or of a command.
#[derive(Debug, PartialEq, Eq)]
pub enum DnsError {
    /// Discovery: the listing of active connections exited with a failure.
    ListingFailed,
    /// Discovery: no listed connection is bound to a device.
    NoActiveConnection,
    /// The output of a command is not UTF-8; `detail` is the decoder's report.
    InvalidText { detail: String },
    /// A prompt could not be read or a process could not be run; `detail` is
    /// the system's report.
    Io { detail: String },
    /// The command that modifies the connection exited with a failure;
    /// `diagnostic` is what it wrote to its error stream.
    CommandFailed { diagnostic: String },
    /// The command that brings the connection up exited with a failure;
    /// `diagnostic` is what it wrote to its error stream.
    RestartFailed { diagnostic: String },
}

/// A [`DnsError`] with its texts as character sequences.
pub enum DnsErrorView {
    ListingFailed,
    NoActiveConnection,
    InvalidText { detail: Seq<char> },
    Io { detail: Seq<char> },
    CommandFailed { diagnostic: Seq<char> },
    RestartFailed { diagnostic: Seq<char> },
}

impl View for DnsError {
    type V = DnsErrorView;

    open spec fn view(&self) -> DnsErrorView {
        match self {
            DnsError::ListingFailed => DnsErrorView::ListingFailed,
            DnsError::NoActiveConnection => DnsErrorView::NoActiveConnection,
            DnsError::InvalidText { detail } => DnsErrorView::InvalidText { detail: detail@ },
            DnsError::Io { detail } => DnsErrorView::Io { detail: detail@ },
            DnsError::CommandFailed { diagnostic } => DnsErrorView::CommandFailed {
                diagnostic: diagnostic@,
            },
            DnsError::RestartFailed { diagnostic } => DnsErrorView::RestartFailed {
                diagnostic: diagnostic@,
            },
        }
    }
}

impl DnsErrorView {
    /// The message shown to the user.
    pub open spec fn message(self) -> Seq<char> {
        match self {
            DnsErrorView::ListingFailed => "Failed to get active connections"@,
            DnsErrorView::NoActiveConnection => "No active connection found"@,
            DnsErrorView::InvalidText { detail } => detail,
            DnsErrorView::Io { detail } => detail,
            DnsErrorView::CommandFailed { diagnostic } => "Command failed: "@ + diagnostic,
            DnsErrorView::RestartFailed { diagnostic } => "Failed to restart connection: "@
                + diagnostic,
        }
    }

    /// Whether the failure is that of a command that ran and exited with a
    /// failure.
    pub open spec fn is_command_failure(self) -> bool {
        self is CommandFailed || self is RestartFailed
    }
}

impl DnsError {
    /// The message shown to the user.
    pub fn message(&self) -> (text: String)
        ensures
            text@ == self@.message(),
    {
        match self {
            DnsError::ListingFailed => "Failed to get active connections".to_owned(),
            DnsError::NoActiveConnection => "No active connection found".to_owned(),
            DnsError::InvalidText { detail } => detail.clone(),
            DnsError::Io { detail } => detail.clone(),
            DnsError::CommandFailed { diagnostic } => {
                let mut text = "Command failed: ".to_owned();
                text.append(diagnostic.as_str());
                text
            },
            DnsError::RestartFailed { diagnostic } => {
                let mut text = "Failed to restart connection: ".to_owned();
                text.append(diagnostic.as_str());
                text
            },
        }
    }
}

impl Clone for DnsError {
    fn clone(&self) -> (copy: DnsError)
        ensures
            copy@ == self@,
    {
        match self {
            DnsError::ListingFailed => DnsError::ListingFailed,
            DnsError::NoActiveConnection => DnsError::NoActiveConnection,
            DnsError::InvalidText { detail } => DnsError::InvalidText { detail: detail.clone() },
            DnsError::Io { detail } => DnsError::Io { detail: detail.clone() },
            DnsError::CommandFailed { diagnostic } => DnsError::CommandFailed {
                diagnostic: diagnostic.clone(),
            },
            DnsError::RestartFailed { diagnostic } => DnsError::RestartFailed {
                diagnostic: diagnostic.clone(),
            },
        }
    }
}

} // verus!
