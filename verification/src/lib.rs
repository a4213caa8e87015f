//! The decisions of an interactive DNS switcher for NetworkManager.
//!
//! The library runs no process and reads no terminal. It says which command
//! is to be run or which prompt is to be shown, and what follows from the
//! outcome; a driver around it does the running and the asking.
//!
//! * [`DnsChanger`] holds the catalog of providers and the name of the active
//!   connection, which [`DnsChanger::new`] finds in the listing of active
//!   connections.
//! * [`Routine`] is the apply routine: modify the connection, bring it down,
//!   bring it up.
//! * [`Session`] is the menu loop. A driver starts one with
//!   [`Session::start`], carries out [`Session::request`], and hands the
//!   answer to [`Session::step`], which says what to print; and so on until
//!   the request is to exit.
//!
//! Every function states what it returns over a model of sequences of
//! characters, and [`laws`] holds what is proved of those models.

pub mod changer;
pub mod command;
pub mod discovery;
pub mod driver;
pub mod error;
pub mod laws;
pub mod provider;
pub mod report;
pub mod routine;
pub mod session;
pub mod text;

pub use changer::DnsChanger;
pub use command::{CommandOutcome, Invocation};
pub use driver::{Event, Output, Request};
pub use error::DnsError;
pub use provider::DnsProvider;
pub use routine::{Progress, Routine, Stage};
pub use session::{Phase, Session};
