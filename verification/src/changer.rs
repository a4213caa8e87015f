//! The changer: the provider catalog, the active connection, and what each
//! action of the menu asks of the driver.

use vstd::prelude::*;
use vstd::string::*;
use crate::command::{
    decode, decoded, elevated, CommandOutcome, CommandOutcomeView, Invocation, InvocationView,
};
use crate::discovery::{discovered, find_active_connection};
use crate::driver::{info_lines, Output, OutputView, Request, RequestView};
use crate::error::{DnsError, DnsErrorView};
use crate::provider::{catalog, providers, DnsProvider, DnsProviderView};
use crate::report::{dns_lines, dns_settings};
use crate::routine::{Routine, RoutineView};

verus! {

/// The provider catalog and the connection that every action works on.
#[derive(Debug, PartialEq, Eq)]
pub struct DnsChanger {
    providers: Vec<DnsProvider>,
    current_connection: String,
}

/// A [`DnsChanger`] as sequences.
pub struct DnsChangerView {
    pub providers: Seq<DnsProviderView>,
    pub current_connection: Seq<char>,
}

impl View for DnsChanger {
    type V = DnsChangerView;

    closed spec fn view(&self) -> DnsChangerView {
        DnsChangerView {
            providers: self.providers.deep_view(),
            current_connection: self.current_connection@,
        }
    }
}

/// The value of the DNS setting for two addresses: the first, one space, the
/// second.
pub open spec fn dns_value(primary: Seq<char>, secondary: Seq<char>) -> Seq<char> {
    primary + seq![' '] + secondary
}

/// The command that sets the DNS servers of `connection` to `dns` and has it
/// ignore the servers that the network offers.
pub open spec fn static_dns_command(connection: Seq<char>, dns: Seq<char>) -> InvocationView {
    elevated(
        seq![
            "connection"@,
            "mod"@,
            connection,
            "ipv4.dns"@,
            dns,
            "ipv4.ignore-auto-dns"@,
            "yes"@,
        ],
    )
}

/// The command that clears the DNS servers of `connection` and has it take
/// the servers that the network offers, for IPv4 and for IPv6.
pub open spec fn automatic_dns_command(connection: Seq<char>) -> InvocationView {
    elevated(
        seq![
            "connection"@,
            "mod"@,
            connection,
            "ipv4.dns"@,
            Seq::<char>::empty(),
            "ipv4.ignore-auto-dns"@,
            "no"@,
            "ipv6.ignore-auto-dns"@,
            "no"@,
        ],
    )
}

/// The options of the main menu, in their order.
pub open spec fn menu_options() -> Seq<Seq<char>> {
    seq![
        "Select DNS Provider"@,
        "Custom DNS"@,
        "Automatic DNS (Router)"@,
        "Show Current DNS"@,
        "Exit"@,
    ]
}

/// What is announced once two addresses of the user's own are in force.
pub open spec fn custom_announcement(primary: Seq<char>, secondary: Seq<char>) -> Seq<char> {
    "✅ DNS set to custom: "@ + primary + ", "@ + secondary
}

/// What is announced once the connection takes its servers from the network.
pub open spec fn automatic_announcement() -> Seq<char> {
    "✅ Switched to automatic DNS (Router)"@
}

/// The line that stands above the resolver's own report.
pub open spec fn resolver_heading() -> Seq<char> {
    "\nSystem DNS configuration:"@
}

impl DnsChangerView {
    /// The banner above the main menu.
    pub open spec fn banner(self) -> Seq<OutputView> {
        info_lines(
            seq![
                "========================================"@,
                "        Rust DNS Changer Tool"@,
                "========================================"@,
                "Current Connection: "@ + self.current_connection,
                Seq::<char>::empty(),
            ],
        )
    }

    /// The main menu.
    pub open spec fn show_menu(self) -> RequestView {
        RequestView::Select { prompt: "Choose an option"@, items: menu_options(), default: 0 }
    }

    /// The menu of the providers, each under its label.
    pub open spec fn provider_menu(self) -> RequestView {
        RequestView::Select {
            prompt: "Select DNS Provider"@,
            items: Seq::new(self.providers.len(), |i: int| self.providers[i].label()),
            default: 0,
        }
    }

    /// The routine that puts the two addresses in force.
    pub open spec fn set_dns(self, primary: Seq<char>, secondary: Seq<char>) -> RoutineView {
        RoutineView::apply(
            static_dns_command(self.current_connection, dns_value(primary, secondary)),
            self.current_connection,
        )
    }

    /// The routine that puts the addresses of the provider at `selection` in
    /// force.
    pub open spec fn select_provider(self, selection: int) -> RoutineView {
        self.set_dns(self.providers[selection].primary_dns, self.providers[selection].secondary_dns)
    }

    /// The routine that hands the choice of servers back to the network.
    pub open spec fn set_automatic_dns(self) -> RoutineView {
        RoutineView::apply(
            automatic_dns_command(self.current_connection),
            self.current_connection,
        )
    }
}

/// What is printed of the outcome of the command that shows the connection's
/// settings: where it succeeded, the lines of its output that mention the DNS
/// settings; then, also where it failed, the heading of the resolver's report.
pub open spec fn current_dns_report(shown: CommandOutcomeView) -> Result<
    Seq<OutputView>,
    DnsErrorView,
> {
    match shown {
        CommandOutcomeView::NotStarted { reason } => Err(DnsErrorView::Io { detail: reason }),
        CommandOutcomeView::Exited { success, stdout, stderr } => if !success {
            Ok(info_lines(seq![resolver_heading()]))
        } else {
            match decoded(stdout) {
                Err(e) => Err(e),
                Ok(dump) => Ok(info_lines(dns_settings(dump).push(resolver_heading()))),
            }
        },
    }
}

impl DnsChanger {
    /// The changer for the connection that the listing of active connections
    /// names first with a device, with the catalog of providers.
    pub fn new(listing: CommandOutcome) -> (made: Result<DnsChanger, DnsError>)
        ensures
            match discovered(listing@) {
                Ok(name) => made matches Ok(changer) && changer@ == (DnsChangerView {
                    providers: catalog(),
                    current_connection: name,
                }),
                Err(e) => made matches Err(x) && x@ == e,
            },
    {
        let providers = providers();
        match DnsChanger::get_active_connection(listing) {
            Ok(current_connection) => Ok(DnsChanger { providers, current_connection }),
            Err(e) => Err(e),
        }
    }

    /// The name of the active connection, from the outcome of the command
    /// that lists the active connections: the name on the first line that
    /// names a device.
    pub fn get_active_connection(listing: CommandOutcome) -> (name: Result<String, DnsError>)
        ensures
            match discovered(listing@) {
                Ok(found) => name matches Ok(n) && n@ == found,
                Err(e) => name matches Err(x) && x@ == e,
            },
    {
        match listing {
            CommandOutcome::NotStarted { reason } => Err(DnsError::Io { detail: reason }),
            CommandOutcome::Exited { success, stdout, stderr: _ } => {
                if !success {
                    return Err(DnsError::ListingFailed);
                }
                match decode(stdout) {
                    Err(e) => Err(e),
                    Ok(text) => match find_active_connection(text.as_str()) {
                        Some(name) => Ok(name),
                        None => Err(DnsError::NoActiveConnection),
                    },
                }
            },
        }
    }

    /// The providers that are offered.
    pub fn providers(&self) -> (list: &Vec<DnsProvider>)
        ensures
            list.deep_view() == self@.providers,
    {
        &self.providers
    }

    /// The name of the connection that every action works on.
    pub fn current_connection(&self) -> (name: &str)
        ensures
            name@ == self@.current_connection,
    {
        self.current_connection.as_str()
    }

    /// The banner above the main menu.
    pub fn banner(&self) -> (lines: Vec<Output>)
        ensures
            lines.deep_view() == self@.banner(),
    {
        let mut connection = "Current Connection: ".to_owned();
        connection.append(self.current_connection.as_str());
        let mut lines: Vec<Output> = Vec::new();
        lines.push(Output::Info("========================================".to_owned()));
        lines.push(Output::Info("        Rust DNS Changer Tool".to_owned()));
        lines.push(Output::Info("========================================".to_owned()));
        lines.push(Output::Info(connection));
        lines.push(Output::Info(String::new()));
        lines
    }

    /// The main menu.
    pub fn show_menu(&self) -> (menu: Request)
        ensures
            menu@ == self@.show_menu(),
    {
        let mut items: Vec<String> = Vec::new();
        items.push("Select DNS Provider".to_owned());
        items.push("Custom DNS".to_owned());
        items.push("Automatic DNS (Router)".to_owned());
        items.push("Show Current DNS".to_owned());
        items.push("Exit".to_owned());
        proof {
            assert(items.deep_view() =~= menu_options());
        }
        Request::Select { prompt: "Choose an option".to_owned(), items, default: 0 }
    }

    /// The menu of the providers, each under its label.
    pub fn provider_menu(&self) -> (menu: Request)
        ensures
            menu@ == self@.provider_menu(),
    {
        let ghost labels = Seq::new(
            self@.providers.len(),
            |i: int| self@.providers[i].label(),
        );
        let mut items: Vec<String> = Vec::new();
        let mut i: usize = 0;
        while i < self.providers.len()
            invariant
                i <= self.providers.len(),
                labels == Seq::new(self@.providers.len(), |i: int| self@.providers[i].label()),
                items.deep_view() == labels.take(i as int),
            decreases self.providers.len() - i,
        {
            let ghost before = items.deep_view();
            items.push(self.providers[i].label());
            proof {
                assert(labels.take(i as int + 1) =~= before.push(labels[i as int]));
            }
            i += 1;
        }
        proof {
            assert(labels.take(self.providers.len() as int) =~= labels);
        }
        Request::Select { prompt: "Select DNS Provider".to_owned(), items, default: 0 }
    }

    /// The routine that puts the two addresses in force: the DNS setting of
    /// the connection becomes `primary`, one space, `secondary`, the servers
    /// that the network offers are ignored, and the connection is restarted.
    pub fn set_dns(&self, primary: &str, secondary: &str) -> (routine: Routine)
        ensures
            routine@ == self@.set_dns(primary@, secondary@),
    {
        proof {
            reveal_strlit(" ");
            assert(" "@ =~= seq![' ']);
        }
        let mut dns = primary.to_owned();
        dns.append(" ");
        dns.append(secondary);
        let mut args: Vec<String> = Vec::new();
        args.push("connection".to_owned());
        args.push("mod".to_owned());
        args.push(self.current_connection.clone());
        args.push("ipv4.dns".to_owned());
        args.push(dns);
        args.push("ipv4.ignore-auto-dns".to_owned());
        args.push("yes".to_owned());
        proof {
            assert(args.deep_view() =~= seq![
                "connection"@,
                "mod"@,
                self@.current_connection,
                "ipv4.dns"@,
                dns_value(primary@, secondary@),
                "ipv4.ignore-auto-dns"@,
                "yes"@,
            ]);
        }
        Routine::apply(Invocation::elevated(args), self.current_connection.as_str())
    }

    /// The routine that puts the addresses of the provider at `selection` in
    /// force.
    pub fn select_provider(&self, selection: usize) -> (routine: Routine)
        requires
            selection < self@.providers.len(),
        ensures
            routine@ == self@.select_provider(selection as int),
    {
        let provider: &DnsProvider = &self.providers[selection];
        self.set_dns(provider.primary_dns.as_str(), provider.secondary_dns.as_str())
    }

    /// The routine that puts two addresses of the user's own in force. They
    /// are taken as they are: nothing is asked of what they hold, and what the
    /// network manager makes of them shows in the outcome of its command.
    pub fn set_custom_dns(&self, primary: &str, secondary: &str) -> (routine: Routine)
        ensures
            routine@ == self@.set_dns(primary@, secondary@),
    {
        self.set_dns(primary, secondary)
    }

    /// The routine that hands the choice of servers back to the network: the
    /// DNS setting of the connection becomes empty, the servers that the
    /// network offers are no longer ignored, for IPv4 and for IPv6, and the
    /// connection is restarted.
    pub fn set_automatic_dns(&self) -> (routine: Routine)
        ensures
            routine@ == self@.set_automatic_dns(),
    {
        let mut args: Vec<String> = Vec::new();
        args.push("connection".to_owned());
        args.push("mod".to_owned());
        args.push(self.current_connection.clone());
        args.push("ipv4.dns".to_owned());
        args.push(String::new());
        args.push("ipv4.ignore-auto-dns".to_owned());
        args.push("no".to_owned());
        args.push("ipv6.ignore-auto-dns".to_owned());
        args.push("no".to_owned());
        proof {
            assert(args.deep_view() =~= seq![
                "connection"@,
                "mod"@,
                self@.current_connection,
                "ipv4.dns"@,
                Seq::<char>::empty(),
                "ipv4.ignore-auto-dns"@,
                "no"@,
                "ipv6.ignore-auto-dns"@,
                "no"@,
            ]);
        }
        Routine::apply(Invocation::elevated(args), self.current_connection.as_str())
    }

    /// What is announced once two addresses of the user's own are in force.
    pub fn custom_announcement(primary: &str, secondary: &str) -> (text: String)
        ensures
            text@ == custom_announcement(primary@, secondary@),
    {
        let mut text = "✅ DNS set to custom: ".to_owned();
        text.append(primary);
        text.append(", ");
        text.append(secondary);
        text
    }

    /// What is announced once the connection takes its servers from the
    /// network.
    pub fn automatic_announcement() -> (text: String)
        ensures
            text@ == automatic_announcement(),
    {
        "✅ Switched to automatic DNS (Router)".to_owned()
    }

    /// The routine that restarts the connection: it is brought down, and then,
    /// whatever came of that, brought up.
    pub fn restart_connection(&self) -> (routine: Routine)
        ensures
            routine@ == RoutineView::restart(self@.current_connection),
    {
        Routine::restart(self.current_connection.as_str())
    }

    /// What is printed of the outcome of the command that shows the
    /// connection's settings.
    pub fn show_current_dns(shown: CommandOutcome) -> (report: Result<Vec<Output>, DnsError>)
        ensures
            match current_dns_report(shown@) {
                Ok(lines) => report matches Ok(printed) && printed.deep_view() == lines,
                Err(e) => report matches Err(x) && x@ == e,
            },
    {
        let mut printed: Vec<Output> = Vec::new();
        match shown {
            CommandOutcome::NotStarted { reason } => {
                return Err(DnsError::Io { detail: reason });
            },
            CommandOutcome::Exited { success, stdout, stderr: _ } => {
                if success {
                    match decode(stdout) {
                        Err(e) => {
                            return Err(e);
                        },
                        Ok(dump) => {
                            let kept = dns_lines(dump.as_str());
                            let ghost settings = kept.deep_view();
                            let mut i: usize = 0;
                            while i < kept.len()
                                invariant
                                    i <= kept.len(),
                                    kept.deep_view() == settings,
                                    printed.deep_view() == info_lines(settings.take(i as int)),
                                decreases kept.len() - i,
                            {
                                let ghost before = printed.deep_view();
                                printed.push(Output::Info(kept[i].clone()));
                                proof {
                                    assert(before.push(OutputView::Info(settings[i as int]))
                                        =~= info_lines(settings.take(i as int + 1)));
                                }
                                i += 1;
                            }
                        },
                    }
                }
            },
        }
        let ghost before = printed.deep_view();
        printed.push(Output::Info("\nSystem DNS configuration:".to_owned()));
        proof {
            assert(printed.deep_view() =~= before.push(OutputView::Info(resolver_heading())));
        }
        Ok(printed)
    }
}

} // verus!
