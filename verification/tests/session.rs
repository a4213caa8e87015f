use dns_changer::changer::DnsChanger;
use dns_changer::command::{CommandOutcome, Invocation};
use dns_changer::driver::{Event, Output, Request};
use dns_changer::routine::Stage;
use dns_changer::session::{Phase, Session, EXIT_STATUS};

fn started() -> Session {
    let listing = CommandOutcome::Exited { success: true, stdout: b"home:wlan0\n".to_vec(), stderr: Vec::new() };
    Session::start(DnsChanger::new(listing).unwrap()).0
}

fn succeeded() -> Event {
    Event::Completed(CommandOutcome::Exited { success: true, stdout: Vec::new(), stderr: Vec::new() })
}

fn failed(stderr: &str) -> Event {
    Event::Completed(CommandOutcome::Exited { success: false, stdout: Vec::new(), stderr: stderr.as_bytes().to_vec() })
}

fn info(lines: &[&str]) -> Vec<Output> {
    lines.iter().map(|line| Output::Info(line.to_string())).collect()
}

fn banner() -> Vec<Output> {
    info(&[
        "========================================",
        "        Rust DNS Changer Tool",
        "========================================",
        "Current Connection: home",
        "",
    ])
}

fn after(first: Vec<Output>) -> Vec<Output> {
    let mut all = first;
    all.push(Output::Info(String::new()));
    all.extend(banner());
    all
}

fn main_menu() -> Request {
    Request::Select {
        prompt: "Choose an option".to_string(),
        items: vec![
            "Select DNS Provider".to_string(),
            "Custom DNS".to_string(),
            "Automatic DNS (Router)".to_string(),
            "Show Current DNS".to_string(),
            "Exit".to_string(),
        ],
        default: 0,
    }
}

fn run(program: &str, args: &[&str]) -> Request {
    Request::Run(Invocation::new(program, args.iter().map(|arg| arg.to_string()).collect()))
}

#[test]
fn a_session_starts_at_the_main_menu() {
    let listing = CommandOutcome::Exited { success: true, stdout: b"home:wlan0\n".to_vec(), stderr: Vec::new() };
    let (session, printed) = Session::start(DnsChanger::new(listing).unwrap());
    assert_eq!(printed, banner());
    assert_eq!(session.phase(), &Phase::Menu);
    assert_eq!(session.request(), main_menu());
    assert_eq!(session.changer().current_connection(), "home");
}

#[test]
fn choosing_a_provider() {
    let (session, printed) = started().step(Event::Selected(0));
    assert_eq!(printed, Vec::new());
    assert_eq!(session.phase(), &Phase::Providers);
    assert_eq!(
        session.request(),
        Request::Select {
            prompt: "Select DNS Provider".to_string(),
            items: vec![
                "Cloudflare - Fast and privacy-focused DNS".to_string(),
                "Google - Reliable Google DNS".to_string(),
                "Quad9 - Security-focused DNS".to_string(),
                "OpenDNS - Family-safe DNS".to_string(),
            ],
            default: 0,
        }
    );
    let (session, printed) = session.step(Event::Selected(1));
    assert_eq!(printed, Vec::new());
    assert_eq!(
        session.request(),
        run("sudo", &["nmcli", "connection", "mod", "home", "ipv4.dns", "8.8.8.8 8.8.4.4", "ipv4.ignore-auto-dns", "yes"])
    );
    let (session, printed) = session.step(succeeded());
    assert_eq!(printed, Vec::new());
    assert_eq!(session.request(), run("sudo", &["nmcli", "connection", "down", "home"]));
    let (session, printed) = session.step(failed("not active"));
    assert_eq!(printed, Vec::new());
    assert_eq!(session.request(), run("sudo", &["nmcli", "connection", "up", "home"]));
    let (session, printed) = session.step(succeeded());
    assert_eq!(printed, after(info(&["✅ DNS set to Google (8.8.8.8, 8.8.4.4)"])));
    assert_eq!(session.phase(), &Phase::Menu);
    assert_eq!(session.request(), main_menu());
}

#[test]
fn every_provider_of_the_menu_sets_its_pair() {
    let expected = [
        "1.1.1.1 1.0.0.1",
        "8.8.8.8 8.8.4.4",
        "9.9.9.9 149.112.112.112",
        "208.67.222.222 208.67.220.220",
    ];
    for (selection, value) in expected.iter().enumerate() {
        let session = started().step(Event::Selected(0)).0.step(Event::Selected(selection)).0;
        assert_eq!(
            session.request(),
            run("sudo", &["nmcli", "connection", "mod", "home", "ipv4.dns", value, "ipv4.ignore-auto-dns", "yes"])
        );
    }
}

#[test]
fn a_provider_that_is_not_offered_changes_nothing() {
    let session = started().step(Event::Selected(0)).0;
    let request = session.request();
    let (session, printed) = session.step(Event::Selected(4));
    assert_eq!(printed, Vec::new());
    assert_eq!(session.phase(), &Phase::Providers);
    assert_eq!(session.request(), request);
}

#[test]
fn custom_addresses() {
    let (session, printed) = started().step(Event::Selected(1));
    assert_eq!(printed, Vec::new());
    assert_eq!(session.request(), Request::Input { prompt: "Enter primary DNS".to_string() });
    let (session, printed) = session.step(Event::Entered("10.0.0.1".to_string()));
    assert_eq!(printed, Vec::new());
    assert_eq!(session.phase(), &Phase::Secondary { primary: "10.0.0.1".to_string() });
    assert_eq!(session.request(), Request::Input { prompt: "Enter secondary DNS".to_string() });
    let (session, printed) = session.step(Event::Entered("10.0.0.2".to_string()));
    assert_eq!(printed, Vec::new());
    assert_eq!(
        session.request(),
        run("sudo", &["nmcli", "connection", "mod", "home", "ipv4.dns", "10.0.0.1 10.0.0.2", "ipv4.ignore-auto-dns", "yes"])
    );
    let session = session.step(succeeded()).0.step(succeeded()).0;
    let (session, printed) = session.step(succeeded());
    assert_eq!(printed, after(info(&["✅ DNS set to custom: 10.0.0.1, 10.0.0.2"])));
    assert_eq!(session.phase(), &Phase::Menu);
}

#[test]
fn custom_addresses_are_not_checked() {
    for (primary, secondary) in [("", ""), ("nonsense", "300.300.300.300"), ("a b", " ")] {
        let session = started()
            .step(Event::Selected(1))
            .0
            .step(Event::Entered(primary.to_string()))
            .0
            .step(Event::Entered(secondary.to_string()))
            .0;
        let value = format!("{} {}", primary, secondary);
        assert_eq!(
            session.request(),
            run("sudo", &["nmcli", "connection", "mod", "home", "ipv4.dns", &value, "ipv4.ignore-auto-dns", "yes"])
        );
    }
}

#[test]
fn automatic_dns() {
    let (session, printed) = started().step(Event::Selected(2));
    assert_eq!(printed, Vec::new());
    assert_eq!(
        session.request(),
        run(
            "sudo",
            &["nmcli", "connection", "mod", "home", "ipv4.dns", "", "ipv4.ignore-auto-dns", "no", "ipv6.ignore-auto-dns", "no"]
        )
    );
    let session = session.step(succeeded()).0.step(succeeded()).0;
    let (session, printed) = session.step(succeeded());
    assert_eq!(printed, after(info(&["✅ Switched to automatic DNS (Router)"])));
    assert_eq!(session.request(), main_menu());
}

#[test]
fn a_failing_modify_is_reported_and_the_menu_returns() {
    let session = started().step(Event::Selected(2)).0;
    let (session, printed) = session.step(failed("Error: not authorized\n"));
    assert_eq!(
        printed,
        after(vec![Output::Error("Error: Command failed: Error: not authorized\n".to_string())])
    );
    assert_eq!(session.phase(), &Phase::Menu);
    assert_eq!(session.request(), main_menu());
}

#[test]
fn a_failing_up_is_reported_and_the_menu_returns() {
    let session = started().step(Event::Selected(2)).0.step(succeeded()).0;
    let (session, printed) = session.step(failed("down failed"));
    assert_eq!(printed, Vec::new());
    match session.phase() {
        Phase::Applying { routine, success } => {
            assert_eq!(routine.stage(), Stage::Up);
            assert_eq!(success, "✅ Switched to automatic DNS (Router)");
        },
        other => panic!("unexpected phase {:?}", other),
    }
    let (session, printed) = session.step(failed("Error: Connection activation failed.\n"));
    assert_eq!(
        printed,
        after(vec![Output::Error(
            "Error: Failed to restart connection: Error: Connection activation failed.\n".to_string()
        )])
    );
    assert_eq!(session.phase(), &Phase::Menu);
}

#[test]
fn showing_the_current_dns() {
    let (session, printed) = started().step(Event::Selected(3));
    assert_eq!(printed, Vec::new());
    assert_eq!(session.request(), run("nmcli", &["connection", "show", "home"]));
    let dump = "ipv4.method: auto\nipv4.dns: 1.1.1.1\nipv4.ignore-auto-dns: yes\nipv6.method: auto\n";
    let shown = CommandOutcome::Exited { success: true, stdout: dump.as_bytes().to_vec(), stderr: Vec::new() };
    let (session, printed) = session.step(Event::Completed(shown));
    assert_eq!(printed, info(&["ipv4.dns: 1.1.1.1", "ipv4.ignore-auto-dns: yes", "\nSystem DNS configuration:"]));
    assert_eq!(session.phase(), &Phase::Resolver);
    assert_eq!(session.request(), Request::Stream(Invocation::resolver()));
    let (session, printed) = session.step(Event::Streamed);
    assert_eq!(printed, after(Vec::new()));
    assert_eq!(session.request(), main_menu());
}

#[test]
fn a_show_that_cannot_run_is_reported() {
    let session = started().step(Event::Selected(3)).0;
    let (session, printed) =
        session.step(Event::Completed(CommandOutcome::NotStarted { reason: "nmcli: not found".to_string() }));
    assert_eq!(printed, after(vec![Output::Error("Error: nmcli: not found".to_string())]));
    assert_eq!(session.phase(), &Phase::Menu);
}

#[test]
fn exit_ends_the_session() {
    let (session, printed) = started().step(Event::Selected(4));
    assert_eq!(printed, info(&["Goodbye!"]));
    assert_eq!(session.phase(), &Phase::Exited);
    assert_eq!(session.request(), Request::Exit { status: 1 });
    assert_eq!(EXIT_STATUS, 1);
}

#[test]
fn nothing_follows_exit() {
    let events = [
        Event::Selected(0),
        Event::Selected(4),
        Event::Entered("1.1.1.1".to_string()),
        Event::Unreadable { reason: "closed".to_string() },
        succeeded(),
        Event::Streamed,
    ];
    let mut session = started().step(Event::Selected(4)).0;
    for event in events {
        let (next, printed) = session.step(event);
        assert_eq!(printed, Vec::new());
        assert_eq!(next.phase(), &Phase::Exited);
        assert_eq!(next.request(), Request::Exit { status: 1 });
        session = next;
    }
}

#[test]
fn a_choice_beyond_the_menu_starts_the_next_turn() {
    let (session, printed) = started().step(Event::Selected(5));
    assert_eq!(printed, after(Vec::new()));
    assert_eq!(session.phase(), &Phase::Menu);
}

#[test]
fn a_prompt_that_cannot_be_read_is_reported() {
    let unreadable = || Event::Unreadable { reason: "IO error: not a terminal".to_string() };
    let report = after(vec![Output::Error("Error: IO error: not a terminal".to_string())]);
    let (session, printed) = started().step(unreadable());
    assert_eq!(printed, report);
    assert_eq!(session.phase(), &Phase::Menu);
    let (session, printed) = started().step(Event::Selected(0)).0.step(unreadable());
    assert_eq!(printed, report);
    assert_eq!(session.phase(), &Phase::Menu);
    let (session, printed) = started().step(Event::Selected(1)).0.step(unreadable());
    assert_eq!(printed, report);
    assert_eq!(session.phase(), &Phase::Menu);
    let (session, printed) =
        started().step(Event::Selected(1)).0.step(Event::Entered("1.1.1.1".to_string())).0.step(unreadable());
    assert_eq!(printed, report);
    assert_eq!(session.phase(), &Phase::Menu);
}

#[test]
fn an_event_that_answers_nothing_changes_nothing() {
    let (session, printed) = started().step(Event::Streamed);
    assert_eq!(printed, Vec::new());
    assert_eq!(session.phase(), &Phase::Menu);
    let (session, printed) = started().step(Event::Selected(2)).0.step(Event::Selected(0));
    assert_eq!(printed, Vec::new());
    assert_eq!(session.request(), started().step(Event::Selected(2)).0.request());
    let (session, printed) = started().step(Event::Selected(3)).0.step(Event::Entered("x".to_string()));
    assert_eq!(printed, Vec::new());
    assert_eq!(session.phase(), &Phase::Showing);
}
