use dns_changer::changer::DnsChanger;
use dns_changer::command::{CommandOutcome, Invocation};
use dns_changer::discovery::find_active_connection;
use dns_changer::error::DnsError;
use dns_changer::provider::{providers, DnsProvider};

fn listed(stdout: &str) -> CommandOutcome {
    CommandOutcome::Exited { success: true, stdout: stdout.as_bytes().to_vec(), stderr: Vec::new() }
}

#[test]
fn first_line_with_a_device_wins() {
    assert_eq!(
        find_active_connection("conn1:eth0\nconn2:\nconn3:wlan0"),
        Some("conn1".to_string())
    );
}

#[test]
fn later_lines_do_not_matter() {
    assert_eq!(
        find_active_connection("conn1:eth0\nconn3:wlan0\nconn2:"),
        Some("conn1".to_string())
    );
    assert_eq!(find_active_connection("conn1:eth0"), Some("conn1".to_string()));
    assert_eq!(find_active_connection("conn1:eth0\n:::\n\n"), Some("conn1".to_string()));
}

#[test]
fn lines_without_a_device_are_passed_over() {
    assert_eq!(
        find_active_connection("conn2:\nlo\n\nconn3:wlan0\nconn1:eth0"),
        Some("conn3".to_string())
    );
}

#[test]
fn only_the_second_field_counts_as_the_device() {
    assert_eq!(find_active_connection("a::eth0"), None);
    assert_eq!(find_active_connection("a:eth0:extra"), Some("a".to_string()));
    assert_eq!(find_active_connection(":eth0"), Some(String::new()));
    assert_eq!(find_active_connection("Wired connection 1:enp3s0\r\n"), Some("Wired connection 1".to_string()));
}

#[test]
fn no_device_no_connection() {
    assert_eq!(find_active_connection(""), None);
    assert_eq!(find_active_connection("conn1:\nconn2:\n"), None);
    assert_eq!(find_active_connection("conn1\nconn2"), None);
    assert_eq!(find_active_connection("\n\n"), None);
}

#[test]
fn discovery_gives_the_name() {
    assert_eq!(
        DnsChanger::get_active_connection(listed("conn1:eth0\nconn2:\nconn3:wlan0")),
        Ok("conn1".to_string())
    );
}

#[test]
fn discovery_fails_without_a_device() {
    assert_eq!(
        DnsChanger::get_active_connection(listed("conn1:\nconn2:\n")),
        Err(DnsError::NoActiveConnection)
    );
    assert_eq!(DnsChanger::get_active_connection(listed("")), Err(DnsError::NoActiveConnection));
}

#[test]
fn discovery_fails_when_the_listing_fails() {
    let failed = CommandOutcome::Exited {
        success: false,
        stdout: b"conn1:eth0\n".to_vec(),
        stderr: b"Error: NetworkManager is not running.\n".to_vec(),
    };
    assert_eq!(DnsChanger::get_active_connection(failed), Err(DnsError::ListingFailed));
}

#[test]
fn discovery_fails_when_the_listing_cannot_run() {
    let outcome = CommandOutcome::NotStarted { reason: "No such file or directory (os error 2)".to_string() };
    assert_eq!(
        DnsChanger::get_active_connection(outcome),
        Err(DnsError::Io { detail: "No such file or directory (os error 2)".to_string() })
    );
}

#[test]
fn discovery_fails_on_output_that_is_not_text() {
    let bytes = vec![b'c', b'o', 0xff, b':', b'e'];
    let expected = String::from_utf8(bytes.clone()).unwrap_err().to_string();
    let outcome = CommandOutcome::Exited { success: true, stdout: bytes, stderr: Vec::new() };
    assert_eq!(
        DnsChanger::get_active_connection(outcome),
        Err(DnsError::InvalidText { detail: expected })
    );
}

#[test]
fn discovery_decodes_names_that_are_not_ascii() {
    assert_eq!(
        DnsChanger::get_active_connection(listed("Büro ✅:wlp2s0\n")),
        Ok("Büro ✅".to_string())
    );
}

#[test]
fn new_takes_the_catalog_and_the_connection() {
    let changer = DnsChanger::new(listed("conn2:\nhome:wlan0\n")).unwrap();
    assert_eq!(changer.current_connection(), "home");
    assert_eq!(changer.providers(), &providers());
    assert_eq!(changer.providers().len(), 4);
}

#[test]
fn new_fails_as_discovery_does() {
    assert_eq!(DnsChanger::new(listed("")), Err(DnsError::NoActiveConnection));
    let failed = CommandOutcome::Exited { success: false, stdout: Vec::new(), stderr: Vec::new() };
    assert_eq!(DnsChanger::new(failed), Err(DnsError::ListingFailed));
}

#[test]
fn the_catalog_holds_the_four_providers() {
    let expected = vec![
        DnsProvider::new("Cloudflare", "1.1.1.1", "1.0.0.1", "Fast and privacy-focused DNS"),
        DnsProvider::new("Google", "8.8.8.8", "8.8.4.4", "Reliable Google DNS"),
        DnsProvider::new("Quad9", "9.9.9.9", "149.112.112.112", "Security-focused DNS"),
        DnsProvider::new("OpenDNS", "208.67.222.222", "208.67.220.220", "Family-safe DNS"),
    ];
    assert_eq!(providers(), expected);
    assert_eq!(providers()[0].name, "Cloudflare");
    assert_eq!(providers()[3].secondary_dns, "208.67.220.220");
}

#[test]
fn provider_label_and_announcement() {
    let quad9 = &providers()[2];
    assert_eq!(quad9.label(), "Quad9 - Security-focused DNS");
    assert_eq!(quad9.announcement(), "✅ DNS set to Quad9 (9.9.9.9, 149.112.112.112)");
}

#[test]
fn the_listing_command() {
    let listing = Invocation::listing();
    assert_eq!(listing.program, "nmcli");
    assert_eq!(listing.args, vec!["-t", "-f", "NAME,DEVICE", "connection", "show", "--active"]);
}

#[test]
fn error_messages() {
    assert_eq!(DnsError::ListingFailed.message(), "Failed to get active connections");
    assert_eq!(DnsError::NoActiveConnection.message(), "No active connection found");
    assert_eq!(DnsError::InvalidText { detail: "bad bytes".to_string() }.message(), "bad bytes");
    assert_eq!(DnsError::Io { detail: "broken pipe".to_string() }.message(), "broken pipe");
    assert_eq!(
        DnsError::CommandFailed { diagnostic: "Error: invalid DNS\n".to_string() }.message(),
        "Command failed: Error: invalid DNS\n"
    );
    assert_eq!(
        DnsError::RestartFailed { diagnostic: "timeout".to_string() }.message(),
        "Failed to restart connection: timeout"
    );
}
