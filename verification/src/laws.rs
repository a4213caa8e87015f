//! What holds of the library as a whole, stated over its models and proved.

use vstd::prelude::*;
use vstd::utf8::*;
use crate::changer::{automatic_dns_command, dns_value, static_dns_command};
use crate::command::{up_command, utf8_lossy, CommandOutcomeView};
use crate::discovery::{connection_name, discovered, first_active, names_device};
use crate::driver::{EventView, OutputView, RequestView};
use crate::error::DnsErrorView;
use crate::provider::catalog;
use crate::report::{dns_filter, dns_settings, mentions_dns};
use crate::routine::{ProgressView, RoutineView, Stage};
use crate::session::{error_line, PhaseView, SessionView, EXIT_STATUS};
use crate::text::{occurs_at, occurs_in, pieces, text_lines, without_carriage_return};

verus! {

/// `parts` put together, with one `separator` between each two of them.
pub open spec fn joined(parts: Seq<Seq<char>>, separator: char) -> Seq<char>
    decreases parts.len(),
{
    if parts.len() == 0 {
        Seq::<char>::empty()
    } else if parts.len() == 1 {
        parts[0]
    } else {
        joined(parts.drop_last(), separator).push(separator) + parts.last()
    }
}

/// The pieces of a text, put together again with the separator between them,
/// are the text.
pub proof fn law_pieces_join(s: Seq<char>, separator: char)
    ensures
        pieces(s, separator).len() >= 1,
        joined(pieces(s, separator), separator) == s,
    decreases s.len(),
{
    if s.len() > 0 {
        let before = pieces(s.drop_last(), separator);
        let now = pieces(s, separator);
        law_pieces_join(s.drop_last(), separator);
        if s.last() == separator {
            assert(now.drop_last() =~= before);
        } else if before.len() > 1 {
            assert(now.drop_last() =~= before.drop_last());
            assert(joined(now, separator) =~= joined(before, separator).push(s.last()));
        }
    }
}

/// No piece of a text holds the separator.
pub proof fn law_pieces_hold_no_separator(s: Seq<char>, separator: char)
    ensures
        forall|i: int|
            0 <= i < pieces(s, separator).len() ==> !(#[trigger] pieces(s, separator)[i]).contains(
                separator,
            ),
    decreases s.len(),
{
    if s.len() > 0 {
        let before = pieces(s.drop_last(), separator);
        law_pieces_hold_no_separator(s.drop_last(), separator);
        law_pieces_join(s.drop_last(), separator);
        let now = pieces(s, separator);
        assert forall|i: int| 0 <= i < now.len() implies !(#[trigger] now[i]).contains(
            separator,
        ) by {
            if i < now.len() - 1 {
                assert(now[i] == before[i]);
            } else if s.last() != separator {
                let grown = before.last().push(s.last());
                if grown.contains(separator) {
                    let k = choose|k: int| 0 <= k < grown.len() && grown[k] == separator;
                    assert(before.last()[k] == separator);
                }
            }
        }
    }
}

/// No line of a text holds a line feed.
pub proof fn law_lines_hold_no_line_feed(s: Seq<char>)
    ensures
        forall|i: int|
            0 <= i < text_lines(s).len() ==> !(#[trigger] text_lines(s)[i]).contains('\n'),
{
    let parts = pieces(s, '\n');
    law_pieces_join(s, '\n');
    law_pieces_hold_no_separator(s, '\n');
    let found = text_lines(s);
    assert forall|i: int| 0 <= i < found.len() implies !(#[trigger] found[i]).contains('\n') by {
        if i < parts.len() - 1 {
            let line = without_carriage_return(parts[i]);
            if line.contains('\n') {
                let k = choose|k: int| 0 <= k < line.len() && line[k] == '\n';
                assert(parts[i][k] == '\n');
            }
        }
    }
}

/// The DNS values of the four providers of the catalog, in its order.
pub open spec fn catalog_dns_values() -> Seq<Seq<char>> {
    seq![
        "1.1.1.1 1.0.0.1"@,
        "8.8.8.8 8.8.4.4"@,
        "9.9.9.9 149.112.112.112"@,
        "208.67.222.222 208.67.220.220"@,
    ]
}

/// The DNS value of each provider of the catalog is its first address, one
/// space, and its second address, with nothing after it.
pub proof fn law_catalog_dns_values(selection: int)
    requires
        0 <= selection < catalog().len(),
    ensures
        catalog().len() == 4,
        dns_value(catalog()[selection].primary_dns, catalog()[selection].secondary_dns)
            == catalog_dns_values()[selection],
{
    reveal_strlit("1.1.1.1");
    reveal_strlit("1.0.0.1");
    reveal_strlit("1.1.1.1 1.0.0.1");
    reveal_strlit("8.8.8.8");
    reveal_strlit("8.8.4.4");
    reveal_strlit("8.8.8.8 8.8.4.4");
    reveal_strlit("9.9.9.9");
    reveal_strlit("149.112.112.112");
    reveal_strlit("9.9.9.9 149.112.112.112");
    reveal_strlit("208.67.222.222");
    reveal_strlit("208.67.220.220");
    reveal_strlit("208.67.222.222 208.67.220.220");
}

/// Whichever provider of the catalog is chosen, the session next asks for the
/// command that sets the DNS of the connection to that provider's value, and
/// for no other.
pub proof fn law_provider_selection(session: SessionView, selection: usize)
    requires
        session.phase == PhaseView::Providers,
        session.changer.providers == catalog(),
        selection < 4,
    ensures
        session.step(EventView::Selected(selection)).0.request() == RequestView::Run(
            static_dns_command(
                session.changer.current_connection,
                catalog_dns_values()[selection as int],
            ),
        ),
        session.step(EventView::Selected(selection)).1 == Seq::<OutputView>::empty(),
{
    law_catalog_dns_values(selection as int);
}

/// Two addresses that the user types are handed on as typed, whatever they
/// hold: the session asks for the second after the first, and then for the
/// command that sets the DNS of the connection to the first, one space, and
/// the second.
pub proof fn law_custom_dns_verbatim(session: SessionView, primary: Seq<char>, secondary: Seq<char>)
    requires
        session.phase == PhaseView::Primary,
    ensures
        session.step(EventView::Entered(primary)).0.phase == (PhaseView::Secondary { primary }),
        session.step(EventView::Entered(primary)).0.step(EventView::Entered(secondary)).0.request()
            == RequestView::Run(
            static_dns_command(
                session.changer.current_connection,
                primary + seq![' '] + secondary,
            ),
        ),
{
}

/// A name is found exactly when some line names a device; it is the name on
/// the first such line.
pub proof fn law_first_active_is_first(listed: Seq<Seq<char>>)
    ensures
        match first_active(listed) {
            Some(name) => exists|i: int|
                0 <= i < listed.len() && names_device(#[trigger] listed[i]) && name
                    == connection_name(listed[i]) && forall|j: int|
                    0 <= j < i ==> !names_device(#[trigger] listed[j]),
            None => forall|i: int| 0 <= i < listed.len() ==> !names_device(#[trigger] listed[i]),
        },
    decreases listed.len(),
{
    if listed.len() > 0 && !names_device(listed[0]) {
        let rest = listed.drop_first();
        law_first_active_is_first(rest);
        match first_active(rest) {
            Some(name) => {
                let i = choose|i: int|
                    0 <= i < rest.len() && names_device(#[trigger] rest[i]) && name
                        == connection_name(rest[i]) && forall|j: int|
                        0 <= j < i ==> !names_device(#[trigger] rest[j]);
                assert(listed[i + 1] == rest[i]);
                assert forall|j: int| 0 <= j < i + 1 implies !names_device(
                    #[trigger] listed[j],
                ) by {
                    if j > 0 {
                        assert(listed[j] == rest[j - 1]);
                    }
                }
            },
            None => {
                assert forall|i: int| 0 <= i < listed.len() implies !names_device(
                    #[trigger] listed[i],
                ) by {
                    if i > 0 {
                        assert(listed[i] == rest[i - 1]);
                    }
                }
            },
        }
    }
}

/// Once a line names a device, the lines after it do not matter, whatever they
/// hold and in whatever order they come.
pub proof fn law_later_lines_do_not_matter(listed: Seq<Seq<char>>, later: Seq<Seq<char>>)
    requires
        first_active(listed) is Some,
    ensures
        first_active(listed + later) == first_active(listed),
    decreases listed.len(),
{
    if !names_device(listed[0]) {
        assert((listed + later).drop_first() =~= listed.drop_first() + later);
        law_later_lines_do_not_matter(listed.drop_first(), later);
    }
}

/// A listing in which no line names a device has no active connection, and
/// neither has an empty listing: discovery fails on both.
pub proof fn law_discovery_needs_a_device(stdout: Seq<u8>, stderr: Seq<u8>)
    requires
        valid_utf8(stdout),
        forall|i: int|
            0 <= i < text_lines(decode_utf8(stdout)).len() ==> !names_device(
                #[trigger] text_lines(decode_utf8(stdout))[i],
            ),
    ensures
        discovered(CommandOutcomeView::Exited { success: true, stdout, stderr }) == Err::<
            Seq<char>,
            DnsErrorView,
        >(DnsErrorView::NoActiveConnection),
{
    law_first_active_is_first(text_lines(decode_utf8(stdout)));
}

/// A listing that is empty has no active connection: discovery fails on it.
pub proof fn law_empty_listing(stderr: Seq<u8>)
    ensures
        discovered(
            CommandOutcomeView::Exited { success: true, stdout: Seq::<u8>::empty(), stderr },
        ) == Err::<Seq<char>, DnsErrorView>(DnsErrorView::NoActiveConnection),
{
}

/// From the main menu, the choice of automatic DNS always asks for the same
/// command: the DNS setting becomes the empty text and both settings that
/// ignore what the network offers become `no`.
pub proof fn law_automatic_dns(session: SessionView)
    requires
        session.phase == PhaseView::Menu,
    ensures
        session.step(EventView::Selected(2)).0.request() == RequestView::Run(
            automatic_dns_command(session.changer.current_connection),
        ),
        automatic_dns_command(session.changer.current_connection).args == seq![
            "nmcli"@,
            "connection"@,
            "mod"@,
            session.changer.current_connection,
            "ipv4.dns"@,
            Seq::<char>::empty(),
            "ipv4.ignore-auto-dns"@,
            "no"@,
            "ipv6.ignore-auto-dns"@,
            "no"@,
        ],
{
}

/// Whatever comes of bringing the connection down, bringing it up is next.
pub proof fn law_down_never_blocks_up(routine: RoutineView, outcome: CommandOutcomeView)
    requires
        routine.stage == Stage::Down,
    ensures
        routine.advance(outcome) == ProgressView::Next(
            RoutineView {
                stage: Stage::Up,
                pending: up_command(routine.connection),
                connection: routine.connection,
            },
        ),
{
}

/// Where bringing the connection up exits with a failure, the routine ends
/// with a command failure whose message holds what the command wrote to its
/// error stream.
pub proof fn law_failed_up_is_reported(routine: RoutineView, stdout: Seq<u8>, stderr: Seq<u8>)
    requires
        routine.stage == Stage::Up,
    ensures
        routine.advance(CommandOutcomeView::Exited { success: false, stdout, stderr })
            == ProgressView::Done(
            Err(DnsErrorView::RestartFailed { diagnostic: utf8_lossy(stderr) }),
        ),
        (DnsErrorView::RestartFailed { diagnostic: utf8_lossy(stderr) }).is_command_failure(),
        occurs_in(
            utf8_lossy(stderr),
            (DnsErrorView::RestartFailed { diagnostic: utf8_lossy(stderr) }).message(),
        ),
{
    let diagnostic = utf8_lossy(stderr);
    let prefix = "Failed to restart connection: "@;
    let message = (DnsErrorView::RestartFailed { diagnostic }).message();
    assert(message.subrange(prefix.len() as int, (prefix.len() + diagnostic.len()) as int)
        =~= diagnostic);
    assert(occurs_at(diagnostic, message, prefix.len() as int));
}

/// In a session, too: while the connection is being brought down, whatever
/// outcome is reported, the session next asks for the command that brings it
/// up; and where that command fails, the failure is printed on the error
/// stream and the main menu is shown again.
pub proof fn law_session_restarts(
    session: SessionView,
    down: CommandOutcomeView,
    stdout: Seq<u8>,
    stderr: Seq<u8>,
)
    requires
        session.phase matches PhaseView::Applying { routine, .. } && routine.stage == Stage::Down,
    ensures
        session.step(EventView::Completed(down)).0.request() == RequestView::Run(
            up_command(session.phase->routine.connection),
        ),
        session.step(EventView::Completed(down)).1 == Seq::<OutputView>::empty(),
        ({
            let failed = session.step(EventView::Completed(down)).0.step(
                EventView::Completed(CommandOutcomeView::Exited { success: false, stdout, stderr }),
            );
            &&& failed.0.phase == PhaseView::Menu
            &&& failed.1[0] == error_line(
                DnsErrorView::RestartFailed { diagnostic: utf8_lossy(stderr) },
            )
        }),
{
}

/// The choice to leave ends the session: `Goodbye!` is printed, the process
/// is to end with the exit status, and no event changes that or prints
/// anything more.
pub proof fn law_exit_is_final(session: SessionView, event: EventView)
    requires
        session.phase == PhaseView::Menu,
    ensures
        session.step(EventView::Selected(4)).0.phase == PhaseView::Exited,
        session.step(EventView::Selected(4)).0.request() == (RequestView::Exit {
            status: EXIT_STATUS,
        }),
        session.step(EventView::Selected(4)).1 == seq![OutputView::Info("Goodbye!"@)],
        session.step(EventView::Selected(4)).0.step(event) == (
            session.step(EventView::Selected(4)).0,
            Seq::<OutputView>::empty(),
        ),
{
}

/// Nothing but the choice to leave ends a session: a step ends it only from
/// the main menu, on that choice. No failure does.
pub proof fn law_only_exit_ends_the_session(session: SessionView, event: EventView)
    requires
        session.phase != PhaseView::Exited,
        session.step(event).0.phase == PhaseView::Exited,
    ensures
        session.phase == PhaseView::Menu,
        event == EventView::Selected(4),
{
}

/// A session works on one connection and one catalog from its start to its
/// end: no step changes them.
pub proof fn law_session_keeps_its_changer(session: SessionView, event: EventView)
    ensures
        session.step(event).0.changer == session.changer,
{
}

/// Of the lines of a dump, those that mention the DNS settings are kept, each
/// as it is and in their order, and all the others are dropped.
pub proof fn law_report_keeps_what_mentions_dns(dump: Seq<char>)
    ensures
        forall|i: int|
            0 <= i < dns_settings(dump).len() ==> mentions_dns(#[trigger] dns_settings(dump)[i]),
        forall|i: int|
            0 <= i < dns_settings(dump).len() ==> text_lines(dump).contains(
                #[trigger] dns_settings(dump)[i],
            ),
        forall|i: int|
            0 <= i < text_lines(dump).len() && mentions_dns(#[trigger] text_lines(dump)[i])
                ==> dns_settings(dump).contains(text_lines(dump)[i]),
        forall|i: int|
            0 <= i < text_lines(dump).len() && !mentions_dns(#[trigger] text_lines(dump)[i])
                ==> !dns_settings(dump).contains(text_lines(dump)[i]),
{
    let all = text_lines(dump);
    let kept = dns_settings(dump);
    assert forall|i: int| 0 <= i < kept.len() implies mentions_dns(#[trigger] kept[i])
        && all.contains(kept[i]) by {
        all.lemma_filter_pred(dns_filter(), i);
        all.lemma_filter_contains_rev(dns_filter(), kept[i]);
    }
    assert forall|i: int| 0 <= i < all.len() && mentions_dns(#[trigger] all[i]) implies kept.contains(
        all[i],
    ) by {
        all.lemma_filter_contains(dns_filter(), i);
    }
    assert forall|i: int| 0 <= i < all.len() && !mentions_dns(#[trigger] all[i]) implies !kept.contains(
        all[i],
    ) by {
        if kept.contains(all[i]) {
            let k = choose|k: int| 0 <= k < kept.len() && kept[k] == all[i];
            all.lemma_filter_pred(dns_filter(), k);
        }
    }
}

} // verus!
