//! Finding the active connection in a listing of `NAME:DEVICE` lines.

use vstd::prelude::*;
use vstd::string::*;
use crate::command::{decoded, CommandOutcomeView};
use crate::error::DnsErrorView;
use crate::text::{lines, pieces, split, text_lines};

verus! {

/// Whether the second field of `line` names a device: the fields stand between
/// colons, and the second one is not empty.
pub open spec fn names_device(line: Seq<char>) -> bool {
    let fields = pieces(line, ':');
    fields.len() >= 2 && fields[1].len() > 0
}

/// The first field of `line`: the name of the connection.
pub open spec fn connection_name(line: Seq<char>) -> Seq<char> {
    pieces(line, ':')[0]
}

/// The name on the first of `listed` that names a device.
pub open spec fn first_active(listed: Seq<Seq<char>>) -> Option<Seq<char>>
    decreases listed.len(),
{
    if listed.len() == 0 {
        None
    } else if names_device(listed[0]) {
        Some(connection_name(listed[0]))
    } else {
        first_active(listed.drop_first())
    }
}

/// What discovery makes of the outcome of the listing command.
pub open spec fn discovered(listing: CommandOutcomeView) -> Result<Seq<char>, DnsErrorView> {
    match listing {
        CommandOutcomeView::NotStarted { reason } => Err(DnsErrorView::Io { detail: reason }),
        CommandOutcomeView::Exited { success, stdout, stderr } => if !success {
            Err(DnsErrorView::ListingFailed)
        } else {
            match decoded(stdout) {
                Err(e) => Err(e),
                Ok(text) => match first_active(text_lines(text)) {
                    Some(name) => Ok(name),
                    None => Err(DnsErrorView::NoActiveConnection),
                },
            }
        },
    }
}

/// The name of the first connection in `listing` that is bound to a device.
pub fn find_active_connection(listing: &str) -> (name: Option<String>)
    ensures
        match first_active(text_lines(listing@)) {
            Some(found) => name matches Some(n) && n@ == found,
            None => name is None,
        },
{
    let listed = lines(listing);
    let mut i: usize = 0;
    proof {
        assert(listed.deep_view().skip(0) =~= listed.deep_view());
    }
    while i < listed.len()
        invariant
            i <= listed.len(),
            listed.deep_view() == text_lines(listing@),
            first_active(listed.deep_view()) == first_active(listed.deep_view().skip(i as int)),
        decreases listed.len() - i,
    {
        proof {
            assert(listed.deep_view().skip(i as int).drop_first() =~= listed.deep_view().skip(
                i as int + 1,
            ));
        }
        let fields = split(listed[i].as_str(), ':');
        if fields.len() >= 2 && !fields[1].as_str().is_empty() {
            return Some(fields[0].clone());
        }
        i += 1;
    }
    None
}

} // verus!
