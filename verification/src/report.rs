//! The lines of a connection's settings that concern its IPv4 DNS.

use vstd::prelude::*;
use vstd::string::*;
use crate::text::{contains, lines, occurs_in, text_lines};

verus! {

/// Whether `line` holds `ipv4.dns` or `ipv4.ignore-auto-dns` anywhere in it.
pub open spec fn mentions_dns(line: Seq<char>) -> bool {
    occurs_in("ipv4.dns"@, line) || occurs_in("ipv4.ignore-auto-dns"@, line)
}

/// [`mentions_dns`] as a predicate on lines.
pub open spec fn dns_filter() -> spec_fn(Seq<char>) -> bool {
    |line: Seq<char>| mentions_dns(line)
}

/// The lines of `dump` that mention the DNS settings, in their order.
pub open spec fn dns_settings(dump: Seq<char>) -> Seq<Seq<char>> {
    text_lines(dump).filter(dns_filter())
}

/// The lines of `dump` that mention the DNS settings, in their order.
pub fn dns_lines(dump: &str) -> (kept: Vec<String>)
    ensures
        kept.deep_view() == dns_settings(dump@),
{
    let all = lines(dump);
    let mut kept: Vec<String> = Vec::new();
    let mut i: usize = 0;
    proof {
        reveal(Seq::filter);
    }
    while i < all.len()
        invariant
            i <= all.len(),
            all.deep_view() == text_lines(dump@),
            kept.deep_view() == all.deep_view().take(i as int).filter(dns_filter()),
        decreases all.len() - i,
    {
        proof {
            let seen = all.deep_view().take(i as int);
            seen.lemma_filter_push(all[i as int]@, dns_filter());
            assert(seen.push(all[i as int]@) =~= all.deep_view().take(i as int + 1));
        }
        let line = all[i].as_str();
        if contains(line, "ipv4.dns") || contains(line, "ipv4.ignore-auto-dns") {
            kept.push(all[i].clone());
        }
        i += 1;
    }
    proof {
        assert(all.deep_view().take(all.len() as int) =~= all.deep_view());
    }
    kept
}

} // verus!
