//! DNS providers and the catalog of the four that are offered.

use vstd::prelude::*;
use vstd::string::*;

verus! {

/// A named pair of resolver addresses.
#[derive(Debug, PartialEq, Eq)]
pub struct DnsProvider {
    pub name: String,
    pub primary_dns: String,
    pub secondary_dns: String,
    pub description: String,
}

/// A [`DnsProvider`] as character sequences.
pub struct DnsProviderView {
    pub name: Seq<char>,
    pub primary_dns: Seq<char>,
    pub secondary_dns: Seq<char>,
    pub description: Seq<char>,
}

impl View for DnsProvider {
    type V = DnsProviderView;

    open spec fn view(&self) -> DnsProviderView {
        DnsProviderView {
            name: self.name@,
            primary_dns: self.primary_dns@,
            secondary_dns: self.secondary_dns@,
            description: self.description@,
        }
    }
}

impl DeepView for DnsProvider {
    type V = DnsProviderView;

    open spec fn deep_view(&self) -> DnsProviderView {
        self@
    }
}

impl DnsProviderView {
    /// How the provider is offered in the menu: its name, " - ", its
    /// description.
    pub open spec fn label(self) -> Seq<char> {
        self.name + " - "@ + self.description
    }

    /// What is announced once the provider's addresses are in force.
    pub open spec fn announcement(self) -> Seq<char> {
        "✅ DNS set to "@ + self.name + " ("@ + self.primary_dns + ", "@ + self.secondary_dns
            + ")"@
    }
}

/// The four providers that are offered, in the order of the menu.
pub open spec fn catalog() -> Seq<DnsProviderView> {
    seq![
        DnsProviderView {
            name: "Cloudflare"@,
            primary_dns: "1.1.1.1"@,
            secondary_dns: "1.0.0.1"@,
            description: "Fast and privacy-focused DNS"@,
        },
        DnsProviderView {
            name: "Google"@,
            primary_dns: "8.8.8.8"@,
            secondary_dns: "8.8.4.4"@,
            description: "Reliable Google DNS"@,
        },
        DnsProviderView {
            name: "Quad9"@,
            primary_dns: "9.9.9.9"@,
            secondary_dns: "149.112.112.112"@,
            description: "Security-focused DNS"@,
        },
        DnsProviderView {
            name: "OpenDNS"@,
            primary_dns: "208.67.222.222"@,
            secondary_dns: "208.67.220.220"@,
            description: "Family-safe DNS"@,
        },
    ]
}

impl DnsProvider {
    /// The provider `name` with its two addresses and its description.
    pub fn new(name: &str, primary_dns: &str, secondary_dns: &str, description: &str) -> (provider:
        DnsProvider)
        ensures
            provider@ == (DnsProviderView {
                name: name@,
                primary_dns: primary_dns@,
                secondary_dns: secondary_dns@,
                description: description@,
            }),
    {
        DnsProvider {
            name: name.to_owned(),
            primary_dns: primary_dns.to_owned(),
            secondary_dns: secondary_dns.to_owned(),
            description: description.to_owned(),
        }
    }

    /// How the provider is offered in the menu.
    pub fn label(&self) -> (text: String)
        ensures
            text@ == self@.label(),
    {
        let mut text = self.name.clone();
        text.append(" - ");
        text.append(self.description.as_str());
        text
    }

    /// What is announced once the provider's addresses are in force.
    pub fn announcement(&self) -> (text: String)
        ensures
            text@ == self@.announcement(),
    {
        let mut text = "✅ DNS set to ".to_owned();
        text.append(self.name.as_str());
        text.append(" (");
        text.append(self.primary_dns.as_str());
        text.append(", ");
        text.append(self.secondary_dns.as_str());
        text.append(")");
        text
    }
}

impl Clone for DnsProvider {
    fn clone(&self) -> (copy: DnsProvider)
        ensures
            copy@ == self@,
    {
        DnsProvider {
            name: self.name.clone(),
            primary_dns: self.primary_dns.clone(),
            secondary_dns: self.secondary_dns.clone(),
            description: self.description.clone(),
        }
    }
}

/// The four providers that are offered, in the order of the menu.
pub fn providers() -> (list: Vec<DnsProvider>)
    ensures
        list.deep_view() == catalog(),
{
    let mut list: Vec<DnsProvider> = Vec::new();
    list.push(DnsProvider::new("Cloudflare", "1.1.1.1", "1.0.0.1", "Fast and privacy-focused DNS"));
    list.push(DnsProvider::new("Google", "8.8.8.8", "8.8.4.4", "Reliable Google DNS"));
    list.push(DnsProvider::new("Quad9", "9.9.9.9", "149.112.112.112", "Security-focused DNS"));
    list.push(DnsProvider::new("OpenDNS", "208.67.222.222", "208.67.220.220", "Family-safe DNS"));
    list
}

} // verus!
