//! The addresses of the name servers.
use crate::api::BrokerOuterAPI;
use crate::text::{find_char, split_text};
use crate::text::{
    join, lemma_join_split, lemma_prefix_len, lemma_split_len, prefix_len, split, texts,
};
use vstd::prelude::*;

verus! {

/// The host part of a domain with a port: what stands before its first colon. A
/// domain without a colon has none.
pub open spec fn host_part(domain: Seq<char>) -> Option<Seq<char>> {
    if domain.contains(':') {
        Some(domain.take(prefix_len(domain, ':') as int))
    } else {
        None
    }
}

/// The port part of a domain: what stands from its first colon on, colon included.
pub open spec fn port_part(domain: Seq<char>) -> Seq<char> {
    domain.skip(prefix_len(domain, ':') as int)
}

/// The name server addresses of a domain whose host was looked up as `found`: each
/// address with the port of the domain, in order. There are none where the domain
/// lacks a port or the lookup failed.
pub open spec fn domain_addresses(domain: Seq<char>, found: Option<Seq<Seq<char>>>) -> Seq<
    Seq<char>,
> {
    match (host_part(domain), found) {
        (Some(_), Some(addresses)) => addresses.map_values(
            |address: Seq<char>| address + port_part(domain),
        ),
        _ => seq![],
    }
}

/// What a lookup found.
pub open spec fn found_texts(found: Option<Vec<String>>) -> Option<Seq<Seq<char>>> {
    match found {
        Some(addresses) => Some(texts(addresses@)),
        None => None,
    }
}

/// The host that is to be looked up for a domain, if there is one.
pub fn dns_lookup_host(domain: &str) -> (r: Option<String>)
    ensures
        match r {
            Some(host) => host_part(domain@) == Some(host@),
            None => host_part(domain@) is None,
        },
{
    let (index, len) = find_char(domain, ':');
    if index < len {
        Some(domain.substring_char(0, index).to_owned())
    } else {
        None
    }
}

/// The name server addresses of a domain, where `found` holds the addresses that the
/// lookup of its host gave, or nothing when the lookup failed or was not made.
pub fn dns_lookup_address_by_domain(domain: &str, found: Option<Vec<String>>) -> (r: Vec<String>)
    ensures
        texts(r@) == domain_addresses(domain@, found_texts(found)),
{
    let mut address_list: Vec<String> = Vec::new();
    let (index, len) = find_char(domain, ':');
    if index < len {
        match found {
            Some(addresses) => {
                let port = domain.substring_char(index, len);
                let ghost expected = domain_addresses(domain@, Some(texts(addresses@)));
                assert(port@ =~= port_part(domain@));
                assert(expected.take(0) =~= texts(address_list@));
                let mut i: usize = 0;
                while i < addresses.len()
                    invariant
                        i <= addresses@.len(),
                        address_list@.len() == i,
                        port@ == port_part(domain@),
                        host_part(domain@) is Some,
                        expected == domain_addresses(domain@, Some(texts(addresses@))),
                        texts(address_list@) == expected.take(i as int),
                    decreases addresses@.len() - i,
                {
                    let mut address = addresses[i].clone();
                    address.append(port);
                    address_list.push(address);
                    i = i + 1;
                    assert(texts(address_list@) =~= expected.take(i as int));
                }
                assert(expected.take(i as int) =~= expected);
            },
            None => {},
        }
    }
    assert(texts(address_list@) =~= domain_addresses(domain@, found_texts(found)));
    address_list
}

impl BrokerOuterAPI {
    /// The name server addresses in a list that is separated by semicolons.
    pub fn update_name_server_address_list(&self, addrs: &str) -> (r: Vec<String>)
        ensures
            texts(r@) == split(addrs@, ';'),
    {
        split_text(addrs, ';')
    }

    /// The name server addresses of a domain, where `found` holds the addresses that
    /// the lookup of its host gave, or nothing when the lookup failed or was not made.
    pub fn update_name_server_address_list_by_dns_lookup(
        &self,
        domain: &str,
        found: Option<Vec<String>>,
    ) -> (r: Vec<String>)
        ensures
            texts(r@) == domain_addresses(domain@, found_texts(found)),
    {
        dns_lookup_address_by_domain(domain, found)
    }
}

/// A list of name servers is read without loss: joined by semicolons, the addresses
/// spell the list, and none of them holds a semicolon. There is one address at
/// least, an empty one for an empty list.
pub proof fn lemma_address_list(addrs: Seq<char>)
    ensures
        join(split(addrs, ';'), ';') == addrs,
        split(addrs, ';').len() >= 1,
        forall|i: int|
            0 <= i < split(addrs, ';').len() ==> !(#[trigger] split(addrs, ';')[i]).contains(';'),
        addrs.len() == 0 ==> split(addrs, ';') == seq![addrs],
{
    lemma_join_split(addrs, ';');
    lemma_split_len(addrs, ';');
}

/// The host and the port part of a domain make up the domain; the host holds no
/// colon, and the port begins with one.
pub proof fn lemma_domain_parts(domain: Seq<char>)
    requires
        domain.contains(':'),
    ensures
        host_part(domain) is Some,
        host_part(domain)->0 + port_part(domain) == domain,
        !host_part(domain)->0.contains(':'),
        port_part(domain).len() > 0,
        port_part(domain)[0] == ':',
{
    let n = prefix_len(domain, ':');
    lemma_prefix_len(domain, ':', n);
    let i = choose|i: int| 0 <= i < domain.len() && domain[i] == ':';
    assert(n < domain.len());
    assert(host_part(domain)->0 + port_part(domain) =~= domain);
}

/// A domain without a port has no addresses, whatever a lookup might find.
pub proof fn lemma_no_port_no_addresses(domain: Seq<char>, found: Option<Seq<Seq<char>>>)
    requires
        !domain.contains(':'),
    ensures
        domain_addresses(domain, found).len() == 0,
{
}

/// Each address that a lookup found is kept, in its place, with the port of the
/// domain.
pub proof fn lemma_addresses_keep_order(domain: Seq<char>, addresses: Seq<Seq<char>>, i: int)
    requires
        domain.contains(':'),
        0 <= i < addresses.len(),
    ensures
        domain_addresses(domain, Some(addresses)).len() == addresses.len(),
        domain_addresses(domain, Some(addresses))[i] == addresses[i] + port_part(domain),
{
}

} // verus!
