//! Where the addresses of the name servers come from.
use crate::api::BrokerOuterAPI;
use crate::name_server::{dns_lookup_address_by_domain, dns_lookup_host};
use crate::text::{lemma_prefix_len, split, texts};
use vstd::prelude::*;

verus! {

/// An API that was just made has no fixed name server.
pub proof fn lemma_new_api(r: BrokerOuterAPI)
    requires
        call_ensures(BrokerOuterAPI::new, (), r),
    ensures
        r.name_server_address is None,
{
}

/// A list without a semicolon is one address.
pub proof fn lemma_one_address(api: &BrokerOuterAPI, addrs: &str, r: Vec<String>)
    requires
        call_ensures(BrokerOuterAPI::update_name_server_address_list, (api, addrs), r),
        !addrs@.contains(';'),
    ensures
        r@.len() == 1,
        r@[0]@ == addrs@,
{
    lemma_prefix_len(addrs@, ';', addrs@.len());
    assert(texts(r@) == split(addrs@, ';'));
    assert(texts(r@)[0] == r@[0]@);
}

/// What stands before the first semicolon of a list is the first address; the
/// addresses of what stands behind it follow.
pub proof fn lemma_first_address(
    api: &BrokerOuterAPI,
    addrs: &str,
    r: Vec<String>,
    first: Seq<char>,
    rest: &str,
    others: Vec<String>,
)
    requires
        call_ensures(BrokerOuterAPI::update_name_server_address_list, (api, addrs), r),
        call_ensures(BrokerOuterAPI::update_name_server_address_list, (api, rest), others),
        addrs@ == first + seq![';'] + rest@,
        !first.contains(';'),
    ensures
        r@.len() == others@.len() + 1,
        r@[0]@ == first,
        forall|i: int| 0 <= i < others@.len() ==> r@[i + 1]@ == (#[trigger] others@[i])@,
{
    assert forall|j: int| 0 <= j < first.len() implies addrs@[j] != ';' by {
        assert(addrs@[j] == first[j]);
    }
    assert(addrs@[first.len() as int] == ';');
    lemma_prefix_len(addrs@, ';', first.len());
    assert(addrs@.take(first.len() as int) =~= first);
    assert(addrs@.skip(first.len() as int + 1) =~= rest@);
    assert(texts(r@) == split(addrs@, ';'));
    assert(texts(others@) == split(rest@, ';'));
    assert(texts(r@) =~= seq![first] + texts(others@));
    assert(texts(r@).len() == r@.len() && texts(others@).len() == others@.len());
    assert(texts(r@)[0] == r@[0]@);
    assert forall|i: int| 0 <= i < others@.len() implies r@[i + 1]@ == (#[trigger] others@[i])@ by {
        assert(texts(r@)[i + 1] == texts(others@)[i]);
    }
}

/// The host of a domain is what stands before its first colon; without a colon there
/// is none.
pub proof fn lemma_host_of_domain(
    domain: &str,
    host: Seq<char>,
    port: Seq<char>,
    r: Option<String>,
)
    requires
        call_ensures(dns_lookup_host, (domain,), r),
    ensures
        r is Some <==> domain@.contains(':'),
        domain@ == host + seq![':'] + port && !host.contains(':') ==> r is Some && r->0@ == host,
{
    if domain@ == host + seq![':'] + port && !host.contains(':') {
        assert(domain@[host.len() as int] == ':');
        assert forall|j: int| 0 <= j < host.len() implies domain@[j] != ':' by {
            assert(domain@[j] == host[j]);
        }
        lemma_prefix_len(domain@, ':', host.len());
        assert(domain@.take(host.len() as int) =~= host);
    }
}

/// Each address that the lookup of a host gave is a name server, in its place, behind
/// the port of the domain. There are no others, and none at all where the lookup gave
/// nothing.
pub proof fn lemma_addresses_of_domain(
    domain: &str,
    host: Seq<char>,
    port: Seq<char>,
    found: Option<Vec<String>>,
    r: Vec<String>,
    i: int,
)
    requires
        call_ensures(dns_lookup_address_by_domain, (domain, found), r),
        domain@ == host + seq![':'] + port,
        !host.contains(':'),
    ensures
        found is None ==> r@.len() == 0,
        found is Some ==> r@.len() == found->0@.len(),
        found is Some && 0 <= i < r@.len() ==> r@[i]@ == found->0@[i]@ + seq![':'] + port,
{
    assert(domain@[host.len() as int] == ':');
    assert forall|j: int| 0 <= j < host.len() implies domain@[j] != ':' by {
        assert(domain@[j] == host[j]);
    }
    lemma_prefix_len(domain@, ':', host.len());
    assert(domain@.skip(host.len() as int) =~= seq![':'] + port);
    assert(texts(r@).len() == r@.len());
    if found is Some {
        assert(texts(found->0@).len() == found->0@.len());
        if 0 <= i < r@.len() {
            assert(texts(r@)[i] == r@[i]@);
            assert(texts(found->0@)[i] == found->0@[i]@);
            assert(r@[i]@ =~= found->0@[i]@ + seq![':'] + port);
        }
    }
}

/// A domain without a port has no name servers, whatever a lookup gave.
pub proof fn lemma_no_addresses_without_port(
    domain: &str,
    found: Option<Vec<String>>,
    r: Vec<String>,
)
    requires
        call_ensures(dns_lookup_address_by_domain, (domain, found), r),
        !domain@.contains(':'),
    ensures
        r@.len() == 0,
{
    assert(texts(r@).len() == r@.len());
}

/// The name servers of a domain are the addresses that the domain has.
pub proof fn lemma_name_servers_of_domain(
    api: &BrokerOuterAPI,
    domain: &str,
    found: Option<Vec<String>>,
    r: Vec<String>,
    addresses: Vec<String>,
    i: int,
)
    requires
        call_ensures(
            BrokerOuterAPI::update_name_server_address_list_by_dns_lookup,
            (api, domain, found),
            r,
        ),
        call_ensures(dns_lookup_address_by_domain, (domain, found), addresses),
    ensures
        r@.len() == addresses@.len(),
        0 <= i < r@.len() ==> r@[i]@ == addresses@[i]@,
{
    assert(texts(r@).len() == r@.len() && texts(addresses@).len() == addresses@.len());
    if 0 <= i < r@.len() {
        assert(texts(r@)[i] == texts(addresses@)[i]);
    }
}

} // verus!
