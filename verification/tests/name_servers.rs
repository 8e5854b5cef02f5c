use broker_outer_api::api::BrokerOuterAPI;
use broker_outer_api::name_server::{dns_lookup_address_by_domain, dns_lookup_host};
use broker_outer_api::text::{decimal_text, find_char, signed_decimal_text, split_text};

/// Looks a domain up for real.
fn lookup(domain: &str) -> Vec<String> {
    let found = match dns_lookup_host(domain) {
        Some(host) => dns_lookup::lookup_host(&host)
            .ok()
            .map(|addresses| addresses.into_iter().map(|a| a.to_string()).collect()),
        None => None,
    };
    dns_lookup_address_by_domain(domain, found)
}

fn strings(items: &[&str]) -> Vec<String> {
    items.iter().map(|s| s.to_string()).collect()
}

#[test]
fn dns_lookup_address_by_domain_returns_correct_addresses() {
    let domain = "localhost:8080";
    let addresses = lookup(domain);
    assert!(addresses.contains(&"127.0.0.1:8080".into()));
}

#[test]
fn dns_lookup_address_by_domain_handles_invalid_domain() {
    let domain = "invalid_domain";
    let addresses = lookup(domain);
    assert!(addresses.is_empty());
}

#[test]
fn dns_lookup_address_by_domain_handles_domain_without_port() {
    let domain = "localhost";
    let addresses = lookup(domain);
    assert!(addresses.is_empty());
}

#[test]
fn host_stands_before_the_first_colon() {
    assert_eq!(dns_lookup_host("mq.example:9876"), Some("mq.example".to_string()));
    assert_eq!(dns_lookup_host(":9876"), Some(String::new()));
    assert_eq!(dns_lookup_host("a:b:c"), Some("a".to_string()));
    assert_eq!(dns_lookup_host("mq.example"), None);
    assert_eq!(dns_lookup_host(""), None);
    assert_eq!(dns_lookup_host("h\u{f6}st:1"), Some("h\u{f6}st".to_string()));
}

#[test]
fn addresses_keep_order_and_take_the_port() {
    let found = Some(strings(&["10.0.0.1", "10.0.0.2"]));
    assert_eq!(
        dns_lookup_address_by_domain("mq:98:76", found),
        strings(&["10.0.0.1:98:76", "10.0.0.2:98:76"])
    );
    let api = BrokerOuterAPI::new();
    assert_eq!(
        api.update_name_server_address_list_by_dns_lookup("mq:1", Some(strings(&["x"]))),
        strings(&["x:1"])
    );
}

#[test]
fn no_addresses_without_port_or_lookup() {
    assert!(dns_lookup_address_by_domain("mq", Some(strings(&["10.0.0.1"]))).is_empty());
    assert!(dns_lookup_address_by_domain("mq:1", None).is_empty());
    assert!(dns_lookup_address_by_domain("mq:1", Some(Vec::new())).is_empty());
}

#[test]
fn address_list_is_split_at_semicolons() {
    let api = BrokerOuterAPI::new();
    assert_eq!(api.name_server_address, None);
    assert_eq!(
        api.update_name_server_address_list("127.0.0.1:9876;127.0.0.2:9876"),
        strings(&["127.0.0.1:9876", "127.0.0.2:9876"])
    );
    assert_eq!(api.update_name_server_address_list(""), strings(&[""]));
    assert_eq!(api.update_name_server_address_list(";a;"), strings(&["", "a", ""]));
    assert_eq!(api.update_name_server_address_list("\u{e9};\u{df}"), strings(&["\u{e9}", "\u{df}"]));
}

#[test]
fn split_pieces_join_again() {
    for s in ["", ";", "a", "a;b", ";;x;", "a;;b"] {
        let pieces = split_text(s, ';');
        assert_eq!(pieces.join(";"), s);
        assert_eq!(split_text(&pieces.join(";"), ';'), pieces);
        assert_eq!(pieces.len(), s.matches(';').count() + 1);
    }
}

#[test]
fn finds_the_first_character() {
    assert_eq!(find_char("a:b", ':'), (1, 3));
    assert_eq!(find_char("ab", ':'), (2, 2));
    assert_eq!(find_char("", ':'), (0, 0));
}

#[test]
fn numbers_are_rendered_in_decimal() {
    assert_eq!(decimal_text(0), "0");
    assert_eq!(decimal_text(907), "907");
    assert_eq!(decimal_text(1234567890), "1234567890");
    assert_eq!(decimal_text(u64::MAX), u64::MAX.to_string());
    assert_eq!(signed_decimal_text(-1), "-1");
    assert_eq!(signed_decimal_text(i32::MIN), i32::MIN.to_string());
    assert_eq!(signed_decimal_text(i32::MAX), i32::MAX.to_string());
}
