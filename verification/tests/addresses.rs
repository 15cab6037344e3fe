use drilltrack::addr::{is_lan_address_str, local_ipv4_candidates, select_lan_addresses};

fn strings(v: &[&str]) -> Vec<String> {
    v.iter().map(|s| s.to_string()).collect()
}

#[test]
fn only_the_lan_range_is_kept() {
    let got = select_lan_addresses(&strings(&[
        "10.0.0.5",
        "192.168.1.7",
        "127.0.0.1",
        "fe80::1",
        "192.168.0.9",
        "172.16.3.3",
    ]));
    assert_eq!(got, strings(&["192.168.1.7", "192.168.0.9"]));
}

#[test]
fn loopback_stands_in_when_nothing_qualifies() {
    assert_eq!(select_lan_addresses(&strings(&[])), strings(&["127.0.0.1"]));
    assert_eq!(
        select_lan_addresses(&strings(&["10.1.2.3", "169.254.0.1", "::1"])),
        strings(&["127.0.0.1"])
    );
}

#[test]
fn the_prefix_check_is_exact() {
    assert!(is_lan_address_str("192.168.1.7"));
    assert!(is_lan_address_str("192.168."));
    assert!(!is_lan_address_str("192.168"));
    assert!(!is_lan_address_str("192.169.1.7"));
    assert!(!is_lan_address_str("1192.168.1.7"));
    assert!(!is_lan_address_str(""));
    assert!(!is_lan_address_str("::ffff:192.168.1.1"));
}

#[test]
fn the_machine_always_has_a_candidate() {
    let got = local_ipv4_candidates();
    assert!(!got.is_empty());
    for a in &got {
        assert!(is_lan_address_str(a) || a == "127.0.0.1");
    }
}
