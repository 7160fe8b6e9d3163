use apsak_miner::network::{different_networks, namespace, DEVFUND_ADDRESS};

#[test]
fn the_devfund_address() {
    assert_eq!(
        DEVFUND_ADDRESS,
        "apsak:qrwsj38ulfq30dwze7q5rvwy8rfa237ct9eegtexah3wdjgd7g5ggmw7ut4tu"
    );
    assert_eq!(namespace(DEVFUND_ADDRESS), Some("apsak"));
}

#[test]
fn the_network_stands_before_the_first_colon() {
    assert_eq!(namespace("apsak:abc"), Some("apsak"));
    assert_eq!(namespace("apsaktest:abc"), Some("apsaktest"));
    assert_eq!(namespace("a:b:c"), Some("a"));
    assert_eq!(namespace(":abc"), Some(""));
    assert_eq!(namespace("abc:"), Some("abc"));
    assert_eq!(namespace(":"), Some(""));
    assert_eq!(namespace("r\u{00e9}seau:abc"), Some("r\u{00e9}seau"));
}

#[test]
fn an_address_without_a_colon_names_no_network() {
    assert_eq!(namespace(""), None);
    assert_eq!(namespace("abc"), None);
    assert_eq!(namespace("apsak"), None);
}

#[test]
fn addresses_of_one_network_do_not_differ() {
    assert!(!different_networks("apsak:abc", DEVFUND_ADDRESS));
    assert!(!different_networks("apsak:", DEVFUND_ADDRESS));
    assert!(!different_networks("apsak:abc", "apsak:xyz"));
    assert!(!different_networks(":a", ":b"));
}

#[test]
fn addresses_of_two_networks_differ() {
    assert!(different_networks("other:abc", DEVFUND_ADDRESS));
    assert!(different_networks("apsaktest:abc", DEVFUND_ADDRESS));
    assert!(different_networks("apsa:abc", DEVFUND_ADDRESS));
    assert!(different_networks("Apsak:abc", DEVFUND_ADDRESS));
    assert!(different_networks(":abc", DEVFUND_ADDRESS));
    assert!(different_networks(DEVFUND_ADDRESS, "other:abc"));
}

#[test]
fn an_address_that_names_no_network_differs_from_none() {
    assert!(!different_networks("abc", DEVFUND_ADDRESS));
    assert!(!different_networks("", DEVFUND_ADDRESS));
    assert!(!different_networks("other", DEVFUND_ADDRESS));
    assert!(!different_networks("other:abc", "apsak"));
    assert!(!different_networks("abc", "xyz"));
}
