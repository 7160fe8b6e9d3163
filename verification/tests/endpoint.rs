use apsak_miner::endpoint::{
    has_scheme, normalize, qualify, DEFAULT_SCHEME, LOOPBACK, MAINNET_PORT, SCHEME_SEPARATOR,
    TESTNET_PORT,
};

#[test]
fn the_constants_of_an_endpoint() {
    assert_eq!(MAINNET_PORT, 16110);
    assert_eq!(TESTNET_PORT, 16211);
    assert_eq!(LOOPBACK, "127.0.0.1");
    assert_eq!(SCHEME_SEPARATOR, "://");
    assert_eq!(DEFAULT_SCHEME, "grpc://");
}

#[test]
fn an_address_with_a_scheme_is_qualified() {
    assert!(has_scheme("grpc://127.0.0.1:16110"));
    assert!(has_scheme("http://node"));
    assert!(has_scheme("://"));
    assert!(has_scheme("a://"));
    assert!(has_scheme("host://8080"));
}

#[test]
fn an_address_without_a_scheme_is_not_qualified() {
    assert!(!has_scheme(""));
    assert!(!has_scheme("127.0.0.1"));
    assert!(!has_scheme("host:8080"));
    assert!(!has_scheme(":/"));
    assert!(!has_scheme("a:/b"));
    assert!(!has_scheme("a:b//c"));
    assert!(!has_scheme("//host"));
}

#[test]
fn a_host_gets_the_scheme_and_the_port() {
    assert_eq!(qualify("127.0.0.1", 16110), "grpc://127.0.0.1:16110");
    assert_eq!(qualify("node.example", 16211), "grpc://node.example:16211");
    assert_eq!(qualify("localhost", 0), "grpc://localhost:0");
    assert_eq!(qualify("localhost", 7), "grpc://localhost:7");
    assert_eq!(qualify("localhost", 80), "grpc://localhost:80");
    assert_eq!(qualify("localhost", 65535), "grpc://localhost:65535");
    assert_eq!(qualify("", 16110), "grpc://:16110");
}

#[test]
fn a_host_with_a_port_keeps_its_port() {
    assert_eq!(qualify("127.0.0.1:1234", 16110), "grpc://127.0.0.1:1234");
    assert_eq!(qualify("127.0.0.1:1234", 16211), "grpc://127.0.0.1:1234");
    assert_eq!(qualify("node:", 16110), "grpc://node:");
    assert_eq!(qualify(":80", 16110), "grpc://:80");
    assert_eq!(qualify("node:port", 16110), "grpc://node:port");
    assert_eq!(qualify("a:b:c", 16110), "grpc://a:b:c");
    assert_eq!(qualify("[::1]:16110", 1), "grpc://[::1]:16110");
}

#[test]
fn an_empty_address_is_the_loopback_host() {
    assert_eq!(normalize("", MAINNET_PORT), "grpc://127.0.0.1:16110");
    assert_eq!(normalize("", TESTNET_PORT), "grpc://127.0.0.1:16211");
    assert_eq!(normalize("", 9000), "grpc://127.0.0.1:9000");
}

#[test]
fn a_qualified_address_is_kept() {
    for address in ["grpc://127.0.0.1:16110", "http://node", "://", "wss://node:1/path", "host://8080"] {
        assert_eq!(normalize(address, MAINNET_PORT), address);
        assert_eq!(normalize(address, TESTNET_PORT), address);
    }
}

#[test]
fn normalizing_twice_is_normalizing_once() {
    for address in ["", "node", "node:1234", "node:", ":", "a:b:c", "grpc://node", "h\u{00e9}te"] {
        for port in [0u16, 16110, 16211, 65535] {
            let once = normalize(address, port);
            assert!(has_scheme(&once));
            assert_eq!(normalize(&once, port), once);
            assert_eq!(normalize(&once, 1), once);
        }
    }
}

#[test]
fn normalizing_an_address_without_a_scheme() {
    assert_eq!(normalize("node", MAINNET_PORT), "grpc://node:16110");
    assert_eq!(normalize("node", TESTNET_PORT), "grpc://node:16211");
    assert_eq!(normalize("node:1234", MAINNET_PORT), "grpc://node:1234");
    assert_eq!(normalize("node:1234", TESTNET_PORT), "grpc://node:1234");
    assert_eq!(normalize("h\u{00e9}te", 5), "grpc://h\u{00e9}te:5");
}
