//! The address of the node, and the port it is reached on.
//!
//! An address that names its scheme (it holds `://`) is qualified, and kept
//! as it is. Any other address is taken as `host` or `host:port` and turned
//! into `grpc://host:port`; a host without a port gets the port of the
//! network. An empty address stands for the loopback host.

use vstd::prelude::*;
use crate::decimal::{
    all_digits, decimal, digits_value, lemma_decimal_round_trip, push_decimal,
};
use crate::text::{chars_of, contains_chars, contains_seq, find_char, occurs_at};

verus! {

/// The port of a node of the main network.
pub const MAINNET_PORT: u16 = 16110;

/// The port of a node of the test network.
pub const TESTNET_PORT: u16 = 16211;

/// The host that an empty address stands for.
pub const LOOPBACK: &'static str = "127.0.0.1";

/// What a qualified address holds between its scheme and its host.
pub const SCHEME_SEPARATOR: &'static str = "://";

/// The scheme that an address without one is given.
pub const DEFAULT_SCHEME: &'static str = "grpc://";

/// The port of a node where none was asked for.
pub open spec fn default_port(testnet: bool) -> u16 {
    if testnet {
        TESTNET_PORT
    } else {
        MAINNET_PORT
    }
}

/// The port to use: the one asked for, else that of the network.
pub open spec fn selected_port(port: Option<u16>, testnet: bool) -> u16 {
    match port {
        Some(p) => p,
        None => default_port(testnet),
    }
}

/// `address` names its scheme.
pub open spec fn is_qualified(address: Seq<char>) -> bool {
    contains_seq(address, SCHEME_SEPARATOR@)
}

/// `address`, or the loopback host where it is empty.
pub open spec fn or_loopback(address: Seq<char>) -> Seq<char> {
    if address.len() == 0 {
        LOOPBACK@
    } else {
        address
    }
}

/// An address without a scheme, given the default scheme, and `port` where
/// it names none: what stands after its first `:` is its port.
pub open spec fn qualified(address: Seq<char>, port: u16) -> Seq<char> {
    if address.contains(':') {
        DEFAULT_SCHEME@ + address
    } else {
        DEFAULT_SCHEME@ + address + seq![':'] + decimal(port as nat)
    }
}

/// The address that a client connects to, for the address and the port that
/// were asked for.
pub open spec fn normalized(address: Seq<char>, port: u16) -> Seq<char> {
    let address = or_loopback(address);
    if is_qualified(address) {
        address
    } else {
        qualified(address, port)
    }
}

/// An address without a `:` names no scheme.
pub proof fn lemma_scheme_needs_colon(address: Seq<char>)
    requires
        !address.contains(':'),
    ensures
        !is_qualified(address),
{
    reveal_strlit("://");
    if is_qualified(address) {
        let i = choose|i: int| occurs_at(address, SCHEME_SEPARATOR@, i);
        assert(address[i + 0] == SCHEME_SEPARATOR@[0]);
        assert(address.contains(address[i]));
    }
}

/// Normalizing keeps a qualified address as it is, whatever the port.
pub proof fn lemma_qualified_address_kept(address: Seq<char>, port: u16)
    requires
        is_qualified(address),
    ensures
        normalized(address, port) == address,
{
    reveal_strlit("://");
    let i = choose|i: int| occurs_at(address, SCHEME_SEPARATOR@, i);
    assert(address.len() >= 3);
}

/// What normalizing gives is a qualified address.
pub proof fn lemma_normalized_is_qualified(address: Seq<char>, port: u16)
    ensures
        is_qualified(normalized(address, port)),
{
    let filled = or_loopback(address);
    if !is_qualified(filled) {
        reveal_strlit("://");
        reveal_strlit("grpc://");
        assert(occurs_at(qualified(filled, port), SCHEME_SEPARATOR@, 4));
    }
}

/// Normalizing is idempotent: to normalize a normalized address, with any
/// port, changes nothing.
pub proof fn lemma_normalize_idempotent(address: Seq<char>, port: u16, again: u16)
    ensures
        normalized(normalized(address, port), again) == normalized(address, port),
{
    lemma_normalized_is_qualified(address, port);
    lemma_qualified_address_kept(normalized(address, port), again);
}

/// The ports of the two networks in decimal notation.
pub proof fn lemma_default_port_text(testnet: bool)
    ensures
        decimal(default_port(testnet) as nat) == if testnet {
            "16211"@
        } else {
            "16110"@
        },
{
    reveal_strlit("16211");
    reveal_strlit("16110");
    reveal_with_fuel(decimal, 5);
    if testnet {
        assert(decimal(16211) =~= "16211"@);
    } else {
        assert(decimal(16110) =~= "16110"@);
    }
}

/// A host without a port, where no port was asked for, gets port 16110 on
/// the main network and port 16211 on the test network.
pub proof fn lemma_host_without_port(host: Seq<char>, testnet: bool)
    requires
        host.len() > 0,
        !host.contains(':'),
    ensures
        normalized(host, selected_port(None, testnet)) == DEFAULT_SCHEME@ + host + seq![':'] + (
        if testnet {
            "16211"@
        } else {
            "16110"@
        }),
{
    lemma_scheme_needs_colon(host);
    lemma_default_port_text(testnet);
}

/// The port that a host is given reads back from the address: what follows
/// the host and a `:` is made of digits only, and denotes the port.
pub proof fn lemma_port_reads_back(host: Seq<char>, port: u16)
    requires
        !host.contains(':'),
    ensures
        qualified(host, port) == DEFAULT_SCHEME@ + host + seq![':'] + decimal(port as nat),
        all_digits(decimal(port as nat)),
        digits_value(decimal(port as nat)) == port,
{
    lemma_decimal_round_trip(port as nat);
}

/// An empty address, where no port was asked for, stands for the loopback
/// host on the port of the network.
pub proof fn lemma_empty_address(testnet: bool)
    ensures
        normalized(Seq::empty(), selected_port(None, testnet)) == if testnet {
            "grpc://127.0.0.1:16211"@
        } else {
            "grpc://127.0.0.1:16110"@
        },
{
    reveal_strlit("127.0.0.1");
    reveal_strlit("grpc://");
    reveal_strlit("16211");
    reveal_strlit("16110");
    reveal_strlit("grpc://127.0.0.1:16211");
    reveal_strlit("grpc://127.0.0.1:16110");
    assert(!LOOPBACK@.contains(':'));
    lemma_host_without_port(LOOPBACK@, testnet);
    if testnet {
        assert(DEFAULT_SCHEME@ + LOOPBACK@ + seq![':'] + "16211"@ =~= "grpc://127.0.0.1:16211"@);
    } else {
        assert(DEFAULT_SCHEME@ + LOOPBACK@ + seq![':'] + "16110"@ =~= "grpc://127.0.0.1:16110"@);
    }
}

/// An address of a host and a port keeps its port, whatever the port of the
/// network and whatever port was asked for: where it names no scheme, it is
/// given the default scheme and nothing else.
pub proof fn lemma_host_with_port(host: Seq<char>, port_text: Seq<char>, port: u16)
    ensures
        normalized(host + seq![':'] + port_text, port) == if is_qualified(
            host + seq![':'] + port_text,
        ) {
            host + seq![':'] + port_text
        } else {
            DEFAULT_SCHEME@ + host + seq![':'] + port_text
        },
{
    let address = host + seq![':'] + port_text;
    assert(address[host.len() as int] == ':');
    assert(address.contains(':'));
    assert(DEFAULT_SCHEME@ + address =~= DEFAULT_SCHEME@ + host + seq![':'] + port_text);
}

/// Tells whether `address` names its scheme.
pub fn has_scheme(address: &str) -> (r: bool)
    ensures
        r == is_qualified(address@),
{
    let chars = chars_of(address);
    let separator = chars_of(SCHEME_SEPARATOR);
    contains_chars(chars.as_slice(), separator.as_slice())
}

/// Gives an address without a scheme the default scheme, and `port` where it
/// names none.
pub fn qualify(address: &str, port: u16) -> (r: String)
    ensures
        r@ == qualified(address@, port),
{
    let chars = chars_of(address);
    let mut r = String::from_str(DEFAULT_SCHEME);
    r.append(address);
    if find_char(chars.as_slice(), ':').is_none() {
        proof {
            reveal_strlit(":");
        }
        r.append(":");
        push_decimal(&mut r, port);
        assert(r@ =~= DEFAULT_SCHEME@ + address@ + seq![':'] + decimal(port as nat));
    }
    r
}

/// The address that a client connects to: `address` where it is qualified,
/// else `address`, or the loopback host where it is empty, given the default
/// scheme and, where it names no port, `port`.
pub fn normalize(address: &str, port: u16) -> (r: String)
    ensures
        r@ == normalized(address@, port),
{
    let address = if address.is_empty() {
        LOOPBACK
    } else {
        address
    };
    if has_scheme(address) {
        address.to_owned()
    } else {
        qualify(address, port)
    }
}

} // verus!
