//! The network that an address belongs to.
//!
//! An address names its network before its first `:`, as `apsak` in
//! `apsak:qr...`; an address without a `:` names none. Two addresses differ in
//! network only where both name one and the names differ.

use vstd::prelude::*;
use crate::text::{
    chars_of, find_char, first_index_of, is_first_occurrence, lemma_first_index_of,
    lemma_first_occurrence_unique, same_text,
};

verus! {

/// The address that the devfund share is paid to.
pub const DEVFUND_ADDRESS: &'static str =
    "apsak:qrwsj38ulfq30dwze7q5rvwy8rfa237ct9eegtexah3wdjgd7g5ggmw7ut4tu";

/// The network that `address` names: what stands before its first `:`.
pub open spec fn namespace_of(address: Seq<char>) -> Option<Seq<char>> {
    match first_index_of(address, ':') {
        Some(i) => Some(address.subrange(0, i)),
        None => None,
    }
}

/// Both addresses name a network, and not the same one.
pub open spec fn networks_differ(a: Seq<char>, b: Seq<char>) -> bool {
    &&& namespace_of(a) is Some
    &&& namespace_of(b) is Some
    &&& namespace_of(a) != namespace_of(b)
}

/// The devfund share that is left to a miner who is paid at `mining`, where
/// the devfund is paid at `devfund`: none where the two differ in network.
pub open spec fn checked_share(share: u16, mining: Seq<char>, devfund: Seq<char>) -> u16 {
    if networks_differ(mining, devfund) {
        0
    } else {
        share
    }
}

/// An address made of a name without `:`, a `:` and anything else names the
/// network of that name.
pub proof fn lemma_namespace_of_joined(name: Seq<char>, rest: Seq<char>)
    requires
        !name.contains(':'),
    ensures
        namespace_of(name + seq![':'] + rest) == Some(name),
{
    let address = name + seq![':'] + rest;
    let colon = name.len() as int;
    assert forall|j: int| 0 <= j < colon implies address[j] != ':' by {
        assert(address[j] == name[j]);
        assert(name.contains(name[j]));
    }
    assert(address[colon] == ':');
    lemma_first_occurrence_unique(address, ':', colon);
    assert(address.subrange(0, colon) =~= name);
}

/// The devfund address is of the network `apsak`.
pub proof fn lemma_devfund_namespace()
    ensures
        namespace_of(DEVFUND_ADDRESS@) == Some("apsak"@),
{
    reveal_strlit("apsak:qrwsj38ulfq30dwze7q5rvwy8rfa237ct9eegtexah3wdjgd7g5ggmw7ut4tu");
    reveal_strlit("apsak");
    assert(is_first_occurrence(DEVFUND_ADDRESS@, ':', 5));
    lemma_first_occurrence_unique(DEVFUND_ADDRESS@, ':', 5);
    assert(DEVFUND_ADDRESS@.subrange(0, 5) =~= "apsak"@);
}

/// A miner's address of the form `name:rest` differs in network from the
/// devfund address exactly where `name` is not `apsak`.
pub proof fn lemma_differs_from_devfund(name: Seq<char>, rest: Seq<char>)
    requires
        !name.contains(':'),
    ensures
        networks_differ(name + seq![':'] + rest, DEVFUND_ADDRESS@) == (name != "apsak"@),
{
    lemma_namespace_of_joined(name, rest);
    lemma_devfund_namespace();
}

/// An address without a `:` differs in network from no address.
pub proof fn lemma_unnamed_network_agrees(address: Seq<char>, other: Seq<char>)
    requires
        !address.contains(':'),
    ensures
        !networks_differ(address, other),
        !networks_differ(other, address),
{
}

/// The network that `address` names, or `None` where it names none.
pub fn namespace<'a>(address: &'a str) -> (r: Option<&'a str>)
    ensures
        match r {
            Some(name) => namespace_of(address@) == Some(name@),
            None => namespace_of(address@) is None,
        },
{
    let chars = chars_of(address);
    match find_char(chars.as_slice(), ':') {
        Some(colon) => {
            proof {
                lemma_first_index_of(address@, ':');
            }
            Some(address.substring_char(0, colon))
        },
        None => None,
    }
}

/// Tells whether two addresses differ in network.
pub fn different_networks(a: &str, b: &str) -> (r: bool)
    ensures
        r == networks_differ(a@, b@),
{
    match (namespace(a), namespace(b)) {
        (Some(a_name), Some(b_name)) => !same_text(a_name, b_name),
        _ => false,
    }
}

} // verus!
