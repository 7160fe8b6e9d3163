//! The options of the miner, and how they are resolved before mining starts.
//!
//! An `Opt` is first what the user asked for. `Opt::process` resolves it, once:
//! it normalizes the address of the node, settles the number of threads, and
//! gives up the devfund share where the miner is paid on another network than
//! the devfund. What it does is stated over `OptView`, the options with each
//! string as its sequence of characters.

use vstd::prelude::*;
use log::LevelFilter;
use crate::endpoint::{
    has_scheme, is_qualified, lemma_normalized_is_qualified, lemma_qualified_address_kept,
    normalized, or_loopback, qualified, qualify, selected_port, LOOPBACK, MAINNET_PORT,
    TESTNET_PORT,
};
use crate::error::Error;
use crate::network::{checked_share, different_networks, networks_differ, DEVFUND_ADDRESS};
use crate::percent::MIN_SHARE;

verus! {

/// `log::LevelFilter`, the levels that the `log` crate filters by, declared
/// with its variants as the crate defines them: `Off`, `Error`, `Warn`,
/// `Info`, `Debug` and `Trace`. Nothing more is claimed of it.
#[verifier::external_type_specification]
pub struct ExLevelFilter(LevelFilter);

/// The number of threads that stands for as many as the machine offers.
pub const AUTO_THREADS: u16 = 0;

/// The options of the miner.
#[derive(Debug, Clone)]
pub struct Opt {
    /// Log at debug level.
    pub debug: bool,
    /// The address that the miner's reward is paid to.
    pub mining_address: String,
    /// The address of the node: as the user gave it, and once resolved the
    /// address to connect to.
    pub apsakd_address: String,
    /// The devfund share, in ten-thousandths.
    pub devfund_percent: u16,
    /// The port of the node, where one was asked for or selected.
    pub port: Option<u16>,
    /// Mine on the test network.
    pub testnet: bool,
    /// The number of threads to mine with.
    pub num_threads: Option<u16>,
    /// Mine even when the node says it is not synced.
    pub mine_when_not_synced: bool,
    /// The address that the devfund share is paid to.
    pub devfund_address: String,
}

/// What an `Opt` holds, with each string as its sequence of characters.
pub struct OptView {
    pub debug: bool,
    pub mining_address: Seq<char>,
    pub apsakd_address: Seq<char>,
    pub devfund_percent: u16,
    pub port: Option<u16>,
    pub testnet: bool,
    pub num_threads: Option<u16>,
    pub mine_when_not_synced: bool,
    pub devfund_address: Seq<char>,
}

impl View for Opt {
    type V = OptView;

    open spec fn view(&self) -> OptView {
        OptView {
            debug: self.debug,
            mining_address: self.mining_address@,
            apsakd_address: self.apsakd_address@,
            devfund_percent: self.devfund_percent,
            port: self.port,
            testnet: self.testnet,
            num_threads: self.num_threads,
            mine_when_not_synced: self.mine_when_not_synced,
            devfund_address: self.devfund_address@,
        }
    }
}

/// The level to log at.
pub open spec fn level_for(debug: bool) -> LevelFilter {
    if debug {
        LevelFilter::Debug
    } else {
        LevelFilter::Info
    }
}

impl OptView {
    /// The port to reach the node on.
    pub open spec fn selected_port(self) -> u16 {
        selected_port(self.port, self.testnet)
    }

    /// The options once the port is selected.
    pub open spec fn with_port(self) -> OptView {
        OptView { port: Some(self.selected_port()), ..self }
    }

    /// The options once the address of the node is normalized. The port is
    /// selected where the address needs a scheme, also where it names a port
    /// itself.
    pub open spec fn with_endpoint(self) -> OptView {
        let address = or_loopback(self.apsakd_address);
        if is_qualified(address) {
            OptView { apsakd_address: address, ..self }
        } else {
            OptView {
                apsakd_address: qualified(address, self.selected_port()),
                port: Some(self.selected_port()),
                ..self
            }
        }
    }

    /// The options once the number of threads is settled.
    pub open spec fn with_threads(self) -> OptView {
        OptView {
            num_threads: Some(
                match self.num_threads {
                    Some(n) => n,
                    None => AUTO_THREADS,
                },
            ),
            ..self
        }
    }

    /// The options once the devfund address is set, and the devfund share
    /// given up where the miner is paid on another network.
    pub open spec fn with_devfund(self) -> OptView {
        OptView {
            devfund_address: DEVFUND_ADDRESS@,
            devfund_percent: checked_share(
                self.devfund_percent,
                self.mining_address,
                DEVFUND_ADDRESS@,
            ),
            ..self
        }
    }

    /// The options once resolved.
    pub open spec fn processed(self) -> OptView {
        self.with_endpoint().with_threads().with_devfund()
    }

    /// Nothing is left to resolve: the address of the node is qualified, the
    /// number of threads is settled, and the devfund address is set.
    pub open spec fn is_resolved(self) -> bool {
        &&& is_qualified(self.apsakd_address)
        &&& self.num_threads is Some
        &&& self.devfund_address == DEVFUND_ADDRESS@
    }
}

/// Resolving normalizes the address of the node, with the port that was asked
/// for or else that of the network.
pub proof fn lemma_processed_address(v: OptView)
    ensures
        v.processed().apsakd_address == normalized(v.apsakd_address, v.selected_port()),
{
}

/// Resolving leaves nothing to resolve.
pub proof fn lemma_processed_is_resolved(v: OptView)
    ensures
        v.processed().is_resolved(),
{
    lemma_normalized_is_qualified(v.apsakd_address, v.selected_port());
}

/// Resolving settles the number of threads: the number that was asked for,
/// and where none was asked for, as many as the machine offers.
pub proof fn lemma_processed_threads(v: OptView)
    ensures
        v.num_threads is None ==> v.processed().num_threads == Some(0u16),
        v.num_threads is Some ==> v.processed().num_threads == v.num_threads,
{
}

/// Resolving keeps the devfund share or gives it up: a share that is zero or
/// at least two percent stays so.
pub proof fn lemma_processed_share(v: OptView)
    ensures
        v.processed().devfund_percent == v.devfund_percent || v.processed().devfund_percent == 0,
        v.devfund_percent == 0 || v.devfund_percent >= MIN_SHARE ==> v.processed().devfund_percent
            == 0 || v.processed().devfund_percent >= MIN_SHARE,
{
}

/// Resolving is idempotent: to resolve resolved options changes nothing.
pub proof fn lemma_process_idempotent(v: OptView)
    ensures
        v.processed().processed() == v.processed(),
{
    let once = v.processed();
    lemma_normalized_is_qualified(v.apsakd_address, v.selected_port());
    lemma_qualified_address_kept(once.apsakd_address, once.selected_port());
}

impl Opt {
    /// Selects the port to reach the node on, and keeps it: the port that was
    /// asked for, else that of the network.
    pub fn port(&mut self) -> (port: u16)
        ensures
            port == old(self)@.selected_port(),
            final(self)@ == old(self)@.with_port(),
    {
        match self.port {
            Some(port) => port,
            None => {
                let port = if self.testnet {
                    TESTNET_PORT
                } else {
                    MAINNET_PORT
                };
                self.port = Some(port);
                port
            },
        }
    }

    /// Normalizes the address of the node: a qualified address is kept, and
    /// nothing else changes; any other address is qualified, with the port
    /// that `port` selects.
    pub fn normalize_endpoint(&mut self)
        ensures
            final(self)@ == old(self)@.with_endpoint(),
            final(self).apsakd_address@ == normalized(
                old(self).apsakd_address@,
                old(self)@.selected_port(),
            ),
            is_qualified(old(self).apsakd_address@) ==> final(self)@ == old(self)@,
    {
        proof {
            if is_qualified(old(self).apsakd_address@) {
                lemma_qualified_address_kept(old(self).apsakd_address@, old(self)@.selected_port());
            }
        }
        if self.apsakd_address.as_str().is_empty() {
            self.apsakd_address = LOOPBACK.to_owned();
        }
        if !has_scheme(self.apsakd_address.as_str()) {
            let port = self.port();
            self.apsakd_address = qualify(self.apsakd_address.as_str(), port);
        }
    }

    /// Settles the number of threads: where none was asked for, as many as
    /// the machine offers.
    pub fn resolve_threads(&mut self)
        ensures
            final(self)@ == old(self)@.with_threads(),
            old(self).num_threads is None ==> final(self).num_threads == Some(AUTO_THREADS),
            old(self).num_threads is Some ==> final(self).num_threads == old(self).num_threads,
    {
        if self.num_threads.is_none() {
            self.num_threads = Some(AUTO_THREADS);
        }
    }

    /// Sets the devfund address, and gives up the devfund share where the
    /// miner is paid on another network.
    pub fn check_network(&mut self)
        ensures
            final(self)@ == old(self)@.with_devfund(),
            final(self).devfund_percent == if networks_differ(
                old(self).mining_address@,
                DEVFUND_ADDRESS@,
            ) {
                0
            } else {
                old(self).devfund_percent
            },
    {
        self.devfund_address = DEVFUND_ADDRESS.to_owned();
        if different_networks(self.mining_address.as_str(), self.devfund_address.as_str()) {
            self.devfund_percent = 0;
        }
    }

    /// Resolves the options: normalizes the address of the node, settles the
    /// number of threads, sets the devfund address and checks the network of
    /// the miner against it, in this order. It never fails.
    pub fn process(&mut self) -> (r: Result<(), Error>)
        ensures
            r is Ok,
            final(self)@ == old(self)@.processed(),
            final(self)@.is_resolved(),
            final(self).apsakd_address@ == normalized(
                old(self).apsakd_address@,
                old(self)@.selected_port(),
            ),
            final(self).devfund_percent == checked_share(
                old(self).devfund_percent,
                old(self).mining_address@,
                DEVFUND_ADDRESS@,
            ),
    {
        self.normalize_endpoint();
        self.resolve_threads();
        self.check_network();
        proof {
            lemma_processed_is_resolved(old(self)@);
        }
        Ok(())
    }

    /// The level to log at: debug where it was asked for, else info.
    pub fn log_level(&self) -> (level: LevelFilter)
        ensures
            level == level_for(self.debug),
    {
        if self.debug {
            LevelFilter::Debug
        } else {
            LevelFilter::Info
        }
    }
}

} // verus!
