//! What is fetched for the identity on screen, and what counts as the answer where
//! a source fails.

use vstd::prelude::*;

use crate::activity::IndexedTx;
use crate::identity::{Identity, IdentityModel};
use crate::networks::PerChain;
use crate::text::{join2, join4};
use crate::types::{Address, Chain, NetworkId};

verus! {

/// What the settings say about networks.
#[derive(Debug)]
pub struct NetworkConfig {
    /// Whether a chain has an endpoint.
    pub rpcs: PerChain<bool>,
    /// The ids of the networks that the user added and has enabled.
    pub custom: Vec<u64>,
}

/// What a `NetworkConfig` holds.
pub struct ConfigModel {
    pub rpcs: PerChain<bool>,
    pub custom: Seq<u64>,
}

impl View for NetworkConfig {
    type V = ConfigModel;

    open spec fn view(&self) -> ConfigModel {
        ConfigModel { rpcs: self.rpcs, custom: self.custom@ }
    }
}

/// The chains that have an endpoint.
pub open spec fn reachable(chains: Seq<Chain>, rpcs: PerChain<bool>) -> Seq<Chain>
    decreases chains.len(),
{
    if chains.len() == 0 {
        chains
    } else {
        let rest = reachable(chains.drop_last(), rpcs);
        if rpcs.at(chains.last()) {
            rest.push(chains.last())
        } else {
            rest
        }
    }
}

/// The chains that have an endpoint.
fn reachable_of(chains: &Vec<Chain>, rpcs: &PerChain<bool>) -> (r: Vec<Chain>)
    ensures
        r@ == reachable(chains@, *rpcs),
{
    let mut out: Vec<Chain> = Vec::new();
    let mut i: usize = 0;
    assert(chains@.take(0) =~= Seq::<Chain>::empty());
    while i < chains.len()
        invariant
            i <= chains.len(),
            out@ == reachable(chains@.take(i as int), *rpcs),
        decreases chains.len() - i,
    {
        assert(chains@.take(i + 1).drop_last() =~= chains@.take(i as int));
        if *rpcs.get(chains[i]) {
            out.push(chains[i]);
        }
        i += 1;
    }
    assert(chains@.take(chains@.len() as int) =~= chains@);
    out
}

impl IdentityModel {
    /// The chains whose history is fetched.
    pub open spec fn history_chains(self, config: ConfigModel) -> Seq<Chain> {
        reachable(self.chains(), config.rpcs)
    }

    /// The networks whose balances are fetched.
    pub open spec fn balance_networks(self, config: ConfigModel) -> Seq<NetworkId> {
        let chains = reachable(self.chains(), config.rpcs);
        let builtin = Seq::new(chains.len(), |i: int| NetworkId::Builtin(chains[i]));
        match self.safe() {
            Some(_) => builtin,
            None => builtin + Seq::new(
                config.custom.len(),
                |i: int| NetworkId::Custom(config.custom[i]),
            ),
        }
    }

    /// Whose queue is fetched: that of the Safe on screen, where its chain is known
    /// and has an endpoint.
    pub open spec fn queue_request(self, config: ConfigModel) -> Option<(Address, Chain, u32)> {
        match self.safe() {
            Some(s) => match Chain::of_id(s.chain_id) {
                Some(c) => if config.rpcs.at(c) {
                    Some((s.address, c, s.threshold))
                } else {
                    None
                },
                None => None,
            },
            None => None,
        }
    }
}

impl Identity {
    /// The chains whose history is fetched: those in scope that have an endpoint.
    pub fn history_chains(&self, config: &NetworkConfig) -> (r: Vec<Chain>)
        ensures
            r@ == self@.history_chains(config@),
    {
        reachable_of(&self.allowed_chains(), &config.rpcs)
    }

    /// The networks whose balances are fetched: the chains in scope that have an
    /// endpoint, and for an account the added networks.
    pub fn balance_networks(&self, config: &NetworkConfig) -> (r: Vec<NetworkId>)
        ensures
            r@ == self@.balance_networks(config@),
    {
        let chains = reachable_of(&self.allowed_chains(), &config.rpcs);
        let mut out: Vec<NetworkId> = Vec::new();
        let mut i: usize = 0;
        while i < chains.len()
            invariant
                i <= chains.len(),
                out@.len() == i,
                forall|j: int| 0 <= j < i ==> out@[j] == NetworkId::Builtin(chains@[j]),
            decreases chains.len() - i,
        {
            out.push(NetworkId::Builtin(chains[i]));
            i += 1;
        }
        let ghost first = out@;
        assert(first =~= Seq::new(chains@.len(), |i: int| NetworkId::Builtin(chains@[i])));
        if self.active_safe_descriptor().is_some() {
            return out;
        }
        let mut k: usize = 0;
        while k < config.custom.len()
            invariant
                k <= config.custom.len(),
                out@ == first + Seq::new(
                    k as nat,
                    |i: int| NetworkId::Custom(config.custom@[i]),
                ),
            decreases config.custom.len() - k,
        {
            out.push(NetworkId::Custom(config.custom[k]));
            assert(out@ =~= first + Seq::new(
                (k + 1) as nat,
                |i: int| NetworkId::Custom(config.custom@[i]),
            ));
            k += 1;
        }
        assert(out@ =~= self@.balance_networks(config@));
        out
    }

    /// Whose queue is fetched, if any: the Safe, its chain and its threshold.
    pub fn queue_request(&self, config: &NetworkConfig) -> (r: Option<(Address, Chain, u32)>)
        ensures
            r == self@.queue_request(config@),
    {
        match self.active_safe_descriptor() {
            Some(s) => match Chain::from_chain_id(s.chain_id) {
                Some(c) => if *config.rpcs.get(c) {
                    Some((s.address, c, s.threshold))
                } else {
                    None
                },
                None => None,
            },
            None => None,
        }
    }
}

// ── history ─────────────────────────────────────────────────────────────────

/// Why the indexer has no answer; `None` where it has one. The indexer is not
/// asked where it is switched off.
pub open spec fn indexer_failure(indexer: Option<Result<Seq<IndexedTx>, String>>) -> Option<
    Seq<char>,
> {
    match indexer {
        Some(Ok(_)) => None,
        Some(Err(e)) => Some(e@),
        None => Some("indexer disabled"@),
    }
}

/// Transactions, each with the chain they were fetched from.
pub open spec fn stamped(s: Seq<IndexedTx>, chain: Chain) -> Seq<IndexedTx> {
    Seq::new(s.len(), |i: int| IndexedTx { chain, ..s[i] })
}

/// The history of a chain: the indexer's, or else the chain's own, or why there is
/// none.
pub open spec fn history_of(
    chain: Chain,
    indexer: Option<Result<Seq<IndexedTx>, String>>,
    onchain: Option<Result<Seq<IndexedTx>, String>>,
) -> Result<Seq<IndexedTx>, Seq<char>> {
    match indexer_failure(indexer) {
        None => Ok(stamped(indexer->0->Ok_0, chain)),
        Some(why) => match onchain {
            Some(Ok(v)) => Ok(stamped(v, chain)),
            Some(Err(e)) => Err("indexer: "@ + why + "; on-chain: "@ + e@),
            None => Err(why),
        },
    }
}

/// Writes the chain into every transaction.
fn stamp(v: Vec<IndexedTx>, chain: Chain) -> (r: Vec<IndexedTx>)
    ensures
        r@ == stamped(v@, chain),
{
    let mut v = v;
    let ghost all = v@;
    let n: usize = v.len();
    let mut i: usize = 0;
    while i < n
        invariant
            i <= n,
            n == all.len(),
            v@.len() == n,
            forall|j: int| 0 <= j < i ==> v@[j] == (IndexedTx { chain, ..#[trigger] all[j] }),
            forall|j: int| i <= j < n ==> v@[j] == #[trigger] all[j],
        decreases n - i,
    {
        let mut t = v.remove(i);
        assert(t == all[i as int]);
        t.chain = chain;
        v.insert(i, t);
        i += 1;
    }
    assert(v@ =~= stamped(all, chain));
    v
}

/// What the given answers are, with lists as sequences.
pub open spec fn rows_of(r: Option<Result<Vec<IndexedTx>, String>>) -> Option<
    Result<Seq<IndexedTx>, String>,
> {
    match r {
        Some(Ok(v)) => Some(Ok(v@)),
        Some(Err(e)) => Some(Err(e)),
        None => None,
    }
}

/// The history of a chain, from the answers of the indexer and of the chain itself.
/// The indexer is `None` where it is switched off, the chain where it cannot be
/// reached; the chain counts only where the indexer has no answer. Every
/// transaction carries the chain it was fetched from, whatever its source says.
pub fn history_result(
    chain: Chain,
    indexer: Option<Result<Vec<IndexedTx>, String>>,
    onchain: Option<Result<Vec<IndexedTx>, String>>,
) -> (r: Result<Vec<IndexedTx>, String>)
    ensures
        match r {
            Ok(v) => history_of(chain, rows_of(indexer), rows_of(onchain)) == Ok::<
                Seq<IndexedTx>,
                Seq<char>,
            >(v@),
            Err(e) => history_of(chain, rows_of(indexer), rows_of(onchain)) == Err::<
                Seq<IndexedTx>,
                Seq<char>,
            >(e@),
        },
{
    let why: String = match indexer {
        Some(Ok(v)) => {
            return Ok(stamp(v, chain));
        },
        Some(Err(e)) => e,
        None => "indexer disabled".to_string(),
    };
    match onchain {
        Some(Ok(v)) => Ok(stamp(v, chain)),
        Some(Err(e)) => Err(join4("indexer: ", why.as_str(), "; on-chain: ", e.as_str())),
        None => Err(why),
    }
}

/// Every transaction of a chain's history carries that chain, and a history comes
/// where either source has one.
pub proof fn law_history_carries_its_chain(
    chain: Chain,
    indexer: Option<Result<Seq<IndexedTx>, String>>,
    onchain: Option<Result<Seq<IndexedTx>, String>>,
    i: int,
)
    ensures
        history_of(chain, indexer, onchain) matches Ok(v) ==> (0 <= i < v.len() ==> v[i].chain
            == chain),
        history_of(chain, indexer, onchain) is Ok <==> (indexer matches Some(Ok(_))) || (
        onchain matches Some(Ok(_))),
{
}

// ── balances ────────────────────────────────────────────────────────────────

/// Where balances come from.
#[derive(Debug, Clone, Copy, PartialEq, Eq, Structural)]
pub enum BalanceRoute {
    /// From the chain, for the tokens that the indexer found and those that the
    /// wallet knows.
    Discovered,
    /// From the indexer.
    Indexer,
    /// From the chain, for the tokens that the wallet knows.
    OnChain,
    /// From nowhere: the chain has no endpoint.
    NoRpc,
}

/// Where the balances on a chain come from. On Mainnet the indexer only finds
/// tokens, and the chain tells their balances; elsewhere the indexer's balances
/// are taken where it has any. `found` is the number of tokens that the indexer
/// lists, `None` where it failed.
pub fn balance_route(chain: Chain, found: Option<usize>, reachable: bool) -> (r: BalanceRoute)
    ensures
        r == if chain == Chain::Mainnet {
            if reachable {
                BalanceRoute::Discovered
            } else {
                BalanceRoute::NoRpc
            }
        } else if found matches Some(n) && n > 0 {
            BalanceRoute::Indexer
        } else if reachable {
            BalanceRoute::OnChain
        } else {
            BalanceRoute::NoRpc
        },
{
    match chain {
        Chain::Mainnet => if reachable {
            BalanceRoute::Discovered
        } else {
            BalanceRoute::NoRpc
        },
        _ => {
            let listed = match found {
                Some(n) => n > 0,
                None => false,
            };
            if listed {
                BalanceRoute::Indexer
            } else if reachable {
                BalanceRoute::OnChain
            } else {
                BalanceRoute::NoRpc
            }
        },
    }
}

/// What is said where a chain has no endpoint.
pub fn no_rpc_text(chain: Chain) -> (r: String)
    ensures
        r@ == "no execution RPCs configured for "@ + chain.short_name(),
{
    join2("no execution RPCs configured for ", chain.label())
}

/// What is said where the endpoint of an added network is no URL.
pub fn bad_rpc_text(name: &str) -> (r: String)
    ensures
        r@ == "invalid RPC URL for "@ + name@,
{
    join2("invalid RPC URL for ", name)
}

/// How long the service takes to notice an execution, in seconds: a delayed fetch of a
/// queued transaction waits for it.
pub const SERVICE_REINDEX_DELAY_SECS: u64 = 8;

/// How long to wait before a simulation that ran on unverified state is run again:
/// the cooldown of the verified path and a second more.
pub fn sim_retry_delay(cooldown_secs: u64) -> (r: u64)
    requires
        cooldown_secs < u64::MAX,
    ensures
        r == cooldown_secs + 1,
{
    cooldown_secs + 1
}

} // verus!
