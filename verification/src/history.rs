//! The activity feed: the transactions of the identity on screen, merged from
//! all its chains.

use vstd::prelude::*;

use crate::activity::IndexedTx;
use crate::lists::{lemma_filter_contains, retain};
use crate::networks::PerChain;
use crate::ranking::{in_order, law_ranked, lemma_ranked_contains, rank, ranked, Ranked};
use crate::types::{Address, Chain, Hash32};

verus! {

/// How many transactions the feed shows.
pub const HISTORY_LIMIT: usize = 50;

/// Whether one hash, read as a number, is greater than another.
pub open spec fn greater(a: Hash32, b: Hash32) -> bool {
    a.hi > b.hi || (a.hi == b.hi && a.lo > b.lo)
}

/// The newest comes first; of two of the same time, the one with the greater
/// hash.
impl Ranked for IndexedTx {
    open spec fn outranks(self, other: Self) -> bool {
        self.timestamp > other.timestamp || (self.timestamp == other.timestamp && greater(
            self.hash,
            other.hash,
        ))
    }

    fn is_above(&self, other: &Self) -> (b: bool) {
        self.timestamp > other.timestamp || (self.timestamp == other.timestamp && (self.hash.hi
            > other.hash.hi || (self.hash.hi == other.hash.hi && self.hash.lo > other.hash.lo)))
    }

    proof fn one_way(a: Self, b: Self) {
    }

    proof fn comparable(a: Self, b: Self, c: Self) {
    }
}

/// The activity feed.
#[derive(Debug)]
pub struct History {
    pub rows: Vec<IndexedTx>,
    /// Some chain has not answered yet.
    pub loading: bool,
    /// Some chain has answered.
    pub loaded: bool,
    /// What went wrong on each chain.
    pub errors: PerChain<Option<String>>,
    /// The chains that have not answered yet.
    pub pending: Vec<Chain>,
}

/// What a `History` holds.
pub struct HistoryModel {
    pub rows: Seq<IndexedTx>,
    pub loading: bool,
    pub loaded: bool,
    pub errors: PerChain<Option<String>>,
    pub pending: Seq<Chain>,
}

impl View for History {
    type V = HistoryModel;

    open spec fn view(&self) -> HistoryModel {
        HistoryModel {
            rows: self.rows@,
            loading: self.loading,
            loaded: self.loaded,
            errors: self.errors,
            pending: self.pending@,
        }
    }
}

/// No chain has failed.
pub open spec fn no_errors() -> PerChain<Option<String>> {
    PerChain { mainnet: None, optimism: None, base: None }
}

/// The transactions on other chains.
pub open spec fn txs_off(s: Seq<IndexedTx>, c: Chain) -> Seq<IndexedTx> {
    s.filter(|t: IndexedTx| t.chain != c)
}

/// Being another chain.
pub open spec fn another(chain: Chain) -> spec_fn(Chain) -> bool {
    |c: Chain| c != chain
}

/// The first `n` of a list.
pub open spec fn capped<T>(s: Seq<T>, n: nat) -> Seq<T> {
    if s.len() <= n {
        s
    } else {
        s.take(n as int)
    }
}

impl HistoryModel {
    /// The feed before anything was asked for.
    pub open spec fn empty() -> HistoryModel {
        HistoryModel {
            rows: Seq::empty(),
            loading: false,
            loaded: false,
            errors: no_errors(),
            pending: Seq::empty(),
        }
    }

    /// While the given chains are asked.
    pub open spec fn asking(self, chains: Seq<Chain>) -> HistoryModel {
        HistoryModel { loading: true, pending: chains, ..self }
    }

    /// While the given chains are asked once more.
    pub open spec fn asking_again(self, chains: Seq<Chain>) -> HistoryModel {
        HistoryModel { errors: no_errors(), ..self.asking(chains) }
    }

    /// After another identity came on screen.
    pub open spec fn forgotten(self) -> HistoryModel {
        HistoryModel { rows: Seq::empty(), loaded: false, errors: no_errors(), ..self }
    }

    /// After a chain answered for an address.
    pub open spec fn fetched(
        self,
        address: Address,
        chain: Chain,
        result: Result<Seq<IndexedTx>, String>,
        shown: Address,
        allowed: Seq<Chain>,
    ) -> HistoryModel {
        if address == shown && allowed.contains(chain) {
            let pending = self.pending.filter(another(chain));
            HistoryModel {
                rows: match result {
                    Ok(txs) => capped(
                        ranked(txs_off(self.rows, chain) + txs),
                        HISTORY_LIMIT as nat,
                    ),
                    Err(_) => self.rows,
                },
                loading: self.loading && pending.len() > 0,
                loaded: true,
                errors: self.errors.with(
                    chain,
                    match result {
                        Ok(_) => None,
                        Err(e) => Some(e),
                    },
                ),
                pending,
            }
        } else {
            self
        }
    }
}

/// Tells whether a chain is among the given ones.
pub fn has_chain(v: &Vec<Chain>, c: Chain) -> (b: bool)
    ensures
        b == v@.contains(c),
{
    let mut i: usize = 0;
    while i < v.len()
        invariant
            i <= v.len(),
            forall|j: int| 0 <= j < i ==> v@[j] != c,
        decreases v.len() - i,
    {
        if v[i] == c {
            return true;
        }
        i += 1;
    }
    false
}

impl History {
    /// The feed before anything was asked for.
    pub fn new() -> (r: History)
        ensures
            r@ == HistoryModel::empty(),
    {
        History {
            rows: Vec::new(),
            loading: false,
            loaded: false,
            errors: PerChain { mainnet: None, optimism: None, base: None },
            pending: Vec::new(),
        }
    }

    /// The given chains are asked.
    pub fn ask(&mut self, chains: Vec<Chain>)
        ensures
            final(self)@ == old(self)@.asking(chains@),
    {
        self.loading = true;
        self.pending = chains;
    }

    /// The given chains are asked once more, and what went wrong is forgotten.
    pub fn ask_again(&mut self, chains: Vec<Chain>)
        ensures
            final(self)@ == old(self)@.asking_again(chains@),
    {
        self.errors = PerChain { mainnet: None, optimism: None, base: None };
        self.ask(chains);
    }

    /// Another identity came on screen: its feed is loaded when it is looked at.
    pub fn forget(&mut self)
        ensures
            final(self)@ == old(self)@.forgotten(),
    {
        self.rows = Vec::new();
        self.loaded = false;
        self.errors = PerChain { mainnet: None, optimism: None, base: None };
    }

    /// A chain answered for an address. The answer counts only where the address
    /// is the one on screen and the chain is in scope; it replaces that chain's
    /// transactions.
    pub fn fetch_done(
        &mut self,
        address: Address,
        chain: Chain,
        result: Result<Vec<IndexedTx>, String>,
        shown: Address,
        allowed: &Vec<Chain>,
    )
        ensures
            final(self)@ == old(self)@.fetched(
                address,
                chain,
                match result {
                    Ok(v) => Ok(v@),
                    Err(e) => Err(e),
                },
                shown,
                allowed@,
            ),
    {
        if address != shown || !has_chain(allowed, chain) {
            return;
        }
        self.loaded = true;
        retain(
            &mut self.pending,
            (|c: &Chain| -> (b: bool)
                ensures
                    b == (*c != chain),
            {
                *c != chain
            }),
            Ghost(another(chain)),
        );
        if self.pending.len() == 0 {
            self.loading = false;
        }
        match result {
            Ok(txs) => {
                let mut txs = txs;
                self.errors.set(chain, None);
                retain(
                    &mut self.rows,
                    (|t: &IndexedTx| -> (b: bool)
                        ensures
                            b == (t.chain != chain),
                    {
                        t.chain != chain
                    }),
                    Ghost(|t: IndexedTx| t.chain != chain),
                );
                self.rows.append(&mut txs);
                rank(&mut self.rows);
                let ghost all = self.rows@;
                self.rows.truncate(HISTORY_LIMIT);
                assert(self.rows@ =~= capped(all, HISTORY_LIMIT as nat));
            },
            Err(e) => {
                self.errors.set(chain, Some(e));
            },
        }
    }
}

// ── laws ────────────────────────────────────────────────────────────────────

/// An answer for an address that is not on screen, or from a chain that is out of
/// scope, changes nothing: the feed goes on waiting for its own.
pub proof fn law_stale_history_is_dropped(
    m: HistoryModel,
    address: Address,
    chain: Chain,
    result: Result<Seq<IndexedTx>, String>,
    shown: Address,
    allowed: Seq<Chain>,
)
    requires
        address != shown || !allowed.contains(chain),
    ensures
        m.fetched(address, chain, result, shown, allowed) == m,
{
}

/// The feed is in order, the newest first, and never longer than its limit,
/// whatever answers come.
pub proof fn law_history_is_ordered_and_bounded(
    m: HistoryModel,
    address: Address,
    chain: Chain,
    result: Result<Seq<IndexedTx>, String>,
    shown: Address,
    allowed: Seq<Chain>,
)
    requires
        in_order(m.rows),
        m.rows.len() <= HISTORY_LIMIT,
    ensures
        in_order(m.fetched(address, chain, result, shown, allowed).rows),
        m.fetched(address, chain, result, shown, allowed).rows.len() <= HISTORY_LIMIT,
{
    if address == shown && allowed.contains(chain) && result is Ok {
        let all = ranked(txs_off(m.rows, chain) + result->Ok_0);
        law_ranked(txs_off(m.rows, chain) + result->Ok_0);
        let out = capped(all, HISTORY_LIMIT as nat);
        assert forall|i: int, j: int| 0 <= i < j < out.len() implies !(#[trigger] out[j]).outranks(
            #[trigger] out[i],
        ) by {
            assert(!all[j].outranks(all[i]));
        }
    }
}

/// Every transaction that a merge shows was shown before, on another chain, or
/// came with the answer; and a transaction on another chain is dropped only for
/// a full feed of others that rank no lower.
pub proof fn law_history_merge(
    m: HistoryModel,
    chain: Chain,
    txs: Seq<IndexedTx>,
    shown: Address,
    allowed: Seq<Chain>,
    t: IndexedTx,
)
    requires
        allowed.contains(chain),
    ensures
        ({
            let out = m.fetched(shown, chain, Ok(txs), shown, allowed).rows;
            let candidate = (m.rows.contains(t) && t.chain != chain) || txs.contains(t);
            &&& out.contains(t) ==> candidate
            &&& candidate && !out.contains(t) ==> out.len() == HISTORY_LIMIT && forall|i: int|
                0 <= i < out.len() ==> !t.outranks(#[trigger] out[i])
        }),
{
    let off = txs_off(m.rows, chain);
    let sum = off + txs;
    let all = ranked(sum);
    let out = m.fetched(shown, chain, Ok(txs), shown, allowed).rows;
    law_ranked(sum);
    lemma_ranked_contains(sum, t);
    lemma_filter_contains(m.rows, |t: IndexedTx| t.chain != chain, t);
    if sum.contains(t) {
        let i = choose|i: int| 0 <= i < sum.len() && sum[i] == t;
        if i < off.len() {
            assert(off[i] == t);
        } else {
            assert(txs[i - off.len()] == t);
        }
    }
    if off.contains(t) {
        let i = choose|i: int| 0 <= i < off.len() && off[i] == t;
        assert(sum[i] == t);
    }
    if txs.contains(t) {
        let i = choose|i: int| 0 <= i < txs.len() && txs[i] == t;
        assert(sum[off.len() + i] == t);
    }
    if out.contains(t) {
        let i = choose|i: int| 0 <= i < out.len() && out[i] == t;
        assert(all[i] == t);
    }
    if all.contains(t) && !out.contains(t) {
        let k = choose|k: int| 0 <= k < all.len() && all[k] == t;
        if k < out.len() {
            assert(out[k] == t);
        }
        assert forall|i: int| 0 <= i < out.len() implies !t.outranks(#[trigger] out[i]) by {
            assert(!all[k].outranks(all[i]));
        }
    }
}

/// The feed waits exactly as long as a chain in scope has not answered: the
/// answer of the last one ends the wait, and no other does.
pub proof fn law_wait_ends_with_the_last_chain(
    m: HistoryModel,
    chain: Chain,
    result: Result<Seq<IndexedTx>, String>,
    shown: Address,
    allowed: Seq<Chain>,
)
    requires
        m.loading,
        allowed.contains(chain),
    ensures
        m.fetched(shown, chain, result, shown, allowed).loading <==> exists|c: Chain|
            #[trigger] m.pending.contains(c) && c != chain,
{
    let left = m.pending.filter(another(chain));
    if left.len() > 0 {
        assert(left.contains(left[0]));
        lemma_filter_contains(m.pending, another(chain), left[0]);
        assert(m.pending.contains(left[0]));
    }
    assert forall|c: Chain| #[trigger] m.pending.contains(c) && c != chain implies left.len()
        > 0 by {
        lemma_filter_contains(m.pending, another(chain), c);
        assert(left.contains(c));
    }
}

} // verus!
