//! What the lists on screen hold, and in which order.

use vstd::prelude::*;

use crate::activity::IndexedTx;
use crate::history::{txs_off, HistoryModel};
use crate::lists::lemma_filter_contains;
use crate::orders::{
    lemma_place, orders_of, place_of, undecided, with_cancelled, with_fetched, with_news,
    with_order, OrderStatus, TrackedOrder,
};
use crate::portfolio::{holding_of, kept_for, LiveToken, PortfolioModel, Slot};
use crate::ranking::{law_ranked, ranked, Ranked};
use crate::text::comes_before;
use crate::types::{Address, Amount, Chain, NetworkId};

verus! {

// ── balances ────────────────────────────────────────────────────────────────

/// Native coin stands above all tokens, and of two of a kind the one that is worth more
/// stands above the other.
pub proof fn law_rows_are_ordered_by_worth(rows: Seq<LiveToken>, i: int, j: int)
    requires
        0 <= i < j < rows.len(),
    ensures
        ranked(rows).len() == rows.len(),
        ranked(rows)[j].contract is None ==> ranked(rows)[i].contract is None,
        (ranked(rows)[i].contract is None) == (ranked(rows)[j].contract is None) ==> ranked(
            rows,
        )[i].usd_rank >= ranked(rows)[j].usd_rank,
{
    law_ranked(rows);
    assert(!ranked(rows)[j].outranks(ranked(rows)[i]));
}

/// Putting rows in order loses none and adds none.
pub proof fn law_ordering_keeps_the_rows(rows: Seq<LiveToken>, t: LiveToken)
    ensures
        ranked(rows).contains(t) <==> rows.contains(t),
        ranked(rows).to_multiset().count(t) == rows.to_multiset().count(t),
{
    law_ranked(rows);
    crate::ranking::lemma_ranked_contains(rows, t);
}

/// Fresh balances of the identity on screen end the wait; a failure leaves the rows.
pub proof fn law_balances_end_the_wait(
    m: PortfolioModel,
    network: NetworkId,
    tokens: Option<Seq<LiveToken>>,
    shown: Address,
    allowed: Seq<NetworkId>,
)
    requires
        allowed.contains(network),
    ensures
        !m.fetched(shown, network, tokens, shown, allowed).loading,
        !m.fetched(shown, network, tokens, shown, allowed).refreshing,
        tokens is None ==> m.fetched(shown, network, tokens, shown, allowed).rows == m.rows,
        tokens is None ==> m.fetched(shown, network, tokens, shown, allowed).cache == m.cache,
{
}

/// What is fetched for an address and a network is kept for them, as far as it is on that
/// network.
pub proof fn law_fetched_balances_are_kept(
    m: PortfolioModel,
    address: Address,
    network: NetworkId,
    tokens: Seq<LiveToken>,
    shown: Address,
    allowed: Seq<NetworkId>,
    t: LiveToken,
)
    ensures
        ({
            let kept = m.fetched(address, network, Some(tokens), shown, allowed).cache;
            let slot = Slot { address, network };
            &&& kept.contains_key(slot)
            &&& kept[slot].contains(t) <==> tokens.contains(t) && t.chain == network
        }),
{
    lemma_filter_contains(tokens, |t: LiveToken| t.chain == network, t);
}

/// A refresh shows that it goes on, and whether anything is left to show meanwhile.
pub proof fn law_a_refresh_is_shown(m: PortfolioModel, allowed: Seq<NetworkId>)
    ensures
        m.refreshed(allowed).refreshing,
        m.refreshed(allowed).loading <==> m.refreshed(allowed).rows.len() == 0,
        m.refreshed(allowed).cache == m.cache,
{
}

/// An identity that comes on screen is shown with what is kept for it; where nothing is
/// kept, the rows stay.
pub proof fn law_another_identity_shows_what_is_kept(
    m: PortfolioModel,
    address: Address,
    allowed: Seq<NetworkId>,
    k: int,
)
    ensures
        0 <= k < allowed.len() && m.cache.contains_key(Slot { address, network: allowed[k] })
            ==> m.seeded(address, allowed).rows == kept_for(m.cache, address, allowed),
        (forall|i: int|
            0 <= i < allowed.len() ==> !m.cache.contains_key(
                Slot { address, network: #[trigger] allowed[i] },
            )) ==> m.seeded(address, allowed).rows == m.rows,
        m.seeded(address, allowed).loading <==> m.seeded(address, allowed).rows.len() == 0,
        m.seeded(address, allowed).cache == m.cache,
        m.seeded(address, allowed).refreshing == m.refreshing,
{
}

/// What is sent of a row is the row's own token and balance.
pub proof fn law_a_holding_is_its_row(t: LiveToken)
    ensures
        holding_of(t).balance_raw == t.balance_raw,
        holding_of(t).decimals == t.decimals,
        holding_of(t).contract == t.contract,
        holding_of(t).balance == t.balance,
{
}

// ── history ─────────────────────────────────────────────────────────────────

/// The newest transaction stands first; of two of the same time, the one with the
/// greater hash.
pub proof fn law_history_is_newest_first(txs: Seq<IndexedTx>, i: int, j: int)
    requires
        0 <= i < j < txs.len(),
    ensures
        ({
            let a = ranked(txs)[i];
            let b = ranked(txs)[j];
            &&& a.timestamp >= b.timestamp
            &&& a.timestamp == b.timestamp ==> a.hash.hi >= b.hash.hi
            &&& a.timestamp == b.timestamp && a.hash.hi == b.hash.hi ==> a.hash.lo >= b.hash.lo
        }),
{
    law_ranked(txs);
    assert(!ranked(txs)[j].outranks(ranked(txs)[i]));
}

/// The feed holds at most fifty transactions, the newest; a shorter feed holds all.
pub proof fn law_the_feed_is_the_newest_fifty(
    m: HistoryModel,
    chain: Chain,
    txs: Seq<IndexedTx>,
    shown: Address,
    allowed: Seq<Chain>,
)
    requires
        allowed.contains(chain),
    ensures
        ({
            let all = ranked(txs_off(m.rows, chain) + txs);
            let t = m.fetched(shown, chain, Ok(txs), shown, allowed);
            &&& all.len() <= 50 ==> t.rows == all
            &&& all.len() > 50 ==> t.rows == all.take(50)
            &&& t.loaded
        }),
{
}

/// What went wrong on a chain is told for that chain, until it answers; the others keep
/// theirs.
pub proof fn law_errors_belong_to_their_chain(
    m: HistoryModel,
    chain: Chain,
    txs: Seq<IndexedTx>,
    e: String,
    shown: Address,
    allowed: Seq<Chain>,
)
    requires
        allowed.contains(chain),
    ensures
        ({
            let bad = m.fetched(shown, chain, Err(e), shown, allowed);
            let good = m.fetched(shown, chain, Ok(txs), shown, allowed);
            &&& bad.rows == m.rows
            &&& bad.loaded
            &&& chain == Chain::Mainnet ==> bad.errors.mainnet == Some(e)
                && good.errors.mainnet is None && bad.errors.optimism == m.errors.optimism
                && bad.errors.base == m.errors.base
            &&& chain == Chain::Optimism ==> bad.errors.optimism == Some(e)
                && good.errors.optimism is None && bad.errors.mainnet == m.errors.mainnet
                && bad.errors.base == m.errors.base
            &&& chain == Chain::Base ==> bad.errors.base == Some(e) && good.errors.base is None
                && bad.errors.mainnet == m.errors.mainnet && bad.errors.optimism
                == m.errors.optimism
        }),
{
}

/// Asking waits for the given chains; asking again forgets what went wrong; another
/// identity starts with an empty feed.
pub proof fn law_the_feed_waits_for_its_chains(m: HistoryModel, chains: Seq<Chain>)
    ensures
        m.asking(chains).loading && m.asking(chains).pending == chains && m.asking(chains).rows
            == m.rows && m.asking(chains).errors == m.errors,
        m.asking_again(chains).loading && m.asking_again(chains).pending == chains
            && m.asking_again(chains).rows == m.rows,
        m.asking_again(chains).errors.mainnet is None && m.asking_again(
            chains,
        ).errors.optimism is None && m.asking_again(chains).errors.base is None,
        m.forgotten().rows.len() == 0 && !m.forgotten().loaded,
        m.forgotten().errors.mainnet is None && m.forgotten().errors.optimism is None
            && m.forgotten().errors.base is None,
        HistoryModel::empty().rows.len() == 0 && !HistoryModel::empty().loading
            && !HistoryModel::empty().loaded && HistoryModel::empty().pending.len() == 0,
{
}

// ── orders ──────────────────────────────────────────────────────────────────

/// The order that lapses last stands first; of two that lapse together, the one with the
/// later identifier.
pub proof fn law_orders_that_lapse_last_stand_first(
    s: Seq<TrackedOrder>,
    owner: Address,
    i: int,
    j: int,
)
    requires
        0 <= i < j < orders_of(s, owner).len(),
    ensures
        orders_of(s, owner)[i].valid_to >= orders_of(s, owner)[j].valid_to,
        orders_of(s, owner)[i].valid_to == orders_of(s, owner)[j].valid_to ==> !comes_before(
            orders_of(s, owner)[i].uid@,
            orders_of(s, owner)[j].uid@,
        ),
{
    let own = s.filter(|o: TrackedOrder| o.owner == owner);
    law_ranked(own);
    assert(!ranked(own)[j].outranks(ranked(own)[i]));
}

/// An order that was placed is followed from then on; one that is followed already is not
/// followed twice.
pub proof fn law_placed_orders_are_followed(s: Seq<TrackedOrder>, o: TrackedOrder)
    ensures
        (forall|i: int| 0 <= i < s.len() ==> (#[trigger] s[i]).uid@ != o.uid@) ==> with_order(s, o)
            == s.push(o) && with_fetched(s, o) == s.push(o),
        (exists|i: int| 0 <= i < s.len() && (#[trigger] s[i]).uid@ == o.uid@) ==> with_order(s, o)
            == s && with_fetched(s, o).len() == s.len(),
{
    lemma_place(s, o.uid@);
    if exists|i: int| 0 <= i < s.len() && (#[trigger] s[i]).uid@ == o.uid@ {
        let i = choose|i: int| 0 <= i < s.len() && (#[trigger] s[i]).uid@ == o.uid@;
        assert(place_of(s, o.uid@) <= i);
    }
}

/// News of an order set its status, and its fill where they have one; a cancelled order
/// is cancelled. No other order changes.
pub proof fn law_news_are_taken_in(
    s: Seq<TrackedOrder>,
    uid: Seq<char>,
    status: OrderStatus,
    executed: Option<(Amount, Amount)>,
    k: int,
    other: int,
)
    requires
        0 <= k < s.len(),
        s[k].uid@ == uid,
        forall|i: int| 0 <= i < s.len() && i != k ==> (#[trigger] s[i]).uid@ != uid,
        0 <= other < s.len(),
    ensures
        ({
            let t = with_news(s, uid, status, executed);
            let c = with_cancelled(s, uid);
            &&& t.len() == s.len() && c.len() == s.len()
            &&& t[k].status == status
            &&& executed is Some ==> t[k].executed == executed
            &&& executed is None ==> t[k].executed == s[k].executed
            &&& t[k] == (TrackedOrder { status, executed: t[k].executed, ..s[k] })
            &&& c[k].status == OrderStatus::Cancelled && c[k].executed == s[k].executed
            &&& other != k ==> t[other] == s[other] && c[other] == s[other]
        }),
{
    lemma_place(s, uid);
    assert(place_of(s, uid) == k) by {
        let p = place_of(s, uid);
        if p < k {
            assert(s[p].uid@ != uid);
        }
        if k < p {
            assert(s[k].uid@ != uid);
        }
    }
}

/// The orders that are asked after are those that are open or wait for a signature.
pub proof fn law_undecided_orders_are_asked_after(s: Seq<TrackedOrder>, o: TrackedOrder)
    ensures
        undecided(s).contains(o) <==> s.contains(o) && (o.status == OrderStatus::Open || o.status
            == OrderStatus::PresignaturePending),
{
    lemma_filter_contains(s, |o: TrackedOrder| !o.status.is_over(), o);
}

/// Once an order is filled, the balances of the token that was bought and of the one that
/// was sold are read again, for its owner, on its chain; native coin is read with the
/// chain and not from a contract.
pub proof fn law_a_fill_reads_both_tokens(o: TrackedOrder, after: TrackedOrder)
    requires
        o.status == OrderStatus::Open || o.status == OrderStatus::PresignaturePending,
    ensures
        after.status != OrderStatus::Fulfilled ==> o.fill(after) is None,
        after.status == OrderStatus::Fulfilled ==> (o.fill(after) matches Some(f) && {
            &&& f.chain == o.chain
            &&& f.owner == o.owner
            &&& f.slots.len() == 2
            &&& f.slots[0] == Some(o.buy_token)
            &&& o.is_ethflow ==> f.slots[1] is None && f.fetch.len() == 1
            &&& !o.is_ethflow ==> f.slots[1] == Some(o.sell_token) && f.fetch.len() == 2
                && f.fetch[1].address == o.sell_token && f.fetch[1].symbol == o.sell_symbol
                && f.fetch[1].decimals == o.sell_decimals
            &&& f.fetch[0].address == o.buy_token && f.fetch[0].symbol == o.buy_symbol
                && f.fetch[0].decimals == o.buy_decimals
        }),
{
}

} // verus!
