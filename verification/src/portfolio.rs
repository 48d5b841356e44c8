//! The tokens that an account holds, and their order in the list.

use vstd::prelude::*;

use crate::amounts::Holding;
use crate::identity::builtin_networks;
use crate::keyed::{Key, Table};
use crate::lists::{lemma_filter_contains, retain};
use crate::ranking::{lemma_ranked_contains, rank, ranked, Ranked};
use crate::types::{all_chains, Address, Amount, Chain, NetworkId};

verus! {

/// One token balance.
#[derive(Debug)]
pub struct LiveToken {
    pub symbol: String,
    pub name: String,
    /// The balance as it is displayed.
    pub balance: String,
    /// The balance in base units.
    pub balance_raw: Amount,
    pub decimals: u8,
    /// The token's contract; native coin has none.
    pub contract: Option<Address>,
    /// Whether a price is known.
    pub priced: bool,
    /// Orders tokens by their value: of two tokens, the one worth more has the
    /// larger rank, and tokens of equal worth have the same.
    pub usd_rank: u64,
    pub chain: NetworkId,
}

impl Clone for LiveToken {
    fn clone(&self) -> (r: Self)
        ensures
            r == *self,
    {
        LiveToken {
            symbol: self.symbol.clone(),
            name: self.name.clone(),
            balance: self.balance.clone(),
            balance_raw: self.balance_raw,
            decimals: self.decimals,
            contract: self.contract,
            priced: self.priced,
            usd_rank: self.usd_rank,
            chain: self.chain,
        }
    }
}

// ── the order of the rows ───────────────────────────────────────────────────

/// Native coin comes first, and then the token that is worth more.
impl Ranked for LiveToken {
    open spec fn outranks(self, other: Self) -> bool {
        if (self.contract is None) == (other.contract is None) {
            self.usd_rank > other.usd_rank
        } else {
            self.contract is None
        }
    }

    fn is_above(&self, other: &Self) -> (b: bool) {
        if self.contract.is_none() == other.contract.is_none() {
            self.usd_rank > other.usd_rank
        } else {
            self.contract.is_none()
        }
    }

    proof fn one_way(a: Self, b: Self) {
    }

    proof fn comparable(a: Self, b: Self, c: Self) {
    }
}

/// Puts the rows in order: native coin first, and then by value, the greatest
/// first. Rows of equal standing keep their order.
pub fn sort_portfolio_rows(rows: &mut Vec<LiveToken>)
    ensures
        final(rows)@ == ranked(old(rows)@),
{
    rank(rows);
}

// ── picking rows ────────────────────────────────────────────────────────────

/// The rows on a network.
pub open spec fn rows_on(s: Seq<LiveToken>, n: NetworkId) -> Seq<LiveToken> {
    s.filter(|t: LiveToken| t.chain == n)
}

/// The rows on other networks.
pub open spec fn rows_off(s: Seq<LiveToken>, n: NetworkId) -> Seq<LiveToken> {
    s.filter(|t: LiveToken| t.chain != n)
}

/// The rows on networks that are in scope.
pub open spec fn rows_within(s: Seq<LiveToken>, allowed: Seq<NetworkId>) -> Seq<LiveToken> {
    s.filter(|t: LiveToken| allowed.contains(t.chain))
}

/// The rows on a network whose tokens are listed.
pub open spec fn rows_listed(s: Seq<LiveToken>, n: NetworkId, slots: Seq<Option<Address>>) -> Seq<
    LiveToken,
> {
    s.filter(|t: LiveToken| t.chain == n && slots.contains(t.contract))
}

/// The rows but those on a network whose tokens are listed.
pub open spec fn rows_unlisted(s: Seq<LiveToken>, n: NetworkId, slots: Seq<Option<Address>>) -> Seq<
    LiveToken,
> {
    s.filter(|t: LiveToken| !(t.chain == n && slots.contains(t.contract)))
}

/// The rows whose tokens are not listed.
pub open spec fn rows_unnamed(s: Seq<LiveToken>, slots: Seq<Option<Address>>) -> Seq<LiveToken> {
    s.filter(|t: LiveToken| !slots.contains(t.contract))
}

/// Tells whether a network is among the given ones.
pub fn has_network(v: &Vec<NetworkId>, n: NetworkId) -> (b: bool)
    ensures
        b == v@.contains(n),
{
    let mut i: usize = 0;
    while i < v.len()
        invariant
            i <= v.len(),
            forall|j: int| 0 <= j < i ==> v@[j] != n,
        decreases v.len() - i,
    {
        if v[i] == n {
            return true;
        }
        i += 1;
    }
    false
}

/// Tells whether a token is among the given ones; native coin is `None`.
pub fn has_slot(v: &Vec<Option<Address>>, c: Option<Address>) -> (b: bool)
    ensures
        b == v@.contains(c),
{
    let mut i: usize = 0;
    while i < v.len()
        invariant
            i <= v.len(),
            forall|j: int| 0 <= j < i ==> v@[j] != c,
        decreases v.len() - i,
    {
        let hit = match (v[i], c) {
            (Some(a), Some(b)) => a == b,
            (None, None) => true,
            _ => false,
        };
        if hit {
            return true;
        }
        i += 1;
    }
    false
}

/// Copies rows.
fn copy_rows(v: &Vec<LiveToken>) -> (r: Vec<LiveToken>)
    ensures
        r@ == v@,
{
    let mut out: Vec<LiveToken> = Vec::new();
    let mut i: usize = 0;
    while i < v.len()
        invariant
            i <= v.len(),
            out@ == v@.take(i as int),
        decreases v.len() - i,
    {
        out.push(v[i].clone());
        assert(v@.take(i + 1) =~= v@.take(i as int).push(v@[i as int]));
        i += 1;
    }
    assert(v@.take(v@.len() as int) =~= v@);
    out
}

// ── the rows on screen and the rows kept for later ──────────────────────────

/// Whose rows are kept, and of which network.
#[derive(Debug, Clone, Copy, PartialEq, Eq, Structural)]
pub struct Slot {
    pub address: Address,
    pub network: NetworkId,
}

impl Key for Slot {
    fn same(&self, other: &Self) -> (b: bool) {
        *self == *other
    }
}

/// The tokens on screen, and those of every address and network seen so far.
#[derive(Debug)]
pub struct Portfolio {
    pub rows: Vec<LiveToken>,
    /// Nothing is there to show yet.
    pub loading: bool,
    /// The user asked for fresh balances, and none has come yet.
    pub refreshing: bool,
    pub cache: Table<Slot, Vec<LiveToken>>,
}

/// What a `Portfolio` holds.
pub struct PortfolioModel {
    pub rows: Seq<LiveToken>,
    pub loading: bool,
    pub refreshing: bool,
    pub cache: Map<Slot, Seq<LiveToken>>,
}

/// The rows that a cache holds.
pub open spec fn kept_rows(m: Map<Slot, Vec<LiveToken>>) -> Map<Slot, Seq<LiveToken>> {
    m.map_values(|v: Vec<LiveToken>| v@)
}

impl View for Portfolio {
    type V = PortfolioModel;

    open spec fn view(&self) -> PortfolioModel {
        PortfolioModel {
            rows: self.rows@,
            loading: self.loading,
            refreshing: self.refreshing,
            cache: kept_rows(self.cache@),
        }
    }
}

/// The rows kept for an address on the given networks, one network after the
/// other.
pub open spec fn kept_for(
    cache: Map<Slot, Seq<LiveToken>>,
    address: Address,
    networks: Seq<NetworkId>,
) -> Seq<LiveToken>
    decreases networks.len(),
{
    if networks.len() == 0 {
        Seq::empty()
    } else {
        let front = kept_for(cache, address, networks.drop_last());
        let slot = Slot { address, network: networks.last() };
        if cache.contains_key(slot) {
            front + cache[slot]
        } else {
            front
        }
    }
}

/// Whether anything is kept for an address on one of the given networks.
pub open spec fn any_kept(
    cache: Map<Slot, Seq<LiveToken>>,
    address: Address,
    networks: Seq<NetworkId>,
) -> bool {
    exists|i: int|
        0 <= i < networks.len() && #[trigger] cache.contains_key(
            Slot { address, network: networks[i] },
        )
}

impl PortfolioModel {
    /// After the user asked for fresh balances.
    pub open spec fn refreshed(self, allowed: Seq<NetworkId>) -> PortfolioModel {
        PortfolioModel {
            rows: rows_within(self.rows, allowed),
            loading: rows_within(self.rows, allowed).len() == 0,
            refreshing: true,
            cache: self.cache,
        }
    }

    /// After the rows of an address and a network came, or failed to.
    pub open spec fn fetched(
        self,
        address: Address,
        network: NetworkId,
        tokens: Option<Seq<LiveToken>>,
        shown: Address,
        allowed: Seq<NetworkId>,
    ) -> PortfolioModel {
        let cache = match tokens {
            Some(t) => self.cache.insert(Slot { address, network }, rows_on(t, network)),
            None => self.cache,
        };
        if address == shown && allowed.contains(network) {
            PortfolioModel {
                rows: match tokens {
                    Some(t) => ranked(rows_off(self.rows, network) + rows_on(t, network)),
                    None => self.rows,
                },
                loading: false,
                refreshing: false,
                cache,
            }
        } else {
            PortfolioModel { cache, ..self }
        }
    }

    /// After fresh balances of the two tokens of a filled order came.
    pub open spec fn swapped(
        self,
        address: Address,
        network: NetworkId,
        slots: Seq<Option<Address>>,
        tokens: Seq<LiveToken>,
        shown: Address,
        allowed: Seq<NetworkId>,
    ) -> PortfolioModel {
        let slot = Slot { address, network };
        let fresh = rows_listed(tokens, network, slots);
        PortfolioModel {
            cache: if self.cache.contains_key(slot) {
                self.cache.insert(slot, ranked(rows_unnamed(self.cache[slot], slots) + fresh))
            } else {
                self.cache
            },
            rows: if address == shown && allowed.contains(network) {
                ranked(rows_unlisted(self.rows, network, slots) + fresh)
            } else {
                self.rows
            },
            ..self
        }
    }

    /// After another identity came on screen: its kept rows are shown, or the
    /// rows stay where nothing at all is kept for it.
    pub open spec fn seeded(self, address: Address, allowed: Seq<NetworkId>) -> PortfolioModel {
        let rows = if any_kept(self.cache, address, allowed) {
            kept_for(self.cache, address, allowed)
        } else {
            self.rows
        };
        PortfolioModel { rows, loading: rows.len() == 0, ..self }
    }

    /// The rows of an account that just came on screen.
    pub open spec fn started(cache: Map<Slot, Seq<LiveToken>>, address: Address) -> PortfolioModel {
        let rows = kept_for(cache, address, builtin_networks(all_chains()));
        PortfolioModel { rows, loading: rows.len() == 0, refreshing: false, cache }
    }
}

impl Portfolio {
    /// The rows of an account that just came on screen: those that the cache
    /// holds for it on the built-in chains.
    pub fn new(cache: Table<Slot, Vec<LiveToken>>, address: Address) -> (r: Portfolio)
        ensures
            r@ == PortfolioModel::started(kept_rows(cache@), address),
    {
        let mut networks: Vec<NetworkId> = Vec::new();
        networks.push(NetworkId::Builtin(Chain::Mainnet));
        networks.push(NetworkId::Builtin(Chain::Optimism));
        networks.push(NetworkId::Builtin(Chain::Base));
        assert(networks@ =~= builtin_networks(all_chains()));
        let mut p = Portfolio { rows: Vec::new(), loading: true, refreshing: false, cache };
        let rows = p.kept(address, &networks);
        p.loading = rows.len() == 0;
        p.rows = rows;
        p
    }

    /// The rows kept for an address on the given networks.
    fn kept(&self, address: Address, networks: &Vec<NetworkId>) -> (r: Vec<LiveToken>)
        ensures
            r@ == kept_for(self@.cache, address, networks@),
    {
        let mut out: Vec<LiveToken> = Vec::new();
        let mut i: usize = 0;
        while i < networks.len()
            invariant
                i <= networks.len(),
                out@ == kept_for(self@.cache, address, networks@.take(i as int)),
            decreases networks.len() - i,
        {
            assert(networks@.take(i + 1).drop_last() =~= networks@.take(i as int));
            let slot = Slot { address, network: networks[i] };
            match self.cache.get(&slot) {
                Some(rows) => {
                    let mut more = copy_rows(rows);
                    out.append(&mut more);
                },
                None => {},
            }
            i += 1;
        }
        assert(networks@.take(networks@.len() as int) =~= networks@);
        out
    }

    /// Tells whether anything is kept for an address on one of the given
    /// networks.
    fn keeps_any(&self, address: Address, networks: &Vec<NetworkId>) -> (b: bool)
        ensures
            b == any_kept(self@.cache, address, networks@),
    {
        let mut i: usize = 0;
        while i < networks.len()
            invariant
                i <= networks.len(),
                forall|j: int|
                    0 <= j < i ==> !self@.cache.contains_key(
                        Slot { address, network: #[trigger] networks@[j] },
                    ),
            decreases networks.len() - i,
        {
            let slot = Slot { address, network: networks[i] };
            if self.cache.contains(&slot) {
                assert(self@.cache.contains_key(Slot { address, network: networks@[i as int] }));
                return true;
            }
            i += 1;
        }
        false
    }

    /// The user asked for fresh balances: rows that are no longer in scope go,
    /// and the others stay until fresh ones come.
    pub fn refresh(&mut self, allowed: &Vec<NetworkId>)
        ensures
            final(self)@ == old(self)@.refreshed(allowed@),
    {
        retain(
            &mut self.rows,
            (|t: &LiveToken| -> (b: bool)
                ensures
                    b == allowed@.contains(t.chain),
            {
                has_network(allowed, t.chain)
            }),
            Ghost(|t: LiveToken| allowed@.contains(t.chain)),
        );
        self.loading = self.rows.len() == 0;
        self.refreshing = true;
    }

    /// Shows the rows kept for the identity that came on screen.
    pub fn seed(&mut self, address: Address, allowed: &Vec<NetworkId>)
        ensures
            final(self)@ == old(self)@.seeded(address, allowed@),
    {
        if self.keeps_any(address, allowed) {
            let rows = self.kept(address, allowed);
            self.rows = rows;
        }
        self.loading = self.rows.len() == 0;
    }

    /// The rows of an address and a network came, or failed to. They are kept
    /// for that address in any case; they are shown only where the address is
    /// the one on screen and the network is in scope.
    pub fn fetch_done(
        &mut self,
        address: Address,
        network: NetworkId,
        result: Option<Vec<LiveToken>>,
        shown: Address,
        allowed: &Vec<NetworkId>,
    )
        ensures
            final(self)@ == old(self)@.fetched(
                address,
                network,
                match result {
                    Some(t) => Some(t@),
                    None => None,
                },
                shown,
                allowed@,
            ),
    {
        let ghost before = self@;
        let live = address == shown && has_network(allowed, network);
        match result {
            Some(tokens) => {
                let mut tokens = tokens;
                retain(
                    &mut tokens,
                    (|t: &LiveToken| -> (b: bool)
                        ensures
                            b == (t.chain == network),
                    {
                        t.chain == network
                    }),
                    Ghost(|t: LiveToken| t.chain == network),
                );
                let kept = copy_rows(&tokens);
                self.cache.insert(Slot { address, network }, kept);
                assert(self@.cache =~= before.cache.insert(Slot { address, network }, kept@));
                if live {
                    retain(
                        &mut self.rows,
                        (|t: &LiveToken| -> (b: bool)
                            ensures
                                b == (t.chain != network),
                        {
                            t.chain != network
                        }),
                        Ghost(|t: LiveToken| t.chain != network),
                    );
                    self.rows.append(&mut tokens);
                    sort_portfolio_rows(&mut self.rows);
                }
            },
            None => {},
        }
        if live {
            self.loading = false;
            self.refreshing = false;
        }
    }

    /// Fresh balances of the tokens of a filled order came. They replace those
    /// tokens' rows and no others, on screen and among the kept rows.
    pub fn swap_refetched(
        &mut self,
        address: Address,
        network: NetworkId,
        slots: &Vec<Option<Address>>,
        tokens: Vec<LiveToken>,
        shown: Address,
        allowed: &Vec<NetworkId>,
    )
        ensures
            final(self)@ == old(self)@.swapped(
                address,
                network,
                slots@,
                tokens@,
                shown,
                allowed@,
            ),
    {
        let ghost before = self@;
        let mut tokens = tokens;
        retain(
            &mut tokens,
            (|t: &LiveToken| -> (b: bool)
                ensures
                    b == (t.chain == network && slots@.contains(t.contract)),
            {
                t.chain == network && has_slot(slots, t.contract)
            }),
            Ghost(|t: LiveToken| t.chain == network && slots@.contains(t.contract)),
        );
        let slot = Slot { address, network };
        let kept: Option<Vec<LiveToken>> = match self.cache.get(&slot) {
            Some(rows) => {
                assert(before.cache[slot] == rows@);
                Some(copy_rows(rows))
            },
            None => None,
        };
        match kept {
            Some(rows) => {
                let mut rows = rows;
                retain(
                    &mut rows,
                    (|t: &LiveToken| -> (b: bool)
                        ensures
                            b == !slots@.contains(t.contract),
                    {
                        !has_slot(slots, t.contract)
                    }),
                    Ghost(|t: LiveToken| !slots@.contains(t.contract)),
                );
                let mut fresh = copy_rows(&tokens);
                rows.append(&mut fresh);
                sort_portfolio_rows(&mut rows);
                self.cache.insert(slot, rows);
                assert(self@.cache =~= before.cache.insert(slot, rows@));
            },
            None => {},
        }
        if address == shown && has_network(allowed, network) {
            retain(
                &mut self.rows,
                (|t: &LiveToken| -> (b: bool)
                    ensures
                        b == !(t.chain == network && slots@.contains(t.contract)),
                {
                    !(t.chain == network && has_slot(slots, t.contract))
                }),
                Ghost(|t: LiveToken| !(t.chain == network && slots@.contains(t.contract))),
            );
            self.rows.append(&mut tokens);
            sort_portfolio_rows(&mut self.rows);
        }
    }
}

// ── sending ─────────────────────────────────────────────────────────────────

/// A row, as far as sending it is concerned.
pub open spec fn holding_of(t: LiveToken) -> Holding {
    Holding {
        balance_raw: t.balance_raw,
        decimals: t.decimals,
        contract: t.contract,
        balance: t.balance,
    }
}

/// A row, as far as sending it is concerned.
pub fn holding(t: &LiveToken) -> (r: Holding)
    ensures
        r == holding_of(*t),
{
    Holding {
        balance_raw: t.balance_raw,
        decimals: t.decimals,
        contract: t.contract,
        balance: t.balance.clone(),
    }
}

// ── laws ────────────────────────────────────────────────────────────────────

/// Whether every row is on a network that is in scope.
pub open spec fn all_within(s: Seq<LiveToken>, allowed: Seq<NetworkId>) -> bool {
    forall|t: LiveToken| s.contains(t) ==> allowed.contains(#[trigger] t.chain)
}

/// Whether every kept row is on the network it is kept under.
pub open spec fn well_kept(cache: Map<Slot, Seq<LiveToken>>) -> bool {
    forall|k: Slot, t: LiveToken|
        #![trigger cache[k], t.chain]
        cache.contains_key(k) && cache[k].contains(t) ==> t.chain == k.network
}

/// Balances of an address that is not on screen, or of a network that is out of
/// scope, never change what is on screen.
pub proof fn law_stale_balances_stay_off_screen(
    m: PortfolioModel,
    address: Address,
    network: NetworkId,
    fetched: Option<Seq<LiveToken>>,
    slots: Seq<Option<Address>>,
    tokens: Seq<LiveToken>,
    shown: Address,
    allowed: Seq<NetworkId>,
)
    requires
        address != shown || !allowed.contains(network),
    ensures
        ({
            let a = m.fetched(address, network, fetched, shown, allowed);
            &&& a.rows == m.rows
            &&& a.loading == m.loading
            &&& a.refreshing == m.refreshing
        }),
        m.swapped(address, network, slots, tokens, shown, allowed).rows == m.rows,
{
}

/// Balances are kept for the address and the network that they were asked for,
/// and for no other.
pub proof fn law_balances_are_kept_where_they_belong(
    m: PortfolioModel,
    address: Address,
    network: NetworkId,
    fetched: Option<Seq<LiveToken>>,
    slots: Seq<Option<Address>>,
    tokens: Seq<LiveToken>,
    shown: Address,
    allowed: Seq<NetworkId>,
    other: Slot,
)
    ensures
        ({
            let a = m.fetched(address, network, fetched, shown, allowed).cache;
            let b = m.swapped(address, network, slots, tokens, shown, allowed).cache;
            let own = Slot { address, network };
            &&& other != own ==> a.contains_key(other) == m.cache.contains_key(other)
            &&& other != own && a.contains_key(other) ==> a[other] == m.cache[other]
            &&& other != own ==> b.contains_key(other) == m.cache.contains_key(other)
            &&& other != own && b.contains_key(other) ==> b[other] == m.cache[other]
            &&& fetched is Some ==> a.contains_key(own) && a[own] == rows_on(fetched->0, network)
        }),
{
}

/// Fresh balances on screen replace those of their network and of no other.
pub proof fn law_fetch_replaces_its_network(
    m: PortfolioModel,
    network: NetworkId,
    tokens: Seq<LiveToken>,
    shown: Address,
    allowed: Seq<NetworkId>,
    t: LiveToken,
)
    requires
        allowed.contains(network),
    ensures
        m.fetched(shown, network, Some(tokens), shown, allowed).rows.contains(t) == if t.chain
            == network {
            tokens.contains(t)
        } else {
            m.rows.contains(t)
        },
{
    let off = rows_off(m.rows, network);
    let on = rows_on(tokens, network);
    lemma_ranked_contains(off + on, t);
    lemma_filter_contains(m.rows, |t: LiveToken| t.chain != network, t);
    lemma_filter_contains(tokens, |t: LiveToken| t.chain == network, t);
    lemma_sum_contains(off, on, t);
}

/// The balances of a filled order replace those of its two tokens and of no
/// other.
pub proof fn law_swap_replaces_its_tokens(
    m: PortfolioModel,
    network: NetworkId,
    slots: Seq<Option<Address>>,
    tokens: Seq<LiveToken>,
    shown: Address,
    allowed: Seq<NetworkId>,
    t: LiveToken,
)
    requires
        allowed.contains(network),
    ensures
        m.swapped(shown, network, slots, tokens, shown, allowed).rows.contains(t) == if t.chain
            == network && slots.contains(t.contract) {
            tokens.contains(t)
        } else {
            m.rows.contains(t)
        },
{
    let off = rows_unlisted(m.rows, network, slots);
    let on = rows_listed(tokens, network, slots);
    lemma_ranked_contains(off + on, t);
    lemma_filter_contains(
        m.rows,
        |t: LiveToken| !(t.chain == network && slots.contains(t.contract)),
        t,
    );
    lemma_filter_contains(
        tokens,
        |t: LiveToken| t.chain == network && slots.contains(t.contract),
        t,
    );
    lemma_sum_contains(off, on, t);
}

/// What two lists hold, their sum holds, and nothing else.
proof fn lemma_sum_contains<T>(a: Seq<T>, b: Seq<T>, x: T)
    ensures
        (a + b).contains(x) == (a.contains(x) || b.contains(x)),
{
    let s = a + b;
    if a.contains(x) {
        let i = choose|i: int| 0 <= i < a.len() && a[i] == x;
        assert(s[i] == x);
    }
    if b.contains(x) {
        let i = choose|i: int| 0 <= i < b.len() && b[i] == x;
        assert(s[a.len() + i] == x);
    }
    if s.contains(x) {
        let i = choose|i: int| 0 <= i < s.len() && s[i] == x;
        if i < a.len() {
            assert(a[i] == x);
        } else {
            assert(b[i - a.len()] == x);
        }
    }
}

/// Rows on screen stay within scope, and kept rows stay under their network,
/// whatever balances come.
pub proof fn law_rows_stay_within_scope(
    m: PortfolioModel,
    address: Address,
    network: NetworkId,
    fetched: Option<Seq<LiveToken>>,
    slots: Seq<Option<Address>>,
    tokens: Seq<LiveToken>,
    shown: Address,
    allowed: Seq<NetworkId>,
)
    requires
        all_within(m.rows, allowed),
        well_kept(m.cache),
    ensures
        all_within(m.fetched(address, network, fetched, shown, allowed).rows, allowed),
        well_kept(m.fetched(address, network, fetched, shown, allowed).cache),
        all_within(m.swapped(address, network, slots, tokens, shown, allowed).rows, allowed),
        well_kept(m.swapped(address, network, slots, tokens, shown, allowed).cache),
{
    let a = m.fetched(address, network, fetched, shown, allowed);
    let b = m.swapped(address, network, slots, tokens, shown, allowed);
    let own = Slot { address, network };
    assert forall|t: LiveToken| a.rows.contains(t) implies allowed.contains(
        #[trigger] t.chain,
    ) by {
        if address == shown && allowed.contains(network) && fetched is Some {
            law_fetch_replaces_its_network(m, network, fetched->0, shown, allowed, t);
        }
    }
    assert forall|t: LiveToken| b.rows.contains(t) implies allowed.contains(
        #[trigger] t.chain,
    ) by {
        if address == shown && allowed.contains(network) {
            law_swap_replaces_its_tokens(m, network, slots, tokens, shown, allowed, t);
        }
    }
    assert forall|k: Slot, t: LiveToken|
        #![trigger a.cache[k], t.chain]
        a.cache.contains_key(k) && a.cache[k].contains(t) implies t.chain == k.network by {
        if k == own && fetched is Some {
            lemma_filter_contains(fetched->0, |t: LiveToken| t.chain == network, t);
        } else {
            assert(m.cache[k].contains(t));
        }
    }
    assert forall|k: Slot, t: LiveToken|
        #![trigger b.cache[k], t.chain]
        b.cache.contains_key(k) && b.cache[k].contains(t) implies t.chain == k.network by {
        if k == own && m.cache.contains_key(own) {
            let off = rows_unnamed(m.cache[own], slots);
            let on = rows_listed(tokens, network, slots);
            lemma_ranked_contains(off + on, t);
            lemma_sum_contains(off, on, t);
            lemma_filter_contains(m.cache[own], |t: LiveToken| !slots.contains(t.contract), t);
            lemma_filter_contains(
                tokens,
                |t: LiveToken| t.chain == network && slots.contains(t.contract),
                t,
            );
        } else {
            assert(m.cache[k].contains(t));
        }
    }
}

/// A refresh drops the rows that went out of scope and keeps the others.
pub proof fn law_refresh_drops_what_left_scope(
    m: PortfolioModel,
    allowed: Seq<NetworkId>,
    t: LiveToken,
)
    ensures
        m.refreshed(allowed).rows.contains(t) == (m.rows.contains(t) && allowed.contains(t.chain)),
        all_within(m.refreshed(allowed).rows, allowed),
{
    lemma_filter_contains(m.rows, |t: LiveToken| allowed.contains(t.chain), t);
    assert forall|x: LiveToken| m.refreshed(allowed).rows.contains(x) implies allowed.contains(
        #[trigger] x.chain,
    ) by {
        lemma_filter_contains(m.rows, |t: LiveToken| allowed.contains(t.chain), x);
    }
}

/// Where something is kept for the identity that comes on screen, what is shown
/// is what was kept for it on the networks in scope.
pub proof fn law_seed_shows_what_was_kept(
    cache: Map<Slot, Seq<LiveToken>>,
    address: Address,
    networks: Seq<NetworkId>,
    t: LiveToken,
)
    ensures
        kept_for(cache, address, networks).contains(t) <==> exists|i: int|
            0 <= i < networks.len() && cache.contains_key(
                Slot { address, network: #[trigger] networks[i] },
            ) && cache[Slot { address, network: networks[i] }].contains(t),
    decreases networks.len(),
{
    if networks.len() > 0 {
        let front = networks.drop_last();
        law_seed_shows_what_was_kept(cache, address, front, t);
        let slot = Slot { address, network: networks.last() };
        if cache.contains_key(slot) {
            lemma_sum_contains(kept_for(cache, address, front), cache[slot], t);
            if cache[slot].contains(t) {
                assert(networks[networks.len() - 1] == networks.last());
            }
        }
        if kept_for(cache, address, front).contains(t) {
            let i = choose|i: int|
                0 <= i < front.len() && cache.contains_key(
                    Slot { address, network: #[trigger] front[i] },
                ) && cache[Slot { address, network: front[i] }].contains(t);
            assert(networks[i] == front[i]);
        }
        if exists|i: int|
            0 <= i < networks.len() && cache.contains_key(
                Slot { address, network: #[trigger] networks[i] },
            ) && cache[Slot { address, network: networks[i] }].contains(t) {
            let i = choose|i: int|
                0 <= i < networks.len() && cache.contains_key(
                    Slot { address, network: #[trigger] networks[i] },
                ) && cache[Slot { address, network: networks[i] }].contains(t);
            if i < front.len() {
                assert(front[i] == networks[i]);
            }
        }
    } else {
        assert(!kept_for(cache, address, networks).contains(t));
    }
}

} // verus!
