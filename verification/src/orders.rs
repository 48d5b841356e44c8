//! The swap orders that the dashboard follows.

use vstd::prelude::*;

use crate::lists::{lemma_filter_contains, retain};
use crate::ranking::{in_order, law_ranked, lemma_ranked_contains, rank, ranked, Ranked};
use crate::text::{
    can_cut, chars_of, comes_before, cut_middle, join2, lemma_before_comparable,
    lemma_before_one_way, middle_cut, piece, same_text, text_before,
};
use crate::types::{
    all_hex, hex_digit_value, short_address, short_address_of, unprefixed, Address, Amount, Chain,
};

verus! {

/// Which surface an order was placed from.
#[derive(Debug, Clone, Copy, PartialEq, Eq, Structural)]
pub enum CowHost {
    /// The blocking swap dialog.
    Modal,
    /// The Apps pane.
    Apps,
}

/// What has become of an order.
#[derive(Debug, Clone, Copy, PartialEq, Eq, Structural)]
pub enum OrderStatus {
    Open,
    PresignaturePending,
    Fulfilled,
    Cancelled,
    Expired,
}

impl OrderStatus {
    pub open spec fn is_over(self) -> bool {
        self == OrderStatus::Fulfilled || self == OrderStatus::Cancelled || self
            == OrderStatus::Expired
    }

    /// Tells whether nothing more can become of the order.
    pub fn is_terminal(self) -> (b: bool)
        ensures
            b == self.is_over(),
    {
        match self {
            OrderStatus::Fulfilled => true,
            OrderStatus::Cancelled => true,
            OrderStatus::Expired => true,
            _ => false,
        }
    }
}

/// Which of its two amounts an order fixes.
#[derive(Debug, Clone, Copy, PartialEq, Eq, Structural)]
pub enum OrderKind {
    Sell,
    Buy,
}

/// An order that the dashboard follows.
#[derive(Debug)]
pub struct TrackedOrder {
    pub uid: String,
    pub chain: Chain,
    pub owner: Address,
    pub kind: OrderKind,
    pub sell_token: Address,
    pub buy_token: Address,
    pub sell_symbol: String,
    pub buy_symbol: String,
    pub sell_amount: Amount,
    /// The least that is bought.
    pub buy_amount: Amount,
    pub sell_decimals: u8,
    pub buy_decimals: u8,
    /// When the order lapses, in Unix seconds.
    pub valid_to: u32,
    pub status: OrderStatus,
    /// What was sold and bought.
    pub executed: Option<(Amount, Amount)>,
    /// The order sells native coin, through the EthFlow contract.
    pub is_ethflow: bool,
}

impl Clone for TrackedOrder {
    fn clone(&self) -> (r: Self)
        ensures
            r == *self,
    {
        TrackedOrder {
            uid: self.uid.clone(),
            chain: self.chain,
            owner: self.owner,
            kind: self.kind,
            sell_token: self.sell_token,
            buy_token: self.buy_token,
            sell_symbol: self.sell_symbol.clone(),
            buy_symbol: self.buy_symbol.clone(),
            sell_amount: self.sell_amount,
            buy_amount: self.buy_amount,
            sell_decimals: self.sell_decimals,
            buy_decimals: self.buy_decimals,
            valid_to: self.valid_to,
            status: self.status,
            executed: self.executed,
            is_ethflow: self.is_ethflow,
        }
    }
}

/// The order that lapses last comes first; of two that lapse together, the one
/// with the later identifier.
impl Ranked for TrackedOrder {
    open spec fn outranks(self, other: Self) -> bool {
        self.valid_to > other.valid_to || (self.valid_to == other.valid_to && comes_before(
            other.uid@,
            self.uid@,
        ))
    }

    fn is_above(&self, other: &Self) -> (b: bool) {
        self.valid_to > other.valid_to || (self.valid_to == other.valid_to && text_before(
            other.uid.as_str(),
            self.uid.as_str(),
        ))
    }

    proof fn one_way(a: Self, b: Self) {
        lemma_before_one_way(a.uid@, b.uid@);
    }

    proof fn comparable(a: Self, b: Self, c: Self) {
        lemma_before_comparable(c.uid@, b.uid@, a.uid@);
    }
}

impl TrackedOrder {
    /// The order after news of it came. A fill is kept where the news has none.
    pub open spec fn applied(self, status: OrderStatus, executed: Option<(Amount, Amount)>) -> Self {
        TrackedOrder {
            status,
            executed: match executed {
                Some(_) => executed,
                None => self.executed,
            },
            ..self
        }
    }

    /// Takes in news of the order. A fill is kept where the news has none.
    pub fn apply_status(&mut self, status: OrderStatus, executed: Option<(Amount, Amount)>)
        ensures
            *final(self) == old(self).applied(status, executed),
    {
        self.status = status;
        if executed.is_some() {
            self.executed = executed;
        }
    }
}

// ── the list ────────────────────────────────────────────────────────────────

/// The place of the first order with the given identifier; the number of orders
/// where there is none.
pub open spec fn place_of(s: Seq<TrackedOrder>, uid: Seq<char>) -> int
    decreases s.len(),
{
    if s.len() == 0 || s[0].uid@ == uid {
        0
    } else {
        1 + place_of(s.drop_first(), uid)
    }
}

/// Whether an order with the given identifier is followed.
pub open spec fn follows(s: Seq<TrackedOrder>, uid: Seq<char>) -> bool {
    place_of(s, uid) < s.len()
}

/// The first order with the given identifier stands where `place_of` says.
pub proof fn lemma_place(s: Seq<TrackedOrder>, uid: Seq<char>)
    ensures
        0 <= place_of(s, uid) <= s.len(),
        place_of(s, uid) < s.len() ==> s[place_of(s, uid)].uid@ == uid,
        forall|j: int| 0 <= j < place_of(s, uid) ==> (#[trigger] s[j]).uid@ != uid,
    decreases s.len(),
{
    if s.len() > 0 && s[0].uid@ != uid {
        lemma_place(s.drop_first(), uid);
        assert forall|j: int| 0 <= j < place_of(s, uid) implies (#[trigger] s[j]).uid@ != uid by {
            if j > 0 {
                assert(s.drop_first()[j - 1].uid@ != uid);
            }
        }
    }
}

/// No identifier stands twice.
pub open spec fn uids_distinct(s: Seq<TrackedOrder>) -> bool {
    forall|i: int, j: int|
        0 <= i < j < s.len() ==> (#[trigger] s[i]).uid@ != (#[trigger] s[j]).uid@
}

/// The list with a new order, unless it is followed already.
pub open spec fn with_order(s: Seq<TrackedOrder>, o: TrackedOrder) -> Seq<TrackedOrder> {
    if follows(s, o.uid@) {
        s
    } else {
        s.push(o)
    }
}

/// The list after news of an order came.
pub open spec fn with_news(
    s: Seq<TrackedOrder>,
    uid: Seq<char>,
    status: OrderStatus,
    executed: Option<(Amount, Amount)>,
) -> Seq<TrackedOrder> {
    if follows(s, uid) {
        s.update(place_of(s, uid), s[place_of(s, uid)].applied(status, executed))
    } else {
        s
    }
}

/// The list after an order was cancelled.
pub open spec fn with_cancelled(s: Seq<TrackedOrder>, uid: Seq<char>) -> Seq<TrackedOrder> {
    with_news(s, uid, OrderStatus::Cancelled, None)
}

/// The list with an order that was fetched: a followed one gets its news, and
/// any other is added.
pub open spec fn with_fetched(s: Seq<TrackedOrder>, o: TrackedOrder) -> Seq<TrackedOrder> {
    if follows(s, o.uid@) {
        with_news(s, o.uid@, o.status, o.executed)
    } else {
        s.push(o)
    }
}

/// The list with all orders that were fetched.
pub open spec fn with_all_fetched(s: Seq<TrackedOrder>, f: Seq<TrackedOrder>) -> Seq<TrackedOrder>
    decreases f.len(),
{
    if f.len() == 0 {
        s
    } else {
        with_fetched(with_all_fetched(s, f.drop_last()), f.last())
    }
}

/// The orders of an owner, the one that lapses last first.
pub open spec fn orders_of(s: Seq<TrackedOrder>, owner: Address) -> Seq<TrackedOrder> {
    ranked(s.filter(|o: TrackedOrder| o.owner == owner))
}

/// The orders that something can still become of.
pub open spec fn undecided(s: Seq<TrackedOrder>) -> Seq<TrackedOrder> {
    s.filter(|o: TrackedOrder| !o.status.is_over())
}

/// A token whose balance is to be read.
#[derive(Debug)]
pub struct DiscoveredToken {
    pub symbol: String,
    pub name: String,
    pub address: Address,
    pub decimals: u8,
}

/// What is to be read after an order was filled.
#[derive(Debug)]
pub struct SwapFillRefresh {
    pub chain: Chain,
    pub owner: Address,
    /// The rows to replace; native coin is `None`.
    pub slots: Vec<Option<Address>>,
    /// The token contracts to ask.
    pub fetch: Vec<DiscoveredToken>,
}

/// What a `SwapFillRefresh` holds.
pub struct FillModel {
    pub chain: Chain,
    pub owner: Address,
    pub slots: Seq<Option<Address>>,
    pub fetch: Seq<DiscoveredToken>,
}

impl View for SwapFillRefresh {
    type V = FillModel;

    open spec fn view(&self) -> FillModel {
        FillModel {
            chain: self.chain,
            owner: self.owner,
            slots: self.slots@,
            fetch: self.fetch@,
        }
    }
}

impl TrackedOrder {
    /// The row that the sold token has in the portfolio.
    pub open spec fn sell_slot(self) -> Option<Address> {
        if self.is_ethflow {
            None
        } else {
            Some(self.sell_token)
        }
    }

    /// What is to be read where news turn this order into `after`: its two
    /// tokens, if it was undecided and is now filled.
    pub open spec fn fill(self, after: TrackedOrder) -> Option<FillModel> {
        if !self.status.is_over() && after.status == OrderStatus::Fulfilled {
            let bought = DiscoveredToken {
                symbol: self.buy_symbol,
                name: self.buy_symbol,
                address: self.buy_token,
                decimals: self.buy_decimals,
            };
            let sold = DiscoveredToken {
                symbol: self.sell_symbol,
                name: self.sell_symbol,
                address: self.sell_token,
                decimals: self.sell_decimals,
            };
            Some(
                FillModel {
                    chain: self.chain,
                    owner: self.owner,
                    slots: seq![Some(self.buy_token), self.sell_slot()],
                    fetch: if self.is_ethflow {
                        seq![bought]
                    } else {
                        seq![bought, sold]
                    },
                },
            )
        } else {
            None
        }
    }

    /// What is to be read after the order was filled.
    fn fill_refresh(&self) -> (r: SwapFillRefresh)
        ensures
            ({
                let undecided = TrackedOrder { status: OrderStatus::Open, ..*self };
                let filled = TrackedOrder { status: OrderStatus::Fulfilled, ..*self };
                undecided.fill(filled) == Some(r@)
            }),
    {
        let mut slots: Vec<Option<Address>> = Vec::new();
        slots.push(Some(self.buy_token));
        let mut fetch: Vec<DiscoveredToken> = Vec::new();
        fetch.push(
            DiscoveredToken {
                symbol: self.buy_symbol.clone(),
                name: self.buy_symbol.clone(),
                address: self.buy_token,
                decimals: self.buy_decimals,
            },
        );
        if self.is_ethflow {
            slots.push(None);
        } else {
            slots.push(Some(self.sell_token));
            fetch.push(
                DiscoveredToken {
                    symbol: self.sell_symbol.clone(),
                    name: self.sell_symbol.clone(),
                    address: self.sell_token,
                    decimals: self.sell_decimals,
                },
            );
        }
        let r = SwapFillRefresh { chain: self.chain, owner: self.owner, slots, fetch };
        let ghost want = (TrackedOrder { status: OrderStatus::Open, ..*self }).fill(
            TrackedOrder { status: OrderStatus::Fulfilled, ..*self },
        )->0;
        assert(r@.slots =~= want.slots);
        assert(r@.fetch =~= want.fetch);
        r
    }
}

/// The orders that the dashboard follows, of all identities.
#[derive(Debug)]
pub struct OrderBook {
    pub orders: Vec<TrackedOrder>,
}

impl View for OrderBook {
    type V = Seq<TrackedOrder>;

    open spec fn view(&self) -> Seq<TrackedOrder> {
        self.orders@
    }
}

impl OrderBook {
    /// No order.
    pub fn new() -> (r: OrderBook)
        ensures
            r@ == Seq::<TrackedOrder>::empty(),
    {
        OrderBook { orders: Vec::new() }
    }

    /// The place of the order with the given identifier.
    pub fn position(&self, uid: &str) -> (r: Option<usize>)
        ensures
            match r {
                Some(i) => i == place_of(self@, uid@) && i < self@.len(),
                None => !follows(self@, uid@),
            },
    {
        let mut i: usize = 0;
        assert(self.orders@.skip(0) =~= self.orders@);
        while i < self.orders.len()
            invariant
                i <= self.orders.len(),
                place_of(self@, uid@) == i + place_of(self@.skip(i as int), uid@),
            decreases self.orders.len() - i,
        {
            assert(self@.skip(i as int).drop_first() =~= self@.skip(i + 1));
            if same_text(self.orders[i].uid.as_str(), uid) {
                return Some(i);
            }
            i += 1;
        }
        None
    }

    /// Follows an order that was just placed, unless it is followed already.
    pub fn place(&mut self, o: TrackedOrder)
        ensures
            final(self)@ == with_order(old(self)@, o),
    {
        match self.position(o.uid.as_str()) {
            Some(_) => {},
            None => {
                self.orders.push(o);
            },
        }
    }

    /// Takes in news of an order; says what is to be read where that order is
    /// filled now.
    pub fn status_came(
        &mut self,
        uid: &str,
        status: OrderStatus,
        executed: Option<(Amount, Amount)>,
    ) -> (r: Option<SwapFillRefresh>)
        ensures
            final(self)@ == with_news(old(self)@, uid@, status, executed),
            match r {
                Some(f) => follows(old(self)@, uid@) && ({
                    let o = old(self)@[place_of(old(self)@, uid@)];
                    o.fill(o.applied(status, executed)) == Some(f@)
                }),
                None => follows(old(self)@, uid@) ==> ({
                    let o = old(self)@[place_of(old(self)@, uid@)];
                    o.fill(o.applied(status, executed)) is None
                }),
            },
    {
        match self.position(uid) {
            Some(i) => {
                let was_over = self.orders[i].status.is_terminal();
                let mut o = self.orders[i].clone();
                o.apply_status(status, executed);
                let filled = match o.status {
                    OrderStatus::Fulfilled => !was_over,
                    _ => false,
                };
                let refresh = if filled {
                    Some(o.fill_refresh())
                } else {
                    None
                };
                self.orders.set(i, o);
                refresh
            },
            None => None,
        }
    }

    /// Marks an order as cancelled.
    pub fn cancelled(&mut self, uid: &str)
        ensures
            final(self)@ == with_cancelled(old(self)@, uid@),
    {
        match self.position(uid) {
            Some(i) => {
                let mut o = self.orders[i].clone();
                o.apply_status(OrderStatus::Cancelled, None);
                self.orders.set(i, o);
            },
            None => {},
        }
    }

    /// Takes in the orders that were fetched: a followed one gets its news, and
    /// any other is added.
    pub fn take_fetched(&mut self, fetched: Vec<TrackedOrder>)
        ensures
            final(self)@ == with_all_fetched(old(self)@, fetched@),
    {
        let ghost start = self@;
        let mut i: usize = 0;
        while i < fetched.len()
            invariant
                i <= fetched.len(),
                self@ == with_all_fetched(start, fetched@.take(i as int)),
            decreases fetched.len() - i,
        {
            assert(fetched@.take(i + 1).drop_last() =~= fetched@.take(i as int));
            let o = fetched[i].clone();
            match self.position(o.uid.as_str()) {
                Some(k) => {
                    let mut known = self.orders[k].clone();
                    known.apply_status(o.status, o.executed);
                    self.orders.set(k, known);
                },
                None => {
                    self.orders.push(o);
                },
            }
            i += 1;
        }
        assert(fetched@.take(fetched@.len() as int) =~= fetched@);
    }

    /// The orders of an owner, the one that lapses last first.
    pub fn active_cow_orders(&self, owner: Address) -> (r: Vec<TrackedOrder>)
        ensures
            r@ == orders_of(self@, owner),
    {
        let mut v = copy_orders(&self.orders);
        retain(
            &mut v,
            (|o: &TrackedOrder| -> (b: bool)
                ensures
                    b == (o.owner == owner),
            {
                o.owner == owner
            }),
            Ghost(|o: TrackedOrder| o.owner == owner),
        );
        rank(&mut v);
        v
    }

    /// The orders that something can still become of: they are asked for again
    /// and again.
    pub fn polled(&self) -> (r: Vec<TrackedOrder>)
        ensures
            r@ == undecided(self@),
    {
        let mut v = copy_orders(&self.orders);
        retain(
            &mut v,
            (|o: &TrackedOrder| -> (b: bool)
                ensures
                    b == !o.status.is_over(),
            {
                !o.status.is_terminal()
            }),
            Ghost(|o: TrackedOrder| !o.status.is_over()),
        );
        v
    }
}

/// Copies orders.
fn copy_orders(v: &Vec<TrackedOrder>) -> (r: Vec<TrackedOrder>)
    ensures
        r@ == v@,
{
    let mut out: Vec<TrackedOrder> = Vec::new();
    let mut i: usize = 0;
    while i < v.len()
        invariant
            i <= v.len(),
            out@ == v@.take(i as int),
        decreases v.len() - i,
    {
        out.push(v[i].clone());
        assert(v@.take(i + 1) =~= v@.take(i as int).push(v@[i as int]));
        i += 1;
    }
    assert(v@.take(v@.len() as int) =~= v@);
    out
}

// ── identifiers ─────────────────────────────────────────────────────────────

/// An order identifier with its middle left out.
pub fn short_order_uid(uid: &str) -> (r: String)
    requires
        can_cut(uid@, 14, 8, 6),
    ensures
        r@ == middle_cut(uid@, 14, 8, 6),
{
    cut_middle(uid, 14, 8, 6)
}

/// How many bytes an order identifier has.
pub const UID_BYTES: usize = 56;

/// The bytes that a hexadecimal text writes, two digits each.
pub open spec fn hex_bytes(s: Seq<char>) -> Seq<u8> {
    Seq::new(
        s.len() / 2,
        |i: int| (16 * hex_digit_value(s[2 * i])->0 + hex_digit_value(s[2 * i + 1])->0) as u8,
    )
}

/// What is wrong with a text that is no hexadecimal text, in words.
pub uninterp spec fn hex_refusal(s: Seq<char>) -> Seq<char>;

/// `alloy`'s `hex::decode` reads an even number of hexadecimal digits of either
/// case, behind `0x`, `0X` or nothing, as the bytes they write; anything else
/// it refuses, with words that depend on the text alone.
#[verifier::external_body]
fn hex_decode(s: &str) -> (r: Result<Vec<u8>, String>)
    ensures
        match r {
            Ok(v) => s@.len() % 2 == 0 && all_hex(unprefixed(s@)) && v@ == hex_bytes(
                unprefixed(s@),
            ),
            Err(e) => !(s@.len() % 2 == 0 && all_hex(unprefixed(s@))) && e@ == hex_refusal(s@),
        },
{
    alloy::hex::decode(s).map_err(|e| e.to_string())
}

/// An identifier without its leading `0x`.
pub open spec fn uid_digits(s: Seq<char>) -> Seq<char> {
    if s.len() >= 2 && s[0] == '0' && s[1] == 'x' {
        s.skip(2)
    } else {
        s
    }
}

/// The bytes of an order identifier, or why the text is none.
pub open spec fn uid_bytes(s: Seq<char>) -> Result<Seq<u8>, Seq<char>> {
    let d = uid_digits(s);
    if d.len() % 2 == 0 && all_hex(unprefixed(d)) {
        if hex_bytes(unprefixed(d)).len() == UID_BYTES {
            Ok(hex_bytes(unprefixed(d)))
        } else {
            Err("order uid must be 56 bytes"@)
        }
    } else {
        Err("bad order uid: "@ + hex_refusal(d))
    }
}

/// Reads an order identifier.
pub fn parse_order_uid(uid: &str) -> (r: Result<Vec<u8>, String>)
    ensures
        match r {
            Ok(v) => uid_bytes(uid@) == Ok::<Seq<u8>, Seq<char>>(v@),
            Err(e) => uid_bytes(uid@) == Err::<Seq<u8>, Seq<char>>(e@),
        },
{
    let v = chars_of(uid);
    let digits = if v.len() >= 2 && v[0] == '0' && v[1] == 'x' {
        let d = piece(&v, 2, v.len());
        assert(d@ =~= uid@.skip(2));
        d
    } else {
        uid.to_string()
    };
    match hex_decode(digits.as_str()) {
        Ok(b) => if b.len() == UID_BYTES {
            Ok(b)
        } else {
            Err("order uid must be 56 bytes".to_string())
        },
        Err(e) => Err(join2("bad order uid: ", e.as_str())),
    }
}

// ── orders of past sessions ─────────────────────────────────────────────────

/// How many orders of an owner are fetched at a time.
pub const ACCOUNT_ORDERS_LIMIT: u16 = 100;

/// An order as the order book lists it for an account.
#[derive(Debug)]
pub struct AccountOrder {
    pub uid: String,
    pub sell_token: Address,
    pub buy_token: Address,
    pub sell_amount: Amount,
    pub buy_amount: Amount,
    pub valid_to: u32,
    /// Which amount is fixed: `sell` or `buy`.
    pub kind: String,
    pub status: OrderStatus,
    pub executed: Option<(Amount, Amount)>,
    /// Set for an order that sells native coin.
    pub ethflow_data: Option<EthflowOrder>,
}

/// What the order book knows of an order that sells native coin.
#[derive(Debug, Clone, Copy, PartialEq, Eq, Structural)]
pub struct EthflowOrder {
    /// When the order lapses for its user.
    pub user_valid_to: Option<u32>,
}

/// A token that the wallet knows by heart.
#[derive(Debug)]
pub struct CuratedToken {
    pub symbol: String,
    pub address: Address,
    pub decimals: u8,
}

/// The symbol and the decimals of a token: those of the last known token with
/// that address, or else a short address and 18.
pub open spec fn token_known(known: Seq<CuratedToken>, a: Address) -> (Seq<char>, u8)
    decreases known.len(),
{
    if known.len() == 0 {
        (short_address_of(a), 18)
    } else if known.last().address == a {
        (known.last().symbol@, known.last().decimals)
    } else {
        token_known(known.drop_last(), a)
    }
}

/// The symbol and the decimals of a token.
fn resolve(known: &Vec<CuratedToken>, a: Address) -> (r: (String, u8))
    ensures
        (r.0@, r.1) == token_known(known@, a),
{
    let mut i: usize = known.len();
    assert(known@.take(i as int) =~= known@);
    while i > 0
        invariant
            i <= known.len(),
            token_known(known@.take(i as int), a) == token_known(known@, a),
        decreases i,
    {
        assert(known@.take(i as int).drop_last() =~= known@.take(i - 1));
        if known[i - 1].address == a {
            return (known[i - 1].symbol.clone(), known[i - 1].decimals);
        }
        i -= 1;
    }
    (short_address(a), 18)
}

/// Whether an order that was fetched is followed as `t`.
pub open spec fn tracks(
    t: TrackedOrder,
    o: AccountOrder,
    chain: Chain,
    owner: Address,
    known: Seq<CuratedToken>,
) -> bool {
    let sell = if o.ethflow_data is Some {
        ("ETH"@, 18u8)
    } else {
        token_known(known, o.sell_token)
    };
    let buy = token_known(known, o.buy_token);
    &&& t.uid == o.uid
    &&& t.chain == chain
    &&& t.owner == owner
    &&& t.kind == if o.kind@ == "buy"@ {
        OrderKind::Buy
    } else {
        OrderKind::Sell
    }
    &&& t.sell_token == o.sell_token
    &&& t.buy_token == o.buy_token
    &&& t.sell_symbol@ == sell.0
    &&& t.buy_symbol@ == buy.0
    &&& t.sell_amount == o.sell_amount
    &&& t.buy_amount == o.buy_amount
    &&& t.sell_decimals == sell.1
    &&& t.buy_decimals == buy.1
    &&& t.valid_to == match o.ethflow_data {
        Some(e) => match e.user_valid_to {
            Some(v) => v,
            None => o.valid_to,
        },
        None => o.valid_to,
    }
    &&& t.status == o.status
    &&& t.executed == o.executed
    &&& t.is_ethflow == (o.ethflow_data is Some)
}

/// An order that was fetched, as it is followed.
fn track(o: &AccountOrder, chain: Chain, owner: Address, known: &Vec<CuratedToken>) -> (t:
    TrackedOrder)
    ensures
        tracks(t, *o, chain, owner, known@),
{
    let is_ethflow = o.ethflow_data.is_some();
    let (sell_symbol, sell_decimals) = if is_ethflow {
        ("ETH".to_string(), 18u8)
    } else {
        resolve(known, o.sell_token)
    };
    let (buy_symbol, buy_decimals) = resolve(known, o.buy_token);
    let valid_to: u32 = match o.ethflow_data {
        Some(e) => match e.user_valid_to {
            Some(v) => v,
            None => o.valid_to,
        },
        None => o.valid_to,
    };
    TrackedOrder {
        uid: o.uid.clone(),
        chain,
        owner,
        kind: if same_text(o.kind.as_str(), "buy") {
            OrderKind::Buy
        } else {
            OrderKind::Sell
        },
        sell_token: o.sell_token,
        buy_token: o.buy_token,
        sell_symbol,
        buy_symbol,
        sell_amount: o.sell_amount,
        buy_amount: o.buy_amount,
        sell_decimals,
        buy_decimals,
        valid_to,
        status: o.status,
        executed: o.executed,
        is_ethflow,
    }
}

/// The orders that were fetched for an owner, as they are followed. An order that
/// sells native coin is shown as selling ETH, and it is the owner's although the
/// chain knows another.
pub fn account_orders_to_tracked(
    chain: Chain,
    owner: Address,
    orders: &Vec<AccountOrder>,
    known: &Vec<CuratedToken>,
) -> (r: Vec<TrackedOrder>)
    ensures
        r@.len() == orders@.len(),
        forall|i: int|
            0 <= i < r@.len() ==> tracks(#[trigger] r@[i], orders@[i], chain, owner, known@),
{
    let mut out: Vec<TrackedOrder> = Vec::new();
    let mut i: usize = 0;
    while i < orders.len()
        invariant
            i <= orders.len(),
            out@.len() == i,
            forall|j: int|
                0 <= j < i ==> tracks(#[trigger] out@[j], orders@[j], chain, owner, known@),
        decreases orders.len() - i,
    {
        out.push(track(&orders[i], chain, owner, known));
        i += 1;
    }
    out
}

// ── laws ────────────────────────────────────────────────────────────────────

proof fn lemma_news_keeps_uids(
    s: Seq<TrackedOrder>,
    uid: Seq<char>,
    status: OrderStatus,
    executed: Option<(Amount, Amount)>,
)
    requires
        uids_distinct(s),
    ensures
        uids_distinct(with_news(s, uid, status, executed)),
{
    lemma_place(s, uid);
    let t = with_news(s, uid, status, executed);
    assert forall|i: int, j: int| 0 <= i < j < t.len() implies (#[trigger] t[i]).uid@ != (
    #[trigger] t[j]).uid@ by {
        assert(t[i].uid == s[i].uid && t[j].uid == s[j].uid);
    }
}

proof fn lemma_push_keeps_uids(s: Seq<TrackedOrder>, o: TrackedOrder)
    requires
        uids_distinct(s),
        !follows(s, o.uid@),
    ensures
        uids_distinct(s.push(o)),
{
    lemma_place(s, o.uid@);
    let t = s.push(o);
    assert forall|i: int, j: int| 0 <= i < j < t.len() implies (#[trigger] t[i]).uid@ != (
    #[trigger] t[j]).uid@ by {
        assert(t[i] == s[i]);
        if j < s.len() {
            assert(t[j] == s[j]);
        }
    }
}

/// No order is ever followed twice, whatever is placed, cancelled, polled or
/// fetched.
pub proof fn law_orders_are_followed_once(
    s: Seq<TrackedOrder>,
    o: TrackedOrder,
    uid: Seq<char>,
    status: OrderStatus,
    executed: Option<(Amount, Amount)>,
    fetched: Seq<TrackedOrder>,
)
    requires
        uids_distinct(s),
    ensures
        uids_distinct(with_order(s, o)),
        uids_distinct(with_cancelled(s, uid)),
        uids_distinct(with_news(s, uid, status, executed)),
        uids_distinct(with_all_fetched(s, fetched)),
    decreases fetched.len(),
{
    if !follows(s, o.uid@) {
        lemma_push_keeps_uids(s, o);
    }
    lemma_news_keeps_uids(s, uid, OrderStatus::Cancelled, None);
    lemma_news_keeps_uids(s, uid, status, executed);
    if fetched.len() > 0 {
        let front = with_all_fetched(s, fetched.drop_last());
        law_orders_are_followed_once(s, o, uid, status, executed, fetched.drop_last());
        let f = fetched.last();
        if follows(front, f.uid@) {
            lemma_news_keeps_uids(front, f.uid@, f.status, f.executed);
        } else {
            lemma_push_keeps_uids(front, f);
        }
    }
}

/// News of an order change its status and its fill, and nothing else of it; they
/// change no other order.
pub proof fn law_news_touch_one_order(
    s: Seq<TrackedOrder>,
    uid: Seq<char>,
    status: OrderStatus,
    executed: Option<(Amount, Amount)>,
    i: int,
)
    requires
        0 <= i < s.len(),
    ensures
        with_news(s, uid, status, executed).len() == s.len(),
        i != place_of(s, uid) ==> with_news(s, uid, status, executed)[i] == s[i],
        with_news(s, uid, status, executed)[i] == (TrackedOrder {
            status: with_news(s, uid, status, executed)[i].status,
            executed: with_news(s, uid, status, executed)[i].executed,
            ..s[i]
        }),
{
    lemma_place(s, uid);
}

/// Balances are read again for an order at most once: news of a decided order
/// never ask for them, and after news that asked for them the order is decided.
pub proof fn law_fill_is_seen_once(
    o: TrackedOrder,
    status: OrderStatus,
    executed: Option<(Amount, Amount)>,
    later: TrackedOrder,
)
    ensures
        o.fill(o.applied(status, executed)) is Some ==> o.applied(status, executed).status.is_over(),
        o.status.is_over() ==> o.fill(later) is None,
{
}

/// An identity sees its own orders, all of them, and none of another; the one
/// that lapses last comes first.
pub proof fn law_orders_are_scoped_to_their_owner(
    s: Seq<TrackedOrder>,
    owner: Address,
    o: TrackedOrder,
)
    ensures
        orders_of(s, owner).contains(o) == (s.contains(o) && o.owner == owner),
        in_order(orders_of(s, owner)),
{
    let own = s.filter(|o: TrackedOrder| o.owner == owner);
    law_ranked(own);
    lemma_ranked_contains(own, o);
    lemma_filter_contains(s, |o: TrackedOrder| o.owner == owner, o);
}

} // verus!
