//! Swaps: what is asked of the order book, what is shown before anything is
//! signed, and the calls that an order needs on its chain.

use vstd::arithmetic::div_mod::{lemma_fundamental_div_mod, lemma_hoist_over_denominator};
use vstd::prelude::*;

use crate::text::join3;
use crate::types::{
    div, lemma_amount_view, two128, two256, wrapping_mul, Address, Amount, Chain, Hash32,
};

verus! {

// ── drafts and quotes ───────────────────────────────────────────────────────

/// A swap that the user has put together.
#[derive(Debug)]
pub struct SwapDraft {
    pub chain: Chain,
    /// What is sold is the chain's native coin.
    pub is_native: bool,
    pub sell_token: Address,
    pub buy_token: Address,
    pub sell_amount: Amount,
    /// How much less than quoted is accepted, in hundredths of a percent.
    pub slippage_bps: u32,
    pub sell_symbol: String,
    pub buy_symbol: String,
    pub sell_decimals: u8,
    pub buy_decimals: u8,
}

impl Clone for SwapDraft {
    fn clone(&self) -> (r: Self)
        ensures
            r == *self,
    {
        SwapDraft {
            chain: self.chain,
            is_native: self.is_native,
            sell_token: self.sell_token,
            buy_token: self.buy_token,
            sell_amount: self.sell_amount,
            slippage_bps: self.slippage_bps,
            sell_symbol: self.sell_symbol.clone(),
            buy_symbol: self.buy_symbol.clone(),
            sell_decimals: self.sell_decimals,
            buy_decimals: self.buy_decimals,
        }
    }
}

/// The amounts of a quote.
#[derive(Debug, Clone, Copy, PartialEq, Eq, Structural)]
pub struct QuoteParams {
    pub sell_amount: Amount,
    pub buy_amount: Amount,
    pub fee_amount: Amount,
    pub valid_to: u32,
}

/// What the order book answered when it was asked for a quote.
#[derive(Debug, Clone, Copy, PartialEq, Eq, Structural)]
pub struct QuoteResponse {
    pub quote: QuoteParams,
    pub id: Option<i64>,
}

/// The contracts that settle swaps.
#[derive(Debug, Clone, Copy, PartialEq, Eq, Structural)]
pub struct CowContracts {
    /// The contract that takes orders for native coin.
    pub ethflow: Address,
    /// The contract that settles every order.
    pub settlement: Address,
}

/// All that the user parts with: what is sold and the fee.
pub open spec fn sold(q: QuoteParams) -> nat {
    if q.sell_amount@ + q.fee_amount@ < two256() {
        q.sell_amount@ + q.fee_amount@
    } else {
        (two256() - 1) as nat
    }
}

/// All that the user parts with: what is sold and the fee.
pub fn full_sell(q: &QuoteParams) -> (r: Amount)
    ensures
        r@ == sold(*q),
{
    q.sell_amount.saturating_add(&q.fee_amount)
}

/// An amount less the slippage, rounded down.
pub open spec fn slipped(amount: nat, bps: nat) -> nat {
    if bps >= 10000 {
        0
    } else {
        amount * (10000 - bps) as nat / 10000
    }
}

/// An amount less the slippage, rounded down.
pub fn apply_slippage(amount: Amount, bps: u32) -> (r: Amount)
    ensures
        r@ == slipped(amount@, bps as nat),
{
    if bps >= 10000 {
        return Amount::zero();
    }
    let k: u64 = 10000 - bps as u64;
    let q = div(amount, 10000);
    proof {
        lemma_amount_view(amount, amount);
        lemma_amount_view(q, q);
        lemma_fundamental_div_mod(amount@ as int, 10000);
        let a = amount@ as int;
        let n = q@ as int;
        assert(0 <= n * k <= n * 10000) by (nonlinear_arith)
            requires
                0 <= k <= 10000,
                n >= 0,
        ;
        assert(n * 10000 == 10000 * (a / 10000)) by (nonlinear_arith)
            requires
                n == a / 10000,
        ;
        assert((n * k) % two256() as int == n * k);
        assert((n * 10000) % two256() as int == n * 10000);
    }
    let whole = wrapping_mul(q, k);
    let down = wrapping_mul(q, 10000);
    let rest = amount.saturating_sub(&down);
    proof {
        assert(rest@ == amount@ % 10000);
        assert(rest.hi == 0) by (nonlinear_arith)
            requires
                rest@ == rest.hi as nat * two128() + rest.lo as nat,
                rest@ < 10000,
        ;
        assert(rest.lo as nat == rest@);
    }
    let r: u64 = rest.lo as u64;
    assert(0 <= r * k <= 10000 * 10000) by (nonlinear_arith)
        requires
            0 <= r < 10000,
            0 <= k <= 10000,
    ;
    let part: u64 = r * k / 10000;
    proof {
        let a = amount@ as int;
        let n = q@ as int;
        assert(a * k == r * k + (n * k) * 10000) by (nonlinear_arith)
            requires
                a == n * 10000 + r,
        ;
        lemma_hoist_over_denominator((r * k) as int, n * k, 10000);
        assert(part as int == (r * k) as int / 10000);
        assert(a * k / 10000 == part as int + n * k);
        assert(a * k / 10000 <= a) by (nonlinear_arith)
            requires
                0 <= k <= 10000,
                a >= 0,
        ;
    }
    whole.saturating_add(&Amount::of(part as u128))
}

/// What a quote request says.
#[derive(Debug)]
pub struct QuoteRequest {
    pub sell_token: Address,
    pub buy_token: Address,
    pub from: Address,
    pub receiver: Address,
    pub kind: &'static str,
    pub sell_amount_before_fee: Amount,
    /// How long the order is to be valid, in seconds.
    pub valid_for: u32,
    pub app_data: String,
    pub signing_scheme: &'static str,
    pub onchain_order: bool,
    pub partially_fillable: bool,
}

/// Whether this is the quote request for a draft.
pub open spec fn asks_quote(
    r: QuoteRequest,
    draft: SwapDraft,
    user: Address,
    app_data: String,
    contracts: CowContracts,
) -> bool {
    &&& r.sell_token == draft.sell_token
    &&& r.buy_token == draft.buy_token
    &&& r.from == if draft.is_native {
        contracts.ethflow
    } else {
        user
    }
    &&& r.receiver == user
    &&& r.kind@ == "sell"@
    &&& r.sell_amount_before_fee == draft.sell_amount
    &&& r.valid_for == 1800
    &&& r.app_data == app_data
    &&& r.signing_scheme@ == if draft.is_native {
        "eip1271"@
    } else {
        "eip712"@
    }
    &&& r.onchain_order == draft.is_native
    &&& !r.partially_fillable
}

/// The quote request for a draft. Native coin is quoted for the EthFlow contract,
/// which signs by its own code; a token is quoted for the user, who signs. The
/// user receives in either case.
pub fn cow_quote_request(
    draft: &SwapDraft,
    user: Address,
    app_data: String,
    contracts: &CowContracts,
) -> (r: QuoteRequest)
    ensures
        r.sell_token == draft.sell_token,
        r.buy_token == draft.buy_token,
        r.receiver == user,
        r.kind@ == "sell"@,
        r.sell_amount_before_fee == draft.sell_amount,
        r.valid_for == 1800,
        r.app_data == app_data,
        !r.partially_fillable,
        draft.is_native ==> r.from == contracts.ethflow && r.signing_scheme@ == "eip1271"@
            && r.onchain_order,
        !draft.is_native ==> r.from == user && r.signing_scheme@ == "eip712"@ && !r.onchain_order,
        asks_quote(r, *draft, user, app_data, *contracts),
{
    let (from, signing_scheme) = if draft.is_native {
        (contracts.ethflow, "eip1271")
    } else {
        (user, "eip712")
    };
    QuoteRequest {
        sell_token: draft.sell_token,
        buy_token: draft.buy_token,
        from,
        receiver: user,
        kind: "sell",
        sell_amount_before_fee: draft.sell_amount,
        valid_for: 1800,
        app_data,
        signing_scheme,
        onchain_order: draft.is_native,
        partially_fillable: false,
    }
}

// ── the order as it is shown before it is signed ────────────────────────────

/// The three amounts of an order that are shown before it is signed.
#[derive(Debug, Clone, Copy, PartialEq, Eq, Structural)]
pub struct OrderFigures {
    pub sell: Amount,
    pub buy: Amount,
    /// The least that is bought.
    pub min: Amount,
}

/// Whether these are the three amounts of an order.
pub open spec fn figures_of(r: OrderFigures, draft: SwapDraft, quote: QuoteResponse) -> bool {
    &&& r.sell@ == sold(quote.quote)
    &&& r.buy == quote.quote.buy_amount
    &&& r.min@ == slipped(quote.quote.buy_amount@, draft.slippage_bps as nat)
}

/// The three amounts of an order that are shown before it is signed.
pub fn order_figures(draft: &SwapDraft, quote: &QuoteResponse) -> (r: OrderFigures)
    ensures
        r.sell@ == sold(quote.quote),
        r.buy == quote.quote.buy_amount,
        r.min@ == slipped(quote.quote.buy_amount@, draft.slippage_bps as nat),
        figures_of(r, *draft, *quote),
{
    OrderFigures {
        sell: full_sell(&quote.quote),
        buy: quote.quote.buy_amount,
        min: apply_slippage(quote.quote.buy_amount, draft.slippage_bps),
    }
}

/// The three amounts, written out.
#[derive(Debug)]
pub struct OrderTexts {
    pub sell: String,
    pub buy: String,
    pub min: String,
}

/// The order as it is shown before it is signed.
#[derive(Debug)]
pub struct OrderReview {
    pub chain: Chain,
    pub sell_amount: String,
    pub sell_symbol: String,
    pub buy_amount: String,
    pub buy_symbol: String,
    pub min_received: String,
    pub receiver: Address,
    pub valid_to: u32,
    pub slippage_bps: u32,
    pub settlement: Address,
    pub native: bool,
}

/// The order that is shown for a draft and a quote.
pub open spec fn review_of(
    draft: SwapDraft,
    quote: QuoteResponse,
    receiver: Address,
    texts: OrderTexts,
    contracts: CowContracts,
) -> OrderReview {
    OrderReview {
        chain: draft.chain,
        sell_amount: texts.sell,
        sell_symbol: draft.sell_symbol,
        buy_amount: texts.buy,
        buy_symbol: draft.buy_symbol,
        min_received: texts.min,
        receiver,
        valid_to: quote.quote.valid_to,
        slippage_bps: draft.slippage_bps,
        settlement: contracts.settlement,
        native: draft.is_native,
    }
}

/// The order that is shown for a draft and a quote, given the texts of its three
/// amounts.
pub fn build_order_review(
    draft: &SwapDraft,
    quote: &QuoteResponse,
    receiver: Address,
    texts: OrderTexts,
    contracts: &CowContracts,
) -> (r: OrderReview)
    ensures
        r == review_of(*draft, *quote, receiver, texts, *contracts),
{
    OrderReview {
        chain: draft.chain,
        sell_amount: texts.sell,
        sell_symbol: draft.sell_symbol.clone(),
        buy_amount: texts.buy,
        buy_symbol: draft.buy_symbol.clone(),
        min_received: texts.min,
        receiver,
        valid_to: quote.quote.valid_to,
        slippage_bps: draft.slippage_bps,
        settlement: contracts.settlement,
        native: draft.is_native,
    }
}

/// A call on the chain that comes with an order.
#[derive(Debug, Clone, Copy, PartialEq, Eq, Structural)]
pub enum LegCall {
    /// Places an order for native coin.
    CreateOrder,
    /// Lets the settlement take any amount of the token.
    ApproveMax,
}

/// A call that is to be decoded and shown before it is signed.
#[derive(Debug)]
pub struct LegPlan {
    pub title: String,
    pub to: Address,
    pub value: Amount,
    pub chain: Chain,
    pub call: LegCall,
}

/// Whether these are the calls that come with an order.
pub open spec fn comes_with(
    v: Seq<LegPlan>,
    draft: SwapDraft,
    quote: QuoteResponse,
    allowance: nat,
    contracts: CowContracts,
) -> bool {
    if draft.is_native {
        &&& v.len() == 1
        &&& v[0].title@ == "Place on-chain order — EthFlow createOrder"@
        &&& v[0].to == contracts.ethflow
        &&& v[0].value@ == sold(quote.quote)
        &&& v[0].chain == draft.chain
        &&& v[0].call == LegCall::CreateOrder
    } else if allowance < sold(quote.quote) {
        &&& v.len() == 1
        &&& v[0].title@ == "Approve "@ + draft.sell_symbol@ + " for CoW (vault relayer)"@
        &&& v[0].to == draft.sell_token
        &&& v[0].value@ == 0
        &&& v[0].chain == draft.chain
        &&& v[0].call == LegCall::ApproveMax
    } else {
        v.len() == 0
    }
}

/// The calls that come with an order, or why they cannot be told. An order for
/// native coin is one call that carries the coin. An order for a token needs a
/// call only where the allowance falls short; `allowance` is `None` where the
/// chain cannot be asked.
pub fn cow_legs(
    draft: &SwapDraft,
    quote: &QuoteResponse,
    allowance: Option<Result<Amount, String>>,
    contracts: &CowContracts,
) -> (r: Result<Vec<LegPlan>, String>)
    ensures
        match r {
            Ok(v) => if draft.is_native {
                &&& v@.len() == 1
                &&& v@[0].title@ == "Place on-chain order — EthFlow createOrder"@
                &&& v@[0].to == contracts.ethflow
                &&& v@[0].value@ == sold(quote.quote)
                &&& v@[0].chain == draft.chain
                &&& v@[0].call == LegCall::CreateOrder
            } else {
                &&& allowance is Some
                &&& allowance->0 is Ok
                &&& if (allowance->0->Ok_0)@ < sold(quote.quote) {
                    &&& v@.len() == 1
                    &&& v@[0].title@ == "Approve "@ + draft.sell_symbol@
                        + " for CoW (vault relayer)"@
                    &&& v@[0].to == draft.sell_token
                    &&& v@[0].value@ == 0
                    &&& v@[0].chain == draft.chain
                    &&& v@[0].call == LegCall::ApproveMax
                } else {
                    v@.len() == 0
                }
            },
            Err(e) => !draft.is_native && match allowance {
                Some(Ok(_)) => false,
                Some(Err(w)) => e == w,
                None => e@ == "no execution RPC configured"@,
            },
        },
        r matches Ok(v) ==> comes_with(
            v@,
            *draft,
            *quote,
            match allowance {
                Some(Ok(a)) => a@,
                _ => 0,
            },
            *contracts,
        ),
{
    let mut legs: Vec<LegPlan> = Vec::new();
    let all = full_sell(&quote.quote);
    if draft.is_native {
        legs.push(
            LegPlan {
                title: "Place on-chain order — EthFlow createOrder".to_string(),
                to: contracts.ethflow,
                value: all,
                chain: draft.chain,
                call: LegCall::CreateOrder,
            },
        );
        return Ok(legs);
    }
    match allowance {
        Some(Ok(a)) => {
            if a.less(&all) {
                legs.push(
                    LegPlan {
                        title: join3(
                            "Approve ",
                            draft.sell_symbol.as_str(),
                            " for CoW (vault relayer)",
                        ),
                        to: draft.sell_token,
                        value: Amount::zero(),
                        chain: draft.chain,
                        call: LegCall::ApproveMax,
                    },
                );
            }
            Ok(legs)
        },
        Some(Err(e)) => Err(e),
        None => Err("no execution RPC configured".to_string()),
    }
}

// ── the order for native coin ───────────────────────────────────────────────

/// The order that the EthFlow contract is asked to place.
#[derive(Debug, Clone, Copy, PartialEq, Eq, Structural)]
pub struct EthFlowData {
    pub buy_token: Address,
    pub receiver: Address,
    pub sell_amount: Amount,
    /// The least that is bought.
    pub buy_amount: Amount,
    pub app_data: Hash32,
    pub fee_amount: Amount,
    pub valid_to: u32,
    pub partially_fillable: bool,
    pub quote_id: i64,
}

/// Whether this is the order for native coin that a draft and a quote make.
pub open spec fn native_order(
    r: EthFlowData,
    draft: SwapDraft,
    quote: QuoteResponse,
    receiver: Address,
    app_data: Hash32,
) -> bool {
    &&& r.buy_token == draft.buy_token
    &&& r.receiver == receiver
    &&& r.sell_amount@ == sold(quote.quote)
    &&& r.buy_amount@ == slipped(quote.quote.buy_amount@, draft.slippage_bps as nat)
    &&& r.app_data == app_data
    &&& r.fee_amount@ == 0
    &&& r.valid_to == quote.quote.valid_to
    &&& !r.partially_fillable
    &&& r.quote_id == match quote.id {
        Some(i) => i,
        None => 0,
    }
}

/// The order for native coin that a draft and a quote make. The fee is part of
/// what is sold.
pub fn build_ethflow_data(
    draft: &SwapDraft,
    quote: &QuoteResponse,
    receiver: Address,
    app_data: Hash32,
) -> (r: EthFlowData)
    ensures
        r.buy_token == draft.buy_token,
        r.receiver == receiver,
        r.sell_amount@ == sold(quote.quote),
        r.buy_amount@ == slipped(quote.quote.buy_amount@, draft.slippage_bps as nat),
        r.app_data == app_data,
        r.fee_amount@ == 0,
        r.valid_to == quote.quote.valid_to,
        !r.partially_fillable,
        r.quote_id == match quote.id {
            Some(i) => i,
            None => 0,
        },
        native_order(r, *draft, *quote, receiver, app_data),
{
    EthFlowData {
        buy_token: draft.buy_token,
        receiver,
        sell_amount: full_sell(&quote.quote),
        buy_amount: apply_slippage(quote.quote.buy_amount, draft.slippage_bps),
        app_data,
        fee_amount: Amount::zero(),
        valid_to: quote.quote.valid_to,
        partially_fillable: false,
        quote_id: match quote.id {
            Some(i) => i,
            None => 0,
        },
    }
}

/// The last `n` digits of a number in base 256, the most significant first.
pub open spec fn be_bytes(x: nat, n: nat) -> Seq<u8>
    decreases n,
{
    if n == 0 {
        Seq::empty()
    } else {
        be_bytes(x / 256, (n - 1) as nat).push((x % 256) as u8)
    }
}

/// Two runs of digits make one number.
proof fn lemma_be_bytes_join(h: nat, l: nat, m: nat, n: nat, unit: nat)
    requires
        l < unit,
        unit == pow256(n),
    ensures
        be_bytes(h * unit + l, m + n) == be_bytes(h, m) + be_bytes(l, n),
    decreases n,
{
    if n == 0 {
        assert(h * unit + l == h) by (nonlinear_arith)
            requires
                unit == 1,
                l < 1,
        ;
        assert(be_bytes(h, m) + be_bytes(l, 0) =~= be_bytes(h, m));
    } else {
        let small = pow256((n - 1) as nat);
        let x = h * unit + l;
        assert(unit == 256 * small);
        assert(x == (h * small) * 256 + l) by (nonlinear_arith)
            requires
                x == h * unit + l,
                unit == 256 * small,
        ;
        lemma_hoist_over_denominator(l as int, (h * small) as int, 256);
        assert(x / 256 == h * small + l / 256);
        assert(x % 256 == l % 256);
        lemma_be_bytes_join(h, l / 256, m, (n - 1) as nat, small);
        assert(be_bytes(h, m) + be_bytes(l, n) =~= (be_bytes(h, m) + be_bytes(
            l / 256,
            (n - 1) as nat,
        )).push((l % 256) as u8));
    }
}

/// 256 to the power of `n`.
pub open spec fn pow256(n: nat) -> nat
    decreases n,
{
    if n == 0 {
        1
    } else {
        256 * pow256((n - 1) as nat)
    }
}

/// Appends the last sixteen digits of a number in base 256.
fn push_half(out: &mut Vec<u8>, x: u128)
    ensures
        final(out)@ == old(out)@ + be_bytes(x as nat, 16),
{
    push_digits(out, x, 16);
}

fn push_digits(out: &mut Vec<u8>, x: u128, n: u8)
    ensures
        final(out)@ == old(out)@ + be_bytes(x as nat, n as nat),
    decreases n,
{
    if n == 0 {
        assert(out@ + be_bytes(x as nat, 0) =~= out@);
        return;
    }
    let ghost before = out@;
    push_digits(out, x / 256, n - 1);
    out.push((x % 256) as u8);
    assert(out@ =~= before + be_bytes(x as nat, n as nat));
}

/// Appends a word of 32 bytes, given its two halves.
pub(crate) fn push_word(out: &mut Vec<u8>, hi: u128, lo: u128)
    ensures
        final(out)@ == old(out)@ + be_bytes(hi as nat * two128() + lo as nat, 32),
{
    let ghost before = out@;
    push_half(out, hi);
    push_half(out, lo);
    proof {
        reveal_with_fuel(pow256, 17);
        lemma_be_bytes_join(hi as nat, lo as nat, 16, 16, two128());
        assert(out@ =~= before + be_bytes(hi as nat * two128() + lo as nat, 32));
    }
}

/// The call that places an order for native coin: the selector of `createOrder`
/// and a word for each of the order's nine fields.
pub open spec fn create_order_bytes(d: EthFlowData) -> Seq<u8> {
    seq![0x32u8, 0x2b, 0xba, 0x21] + be_bytes(d.buy_token@, 32) + be_bytes(d.receiver@, 32)
        + be_bytes(d.sell_amount@, 32) + be_bytes(d.buy_amount@, 32) + be_bytes(
        d.app_data.hi as nat * two128() + d.app_data.lo as nat,
        32,
    ) + be_bytes(d.fee_amount@, 32) + be_bytes(d.valid_to as nat, 32) + be_bytes(
        if d.partially_fillable {
            1
        } else {
            0
        },
        32,
    ) + be_bytes(
        if d.quote_id >= 0 {
            d.quote_id as nat
        } else {
            (two256() + d.quote_id) as nat
        },
        32,
    )
}

/// The call that places an order for native coin.
pub fn create_order_calldata(d: &EthFlowData) -> (r: Vec<u8>)
    ensures
        r@ == create_order_bytes(*d),
{
    let mut out: Vec<u8> = Vec::new();
    out.push(0x32);
    out.push(0x2b);
    out.push(0xba);
    out.push(0x21);
    assert(out@ =~= seq![0x32u8, 0x2b, 0xba, 0x21]);
    push_word(&mut out, d.buy_token.head as u128, d.buy_token.tail);
    push_word(&mut out, d.receiver.head as u128, d.receiver.tail);
    push_word(&mut out, d.sell_amount.hi, d.sell_amount.lo);
    push_word(&mut out, d.buy_amount.hi, d.buy_amount.lo);
    push_word(&mut out, d.app_data.hi, d.app_data.lo);
    push_word(&mut out, d.fee_amount.hi, d.fee_amount.lo);
    push_word(&mut out, 0, d.valid_to as u128);
    push_word(
        &mut out,
        0,
        if d.partially_fillable {
            1
        } else {
            0
        },
    );
    if d.quote_id >= 0 {
        push_word(&mut out, 0, d.quote_id as u128);
    } else {
        let back: u128 = (-(d.quote_id + 1)) as u128;
        let lo: u128 = u128::MAX - back;
        assert(u128::MAX as nat * two128() + lo as nat == two256() + d.quote_id);
        push_word(&mut out, u128::MAX, lo);
    }
    out
}

} // verus!
