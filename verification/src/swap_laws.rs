//! What a swap order does: what the user parts with and gets, which calls come with it,
//! how it is placed and cancelled, and how it is listed and followed afterwards.

use vstd::arithmetic::div_mod::{lemma_div_multiples_vanish, lemma_fundamental_div_mod};
use vstd::prelude::*;

use crate::cow_flow::{
    posts, withdraws, CancelAction, CancelEvent, CancelStage, Cancellation, CancellationBody,
    OrderCreation, PlaceAction, PlaceEvent, PlaceFailure, PlaceStage, Placement, Placer, SimOutcome,
};
use crate::function_panel::hex_of;
use crate::orders::{
    token_known, tracks, AccountOrder, CuratedToken, OrderKind, OrderStatus, TrackedOrder,
};
use crate::swap::{
    asks_quote, be_bytes, comes_with, create_order_bytes, figures_of, native_order, review_of,
    slipped, sold, CowContracts, EthFlowData, LegCall, LegPlan, OrderFigures, OrderTexts,
    QuoteParams, QuoteRequest, QuoteResponse, SwapDraft,
};
use crate::types::{short_address_of, Address, Amount, Chain, Hash32};

verus! {

// ── amounts ─────────────────────────────────────────────────────────────────

/// The user parts with what is sold and the fee, up to the largest number.
pub proof fn law_the_fee_is_part_of_what_is_sold(q: QuoteParams)
    ensures
        q.sell_amount@ + q.fee_amount@
            < 0x1_0000_0000_0000_0000_0000_0000_0000_0000_0000_0000_0000_0000_0000_0000_0000_0000
            ==> sold(q) == q.sell_amount@ + q.fee_amount@,
        q.sell_amount@ + q.fee_amount@
            >= 0x1_0000_0000_0000_0000_0000_0000_0000_0000_0000_0000_0000_0000_0000_0000_0000_0000
            ==> sold(q) + 1
            == 0x1_0000_0000_0000_0000_0000_0000_0000_0000_0000_0000_0000_0000_0000_0000_0000_0000,
{
}

/// Slippage takes so many hundredths of a percent off, and rounds down to a whole unit:
/// nothing at none, everything at a hundred percent and above.
pub proof fn law_slippage_takes_its_share(amount: nat, bps: nat)
    ensures
        bps <= 10000 ==> 10000 * slipped(amount, bps) <= amount * (10000 - bps),
        bps <= 10000 ==> amount * (10000 - bps) < 10000 * slipped(amount, bps) + 10000,
        bps >= 10000 ==> slipped(amount, bps) == 0,
        slipped(amount, 0) == amount,
{
    if bps < 10000 {
        lemma_fundamental_div_mod((amount * (10000 - bps) as nat) as int, 10000);
    } else if bps == 10000 {
        assert(amount * (10000 - bps) == 0) by (nonlinear_arith)
            requires
                bps == 10000,
        ;
    }
    lemma_div_multiples_vanish(amount as int, 10000);
    assert(amount * 10000 == 10000 * amount);
}

/// The three amounts that are shown are all that is parted with, what is quoted, and
/// what is left of that after slippage.
pub proof fn law_shown_amounts(r: OrderFigures, draft: SwapDraft, quote: QuoteResponse)
    requires
        figures_of(r, draft, quote),
        quote.quote.sell_amount@ + quote.quote.fee_amount@
            < 0x1_0000_0000_0000_0000_0000_0000_0000_0000_0000_0000_0000_0000_0000_0000_0000_0000,
        draft.slippage_bps <= 10000,
    ensures
        r.sell@ == quote.quote.sell_amount@ + quote.quote.fee_amount@,
        r.buy == quote.quote.buy_amount,
        10000 * r.min@ <= quote.quote.buy_amount@ * (10000 - draft.slippage_bps) < 10000 * r.min@
            + 10000,
{
    law_slippage_takes_its_share(quote.quote.buy_amount@, draft.slippage_bps as nat);
}

// ── the quote and the review ────────────────────────────────────────────────

/// A quote is asked for what is drafted, as a sell order that the user receives; native
/// coin is sold by the EthFlow contract, a token by the user.
pub proof fn law_quotes_are_asked_for_the_draft(
    r: QuoteRequest,
    draft: SwapDraft,
    user: Address,
    app_data: String,
    contracts: CowContracts,
)
    requires
        asks_quote(r, draft, user, app_data, contracts),
    ensures
        r.sell_token == draft.sell_token,
        r.buy_token == draft.buy_token,
        r.sell_amount_before_fee == draft.sell_amount,
        r.receiver == user,
        r.kind@ == "sell"@,
        r.app_data == app_data,
        r.valid_for == 30 * 60,
        !r.partially_fillable,
        draft.is_native ==> r.from == contracts.ethflow && r.onchain_order && r.signing_scheme@
            == "eip1271"@,
        !draft.is_native ==> r.from == user && !r.onchain_order && r.signing_scheme@ == "eip712"@,
{
}

/// What is shown for review is the draft, the quote's term, and who receives.
pub proof fn law_the_review_shows_the_order(
    draft: SwapDraft,
    quote: QuoteResponse,
    receiver: Address,
    texts: OrderTexts,
    contracts: CowContracts,
)
    ensures
        ({
            let r = review_of(draft, quote, receiver, texts, contracts);
            &&& r.chain == draft.chain
            &&& r.sell_amount == texts.sell
            &&& r.sell_symbol == draft.sell_symbol
            &&& r.buy_amount == texts.buy
            &&& r.buy_symbol == draft.buy_symbol
            &&& r.min_received == texts.min
            &&& r.receiver == receiver
            &&& r.valid_to == quote.quote.valid_to
            &&& r.slippage_bps == draft.slippage_bps
            &&& r.settlement == contracts.settlement
            &&& r.native == draft.is_native
        }),
{
}

/// An order for native coin comes with one call, that of the EthFlow contract, which
/// carries all that is parted with. An order for a token comes with a call only where
/// the allowance falls short: an approval by the token that is sold.
pub proof fn law_calls_of_an_order(
    v: Seq<LegPlan>,
    draft: SwapDraft,
    quote: QuoteResponse,
    allowance: nat,
    contracts: CowContracts,
)
    requires
        comes_with(v, draft, quote, allowance, contracts),
        quote.quote.sell_amount@ + quote.quote.fee_amount@
            < 0x1_0000_0000_0000_0000_0000_0000_0000_0000_0000_0000_0000_0000_0000_0000_0000_0000,
    ensures
        draft.is_native ==> v.len() == 1 && v[0].to == contracts.ethflow && v[0].value@
            == quote.quote.sell_amount@ + quote.quote.fee_amount@ && v[0].chain == draft.chain
            && v[0].call == LegCall::CreateOrder,
        !draft.is_native && allowance < quote.quote.sell_amount@ + quote.quote.fee_amount@ ==> v.len()
            == 1 && v[0].to == draft.sell_token && v[0].value@ == 0 && v[0].chain == draft.chain
            && v[0].call == LegCall::ApproveMax && v[0].title@ == "Approve "@ + draft.sell_symbol@
            + " for CoW (vault relayer)"@,
        !draft.is_native && allowance >= quote.quote.sell_amount@ + quote.quote.fee_amount@
            ==> v.len() == 0,
{
}

/// The order for native coin sells all that is parted with, so it has no fee of its own,
/// and buys at least the quote after slippage.
pub proof fn law_native_orders_sell_the_fee_too(
    r: EthFlowData,
    draft: SwapDraft,
    quote: QuoteResponse,
    receiver: Address,
    app_data: Hash32,
)
    requires
        native_order(r, draft, quote, receiver, app_data),
        quote.quote.sell_amount@ + quote.quote.fee_amount@
            < 0x1_0000_0000_0000_0000_0000_0000_0000_0000_0000_0000_0000_0000_0000_0000_0000_0000,
        draft.slippage_bps <= 10000,
    ensures
        r.buy_token == draft.buy_token,
        r.receiver == receiver,
        r.sell_amount@ == quote.quote.sell_amount@ + quote.quote.fee_amount@,
        r.fee_amount@ == 0,
        10000 * r.buy_amount@ <= quote.quote.buy_amount@ * (10000 - draft.slippage_bps) < 10000
            * r.buy_amount@ + 10000,
        r.app_data == app_data,
        r.valid_to == quote.quote.valid_to,
        !r.partially_fillable,
        quote.id matches Some(i) ==> r.quote_id == i,
        quote.id is None ==> r.quote_id == 0,
{
    law_slippage_takes_its_share(quote.quote.buy_amount@, draft.slippage_bps as nat);
}

/// The call that places an order for native coin holds its fields one after another, a
/// word each, behind the selector.
pub proof fn law_native_orders_are_written_out(d: EthFlowData)
    ensures
        ({
            let b = create_order_bytes(d);
            &&& b.len() == 4 + 9 * 32
            &&& b[0] == 0x32 && b[1] == 0x2b && b[2] == 0xba && b[3] == 0x21
            &&& b.subrange(4, 36) == be_bytes(d.buy_token@, 32)
            &&& b.subrange(36, 68) == be_bytes(d.receiver@, 32)
            &&& b.subrange(68, 100) == be_bytes(d.sell_amount@, 32)
            &&& b.subrange(100, 132) == be_bytes(d.buy_amount@, 32)
            &&& b.subrange(164, 196) == be_bytes(d.fee_amount@, 32)
            &&& b.subrange(196, 228) == be_bytes(d.valid_to as nat, 32)
            &&& d.partially_fillable ==> b.subrange(228, 260) == be_bytes(1, 32)
            &&& !d.partially_fillable ==> b.subrange(228, 260) == be_bytes(0, 32)
            &&& d.quote_id >= 0 ==> b.subrange(260, 292) == be_bytes(d.quote_id as nat, 32)
        }),
{
    lemma_word_len(d.buy_token@, 32);
    lemma_word_len(d.receiver@, 32);
    lemma_word_len(d.sell_amount@, 32);
    lemma_word_len(d.buy_amount@, 32);
    lemma_word_len(
        d.app_data.hi as nat * crate::types::two128() + d.app_data.lo as nat,
        32,
    );
    lemma_word_len(d.fee_amount@, 32);
    lemma_word_len(d.valid_to as nat, 32);
    lemma_word_len(1, 32);
    lemma_word_len(0, 32);
    lemma_word_len(d.quote_id as nat, 32);
    lemma_word_len((crate::types::two256() + d.quote_id) as nat, 32);
    let b = create_order_bytes(d);
    assert(b.subrange(4, 36) =~= be_bytes(d.buy_token@, 32));
    assert(b.subrange(36, 68) =~= be_bytes(d.receiver@, 32));
    assert(b.subrange(68, 100) =~= be_bytes(d.sell_amount@, 32));
    assert(b.subrange(100, 132) =~= be_bytes(d.buy_amount@, 32));
    assert(b.subrange(164, 196) =~= be_bytes(d.fee_amount@, 32));
    assert(b.subrange(196, 228) =~= be_bytes(d.valid_to as nat, 32));
    if d.partially_fillable {
        assert(b.subrange(228, 260) =~= be_bytes(1, 32));
    } else {
        assert(b.subrange(228, 260) =~= be_bytes(0, 32));
    }
    if d.quote_id >= 0 {
        assert(b.subrange(260, 292) =~= be_bytes(d.quote_id as nat, 32));
    }
}

proof fn lemma_word_len(x: nat, n: nat)
    ensures
        be_bytes(x, n).len() == n,
    decreases n,
{
    if n > 0 {
        lemma_word_len(x / 256, (n - 1) as nat);
    }
}

// ── placing ─────────────────────────────────────────────────────────────────

/// A placement belongs to a draft, a quote and an owner: it sells all that is parted
/// with, and buys at least the quote after slippage.
pub open spec fn places(
    p: Placement,
    placer: Placer,
    owner: Address,
    chain: Chain,
    draft: SwapDraft,
    quote: QuoteResponse,
    contracts: CowContracts,
) -> bool {
    &&& p.placer == placer
    &&& p.owner == owner
    &&& p.chain == chain
    &&& p.draft == draft
    &&& p.quote == quote
    &&& p.ethflow == contracts.ethflow
    &&& p.sells@ == quote.quote.sell_amount@ + quote.quote.fee_amount@
    &&& 10000 * p.buys@ <= quote.quote.buy_amount@ * (10000 - draft.slippage_bps) < 10000 * p.buys@
        + 10000
}

/// A placement belongs to what it was started with, from its start to its end.
pub proof fn law_placements_keep_their_order(
    p: Placement,
    e: PlaceEvent,
    placer: Placer,
    owner: Address,
    chain: Chain,
    draft: SwapDraft,
    quote: QuoteResponse,
    contracts: CowContracts,
)
    requires
        quote.quote.sell_amount@ + quote.quote.fee_amount@
            < 0x1_0000_0000_0000_0000_0000_0000_0000_0000_0000_0000_0000_0000_0000_0000_0000_0000,
        draft.slippage_bps <= 10000,
    ensures
        p.is_fresh(placer, owner, chain, draft, quote, contracts) ==> places(
            p,
            placer,
            owner,
            chain,
            draft,
            quote,
            contracts,
        ) && !p.approves && p.retries == 0 && p.nonce is None,
        p.is_fresh(placer, owner, chain, draft, quote, contracts) && draft.is_native ==> p.stage
            == PlaceStage::Upload && p.first() == PlaceAction::UploadAppData,
        p.is_fresh(placer, owner, chain, draft, quote, contracts) && !draft.is_native ==> p.stage
            == PlaceStage::Allowance && p.first() == PlaceAction::ReadAllowance,
        places(p, placer, owner, chain, draft, quote, contracts) ==> places(
            p.next(e).0,
            placer,
            owner,
            chain,
            draft,
            quote,
            contracts,
        ),
{
    law_slippage_takes_its_share(quote.quote.buy_amount@, draft.slippage_bps as nat);
}

/// A call that comes with an order: of the EthFlow contract with all that is parted
/// with, for native coin; of the token that is sold with nothing, to raise its allowance,
/// for a token.
pub open spec fn serves_order(
    to: Address,
    value: Amount,
    call: LegCall,
    draft: SwapDraft,
    quote: QuoteResponse,
    contracts: CowContracts,
) -> bool {
    &&& draft.is_native ==> to == contracts.ethflow && value@ == quote.quote.sell_amount@
        + quote.quote.fee_amount@ && call == LegCall::CreateOrder
    &&& !draft.is_native ==> to == draft.sell_token && value@ == 0 && call == LegCall::ApproveMax
}

/// Whatever call a placement simulates, sends, or makes as a Safe is the one that comes
/// with its order, and so the one that was shown in the review.
pub proof fn law_placements_make_the_calls_of_their_order(
    p: Placement,
    e: PlaceEvent,
    placer: Placer,
    owner: Address,
    chain: Chain,
    draft: SwapDraft,
    quote: QuoteResponse,
    contracts: CowContracts,
    v: Seq<LegPlan>,
    allowance: nat,
)
    requires
        places(p, placer, owner, chain, draft, quote, contracts),
    ensures
        p.next(e).1 matches PlaceAction::Preflight { to, value, call } ==> serves_order(
            to,
            value,
            call,
            draft,
            quote,
            contracts,
        ),
        p.next(e).1 matches PlaceAction::SendCall { to, value, call } ==> serves_order(
            to,
            value,
            call,
            draft,
            quote,
            contracts,
        ),
        p.next(e).1 matches PlaceAction::CallAsSafe { to, value, call, .. } ==> serves_order(
            to,
            value,
            call,
            draft,
            quote,
            contracts,
        ),
        comes_with(v, draft, quote, allowance, contracts) && v.len() > 0 && quote.quote.sell_amount@
            + quote.quote.fee_amount@
            < 0x1_0000_0000_0000_0000_0000_0000_0000_0000_0000_0000_0000_0000_0000_0000_0000_0000
            ==> serves_order(v[0].to, v[0].value, v[0].call, draft, quote, contracts),
{
}

/// An account's order for a token: where the allowance suffices it is signed at once,
/// and else the approval is simulated, sent and awaited first. The signed order is posted,
/// and followed under the identifier that comes back.
pub proof fn law_an_account_places_an_order_for_a_token(
    p: Placement,
    allowance: Amount,
    o: SimOutcome,
    tx: Hash32,
    uid: String,
)
    requires
        p.placer == Placer::Account,
        !p.draft.is_native,
    ensures
        p.stage == PlaceStage::Allowance && allowance@ >= p.sells@ ==> p.next(
            PlaceEvent::Allowance(Ok(allowance)),
        ).1 == PlaceAction::SignOrder,
        p.stage == PlaceStage::Allowance && allowance@ < p.sells@ ==> ({
            let a = p.next(PlaceEvent::Allowance(Ok(allowance)));
            let b = a.0.next(PlaceEvent::Simulated(o));
            let c = b.0.next(PlaceEvent::Sent(Ok(tx)));
            let d = c.0.next(PlaceEvent::Mined(Ok(())));
            &&& a.1 is Preflight
            &&& o is Revert || o is Halt ==> b.1 is Failed
            &&& o is Success || o is Unavailable ==> b.1 is SendCall && c.1
                == PlaceAction::AwaitReceipt(tx) && d.1 == PlaceAction::SignOrder
        }),
        p.stage == PlaceStage::Signature ==> ({
            let a = p.next(PlaceEvent::Signed(Ok(())));
            let b = a.0.next(PlaceEvent::Uploaded);
            let c = b.0.next(PlaceEvent::Posted(Ok(uid)));
            &&& a.1 == PlaceAction::UploadAppData
            &&& b.1 == PlaceAction::PostOrder
            &&& c.1 matches PlaceAction::Placed(t) && t.uid == uid
        }),
{
}

/// A Safe's order for a token: where the allowance falls short the Safe raises it, and
/// the Safe confirms the signature before the order leaves.
pub proof fn law_a_safe_places_an_order_for_a_token(
    p: Placement,
    allowance: Amount,
    tx: Hash32,
    uid: String,
)
    requires
        p.placer == Placer::Safe,
        !p.draft.is_native,
    ensures
        p.stage == PlaceStage::Allowance && allowance@ >= p.sells@ ==> p.next(
            PlaceEvent::Allowance(Ok(allowance)),
        ).1 == PlaceAction::SignOrder,
        p.stage == PlaceStage::Allowance && allowance@ < p.sells@ ==> ({
            let a = p.next(PlaceEvent::Allowance(Ok(allowance)));
            let b = a.0.next(PlaceEvent::Sent(Ok(tx)));
            let c = b.0.next(PlaceEvent::Mined(Ok(())));
            &&& a.1 is CallAsSafe
            &&& b.1 == PlaceAction::AwaitReceipt(tx)
            &&& c.1 == PlaceAction::SignOrder
        }),
        p.stage == PlaceStage::Signature ==> ({
            let a = p.next(PlaceEvent::Signed(Ok(())));
            let b = a.0.next(PlaceEvent::Confirmed(Ok(())));
            let c = b.0.next(PlaceEvent::Uploaded);
            let d = c.0.next(PlaceEvent::Posted(Ok(uid)));
            &&& a.1 == PlaceAction::VerifySignature
            &&& b.1 == PlaceAction::UploadAppData
            &&& c.1 == PlaceAction::PostOrder
            &&& d.1 matches PlaceAction::Placed(t) && t.uid == uid
        }),
{
}

/// An order for native coin: its metadata is uploaded, the call is simulated and made
/// (by a Safe at the nonce that it has now), and once it is mined the order is followed
/// under the identifier that the contract gave it.
pub proof fn law_native_coin_is_sold_on_the_chain(
    p: Placement,
    n: u64,
    o: SimOutcome,
    tx: Hash32,
    uid: String,
)
    requires
        p.draft.is_native,
        p.stage == PlaceStage::Upload,
        o is Success || o is Unavailable,
    ensures
        p.placer == Placer::Account ==> ({
            let a = p.next(PlaceEvent::Uploaded);
            let b = a.0.next(PlaceEvent::Simulated(o));
            let c = b.0.next(PlaceEvent::Sent(Ok(tx)));
            let d = c.0.next(PlaceEvent::Mined(Ok(())));
            let e = d.0.next(PlaceEvent::Uid(Ok(uid)));
            &&& a.1 is Preflight
            &&& b.1 is SendCall
            &&& c.1 == PlaceAction::AwaitReceipt(tx)
            &&& d.1 == PlaceAction::DeriveUid
            &&& e.1 matches PlaceAction::Placed(t) && t.uid == uid
        }),
        p.placer == Placer::Safe ==> ({
            let z = p.next(PlaceEvent::Uploaded);
            let a = z.0.next(PlaceEvent::Nonce(Ok(n)));
            let b = a.0.next(PlaceEvent::Simulated(o));
            let c = b.0.next(PlaceEvent::Sent(Ok(tx)));
            let d = c.0.next(PlaceEvent::Mined(Ok(())));
            let e = d.0.next(PlaceEvent::Uid(Ok(uid)));
            &&& z.1 == PlaceAction::ReadNonce
            &&& a.1 is Preflight
            &&& b.1 matches PlaceAction::CallAsSafe { nonce, .. } && nonce == Some(n)
            &&& c.1 == PlaceAction::AwaitReceipt(tx)
            &&& d.1 == PlaceAction::DeriveUid
            &&& e.1 matches PlaceAction::Placed(t) && t.uid == uid
        }),
{
}

/// The order that is followed once it is placed is the draft, in all that is shown of
/// it, with the term of the quote; nothing of it is filled yet.
pub proof fn law_a_placed_order_is_followed_as_drafted(p: Placement, e: PlaceEvent)
    ensures
        p.next(e).1 matches PlaceAction::Placed(o) ==> {
            &&& o.owner == p.owner
            &&& o.chain == p.chain
            &&& o.kind == OrderKind::Sell
            &&& o.sell_token == p.draft.sell_token
            &&& o.sell_symbol == p.draft.sell_symbol
            &&& o.sell_decimals == p.draft.sell_decimals
            &&& o.sell_amount == p.draft.sell_amount
            &&& o.buy_token == p.draft.buy_token
            &&& o.buy_symbol == p.draft.buy_symbol
            &&& o.buy_decimals == p.draft.buy_decimals
            &&& o.buy_amount == p.buys
            &&& o.valid_to == p.quote.quote.valid_to
            &&& o.status == OrderStatus::Open
            &&& o.executed is None
            &&& o.is_ethflow == p.draft.is_native
        },
{
}

/// A failure at any step ends the placement with the reason that came.
pub proof fn law_placements_tell_why_they_failed(p: Placement, w: String)
    ensures
        p.stage == PlaceStage::Allowance ==> p.next(PlaceEvent::Allowance(Err(w))).1
            == PlaceAction::Failed(PlaceFailure::Told(w)),
        p.stage == PlaceStage::Nonce ==> p.next(PlaceEvent::Nonce(Err(w))).1 == PlaceAction::Failed(
            PlaceFailure::Told(w),
        ),
        p.stage == PlaceStage::Call ==> p.next(PlaceEvent::Sent(Err(w))).1 == PlaceAction::Failed(
            PlaceFailure::Told(w),
        ),
        p.stage == PlaceStage::Receipt ==> p.next(PlaceEvent::Mined(Err(w))).1
            == PlaceAction::Failed(PlaceFailure::Told(w)),
        p.stage == PlaceStage::Uid ==> p.next(PlaceEvent::Uid(Err(w))).1 == PlaceAction::Failed(
            PlaceFailure::Told(w),
        ),
        p.stage == PlaceStage::Signature ==> p.next(PlaceEvent::Signed(Err(w))).1
            == PlaceAction::Failed(PlaceFailure::Told(w)),
        p.stage == PlaceStage::Confirmation ==> p.next(PlaceEvent::Confirmed(Err(w))).1
            == PlaceAction::Failed(PlaceFailure::Told(w)),
        p.stage == PlaceStage::Post && !p.approves ==> p.next(PlaceEvent::Posted(Err(w))).1
            == PlaceAction::Failed(PlaceFailure::Told(w)),
        p.stage == PlaceStage::Preflight ==> p.next(
            PlaceEvent::Simulated(SimOutcome::Revert(w)),
        ).1 == PlaceAction::Failed(PlaceFailure::Revert(w)),
        p.stage == PlaceStage::Preflight ==> p.next(PlaceEvent::Simulated(SimOutcome::Halt(w))).1
            == PlaceAction::Failed(PlaceFailure::Halt(w)),
{
}

/// The order book is handed the order of the placement: its owner sells and receives,
/// nothing is left as a fee, and the signature is checked as the owner signs.
pub proof fn law_the_order_book_gets_the_order(
    r: OrderCreation,
    p: Placement,
    app_data: String,
    app_data_hash: String,
    signature: Seq<u8>,
)
    requires
        posts(r, p, app_data, app_data_hash, signature),
    ensures
        r.sell_token == p.draft.sell_token,
        r.buy_token == p.draft.buy_token,
        r.sell_amount == p.sells,
        r.buy_amount == p.buys,
        r.fee_amount@ == 0,
        r.receiver == p.owner,
        r.from == p.owner,
        r.valid_to == p.quote.quote.valid_to,
        r.quote_id == p.quote.id,
        r.app_data == app_data,
        r.app_data_hash == app_data_hash,
        r.kind@ == "sell"@,
        !r.partially_fillable,
        p.placer == Placer::Account ==> r.signing_scheme@ == "eip712"@,
        p.placer == Placer::Safe ==> r.signing_scheme@ == "eip1271"@,
        r.signature@ == "0x"@ + hex_of(signature),
{
}

// ── cancelling ──────────────────────────────────────────────────────────────

/// A cancellation is signed, confirmed by the Safe where a Safe signs, and handed to the
/// order book.
pub proof fn law_cancellations_run_their_course(c: Cancellation)
    requires
        c.stage == CancelStage::Signature,
    ensures
        c.placer == Placer::Account ==> ({
            let a = c.next(CancelEvent::Signed(Ok(())));
            let b = a.0.next(CancelEvent::Deleted(Ok(())));
            &&& a.1 == CancelAction::DeleteOrder
            &&& b.1 == CancelAction::Cancelled
        }),
        c.placer == Placer::Safe ==> ({
            let a = c.next(CancelEvent::Signed(Ok(())));
            let b = a.0.next(CancelEvent::Confirmed(Ok(())));
            let d = b.0.next(CancelEvent::Deleted(Ok(())));
            &&& a.1 == CancelAction::VerifySignature
            &&& b.1 == CancelAction::DeleteOrder
            &&& d.1 == CancelAction::Cancelled
        }),
{
}

/// A cancellation that fails tells why, and cancels nothing.
pub proof fn law_cancellations_tell_why_they_failed(c: Cancellation, w: String)
    ensures
        c.stage == CancelStage::Signature ==> c.next(CancelEvent::Signed(Err(w))).1
            == CancelAction::Failed(w),
        c.stage == CancelStage::Confirmation ==> c.next(CancelEvent::Confirmed(Err(w))).1
            == CancelAction::Failed(w),
        c.stage == CancelStage::Deletion ==> c.next(CancelEvent::Deleted(Err(w))).1
            == CancelAction::Failed(w),
{
}

/// The order book is handed the identifier of the order that is cancelled.
pub proof fn law_the_order_book_gets_the_cancellation(
    r: CancellationBody,
    uid: Seq<char>,
    signature: Seq<u8>,
    placer: Placer,
)
    requires
        withdraws(r, uid, signature, placer),
    ensures
        r.order_uid@ == uid,
        r.signature@ == "0x"@ + hex_of(signature),
        placer == Placer::Account ==> r.signing_scheme@ == "eip712"@,
        placer == Placer::Safe ==> r.signing_scheme@ == "eip1271"@,
{
}

// ── listing ─────────────────────────────────────────────────────────────────

proof fn lemma_known(known: Seq<CuratedToken>, a: Address, k: int)
    requires
        forall|i: int, j: int|
            0 <= i < j < known.len() ==> (#[trigger] known[i]).address != (
            #[trigger] known[j]).address,
    ensures
        0 <= k < known.len() && known[k].address == a ==> token_known(known, a) == (
            known[k].symbol@,
            known[k].decimals,
        ),
    decreases known.len(),
{
    if 0 <= k < known.len() && known[k].address == a && k < known.len() - 1 {
        let rest = known.drop_last();
        assert(known.last() == known[known.len() - 1]);
        assert(rest[k] == known[k]);
        assert forall|i: int, j: int| 0 <= i < j < rest.len() implies (#[trigger] rest[i]).address
            != (#[trigger] rest[j]).address by {
            assert(rest[i] == known[i] && rest[j] == known[j]);
        }
        lemma_known(rest, a, k);
    }
}

proof fn lemma_unknown(known: Seq<CuratedToken>, a: Address)
    requires
        forall|k: int| 0 <= k < known.len() ==> (#[trigger] known[k]).address != a,
    ensures
        token_known(known, a) == (short_address_of(a), 18u8),
    decreases known.len(),
{
    if known.len() > 0 {
        let rest = known.drop_last();
        assert(known.last() == known[known.len() - 1]);
        assert forall|k: int| 0 <= k < rest.len() implies (#[trigger] rest[k]).address != a by {
            assert(rest[k] == known[k]);
        }
        lemma_unknown(rest, a);
    }
}

/// A listed order is shown with the symbols and decimals of the tokens that it sells and
/// buys, where the wallet knows them; `s` and `b` are their places among the known ones.
pub proof fn law_listed_orders_show_known_tokens(
    t: TrackedOrder,
    o: AccountOrder,
    chain: Chain,
    owner: Address,
    known: Seq<CuratedToken>,
    s: int,
    b: int,
)
    requires
        tracks(t, o, chain, owner, known),
        forall|i: int, j: int|
            0 <= i < j < known.len() ==> (#[trigger] known[i]).address != (
            #[trigger] known[j]).address,
    ensures
        o.ethflow_data is None && 0 <= s < known.len() && known[s].address == o.sell_token
            ==> t.sell_symbol@ == known[s].symbol@ && t.sell_decimals == known[s].decimals,
        0 <= b < known.len() && known[b].address == o.buy_token ==> t.buy_symbol@
            == known[b].symbol@ && t.buy_decimals == known[b].decimals,
{
    lemma_known(known, o.sell_token, s);
    lemma_known(known, o.buy_token, b);
}

/// A token that the wallet does not know is shown by its short address, with 18
/// decimals; native coin is shown as ETH.
pub proof fn law_listed_orders_show_unknown_tokens(
    t: TrackedOrder,
    o: AccountOrder,
    chain: Chain,
    owner: Address,
    known: Seq<CuratedToken>,
)
    requires
        tracks(t, o, chain, owner, known),
    ensures
        o.ethflow_data is None && (forall|k: int|
            0 <= k < known.len() ==> (#[trigger] known[k]).address != o.sell_token)
            ==> t.sell_symbol@ == short_address_of(o.sell_token) && t.sell_decimals == 18,
        (forall|k: int| 0 <= k < known.len() ==> (#[trigger] known[k]).address != o.buy_token)
            ==> t.buy_symbol@ == short_address_of(o.buy_token) && t.buy_decimals == 18,
        o.ethflow_data is Some ==> t.sell_symbol@ == "ETH"@ && t.sell_decimals == 18,
{
    if forall|k: int| 0 <= k < known.len() ==> (#[trigger] known[k]).address != o.sell_token {
        lemma_unknown(known, o.sell_token);
    }
    if forall|k: int| 0 <= k < known.len() ==> (#[trigger] known[k]).address != o.buy_token {
        lemma_unknown(known, o.buy_token);
    }
}

/// A listed order keeps its identifier, its tokens, its amounts, its state and its fill;
/// it is the owner's, on the chain that was asked. An order for native coin lapses when
/// it lapses for its user.
pub proof fn law_listed_orders_are_followed_as_they_are(
    t: TrackedOrder,
    o: AccountOrder,
    chain: Chain,
    owner: Address,
    known: Seq<CuratedToken>,
)
    requires
        tracks(t, o, chain, owner, known),
    ensures
        t.uid == o.uid,
        t.chain == chain,
        t.owner == owner,
        t.sell_token == o.sell_token,
        t.buy_token == o.buy_token,
        t.sell_amount == o.sell_amount,
        t.buy_amount == o.buy_amount,
        t.status == o.status,
        t.executed == o.executed,
        o.kind@ == "buy"@ ==> t.kind == OrderKind::Buy,
        o.kind@ != "buy"@ ==> t.kind == OrderKind::Sell,
        t.is_ethflow <==> o.ethflow_data is Some,
        o.ethflow_data is None ==> t.valid_to == o.valid_to,
        o.ethflow_data matches Some(e) ==> (e.user_valid_to matches Some(v) ==> t.valid_to == v),
        o.ethflow_data matches Some(e) ==> (e.user_valid_to is None ==> t.valid_to == o.valid_to),
{
}

} // verus!
