//! What is signed and sent, from the user's word to what is handed out.

use vstd::prelude::*;

use crate::history::capped;
use crate::identity::{desc_of, first_key, AccountDescriptor, SafeTrust};
use crate::keys::Event;
use crate::orders::{follows, lemma_place, place_of, uids_distinct, CowHost, TrackedOrder};
use crate::portfolio::holding_of;
use crate::review::{ReviewLeg, SignAction};
use crate::safe_tx::{signable_version, Executor};
use crate::screen::{
    idle, Act, DetailModal, Effect, EnvModel, Modal, ScreenModel, SendModal, SwapNotice, Wish,
};
use crate::screen_message::ReviewEvent;
use crate::screen_safe::{on_detail, on_open_detail, DetailEvent};
use crate::screen_send::{
    accounts_at, on_broadcast, on_open_send, on_safe_broadcast, on_safe_propose, on_send, SafeAsk,
    SendEvent, SendOutcome,
};
use crate::screen_swap::{on_prepared, on_review_cancel, on_review_swap};
use crate::signer::{Signer, SignerHandoff};
use crate::swap::{CowContracts, OrderTexts, QuoteResponse, SwapDraft};
use crate::text::middle_cut;
use crate::types::{Address, Chain, Hash32};
use crate::update_orders::on_review;

verus! {

/// Every part of the dashboard but the dialog, its frame, the signer's desk and the
/// review is as it was.
pub open spec fn else_same(a: ScreenModel, b: ScreenModel) -> bool {
    &&& a.identity == b.identity
    &&& a.theme == b.theme
    &&& a.nav == b.nav
    &&& a.verification == b.verification
    &&& a.settings == b.settings
    &&& a.portfolio == b.portfolio
    &&& a.rename_draft == b.rename_draft
    &&& a.history == b.history
    &&& a.queue == b.queue
    &&& a.clipboard == b.clipboard
    &&& a.orders == b.orders
    &&& a.apps == b.apps
}

/// The signer has left the desk: a placeholder without a key stands for it.
pub open spec fn signer_away(a: ScreenModel, b: ScreenModel) -> bool {
    &&& b.desk.signer == Signer::ViewOnly(a.desk.address)
    &&& b.desk.address == a.desk.address
}

// ── reviews ─────────────────────────────────────────────────────────────────

/// The account's order that is confirmed is placed: the one of the review, signed by the
/// account's own signer, for the account's own address.
pub proof fn law_a_confirmed_order_is_placed(
    m: ScreenModel,
    host: CowHost,
    draft: SwapDraft,
    quote: QuoteResponse,
)
    requires
        m.gate.review is Some,
        m.gate.review->0.action == (SignAction::Cow { host, draft, quote }),
        m.identity.active_safe is None,
        m.identity.active_index < m.identity.accounts.len(),
    ensures
        ({
            let t = on_review(m, ReviewEvent::Confirm);
            let tells = host == CowHost::Modal && m.modal is Swap;
            &&& t.answer.wish is None
            &&& t.answer.acts.len() == if tells {
                2nat
            } else {
                1nat
            }
            &&& tells ==> t.answer.acts[0] == Act::Plain(
                Effect::Swap { host, notice: SwapNotice::Placing },
            )
            &&& t.answer.acts.last() == Act::Plain(
                Effect::PlaceOrder {
                    host,
                    handoff: SignerHandoff { cell: Some(m.desk.signer) },
                    desc: m.identity.accounts[m.identity.active_index as int],
                    draft,
                    quote,
                    user: m.identity.address,
                },
            )
            &&& t.state.gate.review is None
            &&& t.state.desk.order_op_in_flight
            &&& signer_away(m, t.state)
            &&& else_same(m, t.state)
            &&& t.state.modal == m.modal
        }),
{
}

/// The Safe's order that is confirmed is placed by the Safe on screen and its owners;
/// where it has no owner that can sign, the user is told.
pub proof fn law_a_safes_confirmed_order_is_placed(
    m: ScreenModel,
    host: CowHost,
    draft: SwapDraft,
    quote: QuoteResponse,
)
    requires
        m.gate.review is Some,
        m.gate.review->0.action == (SignAction::Cow { host, draft, quote }),
        m.identity.active_safe is Some,
    ensures
        ({
            let t = on_review(m, ReviewEvent::Confirm);
            &&& t.answer.wish is None
            &&& t.state.gate.review is None
            &&& else_same(m, t.state)
            &&& t.state.modal == m.modal
            &&& m.identity.swap_ctx() is Some ==> {
                &&& t.answer.acts.last() == (Act::PlaceOrderSafe {
                    host,
                    handoff: SignerHandoff { cell: Some(m.desk.signer) },
                    draft,
                    quote,
                    ctx: m.identity.swap_ctx()->0,
                })
                &&& t.answer.acts.len() == if host == CowHost::Modal && m.modal is Swap {
                    2nat
                } else {
                    1nat
                }
                &&& t.state.desk.order_op_in_flight
                &&& signer_away(m, t.state)
            }
            &&& m.identity.swap_ctx() is None ==> {
                &&& t.state.desk == m.desk
                &&& host == CowHost::Apps ==> t.answer.acts == seq![
                    Act::SwapFailed {
                        host,
                        why:
                            "This Safe can't place swaps — it needs a recognized implementation, a signable owner, and a CoW-supported chain."@,
                    },
                ]
            }
        }),
{
}

/// Of orders that are followed once, the one with an identifier is found by it.
pub proof fn lemma_found(s: Seq<TrackedOrder>, uid: Seq<char>, k: int)
    requires
        uids_distinct(s),
        0 <= k < s.len(),
        s[k].uid@ == uid,
    ensures
        follows(s, uid),
        place_of(s, uid) == k,
    decreases s.len(),
{
    lemma_place(s, uid);
    if k > 0 {
        let rest = s.drop_first();
        assert(s[0].uid@ != s[k].uid@);
        assert forall|i: int, j: int| 0 <= i < j < rest.len() implies (#[trigger] rest[i]).uid@ != (
        #[trigger] rest[j]).uid@ by {
            assert(rest[i] == s[i + 1]);
            assert(rest[j] == s[j + 1]);
        }
        assert(rest[k - 1] == s[k]);
        lemma_found(rest, uid, k - 1);
    }
}

/// The cancellation that is confirmed is that of the order under review, on the order's
/// own chain: by the Safe on screen where the order is the Safe's, else by the account.
pub proof fn law_a_confirmed_cancellation_is_made(
    m: ScreenModel,
    host: CowHost,
    uid: String,
    k: int,
)
    requires
        m.gate.review is Some,
        m.gate.review->0.action == (SignAction::CowCancel { host, uid }),
        uids_distinct(m.orders),
        0 <= k < m.orders.len(),
        m.orders[k].uid@ == uid@,
        m.identity.active_index < m.identity.accounts.len(),
    ensures
        ({
            let t = on_review(m, ReviewEvent::Confirm);
            let own = m.identity.safe() is Some && m.identity.safe()->0.address
                == m.orders[k].owner;
            &&& t.answer.wish is None
            &&& t.state.gate.review is None
            &&& else_same(m, t.state)
            &&& t.state.modal == m.modal
            &&& !own ==> {
                &&& t.answer.acts == seq![
                    Act::Plain(
                        Effect::CancelOrder {
                            host,
                            handoff: SignerHandoff { cell: Some(m.desk.signer) },
                            desc: m.identity.accounts[m.identity.active_index as int],
                            chain: m.orders[k].chain,
                            uid,
                        },
                    ),
                ]
                &&& t.state.desk.order_op_in_flight
                &&& signer_away(m, t.state)
            }
            &&& own && m.identity.swap_ctx() is Some ==> {
                &&& t.answer.acts == seq![
                    Act::CancelOrderSafe {
                        host,
                        handoff: SignerHandoff { cell: Some(m.desk.signer) },
                        chain: m.orders[k].chain,
                        uid,
                        ctx: m.identity.swap_ctx()->0,
                    },
                ]
                &&& t.state.desk.order_op_in_flight
                &&& signer_away(m, t.state)
            }
            &&& own && m.identity.swap_ctx() is None ==> t.answer.acts.len() == 0
                && t.state.desk == m.desk
        }),
{
    lemma_found(m.orders, uid@, k);
}

/// A review that the user leaves, by its button or by Escape, closes; nothing is done.
/// Anything else leaves it open.
pub proof fn law_a_review_can_be_left(m: ScreenModel, e: Event)
    ensures
        ({
            let t = on_review(m, ReviewEvent::Cancel);
            &&& t.answer == idle()
            &&& t.state.gate.review is None
            &&& else_same(m, t.state)
            &&& t.state.modal == m.modal && t.state.desk == m.desk
        }),
        e.is_escape() ==> on_review(m, ReviewEvent::Key(e)) == on_review(m, ReviewEvent::Cancel),
        !e.is_escape() ==> on_review(m, ReviewEvent::Key(e)).state == m && on_review(
            m,
            ReviewEvent::Key(e),
        ).answer == idle(),
        on_review(m, ReviewEvent::BoxClickIgnored).state == m,
        on_review(m, ReviewEvent::AddressCopied).state == m,
{
}

/// The calls that were worked out are shown in the review they were worked out for, and
/// in no other.
pub proof fn law_calls_are_shown_in_their_review(
    m: ScreenModel,
    seq: u64,
    legs: Vec<ReviewLeg>,
)
    requires
        m.gate.review is Some,
    ensures
        ({
            let t = on_prepared(m, seq, Ok(legs));
            let r = m.gate.review->0;
            &&& t.answer == idle()
            &&& r.seq != seq ==> t.state == m
            &&& r.seq == seq ==> {
                &&& t.state.gate.review is Some
                &&& t.state.gate.review->0.legs == legs@
                &&& !t.state.gate.review->0.legs_loading
                &&& t.state.gate.review->0.action == r.action
                &&& t.state.gate.review->0.order == r.order
                &&& t.state.gate.review->0.title == r.title
                &&& t.state.gate.review->0.seq == seq
                &&& else_same(m, t.state)
                &&& t.state.modal == m.modal && t.state.desk == m.desk
            }
        }),
{
}

/// Where the calls cannot be worked out the review closes, nothing is signed, and the
/// app that asked is told why.
pub proof fn law_a_failed_review_is_told(m: ScreenModel, seq: u64, why: String)
    requires
        m.gate.review is Some,
    ensures
        ({
            let t = on_prepared(m, seq, Err(why));
            let r = m.gate.review->0;
            &&& r.seq != seq ==> t.state == m && t.answer == idle()
            &&& r.seq == seq ==> {
                &&& t.state.gate.review is None
                &&& t.state.desk == m.desk
                &&& else_same(m, t.state)
                &&& match r.action {
                    SignAction::Cow { host, .. } => if host == CowHost::Modal && !(
                    m.modal is Swap) {
                        t.answer == idle()
                    } else {
                        t.answer.acts == seq![Act::SwapFailed { host, why: why@ }]
                    },
                    SignAction::CowCancel { .. } => t.answer == idle(),
                    SignAction::Name { sign } => t.answer.acts.len() == 1
                        && t.answer.acts[0] is NamesFailed && t.answer.acts[0]->NamesFailed_why
                        == why@,
                }
            }
        }),
{
}

/// The review of an order is opened on the order that was asked for, by the identity on
/// screen, and its calls are worked out for that same order.
pub proof fn law_an_order_is_reviewed(
    m: ScreenModel,
    host: CowHost,
    draft: SwapDraft,
    quote: QuoteResponse,
    texts: OrderTexts,
    contracts: CowContracts,
)
    requires
        m.gate.seq < u64::MAX,
    ensures
        ({
            let t = on_review_swap(m, host, draft, quote, texts, contracts);
            &&& m.gate.review is Some ==> t.state == m && t.answer == idle()
            &&& m.gate.review is None ==> {
                let r = t.state.gate.review->0;
                &&& t.state.gate.review is Some
                &&& r.action == (SignAction::Cow { host, draft, quote })
                &&& r.order is Some
                &&& r.order->0.sell_amount@ == texts.sell@
                &&& r.title == "Swap "@ + r.order->0.sell_amount@ + " "@ + r.order->0.sell_symbol@
                    + " → "@ + r.order->0.buy_symbol@
                &&& draft.is_native ==> r.note == Some(
                    "Selling native ETH is an on-chain order — you'll also pay gas."@,
                )
                &&& !draft.is_native ==> r.note == Some(
                    "ERC-20 orders are gasless — CoW solvers pay the settlement gas."@,
                )
                &&& r.subtitle is None
                &&& r.order->0.chain == draft.chain
                &&& r.order->0.sell_symbol == draft.sell_symbol
                &&& r.order->0.buy_symbol == draft.buy_symbol
                &&& r.order->0.buy_amount == texts.buy
                &&& r.order->0.min_received == texts.min
                &&& r.order->0.receiver == m.identity.shown()
                &&& r.order->0.valid_to == quote.quote.valid_to
                &&& r.order->0.slippage_bps == draft.slippage_bps
                &&& r.order->0.settlement == contracts.settlement
                &&& r.order->0.native == draft.is_native
                &&& r.legs.len() == 0 && r.legs_loading
                &&& r.seq == m.gate.seq + 1
                &&& t.state.gate.seq == m.gate.seq + 1
                &&& t.answer.acts == seq![
                    Act::Plain(
                        Effect::PrepareCow {
                            seq: r.seq,
                            user: m.identity.shown(),
                            draft,
                            quote,
                        },
                    ),
                ]
                &&& else_same(m, t.state)
                &&& t.state.modal == m.modal && t.state.desk == m.desk
            }
        }),
{
}

/// The review of a cancellation is opened on the order that is to be cancelled; it has
/// no calls to wait for.
pub proof fn law_a_cancellation_is_reviewed(
    m: ScreenModel,
    host: CowHost,
    uid: Seq<char>,
    sells: Seq<char>,
    k: int,
)
    requires
        m.gate.seq < u64::MAX,
        m.gate.review is None,
        uids_distinct(m.orders),
        0 <= k < m.orders.len(),
        m.orders[k].uid@ == uid,
    ensures
        ({
            let t = on_review_cancel(m, host, uid, sells);
            let r = t.state.gate.review->0;
            &&& t.answer == idle()
            &&& t.state.gate.review is Some
            &&& r.action == (SignAction::CowCancel { host, uid: m.orders[k].uid })
            &&& r.title == "Cancel order — "@ + sells + " "@ + m.orders[k].sell_symbol@ + " → "@
                + m.orders[k].buy_symbol@
            &&& r.note == Some(
                "Off-chain gasless cancellation — you sign an EIP-712 message; no transaction is sent."@,
            )
            &&& r.subtitle == Some("Order "@ + middle_cut(m.orders[k].uid@, 14, 8, 6))
            &&& r.order is None
            &&& r.legs.len() == 0 && !r.legs_loading
            &&& r.seq == m.gate.seq + 1
            &&& else_same(m, t.state)
            &&& t.state.modal == m.modal && t.state.desk == m.desk
        }),
{
    lemma_found(m.orders, uid, k);
}

// ── sends ───────────────────────────────────────────────────────────────────

/// The send dialog opens for the identity on screen: for a Safe in any case, for an
/// account that can sign, with its balances asked for afresh. A device that is not
/// connected has to be first; an address without a key does not send.
pub proof fn law_the_send_dialog_opens(m: ScreenModel, env: EnvModel)
    ensures
        ({
            let t = on_open_send(m, env);
            let safe = m.identity.safe() is Some;
            let live = m.desk.signer is Live;
            &&& safe || live ==> {
                &&& t.state.modal == Modal::Send(SendModal { is_safe: safe, busy: false })
                &&& t.state.chrome.open && !t.state.chrome.closing
                &&& t.state.chrome.start == env.now
                &&& t.state.desk == m.desk && t.state.gate == m.gate
                &&& else_same(m, t.state)
                &&& t.answer.wish is None
            }
            &&& safe ==> t.answer.acts.len() == 0
            &&& !safe && live ==> {
                &&& t.answer.acts.len() == 1 + m.identity.balance_networks(env.config).len()
                &&& t.answer.acts[0] == Act::Plain(
                    Effect::RefreshVerification(m.identity.shown()),
                )
                &&& forall|i: int|
                    0 <= i < m.identity.balance_networks(env.config).len()
                        ==> #[trigger] t.answer.acts[i + 1] == Act::Plain(
                        Effect::FetchBalances {
                            address: m.identity.shown(),
                            network: m.identity.balance_networks(env.config)[i],
                        },
                    )
            }
            &&& !safe && !live ==> {
                &&& t.state == m
                &&& t.answer.acts.len() == 0
                &&& t.answer.wish is Some <==> (m.identity.account() is Some && (
                m.identity.account()->0 is Ledger || m.identity.account()->0 is Trezor))
                &&& t.answer.wish is Some ==> t.answer.wish->0 == (Wish::NeedsHardwareReconnect {
                    open_send: true,
                })
            }
        }),
{
}

/// An account's send that is confirmed and ready is broadcast with the account's signer,
/// which leaves the desk until the answer comes. One that is not ready is not sent.
pub proof fn law_a_confirmed_send_is_broadcast(
    m: ScreenModel,
    env: EnvModel,
    busy: bool,
    request: Option<SafeAsk>,
)
    requires
        m.modal == Modal::Send(SendModal { is_safe: false, busy }),
        m.identity.active_index < m.identity.accounts.len(),
    ensures
        ({
            let t = on_send(m, SendEvent::Confirm { ready: true, request }, env);
            &&& t.answer.wish is None
            &&& t.answer.acts == seq![
                Act::Plain(
                    Effect::Broadcast {
                        handoff: SignerHandoff { cell: Some(m.desk.signer) },
                        desc: m.identity.accounts[m.identity.active_index as int],
                    },
                ),
            ]
            &&& t.state.modal == Modal::Send(SendModal { is_safe: false, busy: true })
            &&& signer_away(m, t.state)
            &&& t.state.desk.order_op_in_flight == m.desk.order_op_in_flight
            &&& else_same(m, t.state)
            &&& t.state.chrome == m.chrome && t.state.gate == m.gate
        }),
        ({
            let t = on_send(m, SendEvent::Confirm { ready: false, request }, env);
            t.state == m && t.answer == idle()
        }),
{
}

/// The accounts at some places of the wallet's list, where each place is in the list.
proof fn lemma_accounts_at(indices: Seq<u32>, accounts: Seq<AccountDescriptor>)
    requires
        forall|i: int| 0 <= i < indices.len() ==> #[trigger] indices[i] < accounts.len(),
    ensures
        accounts_at(indices, accounts).len() == indices.len(),
        forall|i: int|
            0 <= i < indices.len() ==> #[trigger] accounts_at(indices, accounts)[i]
                == accounts[indices[i] as int],
    decreases indices.len(),
{
    if indices.len() > 0 {
        let rest = indices.drop_last();
        assert forall|i: int| 0 <= i < rest.len() implies #[trigger] rest[i] < accounts.len() by {
            assert(rest[i] == indices[i]);
        }
        lemma_accounts_at(rest, accounts);
        assert forall|i: int| 0 <= i < indices.len() implies #[trigger] accounts_at(
            indices,
            accounts,
        )[i] == accounts[indices[i] as int] by {
            if i < rest.len() {
                assert(rest[i] == indices[i]);
            }
        }
    }
}

/// A Safe's send that is confirmed is signed by as many of the owners that can sign as
/// the Safe asks for, the first ones first, and paid for by the wallet's first key, or
/// by the first owner where there is none. With fewer owners nothing is sent, and the
/// user is told.
pub proof fn law_a_safes_send_is_signed_by_its_owners(
    m: ScreenModel,
    env: EnvModel,
    busy: bool,
    ready: bool,
    ask: SafeAsk,
)
    requires
        m.modal == Modal::Send(SendModal { is_safe: true, busy }),
        forall|i: int|
            0 <= i < ask.signable_indices@.len() ==> #[trigger] ask.signable_indices@[i]
                < m.identity.accounts.len(),
    ensures
        ({
            let t = on_send(m, SendEvent::Confirm { ready, request: Some(ask) }, env);
            let enough = ask.signable_indices@.len() >= ask.threshold;
            &&& t.answer.wish is None
            &&& t.answer.acts.len() == 1
            &&& t.state.desk == m.desk && t.state.gate == m.gate && t.state.chrome == m.chrome
            &&& else_same(m, t.state)
            &&& enough ==> {
                let a = t.answer.acts[0];
                &&& a is BroadcastSafe
                &&& a->BroadcastSafe_owners.len() == ask.threshold
                &&& forall|i: int|
                    0 <= i < ask.threshold ==> #[trigger] a->BroadcastSafe_owners[i]
                        == m.identity.accounts[ask.signable_indices@[i] as int]
                &&& first_key(m.identity.accounts) is Some ==> a->BroadcastSafe_executor
                    == Executor::Local(first_key(m.identity.accounts)->0)
                &&& first_key(m.identity.accounts) is None ==> a->BroadcastSafe_executor
                    == Executor::FirstOwner
                &&& t.state.modal == Modal::Send(SendModal { is_safe: true, busy: true })
            }
            &&& !enough ==> {
                &&& t.answer.acts[0] == Act::SendFailed(
                    "Not enough signable owners linked to this Safe to meet its threshold — propose to co-signers instead."@,
                )
                &&& t.state.modal == Modal::Send(SendModal { is_safe: true, busy: false })
            }
        }),
        ({
            let t = on_send(m, SendEvent::Confirm { ready, request: None }, env);
            t.state == m && t.answer == idle()
        }),
{
    lemma_accounts_at(ask.signable_indices@, m.identity.accounts);
    let all = accounts_at(ask.signable_indices@, m.identity.accounts);
    let few = capped(all, ask.threshold as nat);
    assert(ask.signable_indices@.len() >= ask.threshold ==> few.len() == ask.threshold);
    assert forall|i: int| 0 <= i < ask.threshold && ask.threshold <= all.len() implies #[trigger] few[i]
        == all[i] by {}
}

/// A proposal is signed by the first owner that can sign; with none, the user is told.
pub proof fn law_the_first_owner_proposes(m: ScreenModel, env: EnvModel, p: SendModal, ask: SafeAsk)
    requires
        m.modal == Modal::Send(p),
        forall|i: int|
            0 <= i < ask.signable_indices@.len() ==> #[trigger] ask.signable_indices@[i]
                < m.identity.accounts.len(),
    ensures
        ({
            let t = on_send(m, SendEvent::Propose { request: Some(ask) }, env);
            let some = ask.signable_indices@.len() > 0;
            &&& t.answer.wish is None
            &&& t.state.modal == Modal::Send(SendModal { is_safe: p.is_safe, busy: some })
            &&& t.state.desk == m.desk && t.state.gate == m.gate && t.state.chrome == m.chrome
            &&& else_same(m, t.state)
            &&& some ==> t.answer.acts == seq![
                Act::Plain(
                    Effect::ProposeSafe {
                        owner: m.identity.accounts[ask.signable_indices@[0] as int],
                    },
                ),
            ]
            &&& !some ==> t.answer.acts == seq![
                Act::ProposeFailed("no signable owner linked to this Safe"@),
            ]
        }),
{
}

/// The most that can be sent is worked out of the row that was picked; and a review of a
/// planned send asks for its gas and its meaning.
pub proof fn law_a_send_is_worked_out(m: ScreenModel, env: EnvModel, p: SendModal, i: usize)
    requires
        m.modal == Modal::Send(p),
    ensures
        ({
            let t = on_send(m, SendEvent::Max(i), env);
            &&& t.state == m && t.answer.wish is None
            &&& i < m.portfolio.rows.len() ==> t.answer.acts == seq![
                Act::Plain(Effect::ApplyMax(holding_of(m.portfolio.rows[i as int]))),
            ]
            &&& i >= m.portfolio.rows.len() ==> t.answer.acts.len() == 0
        }),
        ({
            let t = on_send(m, SendEvent::Review { planned: true }, env);
            &&& t.state == m && t.answer.wish is None
            &&& !p.is_safe ==> t.answer.acts == seq![
                Act::Plain(Effect::QuoteSend),
                Act::Plain(Effect::DecodeSend),
            ]
            &&& p.is_safe ==> t.answer.acts.len() == 0
        }),
        ({
            let t = on_send(m, SendEvent::Review { planned: false }, env);
            t.state == m && t.answer == idle()
        }),
{
}

/// What the send dialog asks for is done, and nothing that it does not: a name is looked
/// up, a transaction worked out, a simulation made again.
pub proof fn law_the_send_dialogs_wishes_are_met(
    m: ScreenModel,
    env: EnvModel,
    p: SendModal,
    seq: u64,
    name: String,
    delayed: bool,
)
    requires
        m.modal == Modal::Send(p),
    ensures
        ({
            let t = on_send(
                m,
                SendEvent::Other {
                    outcome: None,
                    lookup: Some((seq, name)),
                    prepare: true,
                    retry: Some(delayed),
                },
                env,
            );
            &&& t.state == m
            &&& t.answer.acts == seq![
                Act::Plain(Effect::ResolveSend { seq, name }),
                Act::Plain(Effect::PrepareSafeSend),
                Act::Plain(Effect::RetrySafeSim { delayed }),
            ]
        }),
        ({
            let t = on_send(
                m,
                SendEvent::Other {
                    outcome: None,
                    lookup: Some((seq, name)),
                    prepare: false,
                    retry: None,
                },
                env,
            );
            t.state == m && t.answer.acts == seq![Act::Plain(Effect::ResolveSend { seq, name })]
        }),
        ({
            let t = on_send(
                m,
                SendEvent::Other { outcome: None, lookup: None, prepare: true, retry: None },
                env,
            );
            t.state == m && t.answer.acts == seq![Act::Plain(Effect::PrepareSafeSend)]
        }),
        ({
            let t = on_send(
                m,
                SendEvent::Other {
                    outcome: None,
                    lookup: None,
                    prepare: false,
                    retry: Some(delayed),
                },
                env,
            );
            t.state == m && t.answer.acts == seq![Act::Plain(Effect::RetrySafeSim { delayed })]
        }),
{
}

/// The send dialog is closed, a text of it copied, and an address of it saved as a
/// contact, as the user asks.
pub proof fn law_the_send_dialog_is_left(
    m: ScreenModel,
    env: EnvModel,
    p: SendModal,
    text: String,
    address: Address,
    ens: Option<String>,
)
    requires
        m.modal == Modal::Send(p),
        m.chrome.open,
    ensures
        ({
            let e = SendEvent::Other {
                outcome: Some(SendOutcome::Closed),
                lookup: None,
                prepare: false,
                retry: None,
            };
            let t = on_send(m, e, env);
            &&& t.answer.acts.len() == 0 && t.answer.wish is None
            &&& p.is_safe ==> t.state.modal is Closed && t.state.chrome == m.chrome
            &&& !p.is_safe ==> t.state.modal == m.modal && t.state.chrome.closing
            &&& else_same(m, t.state)
            &&& t.state.desk == m.desk && t.state.gate == m.gate
        }),
        ({
            let e = SendEvent::Other {
                outcome: Some(SendOutcome::CopyText(text)),
                lookup: None,
                prepare: false,
                retry: None,
            };
            let t = on_send(m, e, env);
            &&& t.answer.acts.len() == 2
            &&& t.answer.acts[0] == Act::Plain(Effect::WriteClipboard(text))
            &&& t.answer.acts[1] == Act::Plain(
                Effect::StartClearTimer(t.state.clipboard.generation),
            )
            &&& t.state.clipboard.clear is Some
            &&& t.state.clipboard.clear->0.expected == text
            &&& t.state.modal == m.modal
        }),
        ({
            let e = SendEvent::Other {
                outcome: Some(SendOutcome::SaveAsContact { address, ens }),
                lookup: None,
                prepare: false,
                retry: None,
            };
            let t = on_send(m, e, env);
            &&& t.state == m
            &&& t.answer.acts == seq![Act::Plain(Effect::OpenContacts { address, ens })]
        }),
{
}

/// When an account's send comes back the signer is taken back and the dialog told; after
/// a success the balances are asked for, and the history where it was looked at.
pub proof fn law_a_send_comes_back(
    m: ScreenModel,
    env: EnvModel,
    p: SendModal,
    hash: Hash32,
    why: String,
    address: Address,
    handle: u64,
)
    requires
        m.modal == Modal::Send(p),
        m.desk.address == address,
    ensures
        ({
            let signer = SignerHandoff { cell: Some(Signer::Live { address, handle }) };
            let t = on_broadcast(m, Err(why), signer, env);
            &&& t.answer.acts == seq![Act::Plain(Effect::SendDone(Err(why)))]
            &&& t.state.desk.signer == (Signer::Live { address, handle })
            &&& t.state.modal == Modal::Send(SendModal { is_safe: p.is_safe, busy: false })
            &&& else_same(m, t.state)
        }),
        ({
            let signer = SignerHandoff { cell: Some(Signer::Live { address, handle }) };
            let t = on_broadcast(m, Ok(hash), signer, env);
            let n = m.identity.balance_networks(env.config).len();
            let h = m.identity.history_chains(env.config).len();
            &&& t.state.desk.signer == (Signer::Live { address, handle })
            &&& t.state.modal == Modal::Send(SendModal { is_safe: p.is_safe, busy: false })
            &&& t.answer.acts[0] == Act::Plain(Effect::SendDone(Ok(hash)))
            &&& t.answer.acts[1] == Act::Plain(Effect::RefreshVerification(m.identity.shown()))
            &&& t.answer.acts.last() == Act::Plain(Effect::AdvanceSend)
            &&& t.answer.acts.len() == 3 + n + if m.history.loaded {
                h
            } else {
                0
            }
            &&& !m.history.loaded ==> t.state.history == m.history
            &&& t.state.portfolio == m.portfolio && t.state.identity == m.identity
        }),
{
}

/// When a Safe's send or proposal comes back the dialog is told and can be used again;
/// after a send the balances are asked for, after a proposal the queue.
pub proof fn law_a_safes_send_comes_back(
    m: ScreenModel,
    env: EnvModel,
    p: SendModal,
    hash: Hash32,
    why: String,
)
    requires
        m.modal == Modal::Send(p),
    ensures
        ({
            let t = on_safe_broadcast(m, Ok(hash), env);
            &&& t.answer.acts.len() == 2 + m.identity.balance_networks(env.config).len()
            &&& t.answer.acts[0] == Act::Plain(Effect::SendDone(Ok(hash)))
            &&& t.answer.acts[1] == Act::Plain(Effect::RefreshVerification(m.identity.shown()))
            &&& t.state.modal == Modal::Send(SendModal { is_safe: p.is_safe, busy: false })
            &&& else_same(m, t.state) && t.state.desk == m.desk
        }),
        ({
            let t = on_safe_broadcast(m, Err(why), env);
            &&& t.answer.acts == seq![Act::Plain(Effect::SendDone(Err(why)))]
            &&& t.state.modal == Modal::Send(SendModal { is_safe: p.is_safe, busy: false })
            &&& else_same(m, t.state) && t.state.desk == m.desk
        }),
        ({
            let t = on_safe_propose(m, Err(why), env);
            &&& t.answer.acts == seq![Act::Plain(Effect::ProposeDone(Err(why)))]
            &&& t.state.modal == Modal::Send(SendModal { is_safe: p.is_safe, busy: false })
            &&& else_same(m, t.state) && t.state.desk == m.desk
        }),
        ({
            let t = on_safe_propose(m, Ok(()), env);
            &&& t.answer.acts[0] == Act::Plain(Effect::ProposeDone(Ok(())))
            &&& t.state.modal == Modal::Send(SendModal { is_safe: p.is_safe, busy: false })
            &&& else_same(m, t.state) && t.state.desk == m.desk
            &&& m.identity.queue_request(env.config) is None ==> t.answer.acts.len() == 1
            &&& m.identity.queue_request(env.config) is Some ==> {
                let (safe, chain, threshold) = m.identity.queue_request(env.config)->0;
                &&& t.answer.acts.len() == 2
                &&& t.answer.acts[1] == (Act::FetchQueue {
                    service: m.identity.safe()->0.service(),
                    safe,
                    chain,
                    threshold,
                })
            }
        }),
{
}

// ── queued transactions ─────────────────────────────────────────────────────

/// The queued transaction that was picked is shown, as one of the Safe on screen, and
/// asked for at the Safe's own service.
pub proof fn law_the_picked_transaction_is_shown(
    m: ScreenModel,
    env: EnvModel,
    i: usize,
    k: usize,
    c: Chain,
)
    requires
        m.identity.active_safe == Some(k),
        k < m.identity.safes.len(),
        m.identity.safes[k as int].chain_id == c.id(),
    ensures
        ({
            let t = on_open_detail(m, i, env);
            let s = m.identity.safes[k as int];
            &&& i >= m.queue.pending.len() ==> t.state == m && t.answer == idle()
            &&& i < m.queue.pending.len() ==> {
                &&& t.state.modal is SafeTxDetail
                &&& ({
                    let p = t.state.modal->SafeTxDetail_0;
                    &&& p.safe == s.address
                    &&& p.chain == c
                    &&& p.version == s.version
                    &&& p.trust == s.trust
                    &&& p.service == s.tx_service_url
                    &&& p.safe_tx_hash == m.queue.pending[i as int].safe_tx_hash
                    &&& p.nonce == m.queue.pending[i as int].nonce
                    &&& p.facts is None
                    &&& !p.busy && !p.executing && !p.exec_submitted
                })
                &&& t.answer.acts == seq![
                    Act::LoadDetail {
                        service: s.service(),
                        safe: s.address,
                        chain: c,
                        hash: m.queue.pending[i as int].safe_tx_hash,
                        threshold: s.threshold,
                        delayed: false,
                    },
                ]
                &&& t.state.chrome.open && !t.state.chrome.closing
                &&& else_same(m, t.state) && t.state.desk == m.desk && t.state.gate == m.gate
            }
        }),
{
    crate::types::law_chains_are_found_by_id(c);
}

/// A queued transaction is signed by the owner that was picked, for the Safe that it
/// belongs to, and the Safe's service is told; it is executed with the wallet's first
/// key; and its rejection takes its place, by its number.
pub proof fn law_a_queued_transaction_is_acted_on(
    m: ScreenModel,
    env: EnvModel,
    p: DetailModal,
    owner: Address,
    desc: AccountDescriptor,
    key: Hash32,
)
    requires
        m.modal == Modal::SafeTxDetail(p),
        p.facts is Some,
        m.identity.safe() is Some,
        m.identity.safe()->0.address == p.safe,
        m.identity.safe()->0.chain_id == p.chain.id(),
        m.identity.safe()->0.trust == SafeTrust::Canonical,
    ensures
        signable_version(p.version@) && desc_of(m.identity.accounts, owner) == Some(desc) ==> {
            let t = on_detail(m, DetailEvent::Confirm { owner: Some(owner) }, env);
            &&& t.answer.wish is None
            &&& t.answer.acts.len() == 1
            &&& t.answer.acts[0] is ConfirmTx
            &&& t.answer.acts[0]->ConfirmTx_owner == desc
            &&& t.answer.acts[0]->ConfirmTx_safe == p.safe
            &&& t.answer.acts[0]->ConfirmTx_chain == p.chain
            &&& t.answer.acts[0]->ConfirmTx_hash == p.safe_tx_hash
            &&& p.service is Some ==> t.answer.acts[0]->ConfirmTx_service == p.service->0@
            &&& t.state.modal == Modal::SafeTxDetail(
                (DetailModal { busy: true, executing: false, ..p }),
            )
            &&& else_same(m, t.state) && t.state.desk == m.desk
        },
        first_key(m.identity.accounts) == Some(key) ==> {
            let t = on_detail(m, DetailEvent::Execute, env);
            &&& t.answer.acts == seq![
                Act::Plain(
                    Effect::ExecuteTx { key, safe: p.safe, chain: p.chain, hash: p.safe_tx_hash },
                ),
            ]
            &&& t.state.modal == Modal::SafeTxDetail(
                (DetailModal { busy: true, executing: true, ..p }),
            )
            &&& else_same(m, t.state) && t.state.desk == m.desk
        },
        signable_version(p.version@) && desc_of(m.identity.accounts, owner) == Some(desc) ==> {
            let t = on_detail(m, DetailEvent::Reject { owner: Some(owner) }, env);
            &&& t.answer.wish is None
            &&& t.answer.acts.len() == 1
            &&& t.answer.acts[0] is RejectTx
            &&& t.answer.acts[0]->RejectTx_owner == desc
            &&& t.answer.acts[0]->RejectTx_safe == p.safe
            &&& t.answer.acts[0]->RejectTx_chain == p.chain
            &&& t.answer.acts[0]->RejectTx_nonce == p.nonce
            &&& p.service is Some ==> t.answer.acts[0]->RejectTx_service == p.service->0@
            &&& t.state.modal == Modal::SafeTxDetail(
                (DetailModal { busy: true, executing: false, ..p }),
            )
            &&& else_same(m, t.state) && t.state.desk == m.desk
        },
{
}

/// What cannot be signed or executed is refused with its reason, and nothing is sent: a
/// Safe that is no longer on screen or not recognized, a version that is too old, an
/// owner that the wallet does not know, and an execution that no key pays for.
pub proof fn law_a_queued_transaction_is_refused(
    m: ScreenModel,
    env: EnvModel,
    p: DetailModal,
    owner: Option<Address>,
)
    requires
        m.modal == Modal::SafeTxDetail(p),
        p.facts is Some,
    ensures
        ({
            let confirm = on_detail(m, DetailEvent::Confirm { owner }, env);
            let reject = on_detail(m, DetailEvent::Reject { owner }, env);
            let execute = on_detail(m, DetailEvent::Execute, env);
            let here = m.identity.safe() is Some && m.identity.safe()->0.address == p.safe
                && m.identity.safe()->0.chain_id == p.chain.id();
            let known = owner is Some && desc_of(m.identity.accounts, owner->0) is Some;
            let left = DetailModal { busy: false, executing: false, ..p };
            &&& !here ==> {
                let why =
                    "Safe selection changed; reopen transaction details before signing."@;
                &&& confirm.answer.acts == seq![Act::DetailFailed(why)]
                &&& reject.answer.acts == seq![Act::DetailFailed(why)]
                &&& execute.answer.acts == seq![Act::DetailFailed(why)]
                &&& confirm.state.modal == Modal::SafeTxDetail(left)
                &&& reject.state.modal == Modal::SafeTxDetail(left)
                &&& execute.state.modal == Modal::SafeTxDetail(left)
            }
            &&& here && m.identity.safe()->0.trust != SafeTrust::Canonical ==> {
                &&& confirm.answer.acts.len() == 1 && confirm.answer.acts[0] is DetailFailed
                &&& reject.answer.acts.len() == 1 && reject.answer.acts[0] is DetailFailed
                &&& execute.answer.acts.len() == 1 && execute.answer.acts[0] is DetailFailed
            }
            &&& here && m.identity.safe()->0.trust == SafeTrust::Canonical ==> {
                &&& !signable_version(p.version@) ==> {
                    let why = "Safe version "@ + p.version@
                        + " is outside the signable range (1.3.0 and later)"@;
                    &&& confirm.answer.acts == seq![Act::DetailFailed(why)]
                    &&& reject.answer.acts == seq![Act::DetailFailed(why)]
                }
                &&& signable_version(p.version@) && !known ==> {
                    &&& confirm.answer.acts == seq![
                        Act::DetailFailed("no linked owner left to sign with"@),
                    ]
                    &&& reject.answer.acts == seq![
                        Act::DetailFailed("no linked owner available to reject"@),
                    ]
                }
                &&& first_key(m.identity.accounts) is None ==> execute.answer.acts == seq![
                    Act::DetailFailed("need a Local account to pay gas for execution"@),
                ]
            }
            &&& else_same(m, confirm.state) && confirm.state.desk == m.desk
            &&& else_same(m, reject.state) && reject.state.desk == m.desk
            &&& else_same(m, execute.state) && execute.state.desk == m.desk
        }),
{
}

/// A transaction that the queue has not told of is neither signed nor executed.
pub proof fn law_an_unknown_transaction_is_not_signed(
    m: ScreenModel,
    env: EnvModel,
    p: DetailModal,
    owner: Option<Address>,
)
    requires
        m.modal == Modal::SafeTxDetail(p),
        p.facts is None,
    ensures
        on_detail(m, DetailEvent::Confirm { owner }, env).state == m,
        on_detail(m, DetailEvent::Confirm { owner }, env).answer == idle(),
        on_detail(m, DetailEvent::Execute, env).state == m,
        on_detail(m, DetailEvent::Execute, env).answer == idle(),
{
}

} // verus!
