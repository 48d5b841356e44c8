//! What holds of the dashboard whatever happens to it.

use vstd::prelude::*;

use crate::account_dropdown;
use crate::activity::IndexedTx;
use crate::apps::NameOutcome;
use crate::contacts::ContactView;
use crate::home::PendingSafeTx;
use crate::identity::{law_safe_is_pinned_to_its_chain, AccountDescriptor, SafeDescriptor};
use crate::name_writes::NameSign;
use crate::nav::Nav;
use crate::orders::{CowHost, TrackedOrder};
use crate::pool_app::Relayer;
use crate::portfolio::{
    any_kept, kept_for, law_seed_shows_what_was_kept, well_kept, LiveToken, Slot,
};
use crate::review::SignAction;
use crate::screen::{silent, Act, Effect, EnvModel, NamesNotice, ScreenModel};
use crate::screen_fetch::{on_balances, on_history, on_picker, on_queue, on_swapped};
use crate::screen_message::{Message, ReviewEvent};
use crate::screen_orders::{on_name_read, on_orders, on_placed};
use crate::screen_settles::{lemma_review_messages, settles_message};
use crate::screen_steps::{settled, signs, sound, unsigned};
use crate::screen_swap::{busy_text, on_confirm_review, on_name_ask, on_name_write, on_place};
use crate::screen_update::{on_message, Luck};
use crate::signer::{Signer, SignerHandoff};
use crate::swap::{QuoteResponse, SwapDraft};
use crate::types::{Address, Chain, Hash32, NetworkId};

verus! {

// ── laws ────────────────────────────────────────────────────────────────────

/// Nothing is signed that was not reviewed: whatever happens, no order is placed or
/// cancelled and no name written, and the signer is not lent to any of these, unless
/// the user confirms a review.
pub proof fn law_only_a_confirmed_review_signs(
    m: ScreenModel,
    msg: Message,
    env: EnvModel,
    book: Option<Seq<ContactView>>,
    luck: Luck,
)
    requires
        msg != Message::SignReview(ReviewEvent::Confirm) || m.gate.review is None,
    ensures
        unsigned(on_message(m, msg, env, book, luck).answer.acts),
        on_message(m, msg, env, book, luck).state.desk.order_op_in_flight
            ==> m.desk.order_op_in_flight,
{
    if msg is SignReview || msg is SignReviewPrepared {
        lemma_review_messages(m, msg, env, book, luck);
    } else {
        reveal(settled);
        settles_message(m, msg, env, book, luck);
    }
}

/// A review stays until the user decides, or until its calls turn out not to be: no
/// other message closes it, replaces it or changes it.
pub proof fn law_a_review_is_not_replaced(
    m: ScreenModel,
    msg: Message,
    env: EnvModel,
    book: Option<Seq<ContactView>>,
    luck: Luck,
)
    requires
        m.gate.review is Some,
        !(msg is SignReview),
        !(msg is SignReviewPrepared),
    ensures
        on_message(m, msg, env, book, luck).state.gate == m.gate,
{
    reveal(settled);
    settles_message(m, msg, env, book, luck);
}

/// A new dashboard is sound.
pub proof fn law_a_new_dashboard_is_sound(
    signer: Signer,
    accounts: Seq<AccountDescriptor>,
    safes: Seq<SafeDescriptor>,
    active_index: usize,
    cache: Map<Slot, Seq<LiveToken>>,
    nav: Option<Nav>,
    theme: u8,
    relayers: Seq<Relayer>,
    now: u64,
)
    ensures
        sound(
            ScreenModel::fresh(
                signer,
                accounts,
                safes,
                active_index,
                cache,
                nav,
                theme,
                relayers,
                now,
            ),
        ),
{
}

/// No message makes the dashboard unsound: the signer is always that of the active
/// account, or its placeholder, and no order is followed twice.
pub proof fn law_the_dashboard_stays_sound(
    m: ScreenModel,
    msg: Message,
    env: EnvModel,
    book: Option<Seq<ContactView>>,
    luck: Luck,
)
    requires
        sound(m),
    ensures
        sound(on_message(m, msg, env, book, luck).state),
{
    if msg is SignReview || msg is SignReviewPrepared {
        lemma_review_messages(m, msg, env, book, luck);
    } else {
        reveal(settled);
        settles_message(m, msg, env, book, luck);
    }
}

/// What the user confirms is what was reviewed: the review closes, and what is signed
/// is its order, its cancellation or its name write, and at most one of these.
pub proof fn law_the_reviewed_action_is_signed(m: ScreenModel, i: int)
    requires
        m.gate.review is Some,
        0 <= i < on_confirm_review(m).answer.acts.len(),
        signs(on_confirm_review(m).answer.acts[i]),
    ensures
        on_confirm_review(m).state.gate.review is None,
        on_confirm_review(m).state.desk == m.desk.parked(),
        i == on_confirm_review(m).answer.acts.len() - 1,
        match on_confirm_review(m).answer.acts[i] {
            Act::PlaceOrderSafe { host, draft, quote, .. } => m.gate.review->0.action
                == (SignAction::Cow { host, draft, quote }),
            Act::Plain(Effect::PlaceOrder { host, draft, quote, .. }) => m.gate.review->0.action
                == (SignAction::Cow { host, draft, quote }),
            Act::CancelOrderSafe { host, uid, .. } => m.gate.review->0.action
                == (SignAction::CowCancel { host, uid }),
            Act::Plain(Effect::CancelOrder { host, uid, .. }) => m.gate.review->0.action
                == (SignAction::CowCancel { host, uid }),
            Act::WriteNameSafe { sign, .. } => m.gate.review->0.action == (SignAction::Name {
                sign,
            }),
            Act::Plain(Effect::WriteName { sign, .. }) => m.gate.review->0.action == (
            SignAction::Name { sign }),
            _ => false,
        },
{
}

/// While a signature is being made, no name write is begun: asked for or confirmed,
/// it is refused, and nothing changes but the review that closes.
pub proof fn law_names_wait_for_other_signatures(
    m: ScreenModel,
    o: NameOutcome,
    sign: NameSign,
    secret: Hash32,
)
    requires
        m.signing(),
        o.writes(),
    ensures
        on_name_ask(m, o, secret).state == m,
        on_name_ask(m, o, secret).answer.acts == seq![
            Act::NamesFailed { phase: o.phase_of(), why: busy_text() },
        ],
        on_name_write(m, sign).state == m,
        unsigned(on_name_write(m, sign).answer.acts),
{
}

/// The Apps pane stays while an order is placed or cancelled, or a name written,
/// though the signer is away; and once the signer is back it is as it was.
pub proof fn law_apps_stay_while_the_signer_is_away(
    m: ScreenModel,
    host: CowHost,
    draft: SwapDraft,
    quote: QuoteResponse,
    why: String,
)
    requires
        sound(m),
        m.can_swap(),
        !m.desk.order_op_in_flight,
    ensures
        on_place(m, host, draft, quote).state.has_apps(),
        ({
            let away = on_place(m, host, draft, quote).state;
            let back = on_placed(away, host, Err(why), SignerHandoff { cell: Some(m.desk.signer) });
            &&& back.state.desk == m.desk
            &&& back.state.can_swap()
        }),
{
}

/// An answer for an identity that is no longer on screen changes nothing of what is
/// shown; balances go to the cache all the same.
pub proof fn law_stale_answers_are_not_shown(
    m: ScreenModel,
    address: Address,
    chain: Chain,
    network: NetworkId,
    balances: Result<Vec<LiveToken>, String>,
    feed: Result<Vec<IndexedTx>, String>,
    queue: Result<Vec<PendingSafeTx>, String>,
    orders: Result<Vec<TrackedOrder>, String>,
    slots: Seq<Option<Address>>,
    notice: NamesNotice,
    env: EnvModel,
)
    requires
        address != m.identity.shown(),
    ensures
        on_balances(m, address, network, balances, env).state.portfolio.rows == m.portfolio.rows,
        on_swapped(m, address, network, slots, balances, env).state.portfolio.rows
            == m.portfolio.rows,
        on_history(m, address, chain, feed) == silent(m),
        on_queue(m, address, chain, queue) == silent(m),
        on_orders(m, address, orders) == silent(m),
        on_name_read(m, address, notice) == silent(m),
{
}

/// A Safe that is picked starts afresh: with an empty feed, an empty queue and, where
/// balances are kept for it, with those, all on its own chain. Where none are kept the
/// rows stay until the first balances come.
pub proof fn law_picking_a_safe_starts_afresh(m: ScreenModel, i: usize, env: EnvModel)
    requires
        m.modal is AccountDropdown,
        i < m.identity.safes.len(),
        well_kept(m.portfolio.cache),
    ensures
        ({
            let t = on_picker(m, account_dropdown::Message::SelectSafe(i), env);
            let safe = m.identity.safes[i as int];
            let kept = any_kept(m.portfolio.cache, safe.address, t.state.scope(env.config));
            &&& t.state.identity.shown() == safe.address
            &&& t.state.modal is Closed
            &&& t.state.history.rows.len() == 0
            &&& !t.state.history.loaded
            &&& kept ==> {
                &&& t.state.portfolio.rows == kept_for(
                    m.portfolio.cache,
                    safe.address,
                    t.state.scope(env.config),
                )
                &&& forall|row: LiveToken|
                    t.state.portfolio.rows.contains(row) ==> (#[trigger] row.chain).id()
                        == safe.chain_id
            }
            &&& !kept ==> t.state.portfolio.rows == m.portfolio.rows
            &&& t.state.queue.pending.len() == 0
            &&& t.state.desk == m.desk
            &&& t.state.orders == m.orders
        }),
{
    let t = on_picker(m, account_dropdown::Message::SelectSafe(i), env);
    let safe = m.identity.safes[i as int];
    let scope = t.state.scope(env.config);
    let cache = m.portfolio.cache;
    if any_kept(cache, safe.address, scope) {
        assert forall|row: LiveToken| t.state.portfolio.rows.contains(row) implies (
        #[trigger] row.chain).id() == safe.chain_id by {
            law_seed_shows_what_was_kept(cache, safe.address, scope, row);
            let k = choose|k: int|
                0 <= k < scope.len() && cache.contains_key(
                    Slot { address: safe.address, network: #[trigger] scope[k] },
                ) && cache[Slot { address: safe.address, network: scope[k] }].contains(row);
            assert(row.chain == scope[k]);
            law_safe_is_pinned_to_its_chain(t.state.identity, env.config.custom, scope[k]);
        }
    }
}

/// No order of a Safe that cannot sign is placed, and no name written for it; the
/// signer stays on the desk.
pub proof fn law_a_safe_without_signers_signs_nothing(
    m: ScreenModel,
    host: CowHost,
    draft: SwapDraft,
    quote: QuoteResponse,
    sign: NameSign,
)
    requires
        m.identity.active_safe is Some,
    ensures
        m.identity.swap_ctx() is None ==> {
            &&& on_place(m, host, draft, quote).state == m
            &&& unsigned(on_place(m, host, draft, quote).answer.acts)
        },
        m.identity.name_ctx() is None ==> {
            &&& on_name_write(m, sign).state == m
            &&& unsigned(on_name_write(m, sign).answer.acts)
        },
{
}

} // verus!
