//! What the dashboard makes of what is fetched, placed and told.

use vstd::prelude::*;

use crate::activity::IndexedTx;
use crate::apps::{
    apps_step, AppsAsk, AppsModel, AppsStep, AppsView, ComposerOutcome, NameOutcome,
};
use crate::deed_laws::{else_same, lemma_found};
use crate::history::no_errors;
use crate::home::PendingSafeTx;
use crate::identity::{AccountDescriptor, SafeDescriptor};
use crate::keys::Event;
use crate::name_writes::NamePhase;
use crate::orders::{undecided, uids_distinct, CowHost, OrderStatus, TrackedOrder};
use crate::pool_app::OutcomeView;
use crate::portfolio::LiveToken;
use crate::screen::{
    fetching_balances, fetching_history, idle, silent, Act, DetailFacts, DetailModal, Effect,
    EnvModel, Modal, NamesNotice, ScreenModel, SwapNotice,
};
use crate::screen_fetch::{
    on_balances, on_history, on_queue, on_refresh, on_retry, on_safes, on_swapped,
};
use crate::screen_orders::{
    fetching_orders, on_apps_ask, on_cancelled, on_copy, on_name_read, on_name_written,
    on_open_swap, on_orders, on_placed, on_poll, on_quote, on_status, on_swap, trades, OrderNews,
    SwapOutcome,
};
use crate::screen_safe::{
    first_local_address, on_action_done, on_detail, on_detail_loaded, on_exec_sim, on_inner_sim,
    DetailEvent,
};
use crate::signer::{Signer, SignerHandoff};
use crate::swap::{QuoteResponse, SwapDraft};
use crate::types::{all_chains, Address, Chain, Hash32, NetworkId};

verus! {

// ── queued transactions ─────────────────────────────────────────────────────

/// An execution is simulated from the first local account of the wallet that has an
/// address.
pub proof fn law_the_first_local_account_simulates(accounts: Seq<AccountDescriptor>, k: int)
    requires
        0 <= k < accounts.len(),
        accounts[k] is Local,
        forall|i: int| 0 <= i < k ==> !(#[trigger] accounts[i] is Local),
    ensures
        first_local_address(accounts) == accounts[k]->Local_address,
    decreases accounts.len(),
{
    if k > 0 {
        assert(!(accounts[0] is Local));
        let rest = accounts.drop_first();
        assert forall|i: int| 0 <= i < k - 1 implies !(#[trigger] rest[i] is Local) by {
            assert(rest[i] == accounts[i + 1]);
        }
        law_the_first_local_account_simulates(rest, k - 1);
    }
}

/// What the queue tells of the transaction on screen is taken in, and what it would do
/// is simulated: the call itself where it is a plain call, and its execution where it is
/// the next and was not sent yet. News of another transaction are dropped.
pub proof fn law_a_loaded_transaction_is_simulated(
    m: ScreenModel,
    p: DetailModal,
    f: DetailFacts,
    why: String,
    executor: Address,
)
    requires
        m.modal == Modal::SafeTxDetail(p),
        first_local_address(m.identity.accounts) == Some(executor),
    ensures
        ({
            let t = on_detail_loaded(m, Ok(f));
            let inner = Act::Plain(
                Effect::SimulateInner {
                    safe: p.safe,
                    chain: p.chain,
                    hash: p.safe_tx_hash,
                    delayed: false,
                },
            );
            let outer = Act::Plain(
                Effect::SimulateExecution {
                    executor,
                    safe: p.safe,
                    chain: p.chain,
                    hash: p.safe_tx_hash,
                    delayed: false,
                },
            );
            let runs = f.next_up && !p.exec_submitted;
            &&& f.safe_tx_hash != p.safe_tx_hash ==> t.state == m && t.answer == idle()
            &&& f.safe_tx_hash == p.safe_tx_hash ==> {
                &&& t.state.modal == Modal::SafeTxDetail((DetailModal { facts: Some(f), ..p }))
                &&& else_same(m, t.state) && t.state.desk == m.desk
                &&& f.operation == 0 && runs ==> t.answer.acts == seq![inner, outer]
                &&& f.operation == 0 && !runs ==> t.answer.acts == seq![inner]
                &&& f.operation != 0 && runs ==> t.answer.acts == seq![outer]
                &&& f.operation != 0 && !runs ==> t.answer.acts.len() == 0
            }
        }),
        ({
            let t = on_detail_loaded(m, Err(why));
            &&& t.answer == idle()
            &&& t.state.modal == Modal::SafeTxDetail((DetailModal { facts: None, ..p }))
            &&& else_same(m, t.state) && t.state.desk == m.desk
        }),
{
}

/// A simulation that has to be made again is made again after a moment, that one alone,
/// for the transaction still on screen.
pub proof fn law_a_simulation_is_made_again(
    m: ScreenModel,
    p: DetailModal,
    f: DetailFacts,
    hash: Hash32,
    again: bool,
    executor: Address,
    env: EnvModel,
)
    requires
        m.modal == Modal::SafeTxDetail(p),
        p.facts == Some(f),
        f.operation == 0,
        f.next_up,
        !p.exec_submitted,
        first_local_address(m.identity.accounts) == Some(executor),
    ensures
        on_inner_sim(m, hash, again).state == m,
        on_exec_sim(m, hash, again).state == m,
        again && hash == p.safe_tx_hash ==> on_inner_sim(m, hash, again).answer.acts == seq![
            Act::Plain(
                Effect::SimulateInner { safe: p.safe, chain: p.chain, hash, delayed: true },
            ),
        ],
        again && hash == p.safe_tx_hash ==> on_exec_sim(m, hash, again).answer.acts == seq![
            Act::Plain(
                Effect::SimulateExecution {
                    executor,
                    safe: p.safe,
                    chain: p.chain,
                    hash,
                    delayed: true,
                },
            ),
        ],
        !(again && hash == p.safe_tx_hash) ==> on_inner_sim(m, hash, again).answer == idle()
            && on_exec_sim(m, hash, again).answer == idle(),
        on_detail(m, DetailEvent::RetrySims, env).state == m,
        on_detail(m, DetailEvent::RetrySims, env).answer.acts == seq![
            Act::Plain(
                Effect::SimulateInner {
                    safe: p.safe,
                    chain: p.chain,
                    hash: p.safe_tx_hash,
                    delayed: false,
                },
            ),
            Act::Plain(
                Effect::SimulateExecution {
                    executor,
                    safe: p.safe,
                    chain: p.chain,
                    hash: p.safe_tx_hash,
                    delayed: false,
                },
            ),
        ],
{
}

/// When a signature or an execution is done the dialog can be used again and is told;
/// after a success the transaction is read at once and once more later, and the queue is
/// asked for. An execution that went out is remembered.
pub proof fn law_an_action_comes_back(
    m: ScreenModel,
    p: DetailModal,
    s: SafeDescriptor,
    done: String,
    why: String,
    env: EnvModel,
)
    requires
        m.modal == Modal::SafeTxDetail(p),
        m.identity.safe() == Some(s),
        m.identity.queue_request(env.config) is None,
        p.service is Some,
    ensures
        ({
            let t = on_action_done(m, Ok(done), env);
            let read = Act::LoadDetail {
                service: p.service->0@,
                safe: p.safe,
                chain: p.chain,
                hash: p.safe_tx_hash,
                threshold: s.threshold,
                delayed: false,
            };
            &&& t.answer.acts == seq![
                Act::Plain(Effect::DetailDone(Ok(done))),
                read,
                Act::LoadDetail {
                    service: p.service->0@,
                    safe: p.safe,
                    chain: p.chain,
                    hash: p.safe_tx_hash,
                    threshold: s.threshold,
                    delayed: true,
                },
            ]
            &&& t.state.modal == Modal::SafeTxDetail(
                (DetailModal {
                    busy: false,
                    executing: false,
                    exec_submitted: p.exec_submitted || p.executing,
                    ..p
                }),
            )
            &&& else_same(m, t.state) && t.state.desk == m.desk
        }),
        ({
            let t = on_action_done(m, Err(why), env);
            &&& t.answer.acts == seq![Act::Plain(Effect::DetailDone(Err(why)))]
            &&& t.state.modal == Modal::SafeTxDetail(
                (DetailModal { busy: false, executing: false, ..p }),
            )
            &&& else_same(m, t.state) && t.state.desk == m.desk
        }),
{
}

// ── orders ──────────────────────────────────────────────────────────────────

/// What the swap dialog asks for is done for the identity on screen, with the draft and
/// the quote that it gives.
pub proof fn law_the_swap_dialogs_wishes_are_met(
    m: ScreenModel,
    env: EnvModel,
    draft: SwapDraft,
    quote: QuoteResponse,
    uid: String,
    text: String,
)
    requires
        m.modal is Swap,
        m.chrome.open,
    ensures
        on_swap(m, Some(SwapOutcome::RequestQuote(draft)), env).answer.acts == seq![
            Act::Plain(
                Effect::QuoteSwap { host: CowHost::Modal, draft, user: m.identity.shown() },
            ),
        ],
        on_swap(m, Some(SwapOutcome::RequestPlace { draft, quote }), env).answer.acts == seq![
            Act::Plain(Effect::ReviewSwap { host: CowHost::Modal, draft, quote }),
        ],
        on_swap(m, Some(SwapOutcome::RequestCancel { uid }), env).answer.acts == seq![
            Act::Plain(Effect::ReviewCancel { host: CowHost::Modal, uid }),
        ],
        on_swap(m, Some(SwapOutcome::RequestQuote(draft)), env).state == m,
        on_swap(m, Some(SwapOutcome::RequestPlace { draft, quote }), env).state == m,
        on_swap(m, Some(SwapOutcome::RequestCancel { uid }), env).state == m,
        on_swap(m, Some(SwapOutcome::Closed), env).state.chrome.closing,
        on_swap(m, Some(SwapOutcome::Closed), env).state.modal is Swap,
        on_swap(m, Some(SwapOutcome::Closed), env).answer == idle(),
        on_swap(m, Some(SwapOutcome::CopyText(text)), env) == on_copy(m, text, env),
        on_swap(m, None, env) == silent(m),
{
}

/// The swap dialog opens for an identity that can swap, and for no other.
pub proof fn law_the_swap_dialog_opens(m: ScreenModel, env: EnvModel)
    ensures
        m.identity.swaps(m.desk.signer is Live) ==> {
            let t = on_open_swap(m, env);
            &&& t.answer == idle()
            &&& t.state.modal is Swap
            &&& t.state.chrome.open && !t.state.chrome.closing && t.state.chrome.start == env.now
            &&& else_same(m, t.state) && t.state.desk == m.desk && t.state.gate == m.gate
        },
        !m.identity.swaps(m.desk.signer is Live) ==> on_open_swap(m, env) == silent(m),
{
}

/// A copied text is written to the clipboard, and is cleared from it after ten seconds.
pub proof fn law_a_copied_text_is_cleared(m: ScreenModel, text: String, env: EnvModel)
    requires
        env.now <= 1_000_000_000_000_000,
        m.clipboard.generation < u64::MAX,
    ensures
        ({
            let t = on_copy(m, text, env);
            &&& t.answer.wish is None
            &&& t.answer.acts == seq![
                Act::Plain(Effect::WriteClipboard(text)),
                Act::Plain(Effect::StartClearTimer((m.clipboard.generation + 1) as u64)),
            ]
            &&& t.state.clipboard.generation == m.clipboard.generation + 1
            &&& t.state.clipboard.clear is Some
            &&& t.state.clipboard.clear->0.expected == text
            &&& t.state.clipboard.clear->0.generation == m.clipboard.generation + 1
            &&& t.state.clipboard.clear->0.deadline == env.now + 10_000
            &&& t.state.orders == m.orders && t.state.modal == m.modal && t.state.identity
                == m.identity && t.state.portfolio == m.portfolio && t.state.desk == m.desk
        }),
{
}

/// What the apps ask for is done for the identity on screen, with the draft, the quote,
/// the order or the text that they give.
pub proof fn law_the_apps_wishes_are_met(
    m: ScreenModel,
    env: EnvModel,
    secret: Hash32,
    draft: SwapDraft,
    quote: QuoteResponse,
    uid: String,
    o: OutcomeView,
)
    ensures
        on_apps_ask(m, AppsAsk::RequestQuote(draft), secret, env).answer.acts == seq![
            Act::Plain(Effect::QuoteSwap { host: CowHost::Apps, draft, user: m.identity.shown() }),
        ],
        on_apps_ask(m, AppsAsk::RequestPlace { draft, quote }, secret, env).answer.acts == seq![
            Act::Plain(Effect::ReviewSwap { host: CowHost::Apps, draft, quote }),
        ],
        on_apps_ask(m, AppsAsk::RequestCancel { uid }, secret, env).answer.acts == seq![
            Act::Plain(Effect::ReviewCancel { host: CowHost::Apps, uid }),
        ],
        on_apps_ask(m, AppsAsk::Pool(o), secret, env).answer.acts == seq![Act::Pool(o)],
        on_apps_ask(m, AppsAsk::CopyText(uid), secret, env) == on_copy(m, uid, env),
        on_apps_ask(m, AppsAsk::RequestQuote(draft), secret, env).state == m,
        on_apps_ask(m, AppsAsk::RequestPlace { draft, quote }, secret, env).state == m,
        on_apps_ask(m, AppsAsk::RequestCancel { uid }, secret, env).state == m,
        on_apps_ask(m, AppsAsk::Pool(o), secret, env).state == m,
        on_apps_ask(m, AppsAsk::RefreshOrders, secret, env).state == m,
{
}

/// The orders of the identity on screen are fetched from every chain where orders can be
/// placed: Mainnet and Base.
pub proof fn law_orders_are_fetched_where_they_are_placed(
    m: ScreenModel,
    secret: Hash32,
    env: EnvModel,
)
    ensures
        on_apps_ask(m, AppsAsk::RefreshOrders, secret, env).answer.acts == seq![
            Act::Plain(
                Effect::FetchOrders { chain: Chain::Mainnet, owner: m.identity.shown() },
            ),
            Act::Plain(Effect::FetchOrders { chain: Chain::Base, owner: m.identity.shown() }),
        ],
{
    let all = all_chains();
    let p = trades();
    reveal_with_fuel(Seq::filter, 4);
    let a = all.drop_last();
    let b = a.drop_last();
    assert(a =~= seq![Chain::Mainnet, Chain::Optimism]);
    assert(b =~= seq![Chain::Mainnet]);
    assert(b.drop_last() =~= Seq::<Chain>::empty());
    assert(b.drop_last().filter(p) =~= Seq::<Chain>::empty());
    assert(b.filter(p) =~= seq![Chain::Mainnet]);
    assert(a.filter(p) =~= seq![Chain::Mainnet]);
    assert(all.filter(p) =~= seq![Chain::Mainnet, Chain::Base]);
    assert(fetching_orders(m.identity.shown()) =~= seq![
        Act::Plain(Effect::FetchOrders { chain: Chain::Mainnet, owner: m.identity.shown() }),
        Act::Plain(Effect::FetchOrders { chain: Chain::Base, owner: m.identity.shown() }),
    ]);
}

/// The apps pane shows the app that was opened, and asks what that app asks at first.
pub proof fn law_the_opened_app_is_shown(s: AppsModel, name: NameOutcome)
    ensures
        apps_step(s, crate::apps::Message::OpenSwapApp) == (AppsStep {
            state: AppsModel { view: AppsView::Swap, ..s },
            out: None,
        }),
        apps_step(s, crate::apps::Message::OpenNamesApp(Some(name))) == (AppsStep {
            state: AppsModel { view: AppsView::Names, ..s },
            out: Some(AppsAsk::Name(name)),
        }),
        apps_step(s, crate::apps::Message::OpenNamesApp(None)) == (AppsStep {
            state: AppsModel { view: AppsView::Names, ..s },
            out: None,
        }),
        apps_step(s, crate::apps::Message::OpenPrivacyPoolsApp) == (AppsStep {
            state: AppsModel { view: AppsView::PrivacyPools, ..s },
            out: Some(AppsAsk::Pool(OutcomeView::Sync(s.pool.chain))),
        }),
{
}

/// The apps pane goes back to its launcher by its button and by Escape.
pub proof fn law_the_launcher_is_shown_again(s: AppsModel, e: Event)
    ensures
        apps_step(s, crate::apps::Message::BackHome) == (AppsStep {
            state: AppsModel { view: AppsView::Launcher, ..s },
            out: None,
        }),
        e.is_escape() ==> apps_step(s, crate::apps::Message::Key(e)) == (AppsStep {
            state: AppsModel { view: AppsView::Launcher, ..s },
            out: None,
        }),
        !e.is_escape() ==> apps_step(s, crate::apps::Message::Key(e)) == (AppsStep {
            state: s,
            out: None,
        }),
{
}

/// The apps pane hands on what its apps ask for.
pub proof fn law_the_apps_wishes_are_handed_on(
    s: AppsModel,
    name: NameOutcome,
    draft: SwapDraft,
    quote: QuoteResponse,
    text: String,
)
    ensures
        apps_step(s, crate::apps::Message::Names(Some(name))) == (AppsStep {
            state: s,
            out: Some(AppsAsk::Name(name)),
        }),
        apps_step(
            s,
            crate::apps::Message::Composer(Some(ComposerOutcome::RequestQuote(draft))),
        ) == (AppsStep { state: s, out: Some(AppsAsk::RequestQuote(draft)) }),
        apps_step(
            s,
            crate::apps::Message::Composer(Some(ComposerOutcome::RequestPlace { draft, quote })),
        ) == (AppsStep { state: s, out: Some(AppsAsk::RequestPlace { draft, quote }) }),
        apps_step(s, crate::apps::Message::Cancel(text)) == (AppsStep {
            state: s,
            out: Some(AppsAsk::RequestCancel { uid: text }),
        }),
        apps_step(s, crate::apps::Message::CopyExplorerLink(text)) == (AppsStep {
            state: s,
            out: Some(AppsAsk::CopyText(text)),
        }),
        apps_step(s, crate::apps::Message::RefreshOrders) == (AppsStep {
            state: s,
            out: Some(AppsAsk::RefreshOrders),
        }),
{
}

/// A quote is told to the app that asked for it; the dialog hears of it only while it is
/// open.
pub proof fn law_quotes_are_told(
    m: ScreenModel,
    host: CowHost,
    result: Result<QuoteResponse, String>,
)
    ensures
        on_quote(m, host, result).state == m,
        host == CowHost::Apps || m.modal is Swap ==> on_quote(m, host, result).answer.acts == seq![
            Act::Plain(Effect::Swap { host, notice: SwapNotice::Quote(result) }),
        ],
        host == CowHost::Modal && !(m.modal is Swap) ==> on_quote(m, host, result).answer.acts.len()
            == 0,
{
}

/// An order that was placed is followed from then on and asked after at once; the signer
/// is back on the desk. One that could not be placed is told.
pub proof fn law_a_placed_order_is_followed(
    m: ScreenModel,
    host: CowHost,
    o: TrackedOrder,
    why: String,
    address: Address,
    handle: u64,
)
    requires
        m.desk.address == address,
        host == CowHost::Apps || m.modal is Swap,
        forall|i: int| 0 <= i < m.orders.len() ==> (#[trigger] m.orders[i]).uid@ != o.uid@,
    ensures
        ({
            let signer = SignerHandoff { cell: Some(Signer::Live { address, handle }) };
            let t = on_placed(m, host, Ok(o), signer);
            &&& t.answer.acts.len() == 2
            &&& host == CowHost::Modal ==> t.answer.acts[0] == Act::Plain(
                Effect::Swap { host, notice: SwapNotice::Tracking(o.uid) },
            )
            &&& host == CowHost::Apps ==> t.answer.acts[0] == Act::Plain(
                Effect::Swap { host, notice: SwapNotice::Done },
            )
            &&& t.answer.acts[1] == Act::Plain(Effect::PollOrder { chain: o.chain, uid: o.uid })
            &&& t.state.orders == m.orders.push(o)
            &&& t.state.desk.signer == (Signer::Live { address, handle })
            &&& !t.state.desk.order_op_in_flight
            &&& t.state.modal == m.modal && t.state.portfolio == m.portfolio && t.state.identity
                == m.identity && t.state.gate == m.gate
        }),
        ({
            let signer = SignerHandoff { cell: Some(Signer::Live { address, handle }) };
            let t = on_placed(m, host, Err(why), signer);
            &&& t.answer.acts == seq![Act::SwapFailed { host, why: why@ }]
            &&& t.state.orders == m.orders
            &&& t.state.desk.signer == (Signer::Live { address, handle })
            &&& !t.state.desk.order_op_in_flight
            &&& else_same(m, t.state) && t.state.modal == m.modal
        }),
{
    crate::list_laws::law_placed_orders_are_followed(m.orders, o);
}

/// An order whose cancellation went through is cancelled, and no other; the signer is
/// back on the desk. One that could not be cancelled is told, and stays as it was.
pub proof fn law_a_cancelled_order_is_cancelled(
    m: ScreenModel,
    host: CowHost,
    k: int,
    other: int,
    why: String,
    address: Address,
    handle: u64,
)
    requires
        m.desk.address == address,
        host == CowHost::Apps || m.modal is Swap,
        uids_distinct(m.orders),
        0 <= k < m.orders.len(),
        0 <= other < m.orders.len(),
        other != k,
    ensures
        ({
            let signer = SignerHandoff { cell: Some(Signer::Live { address, handle }) };
            let t = on_cancelled(m, host, m.orders[k].uid@, Ok(()), signer);
            &&& t.answer == idle()
            &&& t.state.orders.len() == m.orders.len()
            &&& t.state.orders[k] == (TrackedOrder {
                status: OrderStatus::Cancelled,
                ..m.orders[k]
            })
            &&& t.state.orders[other] == m.orders[other]
            &&& t.state.desk.signer == (Signer::Live { address, handle })
            &&& !t.state.desk.order_op_in_flight
            &&& t.state.modal == m.modal && t.state.portfolio == m.portfolio && t.state.identity
                == m.identity && t.state.gate == m.gate
        }),
        ({
            let signer = SignerHandoff { cell: Some(Signer::Live { address, handle }) };
            let t = on_cancelled(m, host, m.orders[k].uid@, Err(why), signer);
            &&& t.answer.acts == seq![Act::SwapFailed { host, why: why@ }]
            &&& t.state.desk.signer == (Signer::Live { address, handle })
            &&& !t.state.desk.order_op_in_flight
            &&& else_same(m, t.state) && t.state.modal == m.modal
        }),
{
    lemma_found(m.orders, m.orders[k].uid@, k);
}

/// News of an order are taken in by that order alone; once it is filled, the balances it
/// touched are read again where its owner is on screen.
pub proof fn law_news_reach_their_order(
    m: ScreenModel,
    k: int,
    other: int,
    news: OrderNews,
    why: String,
)
    requires
        uids_distinct(m.orders),
        0 <= k < m.orders.len(),
        0 <= other < m.orders.len(),
        other != k,
    ensures
        ({
            let o = m.orders[k];
            let t = on_status(m, o.uid@, Ok(news));
            let open = o.status == OrderStatus::Open || o.status
                == OrderStatus::PresignaturePending;
            &&& t.state.orders.len() == m.orders.len()
            &&& t.state.orders[k] == (TrackedOrder {
                status: news.status,
                executed: if news.executed is Some {
                    news.executed
                } else {
                    o.executed
                },
                ..o
            })
            &&& t.state.orders[other] == m.orders[other]
            &&& open && news.status == OrderStatus::Fulfilled && o.owner == m.identity.shown()
                ==> {
                &&& t.answer.acts.len() == 1
                &&& t.answer.acts[0] is RefetchTokens
                &&& t.answer.acts[0]->RefetchTokens_0.owner == o.owner
                &&& t.answer.acts[0]->RefetchTokens_0.chain == o.chain
                &&& t.answer.acts[0]->RefetchTokens_0.slots[0] == Some(o.buy_token)
            }
            &&& !open || news.status != OrderStatus::Fulfilled || o.owner != m.identity.shown()
                ==> t.answer == idle()
            &&& t.state.desk == m.desk && t.state.modal == m.modal && t.state.portfolio
                == m.portfolio && t.state.gate == m.gate
        }),
        on_status(m, m.orders[k].uid@, Err(why)) == silent(m),
{
    lemma_found(m.orders, m.orders[k].uid@, k);
}

/// Every order that is not over is asked after, on its own chain, and no other.
pub proof fn law_open_orders_are_polled(m: ScreenModel, o: TrackedOrder)
    requires
        m.orders.contains(o),
        o.status == OrderStatus::Open || o.status == OrderStatus::PresignaturePending,
    ensures
        on_poll(m).state == m,
        on_poll(m).answer.acts.contains(
            Act::Plain(Effect::PollOrder { chain: o.chain, uid: o.uid }),
        ),
        on_poll(m).answer.acts.len() == undecided(m.orders).len(),
{
    crate::list_laws::law_undecided_orders_are_asked_after(m.orders, o);
    let i = choose|i: int| 0 <= i < undecided(m.orders).len() && undecided(m.orders)[i] == o;
    assert(on_poll(m).answer.acts[i] == Act::Plain(
        Effect::PollOrder { chain: o.chain, uid: o.uid },
    ));
}

/// A fetched order of the identity on screen is followed; what was fetched for another,
/// or could not be, changes nothing.
pub proof fn law_fetched_orders_are_followed(
    m: ScreenModel,
    address: Address,
    v: Vec<TrackedOrder>,
    why: String,
)
    requires
        v@.len() == 1,
        forall|i: int| 0 <= i < m.orders.len() ==> (#[trigger] m.orders[i]).uid@ != v@[0].uid@,
    ensures
        address == m.identity.shown() ==> on_orders(m, address, Ok(v)).state.orders
            == m.orders.push(v@[0]),
        address != m.identity.shown() ==> on_orders(m, address, Ok(v)) == silent(m),
        on_orders(m, address, Err(why)) == silent(m),
        on_orders(m, address, Ok(v)).answer == idle(),
{
    crate::list_laws::law_placed_orders_are_followed(m.orders, v@[0]);
    reveal_with_fuel(crate::orders::with_all_fetched, 2);
    assert(v@.drop_last() =~= Seq::<TrackedOrder>::empty());
    assert(v@.last() == v@[0]);
}

/// What was read of names is told while its owner is on screen; what was written is told
/// in any case, and the signer is back on the desk.
pub proof fn law_names_are_told(
    m: ScreenModel,
    owner: Address,
    seq: u64,
    phase: NamePhase,
    address: Address,
    handle: u64,
)
    requires
        m.desk.address == address,
    ensures
        on_name_read(m, owner, NamesNotice::Searched(seq)).state == m,
        owner == m.identity.shown() ==> on_name_read(
            m,
            owner,
            NamesNotice::Searched(seq),
        ).answer.acts == seq![Act::Plain(Effect::Names(NamesNotice::Searched(seq)))],
        ({
            let t = on_name_written(
                m,
                phase,
                SignerHandoff { cell: Some(Signer::Live { address, handle }) },
            );
            &&& t.answer.acts == seq![Act::Plain(Effect::Names(NamesNotice::Written(phase)))]
            &&& t.state.desk.signer == (Signer::Live { address, handle })
            &&& !t.state.desk.order_op_in_flight
            &&& else_same(m, t.state) && t.state.modal == m.modal && t.state.gate == m.gate
        }),
{
}

// ── fetches ─────────────────────────────────────────────────────────────────

/// Balances and history are fetched for the identity on screen, on each of its networks
/// and chains.
pub proof fn law_the_identity_on_screen_is_fetched(m: ScreenModel, env: EnvModel, i: int, j: int)
    requires
        0 <= i < m.identity.balance_networks(env.config).len(),
        0 <= j < m.identity.history_chains(env.config).len(),
    ensures
        fetching_balances(m.identity, env.config).len() == m.identity.balance_networks(
            env.config,
        ).len(),
        fetching_history(m.identity, env.config).len() == m.identity.history_chains(
            env.config,
        ).len(),
        fetching_balances(m.identity, env.config)[i] == Act::Plain(
            Effect::FetchBalances {
                address: m.identity.shown(),
                network: m.identity.balance_networks(env.config)[i],
            },
        ),
        fetching_history(m.identity, env.config)[j] == Act::Plain(
            Effect::FetchHistory {
                address: m.identity.shown(),
                chain: m.identity.history_chains(env.config)[j],
            },
        ),
{
}

/// A refresh asks for the balances of the identity on screen and, for a Safe, for its
/// queue at its own service.
pub proof fn law_a_refresh_asks_for_everything(
    m: ScreenModel,
    env: EnvModel,
    k: usize,
    c: Chain,
)
    requires
        m.identity.active_safe == Some(k),
        k < m.identity.safes.len(),
        m.identity.safes[k as int].chain_id == c.id(),
        env.config.rpcs.at(c),
    ensures
        ({
            let s = m.identity.safes[k as int];
            let t = on_refresh(m, env);
            &&& t.answer.wish is None
            &&& t.answer.acts == seq![
                Act::Plain(Effect::RefreshVerification(s.address)),
                Act::Plain(
                    Effect::FetchBalances { address: s.address, network: NetworkId::Builtin(c) },
                ),
                Act::FetchQueue {
                    service: s.service(),
                    safe: s.address,
                    chain: c,
                    threshold: s.threshold,
                },
            ]
            &&& t.state.portfolio.refreshing
            &&& t.state.queue.loading
            &&& t.state.queue.pending == m.queue.pending
            &&& t.state.identity == m.identity && t.state.history == m.history && t.state.modal
                == m.modal && t.state.desk == m.desk && t.state.orders == m.orders
        }),
{
    crate::identity_laws::law_a_safe_is_fetched_from_its_chain(m.identity, env.config, k, c);
    let s = m.identity.safes[k as int];
    assert(on_refresh(m, env).answer.acts =~= seq![
        Act::Plain(Effect::RefreshVerification(s.address)),
        Act::Plain(Effect::FetchBalances { address: s.address, network: NetworkId::Builtin(c) }),
        Act::FetchQueue { service: s.service(), safe: s.address, chain: c, threshold: s.threshold },
    ]);
}

/// When the wallet's Safes change they are those that came, and an open list of them is
/// shown afresh.
pub proof fn law_changed_safes_are_taken_in(
    m: ScreenModel,
    safes: Seq<SafeDescriptor>,
    env: EnvModel,
)
    requires
        m.identity.active_safe is None,
    ensures
        ({
            let t = on_safes(m, safes, env);
            &&& t.answer.wish is None
            &&& t.state.identity.safes == safes
            &&& t.state.identity.accounts == m.identity.accounts
            &&& t.state.identity.address == m.identity.address
            &&& t.state.identity.active_index == m.identity.active_index
            &&& t.state.identity.active_safe == m.identity.active_safe
            &&& m.settings is Safes ==> t.answer.acts == seq![Act::Plain(Effect::ReseedSafes)]
            &&& !(m.settings is Safes) ==> t.answer.acts.len() == 0
            &&& !t.state.queue.loading
            &&& t.state.portfolio == m.portfolio && t.state.modal == m.modal && t.state.desk
                == m.desk
        }),
{
}

/// The queue that is shown is that of the Safe on screen: what comes for it is shown, an
/// error beside what was shown before; what comes for another is dropped.
pub proof fn law_the_queue_is_the_safes(
    m: ScreenModel,
    safe: Address,
    chain: Chain,
    v: Vec<PendingSafeTx>,
    why: String,
    s: SafeDescriptor,
)
    requires
        m.identity.safe() == Some(s),
    ensures
        ({
            let ok = on_queue(m, safe, chain, Ok(v));
            let bad = on_queue(m, safe, chain, Err(why));
            let own = s.address == safe && s.chain_id == chain.id();
            &&& ok.answer == idle() && bad.answer == idle()
            &&& own ==> {
                &&& ok.state.queue.pending == v@
                &&& !ok.state.queue.loading && ok.state.queue.error is None
                &&& bad.state.queue.pending == m.queue.pending
                &&& !bad.state.queue.loading && bad.state.queue.error == Some(why)
                &&& ok.state.desk == m.desk && ok.state.modal == m.modal && ok.state.portfolio
                    == m.portfolio && ok.state.history == m.history
            }
            &&& !own ==> ok.state == m && bad.state == m
        }),
{
}

/// The history is asked for once more only where it is not being asked for already.
pub proof fn law_history_is_asked_again(m: ScreenModel, env: EnvModel)
    ensures
        m.history.loading ==> on_retry(m, env) == silent(m),
        !m.history.loading ==> {
            let t = on_retry(m, env);
            &&& t.answer.acts == fetching_history(m.identity, env.config)
            &&& t.state.history.loading
            &&& t.state.history.pending == m.identity.history_chains(env.config)
            &&& t.state.history.rows == m.history.rows
            &&& t.state.history.errors == no_errors()
            &&& t.state.portfolio == m.portfolio && t.state.desk == m.desk
        },
{
}

/// Fetched balances, and those read again after a fill, touch the balances alone; so does
/// fetched history the history.
pub proof fn law_what_is_fetched_stays_in_its_place(
    m: ScreenModel,
    address: Address,
    network: NetworkId,
    chain: Chain,
    tokens: Result<Vec<LiveToken>, String>,
    slots: Seq<Option<Address>>,
    txs: Result<Vec<IndexedTx>, String>,
    env: EnvModel,
)
    ensures
        on_balances(m, address, network, tokens, env).answer == idle(),
        on_balances(m, address, network, tokens, env).state == (ScreenModel {
            portfolio: on_balances(m, address, network, tokens, env).state.portfolio,
            ..m
        }),
        on_swapped(m, address, network, slots, tokens, env).answer == idle(),
        on_swapped(m, address, network, slots, tokens, env).state == (ScreenModel {
            portfolio: on_swapped(m, address, network, slots, tokens, env).state.portfolio,
            ..m
        }),
        on_history(m, address, chain, txs).answer == idle(),
        on_history(m, address, chain, txs).state == (ScreenModel {
            history: on_history(m, address, chain, txs).state.history,
            ..m
        }),
{
}

} // verus!
