//! What every step of the dashboard keeps.

use vstd::prelude::*;

use crate::account_dropdown;
use crate::activity::IndexedTx;
use crate::apps;
use crate::contacts::ContactView;
use crate::contacts_settings;
use crate::home::PendingSafeTx;
use crate::identity::SafeDescriptor;
use crate::nav::Nav;
use crate::orders::{
    law_orders_are_followed_once, uids_distinct, CowHost, OrderStatus, TrackedOrder,
};
use crate::portfolio::LiveToken;
use crate::screen::{Act, DetailFacts, Effect, EnvModel, ScreenModel, Turn};
use crate::screen_fetch::{
    on_balances, on_begin_rename, on_commit_rename, on_history, on_name_found, on_nav, on_picker,
    on_queue, on_refresh, on_retry, on_safes, on_swapped,
};
use crate::screen_message::Message;
use crate::screen_orders::{
    on_apps, on_cancelled, on_orders, on_placed, on_poll, on_status, on_swap, OrderNews,
    SwapOutcome,
};
use crate::screen_panes::{
    on_clipboard_read, on_contacts, on_save_contact, on_tx_details, TxDetailsOutcome,
};
use crate::screen_safe::{
    on_action_done, on_detail, on_detail_loaded, on_exec_sim, on_inner_sim, on_open_detail,
    DetailEvent,
};
use crate::screen_send::{
    on_broadcast, on_open_send, on_open_tx, on_safe_broadcast, on_safe_propose, on_send, SendEvent,
};
use crate::signer::SignerHandoff;
use crate::types::{Address, Chain, Hash32, NetworkId};

verus! {

/// Whether an order or a name write is signed.
pub open spec fn signs(a: Act) -> bool {
    match a {
        Act::PlaceOrderSafe { .. } => true,
        Act::CancelOrderSafe { .. } => true,
        Act::WriteNameSafe { .. } => true,
        Act::Plain(Effect::PlaceOrder { .. }) => true,
        Act::Plain(Effect::CancelOrder { .. }) => true,
        Act::Plain(Effect::WriteName { .. }) => true,
        _ => false,
    }
}

/// No order and no name write is signed.
pub open spec fn unsigned(s: Seq<Act>) -> bool {
    forall|i: int| 0 <= i < s.len() ==> !signs(#[trigger] s[i])
}

/// What holds of the dashboard at all times: the signer on its desk, or its
/// placeholder, is that of the active account; no order is followed twice; and the
/// review that is open was opened before the next.
pub open spec fn sound(m: ScreenModel) -> bool {
    &&& m.identity.address == m.desk.address
    &&& m.desk.signer.signs_for() == m.desk.address
    &&& uids_distinct(m.orders)
    &&& m.gate.review matches Some(r) ==> r.seq <= m.gate.seq
}

/// Nothing is signed, a review that is open stays as it is, and the dashboard stays
/// sound.
#[verifier::opaque]
pub open spec fn settled(m: ScreenModel, t: Turn) -> bool {
    &&& unsigned(t.answer.acts)
    &&& t.state.desk.order_op_in_flight ==> m.desk.order_op_in_flight
    &&& m.gate.review is Some ==> t.state.gate == m.gate
    &&& sound(m) ==> sound(t.state)
}

pub(crate) proof fn settles_refresh(m: ScreenModel, env: EnvModel)
    ensures
        settled(m, on_refresh(m, env)),
{
    reveal(settled);
}

pub(crate) proof fn settles_safes(m: ScreenModel, safes: Seq<SafeDescriptor>, env: EnvModel)
    ensures
        settled(m, on_safes(m, safes, env)),
{
    reveal(settled);
}

pub(crate) proof fn settles_balances(
    m: ScreenModel,
    address: Address,
    network: NetworkId,
    result: Result<Vec<LiveToken>, String>,
    env: EnvModel,
)
    ensures
        settled(m, on_balances(m, address, network, result, env)),
{
    reveal(settled);
}

pub(crate) proof fn settles_history(
    m: ScreenModel,
    address: Address,
    chain: Chain,
    result: Result<Vec<IndexedTx>, String>,
)
    ensures
        settled(m, on_history(m, address, chain, result)),
{
    reveal(settled);
}

pub(crate) proof fn settles_queue(
    m: ScreenModel,
    safe: Address,
    chain: Chain,
    result: Result<Vec<PendingSafeTx>, String>,
)
    ensures
        settled(m, on_queue(m, safe, chain, result)),
{
    reveal(settled);
}

pub(crate) proof fn settles_swapped(
    m: ScreenModel,
    address: Address,
    network: NetworkId,
    slots: Seq<Option<Address>>,
    result: Result<Vec<LiveToken>, String>,
    env: EnvModel,
)
    ensures
        settled(m, on_swapped(m, address, network, slots, result, env)),
{
    reveal(settled);
}

pub(crate) proof fn settles_retry(m: ScreenModel, env: EnvModel)
    ensures
        settled(m, on_retry(m, env)),
{
    reveal(settled);
}

pub(crate) proof fn settles_nav(m: ScreenModel, nav: Nav, env: EnvModel)
    ensures
        settled(m, on_nav(m, nav, env)),
{
    reveal(settled);
}

pub(crate) proof fn settles_picker(m: ScreenModel, child: account_dropdown::Message, env: EnvModel)
    ensures
        settled(m, on_picker(m, child, env)),
{
    reveal(settled);
}

pub(crate) proof fn settles_begin_rename(m: ScreenModel)
    ensures
        settled(m, on_begin_rename(m)),
{
    reveal(settled);
}

pub(crate) proof fn settles_commit_rename(m: ScreenModel, n: Option<String>)
    ensures
        settled(m, on_commit_rename(m, n)),
{
    reveal(settled);
}

pub(crate) proof fn settles_name_found(
    m: ScreenModel,
    address: Address,
    result: Result<Option<String>, String>,
    n: Option<String>,
)
    ensures
        settled(m, on_name_found(m, address, result, n)),
{
    reveal(settled);
}

pub(crate) proof fn settles_open_send(m: ScreenModel, env: EnvModel)
    ensures
        settled(m, on_open_send(m, env)),
{
    reveal(settled);
}

pub(crate) proof fn settles_open_tx(m: ScreenModel, i: usize, env: EnvModel)
    ensures
        settled(m, on_open_tx(m, i, env)),
{
    reveal(settled);
}

pub(crate) proof fn settles_send(m: ScreenModel, e: SendEvent, env: EnvModel)
    ensures
        settled(m, on_send(m, e, env)),
{
    reveal(settled);
}

pub(crate) proof fn settles_broadcast(
    m: ScreenModel,
    result: Result<Hash32, String>,
    signer: SignerHandoff,
    env: EnvModel,
)
    ensures
        settled(m, on_broadcast(m, result, signer, env)),
{
    reveal(settled);
}

pub(crate) proof fn settles_safe_broadcast(m: ScreenModel, result: Result<Hash32, String>, env: EnvModel)
    ensures
        settled(m, on_safe_broadcast(m, result, env)),
{
    reveal(settled);
}

pub(crate) proof fn settles_safe_propose(m: ScreenModel, result: Result<(), String>, env: EnvModel)
    ensures
        settled(m, on_safe_propose(m, result, env)),
{
    reveal(settled);
}

pub(crate) proof fn settles_clipboard_read(m: ScreenModel, generation: u64, actual: Option<String>)
    ensures
        settled(m, on_clipboard_read(m, generation, actual)),
{
    reveal(settled);
}

pub(crate) proof fn settles_tx_details(m: ScreenModel, o: Option<TxDetailsOutcome>, env: EnvModel)
    ensures
        settled(m, on_tx_details(m, o, env)),
{
    reveal(settled);
}

pub(crate) proof fn settles_save_contact(
    m: ScreenModel,
    address: Address,
    ens: Option<String>,
    env: EnvModel,
)
    ensures
        settled(m, on_save_contact(m, address, ens, env)),
{
    reveal(settled);
}

pub(crate) proof fn settles_contacts(
    m: ScreenModel,
    msg: contacts_settings::Message,
    book: Option<Seq<ContactView>>,
    roll: Seq<char>,
)
    ensures
        settled(m, on_contacts(m, msg, book, roll)),
{
    reveal(settled);
}

pub(crate) proof fn settles_swap(m: ScreenModel, o: Option<SwapOutcome>, env: EnvModel)
    ensures
        settled(m, on_swap(m, o, env)),
{
    reveal(settled);
}

pub(crate) proof fn settles_apps(m: ScreenModel, msg: apps::Message, secret: Hash32, env: EnvModel)
    ensures
        settled(m, on_apps(m, msg, secret, env)),
{
    reveal(settled);
}

pub(crate) proof fn settles_placed(
    m: ScreenModel,
    host: CowHost,
    result: Result<TrackedOrder, String>,
    signer: SignerHandoff,
)
    ensures
        settled(m, on_placed(m, host, result, signer)),
{
    reveal(settled);
    if sound(m) {
        if let Ok(o) = result {
            law_orders_are_followed_once(
                m.orders,
                o,
                Seq::empty(),
                OrderStatus::Open,
                None,
                Seq::empty(),
            );
        }
    }
}

pub(crate) proof fn settles_cancelled(
    m: ScreenModel,
    host: CowHost,
    uid: Seq<char>,
    result: Result<(), String>,
    signer: SignerHandoff,
)
    ensures
        settled(m, on_cancelled(m, host, uid, result, signer)),
{
    reveal(settled);
    if sound(m) {
        law_orders_are_followed_once(
            m.orders,
            arbitrary(),
            uid,
            OrderStatus::Open,
            None,
            Seq::empty(),
        );
    }
}

pub(crate) proof fn settles_status(m: ScreenModel, uid: Seq<char>, result: Result<OrderNews, String>)
    ensures
        settled(m, on_status(m, uid, result)),
{
    reveal(settled);
    if sound(m) {
        if let Ok(news) = result {
            law_orders_are_followed_once(
                m.orders,
                arbitrary(),
                uid,
                news.status,
                news.executed,
                Seq::empty(),
            );
        }
    }
}

pub(crate) proof fn settles_poll(m: ScreenModel)
    ensures
        settled(m, on_poll(m)),
{
    reveal(settled);
}

pub(crate) proof fn settles_orders(
    m: ScreenModel,
    address: Address,
    result: Result<Vec<TrackedOrder>, String>,
)
    ensures
        settled(m, on_orders(m, address, result)),
{
    reveal(settled);
    if sound(m) {
        if let Ok(v) = result {
            law_orders_are_followed_once(
                m.orders,
                arbitrary(),
                Seq::empty(),
                OrderStatus::Open,
                None,
                v@,
            );
        }
    }
}

pub(crate) proof fn settles_open_detail(m: ScreenModel, i: usize, env: EnvModel)
    ensures
        settled(m, on_open_detail(m, i, env)),
{
    reveal(settled);
}

pub(crate) proof fn settles_detail_loaded(m: ScreenModel, result: Result<DetailFacts, String>)
    ensures
        settled(m, on_detail_loaded(m, result)),
{
    reveal(settled);
}

pub(crate) proof fn settles_inner_sim(m: ScreenModel, hash: Hash32, again: bool)
    ensures
        settled(m, on_inner_sim(m, hash, again)),
{
    reveal(settled);
}

pub(crate) proof fn settles_exec_sim(m: ScreenModel, hash: Hash32, again: bool)
    ensures
        settled(m, on_exec_sim(m, hash, again)),
{
    reveal(settled);
}

pub(crate) proof fn settles_action_done(m: ScreenModel, result: Result<String, String>, env: EnvModel)
    ensures
        settled(m, on_action_done(m, result, env)),
{
    reveal(settled);
}

pub(crate) proof fn settles_detail(m: ScreenModel, e: DetailEvent, env: EnvModel)
    ensures
        settled(m, on_detail(m, e, env)),
{
    reveal(settled);
}

} // verus!
