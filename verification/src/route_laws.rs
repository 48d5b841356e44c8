//! Where the messages to the dashboard go.

use vstd::prelude::*;

use crate::account_dropdown;
use crate::activity::IndexedTx;
use crate::home::PendingSafeTx;
use crate::identity::SafeDescriptor;
use crate::name_writes::NamePhase;
use crate::nav::Nav;
use crate::orders::{CowHost, TrackedOrder};
use crate::portfolio::LiveToken;
use crate::review::ReviewLeg;
use crate::screen::{
    silent, DetailFacts, EnvModel, Modal, NamesNotice, ScreenModel, SettingsModel,
    VerificationStatus,
};
use crate::screen_fetch::{
    on_balances, on_begin_rename, on_history, on_nav, on_picker, on_queue, on_reconnect, on_refresh,
    on_retry, on_safes, on_swapped, on_theme,
};
use crate::screen_message::{Message, ReviewEvent};
use crate::screen_orders::{
    on_cancelled, on_name_read, on_name_written, on_open_swap, on_orders, on_placed, on_poll,
    on_quote, on_status, on_swap, OrderNews, SwapOutcome,
};
use crate::screen_panes::{
    contact_list, on_clear_timer, on_clipboard_read, on_receive, on_safes_settings, on_save_contact,
    on_tick, on_tx_details, on_wizard, SafesOutcome, TxDetailsOutcome,
};
use crate::screen_safe::{
    on_action_done, on_detail, on_detail_loaded, on_exec_sim, on_inner_sim, on_open_detail,
    DetailEvent,
};
use crate::screen_send::{
    on_broadcast, on_open_receive, on_open_send, on_open_tx, on_safe_broadcast, on_safe_propose,
    on_send, SendEvent,
};
use crate::screen_swap::on_prepared;
use crate::signer::SignerHandoff;
use crate::swap::QuoteResponse;
use crate::types::{Address, Chain, Hash32, NetworkId};
use crate::update_dialog::on_dialog;
use crate::update_news::on_news;
use crate::update_orders::{on_order_news, on_review};
use crate::update_pane::on_pane;

verus! {

/// What was read of names is handed to the names app as what it is.
#[verifier::rlimit(40)]
pub proof fn law_name_reads_reach_the_names_app(
    m: ScreenModel,
    env: EnvModel,
    owner: Address,
    seq: u64,
    years: u32,
)
    ensures
        on_order_news(m, Message::NameReverseScanned { owner }, env)
            == on_name_read(m, owner, NamesNotice::Scanned),
        on_order_news(m, Message::NameStatusLoaded { owner }, env)
            == on_name_read(m, owner, NamesNotice::StatusLoaded),
        on_order_news(m, Message::NameSearched { owner, seq }, env)
            == on_name_read(m, owner, NamesNotice::Searched(seq)),
        on_order_news(m, Message::NameQuoted { owner, years }, env)
            == on_name_read(m, owner, NamesNotice::Quoted(years)),
{
    reveal(on_order_news);
}

/// A name write that is done is told by what it was.
#[verifier::rlimit(40)]
pub proof fn law_name_writes_are_told_by_what_they_were(
    m: ScreenModel,
    env: EnvModel,
    signer: SignerHandoff,
)
    ensures
        on_order_news(m, Message::NameCommitted { signer }, env)
            == on_name_written(m, NamePhase::Commit, signer),
        on_order_news(m, Message::NameRegistered { signer }, env)
            == on_name_written(m, NamePhase::Reveal, signer),
        on_order_news(m, Message::NameRenewed { signer }, env)
            == on_name_written(m, NamePhase::Renew, signer),
        on_order_news(m, Message::NameRecipientSet { signer }, env)
            == on_name_written(m, NamePhase::Recipient, signer),
{
    reveal(on_order_news);
}

/// Quotes, and what became of an order, are taken in.
#[verifier::rlimit(40)]
pub proof fn law_quotes_and_placed_orders_are_taken_in(
    m: ScreenModel,
    env: EnvModel,
    host: CowHost,
    quoted: Result<QuoteResponse, String>,
    placed: Result<TrackedOrder, String>,
    uid: String,
    gone: Result<(), String>,
    signer: SignerHandoff,
)
    ensures
        on_order_news(m, Message::CowQuote { host, result: quoted }, env)
            == on_quote(m, host, quoted),
        on_order_news(m, Message::CowPlaced { host, result: placed, signer }, env)
            == on_placed(m, host, placed, signer),
        on_order_news(m, Message::CowCancel { host, uid, result: gone, signer }, env)
            == on_cancelled(m, host, uid@, gone, signer),
{
    reveal(on_order_news);
}

/// News of orders are taken in, and asked for.
#[verifier::rlimit(40)]
pub proof fn law_news_of_orders_are_taken_in(
    m: ScreenModel,
    env: EnvModel,
    uid: String,
    news: Result<OrderNews, String>,
    address: Address,
    chain: Chain,
    orders: Result<Vec<TrackedOrder>, String>,
)
    ensures
        on_order_news(m, Message::CowStatus { uid, result: news }, env) == on_status(m, uid@, news),
        on_order_news(m, Message::CowPollTick, env) == on_poll(m),
        on_order_news(m, Message::CowAccountOrders { address, chain, result: orders }, env)
            == on_orders(m, address, orders),
{
    reveal(on_order_news);
}

/// A review gets what the user does in it, and the calls that were worked out for it.
#[verifier::rlimit(40)]
pub proof fn law_reviews_get_their_messages(
    m: ScreenModel,
    env: EnvModel,
    e: ReviewEvent,
    seq: u64,
    legs: Result<Vec<ReviewLeg>, String>,
)
    ensures
        on_order_news(m, Message::SignReview(e), env) == on_review(m, e),
        on_order_news(m, Message::SignReviewPrepared { seq, legs }, env)
            == on_prepared(m, seq, legs),
{
    reveal(on_order_news);
}

/// What is fetched is taken in by what it was fetched for.
#[verifier::rlimit(40)]
pub proof fn law_what_is_fetched_is_taken_in(
    m: ScreenModel,
    env: EnvModel,
    address: Address,
    network: NetworkId,
    tokens: Result<Vec<LiveToken>, String>,
    chain: Chain,
    txs: Result<Vec<IndexedTx>, String>,
    queue: Result<Vec<PendingSafeTx>, String>,
    slots: Vec<Option<Address>>,
)
    ensures
        on_news(m, Message::PortfolioFetched { address, network, result: tokens }, env)
            == on_balances(m, address, network, tokens, env),
        on_news(m, Message::HistoryFetched { address, chain, result: txs }, env)
            == on_history(m, address, chain, txs),
        on_news(m, Message::SafePendingFetched { safe: address, chain, result: queue }, env)
            == on_queue(m, address, chain, queue),
        on_news(m, Message::SwapTokensRefetched { address, network, slots, result: tokens }, env)
            == on_swapped(m, address, network, slots@, tokens, env),
{
    reveal(on_news);
}

/// A refresh, another try at the history and a change of the Safes are acted on.
#[verifier::rlimit(40)]
pub proof fn law_refreshes_are_started(
    m: ScreenModel,
    env: EnvModel,
    status: VerificationStatus,
    safes: Vec<SafeDescriptor>,
)
    ensures
        on_news(m, Message::VerificationRefreshed(status), env)
            == silent(ScreenModel { verification: status, ..m }),
        on_news(m, Message::SafesUpdated(safes), env) == on_safes(m, safes@, env),
        on_news(m, Message::RetryHistory, env) == on_retry(m, env),
        on_news(m, Message::RefreshPortfolio, env) == on_refresh(m, env),
{
    reveal(on_news);
}

/// News of a queued transaction are taken in by its dialog.
#[verifier::rlimit(40)]
pub proof fn law_news_of_a_queued_transaction_are_taken_in(
    m: ScreenModel,
    env: EnvModel,
    facts: Result<DetailFacts, String>,
    safe_tx_hash: Hash32,
    again: bool,
    done: Result<String, String>,
)
    ensures
        on_news(m, Message::SafeTxDetailLoaded(facts), env) == on_detail_loaded(m, facts),
        on_news(m, Message::SafeTxInnerSimLoaded { safe_tx_hash, again }, env)
            == on_inner_sim(m, safe_tx_hash, again),
        on_news(m, Message::SafeTxExecSimLoaded { safe_tx_hash, again }, env)
            == on_exec_sim(m, safe_tx_hash, again),
        on_news(m, Message::SafeTxActionDone(done), env) == on_action_done(m, done, env),
{
    reveal(on_news);
}

/// What became of a send is taken in.
#[verifier::rlimit(40)]
pub proof fn law_sends_come_back(
    m: ScreenModel,
    env: EnvModel,
    sent: Result<Hash32, String>,
    proposed: Result<(), String>,
    signer: SignerHandoff,
)
    ensures
        on_news(m, Message::SendBroadcastReturn { result: sent, signer }, env)
            == on_broadcast(m, sent, signer, env),
        on_news(m, Message::SafeSendBroadcastReturn(sent), env) == on_safe_broadcast(m, sent, env),
        on_news(m, Message::SafeSendProposeReturn(proposed), env)
            == on_safe_propose(m, proposed, env),
{
    reveal(on_news);
}

/// The dialog that is asked for is opened.
#[verifier::rlimit(40)]
pub proof fn law_dialogs_are_opened(
    m: ScreenModel,
    env: EnvModel,
    i: usize,
)
    ensures
        on_dialog(m, Message::OpenSend, env) == on_open_send(m, env),
        on_dialog(m, Message::OpenReceive, env) == on_open_receive(m, env),
        on_dialog(m, Message::OpenSwap, env) == on_open_swap(m, env),
        on_dialog(m, Message::OpenAccountDropdown, env)
            == silent(ScreenModel { modal: Modal::AccountDropdown, ..m }),
        on_dialog(m, Message::OpenTxDetails(i), env) == on_open_tx(m, i, env),
        on_dialog(m, Message::OpenSafeTxDetails(i), env) == on_open_detail(m, i, env),
{
    reveal(on_dialog);
}

/// A dialog gets what the user does in it.
#[verifier::rlimit(40)]
pub proof fn law_dialogs_get_their_messages(
    m: ScreenModel,
    env: EnvModel,
    child: account_dropdown::Message,
    closed: bool,
    sending: SendEvent,
    swapping: Option<SwapOutcome>,
    looking: Option<TxDetailsOutcome>,
    signing: DetailEvent,
)
    ensures
        on_dialog(m, Message::AccountDropdown(child), env) == on_picker(m, child, env),
        on_dialog(m, Message::Receive(closed), env) == on_receive(m, closed, env),
        on_dialog(m, Message::Send(sending), env) == on_send(m, sending, env),
        on_dialog(m, Message::Swap(swapping), env) == on_swap(m, swapping, env),
        on_dialog(m, Message::TxDetails(looking), env) == on_tx_details(m, looking, env),
        on_dialog(m, Message::SafeTxDetail(signing), env) == on_detail(m, signing, env),
{
    reveal(on_dialog);
}

/// Frames and the clipboard's timer are acted on.
#[verifier::rlimit(40)]
pub proof fn law_time_passes(
    m: ScreenModel,
    env: EnvModel,
    generation: u64,
    actual: Option<String>,
)
    ensures
        on_dialog(m, Message::Tick, env) == on_tick(m, env),
        on_dialog(m, Message::ClipboardClearArmed { generation }, env)
            == on_clear_timer(m, generation),
        on_dialog(m, Message::ClipboardClearProbe { generation, actual }, env)
            == on_clipboard_read(m, generation, actual),
{
    reveal(on_dialog);
}

/// Panes, themes and devices are picked.
#[verifier::rlimit(40)]
pub proof fn law_panes_are_picked(
    m: ScreenModel,
    env: EnvModel,
    nav: Nav,
    theme: u8,
    done: bool,
    o: Option<SafesOutcome>,
)
    ensures
        on_pane(m, Message::SelectNav(nav), env) == on_nav(m, nav, env),
        on_pane(m, Message::SelectTheme(theme), env) == on_theme(m, theme),
        on_pane(m, Message::ReconnectHardware, env) == on_reconnect(m),
        on_pane(m, Message::NetworkWizard(done), env) == on_wizard(m, done),
        on_pane(m, Message::SafesSettings(o), env) == on_safes_settings(m, o),
{
    reveal(on_pane);
}

/// The settings that are asked for are opened, and left.
#[verifier::rlimit(40)]
pub proof fn law_settings_are_opened(
    m: ScreenModel,
    env: EnvModel,
    address: Address,
    ens: Option<String>,
)
    ensures
        on_pane(m, Message::OpenNetworksSettings, env)
            == silent(ScreenModel { settings: SettingsModel::NetworkWizard, ..m }),
        on_pane(m, Message::OpenSafesSettings, env)
            == silent(ScreenModel { settings: SettingsModel::Safes, ..m }),
        on_pane(m, Message::OpenAppearanceSettings, env)
            == silent(ScreenModel { settings: SettingsModel::Appearance, ..m }),
        on_pane(m, Message::CloseAppearanceSettings, env)
            == silent(ScreenModel { settings: SettingsModel::Root, ..m }),
        on_pane(m, Message::OpenContactsSettings, env)
            == silent(ScreenModel { settings: SettingsModel::Contacts(contact_list()), ..m }),
        on_pane(m, Message::OpenContactsPaneWith { address, ens }, env)
            == on_save_contact(m, address, ens, env),
{
    reveal(on_pane);
}

/// The active account's name is typed only while it is renamed, and the rename can be left.
#[verifier::rlimit(40)]
pub proof fn law_a_name_is_typed(
    m: ScreenModel,
    env: EnvModel,
    s: String,
)
    ensures
        on_pane(m, Message::BeginRenameAccount, env) == on_begin_rename(m),
        on_pane(m, Message::CancelRename, env) == silent(ScreenModel { rename_draft: None, ..m }),
        m.rename_draft is Some ==> on_pane(m, Message::RenameInput(s), env) == silent(
            ScreenModel { rename_draft: Some(s@), ..m },
        ),
        m.rename_draft is None ==> on_pane(m, Message::RenameInput(s), env) == silent(m),
{
    reveal(on_pane);
}

} // verus!
