//! What every message to the dashboard keeps.

use vstd::prelude::*;

use crate::contacts::ContactView;
use crate::screen::{EnvModel, ScreenModel};
use crate::screen_message::Message;
use crate::screen_steps::{
    settled, settles_action_done, settles_apps, settles_balances, settles_begin_rename,
    settles_broadcast, settles_cancelled, settles_clipboard_read, settles_commit_rename,
    settles_contacts, settles_detail, settles_detail_loaded, settles_exec_sim, settles_history,
    settles_inner_sim, settles_name_found, settles_nav, settles_open_detail, settles_open_send,
    settles_open_tx, settles_orders, settles_picker, settles_placed, settles_poll, settles_queue,
    settles_refresh, settles_retry, settles_safe_broadcast, settles_safe_propose, settles_safes,
    settles_save_contact, settles_send, settles_status, settles_swap, settles_swapped,
    settles_tx_details,
};
use crate::screen_swap::on_prepared;
use crate::screen_update::{on_message, Luck};
use crate::update_dialog::on_dialog;
use crate::update_news::on_news;
use crate::update_orders::{on_order_news, on_review};
use crate::update_pane::on_pane;

verus! {

// ── whatever happens ────────────────────────────────────────────────────────

pub(crate) proof fn settles_news(m: ScreenModel, msg: Message, env: EnvModel)
    ensures
        settled(m, on_news(m, msg, env)),
{
    reveal(on_news);
    match msg {
        Message::SafesUpdated(safes) => settles_safes(m, safes@, env),
        Message::PortfolioFetched { address, network, result } => settles_balances(
            m,
            address,
            network,
            result,
            env,
        ),
        Message::HistoryFetched { address, chain, result } => settles_history(
            m,
            address,
            chain,
            result,
        ),
        Message::SafePendingFetched { safe, chain, result } => settles_queue(
            m,
            safe,
            chain,
            result,
        ),
        Message::SwapTokensRefetched { address, network, slots, result } => settles_swapped(
            m,
            address,
            network,
            slots@,
            result,
            env,
        ),
        Message::RetryHistory => settles_retry(m, env),
        Message::RefreshPortfolio => settles_refresh(m, env),
        Message::SafeTxDetailLoaded(result) => settles_detail_loaded(m, result),
        Message::SafeTxInnerSimLoaded { safe_tx_hash, again } => settles_inner_sim(
            m,
            safe_tx_hash,
            again,
        ),
        Message::SafeTxExecSimLoaded { safe_tx_hash, again } => settles_exec_sim(
            m,
            safe_tx_hash,
            again,
        ),
        Message::SafeTxActionDone(result) => settles_action_done(m, result, env),
        Message::SendBroadcastReturn { result, signer } => settles_broadcast(
            m,
            result,
            signer,
            env,
        ),
        Message::SafeSendBroadcastReturn(result) => settles_safe_broadcast(m, result, env),
        Message::SafeSendProposeReturn(result) => settles_safe_propose(m, result, env),
        _ => {
            assert(settled(m, on_news(m, msg, env))) by {
                reveal(settled);
            }
        },
    }
}

pub(crate) proof fn settles_order_news(m: ScreenModel, msg: Message, env: EnvModel)
    requires
        !(msg is SignReview),
        !(msg is SignReviewPrepared),
    ensures
        settled(m, on_order_news(m, msg, env)),
{
    reveal(on_order_news);
    match msg {
        Message::CowPlaced { host, result, signer } => settles_placed(m, host, result, signer),
        Message::CowCancel { host, uid, result, signer } => settles_cancelled(
            m,
            host,
            uid@,
            result,
            signer,
        ),
        Message::CowStatus { uid, result } => settles_status(m, uid@, result),
        Message::CowPollTick => settles_poll(m),
        Message::CowAccountOrders { address, result, .. } => settles_orders(m, address, result),
        Message::NameReverseScanned { .. } => {
            assert(settled(m, on_order_news(m, msg, env))) by {
                reveal(settled);
            }
        },
        Message::NameStatusLoaded { .. } => {
            assert(settled(m, on_order_news(m, msg, env))) by {
                reveal(settled);
            }
        },
        Message::NameSearched { .. } => {
            assert(settled(m, on_order_news(m, msg, env))) by {
                reveal(settled);
            }
        },
        Message::NameQuoted { .. } => {
            assert(settled(m, on_order_news(m, msg, env))) by {
                reveal(settled);
            }
        },
        Message::NameCommitted { .. } => {
            assert(settled(m, on_order_news(m, msg, env))) by {
                reveal(settled);
            }
        },
        Message::NameRegistered { .. } => {
            assert(settled(m, on_order_news(m, msg, env))) by {
                reveal(settled);
            }
        },
        Message::NameRenewed { .. } => {
            assert(settled(m, on_order_news(m, msg, env))) by {
                reveal(settled);
            }
        },
        Message::NameRecipientSet { .. } => {
            assert(settled(m, on_order_news(m, msg, env))) by {
                reveal(settled);
            }
        },
        Message::CowQuote { .. } => {
            assert(settled(m, on_order_news(m, msg, env))) by {
                reveal(settled);
            }
        },
        msg => settles_news(m, msg, env),
    }
}

pub(crate) proof fn settles_dialog(m: ScreenModel, msg: Message, env: EnvModel)
    requires
        !(msg is SignReview),
        !(msg is SignReviewPrepared),
    ensures
        settled(m, on_dialog(m, msg, env)),
{
    reveal(on_dialog);
    match msg {
        Message::OpenSend => settles_open_send(m, env),
        Message::OpenReceive => {
            assert(settled(m, on_dialog(m, msg, env))) by {
                reveal(settled);
            }
        },
        Message::OpenSwap => {
            assert(settled(m, on_dialog(m, msg, env))) by {
                reveal(settled);
            }
        },
        Message::OpenAccountDropdown => {
            assert(settled(m, on_dialog(m, msg, env))) by {
                reveal(settled);
            }
        },
        Message::OpenTxDetails(i) => settles_open_tx(m, i, env),
        Message::OpenSafeTxDetails(i) => settles_open_detail(m, i, env),
        Message::AccountDropdown(child) => settles_picker(m, child, env),
        Message::Receive(_) => {
            assert(settled(m, on_dialog(m, msg, env))) by {
                reveal(settled);
            }
        },
        Message::Send(e) => settles_send(m, e, env),
        Message::Swap(o) => settles_swap(m, o, env),
        Message::TxDetails(o) => settles_tx_details(m, o, env),
        Message::SafeTxDetail(e) => settles_detail(m, e, env),
        Message::Tick => {
            assert(settled(m, on_dialog(m, msg, env))) by {
                reveal(settled);
            }
        },
        Message::ClipboardClearArmed { .. } => {
            assert(settled(m, on_dialog(m, msg, env))) by {
                reveal(settled);
            }
        },
        Message::ClipboardClearProbe { generation, actual } => settles_clipboard_read(
            m,
            generation,
            actual,
        ),
        msg => settles_order_news(m, msg, env),
    }
}

pub(crate) proof fn settles_pane(m: ScreenModel, msg: Message, env: EnvModel)
    requires
        !(msg is SignReview),
        !(msg is SignReviewPrepared),
    ensures
        settled(m, on_pane(m, msg, env)),
{
    reveal(on_pane);
    match msg {
        Message::SelectNav(nav) => settles_nav(m, nav, env),
        Message::SelectTheme(_) => {
            assert(settled(m, on_pane(m, msg, env))) by {
                reveal(settled);
            }
        },
        Message::ReconnectHardware => {
            assert(settled(m, on_pane(m, msg, env))) by {
                reveal(settled);
            }
        },
        Message::OpenNetworksSettings => {
            assert(settled(m, on_pane(m, msg, env))) by {
                reveal(settled);
            }
        },
        Message::NetworkWizard(_) => {
            assert(settled(m, on_pane(m, msg, env))) by {
                reveal(settled);
            }
        },
        Message::OpenSafesSettings => {
            assert(settled(m, on_pane(m, msg, env))) by {
                reveal(settled);
            }
        },
        Message::SafesSettings(_) => {
            assert(settled(m, on_pane(m, msg, env))) by {
                reveal(settled);
            }
        },
        Message::OpenAppearanceSettings => {
            assert(settled(m, on_pane(m, msg, env))) by {
                reveal(settled);
            }
        },
        Message::CloseAppearanceSettings => {
            assert(settled(m, on_pane(m, msg, env))) by {
                reveal(settled);
            }
        },
        Message::OpenContactsSettings => {
            assert(settled(m, on_pane(m, msg, env))) by {
                reveal(settled);
            }
        },
        Message::OpenContactsPaneWith { address, ens } => settles_save_contact(
            m,
            address,
            ens,
            env,
        ),
        Message::BeginRenameAccount => settles_begin_rename(m),
        Message::RenameInput(_) => {
            assert(settled(m, on_pane(m, msg, env))) by {
                reveal(settled);
            }
        },
        Message::CancelRename => {
            assert(settled(m, on_pane(m, msg, env))) by {
                reveal(settled);
            }
        },
        msg => settles_dialog(m, msg, env),
    }
}

pub(crate) proof fn settles_message(
    m: ScreenModel,
    msg: Message,
    env: EnvModel,
    book: Option<Seq<ContactView>>,
    luck: Luck,
)
    requires
        !(msg is SignReview),
        !(msg is SignReviewPrepared),
    ensures
        settled(m, on_message(m, msg, env, book, luck)),
{
    match msg {
        Message::Contacts(c) => settles_contacts(m, c, book, luck.roll),
        Message::Apps(a) => settles_apps(m, a, luck.secret, env),
        Message::CommitRename => settles_commit_rename(m, luck.name),
        Message::EnsAutoNameResolved { address, result } => settles_name_found(
            m,
            address,
            result,
            luck.name,
        ),
        msg => settles_pane(m, msg, env),
    }
}

/// A message to the review gets through to it.
proof fn lemma_pane_hands_on(m: ScreenModel, msg: Message, env: EnvModel)
    requires
        msg is SignReview || msg is SignReviewPrepared,
    ensures
        on_pane(m, msg, env) == on_order_news(m, msg, env),
{
    assert(on_pane(m, msg, env) == on_dialog(m, msg, env)) by {
        reveal(on_pane);
    }
    assert(on_dialog(m, msg, env) == on_order_news(m, msg, env)) by {
        reveal(on_dialog);
    }
}

/// What comes of a message to the review.
pub(crate) proof fn lemma_review_messages(
    m: ScreenModel,
    msg: Message,
    env: EnvModel,
    book: Option<Seq<ContactView>>,
    luck: Luck,
)
    ensures
        msg matches Message::SignReview(e) ==> on_message(m, msg, env, book, luck) == on_review(
            m,
            e,
        ),
        msg matches Message::SignReviewPrepared { seq, legs } ==> on_message(
            m,
            msg,
            env,
            book,
            luck,
        ) == on_prepared(m, seq, legs),
{
    if msg is SignReview || msg is SignReviewPrepared {
        lemma_pane_hands_on(m, msg, env);
        assert(on_message(m, msg, env, book, luck) == on_order_news(m, msg, env));
        reveal(on_order_news);
    }
}

} // verus!
