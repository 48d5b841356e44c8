//! What comes of what the user does in a dialog.

use vstd::prelude::*;

use crate::screen::{silent, Env, EnvModel, Modal, Reply, ScreenModel, Turn, WalletScreen};
use crate::screen_fetch::on_picker;
use crate::screen_message::Message;
use crate::screen_orders::{on_open_swap, on_swap};
use crate::screen_panes::{on_clear_timer, on_clipboard_read, on_receive, on_tick, on_tx_details};
use crate::screen_safe::{on_detail, on_open_detail};
use crate::screen_send::{on_open_receive, on_open_send, on_open_tx, on_send};
use crate::update_orders::on_order_news;

verus! {

/// What the user does in a dialog.
#[verifier::opaque]
pub open spec fn on_dialog(m: ScreenModel, msg: Message, env: EnvModel) -> Turn {
    match msg {
        Message::OpenSend => on_open_send(m, env),
        Message::OpenReceive => on_open_receive(m, env),
        Message::OpenSwap => on_open_swap(m, env),
        Message::OpenAccountDropdown => silent(
            ScreenModel { modal: Modal::AccountDropdown, ..m },
        ),
        Message::OpenTxDetails(i) => on_open_tx(m, i, env),
        Message::OpenSafeTxDetails(i) => on_open_detail(m, i, env),
        Message::AccountDropdown(child) => on_picker(m, child, env),
        Message::Receive(closed) => on_receive(m, closed, env),
        Message::Send(e) => on_send(m, e, env),
        Message::Swap(o) => on_swap(m, o, env),
        Message::TxDetails(o) => on_tx_details(m, o, env),
        Message::SafeTxDetail(e) => on_detail(m, e, env),
        Message::Tick => on_tick(m, env),
        Message::ClipboardClearArmed { generation } => on_clear_timer(m, generation),
        Message::ClipboardClearProbe { generation, actual } => on_clipboard_read(
            m,
            generation,
            actual,
        ),
        msg => on_order_news(m, msg, env),
    }
}

impl WalletScreen {
    /// Handles what the user does in a dialog; hands anything else on.
    pub(crate) fn update_dialog(&mut self, msg: Message, env: &Env) -> (r: Reply)
        ensures
            (Turn { state: final(self)@, answer: r@ }) == on_dialog(old(self)@, msg, env@),
    {
        proof {
            reveal(on_dialog);
        }
        match msg {
            Message::OpenSend => {
                return self.open_send(env);
            },
            Message::OpenReceive => {
                return self.open_receive(env);
            },
            Message::OpenSwap => {
                return self.open_swap(env);
            },
            Message::OpenAccountDropdown => {
                self.modal = Modal::AccountDropdown;
                return Reply::idle();
            },
            Message::OpenTxDetails(i) => {
                return self.open_tx_details(i, env);
            },
            Message::OpenSafeTxDetails(i) => {
                return self.open_safe_tx_details(i, env);
            },
            Message::AccountDropdown(child) => {
                return self.account_dropdown(child, env);
            },
            Message::Receive(closed) => {
                return self.receive(closed, env);
            },
            Message::Send(e) => {
                return self.send(e, env);
            },
            Message::Swap(o) => {
                return self.swap(o, env);
            },
            Message::TxDetails(o) => {
                return self.tx_details(o, env);
            },
            Message::SafeTxDetail(e) => {
                return self.safe_tx_detail(e, env);
            },
            Message::Tick => {
                return self.tick(env);
            },
            Message::ClipboardClearArmed { generation } => {
                return self.clipboard_clear_armed(generation);
            },
            Message::ClipboardClearProbe { generation, actual } => {
                return self.clipboard_clear_probe(
                    generation,
                    actual,
                );
            },
            msg => {
                return self.update_orders(msg, env);
            },
        }
    }
}

} // verus!
