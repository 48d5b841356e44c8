//! What comes of what was fetched or sent.

use vstd::prelude::*;

use crate::screen::{silent, Env, EnvModel, Reply, ScreenModel, Turn, WalletScreen};
use crate::screen_fetch::{
    on_balances, on_history, on_queue, on_refresh, on_retry, on_safes, on_swapped,
};
use crate::screen_message::Message;
use crate::screen_safe::{on_action_done, on_detail_loaded, on_exec_sim, on_inner_sim};
use crate::screen_send::{on_broadcast, on_safe_broadcast, on_safe_propose};

verus! {

/// What was fetched.
#[verifier::opaque]
pub open spec fn on_news(m: ScreenModel, msg: Message, env: EnvModel) -> Turn {
    match msg {
        Message::VerificationRefreshed(status) => silent(
            ScreenModel { verification: status, ..m },
        ),
        Message::SafesUpdated(safes) => on_safes(m, safes@, env),
        Message::PortfolioFetched { address, network, result } => on_balances(
            m,
            address,
            network,
            result,
            env,
        ),
        Message::HistoryFetched { address, chain, result } => on_history(
            m,
            address,
            chain,
            result,
        ),
        Message::SafePendingFetched { safe, chain, result } => on_queue(m, safe, chain, result),
        Message::SwapTokensRefetched { address, network, slots, result } => on_swapped(
            m,
            address,
            network,
            slots@,
            result,
            env,
        ),
        Message::RetryHistory => on_retry(m, env),
        Message::RefreshPortfolio => on_refresh(m, env),
        Message::SafeTxDetailLoaded(result) => on_detail_loaded(m, result),
        Message::SafeTxInnerSimLoaded { safe_tx_hash, again } => on_inner_sim(
            m,
            safe_tx_hash,
            again,
        ),
        Message::SafeTxExecSimLoaded { safe_tx_hash, again } => on_exec_sim(
            m,
            safe_tx_hash,
            again,
        ),
        Message::SafeTxActionDone(result) => on_action_done(m, result, env),
        Message::SendBroadcastReturn { result, signer } => on_broadcast(m, result, signer, env),
        Message::SafeSendBroadcastReturn(result) => on_safe_broadcast(m, result, env),
        Message::SafeSendProposeReturn(result) => on_safe_propose(m, result, env),
        _ => silent(m),
    }
}

impl WalletScreen {
    /// Takes in what was fetched or sent.
    pub(crate) fn update_news(&mut self, msg: Message, env: &Env) -> (r: Reply)
        ensures
            (Turn { state: final(self)@, answer: r@ }) == on_news(old(self)@, msg, env@),
    {
        proof {
            reveal(on_news);
        }
        match msg {
            Message::VerificationRefreshed(status) => {
                self.verification = status;
                return Reply::idle();
            },
            Message::SafesUpdated(safes) => {
                return self.safes_updated(safes, env);
            },
            Message::PortfolioFetched { address, network, result } => {
                return self.portfolio_fetched(
                    address,
                    network,
                    result,
                    env,
                );
            },
            Message::HistoryFetched { address, chain, result } => {
                return self.history_fetched(
                    address,
                    chain,
                    result,
                );
            },
            Message::SafePendingFetched { safe, chain, result } => {
                return self.safe_pending_fetched(
                    safe,
                    chain,
                    result,
                );
            },
            Message::SwapTokensRefetched { address, network, slots, result } => {
                return self.swap_tokens_refetched(address, network, slots, result, env);
            },
            Message::RetryHistory => {
                return self.retry_history(env);
            },
            Message::RefreshPortfolio => {
                return self.refresh_portfolio(env);
            },
            Message::SafeTxDetailLoaded(result) => {
                return self.safe_tx_detail_loaded(result);
            },
            Message::SafeTxInnerSimLoaded { safe_tx_hash, again } => {
                return self.safe_tx_inner_sim_loaded(
                    safe_tx_hash,
                    again,
                );
            },
            Message::SafeTxExecSimLoaded { safe_tx_hash, again } => {
                return self.safe_tx_exec_sim_loaded(
                    safe_tx_hash,
                    again,
                );
            },
            Message::SafeTxActionDone(result) => {
                return self.safe_tx_action_done(result, env);
            },
            Message::SendBroadcastReturn { result, signer } => {
                return self.send_broadcast_return(
                    result,
                    signer,
                    env,
                );
            },
            Message::SafeSendBroadcastReturn(result) => {
                return self.safe_send_broadcast_return(
                    result,
                    env,
                );
            },
            Message::SafeSendProposeReturn(result) => {
                return self.safe_send_propose_return(result, env);
            },
            _ => {
                return Reply::idle();
            },
        }
    }
}

} // verus!
